use google_place_api::Client;
use google_place_api::SearchParams;
use google_place_api::SendUrl;
use google_place_api::models::LatLng;
use google_place_api::place::Field;
use google_place_api::place::InputType;

fn format_search_params<T: AsRef<str>>(params: &[(T, T)]) -> String {
    params
        .iter()
        .map(|(a, b)| format!("({},{})", a.as_ref(), b.as_ref()))
        .collect::<Vec<_>>()
        .join(",")
}

#[test]
fn test_nearby_request() {
    let request = Client::new("hello kirby".to_owned()).nearby("0".to_owned(), "0".to_owned());

    assert_eq!(request.token, "hello kirby");
    assert_eq!(
        request.location,
        LatLng::new("0".to_owned(), "0".to_owned())
    );
    assert_eq!(request.keyword, None);
    assert_eq!(request.language, None);
    assert_eq!(request.maxprice, None);
    assert_eq!(request.minprice, None);
    assert_eq!(request.opennow, None);
    assert_eq!(request.pagetoken, None);
    assert_eq!(request.request_type, None);
}

#[test]
fn test_nearby_prominence() {
    let request = Client::new("hello kirby".to_owned())
        .nearby("0".to_owned(), "0".to_owned())
        .prominence(1000);

    assert_eq!(request.radius, 1000);

    let left = vec![
        ("key", "hello kirby"),
        ("location", "0,0"),
        ("rankby", "prominence"),
        ("radius", "1000"),
    ];

    let right = request.get_params();

    assert_eq!(format_search_params(&left), format_search_params(&right));
}

#[test]
fn test_nearby_distance() {
    let request = Client::new("hello kirby".to_owned())
        .nearby("0".to_owned(), "0".to_owned())
        .distance()
        .set_type("restaurant".to_owned())
        .set_keyword("food".to_owned());

    let left = vec![
        ("key", "hello kirby"),
        ("location", "0,0"),
        ("keyword", "food"),
        ("type", "restaurant"),
        ("rankby", "distance"),
    ];
    let right = request.get_params();

    assert_eq!(format_search_params(&left), format_search_params(&right));
}

#[test]
fn coordinate_zero_serializes_to_comma_form() {
    let c = LatLng::new("0".to_owned(), "0".to_owned());
    assert_eq!(c.to_text(), "0,0");
}

#[test]
fn coordinate_keeps_decimal_text() {
    let c = LatLng::new("40.7128".to_owned(), "-74.006".to_owned());
    assert_eq!(c.to_text(), "40.7128,-74.006");
}

#[test]
fn find_without_fields_has_no_fields_param() {
    let request = Client::new("token-a".to_owned())
        .find("Museum of Art".to_owned(), InputType::TextQuery);
    let params = request.get_params();
    assert_eq!(
        params,
        vec![
            ("key".to_owned(), "token-a".to_owned()),
            ("input".to_owned(), "Museum of Art".to_owned()),
            ("inputtype".to_owned(), "textquery".to_owned()),
        ]
    );
    assert!(params.iter().all(|(k, _)| k != "fields"));
}

#[test]
fn find_with_fields_joins_tokens_in_order() {
    let mut request = Client::new("token-a".to_owned())
        .find("Museum of Art".to_owned(), InputType::TextQuery);
    request.add_fields(vec![Field::Name, Field::Rating]);
    let params = request.get_params();
    assert_eq!(params.len(), 4);
    assert_eq!(
        params[3],
        ("fields".to_owned(), "name,rating".to_owned())
    );
}

#[test]
fn find_duplicate_fields_are_kept() {
    let mut request = Client::new("t".to_owned()).find("x".to_owned(), InputType::TextQuery);
    request.add_field(Field::Name);
    request.add_field(Field::Name);
    let params = request.get_params();
    assert_eq!(params[3], ("fields".to_owned(), "name,name".to_owned()));
}

#[test]
fn opennow_false_or_unset_is_skipped() {
    let mut request = Client::new("t".to_owned()).nearby("1".to_owned(), "2".to_owned());
    let params = request.get_params();
    assert!(params.iter().all(|(k, _)| k != "opennow"));

    request.opennow = Some(false);
    let params = request.get_params();
    assert!(params.iter().all(|(k, _)| k != "opennow"));
}

#[test]
fn opennow_true_is_serialized() {
    let mut request = Client::new("t".to_owned()).nearby("1".to_owned(), "2".to_owned());
    request.opennow = Some(true);
    let params = request.get_params();
    assert!(params.contains(&("opennow".to_owned(), "true".to_owned())));
}

#[test]
fn set_keyword_twice_keeps_last_value() {
    let request = Client::new("t".to_owned())
        .nearby("0".to_owned(), "0".to_owned())
        .distance()
        .set_type("cafe".to_owned())
        .set_keyword("coffee".to_owned())
        .set_keyword("espresso".to_owned());
    assert_eq!(request.request.keyword, Some("espresso".to_owned()));
    let params = request.get_params();
    assert!(params.contains(&("keyword".to_owned(), "espresso".to_owned())));
    assert!(!params.contains(&("keyword".to_owned(), "coffee".to_owned())));
}

#[test]
fn distance_params_never_hold_radius() {
    let request = Client::new("t".to_owned())
        .nearby("0".to_owned(), "0".to_owned())
        .distance()
        .set_keyword("food".to_owned())
        .set_type("restaurant".to_owned());
    let params = request.get_params();
    assert!(params.iter().all(|(k, _)| k != "radius"));
    assert!(params.contains(&("rankby".to_owned(), "distance".to_owned())));
}

#[test]
fn prominence_params_hold_rankby_and_radius() {
    let request = Client::new("t".to_owned())
        .nearby("3.5".to_owned(), "-7".to_owned())
        .prominence(0);
    let params = request.get_params();
    assert!(params.contains(&("rankby".to_owned(), "prominence".to_owned())));
    assert!(params.contains(&("radius".to_owned(), "0".to_owned())));
    assert!(params.iter().all(|(k, _)| k != "type" && k != "keyword"));
}

#[test]
fn prominence_radius_renders_large_values() {
    let request = Client::new("t".to_owned())
        .nearby("0".to_owned(), "0".to_owned())
        .prominence(4294967295);
    let params = request.get_params();
    assert!(params.contains(&("radius".to_owned(), "4294967295".to_owned())));
}

#[test]
fn shared_optional_attributes_keep_declaration_order() {
    let mut request = Client::new("k".to_owned()).nearby("1".to_owned(), "2".to_owned());
    request.keyword = Some("food".to_owned());
    request.language = Some("en".to_owned());
    request.maxprice = Some("4".to_owned());
    request.minprice = Some("1".to_owned());
    request.opennow = Some(true);
    request.pagetoken = Some("pt".to_owned());
    request.request_type = Some("restaurant".to_owned());
    let params = request.get_params();
    let keys: Vec<&str> = params.iter().map(|(k, _)| k.as_str()).collect();
    assert_eq!(
        keys,
        vec![
            "key",
            "location",
            "keyword",
            "language",
            "maxprice",
            "minprice",
            "opennow",
            "pagetoken",
            "type"
        ]
    );
}

#[test]
fn input_type_tokens() {
    assert_eq!(InputType::TextQuery.as_param(), "textquery");
    assert_eq!(InputType::PhoneNumber.as_param(), "phonenumber");
}

#[test]
fn field_tokens_are_snake_case() {
    assert_eq!(Field::BusinessStatus.as_param(), "business_status");
    assert_eq!(Field::IconMaskBaseUri.as_param(), "icon_mask_base_uri");
    assert_eq!(Field::OpeningHours.as_param(), "opening_hours");
    assert_eq!(Field::UserRatingsTotal.as_param(), "user_ratings_total");
    assert_eq!(Field::PlaceId.as_param(), "place_id");
}

#[test]
fn endpoints_differ_by_family() {
    let find = Client::new("t".to_owned()).find("x".to_owned(), InputType::TextQuery);
    let near = Client::new("t".to_owned())
        .nearby("0".to_owned(), "0".to_owned())
        .prominence(10);
    assert_eq!(
        find.get_url(),
        "https://maps.googleapis.com/maps/api/place/findplacefromtext/json"
    );
    assert_eq!(
        near.get_url(),
        "https://maps.googleapis.com/maps/api/place/nearbysearch/json"
    );
}

#[test]
fn one_attribute_stages_overwrite_their_own_value() {
    let request = Client::new("t".to_owned())
        .nearby("0".to_owned(), "0".to_owned())
        .distance()
        .set_type("cafe".to_owned())
        .set_type("bakery".to_owned())
        .set_keyword("bread".to_owned());
    assert_eq!(request.request.request_type, Some("bakery".to_owned()));
    assert_eq!(request.request.keyword, Some("bread".to_owned()));

    let request = Client::new("t".to_owned())
        .nearby("0".to_owned(), "0".to_owned())
        .distance()
        .set_keyword("bread".to_owned())
        .set_keyword("cake".to_owned())
        .set_type("bakery".to_owned());
    assert_eq!(request.request.keyword, Some("cake".to_owned()));
    assert_eq!(request.request.request_type, Some("bakery".to_owned()));
}
