use google_place_api::json::Json;
use google_place_api::models::DecodeError;
use google_place_api::models::Place;
use google_place_api::models::SearchStatus;
use google_place_api::nearby;
use google_place_api::place;

/// Turns a parsed JSON document into the library's tree, keeping numbers
/// as their decimal text.
fn to_tree(v: &serde_json::Value) -> Json {
    match v {
        serde_json::Value::Null => Json::Null,
        serde_json::Value::Bool(b) => Json::Bool(*b),
        serde_json::Value::Number(n) => Json::Num(n.to_string()),
        serde_json::Value::String(s) => Json::Str(s.clone()),
        serde_json::Value::Array(a) => Json::Arr(a.iter().map(to_tree).collect()),
        serde_json::Value::Object(o) => {
            Json::Obj(o.iter().map(|(k, x)| (k.clone(), to_tree(x))).collect())
        },
    }
}

fn parse(text: &str) -> Json {
    to_tree(&serde_json::from_str::<serde_json::Value>(text).unwrap())
}

#[test]
fn nearby_ok_with_empty_results() {
    let body = parse("{\"status\":\"OK\",\"results\":[]}");
    let response = nearby::Response::decode(&body).unwrap();
    assert_eq!(response.status, SearchStatus::Okay);
    assert!(response.results.is_empty());
    assert_eq!(response.error_message, None);
    assert_eq!(response.info_messages, None);
    assert_eq!(response.next_page_token, None);
}

#[test]
fn nearby_bogus_status_is_a_decode_error() {
    let body = parse("{\"status\":\"BOGUS\"}");
    let err = nearby::Response::decode(&body).unwrap_err();
    assert_eq!(err, DecodeError::UnknownStatus);
}

#[test]
fn nearby_missing_status_is_a_shape_error() {
    let body = parse("{\"results\":[]}");
    let err = nearby::Response::decode(&body).unwrap_err();
    assert_eq!(err, DecodeError::Shape);
}

#[test]
fn nearby_missing_results_is_a_shape_error() {
    let body = parse("{\"status\":\"OK\"}");
    let err = nearby::Response::decode(&body).unwrap_err();
    assert_eq!(err, DecodeError::Shape);
}

#[test]
fn every_status_token_decodes() {
    let cases = vec![
        ("OK", SearchStatus::Okay),
        ("ZERO_RESULTS", SearchStatus::ZeroResults),
        ("INVALID_REQUEST", SearchStatus::InvalidRequest),
        ("OVER_QUERY_LIMIT", SearchStatus::OverQueryLimit),
        ("REQUEST_DENIED", SearchStatus::RequestDenied),
        ("UNKNOWN_ERROR", SearchStatus::UnknownError),
    ];
    for (token, expected) in cases {
        assert_eq!(SearchStatus::from_token(&token.to_owned()), Ok(expected));
    }
    assert_eq!(
        SearchStatus::from_token(&"ok".to_owned()),
        Err(DecodeError::UnknownStatus)
    );
}

#[test]
fn unknown_error_status_is_data_not_failure() {
    let body = parse("{\"status\":\"UNKNOWN_ERROR\",\"results\":[]}");
    let response = nearby::Response::decode(&body).unwrap();
    assert_eq!(response.status, SearchStatus::UnknownError);
}

#[test]
fn nearby_keeps_error_and_page_token() {
    let body = parse(
        "{\"status\":\"REQUEST_DENIED\",\"results\":[],\
         \"error_message\":\"bad key\",\"next_page_token\":\"abc\",\
         \"info_messages\":[\"a\",\"b\"]}",
    );
    let response = nearby::Response::decode(&body).unwrap();
    assert_eq!(response.error_message, Some("bad key".to_owned()));
    assert_eq!(response.next_page_token, Some("abc".to_owned()));
    assert_eq!(
        response.info_messages,
        Some(vec!["a".to_owned(), "b".to_owned()])
    );
}

#[test]
fn unknown_members_are_ignored() {
    let body = parse("{\"status\":\"OK\",\"results\":[],\"html_attributions\":[],\"extra\":5}");
    assert!(nearby::Response::decode(&body).is_ok());
}

#[test]
fn find_ok_with_candidates() {
    let body = parse(
        "{\"status\":\"OK\",\"candidates\":[{\"name\":\"Blue Cafe\",\
         \"rating\":4.5,\"price_level\":2,\"user_ratings_total\":120,\
         \"utc_offset\":-300,\"types\":[\"cafe\",\"food\"]}]}",
    );
    let response = place::Response::decode(&body).unwrap();
    assert_eq!(response.status, SearchStatus::Okay);
    assert_eq!(response.candidates.len(), 1);
    let p = &response.candidates[0];
    assert_eq!(p.name, Some("Blue Cafe".to_owned()));
    assert_eq!(p.rating, Some("4.5".to_owned()));
    assert_eq!(p.price_level, Some(2));
    assert_eq!(p.user_ratings_total, Some(120));
    assert_eq!(p.utc_offset, Some(-300));
    assert_eq!(p.types, Some(vec!["cafe".to_owned(), "food".to_owned()]));
    assert_eq!(p.website, None);
}

#[test]
fn find_uses_candidates_not_results() {
    let body = parse("{\"status\":\"OK\",\"results\":[]}");
    assert_eq!(
        place::Response::decode(&body).unwrap_err(),
        DecodeError::Shape
    );
}

#[test]
fn place_decodes_nested_entities() {
    let body = parse(
        "{\"geometry\":{\"location\":{\"lat\":40.7,\"lng\":-74.0},\
         \"viewport\":{\"northeast\":{\"lat\":41,\"lng\":-73},\
         \"southwest\":{\"lat\":40,\"lng\":-75}}},\
         \"opening_hours\":{\"open_now\":true,\
         \"periods\":[{\"close\":{\"day\":1,\"time\":\"1700\"},\
         \"open\":{\"day\":1,\"time\":\"0900\"}}],\
         \"weekday_text\":[\"Mon 9-5\"]},\
         \"photos\":[{\"height\":400,\"width\":600,\
         \"photo_reference\":\"ref1\",\"html_attributions\":[\"someone\"]}],\
         \"plus_code\":{\"global_code\":\"87G8Q2\",\"compound_code\":\"Q2+XX\"},\
         \"reviews\":[{\"author_name\":\"Ana\",\"rating\":5,\
         \"relative_time_description\":\"a week ago\",\"time\":1700000000,\
         \"text\":\"fine\"}]}",
    );
    let p = Place::decode(&body).unwrap();
    let g = p.geometry.unwrap();
    assert_eq!(g.location.lat, "40.7");
    assert_eq!(g.location.lng, "-74.0");
    assert_eq!(g.viewport.northeast.lat, "41");
    let h = p.opening_hours.unwrap();
    assert_eq!(h.open_now, Some(true));
    let periods = h.periods.unwrap();
    assert_eq!(periods[0].open.day, 1);
    assert_eq!(periods[0].open.time, "0900");
    assert_eq!(periods[0].close.time, "1700");
    let photos = p.photos.unwrap();
    assert_eq!(photos[0].height, 400);
    assert_eq!(photos[0].html_attributions, vec!["someone".to_owned()]);
    let code = p.plus_code.unwrap();
    assert_eq!(code.global_code, "87G8Q2");
    let reviews = p.reviews.unwrap();
    assert_eq!(reviews[0].author_name, "Ana");
    assert_eq!(reviews[0].rating, 5);
    assert_eq!(reviews[0].time, 1700000000);
    assert_eq!(reviews[0].text, Some("fine".to_owned()));
    assert_eq!(reviews[0].author_url, None);
}

#[test]
fn empty_place_object_decodes_to_all_absent() {
    let body = parse("{}");
    let p = Place::decode(&body).unwrap();
    assert_eq!(p.name, None);
    assert_eq!(p.geometry.is_none(), true);
    assert_eq!(p.rating, None);
}

#[test]
fn wrongly_typed_member_is_a_shape_error() {
    let body = parse("{\"name\":5}");
    assert_eq!(Place::decode(&body).unwrap_err(), DecodeError::Shape);
}

#[test]
fn string_rating_is_a_shape_error() {
    let body = parse("{\"rating\":\"4.5\"}");
    assert_eq!(Place::decode(&body).unwrap_err(), DecodeError::Shape);
}

#[test]
fn out_of_range_price_level_is_a_shape_error() {
    let body = parse("{\"price_level\":300}");
    assert_eq!(Place::decode(&body).unwrap_err(), DecodeError::Shape);
}

#[test]
fn out_of_range_user_ratings_total_is_a_shape_error() {
    let body = parse("{\"user_ratings_total\":99999999999}");
    assert_eq!(Place::decode(&body).unwrap_err(), DecodeError::Shape);
}

#[test]
fn utc_offset_bounds() {
    let p = Place::decode(&parse("{\"utc_offset\":-32768}")).unwrap();
    assert_eq!(p.utc_offset, Some(-32768));
    let p = Place::decode(&parse("{\"utc_offset\":32767}")).unwrap();
    assert_eq!(p.utc_offset, Some(32767));
    assert_eq!(
        Place::decode(&parse("{\"utc_offset\":-32769}")).unwrap_err(),
        DecodeError::Shape
    );
    assert_eq!(
        Place::decode(&parse("{\"utc_offset\":32768}")).unwrap_err(),
        DecodeError::Shape
    );
}

#[test]
fn malformed_nested_place_fails_the_whole_response() {
    let body = parse("{\"status\":\"OK\",\"results\":[{\"name\":7}]}");
    assert_eq!(
        nearby::Response::decode(&body).unwrap_err(),
        DecodeError::Shape
    );
}

#[test]
fn non_object_body_is_a_shape_error() {
    let body = parse("[1,2,3]");
    assert_eq!(
        nearby::Response::decode(&body).unwrap_err(),
        DecodeError::Shape
    );
}
