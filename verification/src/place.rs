//! The find-place search family: its request, the requestable fields, and
//! its response shape.
use vstd::prelude::*;

use crate::SearchParams;
use crate::SendUrl;
use crate::pairs_view;
use crate::json::Json;
use crate::json::json_member;
use crate::models::DecodeError;
use crate::models::PlaceV;
use crate::models::all_places_ok;
use crate::models::decode_place_arr;
use crate::models::get_opt_str;
use crate::models::get_opt_str_arr;
use crate::models::get_req_str;
use crate::models::place_seq;
use crate::models::spec_opt_str;
use crate::models::spec_opt_str_arr;
use crate::models::spec_req_str;
use crate::models::status_of_token;

pub use crate::models::Place;
pub use crate::models::SearchStatus;
pub use crate::models::AddressComponent;
pub use crate::models::Bounds;
pub use crate::models::Geometry;
pub use crate::models::LatLng;
pub use crate::models::PlaceOpeningHours;
pub use crate::models::PlaceOpeningHoursPeriod;
pub use crate::models::PlaceOpeningHoursPeriodDetail;
pub use crate::models::PlacePhoto;
pub use crate::models::PlusCode;
pub use crate::models::PlaceReview;

verus! {

/// How the input of a find-place request should be interpreted.
#[derive(Debug, Clone, Copy, PartialEq, Eq, Structural)]
pub enum InputType {
    TextQuery,
    PhoneNumber,
}

/// The wire token of an input type.
pub open spec fn input_type_token(t: InputType) -> Seq<char> {
    match t {
        InputType::TextQuery => "textquery"@,
        InputType::PhoneNumber => "phonenumber"@,
    }
}

impl InputType {
    /// The token this input type contributes to the `inputtype` parameter.
    pub fn as_param(&self) -> (r: &'static str)
        ensures
            r@ == input_type_token(*self),
    {
        match self {
            InputType::TextQuery => "textquery",
            InputType::PhoneNumber => "phonenumber",
        }
    }
}

/// A place attribute that a find-place request may ask for.
#[derive(Debug, Clone, Copy, PartialEq, Eq, Structural)]
pub enum Field {
    BusinessStatus,
    FormattedAddress,
    Geometry,
    Icon,
    IconMaskBaseUri,
    IconBackgroundColor,
    Name,
    Photo,
    PlaceId,
    PlusCode,
    OpeningHours,
    PriceLevel,
    Rating,
    UserRatingsTotal,
}

/// The wire token of a field.
pub open spec fn field_token(f: Field) -> Seq<char> {
    match f {
        Field::BusinessStatus => "business_status"@,
        Field::FormattedAddress => "formatted_address"@,
        Field::Geometry => "geometry"@,
        Field::Icon => "icon"@,
        Field::IconMaskBaseUri => "icon_mask_base_uri"@,
        Field::IconBackgroundColor => "icon_background_color"@,
        Field::Name => "name"@,
        Field::Photo => "photo"@,
        Field::PlaceId => "place_id"@,
        Field::PlusCode => "plus_code"@,
        Field::OpeningHours => "opening_hours"@,
        Field::PriceLevel => "price_level"@,
        Field::Rating => "rating"@,
        Field::UserRatingsTotal => "user_ratings_total"@,
    }
}

impl Field {
    /// The token this field contributes to the `fields` parameter.
    pub fn as_param(&self) -> (r: &'static str)
        ensures
            r@ == field_token(*self),
    {
        match self {
            Field::BusinessStatus => "business_status",
            Field::FormattedAddress => "formatted_address",
            Field::Geometry => "geometry",
            Field::Icon => "icon",
            Field::IconMaskBaseUri => "icon_mask_base_uri",
            Field::IconBackgroundColor => "icon_background_color",
            Field::Name => "name",
            Field::Photo => "photo",
            Field::PlaceId => "place_id",
            Field::PlusCode => "plus_code",
            Field::OpeningHours => "opening_hours",
            Field::PriceLevel => "price_level",
            Field::Rating => "rating",
            Field::UserRatingsTotal => "user_ratings_total",
        }
    }
}

/// The comma-joined tokens of a field list, in insertion order, duplicates
/// kept.
pub open spec fn fields_text(fs: Seq<Field>) -> Seq<char>
    decreases fs.len(),
{
    if fs.len() == 0 {
        Seq::empty()
    } else if fs.len() == 1 {
        field_token(fs[0])
    } else {
        fields_text(fs.drop_last()) + ","@ + field_token(fs.last())
    }
}

/// A find-place request: an input and its interpretation, plus the fields
/// the response should carry.
#[derive(Debug)]
pub struct Request {
    pub token: String,
    pub input: String,
    pub input_type: String,
    pub fields: Vec<Field>,
}

/// The serialized parameters of a find-place request: `key`, `input` and
/// `inputtype` always, then `fields` exactly when the field list is
/// nonempty.
pub open spec fn find_params(r: Request) -> Seq<(Seq<char>, Seq<char>)> {
    seq![("key"@, r.token@), ("input"@, r.input@), ("inputtype"@, r.input_type@)] + (
    if r.fields@.len() > 0 {
        seq![("fields"@, fields_text(r.fields@))]
    } else {
        Seq::<(Seq<char>, Seq<char>)>::empty()
    })
}

/// The API token is always the first serialized parameter, under `key`.
pub proof fn lemma_token_first(r: Request)
    ensures
        find_params(r)[0] == ("key"@, r.token@),
{
}

/// A request with no fields serializes no `fields` parameter; one with a
/// nonempty field list serializes exactly one, whose value joins the
/// tokens in insertion order.
pub proof fn lemma_fields_param(r: Request)
    ensures
        r.fields@.len() == 0 ==> forall|i: int| 0 <= i < find_params(r).len() ==> (
        #[trigger] find_params(r)[i]).0 != "fields"@,
        r.fields@.len() > 0 ==> find_params(r).contains(("fields"@, fields_text(r.fields@))),
{
    reveal_strlit("key");
    reveal_strlit("input");
    reveal_strlit("inputtype");
    reveal_strlit("fields");
    assert("key"@.len() == 3);
    assert("input"@.len() == 5);
    assert("inputtype"@.len() == 9);
    assert("fields"@.len() == 6);
    if r.fields@.len() == 0 {
        assert forall|i: int| 0 <= i < find_params(r).len() implies (#[trigger] find_params(
            r,
        )[i]).0 != "fields"@ by {}
    } else {
        assert(find_params(r)[3] == ("fields"@, fields_text(r.fields@)));
        assert(find_params(r).contains(("fields"@, fields_text(r.fields@))));
    }
}

impl Request {
    /// Appends one field to the request's field list.
    pub fn add_field(&mut self, field: Field)
        ensures
            final(self).fields@ == old(self).fields@.push(field),
            final(self).token == old(self).token,
            final(self).input == old(self).input,
            final(self).input_type == old(self).input_type,
    {
        self.fields.push(field);
    }

    /// Appends each given field, in order.
    pub fn add_fields(&mut self, fields: Vec<Field>)
        ensures
            final(self).fields@ == old(self).fields@ + fields@,
            final(self).token == old(self).token,
            final(self).input == old(self).input,
            final(self).input_type == old(self).input_type,
    {
        let n = fields.len();
        let mut i: usize = 0;
        while i < n
            invariant
                0 <= i <= n,
                n == fields@.len(),
                self.fields@ == old(self).fields@ + fields@.take(i as int),
                self.token == old(self).token,
                self.input == old(self).input,
                self.input_type == old(self).input_type,
            decreases n - i,
        {
            self.add_field(fields[i]);
            proof {
                assert(old(self).fields@ + fields@.take(i + 1) =~= (old(self).fields@
                    + fields@.take(i as int)).push(fields@[i as int]));
            }
            i += 1;
        }
        proof {
            assert(fields@.take(n as int) =~= fields@);
        }
    }
}

impl SendUrl for Request {
    open spec fn spec_url(&self) -> Seq<char> {
        "https://maps.googleapis.com/maps/api/place/findplacefromtext/json"@
    }

    fn get_url(&self) -> (r: &'static str) {
        "https://maps.googleapis.com/maps/api/place/findplacefromtext/json"
    }
}

impl SearchParams for Request {
    open spec fn spec_params(&self) -> Seq<(Seq<char>, Seq<char>)> {
        find_params(*self)
    }

    fn get_params(&self) -> (r: Vec<(String, String)>) {
        let mut params: Vec<(String, String)> = Vec::new();
        params.push(("key".to_owned(), self.token.clone()));
        params.push(("input".to_owned(), self.input.clone()));
        params.push(("inputtype".to_owned(), self.input_type.clone()));
        let n = self.fields.len();
        if n > 0 {
            let mut text = self.fields[0].as_param().to_owned();
            proof {
                assert(self.fields@.take(1)[0] == self.fields@[0]);
            }
            let mut i: usize = 1;
            while i < n
                invariant
                    1 <= i <= n,
                    n == self.fields@.len(),
                    text@ == fields_text(self.fields@.take(i as int)),
                decreases n - i,
            {
                text.append(",");
                text.append(self.fields[i].as_param());
                proof {
                    assert(self.fields@.take(i + 1).drop_last() =~= self.fields@.take(i as int));
                    assert(self.fields@.take(i + 1).last() == self.fields@[i as int]);
                }
                i += 1;
            }
            proof {
                assert(self.fields@.take(n as int) =~= self.fields@);
            }
            params.push(("fields".to_owned(), text));
        }
        proof {
            assert(pairs_view(params@) =~= find_params(*self));
        }
        params
    }
}

/// What a find-place response carries, seen through the ghost mirrors.
pub ghost struct ResponseV {
    pub candidates: Seq<PlaceV>,
    pub status: SearchStatus,
    pub error_message: Option<Seq<char>>,
    pub info_messages: Option<Seq<Seq<char>>>,
}

/// A find-place response: the candidate places and the API's outcome code.
#[derive(Debug)]
pub struct Response {
    pub candidates: Vec<Place>,
    pub status: SearchStatus,
    pub error_message: Option<String>,
    pub info_messages: Option<Vec<String>>,
}

impl View for Response {
    type V = ResponseV;

    open spec fn view(&self) -> ResponseV {
        ResponseV {
            candidates: self.candidates@.map_values(|p: Place| p@),
            status: self.status,
            error_message: self.error_message.deep_view(),
            info_messages: match self.info_messages {
                Some(ms) => Some(ms.deep_view()),
                None => None,
            },
        }
    }
}

/// A find-place response body: a required recognized `status`, a required
/// `candidates` array of places, optional messages. The status token is
/// examined first, so an unrecognized token is reported as such even when
/// the rest of the body is malformed too.
pub open spec fn spec_find_response(j: Json) -> Result<ResponseV, DecodeError> {
    match spec_req_str(j, "status"@) {
        Err(e) => Err(e),
        Ok(t) => match status_of_token(t) {
            None => Err(DecodeError::UnknownStatus),
            Some(st) => if (json_member(j, "candidates"@) matches Some(Json::Arr(a))
                && all_places_ok(a@)) && spec_opt_str(j, "error_message"@) is Ok && spec_opt_str_arr(
                j,
                "info_messages"@,
            ) is Ok {
                Ok(
                    ResponseV {
                        candidates: place_seq(json_member(j, "candidates"@)->Some_0->Arr_0@),
                        status: st,
                        error_message: spec_opt_str(j, "error_message"@)->Ok_0,
                        info_messages: spec_opt_str_arr(j, "info_messages"@)->Ok_0,
                    },
                )
            } else {
                Err(DecodeError::Shape)
            },
        },
    }
}

impl Response {
    /// Strict decoding of a find-place response body.
    pub fn decode(j: &Json) -> (r: Result<Response, DecodeError>)
        ensures
            match r {
                Ok(v) => spec_find_response(*j) == Ok::<ResponseV, DecodeError>(v@),
                Err(e) => spec_find_response(*j) == Err::<ResponseV, DecodeError>(e),
            },
    {
        let status_text = match get_req_str(j, &"status".to_owned()) {
            Ok(t) => t,
            Err(e) => return Err(e),
        };
        let status = match SearchStatus::from_token(&status_text) {
            Ok(s) => s,
            Err(e) => return Err(e),
        };
        let candidates = match j.get(&"candidates".to_owned()) {
            Some(Json::Arr(a)) => match decode_place_arr(a) {
                Ok(ps) => ps,
                Err(e) => return Err(e),
            },
            _ => {
                return Err(DecodeError::Shape);
            },
        };
        let error_message = match get_opt_str(j, &"error_message".to_owned()) {
            Ok(v) => v,
            Err(e) => return Err(e),
        };
        let info_messages = match get_opt_str_arr(j, &"info_messages".to_owned()) {
            Ok(v) => v,
            Err(e) => return Err(e),
        };
        Ok(Response { candidates, status, error_message, info_messages })
    }
}

} // verus!
