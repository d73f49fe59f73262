//! Domain entities shared by both search families, and their strict
//! decoding from JSON trees.
//!
//! Every entity has a ghost mirror (`...V`) in which text is a `Seq<char>`
//! and lists are `Seq`; the decoding contracts are stated over those
//! mirrors, so each decoder's result is pinned down exactly.
use vstd::prelude::*;

use crate::json::Json;
use crate::json::json_member;
use crate::json::is_digits;
use crate::json::dec_val;
use crate::json::signed_dec_val;
use crate::json::parse_u8;
use crate::json::parse_u32;
use crate::json::parse_i16;

verus! {

/// Why a JSON body was rejected: it did not have the expected shape, or
/// its status token is outside the closed status enumeration.
#[derive(Debug, Clone, Copy, PartialEq, Eq, Structural)]
pub enum DecodeError {
    Shape,
    UnknownStatus,
}

/// The outcome code of a search response, a closed enumeration.
/// A token outside this set is a decode failure, not a fallback value.
#[derive(Debug, Clone, Copy, PartialEq, Eq, Structural)]
pub enum SearchStatus {
    Okay,
    ZeroResults,
    InvalidRequest,
    OverQueryLimit,
    RequestDenied,
    UnknownError,
}

/// The status named by a wire token, if the token is recognized.
pub open spec fn status_of_token(t: Seq<char>) -> Option<SearchStatus> {
    if t == "OK"@ {
        Some(SearchStatus::Okay)
    } else if t == "ZERO_RESULTS"@ {
        Some(SearchStatus::ZeroResults)
    } else if t == "INVALID_REQUEST"@ {
        Some(SearchStatus::InvalidRequest)
    } else if t == "OVER_QUERY_LIMIT"@ {
        Some(SearchStatus::OverQueryLimit)
    } else if t == "REQUEST_DENIED"@ {
        Some(SearchStatus::RequestDenied)
    } else if t == "UNKNOWN_ERROR"@ {
        Some(SearchStatus::UnknownError)
    } else {
        None
    }
}

impl SearchStatus {
    /// Maps a wire token to its status; any unrecognized token is refused.
    pub fn from_token(t: &String) -> (r: Result<SearchStatus, DecodeError>)
        ensures
            match status_of_token(t@) {
                Some(s) => r == Ok::<SearchStatus, DecodeError>(s),
                None => r == Err::<SearchStatus, DecodeError>(DecodeError::UnknownStatus),
            },
    {
        if *t == "OK".to_owned() {
            Ok(SearchStatus::Okay)
        } else if *t == "ZERO_RESULTS".to_owned() {
            Ok(SearchStatus::ZeroResults)
        } else if *t == "INVALID_REQUEST".to_owned() {
            Ok(SearchStatus::InvalidRequest)
        } else if *t == "OVER_QUERY_LIMIT".to_owned() {
            Ok(SearchStatus::OverQueryLimit)
        } else if *t == "REQUEST_DENIED".to_owned() {
            Ok(SearchStatus::RequestDenied)
        } else if *t == "UNKNOWN_ERROR".to_owned() {
            Ok(SearchStatus::UnknownError)
        } else {
            Err(DecodeError::UnknownStatus)
        }
    }
}

/// An optional string member: absent is `None`, a string is kept, any
/// other shape is refused.
pub open spec fn spec_opt_str(j: Json, key: Seq<char>) -> Result<Option<Seq<char>>, DecodeError> {
    match json_member(j, key) {
        None => Ok(None),
        Some(Json::Str(s)) => Ok(Some(s@)),
        Some(_) => Err(DecodeError::Shape),
    }
}

pub fn get_opt_str(j: &Json, key: &String) -> (r: Result<Option<String>, DecodeError>)
    ensures
        match r {
            Ok(v) => spec_opt_str(*j, key@) == Ok::<Option<Seq<char>>, DecodeError>(v.deep_view()),
            Err(e) => spec_opt_str(*j, key@) == Err::<Option<Seq<char>>, DecodeError>(e),
        },
{
    match j.get(key) {
        None => Ok(None),
        Some(Json::Str(s)) => Ok(Some(s.clone())),
        Some(_) => Err(DecodeError::Shape),
    }
}

/// A required string member.
pub open spec fn spec_req_str(j: Json, key: Seq<char>) -> Result<Seq<char>, DecodeError> {
    match json_member(j, key) {
        Some(Json::Str(s)) => Ok(s@),
        _ => Err(DecodeError::Shape),
    }
}

pub fn get_req_str(j: &Json, key: &String) -> (r: Result<String, DecodeError>)
    ensures
        match r {
            Ok(v) => spec_req_str(*j, key@) == Ok::<Seq<char>, DecodeError>(v@),
            Err(e) => spec_req_str(*j, key@) == Err::<Seq<char>, DecodeError>(e),
        },
{
    match j.get(key) {
        Some(Json::Str(s)) => Ok(s.clone()),
        _ => Err(DecodeError::Shape),
    }
}

/// An optional boolean member.
pub open spec fn spec_opt_bool(j: Json, key: Seq<char>) -> Result<Option<bool>, DecodeError> {
    match json_member(j, key) {
        None => Ok(None),
        Some(Json::Bool(b)) => Ok(Some(b)),
        Some(_) => Err(DecodeError::Shape),
    }
}

pub fn get_opt_bool(j: &Json, key: &String) -> (r: Result<Option<bool>, DecodeError>)
    ensures
        match r {
            Ok(v) => spec_opt_bool(*j, key@) == Ok::<Option<bool>, DecodeError>(v),
            Err(e) => spec_opt_bool(*j, key@) == Err::<Option<bool>, DecodeError>(e),
        },
{
    match j.get(key) {
        None => Ok(None),
        Some(Json::Bool(b)) => Ok(Some(*b)),
        Some(_) => Err(DecodeError::Shape),
    }
}

/// An optional numeric member whose decimal text is kept as it stands.
pub open spec fn spec_opt_num_text(j: Json, key: Seq<char>) -> Result<
    Option<Seq<char>>,
    DecodeError,
> {
    match json_member(j, key) {
        None => Ok(None),
        Some(Json::Num(t)) => Ok(Some(t@)),
        Some(_) => Err(DecodeError::Shape),
    }
}

pub fn get_opt_num_text(j: &Json, key: &String) -> (r: Result<Option<String>, DecodeError>)
    ensures
        match r {
            Ok(v) => spec_opt_num_text(*j, key@) == Ok::<Option<Seq<char>>, DecodeError>(
                v.deep_view(),
            ),
            Err(e) => spec_opt_num_text(*j, key@) == Err::<Option<Seq<char>>, DecodeError>(e),
        },
{
    match j.get(key) {
        None => Ok(None),
        Some(Json::Num(t)) => Ok(Some(t.clone())),
        Some(_) => Err(DecodeError::Shape),
    }
}

/// A required numeric member holding an unsigned integer within `u8`.
pub open spec fn spec_req_u8(j: Json, key: Seq<char>) -> Result<u8, DecodeError> {
    match json_member(j, key) {
        Some(Json::Num(t)) => if is_digits(t@) && dec_val(t@) <= u8::MAX {
            Ok(dec_val(t@) as u8)
        } else {
            Err(DecodeError::Shape)
        },
        _ => Err(DecodeError::Shape),
    }
}

pub fn get_req_u8(j: &Json, key: &String) -> (r: Result<u8, DecodeError>)
    ensures
        match r {
            Ok(v) => spec_req_u8(*j, key@) == Ok::<u8, DecodeError>(v),
            Err(e) => spec_req_u8(*j, key@) == Err::<u8, DecodeError>(e),
        },
{
    match j.get(key) {
        Some(Json::Num(t)) => match parse_u8(t) {
            Some(v) => Ok(v),
            None => Err(DecodeError::Shape),
        },
        _ => Err(DecodeError::Shape),
    }
}

/// An optional numeric member holding an unsigned integer within `u8`.
pub open spec fn spec_opt_u8(j: Json, key: Seq<char>) -> Result<Option<u8>, DecodeError> {
    match json_member(j, key) {
        None => Ok(None),
        Some(Json::Num(t)) => if is_digits(t@) && dec_val(t@) <= u8::MAX {
            Ok(Some(dec_val(t@) as u8))
        } else {
            Err(DecodeError::Shape)
        },
        Some(_) => Err(DecodeError::Shape),
    }
}

pub fn get_opt_u8(j: &Json, key: &String) -> (r: Result<Option<u8>, DecodeError>)
    ensures
        match r {
            Ok(v) => spec_opt_u8(*j, key@) == Ok::<Option<u8>, DecodeError>(v),
            Err(e) => spec_opt_u8(*j, key@) == Err::<Option<u8>, DecodeError>(e),
        },
{
    match j.get(key) {
        None => Ok(None),
        Some(Json::Num(t)) => match parse_u8(t) {
            Some(v) => Ok(Some(v)),
            None => Err(DecodeError::Shape),
        },
        Some(_) => Err(DecodeError::Shape),
    }
}

/// A required numeric member holding an unsigned integer within `u32`.
pub open spec fn spec_req_u32(j: Json, key: Seq<char>) -> Result<u32, DecodeError> {
    match json_member(j, key) {
        Some(Json::Num(t)) => if is_digits(t@) && dec_val(t@) <= u32::MAX {
            Ok(dec_val(t@) as u32)
        } else {
            Err(DecodeError::Shape)
        },
        _ => Err(DecodeError::Shape),
    }
}

pub fn get_req_u32(j: &Json, key: &String) -> (r: Result<u32, DecodeError>)
    ensures
        match r {
            Ok(v) => spec_req_u32(*j, key@) == Ok::<u32, DecodeError>(v),
            Err(e) => spec_req_u32(*j, key@) == Err::<u32, DecodeError>(e),
        },
{
    match j.get(key) {
        Some(Json::Num(t)) => match parse_u32(t) {
            Some(v) => Ok(v),
            None => Err(DecodeError::Shape),
        },
        _ => Err(DecodeError::Shape),
    }
}

/// An optional numeric member holding an unsigned integer within `u32`.
pub open spec fn spec_opt_u32(j: Json, key: Seq<char>) -> Result<Option<u32>, DecodeError> {
    match json_member(j, key) {
        None => Ok(None),
        Some(Json::Num(t)) => if is_digits(t@) && dec_val(t@) <= u32::MAX {
            Ok(Some(dec_val(t@) as u32))
        } else {
            Err(DecodeError::Shape)
        },
        Some(_) => Err(DecodeError::Shape),
    }
}

pub fn get_opt_u32(j: &Json, key: &String) -> (r: Result<Option<u32>, DecodeError>)
    ensures
        match r {
            Ok(v) => spec_opt_u32(*j, key@) == Ok::<Option<u32>, DecodeError>(v),
            Err(e) => spec_opt_u32(*j, key@) == Err::<Option<u32>, DecodeError>(e),
        },
{
    match j.get(key) {
        None => Ok(None),
        Some(Json::Num(t)) => match parse_u32(t) {
            Some(v) => Ok(Some(v)),
            None => Err(DecodeError::Shape),
        },
        Some(_) => Err(DecodeError::Shape),
    }
}

/// An optional numeric member holding a signed integer within `i16`.
pub open spec fn spec_opt_i16(j: Json, key: Seq<char>) -> Result<Option<i16>, DecodeError> {
    match json_member(j, key) {
        None => Ok(None),
        Some(Json::Num(t)) => if signed_dec_val(t@) matches Some(v) && i16::MIN <= v <= i16::MAX {
            Ok(Some(signed_dec_val(t@)->Some_0 as i16))
        } else {
            Err(DecodeError::Shape)
        },
        Some(_) => Err(DecodeError::Shape),
    }
}

pub fn get_opt_i16(j: &Json, key: &String) -> (r: Result<Option<i16>, DecodeError>)
    ensures
        match r {
            Ok(v) => spec_opt_i16(*j, key@) == Ok::<Option<i16>, DecodeError>(v),
            Err(e) => spec_opt_i16(*j, key@) == Err::<Option<i16>, DecodeError>(e),
        },
{
    match j.get(key) {
        None => Ok(None),
        Some(Json::Num(t)) => match parse_i16(t) {
            Some(v) => Ok(Some(v)),
            None => Err(DecodeError::Shape),
        },
        Some(_) => Err(DecodeError::Shape),
    }
}

/// A required numeric member whose decimal text is kept as it stands.
pub open spec fn spec_req_num_text(j: Json, key: Seq<char>) -> Result<Seq<char>, DecodeError> {
    match json_member(j, key) {
        Some(Json::Num(t)) => Ok(t@),
        _ => Err(DecodeError::Shape),
    }
}

pub fn get_req_num_text(j: &Json, key: &String) -> (r: Result<String, DecodeError>)
    ensures
        match r {
            Ok(v) => spec_req_num_text(*j, key@) == Ok::<Seq<char>, DecodeError>(v@),
            Err(e) => spec_req_num_text(*j, key@) == Err::<Seq<char>, DecodeError>(e),
        },
{
    match j.get(key) {
        Some(Json::Num(t)) => Ok(t.clone()),
        _ => Err(DecodeError::Shape),
    }
}

/// Every element of `a` is a JSON string.
pub open spec fn all_strings(a: Seq<Json>) -> bool {
    forall|i: int| 0 <= i < a.len() ==> #[trigger] a[i] is Str
}

/// The character sequences of a run of JSON strings.
pub open spec fn str_seq(a: Seq<Json>) -> Seq<Seq<char>> {
    a.map_values(|x: Json| x->Str_0@)
}

/// Decodes an array of strings into owned strings.
pub fn decode_str_arr(a: &Vec<Json>) -> (r: Result<Vec<String>, DecodeError>)
    ensures
        match r {
            Ok(v) => all_strings(a@) && v.deep_view() == str_seq(a@),
            Err(e) => !all_strings(a@) && e == DecodeError::Shape,
        },
{
    let mut out: Vec<String> = Vec::new();
    let n = a.len();
    let mut i: usize = 0;
    while i < n
        invariant
            0 <= i <= n,
            n == a@.len(),
            out@.len() == i,
            forall|k: int| 0 <= k < i ==> #[trigger] a@[k] is Str,
            forall|k: int| 0 <= k < i ==> #[trigger] out@[k]@ == a@[k]->Str_0@,
        decreases n - i,
    {
        match &a[i] {
            Json::Str(s) => out.push(s.clone()),
            _ => {
                return Err(DecodeError::Shape);
            },
        }
        i += 1;
    }
    proof {
        assert(out.deep_view() =~= str_seq(a@));
    }
    Ok(out)
}

/// An optional member that is an array of strings.
pub open spec fn spec_opt_str_arr(j: Json, key: Seq<char>) -> Result<
    Option<Seq<Seq<char>>>,
    DecodeError,
> {
    match json_member(j, key) {
        None => Ok(None),
        Some(Json::Arr(a)) => if all_strings(a@) {
            Ok(Some(str_seq(a@)))
        } else {
            Err(DecodeError::Shape)
        },
        Some(_) => Err(DecodeError::Shape),
    }
}

pub fn get_opt_str_arr(j: &Json, key: &String) -> (r: Result<Option<Vec<String>>, DecodeError>)
    ensures
        match r {
            Ok(v) => spec_opt_str_arr(*j, key@) == Ok::<Option<Seq<Seq<char>>>, DecodeError>(
                v.deep_view(),
            ),
            Err(e) => spec_opt_str_arr(*j, key@) == Err::<Option<Seq<Seq<char>>>, DecodeError>(e),
        },
{
    match j.get(key) {
        None => Ok(None),
        Some(Json::Arr(a)) => match decode_str_arr(a) {
            Ok(v) => Ok(Some(v)),
            Err(e) => Err(e),
        },
        Some(_) => Err(DecodeError::Shape),
    }
}

/// A required member that is an array of strings.
pub open spec fn spec_req_str_arr(j: Json, key: Seq<char>) -> Result<Seq<Seq<char>>, DecodeError> {
    match json_member(j, key) {
        Some(Json::Arr(a)) => if all_strings(a@) {
            Ok(str_seq(a@))
        } else {
            Err(DecodeError::Shape)
        },
        _ => Err(DecodeError::Shape),
    }
}

pub fn get_req_str_arr(j: &Json, key: &String) -> (r: Result<Vec<String>, DecodeError>)
    ensures
        match r {
            Ok(v) => spec_req_str_arr(*j, key@) == Ok::<Seq<Seq<char>>, DecodeError>(v.deep_view()),
            Err(e) => spec_req_str_arr(*j, key@) == Err::<Seq<Seq<char>>, DecodeError>(e),
        },
{
    match j.get(key) {
        Some(Json::Arr(a)) => decode_str_arr(a),
        _ => Err(DecodeError::Shape),
    }
}

/// A latitude/longitude pair. Each component is held in its canonical
/// decimal text form; the pair serializes as `"<lat>,<lng>"`.
#[derive(Debug, Clone, PartialEq, Eq)]
pub struct LatLng {
    pub lat: String,
    pub lng: String,
}

/// The canonical query-parameter text of a coordinate: the latitude text,
/// a comma, the longitude text.
pub open spec fn latlng_text(lat: Seq<char>, lng: Seq<char>) -> Seq<char> {
    lat + ","@ + lng
}

/// The decimal rendering of an unsigned number: a run of digits,
/// optionally followed by a point and another run of digits.
pub open spec fn unsigned_coordinate_text(t: Seq<char>) -> bool {
    is_digits(t) || exists|i: int|
        1 <= i < t.len() && #[trigger] t[i] == '.' && is_digits(t.take(i)) && is_digits(
            t.skip(i + 1),
        )
}

/// The canonical text of a coordinate component: the decimal rendering of
/// a number, with an optional leading minus sign. In particular it holds
/// no comma, so the `"<lat>,<lng>"` form stays unambiguous.
pub open spec fn coordinate_text(t: Seq<char>) -> bool {
    if t.len() > 0 && t[0] == '-' {
        unsigned_coordinate_text(t.drop_first())
    } else {
        unsigned_coordinate_text(t)
    }
}

impl LatLng {
    pub fn new(lat: String, lng: String) -> (r: LatLng)
        requires
            coordinate_text(lat@),
            coordinate_text(lng@),
        ensures
            r.lat == lat,
            r.lng == lng,
    {
        LatLng { lat, lng }
    }

    /// The `"<lat>,<lng>"` form used as the `location` parameter.
    pub fn to_text(&self) -> (r: String)
        ensures
            r@ == latlng_text(self.lat@, self.lng@),
    {
        let mut out = self.lat.clone();
        out.append(",");
        out.append(self.lng.as_str());
        out
    }
}

pub ghost struct LatLngV {
    pub lat: Seq<char>,
    pub lng: Seq<char>,
}

impl View for LatLng {
    type V = LatLngV;

    open spec fn view(&self) -> LatLngV {
        LatLngV { lat: self.lat@, lng: self.lng@ }
    }
}

/// One component of an address, as the API labels it.
#[derive(Debug)]
pub struct AddressComponent {
    pub long_name: String,
    pub short_name: String,
    pub types: String,
}

pub ghost struct AddressComponentV {
    pub long_name: Seq<char>,
    pub short_name: Seq<char>,
    pub types: Seq<char>,
}

impl View for AddressComponent {
    type V = AddressComponentV;

    open spec fn view(&self) -> AddressComponentV {
        AddressComponentV {
            long_name: self.long_name@,
            short_name: self.short_name@,
            types: self.types@,
        }
    }
}

/// A rectangle of coordinates.
#[derive(Debug)]
pub struct Bounds {
    pub northeast: LatLng,
    pub southwest: LatLng,
}

pub ghost struct BoundsV {
    pub northeast: LatLngV,
    pub southwest: LatLngV,
}

impl View for Bounds {
    type V = BoundsV;

    open spec fn view(&self) -> BoundsV {
        BoundsV { northeast: self.northeast@, southwest: self.southwest@ }
    }
}

/// Where a place lies and the viewport in which to show it.
#[derive(Debug)]
pub struct Geometry {
    pub location: LatLng,
    pub viewport: Bounds,
}

pub ghost struct GeometryV {
    pub location: LatLngV,
    pub viewport: BoundsV,
}

impl View for Geometry {
    type V = GeometryV;

    open spec fn view(&self) -> GeometryV {
        GeometryV { location: self.location@, viewport: self.viewport@ }
    }
}

/// One boundary of an opening-hours period: a weekday and a time of day.
#[derive(Debug)]
pub struct PlaceOpeningHoursPeriodDetail {
    pub day: u8,
    pub time: String,
}

pub ghost struct PlaceOpeningHoursPeriodDetailV {
    pub day: u8,
    pub time: Seq<char>,
}

impl View for PlaceOpeningHoursPeriodDetail {
    type V = PlaceOpeningHoursPeriodDetailV;

    open spec fn view(&self) -> PlaceOpeningHoursPeriodDetailV {
        PlaceOpeningHoursPeriodDetailV { day: self.day, time: self.time@ }
    }
}

/// A span during which a place is open.
#[derive(Debug)]
pub struct PlaceOpeningHoursPeriod {
    pub close: PlaceOpeningHoursPeriodDetail,
    pub open: PlaceOpeningHoursPeriodDetail,
}

pub ghost struct PlaceOpeningHoursPeriodV {
    pub close: PlaceOpeningHoursPeriodDetailV,
    pub open: PlaceOpeningHoursPeriodDetailV,
}

impl View for PlaceOpeningHoursPeriod {
    type V = PlaceOpeningHoursPeriodV;

    open spec fn view(&self) -> PlaceOpeningHoursPeriodV {
        PlaceOpeningHoursPeriodV { close: self.close@, open: self.open@ }
    }
}

/// A place's opening hours, as far as the API knows them.
#[derive(Debug)]
pub struct PlaceOpeningHours {
    pub open_now: Option<bool>,
    pub periods: Option<Vec<PlaceOpeningHoursPeriod>>,
    pub weekday_text: Option<Vec<String>>,
}

pub ghost struct PlaceOpeningHoursV {
    pub open_now: Option<bool>,
    pub periods: Option<Seq<PlaceOpeningHoursPeriodV>>,
    pub weekday_text: Option<Seq<Seq<char>>>,
}

impl View for PlaceOpeningHours {
    type V = PlaceOpeningHoursV;

    open spec fn view(&self) -> PlaceOpeningHoursV {
        PlaceOpeningHoursV {
            open_now: self.open_now,
            periods: match self.periods {
                Some(ps) => Some(ps@.map_values(|p: PlaceOpeningHoursPeriod| p@)),
                None => None,
            },
            weekday_text: match self.weekday_text {
                Some(ts) => Some(ts.deep_view()),
                None => None,
            },
        }
    }
}

/// A photograph attached to a place.
#[derive(Debug)]
pub struct PlacePhoto {
    pub height: u32,
    pub width: u32,
    pub photo_reference: String,
    pub html_attributions: Vec<String>,
}

pub ghost struct PlacePhotoV {
    pub height: u32,
    pub width: u32,
    pub photo_reference: Seq<char>,
    pub html_attributions: Seq<Seq<char>>,
}

impl View for PlacePhoto {
    type V = PlacePhotoV;

    open spec fn view(&self) -> PlacePhotoV {
        PlacePhotoV {
            height: self.height,
            width: self.width,
            photo_reference: self.photo_reference@,
            html_attributions: self.html_attributions.deep_view(),
        }
    }
}

/// An encoded location reference.
#[derive(Debug)]
pub struct PlusCode {
    pub global_code: String,
    pub compound_code: String,
}

pub ghost struct PlusCodeV {
    pub global_code: Seq<char>,
    pub compound_code: Seq<char>,
}

impl View for PlusCode {
    type V = PlusCodeV;

    open spec fn view(&self) -> PlusCodeV {
        PlusCodeV { global_code: self.global_code@, compound_code: self.compound_code@ }
    }
}

/// A user review of a place.
#[derive(Debug)]
pub struct PlaceReview {
    pub author_name: String,
    pub rating: u8,
    pub relative_time_description: String,
    pub time: u32,
    pub author_url: Option<String>,
    pub language: Option<String>,
    pub profile_photo_url: Option<String>,
    pub text: Option<String>,
}

pub ghost struct PlaceReviewV {
    pub author_name: Seq<char>,
    pub rating: u8,
    pub relative_time_description: Seq<char>,
    pub time: u32,
    pub author_url: Option<Seq<char>>,
    pub language: Option<Seq<char>>,
    pub profile_photo_url: Option<Seq<char>>,
    pub text: Option<Seq<char>>,
}

impl View for PlaceReview {
    type V = PlaceReviewV;

    open spec fn view(&self) -> PlaceReviewV {
        PlaceReviewV {
            author_name: self.author_name@,
            rating: self.rating,
            relative_time_description: self.relative_time_description@,
            time: self.time,
            author_url: self.author_url.deep_view(),
            language: self.language.deep_view(),
            profile_photo_url: self.profile_photo_url.deep_view(),
            text: self.text.deep_view(),
        }
    }
}

/// One location record, almost every attribute optional: the API omits
/// absent data rather than sending nulls. The rating is kept in its
/// decimal text form.
#[derive(Debug)]
pub struct Place {
    pub address_components: Option<AddressComponent>,
    pub adr_address: Option<String>,
    pub business_status: Option<String>,
    pub formatted_address: Option<String>,
    pub formatted_phone_number: Option<String>,
    pub geometry: Option<Geometry>,
    pub icon: Option<String>,
    pub icon_background_color: Option<String>,
    pub icon_mask_base_uri: Option<String>,
    pub international_phone_number: Option<String>,
    pub name: Option<String>,
    pub opening_hours: Option<PlaceOpeningHours>,
    pub photos: Option<Vec<PlacePhoto>>,
    pub place_id: Option<String>,
    pub plus_code: Option<PlusCode>,
    pub price_level: Option<u8>,
    pub rating: Option<String>,
    pub reviews: Option<Vec<PlaceReview>>,
    pub types: Option<Vec<String>>,
    pub url: Option<String>,
    pub user_ratings_total: Option<u32>,
    pub utc_offset: Option<i16>,
    pub vicinity: Option<String>,
    pub website: Option<String>,
}

pub ghost struct PlaceV {
    pub address_components: Option<AddressComponentV>,
    pub adr_address: Option<Seq<char>>,
    pub business_status: Option<Seq<char>>,
    pub formatted_address: Option<Seq<char>>,
    pub formatted_phone_number: Option<Seq<char>>,
    pub geometry: Option<GeometryV>,
    pub icon: Option<Seq<char>>,
    pub icon_background_color: Option<Seq<char>>,
    pub icon_mask_base_uri: Option<Seq<char>>,
    pub international_phone_number: Option<Seq<char>>,
    pub name: Option<Seq<char>>,
    pub opening_hours: Option<PlaceOpeningHoursV>,
    pub photos: Option<Seq<PlacePhotoV>>,
    pub place_id: Option<Seq<char>>,
    pub plus_code: Option<PlusCodeV>,
    pub price_level: Option<u8>,
    pub rating: Option<Seq<char>>,
    pub reviews: Option<Seq<PlaceReviewV>>,
    pub types: Option<Seq<Seq<char>>>,
    pub url: Option<Seq<char>>,
    pub user_ratings_total: Option<u32>,
    pub utc_offset: Option<i16>,
    pub vicinity: Option<Seq<char>>,
    pub website: Option<Seq<char>>,
}

impl View for Place {
    type V = PlaceV;

    open spec fn view(&self) -> PlaceV {
        PlaceV {
            address_components: match self.address_components {
                Some(a) => Some(a@),
                None => None,
            },
            adr_address: self.adr_address.deep_view(),
            business_status: self.business_status.deep_view(),
            formatted_address: self.formatted_address.deep_view(),
            formatted_phone_number: self.formatted_phone_number.deep_view(),
            geometry: match self.geometry {
                Some(g) => Some(g@),
                None => None,
            },
            icon: self.icon.deep_view(),
            icon_background_color: self.icon_background_color.deep_view(),
            icon_mask_base_uri: self.icon_mask_base_uri.deep_view(),
            international_phone_number: self.international_phone_number.deep_view(),
            name: self.name.deep_view(),
            opening_hours: match self.opening_hours {
                Some(h) => Some(h@),
                None => None,
            },
            photos: match self.photos {
                Some(ps) => Some(ps@.map_values(|p: PlacePhoto| p@)),
                None => None,
            },
            place_id: self.place_id.deep_view(),
            plus_code: match self.plus_code {
                Some(c) => Some(c@),
                None => None,
            },
            price_level: self.price_level,
            rating: self.rating.deep_view(),
            reviews: match self.reviews {
                Some(rs) => Some(rs@.map_values(|r: PlaceReview| r@)),
                None => None,
            },
            types: match self.types {
                Some(ts) => Some(ts.deep_view()),
                None => None,
            },
            url: self.url.deep_view(),
            user_ratings_total: self.user_ratings_total,
            utc_offset: self.utc_offset,
            vicinity: self.vicinity.deep_view(),
            website: self.website.deep_view(),
        }
    }
}

/// A coordinate object: required numeric `lat` and `lng` members, kept in
/// their decimal text form.
pub open spec fn spec_latlng(j: Json) -> Result<LatLngV, DecodeError> {
    if spec_req_num_text(j, "lat"@) is Ok && spec_req_num_text(j, "lng"@) is Ok {
        Ok(
            LatLngV {
                lat: spec_req_num_text(j, "lat"@)->Ok_0,
                lng: spec_req_num_text(j, "lng"@)->Ok_0,
            },
        )
    } else {
        Err(DecodeError::Shape)
    }
}

impl LatLng {
    /// Strict decoding of a coordinate object.
    pub fn decode(j: &Json) -> (r: Result<LatLng, DecodeError>)
        ensures
            match r {
                Ok(v) => spec_latlng(*j) == Ok::<LatLngV, DecodeError>(v@),
                Err(e) => spec_latlng(*j) == Err::<LatLngV, DecodeError>(e),
            },
    {
        let lat = match get_req_num_text(j, &"lat".to_owned()) {
            Ok(v) => v,
            Err(e) => return Err(e),
        };
        let lng = match get_req_num_text(j, &"lng".to_owned()) {
            Ok(v) => v,
            Err(e) => return Err(e),
        };
        Ok(LatLng { lat, lng })
    }
}

/// A required member that is itself a coordinate object.
pub open spec fn spec_req_latlng(j: Json, key: Seq<char>) -> Result<LatLngV, DecodeError> {
    match json_member(j, key) {
        Some(v) => spec_latlng(v),
        None => Err(DecodeError::Shape),
    }
}

fn get_req_latlng(j: &Json, key: &String) -> (r: Result<LatLng, DecodeError>)
    ensures
        match r {
            Ok(v) => spec_req_latlng(*j, key@) == Ok::<LatLngV, DecodeError>(v@),
            Err(e) => spec_req_latlng(*j, key@) == Err::<LatLngV, DecodeError>(e),
        },
{
    match j.get(key) {
        Some(v) => LatLng::decode(v),
        None => Err(DecodeError::Shape),
    }
}

/// An address component: three required strings.
pub open spec fn spec_address_component(j: Json) -> Result<AddressComponentV, DecodeError> {
    if spec_req_str(j, "long_name"@) is Ok && spec_req_str(j, "short_name"@) is Ok && spec_req_str(
        j,
        "types"@,
    ) is Ok {
        Ok(
            AddressComponentV {
                long_name: spec_req_str(j, "long_name"@)->Ok_0,
                short_name: spec_req_str(j, "short_name"@)->Ok_0,
                types: spec_req_str(j, "types"@)->Ok_0,
            },
        )
    } else {
        Err(DecodeError::Shape)
    }
}

impl AddressComponent {
    /// Strict decoding of an address component object.
    pub fn decode(j: &Json) -> (r: Result<AddressComponent, DecodeError>)
        ensures
            match r {
                Ok(v) => spec_address_component(*j) == Ok::<AddressComponentV, DecodeError>(v@),
                Err(e) => spec_address_component(*j) == Err::<AddressComponentV, DecodeError>(e),
            },
    {
        let long_name = match get_req_str(j, &"long_name".to_owned()) {
            Ok(v) => v,
            Err(e) => return Err(e),
        };
        let short_name = match get_req_str(j, &"short_name".to_owned()) {
            Ok(v) => v,
            Err(e) => return Err(e),
        };
        let types = match get_req_str(j, &"types".to_owned()) {
            Ok(v) => v,
            Err(e) => return Err(e),
        };
        Ok(AddressComponent { long_name, short_name, types })
    }
}

/// A bounds object: required `northeast` and `southwest` coordinates.
pub open spec fn spec_bounds(j: Json) -> Result<BoundsV, DecodeError> {
    if spec_req_latlng(j, "northeast"@) is Ok && spec_req_latlng(j, "southwest"@) is Ok {
        Ok(
            BoundsV {
                northeast: spec_req_latlng(j, "northeast"@)->Ok_0,
                southwest: spec_req_latlng(j, "southwest"@)->Ok_0,
            },
        )
    } else {
        Err(DecodeError::Shape)
    }
}

impl Bounds {
    /// Strict decoding of a bounds object.
    pub fn decode(j: &Json) -> (r: Result<Bounds, DecodeError>)
        ensures
            match r {
                Ok(v) => spec_bounds(*j) == Ok::<BoundsV, DecodeError>(v@),
                Err(e) => spec_bounds(*j) == Err::<BoundsV, DecodeError>(e),
            },
    {
        let northeast = match get_req_latlng(j, &"northeast".to_owned()) {
            Ok(v) => v,
            Err(e) => return Err(e),
        };
        let southwest = match get_req_latlng(j, &"southwest".to_owned()) {
            Ok(v) => v,
            Err(e) => return Err(e),
        };
        Ok(Bounds { northeast, southwest })
    }
}

/// A geometry object: a required `location` coordinate and a required
/// `viewport` bounds object.
pub open spec fn spec_geometry(j: Json) -> Result<GeometryV, DecodeError> {
    if spec_req_latlng(j, "location"@) is Ok && (json_member(j, "viewport"@) matches Some(v)
        && spec_bounds(v) is Ok) {
        Ok(
            GeometryV {
                location: spec_req_latlng(j, "location"@)->Ok_0,
                viewport: spec_bounds(json_member(j, "viewport"@)->Some_0)->Ok_0,
            },
        )
    } else {
        Err(DecodeError::Shape)
    }
}

impl Geometry {
    /// Strict decoding of a geometry object.
    pub fn decode(j: &Json) -> (r: Result<Geometry, DecodeError>)
        ensures
            match r {
                Ok(v) => spec_geometry(*j) == Ok::<GeometryV, DecodeError>(v@),
                Err(e) => spec_geometry(*j) == Err::<GeometryV, DecodeError>(e),
            },
    {
        let location = match get_req_latlng(j, &"location".to_owned()) {
            Ok(v) => v,
            Err(e) => return Err(e),
        };
        let viewport = match j.get(&"viewport".to_owned()) {
            Some(v) => match Bounds::decode(v) {
                Ok(b) => b,
                Err(e) => return Err(e),
            },
            None => return Err(DecodeError::Shape),
        };
        Ok(Geometry { location, viewport })
    }
}

/// A period boundary: a required numeric `day` and a required string `time`.
pub open spec fn spec_period_detail(j: Json) -> Result<
    PlaceOpeningHoursPeriodDetailV,
    DecodeError,
> {
    if spec_req_u8(j, "day"@) is Ok && spec_req_str(j, "time"@) is Ok {
        Ok(
            PlaceOpeningHoursPeriodDetailV {
                day: spec_req_u8(j, "day"@)->Ok_0,
                time: spec_req_str(j, "time"@)->Ok_0,
            },
        )
    } else {
        Err(DecodeError::Shape)
    }
}

impl PlaceOpeningHoursPeriodDetail {
    /// Strict decoding of a period boundary object.
    pub fn decode(j: &Json) -> (r: Result<PlaceOpeningHoursPeriodDetail, DecodeError>)
        ensures
            match r {
                Ok(v) => spec_period_detail(*j) == Ok::<PlaceOpeningHoursPeriodDetailV, DecodeError>(
                    v@,
                ),
                Err(e) => spec_period_detail(*j) == Err::<
                    PlaceOpeningHoursPeriodDetailV,
                    DecodeError,
                >(e),
            },
    {
        let day = match get_req_u8(j, &"day".to_owned()) {
            Ok(v) => v,
            Err(e) => return Err(e),
        };
        let time = match get_req_str(j, &"time".to_owned()) {
            Ok(v) => v,
            Err(e) => return Err(e),
        };
        Ok(PlaceOpeningHoursPeriodDetail { day, time })
    }
}

/// An opening-hours period: required `close` and `open` boundaries.
pub open spec fn spec_period(j: Json) -> Result<PlaceOpeningHoursPeriodV, DecodeError> {
    if (json_member(j, "close"@) matches Some(c) && spec_period_detail(c) is Ok) && (json_member(
        j,
        "open"@,
    ) matches Some(o) && spec_period_detail(o) is Ok) {
        Ok(
            PlaceOpeningHoursPeriodV {
                close: spec_period_detail(json_member(j, "close"@)->Some_0)->Ok_0,
                open: spec_period_detail(json_member(j, "open"@)->Some_0)->Ok_0,
            },
        )
    } else {
        Err(DecodeError::Shape)
    }
}

impl PlaceOpeningHoursPeriod {
    /// Strict decoding of an opening-hours period object.
    pub fn decode(j: &Json) -> (r: Result<PlaceOpeningHoursPeriod, DecodeError>)
        ensures
            match r {
                Ok(v) => spec_period(*j) == Ok::<PlaceOpeningHoursPeriodV, DecodeError>(v@),
                Err(e) => spec_period(*j) == Err::<PlaceOpeningHoursPeriodV, DecodeError>(e),
            },
    {
        let close_detail = match j.get(&"close".to_owned()) {
            Some(v) => match PlaceOpeningHoursPeriodDetail::decode(v) {
                Ok(d) => d,
                Err(e) => return Err(e),
            },
            None => return Err(DecodeError::Shape),
        };
        let open_detail = match j.get(&"open".to_owned()) {
            Some(v) => match PlaceOpeningHoursPeriodDetail::decode(v) {
                Ok(d) => d,
                Err(e) => return Err(e),
            },
            None => return Err(DecodeError::Shape),
        };
        Ok(PlaceOpeningHoursPeriod { close: close_detail, open: open_detail })
    }
}

/// Every element of `a` decodes as an opening-hours period.
pub open spec fn all_periods_ok(a: Seq<Json>) -> bool {
    forall|i: int| 0 <= i < a.len() ==> #[trigger] spec_period(a[i]) is Ok
}

/// The decoded periods of a run of period objects.
pub open spec fn period_seq(a: Seq<Json>) -> Seq<PlaceOpeningHoursPeriodV> {
    a.map_values(|x: Json| spec_period(x)->Ok_0)
}

fn decode_period_arr(a: &Vec<Json>) -> (r: Result<Vec<PlaceOpeningHoursPeriod>, DecodeError>)
    ensures
        match r {
            Ok(v) => all_periods_ok(a@) && v@.map_values(|p: PlaceOpeningHoursPeriod| p@)
                == period_seq(a@),
            Err(e) => !all_periods_ok(a@) && e == DecodeError::Shape,
        },
{
    let mut out: Vec<PlaceOpeningHoursPeriod> = Vec::new();
    let n = a.len();
    let mut i: usize = 0;
    while i < n
        invariant
            0 <= i <= n,
            n == a@.len(),
            out@.len() == i,
            forall|k: int| 0 <= k < i ==> #[trigger] spec_period(a@[k]) is Ok,
            forall|k: int| 0 <= k < i ==> #[trigger] out@[k]@ == spec_period(a@[k])->Ok_0,
        decreases n - i,
    {
        match PlaceOpeningHoursPeriod::decode(&a[i]) {
            Ok(p) => out.push(p),
            Err(_) => {
                return Err(DecodeError::Shape);
            },
        }
        i += 1;
    }
    proof {
        assert(out@.map_values(|p: PlaceOpeningHoursPeriod| p@) =~= period_seq(a@));
    }
    Ok(out)
}

/// Opening hours: an optional boolean, an optional period array, and an
/// optional weekday-text array; everything else is refused.
pub open spec fn spec_opening_hours(j: Json) -> Result<PlaceOpeningHoursV, DecodeError> {
    if !(j is Obj) {
        Err(DecodeError::Shape)
    } else if spec_opt_bool(j, "open_now"@) is Ok && (match json_member(j, "periods"@) {
        None => true,
        Some(Json::Arr(a)) => all_periods_ok(a@),
        Some(_) => false,
    }) && spec_opt_str_arr(j, "weekday_text"@) is Ok {
        Ok(
            PlaceOpeningHoursV {
                open_now: spec_opt_bool(j, "open_now"@)->Ok_0,
                periods: match json_member(j, "periods"@) {
                    None => None,
                    Some(Json::Arr(a)) => Some(period_seq(a@)),
                    Some(_) => None,
                },
                weekday_text: spec_opt_str_arr(j, "weekday_text"@)->Ok_0,
            },
        )
    } else {
        Err(DecodeError::Shape)
    }
}

impl PlaceOpeningHours {
    /// Strict decoding of an opening-hours object.
    pub fn decode(j: &Json) -> (r: Result<PlaceOpeningHours, DecodeError>)
        ensures
            match r {
                Ok(v) => spec_opening_hours(*j) == Ok::<PlaceOpeningHoursV, DecodeError>(v@),
                Err(e) => spec_opening_hours(*j) == Err::<PlaceOpeningHoursV, DecodeError>(e),
            },
    {
        match j {
            Json::Obj(_) => {},
            _ => {
                return Err(DecodeError::Shape);
            },
        }
        let open_now = match get_opt_bool(j, &"open_now".to_owned()) {
            Ok(v) => v,
            Err(e) => return Err(e),
        };
        let periods = match j.get(&"periods".to_owned()) {
            None => None,
            Some(Json::Arr(a)) => match decode_period_arr(a) {
                Ok(ps) => Some(ps),
                Err(e) => return Err(e),
            },
            Some(_) => {
                return Err(DecodeError::Shape);
            },
        };
        let weekday_text = match get_opt_str_arr(j, &"weekday_text".to_owned()) {
            Ok(v) => v,
            Err(e) => return Err(e),
        };
        Ok(PlaceOpeningHours { open_now, periods, weekday_text })
    }
}

/// A plus code: two required strings.
pub open spec fn spec_plus_code(j: Json) -> Result<PlusCodeV, DecodeError> {
    if spec_req_str(j, "global_code"@) is Ok && spec_req_str(j, "compound_code"@) is Ok {
        Ok(
            PlusCodeV {
                global_code: spec_req_str(j, "global_code"@)->Ok_0,
                compound_code: spec_req_str(j, "compound_code"@)->Ok_0,
            },
        )
    } else {
        Err(DecodeError::Shape)
    }
}

impl PlusCode {
    /// Strict decoding of a plus-code object.
    pub fn decode(j: &Json) -> (r: Result<PlusCode, DecodeError>)
        ensures
            match r {
                Ok(v) => spec_plus_code(*j) == Ok::<PlusCodeV, DecodeError>(v@),
                Err(e) => spec_plus_code(*j) == Err::<PlusCodeV, DecodeError>(e),
            },
    {
        let global_code = match get_req_str(j, &"global_code".to_owned()) {
            Ok(v) => v,
            Err(e) => return Err(e),
        };
        let compound_code = match get_req_str(j, &"compound_code".to_owned()) {
            Ok(v) => v,
            Err(e) => return Err(e),
        };
        Ok(PlusCode { global_code, compound_code })
    }
}

/// A photo: required dimensions, a required reference, and the required
/// attribution list.
pub open spec fn spec_photo(j: Json) -> Result<PlacePhotoV, DecodeError> {
    if spec_req_u32(j, "height"@) is Ok && spec_req_u32(j, "width"@) is Ok && spec_req_str(
        j,
        "photo_reference"@,
    ) is Ok && spec_req_str_arr(j, "html_attributions"@) is Ok {
        Ok(
            PlacePhotoV {
                height: spec_req_u32(j, "height"@)->Ok_0,
                width: spec_req_u32(j, "width"@)->Ok_0,
                photo_reference: spec_req_str(j, "photo_reference"@)->Ok_0,
                html_attributions: spec_req_str_arr(j, "html_attributions"@)->Ok_0,
            },
        )
    } else {
        Err(DecodeError::Shape)
    }
}

impl PlacePhoto {
    /// Strict decoding of a photo object.
    pub fn decode(j: &Json) -> (r: Result<PlacePhoto, DecodeError>)
        ensures
            match r {
                Ok(v) => spec_photo(*j) == Ok::<PlacePhotoV, DecodeError>(v@),
                Err(e) => spec_photo(*j) == Err::<PlacePhotoV, DecodeError>(e),
            },
    {
        let height = match get_req_u32(j, &"height".to_owned()) {
            Ok(v) => v,
            Err(e) => return Err(e),
        };
        let width = match get_req_u32(j, &"width".to_owned()) {
            Ok(v) => v,
            Err(e) => return Err(e),
        };
        let photo_reference = match get_req_str(j, &"photo_reference".to_owned()) {
            Ok(v) => v,
            Err(e) => return Err(e),
        };
        let html_attributions = match get_req_str_arr(j, &"html_attributions".to_owned()) {
            Ok(v) => v,
            Err(e) => return Err(e),
        };
        Ok(PlacePhoto { height, width, photo_reference, html_attributions })
    }
}

/// A review: four required members and four optional strings.
pub open spec fn spec_review(j: Json) -> Result<PlaceReviewV, DecodeError> {
    if spec_req_str(j, "author_name"@) is Ok && spec_req_u8(j, "rating"@) is Ok && spec_req_str(
        j,
        "relative_time_description"@,
    ) is Ok && spec_req_u32(j, "time"@) is Ok && spec_opt_str(j, "author_url"@) is Ok
        && spec_opt_str(j, "language"@) is Ok && spec_opt_str(j, "profile_photo_url"@) is Ok
        && spec_opt_str(j, "text"@) is Ok {
        Ok(
            PlaceReviewV {
                author_name: spec_req_str(j, "author_name"@)->Ok_0,
                rating: spec_req_u8(j, "rating"@)->Ok_0,
                relative_time_description: spec_req_str(j, "relative_time_description"@)->Ok_0,
                time: spec_req_u32(j, "time"@)->Ok_0,
                author_url: spec_opt_str(j, "author_url"@)->Ok_0,
                language: spec_opt_str(j, "language"@)->Ok_0,
                profile_photo_url: spec_opt_str(j, "profile_photo_url"@)->Ok_0,
                text: spec_opt_str(j, "text"@)->Ok_0,
            },
        )
    } else {
        Err(DecodeError::Shape)
    }
}

impl PlaceReview {
    /// Strict decoding of a review object.
    pub fn decode(j: &Json) -> (r: Result<PlaceReview, DecodeError>)
        ensures
            match r {
                Ok(v) => spec_review(*j) == Ok::<PlaceReviewV, DecodeError>(v@),
                Err(e) => spec_review(*j) == Err::<PlaceReviewV, DecodeError>(e),
            },
    {
        let author_name = match get_req_str(j, &"author_name".to_owned()) {
            Ok(v) => v,
            Err(e) => return Err(e),
        };
        let rating = match get_req_u8(j, &"rating".to_owned()) {
            Ok(v) => v,
            Err(e) => return Err(e),
        };
        let relative_time_description = match get_req_str(
            j,
            &"relative_time_description".to_owned(),
        ) {
            Ok(v) => v,
            Err(e) => return Err(e),
        };
        let time = match get_req_u32(j, &"time".to_owned()) {
            Ok(v) => v,
            Err(e) => return Err(e),
        };
        let author_url = match get_opt_str(j, &"author_url".to_owned()) {
            Ok(v) => v,
            Err(e) => return Err(e),
        };
        let language = match get_opt_str(j, &"language".to_owned()) {
            Ok(v) => v,
            Err(e) => return Err(e),
        };
        let profile_photo_url = match get_opt_str(j, &"profile_photo_url".to_owned()) {
            Ok(v) => v,
            Err(e) => return Err(e),
        };
        let text = match get_opt_str(j, &"text".to_owned()) {
            Ok(v) => v,
            Err(e) => return Err(e),
        };
        Ok(
            PlaceReview {
                author_name,
                rating,
                relative_time_description,
                time,
                author_url,
                language,
                profile_photo_url,
                text,
            },
        )
    }
}

/// An optional member that is an address component.
pub open spec fn spec_opt_address_component(j: Json, key: Seq<char>) -> Result<
    Option<AddressComponentV>,
    DecodeError,
> {
    match json_member(j, key) {
        None => Ok(None),
        Some(v) => match spec_address_component(v) {
            Ok(a) => Ok(Some(a)),
            Err(e) => Err(e),
        },
    }
}

/// An optional member that is a geometry object.
pub open spec fn spec_opt_geometry(j: Json, key: Seq<char>) -> Result<
    Option<GeometryV>,
    DecodeError,
> {
    match json_member(j, key) {
        None => Ok(None),
        Some(v) => match spec_geometry(v) {
            Ok(g) => Ok(Some(g)),
            Err(e) => Err(e),
        },
    }
}

/// An optional member that is an opening-hours object.
pub open spec fn spec_opt_opening_hours(j: Json, key: Seq<char>) -> Result<
    Option<PlaceOpeningHoursV>,
    DecodeError,
> {
    match json_member(j, key) {
        None => Ok(None),
        Some(v) => match spec_opening_hours(v) {
            Ok(h) => Ok(Some(h)),
            Err(e) => Err(e),
        },
    }
}

/// An optional member that is a plus code.
pub open spec fn spec_opt_plus_code(j: Json, key: Seq<char>) -> Result<
    Option<PlusCodeV>,
    DecodeError,
> {
    match json_member(j, key) {
        None => Ok(None),
        Some(v) => match spec_plus_code(v) {
            Ok(c) => Ok(Some(c)),
            Err(e) => Err(e),
        },
    }
}

/// Every element of `a` decodes as a photo.
pub open spec fn all_photos_ok(a: Seq<Json>) -> bool {
    forall|i: int| 0 <= i < a.len() ==> #[trigger] spec_photo(a[i]) is Ok
}

/// The decoded photos of a run of photo objects.
pub open spec fn photo_seq(a: Seq<Json>) -> Seq<PlacePhotoV> {
    a.map_values(|x: Json| spec_photo(x)->Ok_0)
}

fn decode_photo_arr(a: &Vec<Json>) -> (r: Result<Vec<PlacePhoto>, DecodeError>)
    ensures
        match r {
            Ok(v) => all_photos_ok(a@) && v@.map_values(|p: PlacePhoto| p@) == photo_seq(a@),
            Err(e) => !all_photos_ok(a@) && e == DecodeError::Shape,
        },
{
    let mut out: Vec<PlacePhoto> = Vec::new();
    let n = a.len();
    let mut i: usize = 0;
    while i < n
        invariant
            0 <= i <= n,
            n == a@.len(),
            out@.len() == i,
            forall|k: int| 0 <= k < i ==> #[trigger] spec_photo(a@[k]) is Ok,
            forall|k: int| 0 <= k < i ==> #[trigger] out@[k]@ == spec_photo(a@[k])->Ok_0,
        decreases n - i,
    {
        match PlacePhoto::decode(&a[i]) {
            Ok(p) => out.push(p),
            Err(_) => {
                return Err(DecodeError::Shape);
            },
        }
        i += 1;
    }
    proof {
        assert(out@.map_values(|p: PlacePhoto| p@) =~= photo_seq(a@));
    }
    Ok(out)
}

/// Every element of `a` decodes as a review.
pub open spec fn all_reviews_ok(a: Seq<Json>) -> bool {
    forall|i: int| 0 <= i < a.len() ==> #[trigger] spec_review(a[i]) is Ok
}

/// The decoded reviews of a run of review objects.
pub open spec fn review_seq(a: Seq<Json>) -> Seq<PlaceReviewV> {
    a.map_values(|x: Json| spec_review(x)->Ok_0)
}

fn decode_review_arr(a: &Vec<Json>) -> (r: Result<Vec<PlaceReview>, DecodeError>)
    ensures
        match r {
            Ok(v) => all_reviews_ok(a@) && v@.map_values(|p: PlaceReview| p@) == review_seq(a@),
            Err(e) => !all_reviews_ok(a@) && e == DecodeError::Shape,
        },
{
    let mut out: Vec<PlaceReview> = Vec::new();
    let n = a.len();
    let mut i: usize = 0;
    while i < n
        invariant
            0 <= i <= n,
            n == a@.len(),
            out@.len() == i,
            forall|k: int| 0 <= k < i ==> #[trigger] spec_review(a@[k]) is Ok,
            forall|k: int| 0 <= k < i ==> #[trigger] out@[k]@ == spec_review(a@[k])->Ok_0,
        decreases n - i,
    {
        match PlaceReview::decode(&a[i]) {
            Ok(p) => out.push(p),
            Err(_) => {
                return Err(DecodeError::Shape);
            },
        }
        i += 1;
    }
    proof {
        assert(out@.map_values(|p: PlaceReview| p@) =~= review_seq(a@));
    }
    Ok(out)
}

/// Every element of `a` decodes as a place.
pub open spec fn all_places_ok(a: Seq<Json>) -> bool {
    forall|i: int| 0 <= i < a.len() ==> #[trigger] spec_place(a[i]) is Ok
}

/// The decoded places of a run of place objects.
pub open spec fn place_seq(a: Seq<Json>) -> Seq<PlaceV> {
    a.map_values(|x: Json| spec_place(x)->Ok_0)
}

/// Decodes an array of place objects.
pub fn decode_place_arr(a: &Vec<Json>) -> (r: Result<Vec<Place>, DecodeError>)
    ensures
        match r {
            Ok(v) => all_places_ok(a@) && v@.map_values(|p: Place| p@) == place_seq(a@),
            Err(e) => !all_places_ok(a@) && e == DecodeError::Shape,
        },
{
    let mut out: Vec<Place> = Vec::new();
    let n = a.len();
    let mut i: usize = 0;
    while i < n
        invariant
            0 <= i <= n,
            n == a@.len(),
            out@.len() == i,
            forall|k: int| 0 <= k < i ==> #[trigger] spec_place(a@[k]) is Ok,
            forall|k: int| 0 <= k < i ==> #[trigger] out@[k]@ == spec_place(a@[k])->Ok_0,
        decreases n - i,
    {
        match Place::decode(&a[i]) {
            Ok(p) => out.push(p),
            Err(_) => {
                return Err(DecodeError::Shape);
            },
        }
        i += 1;
    }
    proof {
        assert(out@.map_values(|p: Place| p@) =~= place_seq(a@));
    }
    Ok(out)
}

/// Every member a place may carry decodes under its expected shape.
pub open spec fn place_members_ok(j: Json) -> bool {
    &&& spec_opt_address_component(j, "address_components"@) is Ok
    &&& spec_opt_str(j, "adr_address"@) is Ok
    &&& spec_opt_str(j, "business_status"@) is Ok
    &&& spec_opt_str(j, "formatted_address"@) is Ok
    &&& spec_opt_str(j, "formatted_phone_number"@) is Ok
    &&& spec_opt_geometry(j, "geometry"@) is Ok
    &&& spec_opt_str(j, "icon"@) is Ok
    &&& spec_opt_str(j, "icon_background_color"@) is Ok
    &&& spec_opt_str(j, "icon_mask_base_uri"@) is Ok
    &&& spec_opt_str(j, "international_phone_number"@) is Ok
    &&& spec_opt_str(j, "name"@) is Ok
    &&& spec_opt_opening_hours(j, "opening_hours"@) is Ok
    &&& (match json_member(j, "photos"@) {
        None => true,
        Some(Json::Arr(a)) => all_photos_ok(a@),
        Some(_) => false,
    })
    &&& spec_opt_str(j, "place_id"@) is Ok
    &&& spec_opt_plus_code(j, "plus_code"@) is Ok
    &&& spec_opt_u8(j, "price_level"@) is Ok
    &&& spec_opt_num_text(j, "rating"@) is Ok
    &&& (match json_member(j, "reviews"@) {
        None => true,
        Some(Json::Arr(a)) => all_reviews_ok(a@),
        Some(_) => false,
    })
    &&& spec_opt_str_arr(j, "types"@) is Ok
    &&& spec_opt_str(j, "url"@) is Ok
    &&& spec_opt_u32(j, "user_ratings_total"@) is Ok
    &&& spec_opt_i16(j, "utc_offset"@) is Ok
    &&& spec_opt_str(j, "vicinity"@) is Ok
    &&& spec_opt_str(j, "website"@) is Ok
}

/// A place object: every attribute optional, each strict about its shape
/// when present.
pub open spec fn spec_place(j: Json) -> Result<PlaceV, DecodeError> {
    if !(j is Obj) {
        Err(DecodeError::Shape)
    } else if place_members_ok(j) {
        Ok(
            PlaceV {
                address_components: spec_opt_address_component(j, "address_components"@)->Ok_0,
                adr_address: spec_opt_str(j, "adr_address"@)->Ok_0,
                business_status: spec_opt_str(j, "business_status"@)->Ok_0,
                formatted_address: spec_opt_str(j, "formatted_address"@)->Ok_0,
                formatted_phone_number: spec_opt_str(j, "formatted_phone_number"@)->Ok_0,
                geometry: spec_opt_geometry(j, "geometry"@)->Ok_0,
                icon: spec_opt_str(j, "icon"@)->Ok_0,
                icon_background_color: spec_opt_str(j, "icon_background_color"@)->Ok_0,
                icon_mask_base_uri: spec_opt_str(j, "icon_mask_base_uri"@)->Ok_0,
                international_phone_number: spec_opt_str(j, "international_phone_number"@)->Ok_0,
                name: spec_opt_str(j, "name"@)->Ok_0,
                opening_hours: spec_opt_opening_hours(j, "opening_hours"@)->Ok_0,
                photos: match json_member(j, "photos"@) {
                    None => None,
                    Some(Json::Arr(a)) => Some(photo_seq(a@)),
                    Some(_) => None,
                },
                place_id: spec_opt_str(j, "place_id"@)->Ok_0,
                plus_code: spec_opt_plus_code(j, "plus_code"@)->Ok_0,
                price_level: spec_opt_u8(j, "price_level"@)->Ok_0,
                rating: spec_opt_num_text(j, "rating"@)->Ok_0,
                reviews: match json_member(j, "reviews"@) {
                    None => None,
                    Some(Json::Arr(a)) => Some(review_seq(a@)),
                    Some(_) => None,
                },
                types: spec_opt_str_arr(j, "types"@)->Ok_0,
                url: spec_opt_str(j, "url"@)->Ok_0,
                user_ratings_total: spec_opt_u32(j, "user_ratings_total"@)->Ok_0,
                utc_offset: spec_opt_i16(j, "utc_offset"@)->Ok_0,
                vicinity: spec_opt_str(j, "vicinity"@)->Ok_0,
                website: spec_opt_str(j, "website"@)->Ok_0,
            },
        )
    } else {
        Err(DecodeError::Shape)
    }
}

impl Place {
    /// Strict decoding of a place object.
    #[verifier::rlimit(60)]
    pub fn decode(j: &Json) -> (r: Result<Place, DecodeError>)
        ensures
            match r {
                Ok(v) => spec_place(*j) == Ok::<PlaceV, DecodeError>(v@),
                Err(e) => spec_place(*j) == Err::<PlaceV, DecodeError>(e),
            },
    {
        match j {
            Json::Obj(_) => {},
            _ => {
                return Err(DecodeError::Shape);
            },
        }
        let address_components = match j.get(&"address_components".to_owned()) {
            None => None,
            Some(v) => match AddressComponent::decode(v) {
                Ok(a) => Some(a),
                Err(e) => return Err(e),
            },
        };
        let adr_address = match get_opt_str(j, &"adr_address".to_owned()) {
            Ok(v) => v,
            Err(e) => return Err(e),
        };
        let business_status = match get_opt_str(j, &"business_status".to_owned()) {
            Ok(v) => v,
            Err(e) => return Err(e),
        };
        let formatted_address = match get_opt_str(j, &"formatted_address".to_owned()) {
            Ok(v) => v,
            Err(e) => return Err(e),
        };
        let formatted_phone_number = match get_opt_str(j, &"formatted_phone_number".to_owned()) {
            Ok(v) => v,
            Err(e) => return Err(e),
        };
        let geometry = match j.get(&"geometry".to_owned()) {
            None => None,
            Some(v) => match Geometry::decode(v) {
                Ok(g) => Some(g),
                Err(e) => return Err(e),
            },
        };
        let icon = match get_opt_str(j, &"icon".to_owned()) {
            Ok(v) => v,
            Err(e) => return Err(e),
        };
        let icon_background_color = match get_opt_str(j, &"icon_background_color".to_owned()) {
            Ok(v) => v,
            Err(e) => return Err(e),
        };
        let icon_mask_base_uri = match get_opt_str(j, &"icon_mask_base_uri".to_owned()) {
            Ok(v) => v,
            Err(e) => return Err(e),
        };
        let international_phone_number = match get_opt_str(
            j,
            &"international_phone_number".to_owned(),
        ) {
            Ok(v) => v,
            Err(e) => return Err(e),
        };
        let name = match get_opt_str(j, &"name".to_owned()) {
            Ok(v) => v,
            Err(e) => return Err(e),
        };
        let opening_hours = match j.get(&"opening_hours".to_owned()) {
            None => None,
            Some(v) => match PlaceOpeningHours::decode(v) {
                Ok(h) => Some(h),
                Err(e) => return Err(e),
            },
        };
        let photos = match j.get(&"photos".to_owned()) {
            None => None,
            Some(Json::Arr(a)) => match decode_photo_arr(a) {
                Ok(ps) => Some(ps),
                Err(e) => return Err(e),
            },
            Some(_) => {
                return Err(DecodeError::Shape);
            },
        };
        let place_id = match get_opt_str(j, &"place_id".to_owned()) {
            Ok(v) => v,
            Err(e) => return Err(e),
        };
        let plus_code = match j.get(&"plus_code".to_owned()) {
            None => None,
            Some(v) => match PlusCode::decode(v) {
                Ok(c) => Some(c),
                Err(e) => return Err(e),
            },
        };
        let price_level = match get_opt_u8(j, &"price_level".to_owned()) {
            Ok(v) => v,
            Err(e) => return Err(e),
        };
        let rating = match get_opt_num_text(j, &"rating".to_owned()) {
            Ok(v) => v,
            Err(e) => return Err(e),
        };
        let reviews = match j.get(&"reviews".to_owned()) {
            None => None,
            Some(Json::Arr(a)) => match decode_review_arr(a) {
                Ok(rs) => Some(rs),
                Err(e) => return Err(e),
            },
            Some(_) => {
                return Err(DecodeError::Shape);
            },
        };
        let types = match get_opt_str_arr(j, &"types".to_owned()) {
            Ok(v) => v,
            Err(e) => return Err(e),
        };
        let url = match get_opt_str(j, &"url".to_owned()) {
            Ok(v) => v,
            Err(e) => return Err(e),
        };
        let user_ratings_total = match get_opt_u32(j, &"user_ratings_total".to_owned()) {
            Ok(v) => v,
            Err(e) => return Err(e),
        };
        let utc_offset = match get_opt_i16(j, &"utc_offset".to_owned()) {
            Ok(v) => v,
            Err(e) => return Err(e),
        };
        let vicinity = match get_opt_str(j, &"vicinity".to_owned()) {
            Ok(v) => v,
            Err(e) => return Err(e),
        };
        let website = match get_opt_str(j, &"website".to_owned()) {
            Ok(v) => v,
            Err(e) => return Err(e),
        };
        Ok(
            Place {
                address_components,
                adr_address,
                business_status,
                formatted_address,
                formatted_phone_number,
                geometry,
                icon,
                icon_background_color,
                icon_mask_base_uri,
                international_phone_number,
                name,
                opening_hours,
                photos,
                place_id,
                plus_code,
                price_level,
                rating,
                reviews,
                types,
                url,
                user_ratings_total,
                utc_offset,
                vicinity,
                website,
            },
        )
    }
}

} // verus!
