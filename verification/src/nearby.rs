//! The nearby-search family: a base request that is not yet sendable, the
//! two ranking strategies that complete it, and its response shape.
//!
//! A nearby search ranks either by prominence (radius required) or by
//! distance (type and keyword required, radius forbidden). Each stage of
//! construction is its own type, so a request that the remote API would
//! reject cannot be built.
use vstd::prelude::*;

use crate::SearchParams;
use crate::SendUrl;
use crate::pairs_view;
use crate::json::Json;
use crate::json::dec_text;
use crate::json::dec_string;
use crate::json::json_member;
use crate::models::DecodeError;
use crate::models::LatLng;
use crate::models::Place;
use crate::models::PlaceV;
use crate::models::SearchStatus;
use crate::models::all_places_ok;
use crate::models::decode_place_arr;
use crate::models::get_opt_str;
use crate::models::get_opt_str_arr;
use crate::models::get_req_str;
use crate::models::latlng_text;
use crate::models::place_seq;
use crate::models::spec_opt_str;
use crate::models::spec_opt_str_arr;
use crate::models::spec_req_str;
use crate::models::status_of_token;

verus! {

/// A nearby search that has not chosen its ranking strategy yet: the
/// center coordinate and the shared optional attributes. Not sendable.
#[derive(Debug)]
pub struct Request {
    pub token: String,
    pub location: LatLng,
    pub keyword: Option<String>,
    pub language: Option<String>,
    pub maxprice: Option<String>,
    pub minprice: Option<String>,
    pub opennow: Option<bool>,
    pub pagetoken: Option<String>,
    pub request_type: Option<String>,
}

/// The single pair an optional attribute contributes, or nothing.
pub open spec fn opt_pair(key: Seq<char>, v: Option<String>) -> Seq<(Seq<char>, Seq<char>)> {
    match v {
        Some(s) => seq![(key, s@)],
        None => Seq::empty(),
    }
}

/// The `opennow` parameter appears exactly when the flag is set and true.
pub open spec fn opennow_pair(v: Option<bool>) -> Seq<(Seq<char>, Seq<char>)> {
    if v == Some(true) {
        seq![("opennow"@, "true"@)]
    } else {
        Seq::empty()
    }
}

/// The parameters every nearby search shares: `key` and `location` first,
/// then each optional attribute in declaration order when present.
pub open spec fn nearby_base_params(r: Request) -> Seq<(Seq<char>, Seq<char>)> {
    seq![("key"@, r.token@), ("location"@, latlng_text(r.location.lat@, r.location.lng@))]
        + opt_pair("keyword"@, r.keyword) + opt_pair("language"@, r.language) + opt_pair(
        "maxprice"@,
        r.maxprice,
    ) + opt_pair("minprice"@, r.minprice) + opennow_pair(r.opennow) + opt_pair(
        "pagetoken"@,
        r.pagetoken,
    ) + opt_pair("type"@, r.request_type)
}

impl SearchParams for Request {
    open spec fn spec_params(&self) -> Seq<(Seq<char>, Seq<char>)> {
        nearby_base_params(*self)
    }

    /// The shared pairs in their fixed order.
    #[verifier::rlimit(100)]
    fn get_params(&self) -> (r: Vec<(String, String)>) {
        let mut params: Vec<(String, String)> = Vec::new();
        params.push(("key".to_owned(), self.token.clone()));
        params.push(("location".to_owned(), self.location.to_text()));
        let ghost mut seen: Seq<(Seq<char>, Seq<char>)> = seq![
            ("key"@, self.token@),
            ("location"@, latlng_text(self.location.lat@, self.location.lng@)),
        ];
        proof {
            assert(pairs_view(params@) =~= seen);
        }
        if let Some(keyword) = &self.keyword {
            params.push(("keyword".to_owned(), keyword.clone()));
        }
        proof {
            seen = seen + opt_pair("keyword"@, self.keyword);
            assert(pairs_view(params@) =~= seen);
        }
        if let Some(language) = &self.language {
            params.push(("language".to_owned(), language.clone()));
        }
        proof {
            seen = seen + opt_pair("language"@, self.language);
            assert(pairs_view(params@) =~= seen);
        }
        if let Some(maxprice) = &self.maxprice {
            params.push(("maxprice".to_owned(), maxprice.clone()));
        }
        proof {
            seen = seen + opt_pair("maxprice"@, self.maxprice);
            assert(pairs_view(params@) =~= seen);
        }
        if let Some(minprice) = &self.minprice {
            params.push(("minprice".to_owned(), minprice.clone()));
        }
        proof {
            seen = seen + opt_pair("minprice"@, self.minprice);
            assert(pairs_view(params@) =~= seen);
        }
        if let Some(opennow) = &self.opennow {
            if *opennow {
                params.push(("opennow".to_owned(), "true".to_owned()));
            }
        }
        proof {
            seen = seen + opennow_pair(self.opennow);
            assert(pairs_view(params@) =~= seen);
        }
        if let Some(pagetoken) = &self.pagetoken {
            params.push(("pagetoken".to_owned(), pagetoken.clone()));
        }
        proof {
            seen = seen + opt_pair("pagetoken"@, self.pagetoken);
            assert(pairs_view(params@) =~= seen);
        }
        if let Some(request_type) = &self.request_type {
            params.push(("type".to_owned(), request_type.clone()));
        }
        proof {
            seen = seen + opt_pair("type"@, self.request_type);
            assert(pairs_view(params@) =~= seen);
            assert(seen =~= nearby_base_params(*self));
        }
        params
    }
}

impl Request {
    /// Chooses prominence ranking; the radius becomes required.
    pub fn prominence(self, radius: u32) -> (r: Prominence)
        ensures
            r.request == self,
            r.radius == radius,
    {
        Prominence { request: self, radius }
    }

    /// Chooses distance ranking; type and keyword are still owed.
    pub fn distance(self) -> (r: PendingDistance)
        ensures
            r.request == self,
    {
        PendingDistance { request: self }
    }
}

/// `r` with its place type replaced.
pub open spec fn with_type(r: Request, request_type: String) -> Request {
    Request { request_type: Some(request_type), ..r }
}

/// `r` with its keyword replaced.
pub open spec fn with_keyword(r: Request, keyword: String) -> Request {
    Request { keyword: Some(keyword), ..r }
}

/// A sendable prominence-ranked search: radius bounded, importance
/// weighted.
#[derive(Debug)]
pub struct Prominence {
    pub request: Request,
    pub radius: u32,
}

impl SendUrl for Prominence {
    open spec fn spec_url(&self) -> Seq<char> {
        "https://maps.googleapis.com/maps/api/place/nearbysearch/json"@
    }

    fn get_url(&self) -> (r: &'static str) {
        "https://maps.googleapis.com/maps/api/place/nearbysearch/json"
    }
}

impl SearchParams for Prominence {
    open spec fn spec_params(&self) -> Seq<(Seq<char>, Seq<char>)> {
        nearby_base_params(self.request) + seq![
            ("rankby"@, "prominence"@),
            ("radius"@, dec_text(self.radius as int)),
        ]
    }

    fn get_params(&self) -> (r: Vec<(String, String)>) {
        let mut params = self.request.get_params();
        params.push(("rankby".to_owned(), "prominence".to_owned()));
        params.push(("radius".to_owned(), dec_string(self.radius)));
        proof {
            assert(pairs_view(params@) =~= self.spec_params());
        }
        params
    }
}

/// A distance-ranked search that is still missing its required type and
/// keyword. Not sendable.
#[derive(Debug)]
pub struct PendingDistance {
    pub request: Request,
}

impl PendingDistance {
    /// Supplies the place type; the keyword is still owed before the
    /// request can be sent.
    pub fn set_type(self, request_type: String) -> (r: DistanceMissingKeyword)
        ensures
            r.request == with_type(self.request, request_type),
    {
        let mut request = self.request;
        request.request_type = Some(request_type);
        DistanceMissingKeyword { request }
    }

    /// Supplies the keyword; the place type is still owed before the
    /// request can be sent.
    pub fn set_keyword(self, keyword: String) -> (r: DistanceMissingType)
        ensures
            r.request == with_keyword(self.request, keyword),
    {
        let mut request = self.request;
        request.keyword = Some(keyword);
        DistanceMissingType { request }
    }
}

/// A distance-ranked search whose type is set but whose keyword is still
/// missing. Not sendable.
#[derive(Debug)]
pub struct DistanceMissingKeyword {
    pub request: Request,
}

impl DistanceMissingKeyword {
    /// Replaces the type; the later value wins.
    pub fn set_type(self, request_type: String) -> (r: DistanceMissingKeyword)
        ensures
            r.request == with_type(self.request, request_type),
    {
        let mut request = self.request;
        request.request_type = Some(request_type);
        DistanceMissingKeyword { request }
    }

    /// Supplies the keyword; both required attributes are now present and
    /// the result is sendable.
    pub fn set_keyword(self, keyword: String) -> (r: Distance)
        ensures
            r.request == with_keyword(self.request, keyword),
    {
        let mut request = self.request;
        request.keyword = Some(keyword);
        Distance { request }
    }
}

/// A distance-ranked search whose keyword is set but whose type is still
/// missing. Not sendable.
#[derive(Debug)]
pub struct DistanceMissingType {
    pub request: Request,
}

impl DistanceMissingType {
    /// Replaces the keyword; the later value wins.
    pub fn set_keyword(self, keyword: String) -> (r: DistanceMissingType)
        ensures
            r.request == with_keyword(self.request, keyword),
    {
        let mut request = self.request;
        request.keyword = Some(keyword);
        DistanceMissingType { request }
    }

    /// Supplies the place type; both required attributes are now present
    /// and the result is sendable.
    pub fn set_type(self, request_type: String) -> (r: Distance)
        ensures
            r.request == with_type(self.request, request_type),
    {
        let mut request = self.request;
        request.request_type = Some(request_type);
        Distance { request }
    }
}

/// A sendable distance-ranked search: closest results first, no radius.
/// It is reachable only through both setters, in either order, so every
/// value built through the stages above carries a type and a keyword.
#[derive(Debug)]
pub struct Distance {
    pub request: Request,
}

impl Distance {
    /// Replaces the keyword; the last value given wins.
    pub fn set_keyword(self, keyword: String) -> (r: Distance)
        ensures
            r.request == with_keyword(self.request, keyword),
    {
        let mut request = self.request;
        request.keyword = Some(keyword);
        Distance { request }
    }

    /// Supplies the place type; the later value wins here as well.
    pub fn set_type(self, request_type: String) -> (r: Distance)
        ensures
            r.request == with_type(self.request, request_type),
    {
        let mut request = self.request;
        request.request_type = Some(request_type);
        Distance { request }
    }
}

impl SendUrl for Distance {
    open spec fn spec_url(&self) -> Seq<char> {
        "https://maps.googleapis.com/maps/api/place/nearbysearch/json"@
    }

    fn get_url(&self) -> (r: &'static str) {
        "https://maps.googleapis.com/maps/api/place/nearbysearch/json"
    }
}

impl SearchParams for Distance {
    open spec fn spec_params(&self) -> Seq<(Seq<char>, Seq<char>)> {
        nearby_base_params(self.request) + seq![("rankby"@, "distance"@)]
    }

    fn get_params(&self) -> (r: Vec<(String, String)>) {
        let mut params = self.request.get_params();
        params.push(("rankby".to_owned(), "distance".to_owned()));
        proof {
            assert(pairs_view(params@) =~= self.spec_params());
        }
        params
    }
}

/// The API token is always the first serialized parameter, under `key`,
/// whichever ranking strategy completes the request.
pub proof fn lemma_token_first(p: Prominence, d: Distance)
    ensures
        p.spec_params()[0] == ("key"@, p.request.token@),
        d.spec_params()[0] == ("key"@, d.request.token@),
{
}

/// Replacing the keyword twice keeps only the later value, whatever was
/// set before.
pub proof fn lemma_set_keyword_last_wins(r: Request, k1: String, k2: String)
    ensures
        with_keyword(with_keyword(r, k1), k2) == with_keyword(r, k2),
{
}

/// Every key the shared parameter list can carry.
pub open spec fn is_base_key(k: Seq<char>) -> bool {
    ||| k == "key"@
    ||| k == "location"@
    ||| k == "keyword"@
    ||| k == "language"@
    ||| k == "maxprice"@
    ||| k == "minprice"@
    ||| k == "opennow"@
    ||| k == "pagetoken"@
    ||| k == "type"@
}

#[verifier::rlimit(100)]
proof fn lemma_base_keys(r: Request)
    ensures
        forall|i: int| 0 <= i < nearby_base_params(r).len() ==> is_base_key(
            (#[trigger] nearby_base_params(r)[i]).0,
        ),
        r.request_type is None ==> forall|i: int| 0 <= i < nearby_base_params(r).len() ==> (
        #[trigger] nearby_base_params(r)[i]).0 != "type"@,
        r.keyword is None ==> forall|i: int| 0 <= i < nearby_base_params(r).len() ==> (
        #[trigger] nearby_base_params(r)[i]).0 != "keyword"@,
        !(r.opennow == Some(true)) ==> forall|i: int| 0 <= i < nearby_base_params(r).len() ==> (
        #[trigger] nearby_base_params(r)[i]).0 != "opennow"@,
        forall|i: int| 0 <= i < nearby_base_params(r).len() ==> (#[trigger] nearby_base_params(
            r,
        )[i]).0 != "radius"@,
{
    reveal_strlit("key");
    reveal_strlit("location");
    reveal_strlit("keyword");
    reveal_strlit("language");
    reveal_strlit("maxprice");
    reveal_strlit("minprice");
    reveal_strlit("opennow");
    reveal_strlit("pagetoken");
    reveal_strlit("type");
    reveal_strlit("radius");
    assert("key"@.len() == 3);
    assert("location"@.len() == 8);
    assert("keyword"@.len() == 7);
    assert("language"@.len() == 8);
    assert("maxprice"@.len() == 8);
    assert("minprice"@.len() == 8);
    assert("opennow"@.len() == 7);
    assert("pagetoken"@.len() == 9);
    assert("type"@.len() == 4);
    assert("radius"@.len() == 6);
    assert("opennow"@[0] != "keyword"@[0]);
    assert("keyword"@[0] != "opennow"@[0]);
    assert("key"@ != "type"@ && "location"@ != "type"@ && "keyword"@ != "type"@ && "language"@
        != "type"@ && "maxprice"@ != "type"@ && "minprice"@ != "type"@ && "opennow"@ != "type"@
        && "pagetoken"@ != "type"@);
    assert("key"@ != "keyword"@ && "location"@ != "keyword"@ && "language"@ != "keyword"@
        && "maxprice"@ != "keyword"@ && "minprice"@ != "keyword"@ && "opennow"@ != "keyword"@
        && "pagetoken"@ != "keyword"@ && "type"@ != "keyword"@);
    assert("key"@ != "opennow"@ && "location"@ != "opennow"@ && "keyword"@ != "opennow"@
        && "language"@ != "opennow"@ && "maxprice"@ != "opennow"@ && "minprice"@ != "opennow"@
        && "pagetoken"@ != "opennow"@ && "type"@ != "opennow"@);
    assert("key"@ != "radius"@ && "location"@ != "radius"@ && "keyword"@ != "radius"@ && "language"@
        != "radius"@ && "maxprice"@ != "radius"@ && "minprice"@ != "radius"@ && "opennow"@
        != "radius"@ && "pagetoken"@ != "radius"@ && "type"@ != "radius"@);
    let s = nearby_base_params(r);
    assert forall|i: int| 0 <= i < s.len() implies is_base_key((#[trigger] s[i]).0) by {
        assert(s[i] == nearby_base_params(r)[i]);
    }
    if r.request_type is None {
        assert forall|i: int| 0 <= i < s.len() implies (#[trigger] s[i]).0 != "type"@ by {
            assert(s[i] == nearby_base_params(r)[i]);
        }
    }
    if r.keyword is None {
        assert forall|i: int| 0 <= i < s.len() implies (#[trigger] s[i]).0 != "keyword"@ by {
            assert(s[i] == nearby_base_params(r)[i]);
        }
    }
    if !(r.opennow == Some(true)) {
        assert forall|i: int| 0 <= i < s.len() implies (#[trigger] s[i]).0 != "opennow"@ by {
            assert(s[i] == nearby_base_params(r)[i]);
        }
    }
    assert forall|i: int| 0 <= i < s.len() implies (#[trigger] s[i]).0 != "radius"@ by {
        assert(s[i] == nearby_base_params(r)[i]);
    }
}

/// A prominence search always serializes `rankby=prominence` and the
/// radius it was built with, and mentions `type` or `keyword` only when
/// the shared attribute was set.
pub proof fn lemma_prominence_params(p: Prominence)
    ensures
        p.spec_params().contains(("rankby"@, "prominence"@)),
        p.spec_params().contains(("radius"@, dec_text(p.radius as int))),
        p.request.request_type is None ==> forall|i: int| 0 <= i < p.spec_params().len() ==> (
        #[trigger] p.spec_params()[i]).0 != "type"@,
        p.request.keyword is None ==> forall|i: int| 0 <= i < p.spec_params().len() ==> (
        #[trigger] p.spec_params()[i]).0 != "keyword"@,
{
    let s = nearby_base_params(p.request);
    assert(p.spec_params()[s.len() as int] == ("rankby"@, "prominence"@));
    assert(p.spec_params().contains(("rankby"@, "prominence"@)));
    assert(p.spec_params()[s.len() as int + 1] == ("radius"@, dec_text(p.radius as int)));
    assert(p.spec_params().contains(("radius"@, dec_text(p.radius as int))));
    reveal_strlit("key");
    reveal_strlit("location");
    reveal_strlit("keyword");
    reveal_strlit("language");
    reveal_strlit("maxprice");
    reveal_strlit("minprice");
    reveal_strlit("opennow");
    reveal_strlit("pagetoken");
    reveal_strlit("type");
    reveal_strlit("rankby");
    reveal_strlit("radius");
    reveal_strlit("prominence");
    lemma_base_keys(p.request);
    if p.request.request_type is None {
        assert forall|i: int| 0 <= i < p.spec_params().len() implies (
        #[trigger] p.spec_params()[i]).0 != "type"@ by {
            if i < s.len() {
                assert(p.spec_params()[i] == s[i]);
                assert(s[i].0 != "type"@);
            } else {
                assert(p.spec_params()[i].0 == "rankby"@ || p.spec_params()[i].0 == "radius"@);
            }
        }
    }
    if p.request.keyword is None {
        assert forall|i: int| 0 <= i < p.spec_params().len() implies (
        #[trigger] p.spec_params()[i]).0 != "keyword"@ by {
            if i < s.len() {
                assert(p.spec_params()[i] == s[i]);
                assert(s[i].0 != "keyword"@);
            } else {
                assert(p.spec_params()[i].0 == "rankby"@ || p.spec_params()[i].0 == "radius"@);
            }
        }
    }
}

/// A distance search with both its type and its keyword set serializes
/// `rankby=distance` together with that type and that keyword, and never
/// a `radius`.
pub proof fn lemma_distance_params(d: Distance)
    requires
        d.request.request_type is Some,
        d.request.keyword is Some,
    ensures
        d.spec_params().contains(("rankby"@, "distance"@)),
        d.spec_params().contains(("type"@, d.request.request_type->Some_0@)),
        d.spec_params().contains(("keyword"@, d.request.keyword->Some_0@)),
        forall|i: int| 0 <= i < d.spec_params().len() ==> (#[trigger] d.spec_params()[i]).0
            != "radius"@,
{
    let s = nearby_base_params(d.request);
    assert(d.spec_params()[s.len() as int] == ("rankby"@, "distance"@));
    assert(d.spec_params().contains(("rankby"@, "distance"@)));
    assert(s[s.len() - 1] == ("type"@, d.request.request_type->Some_0@));
    assert(d.spec_params()[s.len() - 1] == ("type"@, d.request.request_type->Some_0@));
    assert(d.spec_params().contains(("type"@, d.request.request_type->Some_0@)));
    assert(s[2] == ("keyword"@, d.request.keyword->Some_0@));
    assert(d.spec_params()[2] == ("keyword"@, d.request.keyword->Some_0@));
    assert(d.spec_params().contains(("keyword"@, d.request.keyword->Some_0@)));
    reveal_strlit("key");
    reveal_strlit("location");
    reveal_strlit("keyword");
    reveal_strlit("language");
    reveal_strlit("maxprice");
    reveal_strlit("minprice");
    reveal_strlit("opennow");
    reveal_strlit("pagetoken");
    reveal_strlit("type");
    reveal_strlit("rankby");
    reveal_strlit("radius");
    reveal_strlit("distance");
    assert("rankby"@[2] != "radius"@[2]);
    lemma_base_keys(d.request);
    assert forall|i: int| 0 <= i < d.spec_params().len() implies (#[trigger] d.spec_params()[i]).0
        != "radius"@ by {
        if i < s.len() {
            assert(d.spec_params()[i] == s[i]);
            assert(s[i].0 != "radius"@);
        } else {
            assert(d.spec_params()[i].0 == "rankby"@);
        }
    }
}

/// The `opennow` parameter is serialized exactly when the flag was set to
/// true; a false or unset flag contributes nothing.
pub proof fn lemma_opennow_param(r: Request)
    ensures
        r.opennow == Some(true) ==> nearby_base_params(r).contains(("opennow"@, "true"@)),
        !(r.opennow == Some(true)) ==> forall|i: int| 0 <= i < nearby_base_params(r).len() ==> (
        #[trigger] nearby_base_params(r)[i]).0 != "opennow"@,
{
    if r.opennow == Some(true) {
        let pre = seq![
            ("key"@, r.token@),
            ("location"@, latlng_text(r.location.lat@, r.location.lng@)),
        ] + opt_pair("keyword"@, r.keyword) + opt_pair("language"@, r.language) + opt_pair(
            "maxprice"@,
            r.maxprice,
        ) + opt_pair("minprice"@, r.minprice);
        assert(nearby_base_params(r)[pre.len() as int] == ("opennow"@, "true"@));
        assert(nearby_base_params(r).contains(("opennow"@, "true"@)));
    } else {
        reveal_strlit("key");
        reveal_strlit("location");
        reveal_strlit("keyword");
        reveal_strlit("language");
        reveal_strlit("maxprice");
        reveal_strlit("minprice");
        reveal_strlit("opennow");
        lemma_base_keys(r);
    }
}

/// What a nearby response carries, seen through the ghost mirrors.
pub ghost struct ResponseV {
    pub results: Seq<PlaceV>,
    pub status: SearchStatus,
    pub error_message: Option<Seq<char>>,
    pub info_messages: Option<Seq<Seq<char>>>,
    pub next_page_token: Option<Seq<char>>,
}

/// A nearby response: the result places, the API's outcome code, and an
/// optional token for the next page of results.
#[derive(Debug)]
pub struct Response {
    pub results: Vec<Place>,
    pub status: SearchStatus,
    pub error_message: Option<String>,
    pub info_messages: Option<Vec<String>>,
    pub next_page_token: Option<String>,
}

impl View for Response {
    type V = ResponseV;

    open spec fn view(&self) -> ResponseV {
        ResponseV {
            results: self.results@.map_values(|p: Place| p@),
            status: self.status,
            error_message: self.error_message.deep_view(),
            info_messages: match self.info_messages {
                Some(ms) => Some(ms.deep_view()),
                None => None,
            },
            next_page_token: self.next_page_token.deep_view(),
        }
    }
}

/// A nearby response body: a required recognized `status`, a required
/// `results` array of places, optional messages and page token. The
/// status token is examined first, so an unrecognized token is reported
/// as such even when the rest of the body is malformed too.
pub open spec fn spec_nearby_response(j: Json) -> Result<ResponseV, DecodeError> {
    match spec_req_str(j, "status"@) {
        Err(e) => Err(e),
        Ok(t) => match status_of_token(t) {
            None => Err(DecodeError::UnknownStatus),
            Some(st) => if (json_member(j, "results"@) matches Some(Json::Arr(a)) && all_places_ok(
                a@,
            )) && spec_opt_str(j, "error_message"@) is Ok && spec_opt_str_arr(j, "info_messages"@)
                is Ok && spec_opt_str(j, "next_page_token"@) is Ok {
                Ok(
                    ResponseV {
                        results: place_seq(json_member(j, "results"@)->Some_0->Arr_0@),
                        status: st,
                        error_message: spec_opt_str(j, "error_message"@)->Ok_0,
                        info_messages: spec_opt_str_arr(j, "info_messages"@)->Ok_0,
                        next_page_token: spec_opt_str(j, "next_page_token"@)->Ok_0,
                    },
                )
            } else {
                Err(DecodeError::Shape)
            },
        },
    }
}

impl Response {
    /// Strict decoding of a nearby response body.
    pub fn decode(j: &Json) -> (r: Result<Response, DecodeError>)
        ensures
            match r {
                Ok(v) => spec_nearby_response(*j) == Ok::<ResponseV, DecodeError>(v@),
                Err(e) => spec_nearby_response(*j) == Err::<ResponseV, DecodeError>(e),
            },
    {
        let status_text = match get_req_str(j, &"status".to_owned()) {
            Ok(t) => t,
            Err(e) => return Err(e),
        };
        let status = match SearchStatus::from_token(&status_text) {
            Ok(s) => s,
            Err(e) => return Err(e),
        };
        let results = match j.get(&"results".to_owned()) {
            Some(Json::Arr(a)) => match decode_place_arr(a) {
                Ok(ps) => ps,
                Err(e) => return Err(e),
            },
            _ => {
                return Err(DecodeError::Shape);
            },
        };
        let error_message = match get_opt_str(j, &"error_message".to_owned()) {
            Ok(v) => v,
            Err(e) => return Err(e),
        };
        let info_messages = match get_opt_str_arr(j, &"info_messages".to_owned()) {
            Ok(v) => v,
            Err(e) => return Err(e),
        };
        let next_page_token = match get_opt_str(j, &"next_page_token".to_owned()) {
            Ok(v) => v,
            Err(e) => return Err(e),
        };
        Ok(Response { results, status, error_message, info_messages, next_page_token })
    }
}

} // verus!
