//! A typed client for a remote place-search HTTP API.
//!
//! The crate builds validated query requests through a type-state builder,
//! serializes them into ordered key/value parameter lists, and decodes the
//! API's JSON bodies into typed domain entities. The network transport
//! itself is left to the surrounding application.
use vstd::prelude::*;

pub mod json;
pub mod models;
pub mod nearby;
pub mod place;

verus! {

/// An ordered parameter list, seen as a sequence of key/value character
/// sequences. Contracts about serialization are stated over this view.
pub open spec fn pairs_view(v: Seq<(String, String)>) -> Seq<(Seq<char>, Seq<char>)> {
    v.map_values(|p: (String, String)| (p.0@, p.1@))
}

/// The fixed endpoint a request is sent to.
pub trait SendUrl {
    /// The endpoint, as the contracts speak of it.
    spec fn spec_url(&self) -> Seq<char>;

    /// The endpoint the transport should address.
    fn get_url(&self) -> (r: &'static str)
        ensures
            r@ == self.spec_url(),
    ;
}

/// Serialization of a request into its ordered query parameters.
pub trait SearchParams {
    /// The parameter list, as the contracts speak of it.
    spec fn spec_params(&self) -> Seq<(Seq<char>, Seq<char>)>;

    /// The ordered key/value pairs of the request: fixed mandatory keys
    /// first, then the optional keys in declaration order, absent values
    /// skipped.
    fn get_params(&self) -> (r: Vec<(String, String)>)
        ensures
            pairs_view(r@) == self.spec_params(),
    ;
}

/// The entry point: holds the API token that every request carries.
pub struct Client {
    pub token: String,
}

impl Client {
    /// A client whose requests will authenticate with `token`.
    pub fn new(token: String) -> (c: Client)
        ensures
            c.token == token,
    {
        Client { token }
    }

    /// Starts a find-place request for `input`, interpreted according to
    /// `input_type`; the field list starts empty.
    pub fn find(&self, input: String, input_type: place::InputType) -> (r: place::Request)
        ensures
            r.token == self.token,
            r.input == input,
            r.input_type@ == place::input_type_token(input_type),
            r.fields@ == Seq::<place::Field>::empty(),
    {
        place::Request {
            token: self.token.clone(),
            input,
            input_type: input_type.as_param().to_owned(),
            fields: Vec::new(),
        }
    }

    /// Starts a nearby search around the given coordinate, each component
    /// in its canonical decimal text; no ranking strategy is chosen yet
    /// and every optional attribute is unset.
    pub fn nearby(&self, latitude: String, longitude: String) -> (r: nearby::Request)
        requires
            models::coordinate_text(latitude@),
            models::coordinate_text(longitude@),
        ensures
            r.token == self.token,
            r.location.lat == latitude,
            r.location.lng == longitude,
            r.keyword is None,
            r.language is None,
            r.maxprice is None,
            r.minprice is None,
            r.opennow is None,
            r.pagetoken is None,
            r.request_type is None,
    {
        nearby::Request {
            token: self.token.clone(),
            location: models::LatLng::new(latitude, longitude),
            keyword: None,
            language: None,
            maxprice: None,
            minprice: None,
            opennow: None,
            pagetoken: None,
            request_type: None,
        }
    }
}

} // verus!
