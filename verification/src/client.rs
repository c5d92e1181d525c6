//! The upstream API client: it fixes the base URL and the credential
//! header, and decodes response bodies in two stages — first into a
//! generic JSON tree, then against the expected shape, so that a mismatch
//! is reported with the exact JSON path at which it was found.

use vstd::prelude::*;
use vstd::string::StringExecFns;
use crate::error::{
    ApiFetchError, ApiFetchErrorV, deserialization_error, spec_deserialization_error,
};
use crate::frontend::{
    FrontendMovieDetails, FrontendMovieDetailsV, FrontendMovieList, FrontendMovieListV,
    FrontendPeopleList, FrontendPeopleListV, FrontendPersonDetails, FrontendPersonDetailsV,
    spec_frontend_movie_details, spec_frontend_person_details, spec_movie_list, spec_people_list,
};
use crate::json::{JsonValue, parse_json, parsed_json};
use crate::models_movie::{decode_movie_details, decode_movie_page, spec_movie_details, spec_movie_page};
use crate::models_person::{
    decode_person_details, decode_person_page, spec_person_details, spec_person_page,
};
use crate::params::QueryParams;

verus! {

/// Base URL for the upstream metadata API.
pub open spec fn spec_api_base_url() -> Seq<char> {
    "https://api.themoviedb.org/3"@
}

/// A client for the upstream metadata API. It holds the caller's API key
/// and the fixed base URL; the transport that carries the request is
/// supplied by the surrounding program.
#[derive(Debug, Clone, PartialEq, Eq)]
pub struct TMDBClient {
    api_key: String,
    base_url: String,
}

impl TMDBClient {
    /// The key sent with every request.
    pub closed spec fn spec_api_key(&self) -> Seq<char> {
        self.api_key@
    }

    /// The base URL requests are composed on.
    pub closed spec fn spec_base_url(&self) -> Seq<char> {
        self.base_url@
    }

    /// Creates a client with the provided API key and the default base
    /// URL.
    pub fn new(api_key: String) -> (r: TMDBClient)
        ensures
            r.spec_api_key() == api_key@,
            r.spec_base_url() == spec_api_base_url(),
    {
        TMDBClient { api_key, base_url: "https://api.themoviedb.org/3".to_owned() }
    }

    /// The full URL for an endpoint: the base URL, a slash, and the
    /// endpoint path.
    pub fn request_url(&self, endpoint: &str) -> (r: String)
        ensures
            r@ == self.spec_base_url() + "/"@ + endpoint@,
    {
        let mut url = self.base_url.clone();
        url.append("/");
        url.append(endpoint);
        url
    }

    /// The value of the authorization header: the bearer scheme around
    /// the API key.
    pub fn authorization_value(&self) -> (r: String)
        ensures
            r@ == "Bearer "@ + self.spec_api_key(),
    {
        let mut h = "Bearer ".to_owned();
        h.append(self.api_key.as_str());
        h
    }

    /// The value of the accept header sent with every request.
    pub fn accept_value(&self) -> (r: &'static str)
        ensures
            r@ == "application/json"@,
    {
        "application/json"
    }
}

/// A request ready to be carried by the transport: the endpoint path and
/// the query parameters to attach.
#[derive(Debug, PartialEq, Eq)]
pub struct PreparedRequest {
    /// The endpoint path under the client's base URL.
    pub path: String,
    /// The accumulated query parameters.
    pub params: QueryParams,
}

/// The exec response result `r` matches the spec-level result `s`.
pub open spec fn response_gives<T: DeepView>(
    r: Result<T, ApiFetchError>,
    s: Result<T::V, ApiFetchErrorV>,
) -> bool {
    match s {
        Ok(sv) => r matches Ok(m) && m.deep_view() == sv,
        Err(e) => r matches Err(x) && x.deep_view() == e,
    }
}

/// What a movie-listing response body decodes to: a body that is not JSON
/// surfaces as a request failure, a tree of the wrong shape as a
/// deserialization failure at its exact path, and a well-shaped tree as
/// the frontend movie list.
pub open spec fn spec_movie_list_response(t: Option<JsonValue>) -> Result<
    FrontendMovieListV,
    ApiFetchErrorV,
> {
    match t {
        None => Err(ApiFetchErrorV::Request { status: None }),
        Some(v) => match spec_movie_page(v) {
            Ok(p) => Ok(spec_movie_list(p)),
            Err(e) => Err(spec_deserialization_error(e)),
        },
    }
}

/// Decodes a movie-listing response body in two stages.
pub fn decode_movie_list_response(body: &str) -> (r: Result<FrontendMovieList, ApiFetchError>)
    ensures
        response_gives(r, spec_movie_list_response(parsed_json(body@))),
{
    let tree = match parse_json(body) {
        Some(t) => t,
        None => {
            return Err(ApiFetchError::Request { status: None });
        },
    };
    match decode_movie_page(&tree) {
        Ok(page) => Ok(FrontendMovieList::from(&page)),
        Err(e) => Err(deserialization_error(e)),
    }
}

/// What a people-listing response body decodes to.
pub open spec fn spec_people_list_response(t: Option<JsonValue>) -> Result<
    FrontendPeopleListV,
    ApiFetchErrorV,
> {
    match t {
        None => Err(ApiFetchErrorV::Request { status: None }),
        Some(v) => match spec_person_page(v) {
            Ok(p) => Ok(spec_people_list(p)),
            Err(e) => Err(spec_deserialization_error(e)),
        },
    }
}

/// Decodes a people-listing response body in two stages.
pub fn decode_people_list_response(body: &str) -> (r: Result<FrontendPeopleList, ApiFetchError>)
    ensures
        response_gives(r, spec_people_list_response(parsed_json(body@))),
{
    let tree = match parse_json(body) {
        Some(t) => t,
        None => {
            return Err(ApiFetchError::Request { status: None });
        },
    };
    match decode_person_page(&tree) {
        Ok(page) => Ok(FrontendPeopleList::from(&page)),
        Err(e) => Err(deserialization_error(e)),
    }
}

/// What a movie-details response body decodes to.
pub open spec fn spec_movie_details_response(t: Option<JsonValue>) -> Result<
    FrontendMovieDetailsV,
    ApiFetchErrorV,
> {
    match t {
        None => Err(ApiFetchErrorV::Request { status: None }),
        Some(v) => match spec_movie_details(v) {
            Ok(m) => Ok(spec_frontend_movie_details(m)),
            Err(e) => Err(spec_deserialization_error(e)),
        },
    }
}

/// Decodes a movie-details response body in two stages.
pub fn decode_movie_details_response(body: &str) -> (r: Result<
    FrontendMovieDetails,
    ApiFetchError,
>)
    ensures
        response_gives(r, spec_movie_details_response(parsed_json(body@))),
{
    let tree = match parse_json(body) {
        Some(t) => t,
        None => {
            return Err(ApiFetchError::Request { status: None });
        },
    };
    match decode_movie_details(&tree) {
        Ok(m) => Ok(FrontendMovieDetails::from(&m)),
        Err(e) => Err(deserialization_error(e)),
    }
}

/// What a person-details response body decodes to.
pub open spec fn spec_person_details_response(t: Option<JsonValue>) -> Result<
    FrontendPersonDetailsV,
    ApiFetchErrorV,
> {
    match t {
        None => Err(ApiFetchErrorV::Request { status: None }),
        Some(v) => match spec_person_details(v) {
            Ok(p) => Ok(spec_frontend_person_details(p)),
            Err(e) => Err(spec_deserialization_error(e)),
        },
    }
}

/// Decodes a person-details response body in two stages.
pub fn decode_person_details_response(body: &str) -> (r: Result<
    FrontendPersonDetails,
    ApiFetchError,
>)
    ensures
        response_gives(r, spec_person_details_response(parsed_json(body@))),
{
    let tree = match parse_json(body) {
        Some(t) => t,
        None => {
            return Err(ApiFetchError::Request { status: None });
        },
    };
    match decode_person_details(&tree) {
        Ok(p) => Ok(FrontendPersonDetails::from(&p)),
        Err(e) => Err(deserialization_error(e)),
    }
}

} // verus!
