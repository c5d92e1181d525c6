//! One request builder per upstream operation. Each accumulates query
//! parameters through the capability traits it opts into and is consumed
//! by its terminal prepare operation, which fixes the endpoint path; the
//! search builders fail fast when the required `query` parameter is
//! unset, before any request exists to send.

use vstd::prelude::*;
use vstd::string::StringExecFns;
use crate::client::PreparedRequest;
use crate::error::{ApiFetchError, ApiFetchErrorV};
use crate::params::{ParamKey, QueryParams};
use crate::queries::{
    AppendToResponseQueryParam, HasParams, IncludeAdultQueryParam, IncludeVideoQueryParam,
    LanguageQueryParam, PageQueryParam, PrimaryReleaseDateQueryParam, PrimaryReleaseYearQueryParam,
    QueryQueryParam, RegionQueryParam, SortByQueryParam, YearQueryParam,
};
use crate::strings::{spec_decimal, u64_to_string};

verus! {

/// Request builder for fetching today's trending movies.
#[derive(Debug, PartialEq, Eq)]
pub struct MovieListTrendingRequest {
    params: QueryParams,
}

impl MovieListTrendingRequest {
    /// A builder with no parameters set.
    pub fn new() -> (r: MovieListTrendingRequest)
        ensures
            r.param_map() == Map::<ParamKey, Seq<char>>::empty(),
    {
        MovieListTrendingRequest { params: QueryParams::new() }
    }

    /// Fixes the endpoint and hands the accumulated parameters over.
    pub fn prepare(self) -> (r: PreparedRequest)
        ensures
            r.path@ == "/trending/movie/day"@,
            r.params@ == self.param_map(),
    {
        PreparedRequest { path: "/trending/movie/day".to_owned(), params: self.params }
    }
}

impl HasParams for MovieListTrendingRequest {
    closed spec fn param_map(&self) -> Map<ParamKey, Seq<char>> {
        self.params@
    }

    fn set_param(self, key: ParamKey, value: String) -> (r: Self) {
        MovieListTrendingRequest { params: self.params.insert(key, value) }
    }
}

impl LanguageQueryParam for MovieListTrendingRequest {

}

/// Request builder for fetching movies that are now playing in theatres.
#[derive(Debug, PartialEq, Eq)]
pub struct MovieListNowPlayingRequest {
    params: QueryParams,
}

impl MovieListNowPlayingRequest {
    /// A builder with no parameters set.
    pub fn new() -> (r: MovieListNowPlayingRequest)
        ensures
            r.param_map() == Map::<ParamKey, Seq<char>>::empty(),
    {
        MovieListNowPlayingRequest { params: QueryParams::new() }
    }

    /// Fixes the endpoint and hands the accumulated parameters over.
    pub fn prepare(self) -> (r: PreparedRequest)
        ensures
            r.path@ == "movie/now_playing"@,
            r.params@ == self.param_map(),
    {
        PreparedRequest { path: "movie/now_playing".to_owned(), params: self.params }
    }
}

impl HasParams for MovieListNowPlayingRequest {
    closed spec fn param_map(&self) -> Map<ParamKey, Seq<char>> {
        self.params@
    }

    fn set_param(self, key: ParamKey, value: String) -> (r: Self) {
        MovieListNowPlayingRequest { params: self.params.insert(key, value) }
    }
}

impl LanguageQueryParam for MovieListNowPlayingRequest {

}

impl PageQueryParam for MovieListNowPlayingRequest {

}

impl RegionQueryParam for MovieListNowPlayingRequest {

}

/// Request builder for fetching movies against a set of filters.
#[derive(Debug, PartialEq, Eq)]
pub struct DiscoverMoviesRequest {
    params: QueryParams,
}

impl DiscoverMoviesRequest {
    /// A builder with no parameters set.
    pub fn new() -> (r: DiscoverMoviesRequest)
        ensures
            r.param_map() == Map::<ParamKey, Seq<char>>::empty(),
    {
        DiscoverMoviesRequest { params: QueryParams::new() }
    }

    /// Fixes the endpoint and hands the accumulated parameters over.
    pub fn prepare(self) -> (r: PreparedRequest)
        ensures
            r.path@ == "discover/movie"@,
            r.params@ == self.param_map(),
    {
        PreparedRequest { path: "discover/movie".to_owned(), params: self.params }
    }
}

impl HasParams for DiscoverMoviesRequest {
    closed spec fn param_map(&self) -> Map<ParamKey, Seq<char>> {
        self.params@
    }

    fn set_param(self, key: ParamKey, value: String) -> (r: Self) {
        DiscoverMoviesRequest { params: self.params.insert(key, value) }
    }
}

impl IncludeAdultQueryParam for DiscoverMoviesRequest {

}

impl LanguageQueryParam for DiscoverMoviesRequest {

}

impl RegionQueryParam for DiscoverMoviesRequest {

}

impl PageQueryParam for DiscoverMoviesRequest {

}

impl PrimaryReleaseYearQueryParam for DiscoverMoviesRequest {

}

impl YearQueryParam for DiscoverMoviesRequest {

}

impl PrimaryReleaseDateQueryParam for DiscoverMoviesRequest {

}

impl IncludeVideoQueryParam for DiscoverMoviesRequest {

}

impl SortByQueryParam for DiscoverMoviesRequest {

}

/// Request builder for fetching one movie's details by its ID.
#[derive(Debug, PartialEq, Eq)]
pub struct MovieDetailsRequest {
    params: QueryParams,
}

impl MovieDetailsRequest {
    /// A builder with no parameters set.
    pub fn new() -> (r: MovieDetailsRequest)
        ensures
            r.param_map() == Map::<ParamKey, Seq<char>>::empty(),
    {
        MovieDetailsRequest { params: QueryParams::new() }
    }

    /// Fixes the endpoint for the given movie ID and hands the
    /// accumulated parameters over.
    pub fn prepare(self, id: u64) -> (r: PreparedRequest)
        ensures
            r.path@ == "movie/"@ + spec_decimal(id as nat),
            r.params@ == self.param_map(),
    {
        let mut path = "movie/".to_owned();
        let digits = u64_to_string(id);
        path.append(digits.as_str());
        PreparedRequest { path, params: self.params }
    }
}

impl HasParams for MovieDetailsRequest {
    closed spec fn param_map(&self) -> Map<ParamKey, Seq<char>> {
        self.params@
    }

    fn set_param(self, key: ParamKey, value: String) -> (r: Self) {
        MovieDetailsRequest { params: self.params.insert(key, value) }
    }
}

impl AppendToResponseQueryParam for MovieDetailsRequest {

}

impl LanguageQueryParam for MovieDetailsRequest {

}

/// Request builder for fetching one person's details by their ID.
#[derive(Debug, PartialEq, Eq)]
pub struct PersonDetailsRequest {
    params: QueryParams,
}

impl PersonDetailsRequest {
    /// A builder with no parameters set.
    pub fn new() -> (r: PersonDetailsRequest)
        ensures
            r.param_map() == Map::<ParamKey, Seq<char>>::empty(),
    {
        PersonDetailsRequest { params: QueryParams::new() }
    }

    /// Fixes the endpoint for the given person ID and hands the
    /// accumulated parameters over.
    pub fn prepare(self, id: u64) -> (r: PreparedRequest)
        ensures
            r.path@ == "person/"@ + spec_decimal(id as nat),
            r.params@ == self.param_map(),
    {
        let mut path = "person/".to_owned();
        let digits = u64_to_string(id);
        path.append(digits.as_str());
        PreparedRequest { path, params: self.params }
    }
}

impl HasParams for PersonDetailsRequest {
    closed spec fn param_map(&self) -> Map<ParamKey, Seq<char>> {
        self.params@
    }

    fn set_param(self, key: ParamKey, value: String) -> (r: Self) {
        PersonDetailsRequest { params: self.params.insert(key, value) }
    }
}

impl AppendToResponseQueryParam for PersonDetailsRequest {

}

impl LanguageQueryParam for PersonDetailsRequest {

}

/// Request builder for fetching today's trending people.
#[derive(Debug, PartialEq, Eq)]
pub struct TrendingPeopleRequest {
    params: QueryParams,
}

impl TrendingPeopleRequest {
    /// A builder with no parameters set.
    pub fn new() -> (r: TrendingPeopleRequest)
        ensures
            r.param_map() == Map::<ParamKey, Seq<char>>::empty(),
    {
        TrendingPeopleRequest { params: QueryParams::new() }
    }

    /// Fixes the endpoint and hands the accumulated parameters over.
    pub fn prepare(self) -> (r: PreparedRequest)
        ensures
            r.path@ == "/trending/person/day"@,
            r.params@ == self.param_map(),
    {
        PreparedRequest { path: "/trending/person/day".to_owned(), params: self.params }
    }
}

impl HasParams for TrendingPeopleRequest {
    closed spec fn param_map(&self) -> Map<ParamKey, Seq<char>> {
        self.params@
    }

    fn set_param(self, key: ParamKey, value: String) -> (r: Self) {
        TrendingPeopleRequest { params: self.params.insert(key, value) }
    }
}

impl LanguageQueryParam for TrendingPeopleRequest {

}

/// Whether a parameter mapping carries a usable search query: the `query`
/// parameter must be set and not empty.
pub open spec fn spec_has_query(m: Map<ParamKey, Seq<char>>) -> bool {
    m.contains_key(ParamKey::Query) && m[ParamKey::Query].len() > 0
}

/// Request builder for searching movies.
#[derive(Debug, PartialEq, Eq)]
pub struct SearchMoviesRequest {
    params: QueryParams,
}

impl SearchMoviesRequest {
    /// A builder with no parameters set.
    pub fn new() -> (r: SearchMoviesRequest)
        ensures
            r.param_map() == Map::<ParamKey, Seq<char>>::empty(),
    {
        SearchMoviesRequest { params: QueryParams::new() }
    }

    /// Fixes the endpoint and hands the accumulated parameters over, or
    /// fails — before any request exists to send — exactly when the
    /// required `query` parameter is unset or empty.
    pub fn prepare(self) -> (r: Result<PreparedRequest, ApiFetchError>)
        ensures
            spec_has_query(self.param_map()) ==> (r matches Ok(p) && p.path@ == "search/movie"@
                && p.params@ == self.param_map()),
            !spec_has_query(self.param_map()) ==> (r matches Err(e) && e.deep_view()
                == (ApiFetchErrorV::MissingQueryParam {
                param: "query"@,
                request_name: "SearchMoviesRequest"@,
            })),
    {
        let usable = match self.params.get(ParamKey::Query) {
            Some(q) => !q.as_str().is_empty(),
            None => false,
        };
        if !usable {
            return Err(
                ApiFetchError::MissingQueryParam {
                    param: "query".to_owned(),
                    request_name: "SearchMoviesRequest".to_owned(),
                },
            );
        }
        Ok(PreparedRequest { path: "search/movie".to_owned(), params: self.params })
    }
}

impl HasParams for SearchMoviesRequest {
    closed spec fn param_map(&self) -> Map<ParamKey, Seq<char>> {
        self.params@
    }

    fn set_param(self, key: ParamKey, value: String) -> (r: Self) {
        SearchMoviesRequest { params: self.params.insert(key, value) }
    }
}

impl QueryQueryParam for SearchMoviesRequest {

}

impl IncludeAdultQueryParam for SearchMoviesRequest {

}

impl LanguageQueryParam for SearchMoviesRequest {

}

impl PageQueryParam for SearchMoviesRequest {

}

impl PrimaryReleaseYearQueryParam for SearchMoviesRequest {

}

impl RegionQueryParam for SearchMoviesRequest {

}

impl YearQueryParam for SearchMoviesRequest {

}

/// Request builder for searching people.
#[derive(Debug, PartialEq, Eq)]
pub struct SearchPeopleRequest {
    params: QueryParams,
}

impl SearchPeopleRequest {
    /// A builder with no parameters set.
    pub fn new() -> (r: SearchPeopleRequest)
        ensures
            r.param_map() == Map::<ParamKey, Seq<char>>::empty(),
    {
        SearchPeopleRequest { params: QueryParams::new() }
    }

    /// Fixes the endpoint and hands the accumulated parameters over, or
    /// fails — before any request exists to send — exactly when the
    /// required `query` parameter is unset or empty.
    pub fn prepare(self) -> (r: Result<PreparedRequest, ApiFetchError>)
        ensures
            spec_has_query(self.param_map()) ==> (r matches Ok(p) && p.path@ == "search/person"@
                && p.params@ == self.param_map()),
            !spec_has_query(self.param_map()) ==> (r matches Err(e) && e.deep_view()
                == (ApiFetchErrorV::MissingQueryParam {
                param: "query"@,
                request_name: "SearchPeopleRequest"@,
            })),
    {
        let usable = match self.params.get(ParamKey::Query) {
            Some(q) => !q.as_str().is_empty(),
            None => false,
        };
        if !usable {
            return Err(
                ApiFetchError::MissingQueryParam {
                    param: "query".to_owned(),
                    request_name: "SearchPeopleRequest".to_owned(),
                },
            );
        }
        Ok(PreparedRequest { path: "search/person".to_owned(), params: self.params })
    }
}

impl HasParams for SearchPeopleRequest {
    closed spec fn param_map(&self) -> Map<ParamKey, Seq<char>> {
        self.params@
    }

    fn set_param(self, key: ParamKey, value: String) -> (r: Self) {
        SearchPeopleRequest { params: self.params.insert(key, value) }
    }
}

impl QueryQueryParam for SearchPeopleRequest {

}

impl IncludeAdultQueryParam for SearchPeopleRequest {

}

impl LanguageQueryParam for SearchPeopleRequest {

}

impl PageQueryParam for SearchPeopleRequest {

}

} // verus!
