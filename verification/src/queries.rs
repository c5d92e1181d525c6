//! The query-parameter capability traits: small, composable behaviours a
//! request builder opts into, each adding one parameter under its fixed
//! key and returning the builder for chaining.

use vstd::prelude::*;
use crate::date::{Date, spec_render_date};
use crate::params::ParamKey;
use crate::strings::{spec_decimal, u64_to_string};

verus! {

/// A request builder that carries a query-parameter set.
pub trait HasParams: Sized {
    /// The parameter mapping the builder has accumulated.
    spec fn param_map(&self) -> Map<ParamKey, Seq<char>>;

    /// Sets one parameter, replacing any earlier value under the same key.
    fn set_param(self, key: ParamKey, value: String) -> (r: Self)
        ensures
            r.param_map() == self.param_map().insert(key, value@),
    ;
}

/// Adds a `language` query parameter, for localized responses.
pub trait LanguageQueryParam: HasParams {
    /// Sets the `language` query parameter for the request.
    fn language(self, language: String) -> (r: Self)
        ensures
            r.param_map() == self.param_map().insert(ParamKey::Language, language@),
    {
        self.set_param(ParamKey::Language, language)
    }
}

/// Adds an `append_to_response` query parameter, requesting additional
/// fields in the response.
pub trait AppendToResponseQueryParam: HasParams {
    /// Sets the `append_to_response` query parameter for the request.
    fn append_to_response(self, append: String) -> (r: Self)
        ensures
            r.param_map() == self.param_map().insert(ParamKey::AppendToResponse, append@),
    {
        self.set_param(ParamKey::AppendToResponse, append)
    }
}

/// Adds a `region` query parameter, for region-based filtering.
pub trait RegionQueryParam: HasParams {
    /// Sets the `region` query parameter for the request.
    fn region(self, region: String) -> (r: Self)
        ensures
            r.param_map() == self.param_map().insert(ParamKey::Region, region@),
    {
        self.set_param(ParamKey::Region, region)
    }
}

/// Adds a `page` query parameter, for paginated results.
pub trait PageQueryParam: HasParams {
    /// Sets the `page` query parameter for the request.
    fn page(self, page: u32) -> (r: Self)
        ensures
            r.param_map() == self.param_map().insert(ParamKey::Page, spec_decimal(page as nat)),
    {
        self.set_param(ParamKey::Page, u64_to_string(page as u64))
    }
}

/// The query-string text of a boolean parameter.
pub open spec fn spec_bool_text(b: bool) -> Seq<char> {
    if b {
        "true"@
    } else {
        "false"@
    }
}

/// Renders a boolean parameter value.
fn bool_text(b: bool) -> (r: String)
    ensures
        r@ == spec_bool_text(b),
{
    if b {
        "true".to_owned()
    } else {
        "false".to_owned()
    }
}

/// Adds an `include_adult` query parameter, filtering adult content.
pub trait IncludeAdultQueryParam: HasParams {
    /// Sets the `include_adult` query parameter for the request.
    fn include_adult(self, include_adult: bool) -> (r: Self)
        ensures
            r.param_map() == self.param_map().insert(
                ParamKey::IncludeAdult,
                spec_bool_text(include_adult),
            ),
    {
        self.set_param(ParamKey::IncludeAdult, bool_text(include_adult))
    }
}

/// Adds an `include_video` query parameter.
pub trait IncludeVideoQueryParam: HasParams {
    /// Sets the `include_video` query parameter for the request.
    fn include_video(self, include_video: bool) -> (r: Self)
        ensures
            r.param_map() == self.param_map().insert(
                ParamKey::IncludeVideo,
                spec_bool_text(include_video),
            ),
    {
        self.set_param(ParamKey::IncludeVideo, bool_text(include_video))
    }
}

/// Adds a `primary_release_year` query parameter.
pub trait PrimaryReleaseYearQueryParam: HasParams {
    /// Sets the `primary_release_year` query parameter for the request.
    fn primary_release_year(self, year: String) -> (r: Self)
        ensures
            r.param_map() == self.param_map().insert(ParamKey::PrimaryReleaseYear, year@),
    {
        self.set_param(ParamKey::PrimaryReleaseYear, year)
    }
}

/// Adds a `year` query parameter.
pub trait YearQueryParam: HasParams {
    /// Sets the `year` query parameter for the request.
    fn year(self, year: u16) -> (r: Self)
        ensures
            r.param_map() == self.param_map().insert(ParamKey::Year, spec_decimal(year as nat)),
    {
        self.set_param(ParamKey::Year, u64_to_string(year as u64))
    }
}

/// Adds a `query` parameter, as used in searching.
pub trait QueryQueryParam: HasParams {
    /// Sets the `query` query parameter for the request.
    fn query(self, query: String) -> (r: Self)
        ensures
            r.param_map() == self.param_map().insert(ParamKey::Query, query@),
    {
        self.set_param(ParamKey::Query, query)
    }
}

/// The parameter mapping after bounding by an optional release-date range.
pub open spec fn spec_with_date_range(
    m: Map<ParamKey, Seq<char>>,
    gte: Option<Date>,
    lte: Option<Date>,
) -> Map<ParamKey, Seq<char>> {
    let with_gte = match gte {
        Some(d) => m.insert(ParamKey::PrimaryReleaseDateGte, spec_render_date(d)),
        None => m,
    };
    match lte {
        Some(d) => with_gte.insert(ParamKey::PrimaryReleaseDateLte, spec_render_date(d)),
        None => with_gte,
    }
}

/// Adds `primary_release_date.gte` and `primary_release_date.lte` query
/// parameters, bounding results by release date.
pub trait PrimaryReleaseDateQueryParam: HasParams {
    /// Sets the release-date bounds that are present; an absent bound
    /// leaves its parameter unset.
    fn primary_release_date_range(self, gte: Option<Date>, lte: Option<Date>) -> (r: Self)
        ensures
            r.param_map() == spec_with_date_range(self.param_map(), gte, lte),
    {
        let with_gte = match gte {
            Some(date) => self.set_param(ParamKey::PrimaryReleaseDateGte, date.render()),
            None => self,
        };
        match lte {
            Some(date) => with_gte.set_param(ParamKey::PrimaryReleaseDateLte, date.render()),
            None => with_gte,
        }
    }
}

/// The sort orders the discover endpoint accepts: a field crossed with a
/// direction, rendered as `field.asc` or `field.desc`.
#[derive(Debug, Clone, Copy, PartialEq, Eq, Structural)]
pub enum SortBy {
    OriginalTitleAsc,
    OriginalTitleDesc,
    PopularityAsc,
    PopularityDesc,
    RevenueAsc,
    RevenueDesc,
    PrimaryReleaseDateAsc,
    PrimaryReleaseDateDesc,
    TitleAsc,
    TitleDesc,
    VoteAverageAsc,
    VoteAverageDesc,
    VoteCountAsc,
    VoteCountDesc,
}

/// The query-string text of a sort order.
pub open spec fn spec_sort_by_value(s: SortBy) -> Seq<char> {
    match s {
        SortBy::OriginalTitleAsc => "original_title.asc"@,
        SortBy::OriginalTitleDesc => "original_title.desc"@,
        SortBy::PopularityAsc => "popularity.asc"@,
        SortBy::PopularityDesc => "popularity.desc"@,
        SortBy::RevenueAsc => "revenue.asc"@,
        SortBy::RevenueDesc => "revenue.desc"@,
        SortBy::PrimaryReleaseDateAsc => "primary_release_date.asc"@,
        SortBy::PrimaryReleaseDateDesc => "primary_release_date.desc"@,
        SortBy::TitleAsc => "title.asc"@,
        SortBy::TitleDesc => "title.desc"@,
        SortBy::VoteAverageAsc => "vote_average.asc"@,
        SortBy::VoteAverageDesc => "vote_average.desc"@,
        SortBy::VoteCountAsc => "vote_count.asc"@,
        SortBy::VoteCountDesc => "vote_count.desc"@,
    }
}

impl SortBy {
    /// The sort order as query-string text.
    pub fn as_query_value(&self) -> (r: &'static str)
        ensures
            r@ == spec_sort_by_value(*self),
    {
        match self {
            SortBy::OriginalTitleAsc => "original_title.asc",
            SortBy::OriginalTitleDesc => "original_title.desc",
            SortBy::PopularityAsc => "popularity.asc",
            SortBy::PopularityDesc => "popularity.desc",
            SortBy::RevenueAsc => "revenue.asc",
            SortBy::RevenueDesc => "revenue.desc",
            SortBy::PrimaryReleaseDateAsc => "primary_release_date.asc",
            SortBy::PrimaryReleaseDateDesc => "primary_release_date.desc",
            SortBy::TitleAsc => "title.asc",
            SortBy::TitleDesc => "title.desc",
            SortBy::VoteAverageAsc => "vote_average.asc",
            SortBy::VoteAverageDesc => "vote_average.desc",
            SortBy::VoteCountAsc => "vote_count.asc",
            SortBy::VoteCountDesc => "vote_count.desc",
        }
    }
}

/// Adds a `sort_by` query parameter, ordering the results.
pub trait SortByQueryParam: HasParams {
    /// Sets the `sort_by` query parameter for the request.
    fn sort_by(self, sort_by: SortBy) -> (r: Self)
        ensures
            r.param_map() == self.param_map().insert(
                ParamKey::SortBy,
                spec_sort_by_value(sort_by),
            ),
    {
        let value = sort_by.as_query_value().to_owned();
        self.set_param(ParamKey::SortBy, value)
    }
}

} // verus!
