//! Request builders: endpoint paths, parameter accumulation, and the
//! fail-fast rule of the search builders.

use cinescore::date::Date;
use cinescore::error::ApiFetchError;
use cinescore::json::DecodeKind;
use cinescore::queries::{
    AppendToResponseQueryParam, IncludeAdultQueryParam, LanguageQueryParam, PageQueryParam,
    PrimaryReleaseDateQueryParam, QueryQueryParam, SortBy, SortByQueryParam, YearQueryParam,
};
use cinescore::requests::{
    DiscoverMoviesRequest, MovieDetailsRequest, MovieListNowPlayingRequest,
    MovieListTrendingRequest, PersonDetailsRequest, SearchMoviesRequest, SearchPeopleRequest,
    TrendingPeopleRequest,
};

fn pair_value(pairs: &[(String, String)], key: &str) -> Option<String> {
    for (k, v) in pairs {
        if k == key {
            return Some(v.clone());
        }
    }
    None
}

#[test]
fn trending_movies_endpoint() {
    let prepared = MovieListTrendingRequest::new().prepare();
    assert_eq!(prepared.path, "/trending/movie/day");
    assert!(prepared.params.render_pairs().is_empty());
}

#[test]
fn now_playing_endpoint_with_language_and_page() {
    let prepared = MovieListNowPlayingRequest::new()
        .language("en-US".to_string())
        .page(3)
        .prepare();
    assert_eq!(prepared.path, "movie/now_playing");
    let pairs = prepared.params.render_pairs();
    assert_eq!(pair_value(&pairs, "language"), Some("en-US".to_string()));
    assert_eq!(pair_value(&pairs, "page"), Some("3".to_string()));
}

#[test]
fn discover_movies_filters() {
    let prepared = DiscoverMoviesRequest::new()
        .include_adult(false)
        .year(1999)
        .sort_by(SortBy::VoteCountDesc)
        .primary_release_date_range(Some(Date::new(1999, 1, 2)), Some(Date::new(2001, 11, 30)))
        .prepare();
    assert_eq!(prepared.path, "discover/movie");
    let pairs = prepared.params.render_pairs();
    assert_eq!(pair_value(&pairs, "include_adult"), Some("false".to_string()));
    assert_eq!(pair_value(&pairs, "year"), Some("1999".to_string()));
    assert_eq!(pair_value(&pairs, "sort_by"), Some("vote_count.desc".to_string()));
    assert_eq!(
        pair_value(&pairs, "primary_release_date.gte"),
        Some("1999-01-02".to_string())
    );
    assert_eq!(
        pair_value(&pairs, "primary_release_date.lte"),
        Some("2001-11-30".to_string())
    );
}

#[test]
fn movie_details_endpoint_carries_id_and_append() {
    let prepared = MovieDetailsRequest::new()
        .append_to_response("credits".to_string())
        .prepare(550);
    assert_eq!(prepared.path, "movie/550");
    let pairs = prepared.params.render_pairs();
    assert_eq!(pair_value(&pairs, "append_to_response"), Some("credits".to_string()));
}

#[test]
fn person_details_endpoint_carries_id_and_append() {
    let prepared = PersonDetailsRequest::new()
        .append_to_response("credits,external_ids".to_string())
        .prepare(287);
    assert_eq!(prepared.path, "person/287");
    let pairs = prepared.params.render_pairs();
    assert_eq!(
        pair_value(&pairs, "append_to_response"),
        Some("credits,external_ids".to_string())
    );
}

#[test]
fn trending_people_endpoint() {
    let prepared = TrendingPeopleRequest::new().prepare();
    assert_eq!(prepared.path, "/trending/person/day");
}

#[test]
fn search_movies_without_query_fails_before_any_request() {
    // No transport is ever involved: the builder refuses to produce a
    // request at all.
    let r = SearchMoviesRequest::new().prepare();
    match r {
        Err(ApiFetchError::MissingQueryParam { param, request_name }) => {
            assert_eq!(param, "query");
            assert_eq!(request_name, "SearchMoviesRequest");
        },
        _ => panic!("expected the missing-query error"),
    }
}

#[test]
fn search_movies_with_empty_query_fails_before_any_request() {
    let r = SearchMoviesRequest::new().query(String::new()).prepare();
    match r {
        Err(ApiFetchError::MissingQueryParam { param, request_name }) => {
            assert_eq!(param, "query");
            assert_eq!(request_name, "SearchMoviesRequest");
        },
        _ => panic!("expected the missing-query error"),
    }
}

#[test]
fn search_movies_with_query_prepares_the_search_endpoint() {
    let r = SearchMoviesRequest::new().query("fight club".to_string()).prepare();
    let prepared = r.expect("a usable query must prepare a request");
    assert_eq!(prepared.path, "search/movie");
    let pairs = prepared.params.render_pairs();
    assert_eq!(pair_value(&pairs, "query"), Some("fight club".to_string()));
}

#[test]
fn search_people_without_query_fails_before_any_request() {
    let r = SearchPeopleRequest::new().prepare();
    match r {
        Err(ApiFetchError::MissingQueryParam { param, request_name }) => {
            assert_eq!(param, "query");
            assert_eq!(request_name, "SearchPeopleRequest");
        },
        _ => panic!("expected the missing-query error"),
    }
}

#[test]
fn search_people_with_query_prepares_the_search_endpoint() {
    let r = SearchPeopleRequest::new().query("norton".to_string()).prepare();
    let prepared = r.expect("a usable query must prepare a request");
    assert_eq!(prepared.path, "search/person");
}

#[test]
fn setting_a_parameter_twice_keeps_one_entry_with_the_last_value() {
    let prepared = MovieListTrendingRequest::new()
        .language("en-US".to_string())
        .language("de-DE".to_string())
        .prepare();
    let pairs = prepared.params.render_pairs();
    assert_eq!(pairs.len(), 1);
    assert_eq!(pair_value(&pairs, "language"), Some("de-DE".to_string()));
}

#[test]
fn sort_orders_render_as_field_and_direction() {
    assert_eq!(SortBy::OriginalTitleAsc.as_query_value(), "original_title.asc");
    assert_eq!(SortBy::PopularityDesc.as_query_value(), "popularity.desc");
    assert_eq!(SortBy::PrimaryReleaseDateAsc.as_query_value(), "primary_release_date.asc");
    assert_eq!(SortBy::RevenueDesc.as_query_value(), "revenue.desc");
    assert_eq!(SortBy::TitleAsc.as_query_value(), "title.asc");
    assert_eq!(SortBy::VoteAverageDesc.as_query_value(), "vote_average.desc");
}

#[test]
fn dates_render_with_padded_month_and_day() {
    let d = Date::new(1999, 1, 2);
    assert_eq!(d.render(), "1999-01-02");
    assert_eq!(d.year(), 1999);
    assert_eq!(d.month(), 1);
    assert_eq!(d.day(), 2);
}

#[test]
fn error_messages_are_descriptive() {
    let transport = ApiFetchError::Request { status: None };
    assert_eq!(transport.message(), "error while fetching data from the upstream API");
    let with_status = ApiFetchError::Request { status: Some(404) };
    assert_eq!(
        with_status.message(),
        "error while fetching data from the upstream API (status 404)"
    );
    let missing = ApiFetchError::MissingQueryParam {
        param: "query".to_string(),
        request_name: "SearchMoviesRequest".to_string(),
    };
    assert_eq!(
        missing.message(),
        "missing query parameter `query` in request `SearchMoviesRequest`"
    );
    let deser = ApiFetchError::Deserialization {
        path: "results[2].vote_count".to_string(),
        kind: DecodeKind::ExpectedU64,
    };
    assert_eq!(deser.message(), "deserialization error at results[2].vote_count");
}
