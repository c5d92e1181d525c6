//! Response-body decoding: the path-tracking deserialization errors, the
//! optional-credits rule, person records, and an end-to-end details flow.

use cinescore::client::{
    TMDBClient, decode_movie_details_response, decode_movie_list_response,
    decode_people_list_response, decode_person_details_response,
};
use cinescore::date::{Date, parse_date};
use cinescore::error::ApiFetchError;
use cinescore::json::DecodeKind;
use cinescore::models_common::Gender;
use cinescore::queries::AppendToResponseQueryParam;
use cinescore::requests::MovieDetailsRequest;

fn movie_entry(id: u64, title: &str, vote_count: &str) -> String {
    let mut s = String::new();
    s.push_str("{\"adult\":false,\"backdrop_path\":null,\"id\":");
    s.push_str(&id.to_string());
    s.push_str(",\"original_language\":\"en\",\"original_title\":\"");
    s.push_str(title);
    s.push_str("\",\"overview\":\"an overview\",\"popularity\":61.4,");
    s.push_str("\"poster_path\":\"p.png\",\"release_date\":\"1999-10-15\",\"title\":\"");
    s.push_str(title);
    s.push_str("\",\"video\":false,\"vote_average\":8.4,\"vote_count\":");
    s.push_str(vote_count);
    s.push_str(",\"genre_ids\":[18,53]}");
    s
}

fn movie_list_body(entries: &[String]) -> String {
    let mut s = String::from("{\"page\":1,\"results\":[");
    s.push_str(&entries.join(","));
    s.push_str("],\"total_pages\":1,\"total_results\":");
    s.push_str(&entries.len().to_string());
    s.push_str("}");
    s
}

const DETAILS_BODY: &str = "{\
\"adult\":false,\"backdrop_path\":null,\"id\":550,\
\"original_language\":\"en\",\"original_title\":\"Fight Club\",\
\"overview\":\"an overview\",\"popularity\":61.4,\"poster_path\":\"p.png\",\
\"release_date\":\"1999-10-15\",\"title\":\"Fight Club\",\"video\":false,\
\"vote_average\":8.4,\"vote_count\":26280,\
\"belongs_to_collection\":null,\"budget\":63000000,\
\"genres\":[{\"id\":18,\"name\":\"Drama\"}],\
\"homepage\":\"\",\"imdb_id\":\"tt0137523\",\
\"production_companies\":[],\"production_countries\":[],\
\"revenue\":100853753,\"runtime\":139,\
\"spoken_languages\":[{\"english_name\":\"English\",\"iso_639_1\":\"en\",\"name\":\"English\"}],\
\"status\":\"Released\",\"tagline\":\"Mischief.\",\
\"credits\":{\"cast\":[{\"adult\":false,\"gender\":2,\"id\":819,\
\"known_for_department\":\"Acting\",\"name\":\"Edward Norton\",\
\"original_name\":\"Edward Norton\",\"popularity\":26.99,\
\"profile_path\":\"n.png\",\"cast_id\":4,\"character\":\"The Narrator\",\
\"credit_id\":\"52fe4250c3a36847f80149f3\",\"order\":0}],\"crew\":[]}}";

#[test]
fn malformed_vote_count_reports_its_exact_path() {
    let entries = vec![
        movie_entry(1, "One", "10"),
        movie_entry(2, "Two", "20"),
        movie_entry(3, "Three", "\"not a number\""),
    ];
    let r = decode_movie_list_response(&movie_list_body(&entries));
    match r {
        Err(ApiFetchError::Deserialization { path, kind }) => {
            assert_eq!(path, "results[2].vote_count");
            assert_eq!(kind, DecodeKind::ExpectedU64);
        },
        _ => panic!("expected a deserialization error"),
    }
}

#[test]
fn missing_required_field_reports_its_path() {
    let body = "{\"page\":1,\"results\":[],\"total_results\":0}";
    let r = decode_movie_list_response(body);
    match r {
        Err(ApiFetchError::Deserialization { path, kind }) => {
            assert_eq!(path, "total_pages");
            assert_eq!(kind, DecodeKind::Missing);
        },
        _ => panic!("expected a deserialization error"),
    }
}

#[test]
fn body_that_is_not_json_surfaces_as_a_request_error() {
    let r = decode_movie_list_response("<html>service unavailable</html>");
    match r {
        Err(ApiFetchError::Request { status }) => assert_eq!(status, None),
        _ => panic!("expected a request error"),
    }
}

#[test]
fn movie_list_entries_keep_upstream_order_and_defaults() {
    let entries = vec![movie_entry(1, "One", "10"), movie_entry(2, "Two", "20")];
    let list = decode_movie_list_response(&movie_list_body(&entries)).unwrap();
    assert_eq!(list.movies.len(), 2);
    assert_eq!(list.movies[0].title, "One");
    assert_eq!(list.movies[1].title, "Two");
    assert_eq!(list.movies[0].description, "an overview");
    assert_eq!(
        list.movies[0].poster,
        "https://image.tmdb.org/t/p/original/p.png"
    );
    assert!(!list.movies[0].is_liked);
    assert!(!list.movies[0].in_watchlist);
}

#[test]
fn absent_overview_defaults_to_fixed_sentinel() {
    let entry = movie_entry(1, "One", "10").replace("\"overview\":\"an overview\",", "");
    let list = decode_movie_list_response(&movie_list_body(&[entry].to_vec())).unwrap();
    assert_eq!(list.movies[0].description, "No overview provided");
}

#[test]
fn movie_details_end_to_end_with_credits() {
    let prepared = MovieDetailsRequest::new()
        .append_to_response("credits".to_string())
        .prepare(550);
    assert_eq!(prepared.path, "movie/550");
    let details = decode_movie_details_response(DETAILS_BODY).unwrap();
    assert_eq!(
        details.backdrop_url,
        "https://www.google.com/images/branding/googlelogo/1x/googlelogo_light_color_272x92dp.png"
    );
    assert_eq!(details.budget, 63000000);
    let credits = details.credits.expect("credits were requested and present");
    assert_eq!(credits.cast.len(), 1);
    assert_eq!(credits.crew.len(), 0);
    assert_eq!(credits.cast[0].name, Some("Edward Norton".to_string()));
    assert_eq!(
        credits.cast[0].icon_url,
        Some("https://image.tmdb.org/t/p/original/n.png".to_string())
    );
    assert_eq!(credits.cast[0].title, None);
    assert_eq!(credits.cast[0].poster_url, None);
}

#[test]
fn absent_credits_stay_absent() {
    let body = DETAILS_BODY.replace(
        ",\"credits\":{\"cast\":[{\"adult\":false,\"gender\":2,\"id\":819,\
\"known_for_department\":\"Acting\",\"name\":\"Edward Norton\",\
\"original_name\":\"Edward Norton\",\"popularity\":26.99,\
\"profile_path\":\"n.png\",\"cast_id\":4,\"character\":\"The Narrator\",\
\"credit_id\":\"52fe4250c3a36847f80149f3\",\"order\":0}],\"crew\":[]}",
        "",
    );
    let details = decode_movie_details_response(&body).unwrap();
    assert!(details.credits.is_none());
}

#[test]
fn null_credits_stay_absent() {
    let body = DETAILS_BODY.replace(
        ",\"credits\":{\"cast\":[{\"adult\":false,\"gender\":2,\"id\":819,\
\"known_for_department\":\"Acting\",\"name\":\"Edward Norton\",\
\"original_name\":\"Edward Norton\",\"popularity\":26.99,\
\"profile_path\":\"n.png\",\"cast_id\":4,\"character\":\"The Narrator\",\
\"credit_id\":\"52fe4250c3a36847f80149f3\",\"order\":0}],\"crew\":[]}",
        ",\"credits\":null",
    );
    let details = decode_movie_details_response(&body).unwrap();
    assert!(details.credits.is_none());
}

#[test]
fn decoding_the_same_body_twice_gives_identical_output() {
    let a = decode_movie_details_response(DETAILS_BODY).unwrap();
    let b = decode_movie_details_response(DETAILS_BODY).unwrap();
    assert_eq!(a, b);
    let entries = vec![movie_entry(1, "One", "10")];
    let body = movie_list_body(&entries);
    let la = decode_movie_list_response(&body).unwrap();
    let lb = decode_movie_list_response(&body).unwrap();
    assert_eq!(la, lb);
}

const PERSON_BODY: &str = "{\
\"adult\":false,\"also_known_as\":[\"E. Norton\"],\
\"biography\":\"An actor.\",\"birthday\":\"1969-08-18\",\"deathday\":null,\
\"gender\":2,\"homepage\":null,\"id\":819,\"imdb_id\":\"nm0001570\",\
\"known_for_department\":\"Acting\",\"name\":\"Edward Norton\",\
\"place_of_birth\":null,\"popularity\":26.99,\"profile_path\":\"n.png\",\
\"external_ids\":{\"imdb_id\":\"nm0001570\",\"twitter_id\":null,\
\"facebook_id\":\"edwardnorton\",\"instagram_id\":null,\"tiktok_id\":null}}";

#[test]
fn person_details_decode_with_socials() {
    let p = decode_person_details_response(PERSON_BODY).unwrap();
    assert_eq!(p.name, "Edward Norton");
    assert_eq!(p.birthday, Some(Date::new(1969, 8, 18)));
    assert_eq!(p.deathday, None);
    assert!(matches!(p.gender, Gender::Female));
    assert_eq!(p.place_of_birth, "N/A");
    assert!(p.credits.is_none());
    let socials = p.socials.expect("external identifiers were present");
    assert_eq!(socials.imdb, Some("nm0001570".to_string()));
    assert_eq!(socials.facebook, Some("edwardnorton".to_string()));
    assert_eq!(socials.twitter, None);
}

#[test]
fn person_details_invalid_gender_code_is_rejected() {
    let body = PERSON_BODY.replace("\"gender\":2", "\"gender\":7");
    match decode_person_details_response(&body) {
        Err(ApiFetchError::Deserialization { path, kind }) => {
            assert_eq!(path, "gender");
            assert_eq!(kind, DecodeKind::ExpectedGender);
        },
        _ => panic!("expected a deserialization error"),
    }
}

#[test]
fn person_details_malformed_birthday_is_rejected_at_its_path() {
    let body = PERSON_BODY.replace("\"birthday\":\"1969-08-18\"", "\"birthday\":\"August 18\"");
    match decode_person_details_response(&body) {
        Err(ApiFetchError::Deserialization { path, kind }) => {
            assert_eq!(path, "birthday");
            assert_eq!(kind, DecodeKind::ExpectedDate);
        },
        _ => panic!("expected a deserialization error"),
    }
}

#[test]
fn people_list_decode() {
    let body = "{\"page\":1,\"results\":[{\"adult\":false,\"gender\":1,\"id\":7,\
\"known_for_department\":null,\"name\":\"Someone\",\"original_name\":\"Someone\",\
\"media_type\":\"person\",\"popularity\":1.5,\"profile_path\":null}],\
\"total_pages\":1,\"total_results\":1}";
    let list = decode_people_list_response(body).unwrap();
    assert_eq!(list.people.len(), 1);
    assert_eq!(list.people[0].name, "Someone");
    assert_eq!(list.people[0].department, "N/A");
    assert_eq!(
        list.people[0].icon_url,
        "https://www.google.com/images/branding/googlelogo/1x/googlelogo_light_color_272x92dp.png"
    );
}

#[test]
fn date_parsing_accepts_dashed_triples_and_rejects_the_rest() {
    assert_eq!(parse_date("1999-10-15"), Some(Date::new(1999, 10, 15)));
    assert_eq!(parse_date("1-2-3"), Some(Date::new(1, 2, 3)));
    assert_eq!(parse_date("1999-10"), None);
    assert_eq!(parse_date("1999-10-15-2"), None);
    assert_eq!(parse_date("99999-1-1"), None);
    assert_eq!(parse_date("1999-13-x"), None);
    assert_eq!(parse_date(""), None);
}

#[test]
fn client_composes_urls_and_headers() {
    let client = TMDBClient::new("SECRET-REDACTED".to_string());
    assert_eq!(
        client.request_url("movie/550"),
        "https://api.themoviedb.org/3/movie/550"
    );
    assert_eq!(client.authorization_value(), "Bearer SECRET-REDACTED");
    assert_eq!(client.accept_value(), "application/json");
}

#[test]
fn person_credits_take_the_filmography_shape() {
    let body = PERSON_BODY.replace(
        ",\"external_ids\":",
        ",\"credits\":{\"cast\":[{\"adult\":false,\"backdrop_path\":null,\"id\":550,\
\"original_language\":\"en\",\"original_title\":\"Fight Club\",\"overview\":null,\
\"popularity\":61.4,\"poster_path\":\"p.png\",\"release_date\":\"1999-10-15\",\
\"title\":\"Fight Club\",\"video\":false,\"vote_average\":8.4,\"vote_count\":26280,\
\"genre_ids\":[18],\"character\":\"The Narrator\",\"credit_id\":\"c1\",\"order\":0}],\
\"crew\":[]},\"external_ids\":",
    );
    let p = decode_person_details_response(&body).unwrap();
    let credits = p.credits.expect("credits were present");
    assert_eq!(credits.cast.len(), 1);
    assert_eq!(credits.cast[0].name, None);
    assert_eq!(credits.cast[0].icon_url, None);
    assert_eq!(credits.cast[0].title, Some("Fight Club".to_string()));
    assert_eq!(
        credits.cast[0].poster_url,
        Some("https://image.tmdb.org/t/p/original/p.png".to_string())
    );
    assert_eq!(credits.cast[0].id, 550);
}

#[test]
fn empty_results_page_gives_empty_list() {
    let body = "{\"page\":1,\"results\":[],\"total_pages\":0,\"total_results\":0}";
    let list = decode_movie_list_response(body).unwrap();
    assert!(list.movies.is_empty());
}

#[test]
fn nested_genre_error_reports_its_full_path() {
    let body = DETAILS_BODY.replace(
        "\"genres\":[{\"id\":18,\"name\":\"Drama\"}]",
        "\"genres\":[{\"id\":18,\"name\":7}]",
    );
    match decode_movie_details_response(&body) {
        Err(ApiFetchError::Deserialization { path, kind }) => {
            assert_eq!(path, "genres[0].name");
            assert_eq!(kind, DecodeKind::ExpectedString);
        },
        _ => panic!("expected a deserialization error"),
    }
}

#[test]
fn ids_at_the_integer_boundary_survive_decoding() {
    let entry = movie_entry(u64::MAX, "Edge", "10");
    let list = decode_movie_list_response(&movie_list_body(&[entry].to_vec())).unwrap();
    assert_eq!(list.movies[0].id, u64::MAX);
}

#[test]
fn negative_id_is_rejected_as_unsigned() {
    let entry = movie_entry(1, "One", "10").replace("\"id\":1,", "\"id\":-1,");
    match decode_movie_list_response(&movie_list_body(&[entry].to_vec())) {
        Err(ApiFetchError::Deserialization { path, kind }) => {
            assert_eq!(path, "results[0].id");
            assert_eq!(kind, DecodeKind::ExpectedU64);
        },
        _ => panic!("expected a deserialization error"),
    }
}
