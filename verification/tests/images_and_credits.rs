//! Image-URL resolution and the unification of the two credit shapes.

use cinescore::frontend::{FrontendCast, FrontendCrew, get_image_url};
use cinescore::models_common::Gender;
use cinescore::models_movie::{BaseMovie, MovieCreditCast, MovieCreditCrew};
use cinescore::models_person::{PersonCreditCast, PersonCreditCrew, SearchPerson};

fn sample_person(name: &str) -> SearchPerson {
    SearchPerson {
        adult: false,
        gender: Gender::Female,
        id: 287,
        known_for_department: Some("Acting".to_string()),
        name: name.to_string(),
        original_name: name.to_string(),
        media_type: None,
        popularity: "9.5".to_string(),
        profile_path: Some("face.png".to_string()),
    }
}

fn sample_movie(title: &str) -> BaseMovie {
    BaseMovie {
        adult: false,
        backdrop_path: None,
        id: 550,
        original_language: "en".to_string(),
        original_title: title.to_string(),
        overview: Some("a movie".to_string()),
        popularity: "61.4".to_string(),
        poster_path: Some("poster.png".to_string()),
        release_date: "1999-10-15".to_string(),
        title: title.to_string(),
        video: false,
        vote_average: "8.4".to_string(),
        vote_count: 26280,
    }
}

#[test]
fn image_url_present_path_is_appended_exactly() {
    let url = get_image_url(Some("abc.png".to_string()));
    assert_eq!(url, "https://image.tmdb.org/t/p/original/abc.png");
}

#[test]
fn image_url_missing_path_gives_placeholder() {
    let url = get_image_url(None);
    assert_eq!(
        url,
        "https://www.google.com/images/branding/googlelogo/1x/googlelogo_light_color_272x92dp.png"
    );
}

#[test]
fn movie_cast_credit_sets_name_and_icon_only() {
    let credit = MovieCreditCast {
        base: sample_person("Ada"),
        cast_id: 4,
        character: "Narrator".to_string(),
        credit_id: "52fe4250c3a36847f80149f3".to_string(),
        order: 0,
    };
    let fc = FrontendCast::from_movie_cast(&credit);
    assert_eq!(fc.name, Some("Ada".to_string()));
    assert_eq!(
        fc.icon_url,
        Some("https://image.tmdb.org/t/p/original/face.png".to_string())
    );
    assert_eq!(fc.title, None);
    assert_eq!(fc.poster_url, None);
    assert_eq!(fc.character, "Narrator");
    assert_eq!(fc.id, 287);
}

#[test]
fn movie_crew_credit_sets_name_and_icon_only() {
    let credit = MovieCreditCrew {
        base: sample_person("Grace"),
        credit_id: "x".to_string(),
        department: "Directing".to_string(),
        job: "Director".to_string(),
    };
    let fc = FrontendCrew::from_movie_crew(&credit);
    assert_eq!(fc.name, Some("Grace".to_string()));
    assert!(fc.icon_url.is_some());
    assert_eq!(fc.title, None);
    assert_eq!(fc.poster_url, None);
    assert_eq!(fc.department, "Acting");
    assert_eq!(fc.id, 287);
}

#[test]
fn person_cast_credit_sets_title_and_poster_only() {
    let credit = PersonCreditCast {
        base: sample_movie("Fight Club"),
        genre_ids: vec![18],
        character: "Narrator".to_string(),
        credit_id: "c".to_string(),
        order: 0,
    };
    let fc = FrontendCast::from_person_cast(&credit);
    assert_eq!(fc.name, None);
    assert_eq!(fc.icon_url, None);
    assert_eq!(fc.title, Some("Fight Club".to_string()));
    assert_eq!(
        fc.poster_url,
        Some("https://image.tmdb.org/t/p/original/poster.png".to_string())
    );
    assert_eq!(fc.id, 550);
}

#[test]
fn person_crew_credit_sets_title_and_poster_only() {
    let credit = PersonCreditCrew {
        base: sample_movie("Fight Club"),
        genre_ids: vec![18],
        credit_id: "c".to_string(),
        department: "Camera".to_string(),
        job: "Operator".to_string(),
    };
    let fc = FrontendCrew::from_person_crew(&credit);
    assert_eq!(fc.name, None);
    assert_eq!(fc.icon_url, None);
    assert_eq!(fc.title, Some("Fight Club".to_string()));
    assert!(fc.poster_url.is_some());
    assert_eq!(fc.department, "Camera");
    assert_eq!(fc.id, 550);
}

#[test]
fn missing_profile_picture_falls_back_to_placeholder_in_credit() {
    let mut person = sample_person("NoFace");
    person.profile_path = None;
    let credit = MovieCreditCast {
        base: person,
        cast_id: 1,
        character: "X".to_string(),
        credit_id: "y".to_string(),
        order: 1,
    };
    let fc = FrontendCast::from_movie_cast(&credit);
    assert_eq!(
        fc.icon_url,
        Some(
            "https://www.google.com/images/branding/googlelogo/1x/googlelogo_light_color_272x92dp.png"
                .to_string()
        )
    );
}
