//! Statements of the properties the conversion layer promises, proved
//! over the same spec functions the conversions' contracts use.

use vstd::prelude::*;
use crate::frontend::{
    FrontendMovieDetails, FrontendMovieList, FrontendPeopleList, FrontendPersonDetails,
    spec_cast_from_movie, spec_cast_from_person, spec_crew_from_movie, spec_crew_from_person,
    spec_frontend_movie_details, spec_frontend_person_details, spec_movie_list, spec_people_list,
};
use crate::json::JsonValue;
use crate::decode::{spec_as_obj, spec_opt_field};
use crate::models_movie::{
    MovieCreditCastV, MovieCreditCrewV, MovieDetails, SearchMovie, spec_movie_details,
};
use crate::models_person::{PersonCreditCastV, PersonCreditCrewV, PersonDetails, SearchPerson};
use crate::models_common::PaginatedSearchResult;

verus! {

/// A credit of the movie-credit shape always maps to a frontend credit
/// with `name` and `icon_url` set and `title` and `poster_url` unset.
pub proof fn lemma_movie_shape_credit_fields(cast: MovieCreditCastV, crew: MovieCreditCrewV)
    ensures
        spec_cast_from_movie(cast).name is Some,
        spec_cast_from_movie(cast).icon_url is Some,
        spec_cast_from_movie(cast).title is None,
        spec_cast_from_movie(cast).poster_url is None,
        spec_crew_from_movie(crew).name is Some,
        spec_crew_from_movie(crew).icon_url is Some,
        spec_crew_from_movie(crew).title is None,
        spec_crew_from_movie(crew).poster_url is None,
{
}

/// A credit of the person-credit shape always maps to a frontend credit
/// with `title` and `poster_url` set and `name` and `icon_url` unset: the
/// inverse of the movie-credit shape.
pub proof fn lemma_person_shape_credit_fields(cast: PersonCreditCastV, crew: PersonCreditCrewV)
    ensures
        spec_cast_from_person(cast).name is None,
        spec_cast_from_person(cast).icon_url is None,
        spec_cast_from_person(cast).title is Some,
        spec_cast_from_person(cast).poster_url is Some,
        spec_crew_from_person(crew).name is None,
        spec_crew_from_person(crew).icon_url is None,
        spec_crew_from_person(crew).title is Some,
        spec_crew_from_person(crew).poster_url is Some,
{
}

/// A movie-details payload whose `credits` field is absent or null, and
/// which decodes successfully, yields a frontend record whose credits are
/// absent — never an empty-but-present credits object.
pub proof fn lemma_absent_credits_stay_absent(v: JsonValue)
    requires
        spec_as_obj(v) is Ok,
        spec_opt_field(spec_as_obj(v)->Ok_0, "credits"@) is None,
        spec_movie_details(v) is Ok,
    ensures
        spec_frontend_movie_details(spec_movie_details(v)->Ok_0).credits is None,
{
}

/// Converting one movie-details record twice gives frontend records that
/// agree on every field the serialized output is built from, so the
/// rendered JSON of the two conversions is identical.
pub proof fn lemma_movie_details_conversion_deterministic(
    m: MovieDetails,
    a: FrontendMovieDetails,
    b: FrontendMovieDetails,
)
    requires
        a.deep_view() == spec_frontend_movie_details(m.deep_view()),
        b.deep_view() == spec_frontend_movie_details(m.deep_view()),
    ensures
        a.deep_view() == b.deep_view(),
{
}

/// Converting one paginated movie listing twice gives frontend lists that
/// agree on every serialized field.
pub proof fn lemma_movie_list_conversion_deterministic(
    p: PaginatedSearchResult<SearchMovie>,
    a: FrontendMovieList,
    b: FrontendMovieList,
)
    requires
        a.deep_view() == spec_movie_list(p.deep_view()),
        b.deep_view() == spec_movie_list(p.deep_view()),
    ensures
        a.deep_view() == b.deep_view(),
{
}

/// Converting one person-details record twice gives frontend records
/// that agree on every serialized field.
pub proof fn lemma_person_details_conversion_deterministic(
    p: PersonDetails,
    a: FrontendPersonDetails,
    b: FrontendPersonDetails,
)
    requires
        a.deep_view() == spec_frontend_person_details(p.deep_view()),
        b.deep_view() == spec_frontend_person_details(p.deep_view()),
    ensures
        a.deep_view() == b.deep_view(),
{
}

/// Converting one paginated people listing twice gives frontend lists
/// that agree on every serialized field.
pub proof fn lemma_people_list_conversion_deterministic(
    p: PaginatedSearchResult<SearchPerson>,
    a: FrontendPeopleList,
    b: FrontendPeopleList,
)
    requires
        a.deep_view() == spec_people_list(p.deep_view()),
        b.deep_view() == spec_people_list(p.deep_view()),
    ensures
        a.deep_view() == b.deep_view(),
{
}

} // verus!
