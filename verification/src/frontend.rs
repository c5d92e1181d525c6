//! Frontend DTOs and the one-way conversions from the upstream response
//! models: image-URL resolution with a placeholder fallback, defaulting of
//! missing text, and unification of the two credit shapes.

use vstd::prelude::*;
use vstd::string::StringExecFns;
use crate::date::Date;
use crate::models_common::{Gender, Language, LanguageV, PaginatedSearchResult, Socials, SocialsV};
use crate::models_movie::{
    MovieCreditCast, MovieCreditCastV, MovieCreditCrew, MovieCreditCrewV, MovieCredits,
    MovieCreditsV, MovieDetails, MovieDetailsV, SearchMovie, SearchMovieV,
};
use crate::models_person::{
    PersonCreditCast, PersonCreditCastV, PersonCreditCrew, PersonCreditCrewV, PersonCredits,
    PersonCreditsV, PersonDetails, PersonDetailsV, SearchPerson, SearchPersonV,
};

verus! {

/// Base URL for image resources of the upstream provider.
pub open spec fn spec_image_base_url() -> Seq<char> {
    "https://image.tmdb.org/t/p/original/"@
}

/// The fixed placeholder URL used where an image path is missing.
pub open spec fn spec_placeholder_image() -> Seq<char> {
    "https://www.google.com/images/branding/googlelogo/1x/googlelogo_light_color_272x92dp.png"@
}

/// Image-URL resolution: a present path is appended to the base URL
/// unchanged; a missing path maps to the fixed placeholder.
pub open spec fn spec_image_url(path: Option<Seq<char>>) -> Seq<char> {
    match path {
        Some(p) => spec_image_base_url() + p,
        None => spec_placeholder_image(),
    }
}

/// Given an optional image path, either prepend the image base URL or
/// return the fixed placeholder URL.
pub fn get_image_url(path: Option<String>) -> (r: String)
    ensures
        r@ == spec_image_url(path.deep_view()),
{
    match path {
        Some(v) => {
            let mut s = "https://image.tmdb.org/t/p/original/".to_owned();
            s.append(v.as_str());
            s
        },
        None => "https://www.google.com/images/branding/googlelogo/1x/googlelogo_light_color_272x92dp.png".to_owned(),
    }
}

/// The text of an optional field, or the given default where it is absent.
pub open spec fn spec_text_or(o: Option<Seq<char>>, dflt: Seq<char>) -> Seq<char> {
    match o {
        Some(s) => s,
        None => dflt,
    }
}

/// Clones an optional string field.
fn clone_opt_str(o: &Option<String>) -> (r: Option<String>)
    ensures
        r.deep_view() == o.deep_view(),
{
    match o {
        Some(s) => Some(s.clone()),
        None => None,
    }
}

/// Takes an owned copy of an optional text field, or the default text.
fn text_or(o: &Option<String>, dflt: &str) -> (r: String)
    ensures
        r@ == spec_text_or(o.deep_view(), dflt@),
{
    match o {
        Some(s) => s.clone(),
        None => dflt.to_owned(),
    }
}

/// A cast entry as the frontend receives it. A credit originating in a
/// movie's credits has `name` and `icon_url` set and `title`/`poster_url`
/// unset; one originating in a person's filmography has the inverse.
#[derive(Debug, Clone, PartialEq, Eq)]
pub struct FrontendCast {
    /// Name of the cast member; set only for a movie-credit entry.
    pub name: Option<String>,
    /// URL of the cast member's profile picture; set only for a
    /// movie-credit entry.
    pub icon_url: Option<String>,
    /// The character played.
    pub character: String,
    /// URL of the movie's poster; set only for a filmography entry.
    pub poster_url: Option<String>,
    /// Title of the movie; set only for a filmography entry.
    pub title: Option<String>,
    /// Unique identifier of the person or of the movie, depending on the
    /// credit's origin.
    pub id: u64,
}

pub ghost struct FrontendCastV {
    pub name: Option<Seq<char>>,
    pub icon_url: Option<Seq<char>>,
    pub character: Seq<char>,
    pub poster_url: Option<Seq<char>>,
    pub title: Option<Seq<char>>,
    pub id: u64,
}

impl DeepView for FrontendCast {
    type V = FrontendCastV;

    open spec fn deep_view(&self) -> FrontendCastV {
        FrontendCastV {
            name: self.name.deep_view(),
            icon_url: self.icon_url.deep_view(),
            character: self.character@,
            poster_url: self.poster_url.deep_view(),
            title: self.title.deep_view(),
            id: self.id,
        }
    }
}

/// A crew entry as the frontend receives it; the same two-shape rule as
/// for cast entries applies.
#[derive(Debug, Clone, PartialEq, Eq)]
pub struct FrontendCrew {
    /// Name of the crew member; set only for a movie-credit entry.
    pub name: Option<String>,
    /// URL of the crew member's profile picture; set only for a
    /// movie-credit entry.
    pub icon_url: Option<String>,
    /// The department worked in.
    pub department: String,
    /// URL of the movie's poster; set only for a filmography entry.
    pub poster_url: Option<String>,
    /// Title of the movie; set only for a filmography entry.
    pub title: Option<String>,
    /// Unique identifier of the person or of the movie, depending on the
    /// credit's origin.
    pub id: u64,
}

pub ghost struct FrontendCrewV {
    pub name: Option<Seq<char>>,
    pub icon_url: Option<Seq<char>>,
    pub department: Seq<char>,
    pub poster_url: Option<Seq<char>>,
    pub title: Option<Seq<char>>,
    pub id: u64,
}

impl DeepView for FrontendCrew {
    type V = FrontendCrewV;

    open spec fn deep_view(&self) -> FrontendCrewV {
        FrontendCrewV {
            name: self.name.deep_view(),
            icon_url: self.icon_url.deep_view(),
            department: self.department@,
            poster_url: self.poster_url.deep_view(),
            title: self.title.deep_view(),
            id: self.id,
        }
    }
}

/// The frontend credit a movie-credits cast member maps to.
pub open spec fn spec_cast_from_movie(c: MovieCreditCastV) -> FrontendCastV {
    FrontendCastV {
        name: Some(c.base.name),
        icon_url: Some(spec_image_url(c.base.profile_path)),
        character: c.character,
        poster_url: None,
        title: None,
        id: c.base.id,
    }
}

/// The frontend credit a filmography cast entry maps to.
pub open spec fn spec_cast_from_person(c: PersonCreditCastV) -> FrontendCastV {
    FrontendCastV {
        name: None,
        icon_url: None,
        character: c.character,
        poster_url: Some(spec_image_url(c.base.poster_path)),
        title: Some(c.base.title),
        id: c.base.id,
    }
}

/// The frontend credit a movie-credits crew member maps to.
pub open spec fn spec_crew_from_movie(c: MovieCreditCrewV) -> FrontendCrewV {
    FrontendCrewV {
        name: Some(c.base.name),
        icon_url: Some(spec_image_url(c.base.profile_path)),
        department: spec_text_or(c.base.known_for_department, "N/A"@),
        poster_url: None,
        title: None,
        id: c.base.id,
    }
}

/// The frontend credit a filmography crew entry maps to.
pub open spec fn spec_crew_from_person(c: PersonCreditCrewV) -> FrontendCrewV {
    FrontendCrewV {
        name: None,
        icon_url: None,
        department: c.department,
        poster_url: Some(spec_image_url(c.base.poster_path)),
        title: Some(c.base.title),
        id: c.base.id,
    }
}

impl FrontendCast {
    /// Converts a cast member of a movie's credits; `name` and `icon_url`
    /// are populated, `title` and `poster_url` are left unset.
    pub fn from_movie_cast(c: &MovieCreditCast) -> (r: FrontendCast)
        ensures
            r.deep_view() == spec_cast_from_movie(c.deep_view()),
    {
        FrontendCast {
            name: Some(c.base.name.clone()),
            icon_url: Some(get_image_url(clone_opt_str(&c.base.profile_path))),
            character: c.character.clone(),
            poster_url: None,
            title: None,
            id: c.base.id,
        }
    }

    /// Converts a cast entry of a person's filmography; `title` and
    /// `poster_url` are populated, `name` and `icon_url` are left unset.
    pub fn from_person_cast(c: &PersonCreditCast) -> (r: FrontendCast)
        ensures
            r.deep_view() == spec_cast_from_person(c.deep_view()),
    {
        FrontendCast {
            name: None,
            icon_url: None,
            character: c.character.clone(),
            poster_url: Some(get_image_url(clone_opt_str(&c.base.poster_path))),
            title: Some(c.base.title.clone()),
            id: c.base.id,
        }
    }
}

impl FrontendCrew {
    /// Converts a crew member of a movie's credits; `name` and `icon_url`
    /// are populated, `title` and `poster_url` are left unset.
    pub fn from_movie_crew(c: &MovieCreditCrew) -> (r: FrontendCrew)
        ensures
            r.deep_view() == spec_crew_from_movie(c.deep_view()),
    {
        FrontendCrew {
            name: Some(c.base.name.clone()),
            icon_url: Some(get_image_url(clone_opt_str(&c.base.profile_path))),
            department: text_or(&c.base.known_for_department, "N/A"),
            poster_url: None,
            title: None,
            id: c.base.id,
        }
    }

    /// Converts a crew entry of a person's filmography; `title` and
    /// `poster_url` are populated, `name` and `icon_url` are left unset.
    pub fn from_person_crew(c: &PersonCreditCrew) -> (r: FrontendCrew)
        ensures
            r.deep_view() == spec_crew_from_person(c.deep_view()),
    {
        FrontendCrew {
            name: None,
            icon_url: None,
            department: c.department.clone(),
            poster_url: Some(get_image_url(clone_opt_str(&c.base.poster_path))),
            title: Some(c.base.title.clone()),
            id: c.base.id,
        }
    }
}

/// Credits as the frontend receives them: both upstream credit shapes
/// converge on this one type.
#[derive(Debug, Clone, PartialEq, Eq)]
pub struct FrontendCredits {
    /// List of cast entries.
    pub cast: Vec<FrontendCast>,
    /// List of crew entries.
    pub crew: Vec<FrontendCrew>,
}

pub ghost struct FrontendCreditsV {
    pub cast: Seq<FrontendCastV>,
    pub crew: Seq<FrontendCrewV>,
}

impl DeepView for FrontendCredits {
    type V = FrontendCreditsV;

    open spec fn deep_view(&self) -> FrontendCreditsV {
        FrontendCreditsV { cast: self.cast.deep_view(), crew: self.crew.deep_view() }
    }
}

/// The frontend credits a movie's credits map to.
pub open spec fn spec_credits_from_movie(c: MovieCreditsV) -> FrontendCreditsV {
    FrontendCreditsV {
        cast: c.cast.map_values(|x: MovieCreditCastV| spec_cast_from_movie(x)),
        crew: c.crew.map_values(|x: MovieCreditCrewV| spec_crew_from_movie(x)),
    }
}

/// The frontend credits a person's filmography maps to.
pub open spec fn spec_credits_from_person(c: PersonCreditsV) -> FrontendCreditsV {
    FrontendCreditsV {
        cast: c.cast.map_values(|x: PersonCreditCastV| spec_cast_from_person(x)),
        crew: c.crew.map_values(|x: PersonCreditCrewV| spec_crew_from_person(x)),
    }
}

impl FrontendCredits {
    /// Converts a movie's credits, entry by entry and in order.
    pub fn from_movie(c: &MovieCredits) -> (r: FrontendCredits)
        ensures
            r.deep_view() == spec_credits_from_movie(c.deep_view()),
    {
        let mut cast: Vec<FrontendCast> = Vec::new();
        let mut i: usize = 0;
        while i < c.cast.len()
            invariant
                i <= c.cast@.len(),
                cast.deep_view() =~= c.cast.deep_view().take(i as int).map_values(
                    |x: MovieCreditCastV| spec_cast_from_movie(x),
                ),
            decreases c.cast@.len() - i,
        {
            let ghost prev = cast.deep_view();
            let entry = FrontendCast::from_movie_cast(&c.cast[i]);
            cast.push(entry);
            proof {
                let fm = |x: MovieCreditCastV| spec_cast_from_movie(x);
                let cv = c.cast.deep_view();
                assert(cast.deep_view() =~= prev.push(entry.deep_view()));
                assert(cv[i as int] == c.cast[i as int].deep_view());
                assert(cv.take(i + 1).map_values(fm) =~= cv.take(i as int).map_values(fm).push(
                    fm(cv[i as int]),
                ));
                assert(cast.deep_view() =~= cv.take(i + 1).map_values(fm));
            }
            i += 1;
        }
        let mut crew: Vec<FrontendCrew> = Vec::new();
        let mut j: usize = 0;
        while j < c.crew.len()
            invariant
                j <= c.crew@.len(),
                crew.deep_view() =~= c.crew.deep_view().take(j as int).map_values(
                    |x: MovieCreditCrewV| spec_crew_from_movie(x),
                ),
            decreases c.crew@.len() - j,
        {
            let ghost prev = crew.deep_view();
            let entry = FrontendCrew::from_movie_crew(&c.crew[j]);
            crew.push(entry);
            proof {
                let fm = |x: MovieCreditCrewV| spec_crew_from_movie(x);
                let cv = c.crew.deep_view();
                assert(crew.deep_view() =~= prev.push(entry.deep_view()));
                assert(cv[j as int] == c.crew[j as int].deep_view());
                assert(cv.take(j + 1).map_values(fm) =~= cv.take(j as int).map_values(fm).push(
                    fm(cv[j as int]),
                ));
                assert(crew.deep_view() =~= cv.take(j + 1).map_values(fm));
            }
            j += 1;
        }
        proof {
            assert(c.cast.deep_view().take(c.cast@.len() as int) =~= c.cast.deep_view());
            assert(c.crew.deep_view().take(c.crew@.len() as int) =~= c.crew.deep_view());
        }
        FrontendCredits { cast, crew }
    }

    /// Converts a person's filmography, entry by entry and in order.
    pub fn from_person(c: &PersonCredits) -> (r: FrontendCredits)
        ensures
            r.deep_view() == spec_credits_from_person(c.deep_view()),
    {
        let mut cast: Vec<FrontendCast> = Vec::new();
        let mut i: usize = 0;
        while i < c.cast.len()
            invariant
                i <= c.cast@.len(),
                cast.deep_view() =~= c.cast.deep_view().take(i as int).map_values(
                    |x: PersonCreditCastV| spec_cast_from_person(x),
                ),
            decreases c.cast@.len() - i,
        {
            let ghost prev = cast.deep_view();
            let entry = FrontendCast::from_person_cast(&c.cast[i]);
            cast.push(entry);
            proof {
                let fm = |x: PersonCreditCastV| spec_cast_from_person(x);
                let cv = c.cast.deep_view();
                assert(cast.deep_view() =~= prev.push(entry.deep_view()));
                assert(cv[i as int] == c.cast[i as int].deep_view());
                assert(cv.take(i + 1).map_values(fm) =~= cv.take(i as int).map_values(fm).push(
                    fm(cv[i as int]),
                ));
                assert(cast.deep_view() =~= cv.take(i + 1).map_values(fm));
            }
            i += 1;
        }
        let mut crew: Vec<FrontendCrew> = Vec::new();
        let mut j: usize = 0;
        while j < c.crew.len()
            invariant
                j <= c.crew@.len(),
                crew.deep_view() =~= c.crew.deep_view().take(j as int).map_values(
                    |x: PersonCreditCrewV| spec_crew_from_person(x),
                ),
            decreases c.crew@.len() - j,
        {
            let ghost prev = crew.deep_view();
            let entry = FrontendCrew::from_person_crew(&c.crew[j]);
            crew.push(entry);
            proof {
                let fm = |x: PersonCreditCrewV| spec_crew_from_person(x);
                let cv = c.crew.deep_view();
                assert(crew.deep_view() =~= prev.push(entry.deep_view()));
                assert(cv[j as int] == c.crew[j as int].deep_view());
                assert(cv.take(j + 1).map_values(fm) =~= cv.take(j as int).map_values(fm).push(
                    fm(cv[j as int]),
                ));
                assert(crew.deep_view() =~= cv.take(j + 1).map_values(fm));
            }
            j += 1;
        }
        proof {
            assert(c.cast.deep_view().take(c.cast@.len() as int) =~= c.cast.deep_view());
            assert(c.crew.deep_view().take(c.crew@.len() as int) =~= c.crew.deep_view());
        }
        FrontendCredits { cast, crew }
    }
}

/// An individual movie entry of a frontend movie list.
#[derive(Debug, Clone, PartialEq, Eq)]
pub struct MovieListing {
    /// Unique identifier for the movie.
    pub id: u64,
    /// The title of the movie.
    pub title: String,
    /// URL to the movie's poster image.
    pub poster: String,
    /// A brief description or overview of the movie.
    pub description: String,
    /// Release date of the movie.
    pub release_date: String,
    /// Whether the user has liked the movie; not yet sourced from any
    /// upstream payload, always emitted as its fixed default.
    pub is_liked: bool,
    /// Whether the movie is in the user's watchlist; same fixed default.
    pub in_watchlist: bool,
}

pub ghost struct MovieListingV {
    pub id: u64,
    pub title: Seq<char>,
    pub poster: Seq<char>,
    pub description: Seq<char>,
    pub release_date: Seq<char>,
    pub is_liked: bool,
    pub in_watchlist: bool,
}

impl DeepView for MovieListing {
    type V = MovieListingV;

    open spec fn deep_view(&self) -> MovieListingV {
        MovieListingV {
            id: self.id,
            title: self.title@,
            poster: self.poster@,
            description: self.description@,
            release_date: self.release_date@,
            is_liked: self.is_liked,
            in_watchlist: self.in_watchlist,
        }
    }
}

/// The listing a search-result movie maps to.
pub open spec fn spec_movie_listing(m: SearchMovieV) -> MovieListingV {
    MovieListingV {
        id: m.base.id,
        title: m.base.title,
        poster: spec_image_url(m.base.poster_path),
        description: spec_text_or(m.base.overview, "No overview provided"@),
        release_date: m.base.release_date,
        is_liked: false,
        in_watchlist: false,
    }
}

impl MovieListing {
    /// Converts a search-result movie into a frontend listing entry.
    pub fn from(value: &SearchMovie) -> (r: MovieListing)
        ensures
            r.deep_view() == spec_movie_listing(value.deep_view()),
    {
        MovieListing {
            id: value.base.id,
            title: value.base.title.clone(),
            poster: get_image_url(clone_opt_str(&value.base.poster_path)),
            description: text_or(&value.base.overview, "No overview provided"),
            release_date: value.base.release_date.clone(),
            is_liked: false,
            in_watchlist: false,
        }
    }
}

/// A list of movies formatted for the frontend; the pagination metadata of
/// the upstream envelope is dropped.
#[derive(Debug, Clone, PartialEq, Eq)]
pub struct FrontendMovieList {
    /// The movies of the fetched page, in upstream order.
    pub movies: Vec<MovieListing>,
}

pub ghost struct FrontendMovieListV {
    pub movies: Seq<MovieListingV>,
}

impl DeepView for FrontendMovieList {
    type V = FrontendMovieListV;

    open spec fn deep_view(&self) -> FrontendMovieListV {
        FrontendMovieListV { movies: self.movies.deep_view() }
    }
}

/// The frontend list a paginated movie listing maps to.
pub open spec fn spec_movie_list(
    p: crate::models_common::PaginatedSearchResultV<SearchMovieV>,
) -> FrontendMovieListV {
    FrontendMovieListV { movies: p.results.map_values(|m: SearchMovieV| spec_movie_listing(m)) }
}

impl FrontendMovieList {
    /// Converts a paginated movie listing, entry by entry and in order.
    pub fn from(value: &PaginatedSearchResult<SearchMovie>) -> (r: FrontendMovieList)
        ensures
            r.deep_view() == spec_movie_list(value.deep_view()),
    {
        let mut movies: Vec<MovieListing> = Vec::new();
        let mut i: usize = 0;
        while i < value.results.len()
            invariant
                i <= value.results@.len(),
                movies.deep_view() =~= value.results.deep_view().take(i as int).map_values(
                    |m: SearchMovieV| spec_movie_listing(m),
                ),
            decreases value.results@.len() - i,
        {
            let ghost prev = movies.deep_view();
            let entry = MovieListing::from(&value.results[i]);
            movies.push(entry);
            proof {
                let fm = |m: SearchMovieV| spec_movie_listing(m);
                let cv = value.results.deep_view();
                assert(movies.deep_view() =~= prev.push(entry.deep_view()));
                assert(cv[i as int] == value.results[i as int].deep_view());
                assert(cv.take(i + 1).map_values(fm) =~= cv.take(i as int).map_values(fm).push(
                    fm(cv[i as int]),
                ));
                assert(movies.deep_view() =~= cv.take(i + 1).map_values(fm));
            }
            i += 1;
        }
        proof {
            assert(value.results.deep_view().take(value.results@.len() as int)
                =~= value.results.deep_view());
        }
        FrontendMovieList { movies }
    }
}

/// Detailed movie information formatted for the frontend.
#[derive(Debug, Clone, PartialEq, Eq)]
pub struct FrontendMovieDetails {
    /// URL to the movie's backdrop image.
    pub backdrop_url: String,
    /// The budget of the movie in dollars.
    pub budget: u64,
    /// Unique identifier for the movie.
    pub id: u64,
    /// The movie-database identifier of the movie, if available.
    pub imdb_id: Option<String>,
    /// The original language of the movie.
    pub original_language: String,
    /// A brief description or overview of the movie.
    pub overview: String,
    /// URL to the movie's poster image.
    pub poster_url: String,
    /// The title of the movie.
    pub title: String,
    /// The release date of the movie.
    pub release_date: String,
    /// The revenue of the movie in dollars.
    pub revenue: u64,
    /// The runtime of the movie in minutes.
    pub runtime: u64,
    /// Languages spoken in the movie.
    pub spoken_languages: Vec<Language>,
    /// The tagline of the movie.
    pub tagline: String,
    /// Credits, present exactly when the upstream record carried them.
    pub credits: Option<FrontendCredits>,
    /// Whether the user has liked the movie; not yet sourced from any
    /// upstream payload, always emitted as its fixed default.
    pub is_liked: bool,
    /// Whether the movie is in the user's watchlist; same fixed default.
    pub in_watchlist: bool,
}

pub ghost struct FrontendMovieDetailsV {
    pub backdrop_url: Seq<char>,
    pub budget: u64,
    pub id: u64,
    pub imdb_id: Option<Seq<char>>,
    pub original_language: Seq<char>,
    pub overview: Seq<char>,
    pub poster_url: Seq<char>,
    pub title: Seq<char>,
    pub release_date: Seq<char>,
    pub revenue: u64,
    pub runtime: u64,
    pub spoken_languages: Seq<LanguageV>,
    pub tagline: Seq<char>,
    pub credits: Option<FrontendCreditsV>,
    pub is_liked: bool,
    pub in_watchlist: bool,
}

impl DeepView for FrontendMovieDetails {
    type V = FrontendMovieDetailsV;

    open spec fn deep_view(&self) -> FrontendMovieDetailsV {
        FrontendMovieDetailsV {
            backdrop_url: self.backdrop_url@,
            budget: self.budget,
            id: self.id,
            imdb_id: self.imdb_id.deep_view(),
            original_language: self.original_language@,
            overview: self.overview@,
            poster_url: self.poster_url@,
            title: self.title@,
            release_date: self.release_date@,
            revenue: self.revenue,
            runtime: self.runtime,
            spoken_languages: self.spoken_languages.deep_view(),
            tagline: self.tagline@,
            credits: match self.credits {
                Some(c) => Some(c.deep_view()),
                None => None,
            },
            is_liked: self.is_liked,
            in_watchlist: self.in_watchlist,
        }
    }
}

/// The frontend details a movie-details record maps to; embedded credits
/// are carried over exactly when present.
pub open spec fn spec_frontend_movie_details(m: MovieDetailsV) -> FrontendMovieDetailsV {
    FrontendMovieDetailsV {
        backdrop_url: spec_image_url(m.base.backdrop_path),
        budget: m.budget,
        id: m.base.id,
        imdb_id: m.imdb_id,
        original_language: m.base.original_language,
        overview: spec_text_or(m.base.overview, "N/A"@),
        poster_url: spec_image_url(m.base.poster_path),
        title: m.base.title,
        release_date: m.base.release_date,
        revenue: m.revenue,
        runtime: m.runtime,
        spoken_languages: m.spoken_languages,
        tagline: m.tagline,
        credits: match m.credits {
            Some(c) => Some(spec_credits_from_movie(c)),
            None => None,
        },
        is_liked: false,
        in_watchlist: false,
    }
}

/// Clones the spoken-languages list.
fn clone_languages(v: &Vec<Language>) -> (r: Vec<Language>)
    ensures
        r.deep_view() == v.deep_view(),
{
    let mut out: Vec<Language> = Vec::new();
    let mut i: usize = 0;
    while i < v.len()
        invariant
            i <= v@.len(),
            out.deep_view() =~= v.deep_view().take(i as int),
        decreases v@.len() - i,
    {
        let ghost prev = out.deep_view();
        let item = Language {
            english_name: v[i].english_name.clone(),
            iso_639_1: v[i].iso_639_1.clone(),
            name: v[i].name.clone(),
        };
        out.push(item);
        proof {
            let cv = v.deep_view();
            assert(out.deep_view() =~= prev.push(item.deep_view()));
            assert(cv[i as int] == v[i as int].deep_view());
            assert(cv.take(i + 1) =~= cv.take(i as int).push(cv[i as int]));
        }
        i += 1;
    }
    proof {
        assert(v.deep_view().take(v@.len() as int) =~= v.deep_view());
    }
    out
}

impl FrontendMovieDetails {
    /// Converts a movie-details record into its frontend shape. An absent
    /// embedded credits record stays absent: it does not become an empty
    /// credits object.
    pub fn from(value: &MovieDetails) -> (r: FrontendMovieDetails)
        ensures
            r.deep_view() == spec_frontend_movie_details(value.deep_view()),
    {
        FrontendMovieDetails {
            backdrop_url: get_image_url(clone_opt_str(&value.base.backdrop_path)),
            budget: value.budget,
            id: value.base.id,
            imdb_id: clone_opt_str(&value.imdb_id),
            original_language: value.base.original_language.clone(),
            overview: text_or(&value.base.overview, "N/A"),
            poster_url: get_image_url(clone_opt_str(&value.base.poster_path)),
            title: value.base.title.clone(),
            release_date: value.base.release_date.clone(),
            revenue: value.revenue,
            runtime: value.runtime,
            spoken_languages: clone_languages(&value.spoken_languages),
            tagline: value.tagline.clone(),
            credits: match &value.credits {
                Some(c) => Some(FrontendCredits::from_movie(c)),
                None => None,
            },
            is_liked: false,
            in_watchlist: false,
        }
    }
}

/// A person's external social-media identifiers for the frontend.
#[derive(Debug, Clone, PartialEq, Eq)]
pub struct FrontendSocials {
    pub imdb: Option<String>,
    pub facebook: Option<String>,
    pub instagram: Option<String>,
    pub tiktok: Option<String>,
    pub twitter: Option<String>,
}

pub ghost struct FrontendSocialsV {
    pub imdb: Option<Seq<char>>,
    pub facebook: Option<Seq<char>>,
    pub instagram: Option<Seq<char>>,
    pub tiktok: Option<Seq<char>>,
    pub twitter: Option<Seq<char>>,
}

impl DeepView for FrontendSocials {
    type V = FrontendSocialsV;

    open spec fn deep_view(&self) -> FrontendSocialsV {
        FrontendSocialsV {
            imdb: self.imdb.deep_view(),
            facebook: self.facebook.deep_view(),
            instagram: self.instagram.deep_view(),
            tiktok: self.tiktok.deep_view(),
            twitter: self.twitter.deep_view(),
        }
    }
}

/// The frontend socials an external-identifier record maps to.
pub open spec fn spec_frontend_socials(s: SocialsV) -> FrontendSocialsV {
    FrontendSocialsV {
        imdb: s.imdb_id,
        facebook: s.facebook_id,
        instagram: s.instagram_id,
        tiktok: s.tiktok_id,
        twitter: s.twitter_id,
    }
}

impl FrontendSocials {
    /// Converts an external-identifier record, keeping the identifiers the
    /// frontend shows.
    pub fn from(value: &Socials) -> (r: FrontendSocials)
        ensures
            r.deep_view() == spec_frontend_socials(value.deep_view()),
    {
        FrontendSocials {
            imdb: clone_opt_str(&value.imdb_id),
            facebook: clone_opt_str(&value.facebook_id),
            instagram: clone_opt_str(&value.instagram_id),
            tiktok: clone_opt_str(&value.tiktok_id),
            twitter: clone_opt_str(&value.twitter_id),
        }
    }
}

/// A brief person entry of a frontend people list.
#[derive(Debug, Clone, PartialEq, Eq)]
pub struct FrontendPersonListing {
    /// Unique identifier for the person.
    pub id: u64,
    /// The person's full name.
    pub name: String,
    /// The person's gender.
    pub gender: Gender,
    /// The department the person is known for.
    pub department: String,
    /// URL to the person's profile image.
    pub icon_url: String,
}

pub ghost struct FrontendPersonListingV {
    pub id: u64,
    pub name: Seq<char>,
    pub gender: Gender,
    pub department: Seq<char>,
    pub icon_url: Seq<char>,
}

impl DeepView for FrontendPersonListing {
    type V = FrontendPersonListingV;

    open spec fn deep_view(&self) -> FrontendPersonListingV {
        FrontendPersonListingV {
            id: self.id,
            name: self.name@,
            gender: self.gender,
            department: self.department@,
            icon_url: self.icon_url@,
        }
    }
}

/// The listing a search-result person maps to.
pub open spec fn spec_person_listing(p: SearchPersonV) -> FrontendPersonListingV {
    FrontendPersonListingV {
        id: p.id,
        name: p.name,
        gender: p.gender,
        department: spec_text_or(p.known_for_department, "N/A"@),
        icon_url: spec_image_url(p.profile_path),
    }
}

impl FrontendPersonListing {
    /// Converts a search-result person into a frontend listing entry.
    pub fn from(value: &SearchPerson) -> (r: FrontendPersonListing)
        ensures
            r.deep_view() == spec_person_listing(value.deep_view()),
    {
        FrontendPersonListing {
            id: value.id,
            name: value.name.clone(),
            gender: value.gender,
            department: text_or(&value.known_for_department, "N/A"),
            icon_url: get_image_url(clone_opt_str(&value.profile_path)),
        }
    }
}

/// A list of people formatted for the frontend; the pagination metadata of
/// the upstream envelope is dropped.
#[derive(Debug, Clone, PartialEq, Eq)]
pub struct FrontendPeopleList {
    /// The people of the fetched page, in upstream order.
    pub people: Vec<FrontendPersonListing>,
}

pub ghost struct FrontendPeopleListV {
    pub people: Seq<FrontendPersonListingV>,
}

impl DeepView for FrontendPeopleList {
    type V = FrontendPeopleListV;

    open spec fn deep_view(&self) -> FrontendPeopleListV {
        FrontendPeopleListV { people: self.people.deep_view() }
    }
}

/// The frontend list a paginated people listing maps to.
pub open spec fn spec_people_list(
    p: crate::models_common::PaginatedSearchResultV<SearchPersonV>,
) -> FrontendPeopleListV {
    FrontendPeopleListV { people: p.results.map_values(|m: SearchPersonV| spec_person_listing(m)) }
}

impl FrontendPeopleList {
    /// Converts a paginated people listing, entry by entry and in order.
    pub fn from(value: &PaginatedSearchResult<SearchPerson>) -> (r: FrontendPeopleList)
        ensures
            r.deep_view() == spec_people_list(value.deep_view()),
    {
        let mut people: Vec<FrontendPersonListing> = Vec::new();
        let mut i: usize = 0;
        while i < value.results.len()
            invariant
                i <= value.results@.len(),
                people.deep_view() =~= value.results.deep_view().take(i as int).map_values(
                    |m: SearchPersonV| spec_person_listing(m),
                ),
            decreases value.results@.len() - i,
        {
            let ghost prev = people.deep_view();
            let entry = FrontendPersonListing::from(&value.results[i]);
            people.push(entry);
            proof {
                let fm = |m: SearchPersonV| spec_person_listing(m);
                let cv = value.results.deep_view();
                assert(people.deep_view() =~= prev.push(entry.deep_view()));
                assert(cv[i as int] == value.results[i as int].deep_view());
                assert(cv.take(i + 1).map_values(fm) =~= cv.take(i as int).map_values(fm).push(
                    fm(cv[i as int]),
                ));
                assert(people.deep_view() =~= cv.take(i + 1).map_values(fm));
            }
            i += 1;
        }
        proof {
            assert(value.results.deep_view().take(value.results@.len() as int)
                =~= value.results.deep_view());
        }
        FrontendPeopleList { people }
    }
}

/// Detailed information about a person, formatted for the frontend.
#[derive(Debug, Clone, PartialEq, Eq)]
pub struct FrontendPersonDetails {
    /// A biographical description of the person.
    pub biography: String,
    /// The person's date of birth, if known.
    pub birthday: Option<Date>,
    /// The person's date of death, if applicable.
    pub deathday: Option<Date>,
    /// The person's gender.
    pub gender: Gender,
    /// Unique identifier for the person.
    pub id: u64,
    /// The department the person is known for.
    pub known_for_department: String,
    /// The person's full name.
    pub name: String,
    /// The location where the person was born.
    pub place_of_birth: String,
    /// URL to the person's profile image.
    pub icon_url: String,
    /// The person's movie credits, when requested.
    pub credits: Option<FrontendCredits>,
    /// The person's social-media identifiers, when requested.
    pub socials: Option<FrontendSocials>,
}

pub ghost struct FrontendPersonDetailsV {
    pub biography: Seq<char>,
    pub birthday: Option<Date>,
    pub deathday: Option<Date>,
    pub gender: Gender,
    pub id: u64,
    pub known_for_department: Seq<char>,
    pub name: Seq<char>,
    pub place_of_birth: Seq<char>,
    pub icon_url: Seq<char>,
    pub credits: Option<FrontendCreditsV>,
    pub socials: Option<FrontendSocialsV>,
}

impl DeepView for FrontendPersonDetails {
    type V = FrontendPersonDetailsV;

    open spec fn deep_view(&self) -> FrontendPersonDetailsV {
        FrontendPersonDetailsV {
            biography: self.biography@,
            birthday: self.birthday.deep_view(),
            deathday: self.deathday.deep_view(),
            gender: self.gender,
            id: self.id,
            known_for_department: self.known_for_department@,
            name: self.name@,
            place_of_birth: self.place_of_birth@,
            icon_url: self.icon_url@,
            credits: match self.credits {
                Some(c) => Some(c.deep_view()),
                None => None,
            },
            socials: match self.socials {
                Some(s) => Some(s.deep_view()),
                None => None,
            },
        }
    }
}

/// The frontend details a person-details record maps to; embedded credits
/// and socials are carried over exactly when present.
pub open spec fn spec_frontend_person_details(p: PersonDetailsV) -> FrontendPersonDetailsV {
    FrontendPersonDetailsV {
        biography: p.biography,
        birthday: p.birthday,
        deathday: p.deathday,
        gender: p.gender,
        id: p.id,
        known_for_department: p.known_for_department,
        name: p.name,
        place_of_birth: spec_text_or(p.place_of_birth, "N/A"@),
        icon_url: spec_image_url(p.profile_path),
        credits: match p.credits {
            Some(c) => Some(spec_credits_from_person(c)),
            None => None,
        },
        socials: match p.external_ids {
            Some(s) => Some(spec_frontend_socials(s)),
            None => None,
        },
    }
}

impl FrontendPersonDetails {
    /// Converts a person-details record into its frontend shape.
    pub fn from(value: &PersonDetails) -> (r: FrontendPersonDetails)
        ensures
            r.deep_view() == spec_frontend_person_details(value.deep_view()),
    {
        FrontendPersonDetails {
            biography: value.biography.clone(),
            birthday: value.birthday,
            deathday: value.deathday,
            gender: value.gender,
            id: value.id,
            known_for_department: value.known_for_department.clone(),
            name: value.name.clone(),
            place_of_birth: text_or(&value.place_of_birth, "N/A"),
            icon_url: get_image_url(clone_opt_str(&value.profile_path)),
            credits: match &value.credits {
                Some(c) => Some(FrontendCredits::from_person(c)),
                None => None,
            },
            socials: match &value.external_ids {
                Some(s) => Some(FrontendSocials::from(s)),
                None => None,
            },
        }
    }
}

} // verus!
