//! Movie-side response models and their decoders: the shared movie core,
//! search entries, detail records and embedded credits.

use vstd::prelude::*;
use crate::json::{
    DecodeError, DecodeKind, JsonValue, SpecDecodeErr, err_at, err_at_index, err_here,
    spec_err_at, spec_err_here,
};
use crate::decode::{
    as_obj, decode_gives, lemma_list_first_err, lemma_list_snoc, opt_str, req_arr, req_bool,
    req_num_text, req_str, req_u64, spec_as_obj, spec_list, spec_opt_field, spec_opt_str,
    spec_req_arr, spec_req_bool, spec_req_num_text, spec_req_str, spec_req_u64, opt_field,
};
use crate::models_common::{
    Genre, GenreV, Language, LanguageV, ProductionCompany, ProductionCompanyV, ProductionCountry,
    ProductionCountryV, PaginatedSearchResult, PaginatedSearchResultV, decode_genre_list,
    decode_language_list, decode_production_company_list, decode_production_country_list,
    spec_genre_list, spec_language_list, spec_production_company_list,
    spec_production_country_list,
};

verus! {

/// A collection of movies that a movie belongs to.
#[derive(Debug, Clone, PartialEq, Eq)]
pub struct Collection {
    /// The collection ID.
    pub id: u64,
    /// The collection name.
    pub name: String,
    /// The collection's poster image path.
    pub poster_path: String,
    /// The collection's backdrop image path.
    pub backdrop_path: String,
}

pub ghost struct CollectionV {
    pub id: u64,
    pub name: Seq<char>,
    pub poster_path: Seq<char>,
    pub backdrop_path: Seq<char>,
}

impl DeepView for Collection {
    type V = CollectionV;

    open spec fn deep_view(&self) -> CollectionV {
        CollectionV {
            id: self.id,
            name: self.name@,
            poster_path: self.poster_path@,
            backdrop_path: self.backdrop_path@,
        }
    }
}

pub open spec fn spec_collection(v: JsonValue) -> Result<CollectionV, SpecDecodeErr> {
    match spec_as_obj(v) {
        Err(e) => Err(e),
        Ok(fs) => {
            let id = spec_req_u64(fs, "id"@);
            let name = spec_req_str(fs, "name"@);
            let poster_path = spec_req_str(fs, "poster_path"@);
            let backdrop_path = spec_req_str(fs, "backdrop_path"@);
            if id is Err {
                Err(id->Err_0)
            } else if name is Err {
                Err(name->Err_0)
            } else if poster_path is Err {
                Err(poster_path->Err_0)
            } else if backdrop_path is Err {
                Err(backdrop_path->Err_0)
            } else {
                Ok(
                    CollectionV {
                        id: id->Ok_0,
                        name: name->Ok_0,
                        poster_path: poster_path->Ok_0,
                        backdrop_path: backdrop_path->Ok_0,
                    },
                )
            }
        },
    }
}

/// Decodes a collection object.
pub fn decode_collection(v: &JsonValue) -> (r: Result<Collection, DecodeError>)
    ensures
        decode_gives(r, spec_collection(*v)),
{
    let fields = match as_obj(v) {
        Ok(f) => f,
        Err(e) => {
            return Err(e);
        },
    };
    let id = match req_u64(fields, "id") {
        Ok(x) => x,
        Err(e) => {
            return Err(e);
        },
    };
    let name = match req_str(fields, "name") {
        Ok(x) => x,
        Err(e) => {
            return Err(e);
        },
    };
    let poster_path = match req_str(fields, "poster_path") {
        Ok(x) => x,
        Err(e) => {
            return Err(e);
        },
    };
    let backdrop_path = match req_str(fields, "backdrop_path") {
        Ok(x) => x,
        Err(e) => {
            return Err(e);
        },
    };
    Ok(Collection { id, name, poster_path, backdrop_path })
}

/// One element of a `genre_ids` array.
pub open spec fn spec_u64_elem(v: JsonValue) -> Result<u64, SpecDecodeErr> {
    match v {
        JsonValue::Num(n) => match n.as_u64 {
            Some(u) => Ok(u),
            None => Err(spec_err_here(DecodeKind::ExpectedU64)),
        },
        _ => Err(spec_err_here(DecodeKind::ExpectedU64)),
    }
}

pub open spec fn spec_u64_list(elems: Seq<JsonValue>) -> Result<Seq<u64>, SpecDecodeErr> {
    spec_list(elems, |v: JsonValue| spec_u64_elem(v))
}

/// Decodes an array of non-negative integers.
pub fn decode_u64_list(elems: &Vec<JsonValue>) -> (r: Result<Vec<u64>, DecodeError>)
    ensures
        decode_gives(r, spec_u64_list(elems@)),
{
    let ghost f = |v: JsonValue| spec_u64_elem(v);
    let mut out: Vec<u64> = Vec::new();
    let n = elems.len();
    let mut i: usize = 0;
    proof {
        assert(elems@.take(0) =~= Seq::<JsonValue>::empty());
        assert(out.deep_view() =~= Seq::<u64>::empty());
    }
    while i < n
        invariant
            n == elems@.len(),
            i <= n,
            f == (|v: JsonValue| spec_u64_elem(v)),
            spec_list(elems@.take(i as int), f) == Ok::<Seq<u64>, SpecDecodeErr>(out.deep_view()),
        decreases n - i,
    {
        let u = match &elems[i] {
            JsonValue::Num(nn) => match nn.as_u64 {
                Some(u) => Some(u),
                None => None,
            },
            _ => None,
        };
        match u {
            Some(u) => {
                let ghost prev = out.deep_view();
                out.push(u);
                proof {
                    lemma_list_snoc(elems@, f, i as int);
                    assert(out.deep_view() =~= prev.push(u));
                }
            },
            None => {
                proof {
                    lemma_list_first_err(elems@, f, i as int);
                }
                return Err(err_at_index(i as u64, err_here(DecodeKind::ExpectedU64)));
            },
        }
        i += 1;
    }
    proof {
        assert(elems@.take(n as int) =~= elems@);
    }
    Ok(out)
}

/// The movie core shared by search entries, detail records and a person's
/// filmography credits; the upstream provider writes these fields at the
/// same level as the surrounding record.
#[derive(Debug, Clone, PartialEq, Eq)]
pub struct BaseMovie {
    /// Indicates whether the movie is for adults.
    pub adult: bool,
    /// Path to the movie's backdrop image.
    pub backdrop_path: Option<String>,
    /// Unique identifier for the movie.
    pub id: u64,
    /// Original language of the movie.
    pub original_language: String,
    /// Original title of the movie.
    pub original_title: String,
    /// Brief overview of the movie.
    pub overview: Option<String>,
    /// Popularity score, kept as the number's decimal text.
    pub popularity: String,
    /// Path to the movie's poster image.
    pub poster_path: Option<String>,
    /// Release date of the movie.
    pub release_date: String,
    /// Title of the movie.
    pub title: String,
    /// Indicates whether the movie has videos.
    pub video: bool,
    /// Average vote score, kept as the number's decimal text.
    pub vote_average: String,
    /// Total number of votes received.
    pub vote_count: u64,
}

pub ghost struct BaseMovieV {
    pub adult: bool,
    pub backdrop_path: Option<Seq<char>>,
    pub id: u64,
    pub original_language: Seq<char>,
    pub original_title: Seq<char>,
    pub overview: Option<Seq<char>>,
    pub popularity: Seq<char>,
    pub poster_path: Option<Seq<char>>,
    pub release_date: Seq<char>,
    pub title: Seq<char>,
    pub video: bool,
    pub vote_average: Seq<char>,
    pub vote_count: u64,
}

impl DeepView for BaseMovie {
    type V = BaseMovieV;

    open spec fn deep_view(&self) -> BaseMovieV {
        BaseMovieV {
            adult: self.adult,
            backdrop_path: self.backdrop_path.deep_view(),
            id: self.id,
            original_language: self.original_language@,
            original_title: self.original_title@,
            overview: self.overview.deep_view(),
            popularity: self.popularity@,
            poster_path: self.poster_path.deep_view(),
            release_date: self.release_date@,
            title: self.title@,
            video: self.video,
            vote_average: self.vote_average@,
            vote_count: self.vote_count,
        }
    }
}

/// The movie core, decoded from the surrounding record's own field list.
pub open spec fn spec_base_movie_fields(fs: Seq<(String, JsonValue)>) -> Result<
    BaseMovieV,
    SpecDecodeErr,
> {
    let adult = spec_req_bool(fs, "adult"@);
    let backdrop_path = spec_opt_str(fs, "backdrop_path"@);
    let id = spec_req_u64(fs, "id"@);
    let original_language = spec_req_str(fs, "original_language"@);
    let original_title = spec_req_str(fs, "original_title"@);
    let overview = spec_opt_str(fs, "overview"@);
    let popularity = spec_req_num_text(fs, "popularity"@);
    let poster_path = spec_opt_str(fs, "poster_path"@);
    let release_date = spec_req_str(fs, "release_date"@);
    let title = spec_req_str(fs, "title"@);
    let video = spec_req_bool(fs, "video"@);
    let vote_average = spec_req_num_text(fs, "vote_average"@);
    let vote_count = spec_req_u64(fs, "vote_count"@);
    if adult is Err {
        Err(adult->Err_0)
    } else if backdrop_path is Err {
        Err(backdrop_path->Err_0)
    } else if id is Err {
        Err(id->Err_0)
    } else if original_language is Err {
        Err(original_language->Err_0)
    } else if original_title is Err {
        Err(original_title->Err_0)
    } else if overview is Err {
        Err(overview->Err_0)
    } else if popularity is Err {
        Err(popularity->Err_0)
    } else if poster_path is Err {
        Err(poster_path->Err_0)
    } else if release_date is Err {
        Err(release_date->Err_0)
    } else if title is Err {
        Err(title->Err_0)
    } else if video is Err {
        Err(video->Err_0)
    } else if vote_average is Err {
        Err(vote_average->Err_0)
    } else if vote_count is Err {
        Err(vote_count->Err_0)
    } else {
        Ok(
            BaseMovieV {
                adult: adult->Ok_0,
                backdrop_path: backdrop_path->Ok_0,
                id: id->Ok_0,
                original_language: original_language->Ok_0,
                original_title: original_title->Ok_0,
                overview: overview->Ok_0,
                popularity: popularity->Ok_0,
                poster_path: poster_path->Ok_0,
                release_date: release_date->Ok_0,
                title: title->Ok_0,
                video: video->Ok_0,
                vote_average: vote_average->Ok_0,
                vote_count: vote_count->Ok_0,
            },
        )
    }
}

/// Decodes the movie core from a record's field list.
pub fn decode_base_movie_fields(fields: &Vec<(String, JsonValue)>) -> (r: Result<
    BaseMovie,
    DecodeError,
>)
    ensures
        decode_gives(r, spec_base_movie_fields(fields@)),
{
    let adult = match req_bool(fields, "adult") {
        Ok(x) => x,
        Err(e) => {
            return Err(e);
        },
    };
    let backdrop_path = match opt_str(fields, "backdrop_path") {
        Ok(x) => x,
        Err(e) => {
            return Err(e);
        },
    };
    let id = match req_u64(fields, "id") {
        Ok(x) => x,
        Err(e) => {
            return Err(e);
        },
    };
    let original_language = match req_str(fields, "original_language") {
        Ok(x) => x,
        Err(e) => {
            return Err(e);
        },
    };
    let original_title = match req_str(fields, "original_title") {
        Ok(x) => x,
        Err(e) => {
            return Err(e);
        },
    };
    let overview = match opt_str(fields, "overview") {
        Ok(x) => x,
        Err(e) => {
            return Err(e);
        },
    };
    let popularity = match req_num_text(fields, "popularity") {
        Ok(x) => x,
        Err(e) => {
            return Err(e);
        },
    };
    let poster_path = match opt_str(fields, "poster_path") {
        Ok(x) => x,
        Err(e) => {
            return Err(e);
        },
    };
    let release_date = match req_str(fields, "release_date") {
        Ok(x) => x,
        Err(e) => {
            return Err(e);
        },
    };
    let title = match req_str(fields, "title") {
        Ok(x) => x,
        Err(e) => {
            return Err(e);
        },
    };
    let video = match req_bool(fields, "video") {
        Ok(x) => x,
        Err(e) => {
            return Err(e);
        },
    };
    let vote_average = match req_num_text(fields, "vote_average") {
        Ok(x) => x,
        Err(e) => {
            return Err(e);
        },
    };
    let vote_count = match req_u64(fields, "vote_count") {
        Ok(x) => x,
        Err(e) => {
            return Err(e);
        },
    };
    Ok(
        BaseMovie {
            adult,
            backdrop_path,
            id,
            original_language,
            original_title,
            overview,
            popularity,
            poster_path,
            release_date,
            title,
            video,
            vote_average,
            vote_count,
        },
    )
}

/// A movie as it appears in search and listing results.
#[derive(Debug, Clone, PartialEq, Eq)]
pub struct SearchMovie {
    /// The movie core.
    pub base: BaseMovie,
    /// List of genre IDs associated with the movie.
    pub genre_ids: Vec<u64>,
}

pub ghost struct SearchMovieV {
    pub base: BaseMovieV,
    pub genre_ids: Seq<u64>,
}

impl DeepView for SearchMovie {
    type V = SearchMovieV;

    open spec fn deep_view(&self) -> SearchMovieV {
        SearchMovieV { base: self.base.deep_view(), genre_ids: self.genre_ids.deep_view() }
    }
}

pub open spec fn spec_search_movie(v: JsonValue) -> Result<SearchMovieV, SpecDecodeErr> {
    match spec_as_obj(v) {
        Err(e) => Err(e),
        Ok(fs) => {
            let base = spec_base_movie_fields(fs);
            let genre_ids = spec_req_arr(fs, "genre_ids"@);
            if base is Err {
                Err(base->Err_0)
            } else if genre_ids is Err {
                Err(genre_ids->Err_0)
            } else {
                match spec_u64_list(genre_ids->Ok_0) {
                    Err(e) => Err(spec_err_at("genre_ids"@, e)),
                    Ok(ids) => Ok(SearchMovieV { base: base->Ok_0, genre_ids: ids }),
                }
            }
        },
    }
}

/// Decodes a search-result movie.
pub fn decode_search_movie(v: &JsonValue) -> (r: Result<SearchMovie, DecodeError>)
    ensures
        decode_gives(r, spec_search_movie(*v)),
{
    let fields = match as_obj(v) {
        Ok(f) => f,
        Err(e) => {
            return Err(e);
        },
    };
    let base = match decode_base_movie_fields(fields) {
        Ok(x) => x,
        Err(e) => {
            return Err(e);
        },
    };
    let arr = match req_arr(fields, "genre_ids") {
        Ok(x) => x,
        Err(e) => {
            return Err(e);
        },
    };
    let genre_ids = match decode_u64_list(arr) {
        Ok(x) => x,
        Err(e) => {
            return Err(err_at("genre_ids", e));
        },
    };
    Ok(SearchMovie { base, genre_ids })
}

pub open spec fn spec_search_movie_list(elems: Seq<JsonValue>) -> Result<
    Seq<SearchMovieV>,
    SpecDecodeErr,
> {
    spec_list(elems, |v: JsonValue| spec_search_movie(v))
}

/// Decodes the `results` array of a movie listing.
pub fn decode_search_movie_list(elems: &Vec<JsonValue>) -> (r: Result<
    Vec<SearchMovie>,
    DecodeError,
>)
    ensures
        decode_gives(r, spec_search_movie_list(elems@)),
{
    let ghost f = |v: JsonValue| spec_search_movie(v);
    let mut out: Vec<SearchMovie> = Vec::new();
    let n = elems.len();
    let mut i: usize = 0;
    proof {
        assert(elems@.take(0) =~= Seq::<JsonValue>::empty());
        assert(out.deep_view() =~= Seq::<SearchMovieV>::empty());
    }
    while i < n
        invariant
            n == elems@.len(),
            i <= n,
            f == (|v: JsonValue| spec_search_movie(v)),
            spec_list(elems@.take(i as int), f) == Ok::<Seq<SearchMovieV>, SpecDecodeErr>(
                out.deep_view(),
            ),
        decreases n - i,
    {
        match decode_search_movie(&elems[i]) {
            Ok(g) => {
                let ghost prev = out.deep_view();
                out.push(g);
                proof {
                    lemma_list_snoc(elems@, f, i as int);
                    assert(out.deep_view() =~= prev.push(g.deep_view()));
                }
            },
            Err(e) => {
                proof {
                    lemma_list_first_err(elems@, f, i as int);
                }
                return Err(err_at_index(i as u64, e));
            },
        }
        i += 1;
    }
    proof {
        assert(elems@.take(n as int) =~= elems@);
    }
    Ok(out)
}

/// A paginated movie listing, decoded from the page envelope.
pub open spec fn spec_movie_page(v: JsonValue) -> Result<
    PaginatedSearchResultV<SearchMovieV>,
    SpecDecodeErr,
> {
    match spec_as_obj(v) {
        Err(e) => Err(e),
        Ok(fs) => {
            let page = spec_req_u64(fs, "page"@);
            let results = spec_req_arr(fs, "results"@);
            let total_pages = spec_req_u64(fs, "total_pages"@);
            let total_results = spec_req_u64(fs, "total_results"@);
            if page is Err {
                Err(page->Err_0)
            } else if results is Err {
                Err(results->Err_0)
            } else {
                match spec_search_movie_list(results->Ok_0) {
                    Err(e) => Err(spec_err_at("results"@, e)),
                    Ok(list) => if total_pages is Err {
                        Err(total_pages->Err_0)
                    } else if total_results is Err {
                        Err(total_results->Err_0)
                    } else {
                        Ok(
                            PaginatedSearchResultV {
                                page: page->Ok_0,
                                results: list,
                                total_pages: total_pages->Ok_0,
                                total_results: total_results->Ok_0,
                            },
                        )
                    },
                }
            }
        },
    }
}

/// Decodes a paginated movie listing.
pub fn decode_movie_page(v: &JsonValue) -> (r: Result<
    PaginatedSearchResult<SearchMovie>,
    DecodeError,
>)
    ensures
        decode_gives(r, spec_movie_page(*v)),
{
    let fields = match as_obj(v) {
        Ok(f) => f,
        Err(e) => {
            return Err(e);
        },
    };
    let page = match req_u64(fields, "page") {
        Ok(x) => x,
        Err(e) => {
            return Err(e);
        },
    };
    let arr = match req_arr(fields, "results") {
        Ok(x) => x,
        Err(e) => {
            return Err(e);
        },
    };
    let results = match decode_search_movie_list(arr) {
        Ok(x) => x,
        Err(e) => {
            return Err(err_at("results", e));
        },
    };
    let total_pages = match req_u64(fields, "total_pages") {
        Ok(x) => x,
        Err(e) => {
            return Err(e);
        },
    };
    let total_results = match req_u64(fields, "total_results") {
        Ok(x) => x,
        Err(e) => {
            return Err(e);
        },
    };
    Ok(PaginatedSearchResult { page, results, total_pages, total_results })
}

/// A cast member in a movie's credits.
#[derive(Debug, Clone, PartialEq, Eq)]
pub struct MovieCreditCast {
    /// The person core.
    pub base: crate::models_person::SearchPerson,
    /// Unique cast ID.
    pub cast_id: u64,
    /// Character played by the cast member.
    pub character: String,
    /// Unique credit ID.
    pub credit_id: String,
    /// Order in which the cast member appears in credits.
    pub order: u64,
}

pub ghost struct MovieCreditCastV {
    pub base: crate::models_person::SearchPersonV,
    pub cast_id: u64,
    pub character: Seq<char>,
    pub credit_id: Seq<char>,
    pub order: u64,
}

impl DeepView for MovieCreditCast {
    type V = MovieCreditCastV;

    open spec fn deep_view(&self) -> MovieCreditCastV {
        MovieCreditCastV {
            base: self.base.deep_view(),
            cast_id: self.cast_id,
            character: self.character@,
            credit_id: self.credit_id@,
            order: self.order,
        }
    }
}

pub open spec fn spec_movie_credit_cast(v: JsonValue) -> Result<MovieCreditCastV, SpecDecodeErr> {
    match spec_as_obj(v) {
        Err(e) => Err(e),
        Ok(fs) => {
            let base = crate::models_person::spec_search_person_fields(fs);
            let cast_id = spec_req_u64(fs, "cast_id"@);
            let character = spec_req_str(fs, "character"@);
            let credit_id = spec_req_str(fs, "credit_id"@);
            let order = spec_req_u64(fs, "order"@);
            if base is Err {
                Err(base->Err_0)
            } else if cast_id is Err {
                Err(cast_id->Err_0)
            } else if character is Err {
                Err(character->Err_0)
            } else if credit_id is Err {
                Err(credit_id->Err_0)
            } else if order is Err {
                Err(order->Err_0)
            } else {
                Ok(
                    MovieCreditCastV {
                        base: base->Ok_0,
                        cast_id: cast_id->Ok_0,
                        character: character->Ok_0,
                        credit_id: credit_id->Ok_0,
                        order: order->Ok_0,
                    },
                )
            }
        },
    }
}

/// Decodes a movie-credits cast member.
pub fn decode_movie_credit_cast(v: &JsonValue) -> (r: Result<MovieCreditCast, DecodeError>)
    ensures
        decode_gives(r, spec_movie_credit_cast(*v)),
{
    let fields = match as_obj(v) {
        Ok(f) => f,
        Err(e) => {
            return Err(e);
        },
    };
    let base = match crate::models_person::decode_search_person_fields(fields) {
        Ok(x) => x,
        Err(e) => {
            return Err(e);
        },
    };
    let cast_id = match req_u64(fields, "cast_id") {
        Ok(x) => x,
        Err(e) => {
            return Err(e);
        },
    };
    let character = match req_str(fields, "character") {
        Ok(x) => x,
        Err(e) => {
            return Err(e);
        },
    };
    let credit_id = match req_str(fields, "credit_id") {
        Ok(x) => x,
        Err(e) => {
            return Err(e);
        },
    };
    let order = match req_u64(fields, "order") {
        Ok(x) => x,
        Err(e) => {
            return Err(e);
        },
    };
    Ok(MovieCreditCast { base, cast_id, character, credit_id, order })
}

/// A crew member in a movie's credits.
#[derive(Debug, Clone, PartialEq, Eq)]
pub struct MovieCreditCrew {
    /// The person core.
    pub base: crate::models_person::SearchPerson,
    /// Unique credit ID.
    pub credit_id: String,
    /// Department the crew member worked in.
    pub department: String,
    /// Job title of the crew member.
    pub job: String,
}

pub ghost struct MovieCreditCrewV {
    pub base: crate::models_person::SearchPersonV,
    pub credit_id: Seq<char>,
    pub department: Seq<char>,
    pub job: Seq<char>,
}

impl DeepView for MovieCreditCrew {
    type V = MovieCreditCrewV;

    open spec fn deep_view(&self) -> MovieCreditCrewV {
        MovieCreditCrewV {
            base: self.base.deep_view(),
            credit_id: self.credit_id@,
            department: self.department@,
            job: self.job@,
        }
    }
}

pub open spec fn spec_movie_credit_crew(v: JsonValue) -> Result<MovieCreditCrewV, SpecDecodeErr> {
    match spec_as_obj(v) {
        Err(e) => Err(e),
        Ok(fs) => {
            let base = crate::models_person::spec_search_person_fields(fs);
            let credit_id = spec_req_str(fs, "credit_id"@);
            let department = spec_req_str(fs, "department"@);
            let job = spec_req_str(fs, "job"@);
            if base is Err {
                Err(base->Err_0)
            } else if credit_id is Err {
                Err(credit_id->Err_0)
            } else if department is Err {
                Err(department->Err_0)
            } else if job is Err {
                Err(job->Err_0)
            } else {
                Ok(
                    MovieCreditCrewV {
                        base: base->Ok_0,
                        credit_id: credit_id->Ok_0,
                        department: department->Ok_0,
                        job: job->Ok_0,
                    },
                )
            }
        },
    }
}

/// Decodes a movie-credits crew member.
pub fn decode_movie_credit_crew(v: &JsonValue) -> (r: Result<MovieCreditCrew, DecodeError>)
    ensures
        decode_gives(r, spec_movie_credit_crew(*v)),
{
    let fields = match as_obj(v) {
        Ok(f) => f,
        Err(e) => {
            return Err(e);
        },
    };
    let base = match crate::models_person::decode_search_person_fields(fields) {
        Ok(x) => x,
        Err(e) => {
            return Err(e);
        },
    };
    let credit_id = match req_str(fields, "credit_id") {
        Ok(x) => x,
        Err(e) => {
            return Err(e);
        },
    };
    let department = match req_str(fields, "department") {
        Ok(x) => x,
        Err(e) => {
            return Err(e);
        },
    };
    let job = match req_str(fields, "job") {
        Ok(x) => x,
        Err(e) => {
            return Err(e);
        },
    };
    Ok(MovieCreditCrew { base, credit_id, department, job })
}

pub open spec fn spec_movie_cast_list(elems: Seq<JsonValue>) -> Result<
    Seq<MovieCreditCastV>,
    SpecDecodeErr,
> {
    spec_list(elems, |v: JsonValue| spec_movie_credit_cast(v))
}

/// Decodes a movie's cast array.
pub fn decode_movie_cast_list(elems: &Vec<JsonValue>) -> (r: Result<
    Vec<MovieCreditCast>,
    DecodeError,
>)
    ensures
        decode_gives(r, spec_movie_cast_list(elems@)),
{
    let ghost f = |v: JsonValue| spec_movie_credit_cast(v);
    let mut out: Vec<MovieCreditCast> = Vec::new();
    let n = elems.len();
    let mut i: usize = 0;
    proof {
        assert(elems@.take(0) =~= Seq::<JsonValue>::empty());
        assert(out.deep_view() =~= Seq::<MovieCreditCastV>::empty());
    }
    while i < n
        invariant
            n == elems@.len(),
            i <= n,
            f == (|v: JsonValue| spec_movie_credit_cast(v)),
            spec_list(elems@.take(i as int), f) == Ok::<Seq<MovieCreditCastV>, SpecDecodeErr>(
                out.deep_view(),
            ),
        decreases n - i,
    {
        match decode_movie_credit_cast(&elems[i]) {
            Ok(g) => {
                let ghost prev = out.deep_view();
                out.push(g);
                proof {
                    lemma_list_snoc(elems@, f, i as int);
                    assert(out.deep_view() =~= prev.push(g.deep_view()));
                }
            },
            Err(e) => {
                proof {
                    lemma_list_first_err(elems@, f, i as int);
                }
                return Err(err_at_index(i as u64, e));
            },
        }
        i += 1;
    }
    proof {
        assert(elems@.take(n as int) =~= elems@);
    }
    Ok(out)
}

pub open spec fn spec_movie_crew_list(elems: Seq<JsonValue>) -> Result<
    Seq<MovieCreditCrewV>,
    SpecDecodeErr,
> {
    spec_list(elems, |v: JsonValue| spec_movie_credit_crew(v))
}

/// Decodes a movie's crew array.
pub fn decode_movie_crew_list(elems: &Vec<JsonValue>) -> (r: Result<
    Vec<MovieCreditCrew>,
    DecodeError,
>)
    ensures
        decode_gives(r, spec_movie_crew_list(elems@)),
{
    let ghost f = |v: JsonValue| spec_movie_credit_crew(v);
    let mut out: Vec<MovieCreditCrew> = Vec::new();
    let n = elems.len();
    let mut i: usize = 0;
    proof {
        assert(elems@.take(0) =~= Seq::<JsonValue>::empty());
        assert(out.deep_view() =~= Seq::<MovieCreditCrewV>::empty());
    }
    while i < n
        invariant
            n == elems@.len(),
            i <= n,
            f == (|v: JsonValue| spec_movie_credit_crew(v)),
            spec_list(elems@.take(i as int), f) == Ok::<Seq<MovieCreditCrewV>, SpecDecodeErr>(
                out.deep_view(),
            ),
        decreases n - i,
    {
        match decode_movie_credit_crew(&elems[i]) {
            Ok(g) => {
                let ghost prev = out.deep_view();
                out.push(g);
                proof {
                    lemma_list_snoc(elems@, f, i as int);
                    assert(out.deep_view() =~= prev.push(g.deep_view()));
                }
            },
            Err(e) => {
                proof {
                    lemma_list_first_err(elems@, f, i as int);
                }
                return Err(err_at_index(i as u64, e));
            },
        }
        i += 1;
    }
    proof {
        assert(elems@.take(n as int) =~= elems@);
    }
    Ok(out)
}

/// Credits information for a movie.
#[derive(Debug, Clone, PartialEq, Eq)]
pub struct MovieCredits {
    /// Unique identifier for the movie, present on the standalone credits
    /// endpoint and absent when the credits are embedded.
    pub id: Option<u64>,
    /// List of cast members.
    pub cast: Vec<MovieCreditCast>,
    /// List of crew members.
    pub crew: Vec<MovieCreditCrew>,
}

pub ghost struct MovieCreditsV {
    pub id: Option<u64>,
    pub cast: Seq<MovieCreditCastV>,
    pub crew: Seq<MovieCreditCrewV>,
}

impl DeepView for MovieCredits {
    type V = MovieCreditsV;

    open spec fn deep_view(&self) -> MovieCreditsV {
        MovieCreditsV {
            id: self.id.deep_view(),
            cast: self.cast.deep_view(),
            crew: self.crew.deep_view(),
        }
    }
}

pub open spec fn spec_movie_credits(v: JsonValue) -> Result<MovieCreditsV, SpecDecodeErr> {
    match spec_as_obj(v) {
        Err(e) => Err(e),
        Ok(fs) => {
            let id = crate::decode::spec_opt_u64(fs, "id"@);
            let cast = spec_req_arr(fs, "cast"@);
            let crew = spec_req_arr(fs, "crew"@);
            if id is Err {
                Err(id->Err_0)
            } else if cast is Err {
                Err(cast->Err_0)
            } else {
                match spec_movie_cast_list(cast->Ok_0) {
                    Err(e) => Err(spec_err_at("cast"@, e)),
                    Ok(cast_list) => if crew is Err {
                        Err(crew->Err_0)
                    } else {
                        match spec_movie_crew_list(crew->Ok_0) {
                            Err(e) => Err(spec_err_at("crew"@, e)),
                            Ok(crew_list) => Ok(
                                MovieCreditsV { id: id->Ok_0, cast: cast_list, crew: crew_list },
                            ),
                        }
                    },
                }
            }
        },
    }
}

/// Decodes a movie's credits.
pub fn decode_movie_credits(v: &JsonValue) -> (r: Result<MovieCredits, DecodeError>)
    ensures
        decode_gives(r, spec_movie_credits(*v)),
{
    let fields = match as_obj(v) {
        Ok(f) => f,
        Err(e) => {
            return Err(e);
        },
    };
    let id = match crate::decode::opt_u64(fields, "id") {
        Ok(x) => x,
        Err(e) => {
            return Err(e);
        },
    };
    let cast_arr = match req_arr(fields, "cast") {
        Ok(x) => x,
        Err(e) => {
            return Err(e);
        },
    };
    let cast = match decode_movie_cast_list(cast_arr) {
        Ok(x) => x,
        Err(e) => {
            return Err(err_at("cast", e));
        },
    };
    let crew_arr = match req_arr(fields, "crew") {
        Ok(x) => x,
        Err(e) => {
            return Err(e);
        },
    };
    let crew = match decode_movie_crew_list(crew_arr) {
        Ok(x) => x,
        Err(e) => {
            return Err(err_at("crew", e));
        },
    };
    Ok(MovieCredits { id, cast, crew })
}

/// A detailed movie record.
#[derive(Debug, Clone, PartialEq, Eq)]
pub struct MovieDetails {
    /// The movie core.
    pub base: BaseMovie,
    /// Collection the movie belongs to, if any.
    pub belongs_to_collection: Option<Collection>,
    /// Budget of the movie in dollars.
    pub budget: u64,
    /// List of genres associated with the movie.
    pub genres: Vec<Genre>,
    /// Homepage URL of the movie.
    pub homepage: String,
    /// Movie-database identifier for the movie, if available.
    pub imdb_id: Option<String>,
    /// List of production companies involved.
    pub production_companies: Vec<ProductionCompany>,
    /// List of countries where the movie was produced.
    pub production_countries: Vec<ProductionCountry>,
    /// Revenue generated by the movie in dollars.
    pub revenue: u64,
    /// Runtime of the movie in minutes.
    pub runtime: u64,
    /// List of spoken languages in the movie.
    pub spoken_languages: Vec<Language>,
    /// Status of the movie.
    pub status: String,
    /// Tagline of the movie.
    pub tagline: String,
    /// Credits information, present only when requested.
    pub credits: Option<MovieCredits>,
}

pub ghost struct MovieDetailsV {
    pub base: BaseMovieV,
    pub belongs_to_collection: Option<CollectionV>,
    pub budget: u64,
    pub genres: Seq<GenreV>,
    pub homepage: Seq<char>,
    pub imdb_id: Option<Seq<char>>,
    pub production_companies: Seq<ProductionCompanyV>,
    pub production_countries: Seq<ProductionCountryV>,
    pub revenue: u64,
    pub runtime: u64,
    pub spoken_languages: Seq<LanguageV>,
    pub status: Seq<char>,
    pub tagline: Seq<char>,
    pub credits: Option<MovieCreditsV>,
}

impl DeepView for MovieDetails {
    type V = MovieDetailsV;

    open spec fn deep_view(&self) -> MovieDetailsV {
        MovieDetailsV {
            base: self.base.deep_view(),
            belongs_to_collection: self.belongs_to_collection.deep_view(),
            budget: self.budget,
            genres: self.genres.deep_view(),
            homepage: self.homepage@,
            imdb_id: self.imdb_id.deep_view(),
            production_companies: self.production_companies.deep_view(),
            production_countries: self.production_countries.deep_view(),
            revenue: self.revenue,
            runtime: self.runtime,
            spoken_languages: self.spoken_languages.deep_view(),
            status: self.status@,
            tagline: self.tagline@,
            credits: self.credits.deep_view(),
        }
    }
}

/// An optional embedded collection.
pub open spec fn spec_opt_collection(fs: Seq<(String, JsonValue)>) -> Result<
    Option<CollectionV>,
    SpecDecodeErr,
> {
    match spec_opt_field(fs, "belongs_to_collection"@) {
        None => Ok(None),
        Some(v) => match spec_collection(v) {
            Ok(c) => Ok(Some(c)),
            Err(e) => Err(spec_err_at("belongs_to_collection"@, e)),
        },
    }
}

/// An optional embedded credits record.
pub open spec fn spec_opt_movie_credits(fs: Seq<(String, JsonValue)>) -> Result<
    Option<MovieCreditsV>,
    SpecDecodeErr,
> {
    match spec_opt_field(fs, "credits"@) {
        None => Ok(None),
        Some(v) => match spec_movie_credits(v) {
            Ok(c) => Ok(Some(c)),
            Err(e) => Err(spec_err_at("credits"@, e)),
        },
    }
}

pub open spec fn spec_movie_details(v: JsonValue) -> Result<MovieDetailsV, SpecDecodeErr> {
    match spec_as_obj(v) {
        Err(e) => Err(e),
        Ok(fs) => {
            let base = spec_base_movie_fields(fs);
            let belongs_to_collection = spec_opt_collection(fs);
            let budget = spec_req_u64(fs, "budget"@);
            let genres = spec_req_arr(fs, "genres"@);
            let homepage = spec_req_str(fs, "homepage"@);
            let imdb_id = spec_opt_str(fs, "imdb_id"@);
            let production_companies = spec_req_arr(fs, "production_companies"@);
            let production_countries = spec_req_arr(fs, "production_countries"@);
            let revenue = spec_req_u64(fs, "revenue"@);
            let runtime = spec_req_u64(fs, "runtime"@);
            let spoken_languages = spec_req_arr(fs, "spoken_languages"@);
            let status = spec_req_str(fs, "status"@);
            let tagline = spec_req_str(fs, "tagline"@);
            let credits = spec_opt_movie_credits(fs);
            if base is Err {
                Err(base->Err_0)
            } else if belongs_to_collection is Err {
                Err(belongs_to_collection->Err_0)
            } else if budget is Err {
                Err(budget->Err_0)
            } else if genres is Err {
                Err(genres->Err_0)
            } else {
                match spec_genre_list(genres->Ok_0) {
                    Err(e) => Err(spec_err_at("genres"@, e)),
                    Ok(genre_list) => if homepage is Err {
                        Err(homepage->Err_0)
                    } else if imdb_id is Err {
                        Err(imdb_id->Err_0)
                    } else if production_companies is Err {
                        Err(production_companies->Err_0)
                    } else {
                        match spec_production_company_list(production_companies->Ok_0) {
                            Err(e) => Err(spec_err_at("production_companies"@, e)),
                            Ok(company_list) => if production_countries is Err {
                                Err(production_countries->Err_0)
                            } else {
                                match spec_production_country_list(production_countries->Ok_0) {
                                    Err(e) => Err(spec_err_at("production_countries"@, e)),
                                    Ok(country_list) => if revenue is Err {
                                        Err(revenue->Err_0)
                                    } else if runtime is Err {
                                        Err(runtime->Err_0)
                                    } else if spoken_languages is Err {
                                        Err(spoken_languages->Err_0)
                                    } else {
                                        match spec_language_list(spoken_languages->Ok_0) {
                                            Err(e) => Err(spec_err_at("spoken_languages"@, e)),
                                            Ok(language_list) => if status is Err {
                                                Err(status->Err_0)
                                            } else if tagline is Err {
                                                Err(tagline->Err_0)
                                            } else if credits is Err {
                                                Err(credits->Err_0)
                                            } else {
                                                Ok(
                                                    MovieDetailsV {
                                                        base: base->Ok_0,
                                                        belongs_to_collection:
                                                            belongs_to_collection->Ok_0,
                                                        budget: budget->Ok_0,
                                                        genres: genre_list,
                                                        homepage: homepage->Ok_0,
                                                        imdb_id: imdb_id->Ok_0,
                                                        production_companies: company_list,
                                                        production_countries: country_list,
                                                        revenue: revenue->Ok_0,
                                                        runtime: runtime->Ok_0,
                                                        spoken_languages: language_list,
                                                        status: status->Ok_0,
                                                        tagline: tagline->Ok_0,
                                                        credits: credits->Ok_0,
                                                    },
                                                )
                                            },
                                        }
                                    },
                                }
                            },
                        }
                    },
                }
            }
        },
    }
}

/// Decodes a movie-details record.
pub fn decode_movie_details(v: &JsonValue) -> (r: Result<MovieDetails, DecodeError>)
    ensures
        decode_gives(r, spec_movie_details(*v)),
{
    let fields = match as_obj(v) {
        Ok(f) => f,
        Err(e) => {
            return Err(e);
        },
    };
    let base = match decode_base_movie_fields(fields) {
        Ok(x) => x,
        Err(e) => {
            return Err(e);
        },
    };
    let belongs_to_collection = match opt_field(fields, "belongs_to_collection") {
        None => None,
        Some(cv) => match decode_collection(cv) {
            Ok(c) => Some(c),
            Err(e) => {
                return Err(err_at("belongs_to_collection", e));
            },
        },
    };
    let budget = match req_u64(fields, "budget") {
        Ok(x) => x,
        Err(e) => {
            return Err(e);
        },
    };
    let genres_arr = match req_arr(fields, "genres") {
        Ok(x) => x,
        Err(e) => {
            return Err(e);
        },
    };
    let genres = match decode_genre_list(genres_arr) {
        Ok(x) => x,
        Err(e) => {
            return Err(err_at("genres", e));
        },
    };
    let homepage = match req_str(fields, "homepage") {
        Ok(x) => x,
        Err(e) => {
            return Err(e);
        },
    };
    let imdb_id = match opt_str(fields, "imdb_id") {
        Ok(x) => x,
        Err(e) => {
            return Err(e);
        },
    };
    let companies_arr = match req_arr(fields, "production_companies") {
        Ok(x) => x,
        Err(e) => {
            return Err(e);
        },
    };
    let production_companies = match decode_production_company_list(companies_arr) {
        Ok(x) => x,
        Err(e) => {
            return Err(err_at("production_companies", e));
        },
    };
    let countries_arr = match req_arr(fields, "production_countries") {
        Ok(x) => x,
        Err(e) => {
            return Err(e);
        },
    };
    let production_countries = match decode_production_country_list(countries_arr) {
        Ok(x) => x,
        Err(e) => {
            return Err(err_at("production_countries", e));
        },
    };
    let revenue = match req_u64(fields, "revenue") {
        Ok(x) => x,
        Err(e) => {
            return Err(e);
        },
    };
    let runtime = match req_u64(fields, "runtime") {
        Ok(x) => x,
        Err(e) => {
            return Err(e);
        },
    };
    let languages_arr = match req_arr(fields, "spoken_languages") {
        Ok(x) => x,
        Err(e) => {
            return Err(e);
        },
    };
    let spoken_languages = match decode_language_list(languages_arr) {
        Ok(x) => x,
        Err(e) => {
            return Err(err_at("spoken_languages", e));
        },
    };
    let status = match req_str(fields, "status") {
        Ok(x) => x,
        Err(e) => {
            return Err(e);
        },
    };
    let tagline = match req_str(fields, "tagline") {
        Ok(x) => x,
        Err(e) => {
            return Err(e);
        },
    };
    let credits = match opt_field(fields, "credits") {
        None => None,
        Some(cv) => match decode_movie_credits(cv) {
            Ok(c) => Some(c),
            Err(e) => {
                return Err(err_at("credits", e));
            },
        },
    };
    Ok(
        MovieDetails {
            base,
            belongs_to_collection,
            budget,
            genres,
            homepage,
            imdb_id,
            production_companies,
            production_countries,
            revenue,
            runtime,
            spoken_languages,
            status,
            tagline,
            credits,
        },
    )
}

} // verus!
