//! Person-side response models and their decoders: search entries, detail
//! records, and a person's filmography credits.

use vstd::prelude::*;
use crate::date::Date;
use crate::json::{
    DecodeError, DecodeKind, JsonValue, SpecDecodeErr, err_at, err_at_index, err_here,
    spec_err_at, spec_err_here,
};
use crate::decode::{
    as_obj, decode_gives, lemma_list_first_err, lemma_list_snoc, opt_date, opt_str, req_arr,
    req_bool, req_num_text, req_str, req_u64, spec_as_obj, spec_list, spec_opt_date,
    spec_opt_field, spec_opt_str, spec_req_arr, spec_req_bool, spec_req_num_text, spec_req_str,
    spec_req_u64, opt_field,
};
use crate::models_common::{
    Gender, PaginatedSearchResult, PaginatedSearchResultV, Socials, SocialsV, decode_socials,
    req_gender, spec_req_gender, spec_socials,
};
use crate::models_movie::{BaseMovie, BaseMovieV, decode_base_movie_fields, spec_base_movie_fields};

verus! {

/// A person as they appear in search and listing results, and as the
/// person core of a movie's credits.
#[derive(Debug, Clone, PartialEq, Eq)]
pub struct SearchPerson {
    /// Indicates whether the person is an adult.
    pub adult: bool,
    /// The person's gender.
    pub gender: Gender,
    /// A unique identifier for the person.
    pub id: u64,
    /// The department the person is best known for, if available.
    pub known_for_department: Option<String>,
    /// The person's full name.
    pub name: String,
    /// The person's original name.
    pub original_name: String,
    /// The type of media associated with the person, if applicable.
    pub media_type: Option<String>,
    /// Popularity score, kept as the number's decimal text.
    pub popularity: String,
    /// The path to the person's profile image, if available.
    pub profile_path: Option<String>,
}

pub ghost struct SearchPersonV {
    pub adult: bool,
    pub gender: Gender,
    pub id: u64,
    pub known_for_department: Option<Seq<char>>,
    pub name: Seq<char>,
    pub original_name: Seq<char>,
    pub media_type: Option<Seq<char>>,
    pub popularity: Seq<char>,
    pub profile_path: Option<Seq<char>>,
}

impl DeepView for SearchPerson {
    type V = SearchPersonV;

    open spec fn deep_view(&self) -> SearchPersonV {
        SearchPersonV {
            adult: self.adult,
            gender: self.gender,
            id: self.id,
            known_for_department: self.known_for_department.deep_view(),
            name: self.name@,
            original_name: self.original_name@,
            media_type: self.media_type.deep_view(),
            popularity: self.popularity@,
            profile_path: self.profile_path.deep_view(),
        }
    }
}

/// The person core, decoded from the surrounding record's own field list.
pub open spec fn spec_search_person_fields(fs: Seq<(String, JsonValue)>) -> Result<
    SearchPersonV,
    SpecDecodeErr,
> {
    let adult = spec_req_bool(fs, "adult"@);
    let gender = spec_req_gender(fs, "gender"@);
    let id = spec_req_u64(fs, "id"@);
    let known_for_department = spec_opt_str(fs, "known_for_department"@);
    let name = spec_req_str(fs, "name"@);
    let original_name = spec_req_str(fs, "original_name"@);
    let media_type = spec_opt_str(fs, "media_type"@);
    let popularity = spec_req_num_text(fs, "popularity"@);
    let profile_path = spec_opt_str(fs, "profile_path"@);
    if adult is Err {
        Err(adult->Err_0)
    } else if gender is Err {
        Err(gender->Err_0)
    } else if id is Err {
        Err(id->Err_0)
    } else if known_for_department is Err {
        Err(known_for_department->Err_0)
    } else if name is Err {
        Err(name->Err_0)
    } else if original_name is Err {
        Err(original_name->Err_0)
    } else if media_type is Err {
        Err(media_type->Err_0)
    } else if popularity is Err {
        Err(popularity->Err_0)
    } else if profile_path is Err {
        Err(profile_path->Err_0)
    } else {
        Ok(
            SearchPersonV {
                adult: adult->Ok_0,
                gender: gender->Ok_0,
                id: id->Ok_0,
                known_for_department: known_for_department->Ok_0,
                name: name->Ok_0,
                original_name: original_name->Ok_0,
                media_type: media_type->Ok_0,
                popularity: popularity->Ok_0,
                profile_path: profile_path->Ok_0,
            },
        )
    }
}

/// Decodes the person core from a record's field list.
pub fn decode_search_person_fields(fields: &Vec<(String, JsonValue)>) -> (r: Result<
    SearchPerson,
    DecodeError,
>)
    ensures
        decode_gives(r, spec_search_person_fields(fields@)),
{
    let adult = match req_bool(fields, "adult") {
        Ok(x) => x,
        Err(e) => {
            return Err(e);
        },
    };
    let gender = match req_gender(fields, "gender") {
        Ok(x) => x,
        Err(e) => {
            return Err(e);
        },
    };
    let id = match req_u64(fields, "id") {
        Ok(x) => x,
        Err(e) => {
            return Err(e);
        },
    };
    let known_for_department = match opt_str(fields, "known_for_department") {
        Ok(x) => x,
        Err(e) => {
            return Err(e);
        },
    };
    let name = match req_str(fields, "name") {
        Ok(x) => x,
        Err(e) => {
            return Err(e);
        },
    };
    let original_name = match req_str(fields, "original_name") {
        Ok(x) => x,
        Err(e) => {
            return Err(e);
        },
    };
    let media_type = match opt_str(fields, "media_type") {
        Ok(x) => x,
        Err(e) => {
            return Err(e);
        },
    };
    let popularity = match req_num_text(fields, "popularity") {
        Ok(x) => x,
        Err(e) => {
            return Err(e);
        },
    };
    let profile_path = match opt_str(fields, "profile_path") {
        Ok(x) => x,
        Err(e) => {
            return Err(e);
        },
    };
    Ok(
        SearchPerson {
            adult,
            gender,
            id,
            known_for_department,
            name,
            original_name,
            media_type,
            popularity,
            profile_path,
        },
    )
}

pub open spec fn spec_search_person(v: JsonValue) -> Result<SearchPersonV, SpecDecodeErr> {
    match spec_as_obj(v) {
        Err(e) => Err(e),
        Ok(fs) => spec_search_person_fields(fs),
    }
}

/// Decodes a search-result person.
pub fn decode_search_person(v: &JsonValue) -> (r: Result<SearchPerson, DecodeError>)
    ensures
        decode_gives(r, spec_search_person(*v)),
{
    let fields = match as_obj(v) {
        Ok(f) => f,
        Err(e) => {
            return Err(e);
        },
    };
    decode_search_person_fields(fields)
}

pub open spec fn spec_search_person_list(elems: Seq<JsonValue>) -> Result<
    Seq<SearchPersonV>,
    SpecDecodeErr,
> {
    spec_list(elems, |v: JsonValue| spec_search_person(v))
}

/// Decodes the `results` array of a people listing.
pub fn decode_search_person_list(elems: &Vec<JsonValue>) -> (r: Result<
    Vec<SearchPerson>,
    DecodeError,
>)
    ensures
        decode_gives(r, spec_search_person_list(elems@)),
{
    let ghost f = |v: JsonValue| spec_search_person(v);
    let mut out: Vec<SearchPerson> = Vec::new();
    let n = elems.len();
    let mut i: usize = 0;
    proof {
        assert(elems@.take(0) =~= Seq::<JsonValue>::empty());
        assert(out.deep_view() =~= Seq::<SearchPersonV>::empty());
    }
    while i < n
        invariant
            n == elems@.len(),
            i <= n,
            f == (|v: JsonValue| spec_search_person(v)),
            spec_list(elems@.take(i as int), f) == Ok::<Seq<SearchPersonV>, SpecDecodeErr>(
                out.deep_view(),
            ),
        decreases n - i,
    {
        match decode_search_person(&elems[i]) {
            Ok(g) => {
                let ghost prev = out.deep_view();
                out.push(g);
                proof {
                    lemma_list_snoc(elems@, f, i as int);
                    assert(out.deep_view() =~= prev.push(g.deep_view()));
                }
            },
            Err(e) => {
                proof {
                    lemma_list_first_err(elems@, f, i as int);
                }
                return Err(err_at_index(i as u64, e));
            },
        }
        i += 1;
    }
    proof {
        assert(elems@.take(n as int) =~= elems@);
    }
    Ok(out)
}

/// A paginated people listing, decoded from the page envelope.
pub open spec fn spec_person_page(v: JsonValue) -> Result<
    PaginatedSearchResultV<SearchPersonV>,
    SpecDecodeErr,
> {
    match spec_as_obj(v) {
        Err(e) => Err(e),
        Ok(fs) => {
            let page = spec_req_u64(fs, "page"@);
            let results = spec_req_arr(fs, "results"@);
            let total_pages = spec_req_u64(fs, "total_pages"@);
            let total_results = spec_req_u64(fs, "total_results"@);
            if page is Err {
                Err(page->Err_0)
            } else if results is Err {
                Err(results->Err_0)
            } else {
                match spec_search_person_list(results->Ok_0) {
                    Err(e) => Err(spec_err_at("results"@, e)),
                    Ok(list) => if total_pages is Err {
                        Err(total_pages->Err_0)
                    } else if total_results is Err {
                        Err(total_results->Err_0)
                    } else {
                        Ok(
                            PaginatedSearchResultV {
                                page: page->Ok_0,
                                results: list,
                                total_pages: total_pages->Ok_0,
                                total_results: total_results->Ok_0,
                            },
                        )
                    },
                }
            }
        },
    }
}

/// Decodes a paginated people listing.
pub fn decode_person_page(v: &JsonValue) -> (r: Result<
    PaginatedSearchResult<SearchPerson>,
    DecodeError,
>)
    ensures
        decode_gives(r, spec_person_page(*v)),
{
    let fields = match as_obj(v) {
        Ok(f) => f,
        Err(e) => {
            return Err(e);
        },
    };
    let page = match req_u64(fields, "page") {
        Ok(x) => x,
        Err(e) => {
            return Err(e);
        },
    };
    let arr = match req_arr(fields, "results") {
        Ok(x) => x,
        Err(e) => {
            return Err(e);
        },
    };
    let results = match decode_search_person_list(arr) {
        Ok(x) => x,
        Err(e) => {
            return Err(err_at("results", e));
        },
    };
    let total_pages = match req_u64(fields, "total_pages") {
        Ok(x) => x,
        Err(e) => {
            return Err(e);
        },
    };
    let total_results = match req_u64(fields, "total_results") {
        Ok(x) => x,
        Err(e) => {
            return Err(e);
        },
    };
    Ok(PaginatedSearchResult { page, results, total_pages, total_results })
}

/// A cast credit in a person's filmography.
#[derive(Debug, Clone, PartialEq, Eq)]
pub struct PersonCreditCast {
    /// The movie core.
    pub base: BaseMovie,
    /// Genre IDs associated with the movie.
    pub genre_ids: Vec<u64>,
    /// The character played by the person.
    pub character: String,
    /// A unique credit identifier.
    pub credit_id: String,
    /// The order in which the person is credited.
    pub order: u64,
}

pub ghost struct PersonCreditCastV {
    pub base: BaseMovieV,
    pub genre_ids: Seq<u64>,
    pub character: Seq<char>,
    pub credit_id: Seq<char>,
    pub order: u64,
}

impl DeepView for PersonCreditCast {
    type V = PersonCreditCastV;

    open spec fn deep_view(&self) -> PersonCreditCastV {
        PersonCreditCastV {
            base: self.base.deep_view(),
            genre_ids: self.genre_ids.deep_view(),
            character: self.character@,
            credit_id: self.credit_id@,
            order: self.order,
        }
    }
}

pub open spec fn spec_person_credit_cast(v: JsonValue) -> Result<PersonCreditCastV, SpecDecodeErr> {
    match spec_as_obj(v) {
        Err(e) => Err(e),
        Ok(fs) => {
            let base = spec_base_movie_fields(fs);
            let genre_ids = spec_req_arr(fs, "genre_ids"@);
            let character = spec_req_str(fs, "character"@);
            let credit_id = spec_req_str(fs, "credit_id"@);
            let order = spec_req_u64(fs, "order"@);
            if base is Err {
                Err(base->Err_0)
            } else if genre_ids is Err {
                Err(genre_ids->Err_0)
            } else {
                match crate::models_movie::spec_u64_list(genre_ids->Ok_0) {
                    Err(e) => Err(spec_err_at("genre_ids"@, e)),
                    Ok(ids) => if character is Err {
                        Err(character->Err_0)
                    } else if credit_id is Err {
                        Err(credit_id->Err_0)
                    } else if order is Err {
                        Err(order->Err_0)
                    } else {
                        Ok(
                            PersonCreditCastV {
                                base: base->Ok_0,
                                genre_ids: ids,
                                character: character->Ok_0,
                                credit_id: credit_id->Ok_0,
                                order: order->Ok_0,
                            },
                        )
                    },
                }
            }
        },
    }
}

/// Decodes a filmography cast credit.
pub fn decode_person_credit_cast(v: &JsonValue) -> (r: Result<PersonCreditCast, DecodeError>)
    ensures
        decode_gives(r, spec_person_credit_cast(*v)),
{
    let fields = match as_obj(v) {
        Ok(f) => f,
        Err(e) => {
            return Err(e);
        },
    };
    let base = match decode_base_movie_fields(fields) {
        Ok(x) => x,
        Err(e) => {
            return Err(e);
        },
    };
    let arr = match req_arr(fields, "genre_ids") {
        Ok(x) => x,
        Err(e) => {
            return Err(e);
        },
    };
    let genre_ids = match crate::models_movie::decode_u64_list(arr) {
        Ok(x) => x,
        Err(e) => {
            return Err(err_at("genre_ids", e));
        },
    };
    let character = match req_str(fields, "character") {
        Ok(x) => x,
        Err(e) => {
            return Err(e);
        },
    };
    let credit_id = match req_str(fields, "credit_id") {
        Ok(x) => x,
        Err(e) => {
            return Err(e);
        },
    };
    let order = match req_u64(fields, "order") {
        Ok(x) => x,
        Err(e) => {
            return Err(e);
        },
    };
    Ok(PersonCreditCast { base, genre_ids, character, credit_id, order })
}

/// A crew credit in a person's filmography.
#[derive(Debug, Clone, PartialEq, Eq)]
pub struct PersonCreditCrew {
    /// The movie core.
    pub base: BaseMovie,
    /// Genre IDs associated with the movie.
    pub genre_ids: Vec<u64>,
    /// A unique credit identifier.
    pub credit_id: String,
    /// The department the person worked in.
    pub department: String,
    /// The specific job title the person held.
    pub job: String,
}

pub ghost struct PersonCreditCrewV {
    pub base: BaseMovieV,
    pub genre_ids: Seq<u64>,
    pub credit_id: Seq<char>,
    pub department: Seq<char>,
    pub job: Seq<char>,
}

impl DeepView for PersonCreditCrew {
    type V = PersonCreditCrewV;

    open spec fn deep_view(&self) -> PersonCreditCrewV {
        PersonCreditCrewV {
            base: self.base.deep_view(),
            genre_ids: self.genre_ids.deep_view(),
            credit_id: self.credit_id@,
            department: self.department@,
            job: self.job@,
        }
    }
}

pub open spec fn spec_person_credit_crew(v: JsonValue) -> Result<PersonCreditCrewV, SpecDecodeErr> {
    match spec_as_obj(v) {
        Err(e) => Err(e),
        Ok(fs) => {
            let base = spec_base_movie_fields(fs);
            let genre_ids = spec_req_arr(fs, "genre_ids"@);
            let credit_id = spec_req_str(fs, "credit_id"@);
            let department = spec_req_str(fs, "department"@);
            let job = spec_req_str(fs, "job"@);
            if base is Err {
                Err(base->Err_0)
            } else if genre_ids is Err {
                Err(genre_ids->Err_0)
            } else {
                match crate::models_movie::spec_u64_list(genre_ids->Ok_0) {
                    Err(e) => Err(spec_err_at("genre_ids"@, e)),
                    Ok(ids) => if credit_id is Err {
                        Err(credit_id->Err_0)
                    } else if department is Err {
                        Err(department->Err_0)
                    } else if job is Err {
                        Err(job->Err_0)
                    } else {
                        Ok(
                            PersonCreditCrewV {
                                base: base->Ok_0,
                                genre_ids: ids,
                                credit_id: credit_id->Ok_0,
                                department: department->Ok_0,
                                job: job->Ok_0,
                            },
                        )
                    },
                }
            }
        },
    }
}

/// Decodes a filmography crew credit.
pub fn decode_person_credit_crew(v: &JsonValue) -> (r: Result<PersonCreditCrew, DecodeError>)
    ensures
        decode_gives(r, spec_person_credit_crew(*v)),
{
    let fields = match as_obj(v) {
        Ok(f) => f,
        Err(e) => {
            return Err(e);
        },
    };
    let base = match decode_base_movie_fields(fields) {
        Ok(x) => x,
        Err(e) => {
            return Err(e);
        },
    };
    let arr = match req_arr(fields, "genre_ids") {
        Ok(x) => x,
        Err(e) => {
            return Err(e);
        },
    };
    let genre_ids = match crate::models_movie::decode_u64_list(arr) {
        Ok(x) => x,
        Err(e) => {
            return Err(err_at("genre_ids", e));
        },
    };
    let credit_id = match req_str(fields, "credit_id") {
        Ok(x) => x,
        Err(e) => {
            return Err(e);
        },
    };
    let department = match req_str(fields, "department") {
        Ok(x) => x,
        Err(e) => {
            return Err(e);
        },
    };
    let job = match req_str(fields, "job") {
        Ok(x) => x,
        Err(e) => {
            return Err(e);
        },
    };
    Ok(PersonCreditCrew { base, genre_ids, credit_id, department, job })
}

pub open spec fn spec_person_cast_list(elems: Seq<JsonValue>) -> Result<
    Seq<PersonCreditCastV>,
    SpecDecodeErr,
> {
    spec_list(elems, |v: JsonValue| spec_person_credit_cast(v))
}

/// Decodes a filmography's cast array.
pub fn decode_person_cast_list(elems: &Vec<JsonValue>) -> (r: Result<
    Vec<PersonCreditCast>,
    DecodeError,
>)
    ensures
        decode_gives(r, spec_person_cast_list(elems@)),
{
    let ghost f = |v: JsonValue| spec_person_credit_cast(v);
    let mut out: Vec<PersonCreditCast> = Vec::new();
    let n = elems.len();
    let mut i: usize = 0;
    proof {
        assert(elems@.take(0) =~= Seq::<JsonValue>::empty());
        assert(out.deep_view() =~= Seq::<PersonCreditCastV>::empty());
    }
    while i < n
        invariant
            n == elems@.len(),
            i <= n,
            f == (|v: JsonValue| spec_person_credit_cast(v)),
            spec_list(elems@.take(i as int), f) == Ok::<Seq<PersonCreditCastV>, SpecDecodeErr>(
                out.deep_view(),
            ),
        decreases n - i,
    {
        match decode_person_credit_cast(&elems[i]) {
            Ok(g) => {
                let ghost prev = out.deep_view();
                out.push(g);
                proof {
                    lemma_list_snoc(elems@, f, i as int);
                    assert(out.deep_view() =~= prev.push(g.deep_view()));
                }
            },
            Err(e) => {
                proof {
                    lemma_list_first_err(elems@, f, i as int);
                }
                return Err(err_at_index(i as u64, e));
            },
        }
        i += 1;
    }
    proof {
        assert(elems@.take(n as int) =~= elems@);
    }
    Ok(out)
}

pub open spec fn spec_person_crew_list(elems: Seq<JsonValue>) -> Result<
    Seq<PersonCreditCrewV>,
    SpecDecodeErr,
> {
    spec_list(elems, |v: JsonValue| spec_person_credit_crew(v))
}

/// Decodes a filmography's crew array.
pub fn decode_person_crew_list(elems: &Vec<JsonValue>) -> (r: Result<
    Vec<PersonCreditCrew>,
    DecodeError,
>)
    ensures
        decode_gives(r, spec_person_crew_list(elems@)),
{
    let ghost f = |v: JsonValue| spec_person_credit_crew(v);
    let mut out: Vec<PersonCreditCrew> = Vec::new();
    let n = elems.len();
    let mut i: usize = 0;
    proof {
        assert(elems@.take(0) =~= Seq::<JsonValue>::empty());
        assert(out.deep_view() =~= Seq::<PersonCreditCrewV>::empty());
    }
    while i < n
        invariant
            n == elems@.len(),
            i <= n,
            f == (|v: JsonValue| spec_person_credit_crew(v)),
            spec_list(elems@.take(i as int), f) == Ok::<Seq<PersonCreditCrewV>, SpecDecodeErr>(
                out.deep_view(),
            ),
        decreases n - i,
    {
        match decode_person_credit_crew(&elems[i]) {
            Ok(g) => {
                let ghost prev = out.deep_view();
                out.push(g);
                proof {
                    lemma_list_snoc(elems@, f, i as int);
                    assert(out.deep_view() =~= prev.push(g.deep_view()));
                }
            },
            Err(e) => {
                proof {
                    lemma_list_first_err(elems@, f, i as int);
                }
                return Err(err_at_index(i as u64, e));
            },
        }
        i += 1;
    }
    proof {
        assert(elems@.take(n as int) =~= elems@);
    }
    Ok(out)
}

/// The movie credits of a person.
#[derive(Debug, Clone, PartialEq, Eq)]
pub struct PersonCredits {
    /// Movies where the person appeared as a cast member.
    pub cast: Vec<PersonCreditCast>,
    /// Movies where the person was part of the crew.
    pub crew: Vec<PersonCreditCrew>,
}

pub ghost struct PersonCreditsV {
    pub cast: Seq<PersonCreditCastV>,
    pub crew: Seq<PersonCreditCrewV>,
}

impl DeepView for PersonCredits {
    type V = PersonCreditsV;

    open spec fn deep_view(&self) -> PersonCreditsV {
        PersonCreditsV { cast: self.cast.deep_view(), crew: self.crew.deep_view() }
    }
}

pub open spec fn spec_person_credits(v: JsonValue) -> Result<PersonCreditsV, SpecDecodeErr> {
    match spec_as_obj(v) {
        Err(e) => Err(e),
        Ok(fs) => {
            let cast = spec_req_arr(fs, "cast"@);
            let crew = spec_req_arr(fs, "crew"@);
            if cast is Err {
                Err(cast->Err_0)
            } else {
                match spec_person_cast_list(cast->Ok_0) {
                    Err(e) => Err(spec_err_at("cast"@, e)),
                    Ok(cast_list) => if crew is Err {
                        Err(crew->Err_0)
                    } else {
                        match spec_person_crew_list(crew->Ok_0) {
                            Err(e) => Err(spec_err_at("crew"@, e)),
                            Ok(crew_list) => Ok(
                                PersonCreditsV { cast: cast_list, crew: crew_list },
                            ),
                        }
                    },
                }
            }
        },
    }
}

/// Decodes a person's filmography.
pub fn decode_person_credits(v: &JsonValue) -> (r: Result<PersonCredits, DecodeError>)
    ensures
        decode_gives(r, spec_person_credits(*v)),
{
    let fields = match as_obj(v) {
        Ok(f) => f,
        Err(e) => {
            return Err(e);
        },
    };
    let cast_arr = match req_arr(fields, "cast") {
        Ok(x) => x,
        Err(e) => {
            return Err(e);
        },
    };
    let cast = match decode_person_cast_list(cast_arr) {
        Ok(x) => x,
        Err(e) => {
            return Err(err_at("cast", e));
        },
    };
    let crew_arr = match req_arr(fields, "crew") {
        Ok(x) => x,
        Err(e) => {
            return Err(e);
        },
    };
    let crew = match decode_person_crew_list(crew_arr) {
        Ok(x) => x,
        Err(e) => {
            return Err(err_at("crew", e));
        },
    };
    Ok(PersonCredits { cast, crew })
}

/// One element of an `also_known_as` array.
pub open spec fn spec_str_elem(v: JsonValue) -> Result<Seq<char>, SpecDecodeErr> {
    match v {
        JsonValue::Str(s) => Ok(s@),
        _ => Err(spec_err_here(DecodeKind::ExpectedString)),
    }
}

pub open spec fn spec_str_list(elems: Seq<JsonValue>) -> Result<Seq<Seq<char>>, SpecDecodeErr> {
    spec_list(elems, |v: JsonValue| spec_str_elem(v))
}

/// Decodes an array of strings.
pub fn decode_str_list(elems: &Vec<JsonValue>) -> (r: Result<Vec<String>, DecodeError>)
    ensures
        decode_gives(r, spec_str_list(elems@)),
{
    let ghost f = |v: JsonValue| spec_str_elem(v);
    let mut out: Vec<String> = Vec::new();
    let n = elems.len();
    let mut i: usize = 0;
    proof {
        assert(elems@.take(0) =~= Seq::<JsonValue>::empty());
        assert(out.deep_view() =~= Seq::<Seq<char>>::empty());
    }
    while i < n
        invariant
            n == elems@.len(),
            i <= n,
            f == (|v: JsonValue| spec_str_elem(v)),
            spec_list(elems@.take(i as int), f) == Ok::<Seq<Seq<char>>, SpecDecodeErr>(
                out.deep_view(),
            ),
        decreases n - i,
    {
        match &elems[i] {
            JsonValue::Str(s) => {
                let ghost prev = out.deep_view();
                out.push(s.clone());
                proof {
                    lemma_list_snoc(elems@, f, i as int);
                    assert(out.deep_view() =~= prev.push(s@));
                }
            },
            _ => {
                proof {
                    lemma_list_first_err(elems@, f, i as int);
                }
                return Err(err_at_index(i as u64, err_here(DecodeKind::ExpectedString)));
            },
        }
        i += 1;
    }
    proof {
        assert(elems@.take(n as int) =~= elems@);
    }
    Ok(out)
}

/// Detailed information about a person.
#[derive(Debug, Clone, PartialEq, Eq)]
pub struct PersonDetails {
    /// Indicates whether the person is an adult.
    pub adult: bool,
    /// Alternative names the person is known by.
    pub also_known_as: Vec<String>,
    /// A biography of the person.
    pub biography: String,
    /// The person's birth date, if available.
    pub birthday: Option<Date>,
    /// The person's death date, if applicable.
    pub deathday: Option<Date>,
    /// The person's gender.
    pub gender: Gender,
    /// The URL of the person's homepage, if available.
    pub homepage: Option<String>,
    /// A unique identifier for the person.
    pub id: u64,
    /// The person's movie-database identifier, if available.
    pub imdb_id: Option<String>,
    /// The department the person is best known for.
    pub known_for_department: String,
    /// The person's full name.
    pub name: String,
    /// The place where the person was born, if available.
    pub place_of_birth: Option<String>,
    /// Popularity score, kept as the number's decimal text.
    pub popularity: String,
    /// The path to the person's profile image, if available.
    pub profile_path: Option<String>,
    /// The person's movie credits, if requested.
    pub credits: Option<PersonCredits>,
    /// External identifiers, if requested.
    pub external_ids: Option<Socials>,
}

pub ghost struct PersonDetailsV {
    pub adult: bool,
    pub also_known_as: Seq<Seq<char>>,
    pub biography: Seq<char>,
    pub birthday: Option<Date>,
    pub deathday: Option<Date>,
    pub gender: Gender,
    pub homepage: Option<Seq<char>>,
    pub id: u64,
    pub imdb_id: Option<Seq<char>>,
    pub known_for_department: Seq<char>,
    pub name: Seq<char>,
    pub place_of_birth: Option<Seq<char>>,
    pub popularity: Seq<char>,
    pub profile_path: Option<Seq<char>>,
    pub credits: Option<PersonCreditsV>,
    pub external_ids: Option<SocialsV>,
}

impl DeepView for PersonDetails {
    type V = PersonDetailsV;

    open spec fn deep_view(&self) -> PersonDetailsV {
        PersonDetailsV {
            adult: self.adult,
            also_known_as: self.also_known_as.deep_view(),
            biography: self.biography@,
            birthday: self.birthday.deep_view(),
            deathday: self.deathday.deep_view(),
            gender: self.gender,
            homepage: self.homepage.deep_view(),
            id: self.id,
            imdb_id: self.imdb_id.deep_view(),
            known_for_department: self.known_for_department@,
            name: self.name@,
            place_of_birth: self.place_of_birth.deep_view(),
            popularity: self.popularity@,
            profile_path: self.profile_path.deep_view(),
            credits: self.credits.deep_view(),
            external_ids: self.external_ids.deep_view(),
        }
    }
}

/// An optional embedded filmography.
pub open spec fn spec_opt_credits(fs: Seq<(String, JsonValue)>) -> Result<
    Option<PersonCreditsV>,
    SpecDecodeErr,
> {
    match spec_opt_field(fs, "credits"@) {
        None => Ok(None),
        Some(v) => match spec_person_credits(v) {
            Ok(c) => Ok(Some(c)),
            Err(e) => Err(spec_err_at("credits"@, e)),
        },
    }
}

/// An optional embedded external-identifier record.
pub open spec fn spec_opt_external_ids(fs: Seq<(String, JsonValue)>) -> Result<
    Option<SocialsV>,
    SpecDecodeErr,
> {
    match spec_opt_field(fs, "external_ids"@) {
        None => Ok(None),
        Some(v) => match spec_socials(v) {
            Ok(c) => Ok(Some(c)),
            Err(e) => Err(spec_err_at("external_ids"@, e)),
        },
    }
}

pub open spec fn spec_person_details(v: JsonValue) -> Result<PersonDetailsV, SpecDecodeErr> {
    match spec_as_obj(v) {
        Err(e) => Err(e),
        Ok(fs) => {
            let adult = spec_req_bool(fs, "adult"@);
            let also_known_as = spec_req_arr(fs, "also_known_as"@);
            let biography = spec_req_str(fs, "biography"@);
            let birthday = spec_opt_date(fs, "birthday"@);
            let deathday = spec_opt_date(fs, "deathday"@);
            let gender = spec_req_gender(fs, "gender"@);
            let homepage = spec_opt_str(fs, "homepage"@);
            let id = spec_req_u64(fs, "id"@);
            let imdb_id = spec_opt_str(fs, "imdb_id"@);
            let known_for_department = spec_req_str(fs, "known_for_department"@);
            let name = spec_req_str(fs, "name"@);
            let place_of_birth = spec_opt_str(fs, "place_of_birth"@);
            let popularity = spec_req_num_text(fs, "popularity"@);
            let profile_path = spec_opt_str(fs, "profile_path"@);
            let credits = spec_opt_credits(fs);
            let external_ids = spec_opt_external_ids(fs);
            if adult is Err {
                Err(adult->Err_0)
            } else if also_known_as is Err {
                Err(also_known_as->Err_0)
            } else {
                match spec_str_list(also_known_as->Ok_0) {
                    Err(e) => Err(spec_err_at("also_known_as"@, e)),
                    Ok(aka) => if biography is Err {
                        Err(biography->Err_0)
                    } else if birthday is Err {
                        Err(birthday->Err_0)
                    } else if deathday is Err {
                        Err(deathday->Err_0)
                    } else if gender is Err {
                        Err(gender->Err_0)
                    } else if homepage is Err {
                        Err(homepage->Err_0)
                    } else if id is Err {
                        Err(id->Err_0)
                    } else if imdb_id is Err {
                        Err(imdb_id->Err_0)
                    } else if known_for_department is Err {
                        Err(known_for_department->Err_0)
                    } else if name is Err {
                        Err(name->Err_0)
                    } else if place_of_birth is Err {
                        Err(place_of_birth->Err_0)
                    } else if popularity is Err {
                        Err(popularity->Err_0)
                    } else if profile_path is Err {
                        Err(profile_path->Err_0)
                    } else if credits is Err {
                        Err(credits->Err_0)
                    } else if external_ids is Err {
                        Err(external_ids->Err_0)
                    } else {
                        Ok(
                            PersonDetailsV {
                                adult: adult->Ok_0,
                                also_known_as: aka,
                                biography: biography->Ok_0,
                                birthday: birthday->Ok_0,
                                deathday: deathday->Ok_0,
                                gender: gender->Ok_0,
                                homepage: homepage->Ok_0,
                                id: id->Ok_0,
                                imdb_id: imdb_id->Ok_0,
                                known_for_department: known_for_department->Ok_0,
                                name: name->Ok_0,
                                place_of_birth: place_of_birth->Ok_0,
                                popularity: popularity->Ok_0,
                                profile_path: profile_path->Ok_0,
                                credits: credits->Ok_0,
                                external_ids: external_ids->Ok_0,
                            },
                        )
                    },
                }
            }
        },
    }
}

/// Decodes a person-details record.
pub fn decode_person_details(v: &JsonValue) -> (r: Result<PersonDetails, DecodeError>)
    ensures
        decode_gives(r, spec_person_details(*v)),
{
    let fields = match as_obj(v) {
        Ok(f) => f,
        Err(e) => {
            return Err(e);
        },
    };
    let adult = match req_bool(fields, "adult") {
        Ok(x) => x,
        Err(e) => {
            return Err(e);
        },
    };
    let aka_arr = match req_arr(fields, "also_known_as") {
        Ok(x) => x,
        Err(e) => {
            return Err(e);
        },
    };
    let also_known_as = match decode_str_list(aka_arr) {
        Ok(x) => x,
        Err(e) => {
            return Err(err_at("also_known_as", e));
        },
    };
    let biography = match req_str(fields, "biography") {
        Ok(x) => x,
        Err(e) => {
            return Err(e);
        },
    };
    let birthday = match opt_date(fields, "birthday") {
        Ok(x) => x,
        Err(e) => {
            return Err(e);
        },
    };
    let deathday = match opt_date(fields, "deathday") {
        Ok(x) => x,
        Err(e) => {
            return Err(e);
        },
    };
    let gender = match req_gender(fields, "gender") {
        Ok(x) => x,
        Err(e) => {
            return Err(e);
        },
    };
    let homepage = match opt_str(fields, "homepage") {
        Ok(x) => x,
        Err(e) => {
            return Err(e);
        },
    };
    let id = match req_u64(fields, "id") {
        Ok(x) => x,
        Err(e) => {
            return Err(e);
        },
    };
    let imdb_id = match opt_str(fields, "imdb_id") {
        Ok(x) => x,
        Err(e) => {
            return Err(e);
        },
    };
    let known_for_department = match req_str(fields, "known_for_department") {
        Ok(x) => x,
        Err(e) => {
            return Err(e);
        },
    };
    let name = match req_str(fields, "name") {
        Ok(x) => x,
        Err(e) => {
            return Err(e);
        },
    };
    let place_of_birth = match opt_str(fields, "place_of_birth") {
        Ok(x) => x,
        Err(e) => {
            return Err(e);
        },
    };
    let popularity = match req_num_text(fields, "popularity") {
        Ok(x) => x,
        Err(e) => {
            return Err(e);
        },
    };
    let profile_path = match opt_str(fields, "profile_path") {
        Ok(x) => x,
        Err(e) => {
            return Err(e);
        },
    };
    let credits = match opt_field(fields, "credits") {
        None => None,
        Some(cv) => match decode_person_credits(cv) {
            Ok(c) => Some(c),
            Err(e) => {
                return Err(err_at("credits", e));
            },
        },
    };
    let external_ids = match opt_field(fields, "external_ids") {
        None => None,
        Some(sv) => match decode_socials(sv) {
            Ok(s) => Some(s),
            Err(e) => {
                return Err(err_at("external_ids", e));
            },
        },
    };
    Ok(
        PersonDetails {
            adult,
            also_known_as,
            biography,
            birthday,
            deathday,
            gender,
            homepage,
            id,
            imdb_id,
            known_for_department,
            name,
            place_of_birth,
            popularity,
            profile_path,
            credits,
            external_ids,
        },
    )
}

} // verus!
