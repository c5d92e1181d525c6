//! Response-model types shared by several upstream payload shapes, with
//! their decoders from the generic JSON tree.

use vstd::prelude::*;
use crate::json::{DecodeError, DecodeKind, JsonValue, SpecDecodeErr, err_at, err_at_index, err_here, spec_err_at, spec_err_here};
use crate::decode::{
    as_obj, decode_gives, lemma_list_first_err, lemma_list_snoc, opt_str, opt_u64, req_str,
    req_u64, spec_as_obj, spec_list, spec_opt_str, spec_opt_u64, spec_req_str,
    spec_req_u64,
};

verus! {

/// A genre tag.
#[derive(Debug, Clone, PartialEq, Eq)]
pub struct Genre {
    /// Unique identifier for the genre.
    pub id: u64,
    /// Name of the genre.
    pub name: String,
}

pub ghost struct GenreV {
    pub id: u64,
    pub name: Seq<char>,
}

impl DeepView for Genre {
    type V = GenreV;

    open spec fn deep_view(&self) -> GenreV {
        GenreV { id: self.id, name: self.name@ }
    }
}

pub open spec fn spec_genre(v: JsonValue) -> Result<GenreV, SpecDecodeErr> {
    match spec_as_obj(v) {
        Err(e) => Err(e),
        Ok(fs) => {
            let id = spec_req_u64(fs, "id"@);
            let name = spec_req_str(fs, "name"@);
            if id is Err {
                Err(id->Err_0)
            } else if name is Err {
                Err(name->Err_0)
            } else {
                Ok(GenreV { id: id->Ok_0, name: name->Ok_0 })
            }
        },
    }
}

/// Decodes a genre object.
pub fn decode_genre(v: &JsonValue) -> (r: Result<Genre, DecodeError>)
    ensures
        decode_gives(r, spec_genre(*v)),
{
    let fields = match as_obj(v) {
        Ok(f) => f,
        Err(e) => {
            return Err(e);
        },
    };
    let id = match req_u64(fields, "id") {
        Ok(x) => x,
        Err(e) => {
            return Err(e);
        },
    };
    let name = match req_str(fields, "name") {
        Ok(x) => x,
        Err(e) => {
            return Err(e);
        },
    };
    Ok(Genre { id, name })
}

pub open spec fn spec_genre_list(elems: Seq<JsonValue>) -> Result<Seq<GenreV>, SpecDecodeErr> {
    spec_list(elems, |v: JsonValue| spec_genre(v))
}

/// Decodes an array of genres.
pub fn decode_genre_list(elems: &Vec<JsonValue>) -> (r: Result<Vec<Genre>, DecodeError>)
    ensures
        decode_gives(r, spec_genre_list(elems@)),
{
    let ghost f = |v: JsonValue| spec_genre(v);
    let mut out: Vec<Genre> = Vec::new();
    let n = elems.len();
    let mut i: usize = 0;
    proof {
        assert(elems@.take(0) =~= Seq::<JsonValue>::empty());
        assert(out.deep_view() =~= Seq::<GenreV>::empty());
    }
    while i < n
        invariant
            n == elems@.len(),
            i <= n,
            f == (|v: JsonValue| spec_genre(v)),
            spec_list(elems@.take(i as int), f) == Ok::<Seq<GenreV>, SpecDecodeErr>(
                out.deep_view(),
            ),
        decreases n - i,
    {
        match decode_genre(&elems[i]) {
            Ok(g) => {
                let ghost prev = out.deep_view();
                out.push(g);
                proof {
                    lemma_list_snoc(elems@, f, i as int);
                    assert(out.deep_view() =~= prev.push(g.deep_view()));
                }
            },
            Err(e) => {
                proof {
                    lemma_list_first_err(elems@, f, i as int);
                }
                return Err(err_at_index(i as u64, e));
            },
        }
        i += 1;
    }
    proof {
        assert(elems@.take(n as int) =~= elems@);
    }
    Ok(out)
}

/// A production company involved in a movie.
#[derive(Debug, Clone, PartialEq, Eq)]
pub struct ProductionCompany {
    /// Unique identifier for the company.
    pub id: u64,
    /// Path to the company's logo.
    pub logo_path: Option<String>,
    /// Name of the company.
    pub name: String,
    /// Country of origin.
    pub origin_country: String,
}

pub ghost struct ProductionCompanyV {
    pub id: u64,
    pub logo_path: Option<Seq<char>>,
    pub name: Seq<char>,
    pub origin_country: Seq<char>,
}

impl DeepView for ProductionCompany {
    type V = ProductionCompanyV;

    open spec fn deep_view(&self) -> ProductionCompanyV {
        ProductionCompanyV {
            id: self.id,
            logo_path: self.logo_path.deep_view(),
            name: self.name@,
            origin_country: self.origin_country@,
        }
    }
}

pub open spec fn spec_production_company(v: JsonValue) -> Result<
    ProductionCompanyV,
    SpecDecodeErr,
> {
    match spec_as_obj(v) {
        Err(e) => Err(e),
        Ok(fs) => {
            let id = spec_req_u64(fs, "id"@);
            let logo_path = spec_opt_str(fs, "logo_path"@);
            let name = spec_req_str(fs, "name"@);
            let origin_country = spec_req_str(fs, "origin_country"@);
            if id is Err {
                Err(id->Err_0)
            } else if logo_path is Err {
                Err(logo_path->Err_0)
            } else if name is Err {
                Err(name->Err_0)
            } else if origin_country is Err {
                Err(origin_country->Err_0)
            } else {
                Ok(
                    ProductionCompanyV {
                        id: id->Ok_0,
                        logo_path: logo_path->Ok_0,
                        name: name->Ok_0,
                        origin_country: origin_country->Ok_0,
                    },
                )
            }
        },
    }
}

/// Decodes a production-company object.
pub fn decode_production_company(v: &JsonValue) -> (r: Result<ProductionCompany, DecodeError>)
    ensures
        decode_gives(r, spec_production_company(*v)),
{
    let fields = match as_obj(v) {
        Ok(f) => f,
        Err(e) => {
            return Err(e);
        },
    };
    let id = match req_u64(fields, "id") {
        Ok(x) => x,
        Err(e) => {
            return Err(e);
        },
    };
    let logo_path = match opt_str(fields, "logo_path") {
        Ok(x) => x,
        Err(e) => {
            return Err(e);
        },
    };
    let name = match req_str(fields, "name") {
        Ok(x) => x,
        Err(e) => {
            return Err(e);
        },
    };
    let origin_country = match req_str(fields, "origin_country") {
        Ok(x) => x,
        Err(e) => {
            return Err(e);
        },
    };
    Ok(ProductionCompany { id, logo_path, name, origin_country })
}

pub open spec fn spec_production_company_list(elems: Seq<JsonValue>) -> Result<
    Seq<ProductionCompanyV>,
    SpecDecodeErr,
> {
    spec_list(elems, |v: JsonValue| spec_production_company(v))
}

/// Decodes an array of production companies.
pub fn decode_production_company_list(elems: &Vec<JsonValue>) -> (r: Result<
    Vec<ProductionCompany>,
    DecodeError,
>)
    ensures
        decode_gives(r, spec_production_company_list(elems@)),
{
    let ghost f = |v: JsonValue| spec_production_company(v);
    let mut out: Vec<ProductionCompany> = Vec::new();
    let n = elems.len();
    let mut i: usize = 0;
    proof {
        assert(elems@.take(0) =~= Seq::<JsonValue>::empty());
        assert(out.deep_view() =~= Seq::<ProductionCompanyV>::empty());
    }
    while i < n
        invariant
            n == elems@.len(),
            i <= n,
            f == (|v: JsonValue| spec_production_company(v)),
            spec_list(elems@.take(i as int), f) == Ok::<Seq<ProductionCompanyV>, SpecDecodeErr>(
                out.deep_view(),
            ),
        decreases n - i,
    {
        match decode_production_company(&elems[i]) {
            Ok(g) => {
                let ghost prev = out.deep_view();
                out.push(g);
                proof {
                    lemma_list_snoc(elems@, f, i as int);
                    assert(out.deep_view() =~= prev.push(g.deep_view()));
                }
            },
            Err(e) => {
                proof {
                    lemma_list_first_err(elems@, f, i as int);
                }
                return Err(err_at_index(i as u64, e));
            },
        }
        i += 1;
    }
    proof {
        assert(elems@.take(n as int) =~= elems@);
    }
    Ok(out)
}

/// A country involved in movie production.
#[derive(Debug, Clone, PartialEq, Eq)]
pub struct ProductionCountry {
    /// ISO 3166-1 country code.
    pub iso_3166_1: String,
    /// Name of the country.
    pub name: String,
}

pub ghost struct ProductionCountryV {
    pub iso_3166_1: Seq<char>,
    pub name: Seq<char>,
}

impl DeepView for ProductionCountry {
    type V = ProductionCountryV;

    open spec fn deep_view(&self) -> ProductionCountryV {
        ProductionCountryV { iso_3166_1: self.iso_3166_1@, name: self.name@ }
    }
}

pub open spec fn spec_production_country(v: JsonValue) -> Result<
    ProductionCountryV,
    SpecDecodeErr,
> {
    match spec_as_obj(v) {
        Err(e) => Err(e),
        Ok(fs) => {
            let iso = spec_req_str(fs, "iso_3166_1"@);
            let name = spec_req_str(fs, "name"@);
            if iso is Err {
                Err(iso->Err_0)
            } else if name is Err {
                Err(name->Err_0)
            } else {
                Ok(ProductionCountryV { iso_3166_1: iso->Ok_0, name: name->Ok_0 })
            }
        },
    }
}

/// Decodes a production-country object.
pub fn decode_production_country(v: &JsonValue) -> (r: Result<ProductionCountry, DecodeError>)
    ensures
        decode_gives(r, spec_production_country(*v)),
{
    let fields = match as_obj(v) {
        Ok(f) => f,
        Err(e) => {
            return Err(e);
        },
    };
    let iso_3166_1 = match req_str(fields, "iso_3166_1") {
        Ok(x) => x,
        Err(e) => {
            return Err(e);
        },
    };
    let name = match req_str(fields, "name") {
        Ok(x) => x,
        Err(e) => {
            return Err(e);
        },
    };
    Ok(ProductionCountry { iso_3166_1, name })
}

pub open spec fn spec_production_country_list(elems: Seq<JsonValue>) -> Result<
    Seq<ProductionCountryV>,
    SpecDecodeErr,
> {
    spec_list(elems, |v: JsonValue| spec_production_country(v))
}

/// Decodes an array of production countries.
pub fn decode_production_country_list(elems: &Vec<JsonValue>) -> (r: Result<
    Vec<ProductionCountry>,
    DecodeError,
>)
    ensures
        decode_gives(r, spec_production_country_list(elems@)),
{
    let ghost f = |v: JsonValue| spec_production_country(v);
    let mut out: Vec<ProductionCountry> = Vec::new();
    let n = elems.len();
    let mut i: usize = 0;
    proof {
        assert(elems@.take(0) =~= Seq::<JsonValue>::empty());
        assert(out.deep_view() =~= Seq::<ProductionCountryV>::empty());
    }
    while i < n
        invariant
            n == elems@.len(),
            i <= n,
            f == (|v: JsonValue| spec_production_country(v)),
            spec_list(elems@.take(i as int), f) == Ok::<Seq<ProductionCountryV>, SpecDecodeErr>(
                out.deep_view(),
            ),
        decreases n - i,
    {
        match decode_production_country(&elems[i]) {
            Ok(g) => {
                let ghost prev = out.deep_view();
                out.push(g);
                proof {
                    lemma_list_snoc(elems@, f, i as int);
                    assert(out.deep_view() =~= prev.push(g.deep_view()));
                }
            },
            Err(e) => {
                proof {
                    lemma_list_first_err(elems@, f, i as int);
                }
                return Err(err_at_index(i as u64, e));
            },
        }
        i += 1;
    }
    proof {
        assert(elems@.take(n as int) =~= elems@);
    }
    Ok(out)
}

/// A language spoken in a movie.
#[derive(Debug, Clone, PartialEq, Eq)]
pub struct Language {
    /// English name of the language.
    pub english_name: String,
    /// ISO 639-1 language code.
    pub iso_639_1: String,
    /// Name of the language.
    pub name: String,
}

pub ghost struct LanguageV {
    pub english_name: Seq<char>,
    pub iso_639_1: Seq<char>,
    pub name: Seq<char>,
}

impl DeepView for Language {
    type V = LanguageV;

    open spec fn deep_view(&self) -> LanguageV {
        LanguageV { english_name: self.english_name@, iso_639_1: self.iso_639_1@, name: self.name@ }
    }
}

pub open spec fn spec_language(v: JsonValue) -> Result<LanguageV, SpecDecodeErr> {
    match spec_as_obj(v) {
        Err(e) => Err(e),
        Ok(fs) => {
            let english_name = spec_req_str(fs, "english_name"@);
            let iso = spec_req_str(fs, "iso_639_1"@);
            let name = spec_req_str(fs, "name"@);
            if english_name is Err {
                Err(english_name->Err_0)
            } else if iso is Err {
                Err(iso->Err_0)
            } else if name is Err {
                Err(name->Err_0)
            } else {
                Ok(
                    LanguageV {
                        english_name: english_name->Ok_0,
                        iso_639_1: iso->Ok_0,
                        name: name->Ok_0,
                    },
                )
            }
        },
    }
}

/// Decodes a spoken-language object.
pub fn decode_language(v: &JsonValue) -> (r: Result<Language, DecodeError>)
    ensures
        decode_gives(r, spec_language(*v)),
{
    let fields = match as_obj(v) {
        Ok(f) => f,
        Err(e) => {
            return Err(e);
        },
    };
    let english_name = match req_str(fields, "english_name") {
        Ok(x) => x,
        Err(e) => {
            return Err(e);
        },
    };
    let iso_639_1 = match req_str(fields, "iso_639_1") {
        Ok(x) => x,
        Err(e) => {
            return Err(e);
        },
    };
    let name = match req_str(fields, "name") {
        Ok(x) => x,
        Err(e) => {
            return Err(e);
        },
    };
    Ok(Language { english_name, iso_639_1, name })
}

pub open spec fn spec_language_list(elems: Seq<JsonValue>) -> Result<Seq<LanguageV>, SpecDecodeErr> {
    spec_list(elems, |v: JsonValue| spec_language(v))
}

/// Decodes an array of spoken languages.
pub fn decode_language_list(elems: &Vec<JsonValue>) -> (r: Result<Vec<Language>, DecodeError>)
    ensures
        decode_gives(r, spec_language_list(elems@)),
{
    let ghost f = |v: JsonValue| spec_language(v);
    let mut out: Vec<Language> = Vec::new();
    let n = elems.len();
    let mut i: usize = 0;
    proof {
        assert(elems@.take(0) =~= Seq::<JsonValue>::empty());
        assert(out.deep_view() =~= Seq::<LanguageV>::empty());
    }
    while i < n
        invariant
            n == elems@.len(),
            i <= n,
            f == (|v: JsonValue| spec_language(v)),
            spec_list(elems@.take(i as int), f) == Ok::<Seq<LanguageV>, SpecDecodeErr>(
                out.deep_view(),
            ),
        decreases n - i,
    {
        match decode_language(&elems[i]) {
            Ok(g) => {
                let ghost prev = out.deep_view();
                out.push(g);
                proof {
                    lemma_list_snoc(elems@, f, i as int);
                    assert(out.deep_view() =~= prev.push(g.deep_view()));
                }
            },
            Err(e) => {
                proof {
                    lemma_list_first_err(elems@, f, i as int);
                }
                return Err(err_at_index(i as u64, e));
            },
        }
        i += 1;
    }
    proof {
        assert(elems@.take(n as int) =~= elems@);
    }
    Ok(out)
}

/// A person's gender as the upstream provider codes it.
#[derive(Debug, Clone, Copy, PartialEq, Eq, Structural)]
pub enum Gender {
    /// Code zero: not specified.
    NotSpecified,
    /// Code one.
    Male,
    /// Code two.
    Female,
    /// Code three.
    NonBinary,
}

impl DeepView for Gender {
    type V = Gender;

    open spec fn deep_view(&self) -> Gender {
        *self
    }
}

/// The gender a numeric code stands for.
pub open spec fn spec_gender_of(u: u64) -> Option<Gender> {
    if u == 0 {
        Some(Gender::NotSpecified)
    } else if u == 1 {
        Some(Gender::Male)
    } else if u == 2 {
        Some(Gender::Female)
    } else if u == 3 {
        Some(Gender::NonBinary)
    } else {
        None
    }
}

impl Gender {
    /// The numeric code the upstream provider uses for this gender.
    pub fn code(&self) -> (r: u64)
        ensures
            spec_gender_of(r) == Some(*self),
    {
        match self {
            Gender::NotSpecified => 0,
            Gender::Male => 1,
            Gender::Female => 2,
            Gender::NonBinary => 3,
        }
    }
}

/// A required gender field, coded as an integer from zero to three.
pub open spec fn spec_req_gender(fields: Seq<(String, JsonValue)>, name: Seq<char>) -> Result<
    Gender,
    SpecDecodeErr,
> {
    match spec_req_u64(fields, name) {
        Err(_) => Err(spec_err_at(name, spec_err_here(DecodeKind::ExpectedGender))),
        Ok(u) => match spec_gender_of(u) {
            Some(g) => Ok(g),
            None => Err(spec_err_at(name, spec_err_here(DecodeKind::ExpectedGender))),
        },
    }
}

pub fn req_gender(fields: &Vec<(String, JsonValue)>, name: &str) -> (r: Result<
    Gender,
    DecodeError,
>)
    ensures
        decode_gives(r, spec_req_gender(fields@, name@)),
{
    let u = match req_u64(fields, name) {
        Ok(u) => u,
        Err(_) => {
            return Err(err_at(name, err_here(DecodeKind::ExpectedGender)));
        },
    };
    match u {
        0 => Ok(Gender::NotSpecified),
        1 => Ok(Gender::Male),
        2 => Ok(Gender::Female),
        3 => Ok(Gender::NonBinary),
        _ => Err(err_at(name, err_here(DecodeKind::ExpectedGender))),
    }
}

/// External social-media and database identifiers attached to a person.
#[derive(Debug, Clone, PartialEq, Eq)]
pub struct Socials {
    pub freebase_mid: Option<String>,
    pub freebase_id: Option<String>,
    pub imdb_id: Option<String>,
    pub tvrage_id: Option<u64>,
    pub wikidata_id: Option<String>,
    pub facebook_id: Option<String>,
    pub instagram_id: Option<String>,
    pub tiktok_id: Option<String>,
    pub twitter_id: Option<String>,
    pub youtube_id: Option<String>,
}

pub ghost struct SocialsV {
    pub freebase_mid: Option<Seq<char>>,
    pub freebase_id: Option<Seq<char>>,
    pub imdb_id: Option<Seq<char>>,
    pub tvrage_id: Option<u64>,
    pub wikidata_id: Option<Seq<char>>,
    pub facebook_id: Option<Seq<char>>,
    pub instagram_id: Option<Seq<char>>,
    pub tiktok_id: Option<Seq<char>>,
    pub twitter_id: Option<Seq<char>>,
    pub youtube_id: Option<Seq<char>>,
}

impl DeepView for Socials {
    type V = SocialsV;

    open spec fn deep_view(&self) -> SocialsV {
        SocialsV {
            freebase_mid: self.freebase_mid.deep_view(),
            freebase_id: self.freebase_id.deep_view(),
            imdb_id: self.imdb_id.deep_view(),
            tvrage_id: self.tvrage_id.deep_view(),
            wikidata_id: self.wikidata_id.deep_view(),
            facebook_id: self.facebook_id.deep_view(),
            instagram_id: self.instagram_id.deep_view(),
            tiktok_id: self.tiktok_id.deep_view(),
            twitter_id: self.twitter_id.deep_view(),
            youtube_id: self.youtube_id.deep_view(),
        }
    }
}

pub open spec fn spec_socials(v: JsonValue) -> Result<SocialsV, SpecDecodeErr> {
    match spec_as_obj(v) {
        Err(e) => Err(e),
        Ok(fs) => {
            let freebase_mid = spec_opt_str(fs, "freebase_mid"@);
            let freebase_id = spec_opt_str(fs, "freebase_id"@);
            let imdb_id = spec_opt_str(fs, "imdb_id"@);
            let tvrage_id = spec_opt_u64(fs, "tvrage_id"@);
            let wikidata_id = spec_opt_str(fs, "wikidata_id"@);
            let facebook_id = spec_opt_str(fs, "facebook_id"@);
            let instagram_id = spec_opt_str(fs, "instagram_id"@);
            let tiktok_id = spec_opt_str(fs, "tiktok_id"@);
            let twitter_id = spec_opt_str(fs, "twitter_id"@);
            let youtube_id = spec_opt_str(fs, "youtube_id"@);
            if freebase_mid is Err {
                Err(freebase_mid->Err_0)
            } else if freebase_id is Err {
                Err(freebase_id->Err_0)
            } else if imdb_id is Err {
                Err(imdb_id->Err_0)
            } else if tvrage_id is Err {
                Err(tvrage_id->Err_0)
            } else if wikidata_id is Err {
                Err(wikidata_id->Err_0)
            } else if facebook_id is Err {
                Err(facebook_id->Err_0)
            } else if instagram_id is Err {
                Err(instagram_id->Err_0)
            } else if tiktok_id is Err {
                Err(tiktok_id->Err_0)
            } else if twitter_id is Err {
                Err(twitter_id->Err_0)
            } else if youtube_id is Err {
                Err(youtube_id->Err_0)
            } else {
                Ok(
                    SocialsV {
                        freebase_mid: freebase_mid->Ok_0,
                        freebase_id: freebase_id->Ok_0,
                        imdb_id: imdb_id->Ok_0,
                        tvrage_id: tvrage_id->Ok_0,
                        wikidata_id: wikidata_id->Ok_0,
                        facebook_id: facebook_id->Ok_0,
                        instagram_id: instagram_id->Ok_0,
                        tiktok_id: tiktok_id->Ok_0,
                        twitter_id: twitter_id->Ok_0,
                        youtube_id: youtube_id->Ok_0,
                    },
                )
            }
        },
    }
}

/// Decodes an external-identifier record.
pub fn decode_socials(v: &JsonValue) -> (r: Result<Socials, DecodeError>)
    ensures
        decode_gives(r, spec_socials(*v)),
{
    let fields = match as_obj(v) {
        Ok(f) => f,
        Err(e) => {
            return Err(e);
        },
    };
    let freebase_mid = match opt_str(fields, "freebase_mid") {
        Ok(x) => x,
        Err(e) => {
            return Err(e);
        },
    };
    let freebase_id = match opt_str(fields, "freebase_id") {
        Ok(x) => x,
        Err(e) => {
            return Err(e);
        },
    };
    let imdb_id = match opt_str(fields, "imdb_id") {
        Ok(x) => x,
        Err(e) => {
            return Err(e);
        },
    };
    let tvrage_id = match opt_u64(fields, "tvrage_id") {
        Ok(x) => x,
        Err(e) => {
            return Err(e);
        },
    };
    let wikidata_id = match opt_str(fields, "wikidata_id") {
        Ok(x) => x,
        Err(e) => {
            return Err(e);
        },
    };
    let facebook_id = match opt_str(fields, "facebook_id") {
        Ok(x) => x,
        Err(e) => {
            return Err(e);
        },
    };
    let instagram_id = match opt_str(fields, "instagram_id") {
        Ok(x) => x,
        Err(e) => {
            return Err(e);
        },
    };
    let tiktok_id = match opt_str(fields, "tiktok_id") {
        Ok(x) => x,
        Err(e) => {
            return Err(e);
        },
    };
    let twitter_id = match opt_str(fields, "twitter_id") {
        Ok(x) => x,
        Err(e) => {
            return Err(e);
        },
    };
    let youtube_id = match opt_str(fields, "youtube_id") {
        Ok(x) => x,
        Err(e) => {
            return Err(e);
        },
    };
    Ok(
        Socials {
            freebase_mid,
            freebase_id,
            imdb_id,
            tvrage_id,
            wikidata_id,
            facebook_id,
            instagram_id,
            tiktok_id,
            twitter_id,
            youtube_id,
        },
    )
}

/// A paginated list retrieved from a search or listing endpoint.
#[derive(Debug, Clone, PartialEq, Eq)]
pub struct PaginatedSearchResult<T> {
    /// Current page number of results.
    pub page: u64,
    /// The entries of this page.
    pub results: Vec<T>,
    /// Total number of pages available.
    pub total_pages: u64,
    /// Total number of results found.
    pub total_results: u64,
}

pub ghost struct PaginatedSearchResultV<TV> {
    pub page: u64,
    pub results: Seq<TV>,
    pub total_pages: u64,
    pub total_results: u64,
}

impl<T: DeepView> DeepView for PaginatedSearchResult<T> {
    type V = PaginatedSearchResultV<T::V>;

    open spec fn deep_view(&self) -> PaginatedSearchResultV<T::V> {
        PaginatedSearchResultV {
            page: self.page,
            results: self.results.deep_view(),
            total_pages: self.total_pages,
            total_results: self.total_results,
        }
    }
}

} // verus!
