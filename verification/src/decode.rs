//! Field-level helpers for checking a JSON tree against an expected shape.
//! Each helper pins both the decoded value and the exact error, including
//! the JSON path at which a mismatch is reported.

use vstd::prelude::*;
use crate::json::{
    DecodeError, DecodeKind, JsonValue, SpecDecodeErr, err_at, err_here, lookup_field, spec_err_at,
    spec_err_at_index, spec_err_here, spec_lookup,
};
use crate::date::{Date, parse_date, spec_parse_date};

verus! {

/// The exec decode result `r` matches the spec-level decode result `s`:
/// same success or failure, same value up to views, same error.
pub open spec fn decode_gives<T: DeepView>(
    r: Result<T, DecodeError>,
    s: Result<T::V, SpecDecodeErr>,
) -> bool {
    match s {
        Ok(sv) => r matches Ok(m) && m.deep_view() == sv,
        Err(e) => r matches Err(x) && x@ == e,
    }
}

/// A required string field.
pub open spec fn spec_req_str(fields: Seq<(String, JsonValue)>, name: Seq<char>) -> Result<
    Seq<char>,
    SpecDecodeErr,
> {
    match spec_lookup(fields, name) {
        None => Err(spec_err_at(name, spec_err_here(DecodeKind::Missing))),
        Some(JsonValue::Str(s)) => Ok(s@),
        Some(_) => Err(spec_err_at(name, spec_err_here(DecodeKind::ExpectedString))),
    }
}

pub fn req_str(fields: &Vec<(String, JsonValue)>, name: &str) -> (r: Result<String, DecodeError>)
    ensures
        decode_gives(r, spec_req_str(fields@, name@)),
{
    match lookup_field(fields, name) {
        None => Err(err_at(name, err_here(DecodeKind::Missing))),
        Some(JsonValue::Str(s)) => Ok(s.clone()),
        Some(_) => Err(err_at(name, err_here(DecodeKind::ExpectedString))),
    }
}

/// An optional string field: an absent field and a JSON null both stand
/// for no value.
pub open spec fn spec_opt_str(fields: Seq<(String, JsonValue)>, name: Seq<char>) -> Result<
    Option<Seq<char>>,
    SpecDecodeErr,
> {
    match spec_lookup(fields, name) {
        None => Ok(None),
        Some(JsonValue::Null) => Ok(None),
        Some(JsonValue::Str(s)) => Ok(Some(s@)),
        Some(_) => Err(spec_err_at(name, spec_err_here(DecodeKind::ExpectedString))),
    }
}

pub fn opt_str(fields: &Vec<(String, JsonValue)>, name: &str) -> (r: Result<
    Option<String>,
    DecodeError,
>)
    ensures
        decode_gives(r, spec_opt_str(fields@, name@)),
{
    match lookup_field(fields, name) {
        None => Ok(None),
        Some(JsonValue::Null) => Ok(None),
        Some(JsonValue::Str(s)) => Ok(Some(s.clone())),
        Some(_) => Err(err_at(name, err_here(DecodeKind::ExpectedString))),
    }
}

/// A required non-negative integer field.
pub open spec fn spec_req_u64(fields: Seq<(String, JsonValue)>, name: Seq<char>) -> Result<
    u64,
    SpecDecodeErr,
> {
    match spec_lookup(fields, name) {
        None => Err(spec_err_at(name, spec_err_here(DecodeKind::Missing))),
        Some(JsonValue::Num(n)) => match n.as_u64 {
            Some(u) => Ok(u),
            None => Err(spec_err_at(name, spec_err_here(DecodeKind::ExpectedU64))),
        },
        Some(_) => Err(spec_err_at(name, spec_err_here(DecodeKind::ExpectedU64))),
    }
}

pub fn req_u64(fields: &Vec<(String, JsonValue)>, name: &str) -> (r: Result<u64, DecodeError>)
    ensures
        decode_gives(r, spec_req_u64(fields@, name@)),
{
    match lookup_field(fields, name) {
        None => Err(err_at(name, err_here(DecodeKind::Missing))),
        Some(JsonValue::Num(n)) => match n.as_u64 {
            Some(u) => Ok(u),
            None => Err(err_at(name, err_here(DecodeKind::ExpectedU64))),
        },
        Some(_) => Err(err_at(name, err_here(DecodeKind::ExpectedU64))),
    }
}

/// An optional non-negative integer field.
pub open spec fn spec_opt_u64(fields: Seq<(String, JsonValue)>, name: Seq<char>) -> Result<
    Option<u64>,
    SpecDecodeErr,
> {
    match spec_lookup(fields, name) {
        None => Ok(None),
        Some(JsonValue::Null) => Ok(None),
        Some(JsonValue::Num(n)) => match n.as_u64 {
            Some(u) => Ok(Some(u)),
            None => Err(spec_err_at(name, spec_err_here(DecodeKind::ExpectedU64))),
        },
        Some(_) => Err(spec_err_at(name, spec_err_here(DecodeKind::ExpectedU64))),
    }
}

pub fn opt_u64(fields: &Vec<(String, JsonValue)>, name: &str) -> (r: Result<
    Option<u64>,
    DecodeError,
>)
    ensures
        decode_gives(r, spec_opt_u64(fields@, name@)),
{
    match lookup_field(fields, name) {
        None => Ok(None),
        Some(JsonValue::Null) => Ok(None),
        Some(JsonValue::Num(n)) => match n.as_u64 {
            Some(u) => Ok(Some(u)),
            None => Err(err_at(name, err_here(DecodeKind::ExpectedU64))),
        },
        Some(_) => Err(err_at(name, err_here(DecodeKind::ExpectedU64))),
    }
}

/// A required boolean field.
pub open spec fn spec_req_bool(fields: Seq<(String, JsonValue)>, name: Seq<char>) -> Result<
    bool,
    SpecDecodeErr,
> {
    match spec_lookup(fields, name) {
        None => Err(spec_err_at(name, spec_err_here(DecodeKind::Missing))),
        Some(JsonValue::Bool(b)) => Ok(b),
        Some(_) => Err(spec_err_at(name, spec_err_here(DecodeKind::ExpectedBool))),
    }
}

pub fn req_bool(fields: &Vec<(String, JsonValue)>, name: &str) -> (r: Result<bool, DecodeError>)
    ensures
        decode_gives(r, spec_req_bool(fields@, name@)),
{
    match lookup_field(fields, name) {
        None => Err(err_at(name, err_here(DecodeKind::Missing))),
        Some(JsonValue::Bool(b)) => Ok(*b),
        Some(_) => Err(err_at(name, err_here(DecodeKind::ExpectedBool))),
    }
}

/// A required numeric field whose value is kept as its decimal text; this
/// checks that the field holds a number without forcing it to be integral.
pub open spec fn spec_req_num_text(fields: Seq<(String, JsonValue)>, name: Seq<char>) -> Result<
    Seq<char>,
    SpecDecodeErr,
> {
    match spec_lookup(fields, name) {
        None => Err(spec_err_at(name, spec_err_here(DecodeKind::Missing))),
        Some(JsonValue::Num(n)) => Ok(n.text@),
        Some(_) => Err(spec_err_at(name, spec_err_here(DecodeKind::ExpectedNumber))),
    }
}

pub fn req_num_text(fields: &Vec<(String, JsonValue)>, name: &str) -> (r: Result<
    String,
    DecodeError,
>)
    ensures
        decode_gives(r, spec_req_num_text(fields@, name@)),
{
    match lookup_field(fields, name) {
        None => Err(err_at(name, err_here(DecodeKind::Missing))),
        Some(JsonValue::Num(n)) => Ok(n.text.clone()),
        Some(_) => Err(err_at(name, err_here(DecodeKind::ExpectedNumber))),
    }
}

/// An optional date field, written as a `YEAR-MONTH-DAY` string.
pub open spec fn spec_opt_date(fields: Seq<(String, JsonValue)>, name: Seq<char>) -> Result<
    Option<Date>,
    SpecDecodeErr,
> {
    match spec_lookup(fields, name) {
        None => Ok(None),
        Some(JsonValue::Null) => Ok(None),
        Some(JsonValue::Str(s)) => match spec_parse_date(s@) {
            Some(d) => Ok(Some(d)),
            None => Err(spec_err_at(name, spec_err_here(DecodeKind::ExpectedDate))),
        },
        Some(_) => Err(spec_err_at(name, spec_err_here(DecodeKind::ExpectedString))),
    }
}

pub fn opt_date(fields: &Vec<(String, JsonValue)>, name: &str) -> (r: Result<
    Option<Date>,
    DecodeError,
>)
    ensures
        decode_gives(r, spec_opt_date(fields@, name@)),
{
    match lookup_field(fields, name) {
        None => Ok(None),
        Some(JsonValue::Null) => Ok(None),
        Some(JsonValue::Str(s)) => match parse_date(s.as_str()) {
            Some(d) => Ok(Some(d)),
            None => Err(err_at(name, err_here(DecodeKind::ExpectedDate))),
        },
        Some(_) => Err(err_at(name, err_here(DecodeKind::ExpectedString))),
    }
}

/// An optional nested value: an absent field and a JSON null both stand
/// for no value; anything else is handed back for further decoding.
pub open spec fn spec_opt_field(fields: Seq<(String, JsonValue)>, name: Seq<char>) -> Option<
    JsonValue,
> {
    match spec_lookup(fields, name) {
        None => None,
        Some(JsonValue::Null) => None,
        Some(v) => Some(v),
    }
}

pub fn opt_field<'a>(fields: &'a Vec<(String, JsonValue)>, name: &str) -> (r: Option<
    &'a JsonValue,
>)
    ensures
        match r {
            Some(v) => spec_opt_field(fields@, name@) == Some(*v),
            None => spec_opt_field(fields@, name@) is None,
        },
{
    match lookup_field(fields, name) {
        None => None,
        Some(JsonValue::Null) => None,
        Some(v) => Some(v),
    }
}

/// A required array field.
pub open spec fn spec_req_arr(fields: Seq<(String, JsonValue)>, name: Seq<char>) -> Result<
    Seq<JsonValue>,
    SpecDecodeErr,
> {
    match spec_lookup(fields, name) {
        None => Err(spec_err_at(name, spec_err_here(DecodeKind::Missing))),
        Some(JsonValue::Arr(a)) => Ok(a@),
        Some(_) => Err(spec_err_at(name, spec_err_here(DecodeKind::ExpectedArray))),
    }
}

pub fn req_arr<'a>(fields: &'a Vec<(String, JsonValue)>, name: &str) -> (r: Result<
    &'a Vec<JsonValue>,
    DecodeError,
>)
    ensures
        match spec_req_arr(fields@, name@) {
            Ok(s) => r matches Ok(a) && a@ == s,
            Err(e) => r matches Err(x) && x@ == e,
        },
{
    match lookup_field(fields, name) {
        None => Err(err_at(name, err_here(DecodeKind::Missing))),
        Some(JsonValue::Arr(a)) => Ok(a),
        Some(_) => Err(err_at(name, err_here(DecodeKind::ExpectedArray))),
    }
}

/// Decodes every element of a JSON array with `f`, stopping at the first
/// failure, whose path gains the element's index.
pub open spec fn spec_list<A>(
    elems: Seq<JsonValue>,
    f: spec_fn(JsonValue) -> Result<A, SpecDecodeErr>,
) -> Result<Seq<A>, SpecDecodeErr>
    decreases elems.len(),
{
    if elems.len() == 0 {
        Ok(Seq::empty())
    } else {
        match spec_list(elems.drop_last(), f) {
            Err(e) => Err(e),
            Ok(init) => match f(elems.last()) {
                Ok(a) => Ok(init.push(a)),
                Err(e) => Err(spec_err_at_index((elems.len() - 1) as u64, e)),
            },
        }
    }
}

/// When every element before `i` decodes and element `i` fails, the whole
/// list fails with the element's error at index `i`.
pub proof fn lemma_list_first_err<A>(
    elems: Seq<JsonValue>,
    f: spec_fn(JsonValue) -> Result<A, SpecDecodeErr>,
    i: int,
)
    requires
        0 <= i < elems.len(),
        spec_list(elems.take(i), f) is Ok,
        f(elems[i]) is Err,
    ensures
        spec_list(elems, f) == Err::<Seq<A>, SpecDecodeErr>(
            spec_err_at_index(i as u64, f(elems[i])->Err_0),
        ),
    decreases elems.len(),
{
    if i == elems.len() - 1 {
        assert(elems.take(i) =~= elems.drop_last());
    } else {
        assert(elems.drop_last().take(i) =~= elems.take(i));
        assert(elems.drop_last()[i] == elems[i]);
        lemma_list_first_err(elems.drop_last(), f, i);
    }
}

/// Decoding one more element extends a successful list decode by one.
pub proof fn lemma_list_snoc<A>(
    elems: Seq<JsonValue>,
    f: spec_fn(JsonValue) -> Result<A, SpecDecodeErr>,
    i: int,
)
    requires
        0 <= i < elems.len(),
        spec_list(elems.take(i), f) is Ok,
        f(elems[i]) is Ok,
    ensures
        spec_list(elems.take(i + 1), f) == Ok::<Seq<A>, SpecDecodeErr>(
            spec_list(elems.take(i), f)->Ok_0.push(f(elems[i])->Ok_0),
        ),
{
    assert(elems.take(i + 1).drop_last() =~= elems.take(i));
    assert(elems.take(i + 1).last() == elems[i]);
}

/// The field list of a value that must be a JSON object.
pub open spec fn spec_as_obj(v: JsonValue) -> Result<Seq<(String, JsonValue)>, SpecDecodeErr> {
    match v {
        JsonValue::Obj(fields) => Ok(fields@),
        _ => Err(spec_err_here(DecodeKind::ExpectedObject)),
    }
}

pub fn as_obj<'a>(v: &'a JsonValue) -> (r: Result<&'a Vec<(String, JsonValue)>, DecodeError>)
    ensures
        match spec_as_obj(*v) {
            Ok(s) => r matches Ok(fields) && fields@ == s,
            Err(e) => r matches Err(x) && x@ == e,
        },
{
    match v {
        JsonValue::Obj(fields) => Ok(fields),
        _ => Err(err_here(DecodeKind::ExpectedObject)),
    }
}

} // verus!
