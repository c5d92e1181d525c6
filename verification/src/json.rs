//! A generic JSON tree, the decode-error type that records the JSON path at
//! which a mismatch was found, and the trusted parse from text into the tree.

use vstd::prelude::*;
use vstd::string::StringExecFns;
use crate::strings::{spec_decimal, u64_to_string};

verus! {

/// A JSON number: the integer value when the number is a non-negative
/// integer that fits in a machine word, and the number's decimal text.
#[derive(Debug, PartialEq, Eq)]
pub struct JsonNum {
    /// `Some` exactly when the number is a non-negative integer within `u64`.
    pub as_u64: Option<u64>,
    /// The number's decimal rendering.
    pub text: String,
}

/// A generic JSON value. Objects keep their fields as a list of
/// name/value pairs.
#[derive(Debug, PartialEq, Eq)]
pub enum JsonValue {
    Null,
    Bool(bool),
    Num(JsonNum),
    Str(String),
    Arr(Vec<JsonValue>),
    Obj(Vec<(String, JsonValue)>),
}

/// One step of a JSON path: an object field or an array index.
#[derive(Debug, Clone, PartialEq, Eq)]
pub enum PathSeg {
    Field(String),
    Index(u64),
}

/// Spec-level form of a path step.
pub ghost enum SpecSeg {
    Field(Seq<char>),
    Index(u64),
}

impl View for PathSeg {
    type V = SpecSeg;

    open spec fn view(&self) -> SpecSeg {
        match self {
            PathSeg::Field(s) => SpecSeg::Field(s@),
            PathSeg::Index(i) => SpecSeg::Index(*i),
        }
    }
}

impl DeepView for PathSeg {
    type V = SpecSeg;

    open spec fn deep_view(&self) -> SpecSeg {
        self.view()
    }
}

/// What went wrong at the reported path.
#[derive(Debug, Clone, Copy, PartialEq, Eq, Structural)]
pub enum DecodeKind {
    /// A date string of the form `YEAR-MONTH-DAY` was expected.
    ExpectedDate,
    /// A required field is absent.
    Missing,
    ExpectedObject,
    ExpectedArray,
    ExpectedString,
    ExpectedBool,
    /// A number was expected.
    ExpectedNumber,
    /// A non-negative integer within `u64` was expected.
    ExpectedU64,
    /// A gender code (an integer from zero to three) was expected.
    ExpectedGender,
}

/// Spec-level decode error: the path from the decoded root to the
/// offending value, and the kind of mismatch.
pub ghost struct SpecDecodeErr {
    pub path: Seq<SpecSeg>,
    pub kind: DecodeKind,
}

/// A decode error produced while checking a JSON tree against an expected
/// shape.
#[derive(Debug, Clone, PartialEq, Eq)]
pub struct DecodeError {
    pub path: Vec<PathSeg>,
    pub kind: DecodeKind,
}

impl View for DecodeError {
    type V = SpecDecodeErr;

    open spec fn view(&self) -> SpecDecodeErr {
        SpecDecodeErr { path: self.path.deep_view(), kind: self.kind }
    }
}

/// An error whose path is rooted at the value it was produced from.
pub open spec fn spec_err_here(kind: DecodeKind) -> SpecDecodeErr {
    SpecDecodeErr { path: Seq::empty(), kind }
}

/// `e`, reported one object field deeper.
pub open spec fn spec_err_at(name: Seq<char>, e: SpecDecodeErr) -> SpecDecodeErr {
    SpecDecodeErr { path: seq![SpecSeg::Field(name)] + e.path, kind: e.kind }
}

/// `e`, reported one array index deeper.
pub open spec fn spec_err_at_index(i: u64, e: SpecDecodeErr) -> SpecDecodeErr {
    SpecDecodeErr { path: seq![SpecSeg::Index(i)] + e.path, kind: e.kind }
}

/// A decode error with an empty path.
pub fn err_here(kind: DecodeKind) -> (r: DecodeError)
    ensures
        r@ == spec_err_here(kind),
{
    let r = DecodeError { path: Vec::new(), kind };
    proof {
        assert(r@.path =~= Seq::<SpecSeg>::empty());
    }
    r
}

/// Prefixes `e`'s path with one field step.
pub fn err_at(name: &str, e: DecodeError) -> (r: DecodeError)
    ensures
        r@ == spec_err_at(name@, e@),
{
    let mut path = e.path;
    path.insert(0, PathSeg::Field(name.to_owned()));
    let r = DecodeError { path, kind: e.kind };
    proof {
        assert(r@.path =~= seq![SpecSeg::Field(name@)] + e@.path);
    }
    r
}

/// Prefixes `e`'s path with one index step.
pub fn err_at_index(i: u64, e: DecodeError) -> (r: DecodeError)
    ensures
        r@ == spec_err_at_index(i, e@),
{
    let mut path = e.path;
    path.insert(0, PathSeg::Index(i));
    let r = DecodeError { path, kind: e.kind };
    proof {
        assert(r@.path =~= seq![SpecSeg::Index(i)] + e@.path);
    }
    r
}

/// The value of the first field named `name`, if any.
pub open spec fn spec_lookup(fields: Seq<(String, JsonValue)>, name: Seq<char>) -> Option<
    JsonValue,
>
    decreases fields.len(),
{
    if fields.len() == 0 {
        None
    } else if fields[0].0@ == name {
        Some(fields[0].1)
    } else {
        spec_lookup(fields.drop_first(), name)
    }
}

/// Looks a field up by name in an object's field list.
pub fn lookup_field<'a>(fields: &'a Vec<(String, JsonValue)>, name: &str) -> (r: Option<
    &'a JsonValue,
>)
    ensures
        match r {
            Some(v) => spec_lookup(fields@, name@) == Some(*v),
            None => spec_lookup(fields@, name@) is None,
        },
{
    let key = name.to_owned();
    let n = fields.len();
    let mut i: usize = 0;
    proof {
        assert(fields@.skip(0) =~= fields@);
    }
    while i < n
        invariant
            n == fields@.len(),
            i <= n,
            key@ == name@,
            spec_lookup(fields@, name@) == spec_lookup(fields@.skip(i as int), name@),
        decreases n - i,
    {
        proof {
            assert(fields@.skip(i as int).drop_first() =~= fields@.skip(i + 1));
            assert(fields@.skip(i as int)[0] == fields@[i as int]);
        }
        if fields[i].0 == key {
            return Some(&fields[i].1);
        }
        i += 1;
    }
    None
}

/// The rendering of one path step: a field is joined with a dot unless it
/// is the first step; an index is written in brackets.
pub open spec fn spec_seg_text(seg: SpecSeg, first: bool) -> Seq<char> {
    match seg {
        SpecSeg::Field(name) => if first {
            name
        } else {
            "."@ + name
        },
        SpecSeg::Index(i) => "["@ + spec_decimal(i as nat) + "]"@,
    }
}

/// The dotted-and-bracketed rendering of a JSON path, such as
/// `results[2].vote_count`.
pub open spec fn spec_render_path(path: Seq<SpecSeg>) -> Seq<char>
    decreases path.len(),
{
    if path.len() == 0 {
        Seq::empty()
    } else {
        spec_render_path(path.drop_last()) + spec_seg_text(path.last(), path.len() == 1)
    }
}

/// Renders a JSON path as text.
pub fn render_path(path: &Vec<PathSeg>) -> (r: String)
    ensures
        r@ == spec_render_path(path.deep_view()),
{
    proof {
        reveal_strlit(".");
        reveal_strlit("[");
        reveal_strlit("]");
    }
    let mut out = String::new();
    let n = path.len();
    let mut i: usize = 0;
    while i < n
        invariant
            n == path@.len(),
            i <= n,
            out@ == spec_render_path(path.deep_view().take(i as int)),
        decreases n - i,
    {
        match &path[i] {
            PathSeg::Field(name) => {
                if i > 0 {
                    out.append(".");
                }
                out.append(name.as_str());
            },
            PathSeg::Index(idx) => {
                out.append("[");
                let digits = u64_to_string(*idx);
                out.append(digits.as_str());
                out.append("]");
            },
        }
        proof {
            let pv = path.deep_view();
            assert(pv.take(i + 1).drop_last() =~= pv.take(i as int));
            assert(pv.take(i + 1).last() == pv[i as int]);
        }
        i += 1;
    }
    proof {
        assert(path.deep_view().take(n as int) =~= path.deep_view());
    }
    out
}

/// Declares `serde_json::Value` so that the trusted parse helpers below
/// can mention it; the tree is carried over into `JsonValue` at once and
/// is never inspected here.
#[verifier::external_type_specification]
#[verifier::external_body]
pub struct ExSerdeValue(serde_json::Value);

/// What `serde_json` parses a given text into: the generic JSON tree, or
/// nothing when the text is not valid JSON. The tree depends on the text
/// alone.
pub uninterp spec fn parsed_json(text: Seq<char>) -> Option<JsonValue>;

/// Relies on `serde_json::from_str::<serde_json::Value>`: parses JSON text
/// into a generic tree, which `tree_of` then carries over unchanged.
#[verifier::external_body]
pub(crate) fn parse_json(text: &str) -> (r: Option<JsonValue>)
    ensures
        r == parsed_json(text@),
{
    match serde_json::from_str::<serde_json::Value>(text) {
        Ok(v) => Some(tree_of(&v)),
        Err(_) => None,
    }
}

/// Relies on `serde_json::Value`'s public variants and on
/// `serde_json::Number::{as_u64, to_string}`: moves an upstream tree into
/// the crate's own tree type, one variant per arm.
#[verifier::external_body]
fn tree_of(v: &serde_json::Value) -> JsonValue {
    match v {
        serde_json::Value::Null => JsonValue::Null,
        serde_json::Value::Bool(b) => JsonValue::Bool(*b),
        serde_json::Value::Number(n) => JsonValue::Num(
            JsonNum { as_u64: n.as_u64(), text: n.to_string() },
        ),
        serde_json::Value::String(s) => JsonValue::Str(s.clone()),
        serde_json::Value::Array(a) => JsonValue::Arr(a.iter().map(tree_of).collect()),
        serde_json::Value::Object(o) => JsonValue::Obj(
            o.iter().map(|p| (p.0.clone(), tree_of(p.1))).collect(),
        ),
    }
}

} // verus!
