//! The error type of the fetch pipeline: transport failures, a missing
//! required query parameter, and deserialization failures that carry the
//! exact JSON path at which the payload did not match.

use vstd::prelude::*;
use vstd::string::StringExecFns;
use crate::json::{DecodeError, DecodeKind, SpecDecodeErr, render_path, spec_render_path};
use crate::strings::{spec_decimal, u64_to_string};

verus! {

/// What went wrong while fetching from the upstream provider.
#[derive(Debug, Clone, PartialEq, Eq)]
pub enum ApiFetchError {
    /// A failure while actively fetching the data: a network error, a
    /// non-success upstream response, or a body that is not JSON. The
    /// upstream status code is kept when one was obtained.
    Request { status: Option<u16> },
    /// An endpoint expected a query parameter that the request left
    /// unset.
    MissingQueryParam { param: String, request_name: String },
    /// The upstream payload did not match the expected shape at the given
    /// JSON path.
    Deserialization { path: String, kind: DecodeKind },
}

/// Spec-level form of a fetch error.
pub ghost enum ApiFetchErrorV {
    Request { status: Option<u16> },
    MissingQueryParam { param: Seq<char>, request_name: Seq<char> },
    Deserialization { path: Seq<char>, kind: DecodeKind },
}

impl DeepView for ApiFetchError {
    type V = ApiFetchErrorV;

    open spec fn deep_view(&self) -> ApiFetchErrorV {
        match self {
            ApiFetchError::Request { status } => ApiFetchErrorV::Request { status: *status },
            ApiFetchError::MissingQueryParam { param, request_name } => {
                ApiFetchErrorV::MissingQueryParam {
                    param: param@,
                    request_name: request_name@,
                }
            },
            ApiFetchError::Deserialization { path, kind } => ApiFetchErrorV::Deserialization {
                path: path@,
                kind: *kind,
            },
        }
    }
}

/// The one-line description of a fetch error.
pub open spec fn spec_error_message(e: ApiFetchErrorV) -> Seq<char> {
    match e {
        ApiFetchErrorV::Request { status } => match status {
            None => "error while fetching data from the upstream API"@,
            Some(code) => "error while fetching data from the upstream API"@ + " (status "@
                + spec_decimal(code as nat) + ")"@,
        },
        ApiFetchErrorV::MissingQueryParam { param, request_name } => "missing query parameter `"@
            + param + "` in request `"@ + request_name + "`"@,
        ApiFetchErrorV::Deserialization { path, kind: _ } => "deserialization error at "@ + path,
    }
}

impl ApiFetchError {
    /// A one-line description of the error, for logs and diagnostics.
    pub fn message(&self) -> (r: String)
        ensures
            r@ == spec_error_message(self.deep_view()),
    {
        match self {
            ApiFetchError::Request { status } => {
                let mut s = "error while fetching data from the upstream API".to_owned();
                if let Some(code) = status {
                    s.append(" (status ");
                    let digits = u64_to_string(*code as u64);
                    s.append(digits.as_str());
                    s.append(")");
                    proof {
                        assert(s@ =~= "error while fetching data from the upstream API"@
                            + " (status "@ + spec_decimal(*code as nat) + ")"@);
                    }
                }
                s
            },
            ApiFetchError::MissingQueryParam { param, request_name } => {
                let mut s = "missing query parameter `".to_owned();
                s.append(param.as_str());
                s.append("` in request `");
                s.append(request_name.as_str());
                s.append("`");
                s
            },
            ApiFetchError::Deserialization { path, kind: _ } => {
                let mut s = "deserialization error at ".to_owned();
                s.append(path.as_str());
                s
            },
        }
    }
}

/// The fetch error a decode failure surfaces as: its path is rendered as
/// dotted-and-bracketed text.
pub open spec fn spec_deserialization_error(e: SpecDecodeErr) -> ApiFetchErrorV {
    ApiFetchErrorV::Deserialization { path: spec_render_path(e.path), kind: e.kind }
}

/// Wraps a decode failure, rendering the JSON path it was reported at.
pub fn deserialization_error(e: DecodeError) -> (r: ApiFetchError)
    ensures
        r.deep_view() == spec_deserialization_error(e@),
{
    ApiFetchError::Deserialization { path: render_path(&e.path), kind: e.kind }
}

} // verus!
