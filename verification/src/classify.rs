//! Return-type classification.
//!
//! The classifier is purely syntactic: it looks at the last segment of the
//! declared return type's path and compares identifier text against the
//! literal names `Result` and `ServiceResponse`.  It does not resolve type
//! aliases or imports, so a locally renamed `Result` alias is misclassified;
//! this imprecision is deliberate and kept for behavioral fidelity.

use vstd::prelude::*;
use vstd::string::StringExecFns;

use crate::ast::{PathSeg, TypeExpr};

verus! {

/// The closed set of return shapes the synthesizer distinguishes.
#[derive(Clone, Copy, PartialEq, Eq, Debug)]
pub enum ReturnShape {
    /// `Result<ServiceResponse, _>`: the method already builds the response.
    WrappedResponse,
    /// `Result<T, _>` for any other `T`: fallible, needs wrapping.
    RawResult,
    /// Anything else, including an absent return type: taken directly.
    Raw,
}

/// The name a path type goes by: the identifier of its last segment.
pub open spec fn path_name(segments: Seq<PathSeg>) -> Option<Seq<char>> {
    if segments.len() == 0 {
        None
    } else {
        Some(segments.last().ident@)
    }
}

/// True when the path's last segment has a first generic type argument that
/// is itself a path named `ServiceResponse`.
pub open spec fn first_arg_is_service_response(segments: Seq<PathSeg>) -> bool {
    segments.len() > 0 && {
        let args = segments.last().type_args@;
        args.len() > 0 && match args[0] {
            TypeExpr::Path { segments: inner } => path_name(inner@) == Some("ServiceResponse"@),
            TypeExpr::Other => false,
        }
    }
}

/// The classification rule, exactly as the synthesizer applies it:
/// no declared return type is `Raw`; a path named `Result` whose first
/// generic argument is named `ServiceResponse` is `WrappedResponse`; any
/// other path named `Result` is `RawResult`; everything else is `Raw`.
pub open spec fn classification(output: Option<TypeExpr>) -> ReturnShape {
    match output {
        None => ReturnShape::Raw,
        Some(t) => match t {
            TypeExpr::Path { segments } => {
                if path_name(segments@) == Some("Result"@) {
                    if first_arg_is_service_response(segments@) {
                        ReturnShape::WrappedResponse
                    } else {
                        ReturnShape::RawResult
                    }
                } else {
                    ReturnShape::Raw
                }
            },
            TypeExpr::Other => ReturnShape::Raw,
        },
    }
}

/// Computes the [`classification`] of a declared return type.
pub fn classify_return(output: &Option<TypeExpr>) -> (r: ReturnShape)
    ensures
        r == classification(*output),
{
    match output {
        None => ReturnShape::Raw,
        Some(t) => match t {
            TypeExpr::Other => ReturnShape::Raw,
            TypeExpr::Path { segments } => {
                let n: usize = segments.len();
                if n == 0 {
                    ReturnShape::Raw
                } else {
                    let outer = &segments[n - 1];
                    if outer.ident == String::from_str("Result") {
                        if first_type_arg_is_service_response(outer) {
                            ReturnShape::WrappedResponse
                        } else {
                            ReturnShape::RawResult
                        }
                    } else {
                        ReturnShape::Raw
                    }
                }
            },
        },
    }
}

/// Checks whether a segment's first generic type argument is a path whose
/// last segment is named `ServiceResponse`.
fn first_type_arg_is_service_response(seg: &PathSeg) -> (r: bool)
    ensures
        r == first_arg_is_service_response(seq![*seg]),
{
    let n: usize = seg.type_args.len();
    if n == 0 {
        false
    } else {
        match &seg.type_args[0] {
            TypeExpr::Other => false,
            TypeExpr::Path { segments: inner } => {
                let m: usize = inner.len();
                if m == 0 {
                    false
                } else {
                    inner[m - 1].ident == String::from_str("ServiceResponse")
                }
            },
        }
    }
}

/// Classification is deterministic: two classifications of the same declared
/// return-type expression always agree, so re-running the classifier cannot
/// change the selected shape.
pub proof fn lemma_classification_idempotent(
    a: ReturnShape,
    b: ReturnShape,
    output: Option<TypeExpr>,
)
    requires
        a == classification(output),
        b == classification(output),
    ensures
        a == b,
{
}

} // verus!
