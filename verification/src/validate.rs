//! Signature validation: the structural eligibility rules an annotated
//! function must meet before anything is synthesized for it.

use vstd::prelude::*;
use vstd::string::StringExecFns;

use crate::ast::{eligible, first_is_receiver, receiver_of, AnnotatedFunction, ReceiverKind};

verus! {

/// Where a compile-time diagnostic is anchored in the offending source.
#[derive(Clone, Copy, PartialEq, Eq, Debug)]
pub enum DiagnosticAnchor {
    /// The function's declaration keyword.
    FnKeyword,
    /// The whole function signature.
    Signature,
}

/// A compile-time synthesis error: the annotated function is not eligible to
/// become an action handler.  Synthesis halts for that one function; nothing
/// is emitted for it.
#[derive(Clone, PartialEq, Eq, Debug)]
pub enum SynthError {
    InvalidSignature { message: String, anchor: DiagnosticAnchor },
}

/// Checks the two eligibility rules, in order: the function must be
/// asynchronous, and its first parameter must be a receiver.  On success the
/// declared receiver kind is handed back as the token the synthesizer uses
/// for the type-identity lookup of the owning type.
pub fn validate_signature(f: &AnnotatedFunction) -> (r: Result<ReceiverKind, SynthError>)
    ensures
        !f.is_async ==> (r matches Err(SynthError::InvalidSignature { message, anchor })
            && message@ == "must be asynchronous"@
            && anchor == DiagnosticAnchor::FnKeyword),
        f.is_async && !first_is_receiver(*f) ==> (r matches Err(SynthError::InvalidSignature {
            message,
            anchor,
        }) && message@ == "must be a method with a receiver"@
            && anchor == DiagnosticAnchor::Signature),
        eligible(*f) ==> r == Ok::<ReceiverKind, SynthError>(receiver_of(*f).unwrap()),
        r is Ok <==> eligible(*f),
{
    if !f.is_async {
        return Err(SynthError::InvalidSignature {
            message: String::from_str("must be asynchronous"),
            anchor: DiagnosticAnchor::FnKeyword,
        });
    }
    if f.inputs.len() > 0 {
        match &f.inputs[0] {
            crate::ast::FnArg::Receiver(k) => {
                return Ok(*k);
            },
            _ => {},
        }
    }
    Err(SynthError::InvalidSignature {
        message: String::from_str("must be a method with a receiver"),
        anchor: DiagnosticAnchor::Signature,
    })
}

} // verus!
