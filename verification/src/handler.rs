//! The runtime behavior of a synthesized handler.
//!
//! A synthesized handler runs in two steps that the dispatcher drives: first
//! the concrete owning type is recovered from the type-erased service
//! reference ([`check_service_identity`]); only when that succeeds is the
//! wrapped method invoked, and its outcome is then finished into a response
//! ([`run_handler_body`]).  The method call itself is the host's work — it
//! happens between the two steps — so the body logic here is stated, and
//! verified, for every outcome the method can produce.

use vstd::prelude::*;
use vstd::string::StringExecFns;

use crate::classify::ReturnShape;
use crate::synth::OperationDescriptor;
use crate::values::{HandlerError, Response, WireValue};

verus! {

/// What the wrapped method produced, shaped by its declared return type:
/// a response-carrying result, a plain fallible value, or a bare value.
/// The success value of a fallible or bare method arrives here already
/// converted to its wire form; that conversion is the value system's work.
#[derive(PartialEq, Eq, Debug)]
pub enum MethodOutcome {
    /// The method returns `Result<ServiceResponse, _>` and built the
    /// response itself.
    Wrapped(Result<Response, String>),
    /// The method returns any other `Result`; the error is its message.
    Fallible(Result<WireValue, String>),
    /// The method's return type has no failure branch.
    Direct(WireValue),
}

/// Which outcome forms the body template selected for `shape` can receive.
pub open spec fn outcome_fits(shape: ReturnShape, outcome: MethodOutcome) -> bool {
    match shape {
        ReturnShape::WrappedResponse => outcome is Wrapped,
        ReturnShape::RawResult => outcome is Fallible,
        ReturnShape::Raw => outcome is Direct,
    }
}

/// The context string attached to a failing operation's error.
pub open spec fn error_context(operation_name: Seq<char>) -> Seq<char> {
    "Error executing "@ + operation_name
}

/// What the handler body makes of a method outcome, abstractly: on success
/// the response's message and payload, on failure the attached context
/// string and the underlying cause.
///
/// A `Wrapped` success passes the method's own response through untouched —
/// message and payload are exactly the returned ones, never re-wrapped.  A
/// `Fallible` or `Direct` success is wrapped once into a success response
/// carrying the fixed message and the converted payload.  Every failure is
/// propagated with a context string naming the operation.
pub open spec fn body_result(operation_name: Seq<char>, outcome: MethodOutcome) -> Result<
    (Seq<char>, Option<WireValue>),
    (Seq<char>, Seq<char>),
> {
    match outcome {
        MethodOutcome::Wrapped(res) => match res {
            Ok(resp) => Ok((resp.message@, resp.payload)),
            Err(cause) => Err((error_context(operation_name), cause@)),
        },
        MethodOutcome::Fallible(res) => match res {
            Ok(v) => Ok(("Operation succeeded"@, Some(v))),
            Err(cause) => Err((error_context(operation_name), cause@)),
        },
        MethodOutcome::Direct(v) => Ok(("Operation succeeded"@, Some(v))),
    }
}

/// The same abstraction applied to what the handler actually returned.
/// A handler body never produces a type-mismatch or missing-parameter
/// error, so those variants have no abstraction.
pub open spec fn result_abstraction(r: Result<Response, HandlerError>) -> Option<
    Result<(Seq<char>, Option<WireValue>), (Seq<char>, Seq<char>)>,
> {
    match r {
        Ok(resp) => Some(Ok((resp.message@, resp.payload))),
        Err(e) => match e {
            HandlerError::Execution { context, cause } => Some(Err((context@, cause@))),
            _ => None,
        },
    }
}

/// Recovers the concrete owning type from the type-erased service reference:
/// a checked comparison of the reference's type tag against the tag the
/// descriptor was synthesized for.  On a mismatch the invocation fails right
/// here, before the wrapped method is ever called.
pub fn check_service_identity(desc: &OperationDescriptor, service_type_id: u64) -> (r: Result<
    (),
    HandlerError,
>)
    ensures
        r is Ok <==> service_type_id == desc.service_type_id,
        r matches Err(e) ==> (e matches HandlerError::TypeMismatch { message } && message@
            == "Service type mismatch in action handler"@),
{
    if service_type_id == desc.service_type_id {
        Ok(())
    } else {
        Err(HandlerError::TypeMismatch {
            message: String::from_str("Service type mismatch in action handler"),
        })
    }
}

/// Finishes an invocation: turns the wrapped method's outcome into the
/// handler's result, exactly as [`body_result`] states.
pub fn run_handler_body(shape: ReturnShape, operation_name: &String, outcome: MethodOutcome) -> (r:
    Result<Response, HandlerError>)
    requires
        outcome_fits(shape, outcome),
    ensures
        result_abstraction(r) == Some(body_result(operation_name@, outcome)),
        outcome matches MethodOutcome::Wrapped(Ok(resp)) ==> r == Ok::<Response, HandlerError>(
            resp,
        ),
{
    match outcome {
        MethodOutcome::Wrapped(res) => match res {
            Ok(resp) => Ok(resp),
            Err(cause) => Err(HandlerError::Execution {
                context: String::from_str("Error executing ").concat(operation_name.as_str()),
                cause,
            }),
        },
        MethodOutcome::Fallible(res) => match res {
            Ok(v) => Ok(Response::success(String::from_str("Operation succeeded"), Some(v))),
            Err(cause) => Err(HandlerError::Execution {
                context: String::from_str("Error executing ").concat(operation_name.as_str()),
                cause,
            }),
        },
        MethodOutcome::Direct(v) => Ok(
            Response::success(String::from_str("Operation succeeded"), Some(v)),
        ),
    }
}

/// Round trip for an already-wrapped response: when the declared return type
/// classifies as `WrappedResponse` and the method succeeds with a response,
/// the handler body's result carries that response's message and payload
/// unchanged — it is not wrapped in another response.
pub proof fn lemma_wrapped_response_round_trip(
    output: Option<crate::ast::TypeExpr>,
    resp: Response,
    operation_name: Seq<char>,
)
    requires
        crate::classify::classification(output) == ReturnShape::WrappedResponse,
    ensures
        body_result(operation_name, MethodOutcome::Wrapped(Ok(resp))) == Ok::<
            (Seq<char>, Option<WireValue>),
            (Seq<char>, Seq<char>),
        >((resp.message@, resp.payload)),
{
}

} // verus!
