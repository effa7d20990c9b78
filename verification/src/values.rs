//! Runtime value model: wire payloads, responses, and the runtime error
//! taxonomy of a synthesized handler.

use vstd::prelude::*;

verus! {

/// A payload value as the value-type system carries it on the wire.
/// Conversion of a method's native success value into this type is the value
/// system's job; the pipeline only moves such values around.
#[derive(Clone, PartialEq, Eq, Debug)]
pub enum WireValue {
    Null,
    Integer(i64),
    Text(String),
}

impl WireValue {
    /// An equal copy of the value.
    pub fn duplicate(&self) -> (r: WireValue)
        ensures
            r == *self,
    {
        match self {
            WireValue::Null => WireValue::Null,
            WireValue::Integer(n) => WireValue::Integer(*n),
            WireValue::Text(s) => WireValue::Text(s.clone()),
        }
    }
}

/// A service response: a human-readable message and an optional payload.
#[derive(Clone, PartialEq, Eq, Debug)]
pub struct Response {
    pub message: String,
    pub payload: Option<WireValue>,
}

impl Response {
    /// Builds a success response from a message and an optional payload.
    pub fn success(message: String, payload: Option<WireValue>) -> (r: Response)
        ensures
            r.message@ == message@,
            r.payload == payload,
    {
        Response { message, payload }
    }
}

/// An error returned by a synthesized handler at invocation time.  Every
/// variant travels back to the dispatcher as an ordinary error value.
#[derive(Clone, PartialEq, Eq, Debug)]
pub enum HandlerError {
    /// The type-erased service reference did not match the concrete type the
    /// handler was synthesized for.
    TypeMismatch { message: String },
    /// The wrapped method itself failed; its error is carried together with a
    /// context string naming the failing operation.
    Execution { context: String, cause: String },
    /// A named parameter was absent from the request's parameter bag.
    MissingParameter { name: String },
}

} // verus!
