use action_synth::classify::ReturnShape;
use action_synth::handler::{run_handler_body, MethodOutcome};
use action_synth::values::{HandlerError, Response, WireValue};

fn op() -> String {
    "get_user".to_string()
}

#[test]
fn wrapped_success_is_not_rewrapped() {
    let resp = Response {
        message: "User found".to_string(),
        payload: Some(WireValue::Text("alice".to_string())),
    };
    let out = run_handler_body(
        ReturnShape::WrappedResponse,
        &op(),
        MethodOutcome::Wrapped(Ok(resp.clone())),
    );
    // The method's own response comes back as is: same message, same
    // payload, no second response around it.
    assert_eq!(out, Ok(resp));
}

#[test]
fn wrapped_failure_gets_context() {
    let out = run_handler_body(
        ReturnShape::WrappedResponse,
        &op(),
        MethodOutcome::Wrapped(Err("boom".to_string())),
    );
    assert_eq!(
        out,
        Err(HandlerError::Execution {
            context: "Error executing get_user".to_string(),
            cause: "boom".to_string(),
        })
    );
}

#[test]
fn fallible_success_is_wrapped_once() {
    let out = run_handler_body(
        ReturnShape::RawResult,
        &op(),
        MethodOutcome::Fallible(Ok(WireValue::Integer(42))),
    );
    assert_eq!(
        out,
        Ok(Response {
            message: "Operation succeeded".to_string(),
            payload: Some(WireValue::Integer(42)),
        })
    );
}

#[test]
fn fallible_failure_gets_context() {
    let out = run_handler_body(
        ReturnShape::RawResult,
        &op(),
        MethodOutcome::Fallible(Err("db down".to_string())),
    );
    assert_eq!(
        out,
        Err(HandlerError::Execution {
            context: "Error executing get_user".to_string(),
            cause: "db down".to_string(),
        })
    );
}

#[test]
fn direct_value_is_wrapped() {
    let out = run_handler_body(
        ReturnShape::Raw,
        &op(),
        MethodOutcome::Direct(WireValue::Null),
    );
    assert_eq!(
        out,
        Ok(Response {
            message: "Operation succeeded".to_string(),
            payload: Some(WireValue::Null),
        })
    );
}

#[test]
fn success_response_builder_keeps_fields() {
    let r = Response::success("done".to_string(), None);
    assert_eq!(r.message, "done");
    assert_eq!(r.payload, None);
}
