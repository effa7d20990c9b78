use action_synth::ast::{FnArg, ReceiverKind};
use action_synth::params::{
    extract_parameter, extract_parameters, extraction_steps, Parameter,
};
use action_synth::values::{HandlerError, WireValue};

fn typed(name: &str, ty: &str, is_reference: bool) -> FnArg {
    FnArg::Typed {
        name: name.to_string(),
        ty: ty.to_string(),
        is_reference,
    }
}

fn param(name: &str, ty: &str, is_reference: bool) -> Parameter {
    Parameter {
        name: name.to_string(),
        ty: ty.to_string(),
        is_reference,
    }
}

#[test]
fn receiver_and_patterns_are_skipped() {
    let inputs = vec![
        FnArg::Receiver(ReceiverKind::ByRef),
        typed("id", "u64", false),
        FnArg::Pattern,
        typed("data", "& str", true),
    ];
    let params = extract_parameters(&inputs);
    assert_eq!(
        params,
        vec![param("id", "u64", false), param("data", "& str", true)]
    );
}

#[test]
fn argument_named_self_is_skipped() {
    let inputs = vec![typed("self", "Service", false), typed("id", "u64", false)];
    let params = extract_parameters(&inputs);
    assert_eq!(params, vec![param("id", "u64", false)]);
}

#[test]
fn empty_signature_yields_no_parameters() {
    assert!(extract_parameters(&Vec::new()).is_empty());
}

#[test]
fn context_parameters_are_not_extracted() {
    let params = vec![
        param("context", "RequestContext", false),
        param("ctx", "RequestContext", false),
        param("_context", "RequestContext", false),
        param("_ctx", "RequestContext", false),
        param("id", "u64", false),
    ];
    let steps = extraction_steps(&params);
    assert_eq!(steps.len(), 1);
    assert_eq!(steps[0].param, "id");
}

#[test]
fn extraction_step_carries_missing_diagnostic() {
    let steps = extraction_steps(&vec![param("id", "u64", false)]);
    assert_eq!(steps[0].message, "Missing required parameter: id");
}

#[test]
fn extraction_keeps_order() {
    let params = vec![
        param("a", "u64", false),
        param("ctx", "RequestContext", false),
        param("b", "String", false),
    ];
    let steps = extraction_steps(&params);
    let names: Vec<&str> = steps.iter().map(|s| s.param.as_str()).collect();
    assert_eq!(names, vec!["a", "b"]);
}

#[test]
fn bag_lookup_finds_present_parameter() {
    let bag = vec![
        ("id".to_string(), WireValue::Integer(7)),
        ("who".to_string(), WireValue::Text("alice".to_string())),
    ];
    assert_eq!(
        extract_parameter(&bag, &"who".to_string()),
        Ok(WireValue::Text("alice".to_string()))
    );
    assert_eq!(
        extract_parameter(&bag, &"id".to_string()),
        Ok(WireValue::Integer(7))
    );
}

#[test]
fn bag_lookup_takes_first_entry_for_a_name() {
    let bag = vec![
        ("id".to_string(), WireValue::Integer(1)),
        ("id".to_string(), WireValue::Integer(2)),
    ];
    assert_eq!(
        extract_parameter(&bag, &"id".to_string()),
        Ok(WireValue::Integer(1))
    );
}

#[test]
fn absent_parameter_fails_with_missing_parameter() {
    let bag = vec![("id".to_string(), WireValue::Integer(7))];
    assert_eq!(
        extract_parameter(&bag, &"who".to_string()),
        Err(HandlerError::MissingParameter {
            name: "who".to_string()
        })
    );
}
