//! Parameter views and the parameter-extraction capability.
//!
//! [`extract_parameters`] derives the per-parameter view over a signature's
//! typed arguments.  [`extraction_steps`] is the extraction code generator:
//! for every parameter that does not denote the request context it plans one
//! lookup in the request's parameter bag, failing with a missing-parameter
//! error when the name is absent.  The generator is complete in itself but
//! is not invoked by the synthesis path; wiring it in is left to the
//! integrator.  [`extract_parameter`] is the corresponding runtime lookup.

use vstd::prelude::*;
use vstd::string::StringExecFns;

use crate::ast::FnArg;
use crate::values::{HandlerError, WireValue};

verus! {

/// The derived view over one non-receiver parameter.
#[derive(Clone, PartialEq, Eq, Debug)]
pub struct Parameter {
    pub name: String,
    pub ty: String,
    pub is_reference: bool,
}

/// The parameters a list of argument slots yields: every typed argument
/// bound to a plain identifier other than `self`, in order.
pub open spec fn parameters_of(inputs: Seq<FnArg>) -> Seq<Parameter>
    decreases inputs.len(),
{
    if inputs.len() == 0 {
        Seq::empty()
    } else {
        let front = parameters_of(inputs.drop_last());
        match inputs.last() {
            FnArg::Typed { name, ty, is_reference } => {
                if name@ == "self"@ {
                    front
                } else {
                    front.push(Parameter { name, ty, is_reference })
                }
            },
            _ => front,
        }
    }
}

/// Extracts the parameter views from a signature's argument slots, skipping
/// the receiver, non-identifier patterns, and any argument named `self`.
pub fn extract_parameters(inputs: &Vec<FnArg>) -> (r: Vec<Parameter>)
    ensures
        r@ == parameters_of(inputs@),
{
    let self_name = String::from_str("self");
    let mut out: Vec<Parameter> = Vec::new();
    let n: usize = inputs.len();
    proof {
        assert(inputs@.take(0) =~= Seq::<FnArg>::empty());
    }
    let mut i: usize = 0;
    while i < n
        invariant
            i <= n,
            n == inputs@.len(),
            self_name@ == "self"@,
            out@ == parameters_of(inputs@.take(i as int)),
        decreases n - i,
    {
        proof {
            assert(inputs@.take(i as int + 1).drop_last() =~= inputs@.take(i as int));
            assert(inputs@.take(i as int + 1).last() == inputs@[i as int]);
        }
        match &inputs[i] {
            FnArg::Typed { name, ty, is_reference } => {
                if !(*name == self_name) {
                    out.push(Parameter {
                        name: name.clone(),
                        ty: ty.clone(),
                        is_reference: *is_reference,
                    });
                }
            },
            _ => {},
        }
        i = i + 1;
    }
    proof {
        assert(inputs@.take(n as int) =~= inputs@);
    }
    out
}

/// True of a parameter name that denotes the request context and is
/// therefore skipped by the extraction generator.
pub open spec fn is_context_name(name: Seq<char>) -> bool {
    name == "context"@ || name == "ctx"@ || name == "_context"@ || name == "_ctx"@
}

/// The diagnostic a planned extraction carries when its parameter is absent.
pub open spec fn missing_message(name: Seq<char>) -> Seq<char> {
    "Missing required parameter: "@ + name
}

/// One planned extraction statement: look up `param` in the request's
/// parameter bag, failing with `message` when it is absent.
#[derive(Clone, PartialEq, Eq, Debug)]
pub struct ExtractionStep {
    pub param: String,
    pub message: String,
}

/// The parameter names a list of planned steps extracts, in order.
pub open spec fn step_names(steps: Seq<ExtractionStep>) -> Seq<Seq<char>> {
    steps.map_values(|s: ExtractionStep| s.param@)
}

/// The names the generator plans an extraction for: every parameter name
/// that does not denote the request context, in order.
pub open spec fn extraction_names(params: Seq<Parameter>) -> Seq<Seq<char>>
    decreases params.len(),
{
    if params.len() == 0 {
        Seq::empty()
    } else {
        let front = extraction_names(params.drop_last());
        if is_context_name(params.last().name@) {
            front
        } else {
            front.push(params.last().name@)
        }
    }
}

/// Plans the per-parameter extraction statements: one step per non-context
/// parameter, in order, each carrying its missing-parameter diagnostic.
pub fn extraction_steps(params: &Vec<Parameter>) -> (r: Vec<ExtractionStep>)
    ensures
        step_names(r@) == extraction_names(params@),
        forall|j: int|
            0 <= j < r@.len() ==> (#[trigger] r@[j]).message@ == missing_message(r@[j].param@),
{
    let context = String::from_str("context");
    let ctx = String::from_str("ctx");
    let u_context = String::from_str("_context");
    let u_ctx = String::from_str("_ctx");
    let mut out: Vec<ExtractionStep> = Vec::new();
    let n: usize = params.len();
    proof {
        assert(params@.take(0) =~= Seq::<Parameter>::empty());
        assert(step_names(out@) =~= Seq::<Seq<char>>::empty());
    }
    let mut i: usize = 0;
    while i < n
        invariant
            i <= n,
            n == params@.len(),
            context@ == "context"@ && ctx@ == "ctx"@ && u_context@ == "_context"@ && u_ctx@
                == "_ctx"@,
            step_names(out@) == extraction_names(params@.take(i as int)),
            forall|j: int|
                0 <= j < out@.len() ==> (#[trigger] out@[j]).message@ == missing_message(
                    out@[j].param@,
                ),
        decreases n - i,
    {
        proof {
            assert(params@.take(i as int + 1).drop_last() =~= params@.take(i as int));
            assert(params@.take(i as int + 1).last() == params@[i as int]);
        }
        let p = &params[i];
        let skip = p.name == context || p.name == ctx || p.name == u_context || p.name == u_ctx;
        if !skip {
            let message = String::from_str("Missing required parameter: ").concat(p.name.as_str());
            let ghost before = step_names(out@);
            out.push(ExtractionStep { param: p.name.clone(), message });
            proof {
                assert(step_names(out@) =~= before.push(params@[i as int].name@));
            }
        }
        i = i + 1;
    }
    proof {
        assert(params@.take(n as int) =~= params@);
    }
    out
}

/// The value stored in a parameter bag for a name: that of the first entry
/// carrying the name.
pub open spec fn bag_lookup(bag: Seq<(String, WireValue)>, name: Seq<char>) -> Option<WireValue>
    decreases bag.len(),
{
    if bag.len() == 0 {
        None
    } else if bag.first().0@ == name {
        Some(bag.first().1)
    } else {
        bag_lookup(bag.drop_first(), name)
    }
}

/// Looks a parameter up by name in the request's parameter bag, failing with
/// a missing-parameter error naming it when it is absent.
pub fn extract_parameter(bag: &Vec<(String, WireValue)>, name: &String) -> (r: Result<
    WireValue,
    HandlerError,
>)
    ensures
        match bag_lookup(bag@, name@) {
            Some(v) => r == Ok::<WireValue, HandlerError>(v),
            None => (r matches Err(HandlerError::MissingParameter { name: n }) && n@ == name@),
        },
{
    let n: usize = bag.len();
    let mut i: usize = 0;
    proof {
        assert(bag@.skip(0) =~= bag@);
    }
    while i < n
        invariant
            i <= n,
            n == bag@.len(),
            bag_lookup(bag@, name@) == bag_lookup(bag@.skip(i as int), name@),
        decreases n - i,
    {
        proof {
            assert(bag@.skip(i as int).first() == bag@[i as int]);
            assert(bag@.skip(i as int).drop_first() =~= bag@.skip(i as int + 1));
        }
        let entry = &bag[i];
        if entry.0 == *name {
            return Ok(entry.1.duplicate());
        }
        i = i + 1;
    }
    proof {
        assert(bag@.skip(n as int) =~= Seq::<(String, WireValue)>::empty());
    }
    Err(HandlerError::MissingParameter { name: name.clone() })
}

} // verus!
