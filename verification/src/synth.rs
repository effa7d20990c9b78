//! The synthesis pipeline: from an annotated function definition and its
//! configuration tokens to the emitted artifacts.
//!
//! [`action`] runs the whole pipeline once per annotated function.  It
//! resolves the operation name from the options, validates the signature,
//! classifies the return type, and emits an [`Expansion`]: the original
//! function untouched, together with exactly one registration record whose
//! handler plan the runtime model in [`crate::handler`] gives meaning to.

use vstd::prelude::*;

use crate::ast::{eligible, first_is_receiver, AnnotatedFunction};
use crate::classify::{classification, classify_return, ReturnShape};
use crate::options::{options_of, parse_attribute_options, resolve_operation_name, resolved_name,
    AttrToken};
use crate::validate::{validate_signature, DiagnosticAnchor, SynthError};

verus! {

/// The registration record emitted for one annotated function.  It is
/// submitted to the host's registry once, at initialization, and determines
/// the synthesized handler completely: which operation it answers to, which
/// concrete type must own the service reference, which method it calls, and
/// which body template finishes the call.
#[derive(Clone, PartialEq, Eq, Debug)]
pub struct OperationDescriptor {
    /// The name the operation is registered and invoked under.
    pub operation_name: String,
    /// The host's identity tag for the owning concrete type; the handler
    /// refuses any service reference carrying a different tag.
    pub service_type_id: u64,
    /// The body template the handler finishes the method call with.
    pub shape: ReturnShape,
    /// The identifier of the wrapped method the handler calls.
    pub method_ident: String,
}

/// Everything synthesis emits for one annotated function: the function
/// itself, left intact, and its one registration record.
#[derive(Debug)]
pub struct Expansion {
    pub function: AnnotatedFunction,
    pub descriptor: OperationDescriptor,
}

/// Runs the synthesis pipeline for one annotated function.
///
/// `attr` is the annotation's raw configuration token sequence and
/// `service_type_id` the host's identity tag for the owning type — the
/// stand-in for the type-identity lookup the emitted record performs.
///
/// A function that is not asynchronous, or whose first parameter is not a
/// receiver, fails with an invalid-signature diagnostic and nothing is
/// emitted for it.  For every eligible function exactly one descriptor is
/// emitted; its operation name is the explicit `name` option when one is
/// given and the function's own identifier otherwise, and its body template
/// is the classification of the declared return type.
pub fn action(attr: &Vec<AttrToken>, item: AnnotatedFunction, service_type_id: u64) -> (r: Result<
    Expansion,
    SynthError,
>)
    ensures
        !item.is_async ==> (r matches Err(SynthError::InvalidSignature { message, anchor })
            && message@ == "must be asynchronous"@
            && anchor == DiagnosticAnchor::FnKeyword),
        item.is_async && !first_is_receiver(item) ==> (r matches Err(
            SynthError::InvalidSignature { message, anchor },
        ) && message@ == "must be a method with a receiver"@
            && anchor == DiagnosticAnchor::Signature),
        r is Ok <==> eligible(item),
        r matches Ok(x) ==> {
            &&& x.function == item
            &&& x.descriptor.operation_name@ == resolved_name(options_of(attr@), item.ident@)
            &&& x.descriptor.service_type_id == service_type_id
            &&& x.descriptor.shape == classification(item.output)
            &&& x.descriptor.method_ident@ == item.ident@
        },
{
    let options = parse_attribute_options(attr);
    let operation_name = resolve_operation_name(&options, &item.ident);
    match validate_signature(&item) {
        Err(e) => Err(e),
        Ok(_receiver) => {
            let shape = classify_return(&item.output);
            let method_ident = item.ident.clone();
            Ok(
                Expansion {
                    function: item,
                    descriptor: OperationDescriptor {
                        operation_name,
                        service_type_id,
                        shape,
                        method_ident,
                    },
                },
            )
        },
    }
}

/// The operation name is never empty: it is the explicit `name` option's
/// value when one is given and the function's own identifier otherwise, so
/// as long as the function is well formed and no option explicitly set an
/// empty name, the resolved name has at least one character.
pub proof fn lemma_operation_name_nonempty(
    attr: Seq<AttrToken>,
    item: AnnotatedFunction,
)
    requires
        item.wf(),
        crate::options::lookup(options_of(attr), "name"@) matches Some(v) ==> v.len() > 0,
    ensures
        resolved_name(options_of(attr), item.ident@).len() > 0,
{
}

} // verus!
