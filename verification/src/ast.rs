//! The syntax model the pipeline works on.
//!
//! An annotated function is held as plain values: its identifier, its
//! argument slots, its declared return-type expression, and whether it is
//! asynchronous.  Type expressions keep exactly the structure the pipeline
//! reads — a path's segments with their identifier text and generic type
//! arguments — and collapse everything else to [`TypeExpr::Other`].

use vstd::prelude::*;

verus! {

/// Kind of receiver that a method declares as its first argument.
#[derive(Clone, Copy, PartialEq, Eq, Debug)]
pub enum ReceiverKind {
    /// `&self`
    ByRef,
    /// `&mut self`
    ByMutRef,
}

/// One argument slot of a function signature.
#[derive(Clone, PartialEq, Eq, Debug)]
pub enum FnArg {
    /// A receiver (`&self` or `&mut self`).
    Receiver(ReceiverKind),
    /// A typed argument bound to a plain identifier, `name: Type`.
    Typed { name: String, ty: String, is_reference: bool },
    /// A typed argument whose pattern is not a plain identifier.
    Pattern,
}

/// One segment of a type path: an identifier and its generic type arguments.
/// A generic argument that is not itself a type is held as [`TypeExpr::Other`].
#[derive(Debug)]
pub struct PathSeg {
    pub ident: String,
    pub type_args: Vec<TypeExpr>,
}

/// A declared type expression, as far as the pipeline inspects it.
#[derive(Debug)]
pub enum TypeExpr {
    /// A path type such as `Result<T>` or `std::result::Result<T, E>`.
    Path { segments: Vec<PathSeg> },
    /// Any non-path type (reference, tuple, slice, ...).
    Other,
}

/// The parsed definition of one annotated function.
#[derive(Debug)]
pub struct AnnotatedFunction {
    /// The function's own identifier.
    pub ident: String,
    /// The argument slots, in declaration order; a receiver, if any, is first.
    pub inputs: Vec<FnArg>,
    /// The declared return type; `None` when no return type is written.
    pub output: Option<TypeExpr>,
    /// Whether the function is declared asynchronous.
    pub is_async: bool,
}

impl AnnotatedFunction {
    /// A function definition is well formed when its identifier is nonempty,
    /// as every parsed identifier is.
    pub open spec fn wf(self) -> bool {
        self.ident@.len() > 0
    }
}

/// The receiver kind declared by the function's first argument, if its first
/// argument is a receiver at all.
pub open spec fn receiver_of(f: AnnotatedFunction) -> Option<ReceiverKind> {
    if f.inputs@.len() > 0 {
        match f.inputs@[0] {
            FnArg::Receiver(k) => Some(k),
            _ => None,
        }
    } else {
        None
    }
}

/// True when the function's first argument is a receiver.
pub open spec fn first_is_receiver(f: AnnotatedFunction) -> bool {
    receiver_of(f) is Some
}

/// A function is eligible to become an action handler exactly when it is
/// asynchronous and is a method with a receiver.
pub open spec fn eligible(f: AnnotatedFunction) -> bool {
    f.is_async && first_is_receiver(f)
}

} // verus!
