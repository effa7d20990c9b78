//! Synthesis of remote-invokable "action" adapters from annotated method
//! definitions.
//!
//! A service author writes one asynchronous method per operation and marks it
//! with an attribute.  This library performs the whole compile-time pipeline
//! behind that attribute on an explicit syntax model: it parses the
//! attribute's configuration tokens, validates the method's declared shape,
//! classifies its return type, and synthesizes a registration record plus a
//! handler-body plan.  A separate runtime model states exactly what the
//! synthesized handler does with the method's outcome.

pub mod ast;
pub mod classify;
pub mod handler;
pub mod options;
pub mod params;
pub mod synth;
pub mod validate;
pub mod values;
