//! A verified model of a deep-merge implementation generator.
//!
//! Given the structural description of an aggregate type (its name, generic
//! parameters, and field shape), the generator produces the plan of a `merge`
//! procedure: one statement per field, each delegating to that field's own
//! merge capability, short-circuiting on the first failure. Variant-bearing
//! (enum-like) shapes are rejected at generation time.
//!
//! The modules split the work as the generator does:
//! - [`model`] holds the descriptions the generator consumes and produces;
//! - [`bounds`] propagates the merge-capability bound to generic parameters;
//! - [`emit`] classifies the field shape and emits the merge plan;
//! - [`semantics`] gives the emitted plan its runtime meaning: a verified
//!   interpreter for the generated procedure;
//! - [`laws`] proves the behavioural guarantees of emitted plans.

pub mod model;
pub mod bounds;
pub mod emit;
pub mod semantics;
pub mod laws;
