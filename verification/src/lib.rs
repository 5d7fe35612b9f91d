//! Builder-pattern synthesis.
//!
//! Given a description of a product type (its name and its ordered list of
//! named fields), this library synthesizes the companion builder: a staging
//! type with one optional slot per field, a zero-argument constructor for an
//! empty builder, one fluent setter per field, and a finalizer that constructs
//! the target value once every slot is populated and reports an incomplete
//! builder otherwise.
//!
//! The library has two halves. The synthesizers in [`synth`] emit the builder
//! as a code artifact (source text), a pure function of the descriptor. The
//! [`staging`] module gives the same builder semantics as a verified data
//! type, so that the behaviour the emitted code is meant to have (slot counts,
//! overwrite semantics, completeness before construction) is stated and proved
//! rather than only printed.

use vstd::prelude::*;

pub mod descriptor;
pub mod staging;
pub mod synth;
pub mod value;

verus! {

/// The suffix appended to a type's name to form its builder's name.
pub open spec fn builder_suffix() -> Seq<char> {
    "Builder"@
}

/// Derive the builder type's name: the target type's name followed by the
/// fixed suffix. No collision check is made; resolving a clash is left to
/// whatever integrates the generated code.
pub fn builder_ident(name: &str) -> (r: String)
    ensures
        r@ == name@ + builder_suffix(),
{
    let mut out = name.to_owned();
    out.append("Builder");
    out
}

} // verus!
