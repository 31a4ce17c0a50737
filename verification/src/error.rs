//! The ways in which building a statement can fail.

use vstd::prelude::*;

verus! {

/// Why a builder refused a call.
#[derive(Clone, Copy, Debug, PartialEq, Eq, Structural)]
pub enum Error {
    /// A mutator of one data form was called on another form.
    ShapeViolation,
    /// A table reference was asked for a shape that it does not hold.
    ConversionViolation,
    /// A value cannot stand as structured content.
    SerializationViolation,
    /// An expression was found in a shape that no constructor makes.
    InternalInconsistency,
}

} // verus!
