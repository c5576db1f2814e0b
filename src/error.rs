use vstd::prelude::*;

verus! {

/// The failures a query can end in.
#[derive(Clone, Copy, Debug, PartialEq, Eq, Structural)]
pub enum QueryError {
    /// A data file the engine needs at start-up is missing or malformed.
    EngineInitFailure,
    /// The shared engine handle can no longer be used.
    EngineUnavailable,
    /// A field the operation cannot do without was not supplied.
    MissingParameter,
    /// A value's unit tag disagrees with the unit system it was expected in.
    UnitMismatch,
    /// The chosen output format could not render the value.
    EncodingFailure,
}

} // verus!
