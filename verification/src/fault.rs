use vstd::prelude::*;

verus! {

/// The closed taxonomy of faults the facade can report.
///
/// Every fault marks a capability gap or a protocol violation, never a
/// transient condition, so none of them is ever retried.
#[derive(Clone, Copy, Debug, PartialEq, Eq, Structural)]
pub enum Fault {
    /// Dispatch was requested for an operator tag with no mapped foreign
    /// primitive.
    UnsupportedOperator,
    /// Sort introspection met a foreign sort kind outside boolean and
    /// bit-vector.
    UnhandledSort,
    /// The foreign solve call returned a status outside the two documented
    /// outcomes.
    InternalConsistency,
}

} // verus!
