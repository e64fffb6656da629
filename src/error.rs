//! The failures that the engine reports.
use vstd::prelude::*;

verus! {

#[derive(Clone, Copy, Debug, PartialEq, Eq)]
pub enum SimulationError {
    /// A direction was asked for between two coincident points.
    DegenerateGeometry,
    /// A result was not a finite number, or a mass was not positive.
    NumericInvalid,
}

} // verus!
