//! Error kinds for the simulation core.

use vstd::prelude::*;

verus! {

/// Every failure the core can report, each with the single condition that
/// produces it.
#[derive(Clone, Copy, Debug, PartialEq, Eq, Structural)]
pub enum PipeError {
    /// A grid was requested with a dimension that is zero or negative.
    InvalidDimension,
    /// A grid cell was addressed outside the declared bounds.
    OutOfBounds,
    /// A direction was decoded from an integer outside `[0, 5]`.
    InvalidDirectionCode,
    /// No unoccupied spawn cell was found within the retry budget.
    NoFreeSpace,
    /// A pipe handle did not refer to any pipe.
    IndexOutOfRange,
}

} // verus!
