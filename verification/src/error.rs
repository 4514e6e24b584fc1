//! The two ways in which a step can fail at run time.

use vstd::prelude::*;

verus! {

/// Why a step did not produce a value.
#[derive(Clone, Copy, Debug, PartialEq, Eq, Structural)]
pub enum StepError {
    /// The text, once trimmed, is not an integer literal that fits the target type.
    ParseError,
    /// A position lies outside the sequence it was applied to.
    IndexOutOfRange,
}

} // verus!
