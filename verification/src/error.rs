//! The error values of the capture and merge operations.

use vstd::prelude::*;

verus! {

/// Error while trying to write coverage data.
///
/// This only happens if the `CoverageWriter` implementation returns an error.
#[derive(Copy, Clone, Debug, PartialEq, Eq, Structural)]
pub struct CoverageWriteError;

/// Error type returned when trying to merge incompatible coverage data.
///
/// This typically happens if the coverage data comes from a different binary.
#[derive(Copy, Clone, Debug, PartialEq, Eq, Structural)]
pub struct IncompatibleCoverageData;

impl CoverageWriteError {
    /// The text that describes this error.
    pub fn message(&self) -> (text: &'static str)
        ensures
            text@ == "error while writing coverage data"@,
    {
        "error while writing coverage data"
    }
}

impl IncompatibleCoverageData {
    /// The text that describes this error.
    pub fn message(&self) -> (text: &'static str)
        ensures
            text@ == "incompatible coverage data"@,
    {
        "incompatible coverage data"
    }
}

} // verus!
