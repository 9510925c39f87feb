//! Compact error codes for the most common resolution failures.

use vstd::prelude::*;

verus! {

/// A compact code naming a resolution failure.
#[derive(Debug, Clone, PartialEq, Eq, Structural)]
pub enum ErrorCode {
    UnknownCommand,
    UnknownFlag,
    MissingFlagValue,
    MissingResolver,
}

impl ErrorCode {
    /// Returns the numeric value of the code.
    pub fn code(&self) -> (r: usize)
        ensures
            r == match self {
                ErrorCode::UnknownCommand => 1usize,
                ErrorCode::UnknownFlag => 2usize,
                ErrorCode::MissingFlagValue => 3usize,
                ErrorCode::MissingResolver => 4usize,
            },
    {
        match self {
            ErrorCode::UnknownCommand => 1,
            ErrorCode::UnknownFlag => 2,
            ErrorCode::MissingFlagValue => 3,
            ErrorCode::MissingResolver => 4,
        }
    }
}

} // verus!
