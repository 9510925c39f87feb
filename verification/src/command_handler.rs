//! The optional root-level callback that may recover a failure.

use vstd::prelude::*;

verus! {

use crate::error::Error;

/// A fallback callback declared at the root of a command tree: any failure
/// reaching the top is offered to it, and it may convert the failure into a
/// success value.
pub trait CommandHandler<C> {
    /// Handles a failure, either recovering it into a status or passing an
    /// error back out.
    fn handle(&self, error: Error, ctx: &mut C) -> Result<usize, Error>;
}

} // verus!
