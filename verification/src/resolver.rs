//! The per-command capability that performs the actual work of an invocation.

use vstd::prelude::*;

verus! {

use crate::error::Error;
use crate::intent::Intent;

/// A per-command callback: it receives the fully resolved intent and the
/// execution context and returns an application status or an error.
pub trait Resolver<C> {
    /// Performs the command's work for one invocation.
    fn resolve(&self, intent: &Intent, ctx: &mut C) -> Result<usize, Error>;
}

} // verus!
