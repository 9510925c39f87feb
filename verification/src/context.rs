//! The default execution context handed through to resolvers.

use vstd::prelude::*;

verus! {

/// An empty execution context for applications that need none of their own.
#[derive(Debug)]
pub struct Context {}

impl std::default::Default for Context {
    /// Returns an empty context.
    fn default() -> (r: Self)
        ensures
            r == (Context {  }),
    {
        Context {  }
    }
}

} // verus!
