//! Completion tokens: the fence-like handles that order GPU-side work.
//!
//! Every stage takes the previous stage's token as its wait-dependency and
//! hands back a strictly later one, so one frame forms a single linear
//! dependency chain (trace, then accumulate, then present). The backend
//! that executes dispatch records must signal tokens in id order; callers
//! must not read a stage's output before its token resolves.

use vstd::prelude::*;

verus! {

/// An opaque handle for the completion of previously submitted work.
/// Tokens issued later in a chain carry strictly greater ids.
#[derive(Clone, Copy, Debug, PartialEq, Eq, Structural)]
pub struct CompletionToken {
    pub id: u64,
}

impl CompletionToken {
    /// The start of a dependency chain, before any work was submitted.
    pub fn initial() -> (r: CompletionToken)
        ensures
            r.id == 0,
    {
        CompletionToken { id: 0 }
    }

    /// The token the next stage in the chain signals.
    pub fn next(&self) -> (r: CompletionToken)
        requires
            self.id < u64::MAX,
        ensures
            r.id == self.id + 1,
    {
        CompletionToken { id: self.id + 1 }
    }
}

} // verus!
