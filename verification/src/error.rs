//! What the proxy refuses.

use vstd::prelude::*;

verus! {

/// Why the proxy could not be set up.
#[derive(Debug, Clone, Copy, PartialEq, Eq, Structural)]
pub enum InitError {
    /// The proxy already has its configuration.
    AlreadyInitialized,
}

/// Why a callback did not run.
#[derive(Debug, Clone, Copy, PartialEq, Eq, Structural)]
pub enum ContinuationError {
    /// Someone other than the proxy itself called it.
    Unauthorized,
}

impl InitError {
    /// The text with which the contract aborts on this error.
    pub open spec fn spec_message(self) -> Seq<char> {
        "Already initialized"@
    }

    pub fn message(&self) -> (message: &'static str)
        ensures
            message@ == self.spec_message(),
    {
        "Already initialized"
    }
}

} // verus!
