//! State of the full-screen terminal interface.
use vstd::prelude::*;

verus! {

/// State of the full-screen terminal interface.
#[derive(Debug)]
pub struct UI {
    /// Whether the terminal has been switched to full-screen mode.
    pub initialized: bool,
}

impl UI {
    pub fn new() -> (r: Self)
        ensures
            !r.initialized,
    {
        UI { initialized: false }
    }
}

} // verus!
