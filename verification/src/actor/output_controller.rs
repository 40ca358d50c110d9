//! The actor that drives the outputs.
use vstd::prelude::*;

verus! {

/// The actor that drives the outputs.
#[derive(Debug, Clone, Copy, PartialEq, Eq, Structural)]
pub struct OutputController;

impl OutputController {
    pub fn new() -> (r: Self)
        ensures
            r == OutputController,
    {
        OutputController
    }
}

} // verus!
