//! The actor that reads the inputs.
use vstd::prelude::*;

verus! {

/// The actor that reads the inputs.
#[derive(Debug, Clone, Copy, PartialEq, Eq, Structural)]
pub struct InputController;

impl InputController {
    pub fn new() -> (r: Self)
        ensures
            r == InputController,
    {
        InputController
    }
}

} // verus!
