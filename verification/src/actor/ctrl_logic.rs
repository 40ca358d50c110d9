//! The control-logic actor, which consumes input data.
use vstd::prelude::*;

verus! {

/// The control-logic actor, which consumes input data.
#[derive(Debug, Clone, Copy, PartialEq, Eq, Structural)]
pub struct CtrlLogic;

impl CtrlLogic {
    pub fn new() -> (r: Self)
        ensures
            r == CtrlLogic,
    {
        CtrlLogic
    }
}

} // verus!
