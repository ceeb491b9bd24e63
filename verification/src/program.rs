//! The input payload of execute and prove requests.

use vstd::prelude::*;

verus! {

/// The application-defined input that a request hands to a program.
#[derive(Debug, Clone, Copy, PartialEq, Eq, Structural)]
pub struct ProgramInput {
    pub value1: u32,
    pub value2: u16,
}

impl ProgramInput {
    /// An input with every field zero, for exercising engines that ignore it.
    pub fn test_input() -> (res: Self)
        ensures
            res == (ProgramInput { value1: 0, value2: 0 }),
    {
        ProgramInput { value1: 0, value2: 0 }
    }
}

} // verus!
