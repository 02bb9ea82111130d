use vstd::prelude::*;

verus! {

/// An 8-bit register of the CPU that instructions name directly.
#[derive(Debug, Clone, Copy, PartialEq, Eq, Structural)]
pub enum Reg {
    A,
    B,
    C,
    D,
    E,
    H,
    L,
}

} // verus!
