use vstd::prelude::*;

verus! {

/// A 16-bit register or register pair.
#[derive(Debug, Clone, Copy, PartialEq, Eq, Structural)]
pub enum AddrReg {
    /// (BC)
    BC,
    /// (DE)
    DE,
    /// (HL)
    HL,
    SP,
    AF,
}

} // verus!
