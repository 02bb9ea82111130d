use vstd::prelude::*;

verus! {

/// Branch condition on the Z and C flags.
#[derive(Debug, Clone, Copy, PartialEq, Eq, Structural)]
pub enum Condition {
    /// Z reset
    NZ,
    /// Z set
    Z,
    /// C reset
    NC,
    /// C set
    C,
}

} // verus!
