use vstd::prelude::*;
use crate::addrreg::AddrReg;
use crate::reg::Reg;

verus! {

/// Where an 8-bit operand lives.
#[derive(Debug, Clone, Copy, PartialEq, Eq, Structural)]
pub enum DataLoc {
    Reg(Reg),
    AddrReg(AddrReg),
    Addr(u16),
    Value(u8),
}

} // verus!
