use vstd::prelude::*;
use crate::addrreg::AddrReg;
use crate::bits::{bit, with_bit, word, hi_byte, lo_byte, join_word, split_word, lemma_with_bit, lemma_word_split};
use crate::condition::Condition;
use crate::reg::Reg;

verus! {

/// Index of the zero flag in F.
pub const FLAG_Z: usize = 7;
/// Index of the subtract flag in F.
pub const FLAG_N: usize = 6;
/// Index of the half-carry flag in F.
pub const FLAG_H: usize = 5;
/// Index of the carry flag in F.
pub const FLAG_C: usize = 4;

/// The register file of the CPU.
#[derive(Debug, Clone, Copy)]
pub struct Registers {
    /// A: accumulator
    pub a: u8,
    /// F: flag register
    /// | 7 | 6 | 5 | 4 | 3 | 2 | 1 | 0 |
    /// | Z | N | H | C | 0 | 0 | 0 | 0 |
    pub f: u8,
    pub b: u8,
    pub c: u8,
    pub d: u8,
    pub e: u8,
    pub h: u8,
    pub l: u8,
    /// Stack Pointer
    pub sp: u16,
    /// Program Counter
    pub pc: u16,
}

/// A flag index that `get_flag` and `set_flag` accept.
pub open spec fn valid_flag(flag: usize) -> bool {
    4 <= flag <= 7
}

impl Registers {
    /// Value of flag `i` (bit `i` of F).
    pub open spec fn flag(self, i: usize) -> bool {
        bit(self.f, i as u8)
    }

    /// Value of an 8-bit register.
    pub open spec fn get_spec(self, r: Reg) -> u8 {
        match r {
            Reg::A => self.a,
            Reg::B => self.b,
            Reg::C => self.c,
            Reg::D => self.d,
            Reg::E => self.e,
            Reg::H => self.h,
            Reg::L => self.l,
        }
    }

    /// The register file with one 8-bit register replaced.
    pub open spec fn set_spec(self, r: Reg, v: u8) -> Registers {
        match r {
            Reg::A => Registers { a: v, ..self },
            Reg::B => Registers { b: v, ..self },
            Reg::C => Registers { c: v, ..self },
            Reg::D => Registers { d: v, ..self },
            Reg::E => Registers { e: v, ..self },
            Reg::H => Registers { h: v, ..self },
            Reg::L => Registers { l: v, ..self },
        }
    }

    /// The register file with flag `i` set to `v`.
    pub open spec fn set_flag_spec(self, i: usize, v: bool) -> Registers {
        Registers { f: with_bit(self.f, i as u8, v), ..self }
    }

    /// Value of a register pair; for SP the stack pointer itself.
    pub open spec fn pair(self, r: AddrReg) -> u16 {
        match r {
            AddrReg::BC => word(self.b, self.c),
            AddrReg::DE => word(self.d, self.e),
            AddrReg::HL => word(self.h, self.l),
            AddrReg::AF => word(self.a, self.f),
            AddrReg::SP => self.sp,
        }
    }

    /// The register file with a pair set: high byte in the first register, low in the second.
    /// Bits 3 to 0 of F are always 0, so AF keeps only the high nibble of the low byte.
    pub open spec fn set_pair_spec(self, r: AddrReg, v: u16) -> Registers {
        match r {
            AddrReg::BC => Registers { b: hi_byte(v), c: lo_byte(v), ..self },
            AddrReg::DE => Registers { d: hi_byte(v), e: lo_byte(v), ..self },
            AddrReg::HL => Registers { h: hi_byte(v), l: lo_byte(v), ..self },
            AddrReg::AF => Registers { a: hi_byte(v), f: lo_byte(v) & 0xF0u8, ..self },
            AddrReg::SP => Registers { sp: v, ..self },
        }
    }

    /// The layout of F: bits 3 to 0 are always 0.
    pub open spec fn wf(self) -> bool {
        self.f % 16 == 0
    }

    /// What a read of a pair gives after `set_pair_spec(r, v)`: `v`, with the low nibble cleared
    /// for AF.
    pub open spec fn pair_written(r: AddrReg, v: u16) -> u16 {
        if r == AddrReg::AF { v & 0xFFF0u16 } else { v }
    }

    /// Whether a branch condition holds.
    pub open spec fn condition(self, c: Condition) -> bool {
        match c {
            Condition::NZ => !self.flag(7),
            Condition::Z => self.flag(7),
            Condition::NC => !self.flag(4),
            Condition::C => self.flag(4),
        }
    }

    /// The register file at reset.
    pub open spec fn new_spec() -> Registers {
        Registers { a: 0, f: 0, b: 0, c: 0, d: 0, e: 0, h: 0, l: 0, sp: 0xFFFE, pc: 0 }
    }

    /// All registers zero, SP at 0xFFFE and PC at 0.
    pub fn new() -> (r: Self)
        ensures
            r == Self::new_spec(),
            r.wf(),
    {
        Self { a: 0, f: 0, b: 0, c: 0, d: 0, e: 0, h: 0, sp: 0xFFFE, pc: 0x0000, l: 0 }
    }

    /// Reads flag `flag` (4 = C, 5 = H, 6 = N, 7 = Z).
    pub fn get_flag(&self, flag: usize) -> (v: bool)
        requires
            valid_flag(flag),
        ensures
            v == self.flag(flag),
    {
        let fl = flag as u8;
        let f = self.f;
        assert((((f >> fl) & 1u8) != 0) == (((f >> fl) & 1u8) == 1u8)) by (bit_vector);
        ((self.f >> fl) & 1) != 0
    }

    /// Writes flag `flag`; every other bit of F and every other register is unchanged.
    pub fn set_flag(&mut self, flag: usize, value: bool)
        requires
            valid_flag(flag),
        ensures
            *final(self) == old(self).set_flag_spec(flag, value),
            final(self).flag(flag) == value,
            forall|j: usize| j < 8 && j != flag ==> final(self).flag(j) == old(self).flag(j),
            final(self).f % 16 == old(self).f % 16,
    {
        proof {
            lemma_set_flag_keeps_wf(*old(self), flag, value);
        }
        let fl = flag as u8;
        if value {
            self.f = self.f | (1u8 << fl);
        } else {
            self.f = self.f & !(1u8 << fl);
        }
        proof {
            assert forall|j: usize| j < 8 implies
                (j != flag ==> final(self).flag(j) == old(self).flag(j)) && final(self).flag(flag) == value by {
                lemma_with_bit(old(self).f, fl, value, j as u8);
            }
        }
    }

    /// Reads an 8-bit register.
    pub fn get(&self, reg: Reg) -> (v: u8)
        ensures
            v == self.get_spec(reg),
    {
        match reg {
            Reg::A => self.a,
            Reg::B => self.b,
            Reg::C => self.c,
            Reg::D => self.d,
            Reg::E => self.e,
            Reg::H => self.h,
            Reg::L => self.l,
        }
    }

    /// Writes an 8-bit register; the others are unchanged.
    pub fn set(&mut self, reg: Reg, val: u8)
        ensures
            *final(self) == old(self).set_spec(reg, val),
            final(self).get_spec(reg) == val,
    {
        match reg {
            Reg::A => self.a = val,
            Reg::B => self.b = val,
            Reg::C => self.c = val,
            Reg::D => self.d = val,
            Reg::E => self.e = val,
            Reg::H => self.h = val,
            Reg::L => self.l = val,
        }
    }

    /// Reads a register pair, high byte first; SP is not a pair here.
    pub fn get_pair(&self, reg: AddrReg) -> (v: u16)
        requires
            reg != AddrReg::SP,
        ensures
            v == self.pair(reg),
    {
        let (ms, ls) = match reg {
            AddrReg::BC => (self.b, self.c),
            AddrReg::DE => (self.d, self.e),
            AddrReg::HL => (self.h, self.l),
            AddrReg::AF => (self.a, self.f),
            AddrReg::SP => (0, 0),
        };
        join_word(ms, ls)
    }

    /// Writes a register pair (high byte to the first register) or SP.
    pub fn set_pair(&mut self, reg: AddrReg, value: u16)
        ensures
            *final(self) == old(self).set_pair_spec(reg, value),
            final(self).pair(reg) == Self::pair_written(reg, value),
            reg == AddrReg::AF ==> final(self).wf(),
            reg != AddrReg::AF ==> final(self).f == old(self).f,
    {
        proof {
            lemma_pair_after_set(*old(self), reg, value);
            lemma_set_pair_keeps_wf(*old(self), reg, value);
        }
        let (ms, ls) = split_word(value);
        match reg {
            AddrReg::BC => {
                self.b = ms;
                self.c = ls;
            },
            AddrReg::DE => {
                self.d = ms;
                self.e = ls;
            },
            AddrReg::HL => {
                self.h = ms;
                self.l = ls;
            },
            AddrReg::SP => {
                self.sp = value;
            },
            AddrReg::AF => {
                self.a = ms;
                self.f = ls & 0xF0;
            },
        }
    }

    /// Evaluates a branch condition on Z and C.
    pub fn eval_condition(&mut self, condition: Condition) -> (v: bool)
        ensures
            *final(self) == *old(self),
            v == old(self).condition(condition),
    {
        match condition {
            Condition::NZ => !self.get_flag(7),
            Condition::Z => self.get_flag(7),
            Condition::NC => !self.get_flag(4),
            Condition::C => self.get_flag(4),
        }
    }
}

/// Reading an 8-bit register gives what the last `set` of it wrote; setting one register leaves
/// the others unchanged.
pub proof fn lemma_get_after_set(r: Registers, x: Reg, y: Reg, v: u8)
    ensures
        r.set_spec(x, v).get_spec(y) == (if x == y { v } else { r.get_spec(y) }),
        r.set_spec(x, v).sp == r.sp && r.set_spec(x, v).pc == r.pc && r.set_spec(x, v).f == r.f,
{
}

/// Reading a register pair gives the word that the last `set_pair` of it wrote, with bits 3 to 0
/// cleared for AF.
pub proof fn lemma_pair_after_set(r: Registers, p: AddrReg, v: u16)
    ensures
        r.set_pair_spec(p, v).pair(p) == Registers::pair_written(p, v),
{
    lemma_word_split(v);
    assert((((v / 256) as u8) as u16 * 256 + (((v % 256) as u8) & 0xF0u8) as u16) as u16 == v & 0xFFF0u16)
        by (bit_vector);
}

/// Setting AF leaves bits 3 to 0 of F clear; setting another pair leaves F alone.
pub broadcast proof fn lemma_set_pair_keeps_wf(r: Registers, p: AddrReg, v: u16)
    ensures
        p == AddrReg::AF ==> #[trigger] r.set_pair_spec(p, v).wf(),
        p != AddrReg::AF ==> r.set_pair_spec(p, v).f == r.f,
{
    let lo = lo_byte(v);
    assert((lo & 0xF0u8) % 16 == 0) by (bit_vector);
}

/// Setting a flag leaves bits 3 to 0 of F as they were.
pub broadcast proof fn lemma_set_flag_keeps_wf(r: Registers, i: usize, v: bool)
    requires
        valid_flag(i),
    ensures
        #[trigger] r.set_flag_spec(i, v).f % 16 == r.f % 16,
{
    let x = r.f;
    let b = i as u8;
    assert(4 <= b < 8 ==> (x | (1u8 << b)) % 16 == x % 16 && (x & !(1u8 << b)) % 16 == x % 16) by (bit_vector);
}

/// Reading a flag gives what the last `set_flag` of it wrote; the other flags are unchanged.
pub proof fn lemma_flag_after_set(r: Registers, i: usize, j: usize, v: bool)
    requires
        valid_flag(i),
        valid_flag(j),
    ensures
        r.set_flag_spec(i, v).flag(j) == (if i == j { v } else { r.flag(j) }),
{
    lemma_with_bit(r.f, i as u8, v, j as u8);
}

/// The flag operations touch only bits 4 to 7 of F: bits 0 to 3 keep their value.
pub proof fn lemma_flags_keep_low_bits(r: Registers, i: usize, v: bool, j: usize)
    requires
        valid_flag(i),
        j < 4,
    ensures
        r.set_flag_spec(i, v).flag(j) == r.flag(j),
{
    lemma_with_bit(r.f, i as u8, v, j as u8);
}

} // verus!
