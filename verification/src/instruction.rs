use vstd::prelude::*;
use crate::addrreg::AddrReg;
use crate::condition::Condition;
use crate::dataloc::DataLoc;

verus! {

/// A decoded CPU instruction.
#[derive(Debug, Clone, Copy)]
pub enum Instruction {
    LD(DataLoc, DataLoc),
    LD5,
    LD6,
    LDD(DataLoc, DataLoc),
    LDI(DataLoc, DataLoc),
    LDH1(u8),
    LDH2(u8),
    LD16(AddrReg, u16),
    LDSPHL,
    LDHL(i8),
    LDnn(u16),
    PUSH(AddrReg),
    POP(AddrReg),
    ADD(DataLoc),
    ADC(DataLoc),
    SUB(DataLoc),
    SBC(DataLoc),
    AND(DataLoc),
    OR(DataLoc),
    XOR(DataLoc),
    CP(DataLoc),
    INC(DataLoc),
    DEC(DataLoc),
    ADD16(AddrReg),
    ADD16n(i8),
    INC16(AddrReg),
    DEC16(AddrReg),
    SWAP(DataLoc),
    DAA,
    CPL,
    CCF,
    SCF,
    NOP,
    HALT,
    STOP,
    DI,
    EI,
    RLCA,
    RLA,
    RRCA,
    RRA,
    RLC(DataLoc),
    RL(DataLoc),
    RRC(DataLoc),
    RR(DataLoc),
    SLA(DataLoc),
    SRA(DataLoc),
    SRL(DataLoc),
    BIT(u8, DataLoc),
    SET(u8, DataLoc),
    RES(u8, DataLoc),
    JP1(u16),
    JP2(Condition, u16),
    JP3,
    JR4(i8),
    JR5(Condition, i8),
    CALL(u16),
    CALLc(Condition, u16),
    RST(u8),
    RET,
    RETc(Condition),
    RETI,
}

/// Clock cycles of an 8-bit load, for the operand pairs that have a timing.
pub open spec fn ld_cycles(a: DataLoc, b: DataLoc) -> Option<u8> {
    match (a, b) {
        (DataLoc::Reg(_), DataLoc::Reg(_)) => Some(4),
        (DataLoc::Reg(_), DataLoc::AddrReg(_)) => Some(8),
        (DataLoc::Reg(_), DataLoc::Addr(_)) => Some(16),
        (DataLoc::Reg(_), DataLoc::Value(_)) => Some(8),
        (DataLoc::AddrReg(_), DataLoc::Reg(_)) => Some(8),
        (DataLoc::AddrReg(_), DataLoc::Value(_)) => Some(12),
        (DataLoc::Addr(_), DataLoc::Reg(_)) => Some(16),
        _ => None,
    }
}

/// Cycles of rotate, shift, SET and RES: 16 on (HL), else 8.
pub open spec fn rotate_shift_cycles(v: DataLoc) -> u8 {
    match v {
        DataLoc::AddrReg(_) => 16,
        _ => 8,
    }
}

/// Cycles of BIT: 12 on (HL), else 8.
pub open spec fn bit_cycles(v: DataLoc) -> u8 {
    match v {
        DataLoc::AddrReg(_) => 12,
        _ => 8,
    }
}

/// Cycles of the 8-bit ALU operations: 8 with a memory or immediate operand, else 4.
pub open spec fn arith_cycles(v: DataLoc) -> u8 {
    match v {
        DataLoc::AddrReg(_) => 8,
        DataLoc::Value(_) => 8,
        _ => 4,
    }
}

/// Cycles of INC and DEC: 12 on (HL), else 4.
pub open spec fn inc_dec_cycles(v: DataLoc) -> u8 {
    match v {
        DataLoc::AddrReg(_) => 12,
        _ => 4,
    }
}

impl Instruction {
    /// Whether the instruction has a timing (every one does but some 8-bit load forms).
    pub open spec fn has_timing(self) -> bool {
        match self {
            Instruction::LD(a, b) => ld_cycles(a, b).is_some(),
            _ => true,
        }
    }

    /// Clock cycles the instruction takes.
    pub open spec fn cycles(self) -> u8 {
        match self {
            Instruction::LD(a, b) => ld_cycles(a, b).unwrap(),
            Instruction::LD5 | Instruction::LD6 | Instruction::LDD(_, _) | Instruction::LDI(_, _) => 8,
            Instruction::LDH1(_) | Instruction::LDH2(_) | Instruction::LD16(_, _) => 12,
            Instruction::LDSPHL => 8,
            Instruction::LDHL(_) => 12,
            Instruction::LDnn(_) => 20,
            Instruction::PUSH(_) => 16,
            Instruction::POP(_) => 12,
            Instruction::ADD(v) | Instruction::ADC(v) | Instruction::SUB(v) | Instruction::SBC(v)
            | Instruction::AND(v) | Instruction::OR(v) | Instruction::XOR(v) | Instruction::CP(v) =>
                arith_cycles(v),
            Instruction::INC(v) | Instruction::DEC(v) => inc_dec_cycles(v),
            Instruction::ADD16(_) => 8,
            Instruction::ADD16n(_) => 16,
            Instruction::INC16(_) | Instruction::DEC16(_) => 8,
            Instruction::SWAP(v) => rotate_shift_cycles(v),
            Instruction::DAA | Instruction::CPL | Instruction::CCF | Instruction::SCF
            | Instruction::NOP | Instruction::HALT | Instruction::STOP | Instruction::DI
            | Instruction::EI | Instruction::RLCA | Instruction::RLA | Instruction::RRCA
            | Instruction::RRA => 4,
            Instruction::RLC(v) | Instruction::RL(v) | Instruction::RRC(v) | Instruction::RR(v)
            | Instruction::SLA(v) | Instruction::SRA(v) | Instruction::SRL(v) => rotate_shift_cycles(v),
            Instruction::BIT(_, v) => bit_cycles(v),
            Instruction::SET(_, v) | Instruction::RES(_, v) => rotate_shift_cycles(v),
            Instruction::JP1(_) => 16,
            Instruction::JP2(_, _) => 12,
            Instruction::JP3 => 4,
            Instruction::JR4(_) => 12,
            Instruction::JR5(_, _) => 8,
            Instruction::CALL(_) => 24,
            Instruction::CALLc(_, _) => 12,
            Instruction::RST(_) => 16,
            Instruction::RET => 16,
            Instruction::RETc(_) => 8,
            Instruction::RETI => 16,
        }
    }

    /// Whether the instruction has a timing.
    pub fn has_timing_exec(&self) -> (b: bool)
        ensures
            b == self.has_timing(),
    {
        match self {
            Instruction::LD(a, b) => match (a, b) {
                (DataLoc::Reg(_), DataLoc::Reg(_)) | (DataLoc::Reg(_), DataLoc::AddrReg(_))
                | (DataLoc::Reg(_), DataLoc::Addr(_)) | (DataLoc::Reg(_), DataLoc::Value(_))
                | (DataLoc::AddrReg(_), DataLoc::Reg(_)) | (DataLoc::AddrReg(_), DataLoc::Value(_))
                | (DataLoc::Addr(_), DataLoc::Reg(_)) => true,
                _ => false,
            },
            _ => true,
        }
    }

    /// Clock cycles the instruction takes.
    pub fn clock_cycles(&self) -> (c: u8)
        requires
            self.has_timing(),
        ensures
            c == self.cycles(),
    {
        match self {
            Instruction::LD(a, b) => match (a, b) {
                (DataLoc::Reg(_), DataLoc::Reg(_)) => 4,
                (DataLoc::Reg(_), DataLoc::AddrReg(_)) => 8,
                (DataLoc::Reg(_), DataLoc::Addr(_)) => 16,
                (DataLoc::Reg(_), DataLoc::Value(_)) => 8,
                (DataLoc::AddrReg(_), DataLoc::Reg(_)) => 8,
                (DataLoc::AddrReg(_), DataLoc::Value(_)) => 12,
                (DataLoc::Addr(_), DataLoc::Reg(_)) => 16,
                _ => 0,
            },
            Instruction::LD5 => 8,
            Instruction::LD6 => 8,
            Instruction::LDD(_, _) => 8,
            Instruction::LDI(_, _) => 8,
            Instruction::LDH1(_) => 12,
            Instruction::LDH2(_) => 12,
            Instruction::LD16(_, _) => 12,
            Instruction::LDSPHL => 8,
            Instruction::LDHL(_) => 12,
            Instruction::LDnn(_) => 20,
            Instruction::PUSH(_) => 16,
            Instruction::POP(_) => 12,
            Instruction::ADD(v) => Self::simple_arith_clock_cycles(v),
            Instruction::ADC(v) => Self::simple_arith_clock_cycles(v),
            Instruction::SUB(v) => Self::simple_arith_clock_cycles(v),
            Instruction::SBC(v) => Self::simple_arith_clock_cycles(v),
            Instruction::AND(v) => Self::simple_arith_clock_cycles(v),
            Instruction::OR(v) => Self::simple_arith_clock_cycles(v),
            Instruction::XOR(v) => Self::simple_arith_clock_cycles(v),
            Instruction::CP(v) => Self::simple_arith_clock_cycles(v),
            Instruction::INC(v) => match v {
                DataLoc::Reg(_) => 4,
                DataLoc::AddrReg(_) => 12,
                _ => 4,
            },
            Instruction::DEC(v) => match v {
                DataLoc::Reg(_) => 4,
                DataLoc::AddrReg(_) => 12,
                _ => 4,
            },
            Instruction::ADD16(_) => 8,
            Instruction::ADD16n(_) => 16,
            Instruction::INC16(_) => 8,
            Instruction::DEC16(_) => 8,
            Instruction::SWAP(v) => match v {
                DataLoc::Reg(_) => 8,
                DataLoc::AddrReg(_) => 16,
                _ => 8,
            },
            Instruction::DAA => 4,
            Instruction::CPL => 4,
            Instruction::CCF => 4,
            Instruction::SCF => 4,
            Instruction::NOP => 4,
            Instruction::HALT => 4,
            Instruction::STOP => 4,
            Instruction::DI => 4,
            Instruction::EI => 4,
            Instruction::RLCA => 4,
            Instruction::RLA => 4,
            Instruction::RRCA => 4,
            Instruction::RRA => 4,
            Instruction::RLC(v) => Self::clock_cycles_rotate_shift(v),
            Instruction::RL(v) => Self::clock_cycles_rotate_shift(v),
            Instruction::RRC(v) => Self::clock_cycles_rotate_shift(v),
            Instruction::RR(v) => Self::clock_cycles_rotate_shift(v),
            Instruction::SLA(v) => Self::clock_cycles_rotate_shift(v),
            Instruction::SRA(v) => Self::clock_cycles_rotate_shift(v),
            Instruction::SRL(v) => Self::clock_cycles_rotate_shift(v),
            Instruction::BIT(_, v) => Self::clock_cycles_bit(v),
            Instruction::SET(_, v) => Self::clock_cycles_rotate_shift(v),
            Instruction::RES(_, v) => Self::clock_cycles_rotate_shift(v),
            Instruction::JP1(_) => 16,
            Instruction::JP2(_, _) => 12,
            Instruction::JP3 => 4,
            Instruction::JR4(_) => 12,
            Instruction::JR5(_, _) => 8,
            Instruction::CALL(_) => 24,
            Instruction::CALLc(_, _) => 12,
            Instruction::RST(_) => 16,
            Instruction::RET => 16,
            Instruction::RETc(_) => 8,
            Instruction::RETI => 16,
        }
    }

    fn clock_cycles_rotate_shift(v: &DataLoc) -> (c: u8)
        ensures
            c == rotate_shift_cycles(*v),
    {
        match v {
            DataLoc::Reg(_) => 8,
            DataLoc::AddrReg(_) => 16,
            _ => 8,
        }
    }

    fn clock_cycles_bit(v: &DataLoc) -> (c: u8)
        ensures
            c == bit_cycles(*v),
    {
        match v {
            DataLoc::Reg(_) => 8,
            DataLoc::AddrReg(_) => 12,
            _ => 8,
        }
    }

    fn simple_arith_clock_cycles(v: &DataLoc) -> (c: u8)
        ensures
            c == arith_cycles(*v),
    {
        match v {
            DataLoc::Reg(_) => 4,
            DataLoc::AddrReg(_) => 8,
            DataLoc::Value(_) => 8,
            _ => 4,
        }
    }

    /// Machine cycles (a quarter of the clock cycles).
    pub fn machine_cycles(&self) -> (m: u8)
        requires
            self.has_timing(),
        ensures
            m == self.cycles() / 4,
    {
        self.clock_cycles() / 4
    }
}

} // verus!
