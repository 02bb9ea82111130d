use vstd::prelude::*;
use crate::addrreg::AddrReg;
use crate::bits::{word, join_word};
use crate::condition::Condition;
use crate::dataloc::DataLoc;
use crate::instruction::Instruction;
use crate::reg::Reg;

verus! {

/// The operand that a 3-bit register code names: B, C, D, E, H, L, (HL), A.
pub open spec fn reg_code(e: int) -> DataLoc {
    if e == 0 {
        DataLoc::Reg(Reg::B)
    } else if e == 1 {
        DataLoc::Reg(Reg::C)
    } else if e == 2 {
        DataLoc::Reg(Reg::D)
    } else if e == 3 {
        DataLoc::Reg(Reg::E)
    } else if e == 4 {
        DataLoc::Reg(Reg::H)
    } else if e == 5 {
        DataLoc::Reg(Reg::L)
    } else if e == 6 {
        DataLoc::AddrReg(AddrReg::HL)
    } else {
        DataLoc::Reg(Reg::A)
    }
}

/// The register pair a 2-bit code names in 16-bit loads and arithmetic: BC, DE, HL, SP.
pub open spec fn pair_code(e: int) -> AddrReg {
    if e == 0 {
        AddrReg::BC
    } else if e == 1 {
        AddrReg::DE
    } else if e == 2 {
        AddrReg::HL
    } else {
        AddrReg::SP
    }
}

/// The register pair a 2-bit code names in PUSH and POP: BC, DE, HL, AF.
pub open spec fn stack_pair_code(e: int) -> AddrReg {
    if e == 0 {
        AddrReg::BC
    } else if e == 1 {
        AddrReg::DE
    } else if e == 2 {
        AddrReg::HL
    } else {
        AddrReg::AF
    }
}

/// The condition a 2-bit code names: NZ, Z, NC, C.
pub open spec fn cond_code(e: int) -> Condition {
    if e == 0 {
        Condition::NZ
    } else if e == 1 {
        Condition::Z
    } else if e == 2 {
        Condition::NC
    } else {
        Condition::C
    }
}

/// The 8-bit ALU operation a 3-bit code names: ADD, ADC, SUB, SBC, AND, XOR, OR, CP.
pub open spec fn alu_code(e: int, l: DataLoc) -> Instruction {
    if e == 0 {
        Instruction::ADD(l)
    } else if e == 1 {
        Instruction::ADC(l)
    } else if e == 2 {
        Instruction::SUB(l)
    } else if e == 3 {
        Instruction::SBC(l)
    } else if e == 4 {
        Instruction::AND(l)
    } else if e == 5 {
        Instruction::XOR(l)
    } else if e == 6 {
        Instruction::OR(l)
    } else {
        Instruction::CP(l)
    }
}

/// Number of operand bytes that follow an opcode (the second byte of 0xCB and of STOP included).
pub open spec fn operand_count(op: u8) -> nat {
    if op == 0xFA || op == 0xEA || op == 0x08 || op == 0xC3 || op == 0xCD
        || (op < 0x40 && op % 16 == 1)
        || (op >= 0xC0 && op % 8 == 2 && op <= 0xDA)
        || (op >= 0xC0 && op % 8 == 4 && op <= 0xDC) {
        2
    } else if (op < 0x40 && op % 8 == 6) || (op >= 0xC0 && op % 8 == 6)
        || op == 0xE0 || op == 0xF0 || op == 0xF8 || op == 0xE8
        || op == 0x18 || op == 0x20 || op == 0x28 || op == 0x30 || op == 0x38
        || op == 0x10 || op == 0xCB {
        1
    } else {
        0
    }
}

/// The instruction a 0xCB-prefixed byte encodes.
pub open spec fn decode_cb_spec(p: u8) -> Instruction {
    let b = (p / 8 % 8) as u8;
    let r = reg_code((p % 8) as int);
    if p < 0x40 {
        if b == 0 {
            Instruction::RLC(r)
        } else if b == 1 {
            Instruction::RRC(r)
        } else if b == 2 {
            Instruction::RL(r)
        } else if b == 3 {
            Instruction::RR(r)
        } else if b == 4 {
            Instruction::SLA(r)
        } else if b == 5 {
            Instruction::SRA(r)
        } else if b == 6 {
            Instruction::SWAP(r)
        } else {
            Instruction::SRL(r)
        }
    } else if p < 0x80 {
        Instruction::BIT(b, r)
    } else if p < 0xC0 {
        Instruction::RES(b, r)
    } else {
        Instruction::SET(b, r)
    }
}

/// The instruction that opcode `op` with operand bytes `b1`, `b2` encodes; None for the opcodes
/// that are not implemented and for STOP with a second byte other than zero.
pub open spec fn decode_spec(op: u8, b1: u8, b2: u8) -> Option<Instruction> {
    let w = word(b2, b1);
    let e = b1 as i8;
    let y = (op / 8 % 8) as int;
    let z = (op % 8) as int;
    let x = (op / 16) as int;
    if op == 0x76 {
        Some(Instruction::HALT)
    } else if 0x40 <= op < 0x80 {
        Some(Instruction::LD(reg_code(y), reg_code(z)))
    } else if 0x80 <= op < 0xC0 {
        Some(alu_code(y, reg_code(z)))
    } else if op < 0x40 && z == 4 {
        Some(Instruction::INC(reg_code(y)))
    } else if op < 0x40 && z == 5 {
        Some(Instruction::DEC(reg_code(y)))
    } else if op < 0x40 && z == 6 {
        Some(Instruction::LD(reg_code(y), DataLoc::Value(b1)))
    } else if op >= 0xC0 && z == 6 {
        Some(alu_code(y, DataLoc::Value(b1)))
    } else if op >= 0xC0 && z == 7 {
        Some(Instruction::RST((y * 8) as u8))
    } else if op < 0x40 && z == 3 {
        if y % 2 == 0 {
            Some(Instruction::INC16(pair_code(y / 2)))
        } else {
            Some(Instruction::DEC16(pair_code(y / 2)))
        }
    } else if op < 0x40 && op % 16 == 1 {
        Some(Instruction::LD16(pair_code(x), w))
    } else if op < 0x40 && op % 16 == 9 {
        Some(Instruction::ADD16(pair_code(x)))
    } else if op >= 0xC0 && op % 16 == 5 {
        Some(Instruction::PUSH(stack_pair_code(x - 12)))
    } else if op >= 0xC0 && op % 16 == 1 {
        Some(Instruction::POP(stack_pair_code(x - 12)))
    } else if op >= 0xC0 && op <= 0xDA && z == 2 {
        Some(Instruction::JP2(cond_code(y), w))
    } else if op >= 0xC0 && op <= 0xDC && z == 4 {
        Some(Instruction::CALLc(cond_code(y), w))
    } else if op >= 0xC0 && op <= 0xD8 && z == 0 {
        Some(Instruction::RETc(cond_code(y)))
    } else if op >= 0x20 && op <= 0x38 && z == 0 {
        Some(Instruction::JR5(cond_code(y - 4), e))
    } else if op == 0x0A {
        Some(Instruction::LD(DataLoc::Reg(Reg::A), DataLoc::AddrReg(AddrReg::BC)))
    } else if op == 0x1A {
        Some(Instruction::LD(DataLoc::Reg(Reg::A), DataLoc::AddrReg(AddrReg::DE)))
    } else if op == 0xFA {
        Some(Instruction::LD(DataLoc::Reg(Reg::A), DataLoc::Addr(w)))
    } else if op == 0x02 {
        Some(Instruction::LD(DataLoc::AddrReg(AddrReg::BC), DataLoc::Reg(Reg::A)))
    } else if op == 0x12 {
        Some(Instruction::LD(DataLoc::AddrReg(AddrReg::DE), DataLoc::Reg(Reg::A)))
    } else if op == 0xEA {
        Some(Instruction::LD(DataLoc::Addr(w), DataLoc::Reg(Reg::A)))
    } else if op == 0xF2 {
        Some(Instruction::LD5)
    } else if op == 0xE2 {
        Some(Instruction::LD6)
    } else if op == 0xE0 {
        Some(Instruction::LDH1(b1))
    } else if op == 0xF0 {
        Some(Instruction::LDH2(b1))
    } else if op == 0x2A {
        Some(Instruction::LDI(DataLoc::Reg(Reg::A), DataLoc::AddrReg(AddrReg::HL)))
    } else if op == 0x22 {
        Some(Instruction::LDI(DataLoc::AddrReg(AddrReg::HL), DataLoc::Reg(Reg::A)))
    } else if op == 0x3A {
        Some(Instruction::LDD(DataLoc::Reg(Reg::A), DataLoc::AddrReg(AddrReg::HL)))
    } else if op == 0x32 {
        Some(Instruction::LDD(DataLoc::AddrReg(AddrReg::HL), DataLoc::Reg(Reg::A)))
    } else if op == 0xF9 {
        Some(Instruction::LDSPHL)
    } else if op == 0xF8 {
        Some(Instruction::LDHL(e))
    } else if op == 0x08 {
        Some(Instruction::LDnn(w))
    } else if op == 0xE8 {
        Some(Instruction::ADD16n(e))
    } else if op == 0xC3 {
        Some(Instruction::JP1(w))
    } else if op == 0xE9 {
        Some(Instruction::JP3)
    } else if op == 0x18 {
        Some(Instruction::JR4(e))
    } else if op == 0xCD {
        Some(Instruction::CALL(w))
    } else if op == 0xC9 {
        Some(Instruction::RET)
    } else if op == 0xD9 {
        Some(Instruction::RETI)
    } else if op == 0x27 {
        Some(Instruction::DAA)
    } else if op == 0x2F {
        Some(Instruction::CPL)
    } else if op == 0x3F {
        Some(Instruction::CCF)
    } else if op == 0x37 {
        Some(Instruction::SCF)
    } else if op == 0x00 {
        Some(Instruction::NOP)
    } else if op == 0x10 {
        if b1 == 0 { Some(Instruction::STOP) } else { None }
    } else if op == 0xF3 {
        Some(Instruction::DI)
    } else if op == 0xFB {
        Some(Instruction::EI)
    } else if op == 0x07 {
        Some(Instruction::RLCA)
    } else if op == 0x17 {
        Some(Instruction::RLA)
    } else if op == 0x0F {
        Some(Instruction::RRCA)
    } else if op == 0x1F {
        Some(Instruction::RRA)
    } else if op == 0xCB {
        Some(decode_cb_spec(b1))
    } else {
        None
    }
}

/// The operand a register code names; codes above 7 are not register codes.
pub fn decode_register(encoding: u8) -> (l: DataLoc)
    requires
        encoding < 8,
    ensures
        l == reg_code(encoding as int),
{
    match encoding {
        0x7 => DataLoc::Reg(Reg::A),
        0x0 => DataLoc::Reg(Reg::B),
        0x1 => DataLoc::Reg(Reg::C),
        0x2 => DataLoc::Reg(Reg::D),
        0x3 => DataLoc::Reg(Reg::E),
        0x4 => DataLoc::Reg(Reg::H),
        0x5 => DataLoc::Reg(Reg::L),
        _ => DataLoc::AddrReg(AddrReg::HL),
    }
}

/// Number of operand bytes that follow an opcode.
pub fn operand_bytes(op: u8) -> (n: u8)
    ensures
        n == operand_count(op),
{
    match op {
        0xFA | 0xEA | 0x08 | 0xC3 | 0xCD | 0x01 | 0x11 | 0x21 | 0x31 | 0xC2 | 0xCA | 0xD2 | 0xDA
        | 0xC4 | 0xCC | 0xD4 | 0xDC => 2,
        0x06 | 0x0E | 0x16 | 0x1E | 0x26 | 0x2E | 0x36 | 0x3E | 0xC6 | 0xCE | 0xD6 | 0xDE | 0xE6
        | 0xEE | 0xF6 | 0xFE | 0xE0 | 0xF0 | 0xF8 | 0xE8 | 0x18 | 0x20 | 0x28 | 0x30 | 0x38
        | 0x10 | 0xCB => 1,
        _ => 0,
    }
}

/// Decodes a 0xCB-prefixed instruction from its second byte.
pub fn decode_cb(prefixed: u8) -> (i: Instruction)
    ensures
        i == decode_cb_spec(prefixed),
{
    let b = prefixed / 8 % 8;
    let r = decode_register(prefixed % 8);
    if prefixed < 0x40 {
        match b {
            0 => Instruction::RLC(r),
            1 => Instruction::RRC(r),
            2 => Instruction::RL(r),
            3 => Instruction::RR(r),
            4 => Instruction::SLA(r),
            5 => Instruction::SRA(r),
            6 => Instruction::SWAP(r),
            _ => Instruction::SRL(r),
        }
    } else if prefixed < 0x80 {
        // BIT: data is encoded as 0b01bbbrrr.
        Instruction::BIT(b, r)
    } else if prefixed < 0xC0 {
        // RES: data is encoded as 0b10bbbrrr.
        Instruction::RES(b, r)
    } else {
        Instruction::SET(b, r)
    }
}


/// Decodes an opcode and its operand bytes (`b1` first, then `b2`); None where the opcode is not
/// implemented, or is STOP with a second byte other than zero.
pub fn decode(op: u8, b1: u8, b2: u8) -> (r: Option<Instruction>)
    ensures
        r == decode_spec(op, b1, b2),
{
    let w = join_word(b2, b1);
    let e = b1 as i8;
    let instruction = match op {
            // INC
            0x3C => Instruction::INC(DataLoc::Reg(Reg::A)),
            0x04 => Instruction::INC(DataLoc::Reg(Reg::B)),
            0x0C => Instruction::INC(DataLoc::Reg(Reg::C)),
            0x14 => Instruction::INC(DataLoc::Reg(Reg::D)),
            0x1C => Instruction::INC(DataLoc::Reg(Reg::E)),
            0x24 => Instruction::INC(DataLoc::Reg(Reg::H)),
            0x2C => Instruction::INC(DataLoc::Reg(Reg::L)),
            0x34 => Instruction::INC(DataLoc::AddrReg(AddrReg::HL)),

            // INC 16-bit
            0x03 => Instruction::INC16(AddrReg::BC),
            0x13 => Instruction::INC16(AddrReg::DE),
            0x23 => Instruction::INC16(AddrReg::HL),
            0x33 => Instruction::INC16(AddrReg::SP),

            // DEC
            0x3D => Instruction::DEC(DataLoc::Reg(Reg::A)),
            0x05 => Instruction::DEC(DataLoc::Reg(Reg::B)),
            0x0D => Instruction::DEC(DataLoc::Reg(Reg::C)),
            0x15 => Instruction::DEC(DataLoc::Reg(Reg::D)),
            0x1D => Instruction::DEC(DataLoc::Reg(Reg::E)),
            0x25 => Instruction::DEC(DataLoc::Reg(Reg::H)),
            0x2D => Instruction::DEC(DataLoc::Reg(Reg::L)),
            0x35 => Instruction::DEC(DataLoc::AddrReg(AddrReg::HL)),

            // DEC 16-bit
            0x0B => Instruction::DEC16(AddrReg::BC),
            0x1B => Instruction::DEC16(AddrReg::DE),
            0x2B => Instruction::DEC16(AddrReg::HL),
            0x3B => Instruction::DEC16(AddrReg::SP),

            // 1. LD
            0x06 => Instruction::LD(
                DataLoc::Reg(Reg::B),
                DataLoc::Value(b1),
            ),
            0x0E => Instruction::LD(
                DataLoc::Reg(Reg::C),
                DataLoc::Value(b1),
            ),
            0x16 => Instruction::LD(
                DataLoc::Reg(Reg::D),
                DataLoc::Value(b1),
            ),
            0x1E => Instruction::LD(
                DataLoc::Reg(Reg::E),
                DataLoc::Value(b1),
            ),
            0x26 => Instruction::LD(
                DataLoc::Reg(Reg::H),
                DataLoc::Value(b1),
            ),
            0x2E => Instruction::LD(
                DataLoc::Reg(Reg::L),
                DataLoc::Value(b1),
            ),
            0x36 => Instruction::LD(
                DataLoc::AddrReg(AddrReg::HL),
                DataLoc::Value(b1),
            ),

            // 2. LD
            0x40..=0x75 | 0x77..=0x7F => {
                let first = op / 8 % 8;
                let second = op % 8;
                Instruction::LD(decode_register(first), decode_register(second))
            }

            // 3. LD
            0x0A => Instruction::LD(DataLoc::Reg(Reg::A), DataLoc::AddrReg(AddrReg::BC)),
            0x1A => Instruction::LD(DataLoc::Reg(Reg::A), DataLoc::AddrReg(AddrReg::DE)),
            0xFA => Instruction::LD(
                DataLoc::Reg(Reg::A),
                DataLoc::Addr(w),
            ),
            0x3E => Instruction::LD(
                DataLoc::Reg(Reg::A),
                DataLoc::Value(b1),
            ),

            // 4. LD
            0x02 => Instruction::LD(DataLoc::AddrReg(AddrReg::BC), DataLoc::Reg(Reg::A)),
            0x12 => Instruction::LD(DataLoc::AddrReg(AddrReg::DE), DataLoc::Reg(Reg::A)),
            0xEA => Instruction::LD(
                DataLoc::Addr(w),
                DataLoc::Reg(Reg::A),
            ),

            // 5. LD
            0xF2 => Instruction::LD5,

            // 6. LD
            0xE2 => Instruction::LD6,

            // LDH
            0xE0 => Instruction::LDH1(b1),
            0xF0 => Instruction::LDH2(b1),

            // LDI
            0x2A => Instruction::LDI(DataLoc::Reg(Reg::A), DataLoc::AddrReg(AddrReg::HL)),
            0x22 => Instruction::LDI(DataLoc::AddrReg(AddrReg::HL), DataLoc::Reg(Reg::A)),

            // LDD
            0x3A => Instruction::LDD(DataLoc::Reg(Reg::A), DataLoc::AddrReg(AddrReg::HL)),
            0x32 => Instruction::LDD(DataLoc::AddrReg(AddrReg::HL), DataLoc::Reg(Reg::A)),

            // LD 16-bit
            0x01 => Instruction::LD16(AddrReg::BC, w),
            0x11 => Instruction::LD16(AddrReg::DE, w),
            0x21 => Instruction::LD16(AddrReg::HL, w),
            0x31 => Instruction::LD16(AddrReg::SP, w),
            0xF9 => Instruction::LDSPHL,
            0xF8 => Instruction::LDHL(e),
            0x08 => Instruction::LDnn(w),

            // PUSH
            0xF5 => Instruction::PUSH(AddrReg::AF),
            0xC5 => Instruction::PUSH(AddrReg::BC),
            0xD5 => Instruction::PUSH(AddrReg::DE),
            0xE5 => Instruction::PUSH(AddrReg::HL),

            // POP
            0xF1 => Instruction::POP(AddrReg::AF),
            0xC1 => Instruction::POP(AddrReg::BC),
            0xD1 => Instruction::POP(AddrReg::DE),
            0xE1 => Instruction::POP(AddrReg::HL),

            // ADD
            0x87 => Instruction::ADD(DataLoc::Reg(Reg::A)),
            0x80 => Instruction::ADD(DataLoc::Reg(Reg::B)),
            0x81 => Instruction::ADD(DataLoc::Reg(Reg::C)),
            0x82 => Instruction::ADD(DataLoc::Reg(Reg::D)),
            0x83 => Instruction::ADD(DataLoc::Reg(Reg::E)),
            0x84 => Instruction::ADD(DataLoc::Reg(Reg::H)),
            0x85 => Instruction::ADD(DataLoc::Reg(Reg::L)),
            0x86 => Instruction::ADD(DataLoc::AddrReg(AddrReg::HL)),
            0xC6 => Instruction::ADD(DataLoc::Value(b1)),

            // ADC
            0x8F => Instruction::ADC(DataLoc::Reg(Reg::A)),
            0x88 => Instruction::ADC(DataLoc::Reg(Reg::B)),
            0x89 => Instruction::ADC(DataLoc::Reg(Reg::C)),
            0x8A => Instruction::ADC(DataLoc::Reg(Reg::D)),
            0x8B => Instruction::ADC(DataLoc::Reg(Reg::E)),
            0x8C => Instruction::ADC(DataLoc::Reg(Reg::H)),
            0x8D => Instruction::ADC(DataLoc::Reg(Reg::L)),
            0x8E => Instruction::ADC(DataLoc::AddrReg(AddrReg::HL)),
            0xCE => Instruction::ADC(DataLoc::Value(b1)),

            // ADD 16-bit
            0x09 => Instruction::ADD16(AddrReg::BC),
            0x19 => Instruction::ADD16(AddrReg::DE),
            0x29 => Instruction::ADD16(AddrReg::HL),
            0x39 => Instruction::ADD16(AddrReg::SP),
            0xE8 => Instruction::ADD16n(e),

            // SBC
            0x9F => Instruction::SBC(DataLoc::Reg(Reg::A)),
            0x98 => Instruction::SBC(DataLoc::Reg(Reg::B)),
            0x99 => Instruction::SBC(DataLoc::Reg(Reg::C)),
            0x9A => Instruction::SBC(DataLoc::Reg(Reg::D)),
            0x9B => Instruction::SBC(DataLoc::Reg(Reg::E)),
            0x9C => Instruction::SBC(DataLoc::Reg(Reg::H)),
            0x9D => Instruction::SBC(DataLoc::Reg(Reg::L)),
            0x9E => Instruction::SBC(DataLoc::AddrReg(AddrReg::HL)),
            0xDE => Instruction::SBC(DataLoc::Value(b1)),

            // SUB
            0x97 => Instruction::SUB(DataLoc::Reg(Reg::A)),
            0x90 => Instruction::SUB(DataLoc::Reg(Reg::B)),
            0x91 => Instruction::SUB(DataLoc::Reg(Reg::C)),
            0x92 => Instruction::SUB(DataLoc::Reg(Reg::D)),
            0x93 => Instruction::SUB(DataLoc::Reg(Reg::E)),
            0x94 => Instruction::SUB(DataLoc::Reg(Reg::H)),
            0x95 => Instruction::SUB(DataLoc::Reg(Reg::L)),
            0x96 => Instruction::SUB(DataLoc::AddrReg(AddrReg::HL)),
            0xD6 => Instruction::SUB(DataLoc::Value(b1)),

            // AND
            0xA7 => Instruction::AND(DataLoc::Reg(Reg::A)),
            0xA0 => Instruction::AND(DataLoc::Reg(Reg::B)),
            0xA1 => Instruction::AND(DataLoc::Reg(Reg::C)),
            0xA2 => Instruction::AND(DataLoc::Reg(Reg::D)),
            0xA3 => Instruction::AND(DataLoc::Reg(Reg::E)),
            0xA4 => Instruction::AND(DataLoc::Reg(Reg::H)),
            0xA5 => Instruction::AND(DataLoc::Reg(Reg::L)),
            0xA6 => Instruction::AND(DataLoc::AddrReg(AddrReg::HL)),
            0xE6 => Instruction::AND(DataLoc::Value(b1)),

            // OR
            0xB7 => Instruction::OR(DataLoc::Reg(Reg::A)),
            0xB0 => Instruction::OR(DataLoc::Reg(Reg::B)),
            0xB1 => Instruction::OR(DataLoc::Reg(Reg::C)),
            0xB2 => Instruction::OR(DataLoc::Reg(Reg::D)),
            0xB3 => Instruction::OR(DataLoc::Reg(Reg::E)),
            0xB4 => Instruction::OR(DataLoc::Reg(Reg::H)),
            0xB5 => Instruction::OR(DataLoc::Reg(Reg::L)),
            0xB6 => Instruction::OR(DataLoc::AddrReg(AddrReg::HL)),
            0xF6 => Instruction::OR(DataLoc::Value(b1)),

            // XOR
            0xAF => Instruction::XOR(DataLoc::Reg(Reg::A)),
            0xA8 => Instruction::XOR(DataLoc::Reg(Reg::B)),
            0xA9 => Instruction::XOR(DataLoc::Reg(Reg::C)),
            0xAA => Instruction::XOR(DataLoc::Reg(Reg::D)),
            0xAB => Instruction::XOR(DataLoc::Reg(Reg::E)),
            0xAC => Instruction::XOR(DataLoc::Reg(Reg::H)),
            0xAD => Instruction::XOR(DataLoc::Reg(Reg::L)),
            0xAE => Instruction::XOR(DataLoc::AddrReg(AddrReg::HL)),
            0xEE => Instruction::XOR(DataLoc::Value(b1)),

            // CP
            0xBF => Instruction::CP(DataLoc::Reg(Reg::A)),
            0xB8 => Instruction::CP(DataLoc::Reg(Reg::B)),
            0xB9 => Instruction::CP(DataLoc::Reg(Reg::C)),
            0xBA => Instruction::CP(DataLoc::Reg(Reg::D)),
            0xBB => Instruction::CP(DataLoc::Reg(Reg::E)),
            0xBC => Instruction::CP(DataLoc::Reg(Reg::H)),
            0xBD => Instruction::CP(DataLoc::Reg(Reg::L)),
            0xBE => Instruction::CP(DataLoc::AddrReg(AddrReg::HL)),
            0xFE => Instruction::CP(DataLoc::Value(b1)),

            // JP
            0xC3 => Instruction::JP1(w),
            0xC2 => Instruction::JP2(Condition::NZ, w),
            0xCA => Instruction::JP2(Condition::Z, w),
            0xD2 => Instruction::JP2(Condition::NC, w),
            0xDA => Instruction::JP2(Condition::C, w),
            0xE9 => Instruction::JP3,

            // JR
            0x18 => Instruction::JR4(e),
            0x20 => Instruction::JR5(Condition::NZ, e),
            0x28 => Instruction::JR5(Condition::Z, e),
            0x30 => Instruction::JR5(Condition::NC, e),
            0x38 => Instruction::JR5(Condition::C, e),

            // CALL
            0xCD => Instruction::CALL(w),
            0xC4 => Instruction::CALLc(Condition::NZ, w),
            0xCC => Instruction::CALLc(Condition::Z, w),
            0xD4 => Instruction::CALLc(Condition::NC, w),
            0xDC => Instruction::CALLc(Condition::C, w),

            // RET
            0xC9 => Instruction::RET,
            0xC0 => Instruction::RETc(Condition::NZ),
            0xC8 => Instruction::RETc(Condition::Z),
            0xD0 => Instruction::RETc(Condition::NC),
            0xD8 => Instruction::RETc(Condition::C),
            0xD9 => Instruction::RETI,

            // Misc
            0x27 => Instruction::DAA,
            0x2F => Instruction::CPL,
            0x3F => Instruction::CCF,
            0x37 => Instruction::SCF,
            0x00 => Instruction::NOP,
            0x76 => Instruction::HALT,
            0x10 => {
                if b1 != 0 {
                    return None;
                }
                Instruction::STOP
            }
            0xF3 => Instruction::DI,
            0xFB => Instruction::EI,

            // Rotates & Shifts
            0x07 => Instruction::RLCA,
            0x17 => Instruction::RLA,
            0x0F => Instruction::RRCA,
            0x1F => Instruction::RRA,

            // RST
            0xC7 => Instruction::RST(0x00),
            0xCF => Instruction::RST(0x08),
            0xD7 => Instruction::RST(0x10),
            0xDF => Instruction::RST(0x18),
            0xE7 => Instruction::RST(0x20),
            0xEF => Instruction::RST(0x28),
            0xF7 => Instruction::RST(0x30),
            0xFF => Instruction::RST(0x38),

            0xCB => decode_cb(b1),

            _ => {
                return None;
            },
        };
    Some(instruction)
}

} // verus!
