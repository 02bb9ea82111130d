use vstd::prelude::*;
use vstd::array::spec_array_update;
use crate::addrreg::AddrReg;
use crate::alu::{RotOp, rot_spec, add_spec, sub_spec, and_spec, or_spec, xor_spec, daa_spec, lemma_xor_is_exclusive_or,
    lemma_add_is_addition, lemma_sub_is_subtraction, lemma_and_is_bitwise_and, lemma_or_is_bitwise_or};
use crate::bits::{bit, hi_byte, lo_byte, word, lemma_word_split};
use crate::cpu::CPU;
use crate::dataloc::DataLoc;
use crate::decode::{decode_spec, operand_count};
use crate::instruction::Instruction;
use crate::memory::{Memory, rd, wr, is_plain_ram, lemma_read_after_write, lemma_write_frame};
use crate::reg::Reg;
use crate::register::Registers;

verus! {

/// The machine after a step: `None` where the step is not defined (the emulator would crash).
pub open spec fn outcome(s: Option<(CPU, Memory)>, ok: bool, c: CPU, m: Memory) -> bool {
    &&& ok == s is Some
    &&& ok ==> s->Some_0 == (c, m)
}

/// The CPU with another register file.
pub open spec fn with_reg(c: CPU, reg: Registers) -> CPU {
    CPU { reg: reg, ..c }
}

/// The CPU with PC set to `pc`.
pub open spec fn with_pc(c: CPU, pc: u16) -> CPU {
    CPU { reg: Registers { pc: pc, ..c.reg }, ..c }
}

/// Pushes a word: high byte at SP-1, low byte at SP-2, then SP goes down by 2.
pub open spec fn push_spec(c: CPU, m: Memory, val: u16) -> Option<(CPU, Memory)> {
    let sp = c.reg.sp;
    if sp < 2 {
        None
    } else {
        match wr(m, (sp - 1) as u16, hi_byte(val)) {
            None => None,
            Some(m1) => match wr(m1, (sp - 2) as u16, lo_byte(val)) {
                None => None,
                Some(m2) => Some((CPU { reg: Registers { sp: (sp - 2) as u16, ..c.reg }, ..c }, m2)),
            },
        }
    }
}

/// Pops a word: low byte at SP, high byte at SP+1, then SP goes up by 2.
pub open spec fn pop_spec(c: CPU, m: Memory) -> Option<(CPU, u16)> {
    let sp = c.reg.sp;
    if sp >= 0xFFFE || !m.readable(sp) || !m.readable((sp + 1) as u16) {
        None
    } else {
        let ls = m.read_spec(sp);
        let ms = m.read_spec((sp + 1) as u16);
        Some((CPU { reg: Registers { sp: (sp + 2) as u16, ..c.reg }, ..c }, word(ms, ls)))
    }
}

/// Pushes PC and jumps.
pub open spec fn call_spec(c: CPU, m: Memory, addr: u16) -> Option<(CPU, Memory)> {
    match push_spec(c, m, c.reg.pc) {
        None => None,
        Some((c1, m1)) => Some((with_pc(c1, addr), m1)),
    }
}

/// Pops PC.
pub open spec fn ret_spec(c: CPU, m: Memory) -> Option<(CPU, Memory)> {
    match pop_spec(c, m) {
        None => None,
        Some((c1, v)) => Some((with_pc(c1, v), m)),
    }
}

/// Handler address of interrupt `b` (0 = VBlank .. 4 = Joypad).
pub open spec fn interrupt_handler(b: int) -> u16 {
    (0x40 + 8 * b) as u16
}

/// The lowest of interrupts 0 to 4 that is both requested (IF) and enabled (IE).
pub open spec fn lowest_pending(ie: u8, iflags: u8) -> Option<int> {
    if bit(iflags, 0) && bit(ie, 0) {
        Some(0)
    } else if bit(iflags, 1) && bit(ie, 1) {
        Some(1)
    } else if bit(iflags, 2) && bit(ie, 2) {
        Some(2)
    } else if bit(iflags, 3) && bit(ie, 3) {
        Some(3)
    } else if bit(iflags, 4) && bit(ie, 4) {
        Some(4)
    } else {
        None
    }
}

/// Interrupt dispatch: a pending enabled interrupt wakes a halted CPU; with IME set the lowest
/// pending one is acknowledged in IF, IME is cleared, PC is pushed and the handler called, and the
/// cycle counter advances by 5.
pub open spec fn check_interrupts_spec(c: CPU, m: Memory) -> Option<(CPU, Memory)> {
    let ie = m.read_spec(0xFFFF);
    let iflags = m.read_spec(0xFF0F);
    let c1 = if ie & iflags > 0 { CPU { halted: false, ..c } } else { c };
    if !c1.ime {
        Some((c1, m))
    } else {
        match lowest_pending(ie, iflags) {
            None => Some((c1, m)),
            Some(b) => {
                let m1 = m.write_spec(0xFF0F, m.write_cell_spec(0xFF0F) & !(1u8 << (b as u8)));
                match call_spec(CPU { ime: false, ..c1 }, m1, interrupt_handler(b)) {
                    None => None,
                    Some((c2, m2)) => if c2.m_cycle_counter + 5 > u32::MAX {
                        None
                    } else {
                        Some((CPU { m_cycle_counter: (c2.m_cycle_counter + 5) as u32, ..c2 }, m2))
                    },
                }
            },
        }
    }
}

/// Machine cycles per TIMA increment for a TAC clock select.
pub open spec fn timer_period(clock_select: int) -> u32 {
    if clock_select == 0 {
        256
    } else if clock_select == 1 {
        4
    } else if clock_select == 2 {
        16
    } else {
        64
    }
}

/// The TIMA timer after `value` machine cycles: with TAC enabled the cycle counter advances, and
/// once it reaches the selected period TIMA counts up once (the period is taken off the counter);
/// on overflow TIMA reloads from TMA and, if enabled in IE, the timer interrupt is requested.
pub open spec fn update_timer_spec(c: CPU, m: Memory, value: u32) -> Option<(CPU, Memory)> {
    let tima_old = m.read_spec(0xFF05);
    let tma = m.read_spec(0xFF06);
    let tac = m.read_spec(0xFF07);
    if (tac / 4) % 2 == 0 {
        Some((c, m))
    } else if c.m_cycle_counter + value > u32::MAX {
        None
    } else {
        let counter = c.m_cycle_counter + value;
        let period = timer_period((tac % 4) as int);
        if counter < period {
            Some((CPU { m_cycle_counter: counter as u32, ..c }, m))
        } else {
            let c1 = CPU { m_cycle_counter: (counter - period) as u32, ..c };
            if tima_old == 255 {
                let m1 = if bit(m.read_spec(0xFFFF), 2) {
                    m.write_spec(0xFF0F, m.write_cell_spec(0xFF0F) | 4)
                } else {
                    m
                };
                Some((c1, m1.write_spec(0xFF05, tma)))
            } else {
                Some((c1, m.write_spec(0xFF05, (tima_old + 1) as u8)))
            }
        }
    }
}

/// The operand of an 8-bit ALU operation: a register, (HL) or an immediate byte.
pub open spec fn alu_operand(c: CPU, m: Memory, l: DataLoc) -> Option<u8> {
    match l {
        DataLoc::Reg(r) => Some(c.reg.get_spec(r)),
        DataLoc::AddrReg(AddrReg::HL) => rd(m, c.reg.pair(AddrReg::HL)),
        DataLoc::Value(v) => Some(v),
        _ => None,
    }
}

/// The operand of INC, DEC, SWAP, BIT and the rotates: a register or (HL).
pub open spec fn rw_operand(c: CPU, m: Memory, l: DataLoc) -> Option<u8> {
    match l {
        DataLoc::Reg(r) => Some(c.reg.get_spec(r)),
        DataLoc::AddrReg(AddrReg::HL) => rd(m, c.reg.pair(AddrReg::HL)),
        _ => None,
    }
}

/// Writes back the result of INC, DEC, SWAP, SET, RES or a rotate to a register or (HL).
pub open spec fn write_back(c: CPU, m: Memory, l: DataLoc, v: u8) -> Option<(CPU, Memory)> {
    match l {
        DataLoc::Reg(r) => Some((with_reg(c, c.reg.set_spec(r, v)), m)),
        DataLoc::AddrReg(AddrReg::HL) => match wr(m, c.reg.pair(AddrReg::HL), v) {
            None => None,
            Some(m1) => Some((c, m1)),
        },
        _ => None,
    }
}

/// The source byte of an 8-bit load.
pub open spec fn ld_source(c: CPU, m: Memory, from: DataLoc) -> Option<u8> {
    match from {
        DataLoc::Reg(r) => Some(c.reg.get_spec(r)),
        DataLoc::AddrReg(r) => if r == AddrReg::SP { None } else { rd(m, c.reg.pair(r)) },
        DataLoc::Addr(a) => rd(m, a),
        DataLoc::Value(v) => Some(v),
    }
}

/// An 8-bit load.
pub open spec fn ld_spec(c: CPU, m: Memory, to: DataLoc, from: DataLoc) -> Option<(CPU, Memory)> {
    match ld_source(c, m, from) {
        None => None,
        Some(v) => match to {
            DataLoc::Reg(r) => Some((with_reg(c, c.reg.set_spec(r, v)), m)),
            DataLoc::AddrReg(r) => if r == AddrReg::SP {
                None
            } else {
                match wr(m, c.reg.pair(r), v) {
                    None => None,
                    Some(m1) => Some((c, m1)),
                }
            },
            DataLoc::Addr(a) => match wr(m, a, v) {
                None => None,
                Some(m1) => Some((c, m1)),
            },
            DataLoc::Value(_) => None,
        },
    }
}

/// A load followed by HL going up (LDI) or down (LDD) by one.
pub open spec fn ld_hl_step_spec(c: CPU, m: Memory, to: DataLoc, from: DataLoc, up: bool) -> Option<(CPU, Memory)> {
    match ld_spec(c, m, to, from) {
        None => None,
        Some((c1, m1)) => {
            let hl = c1.reg.pair(AddrReg::HL);
            let hl2 = if up { hl.wrapping_add(1) } else { hl.wrapping_sub(1) };
            Some((with_reg(c1, c1.reg.set_pair_spec(AddrReg::HL, hl2)), m1))
        },
    }
}

/// INC or DEC of a register or (HL). The flags are taken from the byte read back after the write.
pub open spec fn inc_dec_spec(c: CPU, m: Memory, l: DataLoc, inc: bool) -> Option<(CPU, Memory)> {
    let step = |old: u8| if inc { old.wrapping_add(1) } else { old.wrapping_sub(1) };
    let flags = |reg: Registers, old: u8, res: u8| if inc {
        reg.set_flag_spec(7, res == 0).set_flag_spec(6, false).set_flag_spec(5, old % 16 == 15)
    } else {
        reg.set_flag_spec(7, res == 0).set_flag_spec(6, true).set_flag_spec(5, res % 16 == 15)
    };
    match l {
        DataLoc::Reg(r) => {
            let old = c.reg.get_spec(r);
            let res = step(old);
            Some((with_reg(c, flags(c.reg.set_spec(r, res), old, res)), m))
        },
        DataLoc::AddrReg(AddrReg::HL) => {
            let addr = c.reg.pair(AddrReg::HL);
            match rd(m, addr) {
                None => None,
                Some(old) => match wr(m, addr, step(old)) {
                    None => None,
                    Some(m1) => match rd(m1, addr) {
                        None => None,
                        Some(res) => Some((with_reg(c, flags(c.reg, old, res)), m1)),
                    },
                },
            }
        },
        _ => None,
    }
}

/// SP plus a signed offset, with H and C from the unsigned addition of the offset byte to the low
/// byte of SP: (result, H, C).
pub open spec fn sp_offset_spec(sp: u16, offset: i8) -> (u16, bool, bool) {
    let lo = sp % 256;
    let n = (offset as u8) as int;
    (sp.wrapping_add_signed(offset as i16), lo % 16 + n % 16 > 15, lo + n > 255)
}

/// An instruction of the 8-bit ALU group on A.
pub open spec fn alu_spec(c: CPU, m: Memory, ins: Instruction) -> Option<(CPU, Memory)> {
    match ins {
        Instruction::ADD(l) | Instruction::ADC(l) | Instruction::SUB(l) | Instruction::SBC(l)
        | Instruction::AND(l) | Instruction::OR(l) | Instruction::XOR(l) | Instruction::CP(l) => {
            match alu_operand(c, m, l) {
                None => None,
                Some(n) => {
                    let (reg1, r) = match ins {
                        Instruction::ADD(_) => add_spec(c.reg, n, false),
                        Instruction::ADC(_) => add_spec(c.reg, n, true),
                        Instruction::SUB(_) | Instruction::CP(_) => sub_spec(c.reg, n, false),
                        Instruction::SBC(_) => sub_spec(c.reg, n, true),
                        Instruction::AND(_) => and_spec(c.reg, n),
                        Instruction::OR(_) => or_spec(c.reg, n),
                        _ => xor_spec(c.reg, n),
                    };
                    if ins is CP {
                        Some((with_reg(c, reg1), m))
                    } else {
                        Some((with_reg(c, Registers { a: r, ..reg1 }), m))
                    }
                },
            }
        },
        _ => None,
    }
}

/// The rotate or shift that an instruction performs on its operand.
pub open spec fn rot_op_of(ins: Instruction) -> RotOp {
    match ins {
        Instruction::RLC(_) | Instruction::RLCA => RotOp::RotateLeftIntoCarry,
        Instruction::RL(_) | Instruction::RLA => RotOp::RotateLeftThroughCarry,
        Instruction::RRC(_) | Instruction::RRCA => RotOp::RotateRightIntoCarry,
        Instruction::RR(_) | Instruction::RRA => RotOp::RotateRightThroughCarry,
        Instruction::SLA(_) => RotOp::ShiftLeftIntoCarry,
        Instruction::SRA(_) => RotOp::ShiftRightIntoCarryKeepMsb,
        _ => RotOp::ShiftRightIntoCarry,
    }
}

/// A rotate or shift of a register or (HL).
pub open spec fn rot_loc_spec(c: CPU, m: Memory, op: RotOp, l: DataLoc) -> Option<(CPU, Memory)> {
    match rw_operand(c, m, l) {
        None => None,
        Some(n) => {
            let (reg1, r) = rot_spec(op, n, c.reg);
            write_back(with_reg(c, reg1), m, l, r)
        },
    }
}

/// Bit index that BIT, SET and RES use: bits 3 to 5 of their bit operand.
pub open spec fn bit_index(data: u8) -> u8 {
    (data / 8) % 8
}

/// BIT, SET and RES.
pub open spec fn bit_op_spec(c: CPU, m: Memory, ins: Instruction) -> Option<(CPU, Memory)> {
    match ins {
        Instruction::BIT(data, l) => match rw_operand(c, m, l) {
            None => None,
            Some(n) => {
                let z = n & (1u8 << bit_index(data));
                Some((with_reg(c, c.reg.set_flag_spec(7, z == 0).set_flag_spec(6, false).set_flag_spec(5, true)), m))
            },
        },
        Instruction::SET(data, l) | Instruction::RES(data, l) => {
            let mask = 1u8 << bit_index(data);
            let apply = |v: u8| if ins is SET { v | mask } else { v & !mask };
            match l {
                DataLoc::Reg(r) => Some((with_reg(c, c.reg.set_spec(r, apply(c.reg.get_spec(r)))), m)),
                DataLoc::AddrReg(AddrReg::HL) => {
                    let addr = c.reg.pair(AddrReg::HL);
                    if !m.writable(addr) {
                        None
                    } else {
                        Some((c, m.write_spec(addr, apply(m.write_cell_spec(addr)))))
                    }
                },
                _ => None,
            }
        },
        _ => None,
    }
}

/// SWAP of the nibbles of a register or (HL); the flags are left alone.
pub open spec fn swap_spec(c: CPU, m: Memory, l: DataLoc) -> Option<(CPU, Memory)> {
    match rw_operand(c, m, l) {
        None => None,
        Some(n) => write_back(c, m, l, ((n % 16) * 16 + n / 16) as u8),
    }
}

/// STOP: with a button held (low nibble of P1 zero) the CPU halts unless an interrupt is pending;
/// with no button held DIV is reset.
pub open spec fn stop_spec(c: CPU, m: Memory) -> Option<(CPU, Memory)> {
    let button_pressed = m.read_spec(0xFF00) % 16 == 0;
    let interrupt_pending = m.read_spec(0xFF0F) & m.read_spec(0xFFFF) > 0;
    if button_pressed {
        if interrupt_pending {
            Some((c, m))
        } else {
            Some((CPU { halted: true, ..c }, m))
        }
    } else {
        Some((c, m.write_spec(0xFF04, 0)))
    }
}

/// What executing a decoded instruction does; `None` where the emulator would crash.
pub open spec fn execute_spec(c: CPU, m: Memory, ins: Instruction) -> Option<(CPU, Memory)> {
    let reg = c.reg;
    match ins {
        Instruction::INC(l) => inc_dec_spec(c, m, l, true),
        Instruction::DEC(l) => inc_dec_spec(c, m, l, false),
        Instruction::INC16(r) | Instruction::DEC16(r) => if r == AddrReg::SP {
            None
        } else {
            let v = if ins is INC16 { reg.pair(r).wrapping_add(1) } else { reg.pair(r).wrapping_sub(1) };
            Some((with_reg(c, reg.set_pair_spec(r, v)), m))
        },
        Instruction::JP1(addr) => Some((with_pc(c, addr), m)),
        Instruction::JP2(cond, addr) => if reg.condition(cond) { Some((with_pc(c, addr), m)) } else { Some((c, m)) },
        Instruction::JP3 => Some((with_pc(c, reg.pair(AddrReg::HL)), m)),
        Instruction::JR4(e) => Some((with_pc(c, reg.pc.wrapping_add_signed(e as i16)), m)),
        Instruction::JR5(cond, e) => if reg.condition(cond) {
            Some((with_pc(c, reg.pc.wrapping_add_signed(e as i16)), m))
        } else {
            Some((c, m))
        },
        Instruction::LD(a, b) => ld_spec(c, m, a, b),
        Instruction::LD5 => ld_spec(c, m, DataLoc::Reg(crate::reg::Reg::A), DataLoc::Addr((0xFF00 + reg.c) as u16)),
        Instruction::LD6 => ld_spec(c, m, DataLoc::Addr((0xFF00 + reg.c) as u16), DataLoc::Reg(crate::reg::Reg::A)),
        Instruction::LDH1(o) => match wr(m, (0xFF00 + o) as u16, reg.a) {
            None => None,
            Some(m1) => Some((c, m1)),
        },
        Instruction::LDH2(o) => match rd(m, (0xFF00 + o) as u16) {
            None => None,
            Some(v) => Some((with_reg(c, Registers { a: v, ..reg }), m)),
        },
        Instruction::LDI(a, b) => ld_hl_step_spec(c, m, a, b, true),
        Instruction::LDD(a, b) => ld_hl_step_spec(c, m, a, b, false),
        Instruction::LD16(r, v) => Some((with_reg(c, reg.set_pair_spec(r, v)), m)),
        Instruction::LDSPHL => Some((with_reg(c, reg.set_pair_spec(AddrReg::SP, reg.pair(AddrReg::HL))), m)),
        Instruction::LDHL(offset) => {
            let (r, h, cy) = sp_offset_spec(reg.sp, offset);
            Some((with_reg(c, reg.set_pair_spec(AddrReg::HL, r).set_flag_spec(7, false).set_flag_spec(6, false)
                .set_flag_spec(5, h).set_flag_spec(4, cy)), m))
        },
        Instruction::LDnn(addr) => match wr(m, addr, lo_byte(reg.sp)) {
            None => None,
            Some(m1) => if addr == 0xFFFF {
                None
            } else {
                match wr(m1, (addr + 1) as u16, hi_byte(reg.sp)) {
                    None => None,
                    Some(m2) => Some((c, m2)),
                }
            },
        },
        Instruction::PUSH(r) => if r == AddrReg::SP { None } else { push_spec(c, m, reg.pair(r)) },
        Instruction::POP(r) => match pop_spec(c, m) {
            None => None,
            Some((c1, v)) => Some((with_reg(c1, c1.reg.set_pair_spec(r, v)), m)),
        },
        Instruction::ADD(_) | Instruction::ADC(_) | Instruction::SUB(_) | Instruction::SBC(_)
        | Instruction::AND(_) | Instruction::OR(_) | Instruction::XOR(_) | Instruction::CP(_) => alu_spec(c, m, ins),
        Instruction::ADD16(r) => if r == AddrReg::SP {
            None
        } else {
            let hl = reg.pair(AddrReg::HL);
            let rhs = reg.pair(r);
            Some((with_reg(c, reg.set_flag_spec(6, false).set_flag_spec(5, hl % 4096 + rhs % 4096 > 4095)
                .set_flag_spec(4, hl + rhs > 65535).set_pair_spec(AddrReg::HL, hl.wrapping_add(rhs))), m))
        },
        Instruction::ADD16n(n) => {
            let (r, h, cy) = sp_offset_spec(reg.sp, n);
            Some((with_reg(c, reg.set_flag_spec(7, false).set_flag_spec(6, false).set_flag_spec(5, h)
                .set_flag_spec(4, cy).set_pair_spec(AddrReg::SP, r)), m))
        },
        Instruction::SWAP(l) => swap_spec(c, m, l),
        Instruction::CALL(addr) => call_spec(c, m, addr),
        Instruction::CALLc(cond, addr) => if reg.condition(cond) { call_spec(c, m, addr) } else { Some((c, m)) },
        Instruction::RET => ret_spec(c, m),
        Instruction::RETc(cond) => if reg.condition(cond) { ret_spec(c, m) } else { Some((c, m)) },
        Instruction::RETI => match ret_spec(c, m) {
            None => None,
            Some((c1, m1)) => Some((CPU { ime: true, ..c1 }, m1)),
        },
        Instruction::BIT(_, _) | Instruction::SET(_, _) | Instruction::RES(_, _) => bit_op_spec(c, m, ins),
        Instruction::DAA => Some((with_reg(c, daa_spec(reg)), m)),
        Instruction::CPL => Some((with_reg(c, Registers { a: !reg.a, ..reg }.set_flag_spec(6, true).set_flag_spec(5, true)), m)),
        Instruction::CCF => Some((with_reg(c, reg.set_flag_spec(6, false).set_flag_spec(5, false).set_flag_spec(4, !reg.flag(4))), m)),
        Instruction::SCF => Some((with_reg(c, reg.set_flag_spec(6, false).set_flag_spec(5, false).set_flag_spec(4, true)), m)),
        Instruction::NOP => Some((c, m)),
        Instruction::HALT => if !c.ime && m.read_spec(0xFF0F) & m.read_spec(0xFFFF) != 0 {
            None
        } else {
            Some((CPU { halted: true, ..c }, m))
        },
        Instruction::STOP => stop_spec(c, m),
        Instruction::DI => Some((CPU { ime: false, ..c }, m)),
        Instruction::EI => Some((CPU { ie_delay: 1, ..c }, m)),
        Instruction::RLCA | Instruction::RLA | Instruction::RRCA | Instruction::RRA => {
            let (reg1, r) = rot_spec(rot_op_of(ins), reg.a, reg);
            Some((with_reg(c, Registers { a: r, ..reg1 }), m))
        },
        Instruction::RLC(l) | Instruction::RL(l) | Instruction::RRC(l) | Instruction::RR(l)
        | Instruction::SLA(l) | Instruction::SRA(l) | Instruction::SRL(l) => rot_loc_spec(c, m, rot_op_of(ins), l),
        Instruction::RST(p) => match push_spec(c, m, reg.pc) {
            None => None,
            Some((c1, m1)) => Some((with_pc(c1, p as u16), m1)),
        },
    }
}

/// Fetch and decode: the instruction at PC, its opcode, and the CPU with PC past the instruction
/// and the opcode counters (0xCB-prefixed ones at 256 + second byte) counted up.
pub open spec fn fetch_decode_spec(c: CPU, m: Memory) -> Option<(Instruction, u8, CPU)> {
    let pc = c.reg.pc;
    let n = operand_count(m.read_spec(pc));
    if !m.readable(pc) || pc as int + n >= 0xFFFF {
        None
    } else if n >= 1 && !m.readable((pc + 1) as u16) {
        None
    } else if n >= 2 && !m.readable((pc + 2) as u16) {
        None
    } else {
        let op = m.read_spec(pc);
        let b1 = if n >= 1 { m.read_spec((pc + 1) as u16) } else { 0 };
        let b2 = if n >= 2 { m.read_spec((pc + 2) as u16) } else { 0 };
        match decode_spec(op, b1, b2) {
            None => None,
            Some(ins) => {
                let counts0 = c.instructions_count;
                let cb = 256 + b1;
                let counts1 = if op == 0xCB {
                    spec_array_update(counts0, cb, (counts0@[cb] + 1) as usize)
                } else {
                    counts0
                };
                if (op == 0xCB && counts0@[cb] == usize::MAX) || counts1@[op as int] == usize::MAX {
                    None
                } else {
                    let counts2 = spec_array_update(counts1, op as int, (counts1@[op as int] + 1) as usize);
                    Some((ins, op, CPU {
                        reg: Registers { pc: (pc + 1 + n) as u16, ..c.reg },
                        instructions_count: counts2,
                        ..c
                    }))
                }
            },
        }
    }
}

/// EI takes effect one instruction late: a delay of 0 sets IME, and the delay counts down to -1.
pub open spec fn ie_delay_step(c: CPU) -> CPU {
    let c1 = if c.ie_delay == 0 { CPU { ime: true, ..c } } else { c };
    if c1.ie_delay >= 0 { CPU { ie_delay: (c1.ie_delay - 1) as i8, ..c1 } } else { c1 }
}

/// One CPU step: a halted CPU only advances the timer by one machine cycle; otherwise fetch,
/// decode, execute, the EI delay, the timer by the instruction's machine cycles, and the
/// instruction recorded as the last one. `None` where the emulator would crash.
pub open spec fn run_cycle_spec(c: CPU, m: Memory) -> Option<(CPU, Memory)> {
    if c.halted {
        update_timer_spec(c, m, 1)
    } else {
        match fetch_decode_spec(c, m) {
            None => None,
            Some((ins, op, c1)) => match execute_spec(c1, m, ins) {
                None => None,
                Some((c2, m2)) => if !ins.has_timing() {
                    None
                } else {
                    match update_timer_spec(ie_delay_step(c2), m2, (ins.cycles() / 4) as u32) {
                        None => None,
                        Some((c3, m3)) => Some((CPU { last: ins, ..c3 }, m3)),
                    }
                },
            },
        }
    }
}


/// Popping right after a push gives back the pushed word and the CPU as it was before the push,
/// when the two stack bytes are RAM.
pub proof fn lemma_push_then_pop(c: CPU, m: Memory, v: u16)
    requires
        push_spec(c, m, v) is Some,
        is_plain_ram((c.reg.sp - 1) as u16),
        is_plain_ram((c.reg.sp - 2) as u16),
    ensures
        pop_spec(push_spec(c, m, v)->Some_0.0, push_spec(c, m, v)->Some_0.1) == Some((c, v)),
{
    let sp = c.reg.sp;
    let m1 = m.write_spec((sp - 1) as u16, hi_byte(v));
    let m2 = m1.write_spec((sp - 2) as u16, lo_byte(v));
    lemma_read_after_write(m1, (sp - 2) as u16, lo_byte(v));
    lemma_read_after_write(m, (sp - 1) as u16, hi_byte(v));
    lemma_write_frame(m1, (sp - 2) as u16, (sp - 1) as u16, lo_byte(v));
    lemma_word_split(v);
    let c1 = push_spec(c, m, v)->Some_0.0;
    assert(CPU { reg: Registers { sp: (c1.reg.sp + 2) as u16, ..c1.reg }, ..c1 } == c);
}

/// A return right after a call comes back to the PC of the call, with the CPU as before the
/// call, when the two stack bytes are RAM.
pub proof fn lemma_call_then_ret(c: CPU, m: Memory, addr: u16)
    requires
        call_spec(c, m, addr) is Some,
        is_plain_ram((c.reg.sp - 1) as u16),
        is_plain_ram((c.reg.sp - 2) as u16),
    ensures
        ret_spec(call_spec(c, m, addr)->Some_0.0, call_spec(c, m, addr)->Some_0.1)
            == Some((c, call_spec(c, m, addr)->Some_0.1)),
{
    lemma_push_then_pop(c, m, c.reg.pc);
    let (c1, m1) = push_spec(c, m, c.reg.pc)->Some_0;
    let c2 = with_pc(c1, addr);
    assert(pop_spec(c2, m1) == Some((with_pc(c, addr), c.reg.pc)));
}

/// With IME off, interrupt dispatch changes neither memory nor anything but the halt flag.
pub proof fn lemma_no_dispatch_without_ime(c: CPU, m: Memory)
    requires
        !c.ime,
    ensures
        check_interrupts_spec(c, m) is Some,
        check_interrupts_spec(c, m)->Some_0.1 == m,
        check_interrupts_spec(c, m)->Some_0.0 == (CPU { halted: check_interrupts_spec(c, m)->Some_0.0.halted, ..c }),
{
}

/// With the timer disabled in TAC, advancing it changes nothing.
pub proof fn lemma_timer_disabled(c: CPU, m: Memory, value: u32)
    requires
        (m.read_spec(0xFF07) / 4) % 2 == 0,
    ensures
        update_timer_spec(c, m, value) == Some((c, m)),
{
}

/// EI itself leaves IME as it was: it only arms the delay, which runs out at the end of the next
/// instruction.
pub proof fn lemma_ei_waits_one_instruction(c: CPU, m: Memory)
    requires
        !c.halted,
        run_cycle_spec(c, m) is Some,
        fetch_decode_spec(c, m)->Some_0.0 is EI,
    ensures
        run_cycle_spec(c, m)->Some_0.0.ime == c.ime,
        run_cycle_spec(c, m)->Some_0.0.ie_delay == 0,
{
}

/// No instruction but EI touches the EI delay.
#[verifier::rlimit(60)]
pub proof fn lemma_execute_keeps_ie_delay(c: CPU, m: Memory, ins: Instruction)
    requires
        execute_spec(c, m, ins) is Some,
        !(ins is EI),
    ensures
        execute_spec(c, m, ins)->Some_0.0.ie_delay == c.ie_delay,
{
}

/// Once the delay has run down to 0, the next instruction other than EI ends with IME set.
pub proof fn lemma_ime_set_after_delay(c: CPU, m: Memory)
    requires
        !c.halted,
        c.ie_delay == 0,
        run_cycle_spec(c, m) is Some,
        !(fetch_decode_spec(c, m)->Some_0.0 is EI),
    ensures
        run_cycle_spec(c, m)->Some_0.0.ime,
        run_cycle_spec(c, m)->Some_0.0.ie_delay == -1,
{
    let (ins, op, c1) = fetch_decode_spec(c, m)->Some_0;
    lemma_execute_keeps_ie_delay(c1, m, ins);
}

/// The ALU group keeps bits 3 to 0 of F at 0.
proof fn lemma_alu_keeps_f_layout(c: CPU, m: Memory, ins: Instruction)
    requires
        c.reg.wf(),
        alu_spec(c, m, ins) is Some,
    ensures
        alu_spec(c, m, ins)->Some_0.0.reg.wf(),
{
    broadcast use crate::register::lemma_set_flag_keeps_wf;
}

/// Loads, INC/DEC, rotates, BIT/SET/RES, SWAP and the stack keep bits 3 to 0 of F at 0.
proof fn lemma_operand_ops_keep_f_layout(c: CPU, m: Memory, ins: Instruction)
    requires
        c.reg.wf(),
    ensures
        (match ins {
            Instruction::LD(a, b) => ld_spec(c, m, a, b),
            Instruction::LDI(a, b) => ld_hl_step_spec(c, m, a, b, true),
            Instruction::LDD(a, b) => ld_hl_step_spec(c, m, a, b, false),
            Instruction::INC(l) => inc_dec_spec(c, m, l, true),
            Instruction::DEC(l) => inc_dec_spec(c, m, l, false),
            Instruction::RLC(l) | Instruction::RL(l) | Instruction::RRC(l) | Instruction::RR(l)
            | Instruction::SLA(l) | Instruction::SRA(l) | Instruction::SRL(l) => rot_loc_spec(c, m, rot_op_of(ins), l),
            Instruction::SWAP(l) => swap_spec(c, m, l),
            Instruction::BIT(_, _) | Instruction::SET(_, _) | Instruction::RES(_, _) => bit_op_spec(c, m, ins),
            _ => None,
        }) matches Some((c1, _)) ==> c1.reg.wf(),
{
    broadcast use crate::register::lemma_set_flag_keeps_wf, crate::register::lemma_set_pair_keeps_wf;
}

/// No instruction sets bits 3 to 0 of F: F's layout keeps them 0.
#[verifier::rlimit(80)]
pub proof fn lemma_execute_keeps_f_layout(c: CPU, m: Memory, ins: Instruction)
    requires
        c.reg.wf(),
        execute_spec(c, m, ins) is Some,
    ensures
        execute_spec(c, m, ins)->Some_0.0.reg.wf(),
{
    broadcast use crate::register::lemma_set_flag_keeps_wf, crate::register::lemma_set_pair_keeps_wf;
    match ins {
        Instruction::ADD(_) | Instruction::ADC(_) | Instruction::SUB(_) | Instruction::SBC(_)
        | Instruction::AND(_) | Instruction::OR(_) | Instruction::XOR(_) | Instruction::CP(_) => {
            lemma_alu_keeps_f_layout(c, m, ins);
        },
        Instruction::LD(..) | Instruction::LDI(..) | Instruction::LDD(..) | Instruction::INC(_) | Instruction::DEC(_)
        | Instruction::RLC(_) | Instruction::RL(_) | Instruction::RRC(_) | Instruction::RR(_) | Instruction::SLA(_)
        | Instruction::SRA(_) | Instruction::SRL(_) | Instruction::SWAP(_) | Instruction::BIT(..)
        | Instruction::SET(..) | Instruction::RES(..) => {
            lemma_operand_ops_keep_f_layout(c, m, ins);
        },
        _ => {},
    }
}

/// A CPU step keeps bits 3 to 0 of F at 0.
pub proof fn lemma_run_cycle_keeps_f_layout(c: CPU, m: Memory)
    requires
        c.reg.wf(),
        run_cycle_spec(c, m) is Some,
    ensures
        run_cycle_spec(c, m)->Some_0.0.reg.wf(),
{
    if !c.halted {
        let (ins, op, c1) = fetch_decode_spec(c, m)->Some_0;
        lemma_execute_keeps_f_layout(c1, m, ins);
    }
}

/// Interrupt dispatch leaves the register file but for SP and PC.
pub proof fn lemma_dispatch_keeps_registers(c: CPU, m: Memory)
    requires
        check_interrupts_spec(c, m) is Some,
    ensures
        ({
            let r = check_interrupts_spec(c, m)->Some_0.0.reg;
            r == Registers { sp: r.sp, pc: r.pc, ..c.reg }
        }),
{
}

/// Work RAM and high RAM: where a program keeps its stack.
pub open spec fn stack_ram(addr: u16) -> bool {
    (0xC000 <= addr <= 0xDFFF) || (0xFF80 <= addr <= 0xFFFE)
}

/// The timer writes only TIMA (0xFF05) and IF (0xFF0F): every other RAM byte reads as before.
pub proof fn lemma_timer_keeps_ram(c: CPU, m: Memory, value: u32, a: u16)
    requires
        update_timer_spec(c, m, value) is Some,
        is_plain_ram(a),
        a != 0xFF05,
        a != 0xFF0F,
    ensures
        update_timer_spec(c, m, value)->Some_0.1.read_spec(a) == m.read_spec(a),
        update_timer_spec(c, m, value)->Some_0.1.readable(a) == m.readable(a),
        update_timer_spec(c, m, value)->Some_0.0.reg == c.reg,
{
    let tma = m.read_spec(0xFF06);
    let tima_old = m.read_spec(0xFF05);
    let m1 = m.write_spec(0xFF0F, m.write_cell_spec(0xFF0F) | 4);
    lemma_write_frame(m, 0xFF0F, a, m.write_cell_spec(0xFF0F) | 4);
    lemma_write_frame(m1, 0xFF05, a, tma);
    lemma_write_frame(m, 0xFF05, a, tma);
    lemma_write_frame(m, 0xFF05, a, (tima_old + 1) as u8);
}

/// A PUSH step followed by a POP step copies the pushed pair into the popped one (bits 3 to 0
/// cleared for AF): SP comes back, PC moves past both instructions, and every other register is
/// as before the PUSH, when the stack bytes are work or high RAM.
#[verifier::rlimit(60)]
pub proof fn lemma_push_then_pop_steps(c: CPU, m: Memory, r1: AddrReg, r2: AddrReg)
    requires
        !c.halted,
        stack_ram((c.reg.sp - 1) as u16),
        stack_ram((c.reg.sp - 2) as u16),
        run_cycle_spec(c, m) is Some,
        fetch_decode_spec(c, m)->Some_0.0 == Instruction::PUSH(r1),
        run_cycle_spec(run_cycle_spec(c, m)->Some_0.0, run_cycle_spec(c, m)->Some_0.1) is Some,
        fetch_decode_spec(run_cycle_spec(c, m)->Some_0.0, run_cycle_spec(c, m)->Some_0.1)->Some_0.0
            == Instruction::POP(r2),
    ensures
        ({
            let (c1, m1) = run_cycle_spec(c, m)->Some_0;
            let c2 = run_cycle_spec(c1, m1)->Some_0.0;
            c2.reg == Registers { pc: (c.reg.pc + 2) as u16, ..c.reg.set_pair_spec(r2, c.reg.pair(r1)) }
        }),
{
    let s = c.reg.sp;
    let (ins, op, c0) = fetch_decode_spec(c, m)->Some_0;
    let v = c0.reg.pair(r1);
    assert(v == c.reg.pair(r1));
    let (cp, mp) = push_spec(c0, m, v)->Some_0;
    lemma_push_then_pop(c0, m, v);
    let (c1, m1) = run_cycle_spec(c, m)->Some_0;
    let cd = ie_delay_step(cp);
    lemma_timer_keeps_ram(cd, mp, (ins.cycles() / 4) as u32, (s - 1) as u16);
    lemma_timer_keeps_ram(cd, mp, (ins.cycles() / 4) as u32, (s - 2) as u16);
    assert(c1.reg == cp.reg);
    assert(!c1.halted);
    let (ins2, op2, c1b) = fetch_decode_spec(c1, m1)->Some_0;
    assert(pop_spec(c1b, m1) == Some((CPU { reg: Registers { sp: s, ..c1b.reg }, ..c1b }, v)));
    let (c2, m2) = run_cycle_spec(c1, m1)->Some_0;
    assert(c2.reg == Registers { sp: s, ..c1b.reg }.set_pair_spec(r2, v));
}

/// The timer changes only the cycle counter, TIMA (0xFF05) and IF (0xFF0F).
pub proof fn lemma_timer_frame(c: CPU, m: Memory, value: u32)
    requires
        update_timer_spec(c, m, value) is Some,
    ensures
        ({
            let (c1, m1) = update_timer_spec(c, m, value)->Some_0;
            &&& c1 == (CPU { m_cycle_counter: c1.m_cycle_counter, ..c })
            &&& m1 == (Memory { io1: m1.io1, ..m })
            &&& forall|i: int| 0 <= i < 0x10 && i != 5 && i != 0xF ==> m1.io1@[i] == m.io1@[i]
        }),
{
}

/// After a HALT step, the next step fetches nothing: the registers stay as HALT left them (PC
/// just past it), the CPU stays halted, and memory changes only in TIMA (0xFF05) and IF
/// (0xFF0F).
pub proof fn lemma_halt_then_wait(c: CPU, m: Memory)
    requires
        !c.halted,
        run_cycle_spec(c, m) is Some,
        fetch_decode_spec(c, m)->Some_0.0 == Instruction::HALT,
        run_cycle_spec(run_cycle_spec(c, m)->Some_0.0, run_cycle_spec(c, m)->Some_0.1) is Some,
    ensures
        ({
            let (c1, m1) = run_cycle_spec(c, m)->Some_0;
            let (c2, m2) = run_cycle_spec(c1, m1)->Some_0;
            &&& c1.halted && c2.halted
            &&& c1.reg == Registers { pc: (c.reg.pc + 1) as u16, ..c.reg }
            &&& c2.reg == c1.reg
            &&& m2 == (Memory { io1: m2.io1, ..m1 })
            &&& forall|i: int| 0 <= i < 0x10 && i != 5 && i != 0xF ==> m2.io1@[i] == m1.io1@[i]
        }),
{
    let (ins, op, c0) = fetch_decode_spec(c, m)->Some_0;
    let cd = ie_delay_step(CPU { halted: true, ..c0 });
    lemma_timer_frame(cd, m, (ins.cycles() / 4) as u32);
    let (c1, m1) = run_cycle_spec(c, m)->Some_0;
    lemma_timer_frame(c1, m1, 1);
}

/// EI with IME off: a dispatch right after it serves nothing, and after the next instruction
/// (other than EI) IME is set, so a dispatch serves the lowest pending interrupt: it calls its
/// handler with IME cleared again.
pub proof fn lemma_ei_then_dispatch(c: CPU, m: Memory)
    requires
        !c.halted,
        !c.ime,
        run_cycle_spec(c, m) is Some,
        fetch_decode_spec(c, m)->Some_0.0 == Instruction::EI,
        run_cycle_spec(run_cycle_spec(c, m)->Some_0.0, run_cycle_spec(c, m)->Some_0.1) is Some,
        !(fetch_decode_spec(run_cycle_spec(c, m)->Some_0.0, run_cycle_spec(c, m)->Some_0.1)->Some_0.0 is EI),
    ensures
        ({
            let (c1, m1) = run_cycle_spec(c, m)->Some_0;
            let (c2, m2) = run_cycle_spec(c1, m1)->Some_0;
            &&& !c1.ime
            &&& check_interrupts_spec(c1, m1) is Some
            &&& check_interrupts_spec(c1, m1)->Some_0.1 == m1
            &&& check_interrupts_spec(c1, m1)->Some_0.0.reg == c1.reg
            &&& c2.ime
            &&& match lowest_pending(m2.read_spec(0xFFFF), m2.read_spec(0xFF0F)) {
                Some(b) => check_interrupts_spec(c2, m2) is Some ==> {
                    let c3 = check_interrupts_spec(c2, m2)->Some_0.0;
                    c3.reg.pc == interrupt_handler(b) && !c3.ime
                },
                None => true,
            }
        }),
{
    lemma_ei_waits_one_instruction(c, m);
    let (c1, m1) = run_cycle_spec(c, m)->Some_0;
    lemma_no_dispatch_without_ime(c1, m1);
    assert(!c1.halted);
    lemma_ime_set_after_delay(c1, m1);
}

/// A CPU step that executes XOR leaves in A the bitwise exclusive or of A and the operand, with
/// Z set exactly when the two were equal and N, H, C cleared; the other registers keep the
/// values the fetch left (PC past the instruction). So XOR A clears A and sets Z.
pub proof fn lemma_xor_step(c: CPU, m: Memory, l: DataLoc)
    requires
        !c.halted,
        run_cycle_spec(c, m) is Some,
        fetch_decode_spec(c, m)->Some_0.0 == Instruction::XOR(l),
    ensures
        ({
            let c0 = fetch_decode_spec(c, m)->Some_0.2;
            let n = alu_operand(c0, m, l)->Some_0;
            let c1 = run_cycle_spec(c, m)->Some_0.0;
            &&& alu_operand(c0, m, l) is Some
            &&& forall|i: u8| i < 8 ==> #[trigger] bit(c1.reg.a, i) == (bit(c.reg.a, i) != bit(n, i))
            &&& c1.reg.flag(7) == (c.reg.a == n)
            &&& !c1.reg.flag(6) && !c1.reg.flag(5) && !c1.reg.flag(4)
            &&& c1.reg == (Registers { a: c1.reg.a, f: c1.reg.f, ..c0.reg })
            &&& l == DataLoc::Reg(Reg::A) ==> c1.reg.a == 0 && c1.reg.flag(7)
        }),
{
    let (ins, op, c0) = fetch_decode_spec(c, m)->Some_0;
    let n = alu_operand(c0, m, l)->Some_0;
    lemma_xor_is_exclusive_or(c0.reg, n);
    let (c2, m2) = execute_spec(c0, m, ins)->Some_0;
    let cd = ie_delay_step(c2);
    lemma_timer_frame(cd, m2, (ins.cycles() / 4) as u32);
    assert(c0.reg.a == c.reg.a);
}

/// With the timer enabled (TAC bit 2), TIMA counts up once per 256, 4, 16 or 64 machine cycles
/// for clock select 0, 1, 2 or 3 (TAC bits 1 and 0): when the cycles gathered so far plus
/// `value` reach that period, TIMA goes up by one (reloading TMA when it passes 255) and the
/// period is taken off the gathered cycles; below it TIMA stays and the cycles are kept. When
/// TIMA passes 255 the timer interrupt (IF bit 2) is requested if IE enables it. The registers
/// are never touched.
pub proof fn lemma_timer_counts_per_clock_select(c: CPU, m: Memory, value: u32)
    requires
        (m.read_spec(0xFF07) / 4) % 2 == 1,
        c.m_cycle_counter + value <= u32::MAX,
    ensures
        ({
            let tac = m.read_spec(0xFF07);
            let cycles_per_tick: int = if tac % 4 == 0 {
                256
            } else if tac % 4 == 1 {
                4
            } else if tac % 4 == 2 {
                16
            } else {
                64
            };
            let total = c.m_cycle_counter + value;
            let tima = m.read_spec(0xFF05);
            let (c1, m1) = update_timer_spec(c, m, value)->Some_0;
            &&& update_timer_spec(c, m, value) is Some
            &&& c1.reg == c.reg
            &&& total < cycles_per_tick ==> c1.m_cycle_counter == total && m1 == m
            &&& total >= cycles_per_tick ==> {
                &&& c1.m_cycle_counter == total - cycles_per_tick
                &&& m1.read_spec(0xFF05) == (if tima == 255 { m.read_spec(0xFF06) } else { (tima + 1) as u8 })
                &&& m1.read_spec(0xFF0F) == (if tima == 255 && bit(m.read_spec(0xFFFF), 2) {
                    m.read_spec(0xFF0F) | 4
                } else {
                    m.read_spec(0xFF0F)
                })
            }
        }),
{
    let tac = m.read_spec(0xFF07);
    let tima = m.read_spec(0xFF05);
    let total = c.m_cycle_counter + value;
    if total >= timer_period((tac % 4) as int) {
        if tima == 255 {
            let m1 = if bit(m.read_spec(0xFFFF), 2) {
                m.write_spec(0xFF0F, m.write_cell_spec(0xFF0F) | 4)
            } else {
                m
            };
            assert(m1.write_spec(0xFF05, m.read_spec(0xFF06)).read_spec(0xFF05) == m.read_spec(0xFF06));
            assert(m1.write_spec(0xFF05, m.read_spec(0xFF06)).read_spec(0xFF0F) == m1.read_spec(0xFF0F));
        }
    }
}

/// A CPU step that executes an 8-bit ALU instruction computes on A and the operand: ADD and ADC
/// add (the result plus 256 for a set C is A + operand + carry in), SUB subtracts and CP compares
/// without changing A (Z exactly when A equals the operand, C exactly when A is below it), AND
/// and OR are bitwise; the registers other than A and F keep the values the fetch left.
pub proof fn lemma_alu_step(c: CPU, m: Memory)
    requires
        !c.halted,
        run_cycle_spec(c, m) is Some,
        alu_location(fetch_decode_spec(c, m)->Some_0.0) is Some,
    ensures
        ({
            let (ins, _, c0) = fetch_decode_spec(c, m)->Some_0;
            let l = alu_location(ins)->Some_0;
            let n = alu_operand(c0, m, l)->Some_0;
            let a = c.reg.a;
            let c1 = run_cycle_spec(c, m)->Some_0.0;
            let carry: int = if c1.reg.flag(4) { 256 } else { 0 };
            let cin: int = if c.reg.flag(4) { 1 } else { 0 };
            &&& alu_operand(c0, m, l) is Some
            &&& c1.reg == (Registers { a: c1.reg.a, f: c1.reg.f, ..c0.reg })
            &&& ins is ADD ==> c1.reg.a + carry == a + n && !c1.reg.flag(6) && c1.reg.flag(7) == (c1.reg.a == 0)
            &&& ins is ADC ==> c1.reg.a + carry == a + n + cin && !c1.reg.flag(6)
            &&& ins is SUB ==> c1.reg.a + n == a + carry && c1.reg.flag(6) && c1.reg.flag(7) == (a == n)
                && c1.reg.flag(4) == (a < n)
            &&& ins is CP ==> c1.reg.a == a && c1.reg.flag(6) && c1.reg.flag(7) == (a == n)
                && c1.reg.flag(4) == (a < n)
            &&& ins is AND ==> (forall|i: u8| i < 8 ==> #[trigger] bit(c1.reg.a, i) == (bit(a, i) && bit(n, i)))
                && c1.reg.flag(5) && !c1.reg.flag(4)
            &&& ins is OR ==> (forall|i: u8| i < 8 ==> #[trigger] bit(c1.reg.a, i) == (bit(a, i) || bit(n, i)))
                && c1.reg.flag(7) == (a == 0 && n == 0)
            &&& ins is XOR ==> (forall|i: u8| i < 8 ==> #[trigger] bit(c1.reg.a, i) == (bit(a, i) != bit(n, i)))
                && c1.reg.flag(7) == (a == n)
        }),
{
    let (ins, op, c0) = fetch_decode_spec(c, m)->Some_0;
    let l = alu_location(ins)->Some_0;
    let n = alu_operand(c0, m, l)->Some_0;
    assert(c0.reg.a == c.reg.a);
    assert(c0.reg.f == c.reg.f);
    lemma_add_is_addition(c0.reg, n, false);
    lemma_add_is_addition(c0.reg, n, true);
    lemma_sub_is_subtraction(c0.reg, n);
    lemma_and_is_bitwise_and(c0.reg, n);
    lemma_or_is_bitwise_or(c0.reg, n);
    lemma_xor_is_exclusive_or(c0.reg, n);
    let (c2, m2) = execute_spec(c0, m, ins)->Some_0;
    let cd = ie_delay_step(c2);
    lemma_timer_frame(cd, m2, (ins.cycles() / 4) as u32);
}

/// The operand of an 8-bit ALU instruction (ADD, ADC, SUB, SBC, AND, OR, XOR, CP); `None` for
/// the other instructions.
pub open spec fn alu_location(ins: Instruction) -> Option<DataLoc> {
    match ins {
        Instruction::ADD(l) | Instruction::ADC(l) | Instruction::SUB(l) | Instruction::SBC(l)
        | Instruction::AND(l) | Instruction::OR(l) | Instruction::XOR(l) | Instruction::CP(l) => Some(l),
        _ => None,
    }
}

} // verus!
