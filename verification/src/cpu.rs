use vstd::prelude::*;
use crate::addrreg::AddrReg;
use crate::alu::{RotOp, rotate, daa, add_flags, sub_flags, and_flags, or_flags, xor_flags, add_spec, sub_spec, and_spec, or_spec, xor_spec};
use crate::bits::{set_elem, join_word, split_word, bit, lemma_bit_test, lemma_byte_ops};
use crate::cpu_spec::{outcome, with_reg, push_spec, pop_spec, call_spec, ret_spec, lowest_pending, check_interrupts_spec, update_timer_spec, alu_operand, rw_operand, write_back, alu_spec, ld_spec, inc_dec_spec, rot_loc_spec, bit_op_spec, swap_spec, sp_offset_spec, stop_spec, execute_spec, fetch_decode_spec, run_cycle_spec};
use crate::dataloc::DataLoc;
use crate::decode::{decode, operand_bytes};
use crate::instruction::Instruction;
use crate::memory::{Memory, rd, wr};
use crate::reg::Reg;
use crate::register::Registers;

verus! {

/// Whether the instruction is one of the loads, stack pushes and pops.
pub open spec fn is_load_group(i: Instruction) -> bool {
    match i {
        Instruction::LD(..) | Instruction::LD5 | Instruction::LD6 | Instruction::LDH1(..) | Instruction::LDH2(..) | Instruction::LDI(..) | Instruction::LDD(..) | Instruction::LD16(..) | Instruction::LDSPHL | Instruction::LDHL(..) | Instruction::LDnn(..) | Instruction::PUSH(..) | Instruction::POP(..) => true,
        _ => false,
    }
}

fn is_load(i: &Instruction) -> (b: bool)
    ensures
        b == is_load_group(*i),
{
    match i {
        Instruction::LD(..) | Instruction::LD5 | Instruction::LD6 | Instruction::LDH1(..) | Instruction::LDH2(..) | Instruction::LDI(..) | Instruction::LDD(..) | Instruction::LD16(..) | Instruction::LDSPHL | Instruction::LDHL(..) | Instruction::LDnn(..) | Instruction::PUSH(..) | Instruction::POP(..) => true,
        _ => false,
    }
}

/// Whether the instruction is one of the arithmetic, logic and bit instructions.
pub open spec fn is_arith_group(i: Instruction) -> bool {
    match i {
        Instruction::INC(..) | Instruction::DEC(..) | Instruction::INC16(..) | Instruction::DEC16(..) | Instruction::ADD(..) | Instruction::ADD16(..) | Instruction::ADD16n(..) | Instruction::SWAP(..) | Instruction::BIT(..) | Instruction::DAA | Instruction::CPL | Instruction::CCF | Instruction::SCF | Instruction::ADC(..) | Instruction::SUB(..) | Instruction::SBC(..) | Instruction::AND(..) | Instruction::OR(..) | Instruction::XOR(..) | Instruction::CP(..) | Instruction::SET(..) | Instruction::RES(..) => true,
        _ => false,
    }
}

/// Whether the instruction is one of the jumps, calls, returns and CPU control.
pub open spec fn is_control_group(i: Instruction) -> bool {
    match i {
        Instruction::JP1(..) | Instruction::JP2(..) | Instruction::JP3 | Instruction::JR4(..) | Instruction::JR5(..) | Instruction::CALL(..) | Instruction::CALLc(..) | Instruction::RET | Instruction::RETc(..) | Instruction::RETI | Instruction::NOP | Instruction::HALT | Instruction::STOP | Instruction::DI | Instruction::EI | Instruction::RST(..) => true,
        _ => false,
    }
}

fn is_control(i: &Instruction) -> (b: bool)
    ensures
        b == is_control_group(*i),
{
    match i {
        Instruction::JP1(..) | Instruction::JP2(..) | Instruction::JP3 | Instruction::JR4(..) | Instruction::JR5(..) | Instruction::CALL(..) | Instruction::CALLc(..) | Instruction::RET | Instruction::RETc(..) | Instruction::RETI | Instruction::NOP | Instruction::HALT | Instruction::STOP | Instruction::DI | Instruction::EI | Instruction::RST(..) => true,
        _ => false,
    }
}

/// Whether the instruction is one of the rotates and shifts.
pub open spec fn is_rotate_group(i: Instruction) -> bool {
    match i {
        Instruction::RLCA | Instruction::RLA | Instruction::RRCA | Instruction::RRA | Instruction::RLC(..) | Instruction::RL(..) | Instruction::RRC(..) | Instruction::RR(..) | Instruction::SLA(..) | Instruction::SRA(..) | Instruction::SRL(..) => true,
        _ => false,
    }
}

fn is_rotate(i: &Instruction) -> (b: bool)
    ensures
        b == is_rotate_group(*i),
{
    match i {
        Instruction::RLCA | Instruction::RLA | Instruction::RRCA | Instruction::RRA | Instruction::RLC(..) | Instruction::RL(..) | Instruction::RRC(..) | Instruction::RR(..) | Instruction::SLA(..) | Instruction::SRA(..) | Instruction::SRL(..) => true,
        _ => false,
    }
}

/// The CPU: registers, interrupt state and the timer's cycle counter.
pub struct CPU {
    pub reg: Registers,
    pub last: Instruction,
    /// Master interrupt enable (IME) flag
    pub ime: bool,
    pub ie_delay: i8,
    pub halted: bool,
    /// Executions of each opcode; 0xCB-prefixed ones at 256 + the second byte.
    pub instructions_count: [usize; 512],
    pub m_cycle_counter: u32,
}

impl CPU {
    /// The state at reset: registers as `Registers::new`, IME off, nothing counted.
    pub open spec fn is_reset(self) -> bool {
        &&& self.reg == Registers::new_spec()
        &&& self.last == Instruction::NOP
        &&& !self.ime
        &&& self.ie_delay == -1
        &&& !self.halted
        &&& forall|i: int| 0 <= i < 512 ==> self.instructions_count@[i] == 0
        &&& self.m_cycle_counter == 0
    }

    /// A CPU at reset.
    pub fn new() -> (c: Self)
        ensures
            c.is_reset(),
    {
        Self {
            reg: Registers::new(),
            last: Instruction::NOP,
            ime: false,
            ie_delay: -1,
            halted: false,
            instructions_count: [0; 512],
            m_cycle_counter: 0,
        }
    }

    /// Pushes a word onto the stack.
    fn push(&mut self, val: u16, mem: &mut Memory) -> (ok: bool)
        ensures
            outcome(push_spec(*old(self), *old(mem), val), ok, *final(self), *final(mem)),
    {
        let (ms, ls) = split_word(val);
        if self.reg.sp < 2 {
            return false;
        }
        if !mem.try_write(self.reg.sp - 1, ms) {
            return false;
        }
        if !mem.try_write(self.reg.sp - 2, ls) {
            return false;
        }
        self.reg.sp = self.reg.sp - 2;
        true
    }

    /// Pops a word from the stack.
    fn pop(&mut self, mem: &Memory) -> (r: Option<u16>)
        ensures
            match pop_spec(*old(self), *mem) {
                None => r is None,
                Some((c1, v)) => r == Some(v) && *final(self) == c1,
            },
    {
        if self.reg.sp >= 0xFFFE {
            return None;
        }
        let ls = mem.try_read(self.reg.sp)?;
        let ms = mem.try_read(self.reg.sp + 1)?;
        self.reg.sp = self.reg.sp + 2;
        Some(join_word(ms, ls))
    }

    /// Pushes PC and jumps to `addr`.
    fn call(&mut self, addr: u16, mem: &mut Memory) -> (ok: bool)
        ensures
            outcome(call_spec(*old(self), *old(mem), addr), ok, *final(self), *final(mem)),
    {
        let pc_next = self.reg.pc;  // Program Counter is already at next instruction.
        if !self.push(pc_next, mem) {
            return false;
        }
        self.reg.pc = addr;
        true
    }

    /// Pops PC.
    fn ret(&mut self, mem: &Memory) -> (ok: bool)
        ensures
            outcome(ret_spec(*old(self), *mem), ok, *final(self), *mem),
    {
        match self.pop(mem) {
            Some(v) => {
                self.reg.pc = v;
                true
            },
            None => false,
        }
    }

    /// Dispatches a pending interrupt (see `check_interrupts_spec`). Returns false exactly where
    /// the dispatch is not defined: the stack push fails or the cycle counter would overflow.
    pub fn check_interrupts(&mut self, mem: &mut Memory) -> (ok: bool)
        ensures
            outcome(check_interrupts_spec(*old(self), *old(mem)), ok, *final(self), *final(mem)),
    {
        let ie = mem.read(0xFFFF);
        let if_ = mem.read(0xFF0F);

        if ie & if_ > 0 {
            self.halted = false;
        }

        if !self.ime {
            return true;
        }

        let mut b: u8 = 0;
        while b < 5
            invariant
                b <= 5,
                self.ime,
                ie == old(mem).read_spec(0xFFFF),
                if_ == old(mem).read_spec(0xFF0F),
                *mem == *old(mem),
                *self == (if ie & if_ > 0 { CPU { halted: false, ..*old(self) } } else { *old(self) }),
                forall|j: u8| j < b ==> !(#[trigger] bit(if_, j) && bit(ie, j)),
            decreases 5 - b,
        {
            proof {
                lemma_bit_test(if_, b);
                lemma_bit_test(ie, b);
            }
            if (if_ >> b) & 1 != 0 && (ie >> b) & 1 != 0 {
                assert(lowest_pending(ie, if_) == Some(b as int));
                let cell = mem.write_cell(0xFF0F);
                mem.write(0xFF0F, cell & !(1u8 << b));
                self.ime = false;
                let handler: u16 = 0x40 + 8 * (b as u16);
                if !self.call(handler, mem) {
                    return false;
                }
                if self.m_cycle_counter > u32::MAX - 5 {
                    return false;
                }
                self.m_cycle_counter = self.m_cycle_counter + 5;
                return true;
            }
            b = b + 1;
        }
        assert(lowest_pending(ie, if_) is None);
        true
    }

    /// Advances the timer by `value` machine cycles (see `update_timer_spec`). Returns false
    /// exactly where the cycle counter would overflow.
    pub fn update_timer(&mut self, mem: &mut Memory, value: u32) -> (ok: bool)
        ensures
            outcome(update_timer_spec(*old(self), *old(mem), value), ok, *final(self), *final(mem)),
    {
        // TIMA register
        let tima_old = mem.read(0xFF05);
        let tma = mem.read(0xFF06);
        let tac = mem.read(0xFF07);
        let tac_clock_select = tac & 0b11;
        let tac_enable = (tac >> 2) & 1 != 0;
        proof {
            lemma_byte_ops(tac);
        }

        if tac_enable {
            if self.m_cycle_counter > u32::MAX - value {
                return false;
            }
            self.m_cycle_counter = self.m_cycle_counter + value;
            let inc_per_cycles: u32 = if tac_clock_select == 0 {
                256
            } else if tac_clock_select == 1 {
                4
            } else if tac_clock_select == 2 {
                16
            } else {
                64
            };
            if self.m_cycle_counter >= inc_per_cycles {
                self.m_cycle_counter = self.m_cycle_counter - inc_per_cycles;
                let mut tima_new = tima_old.wrapping_add(1);
                assert((tima_new < tima_old) == (tima_old == 255));
                if tima_new < tima_old {
                    tima_new = tma;
                    // Timer interrupt
                    let ie = mem.read(0xFFFF);
                    proof {
                        lemma_bit_test(ie, 2);
                    }
                    if (ie >> 2u8) & 1u8 != 0 {
                        let cell = mem.write_cell(0xFF0F);
                        mem.write(0xFF0F, cell | 4);
                    }
                }
                mem.write(0xFF05, tima_new);
            }
        }
        true
    }

    /// Operand of an 8-bit ALU operation.
    fn alu_operand(&self, l: DataLoc, mem: &Memory) -> (r: Option<u8>)
        ensures
            r == alu_operand(*self, *mem, l),
    {
        match l {
            DataLoc::Reg(r) => Some(self.reg.get(r)),
            DataLoc::AddrReg(AddrReg::HL) => mem.try_read(self.reg.get_pair(AddrReg::HL)),
            DataLoc::Value(v) => Some(v),
            _ => None,
        }
    }

    /// Operand of INC, DEC, SWAP, BIT and the rotates.
    fn rw_operand(&self, l: DataLoc, mem: &Memory) -> (r: Option<u8>)
        ensures
            r == rw_operand(*self, *mem, l),
    {
        match l {
            DataLoc::Reg(r) => Some(self.reg.get(r)),
            DataLoc::AddrReg(AddrReg::HL) => mem.try_read(self.reg.get_pair(AddrReg::HL)),
            _ => None,
        }
    }

    /// Writes back to a register or (HL).
    fn write_back(&mut self, l: DataLoc, v: u8, mem: &mut Memory) -> (ok: bool)
        ensures
            outcome(write_back(*old(self), *old(mem), l, v), ok, *final(self), *final(mem)),
    {
        match l {
            DataLoc::Reg(r) => {
                self.reg.set(r, v);
                true
            },
            DataLoc::AddrReg(AddrReg::HL) => mem.try_write(self.reg.get_pair(AddrReg::HL), v),
            _ => false,
        }
    }

    /// ADD or ADC: A plus the operand (plus carry); returns the sum and sets the flags.
    fn add_set_flags(&mut self, l: DataLoc, add_carry: bool, mem: &Memory) -> (r: Option<u8>)
        ensures
            match alu_operand(*old(self), *mem, l) {
                None => r is None,
                Some(n) => r == Some(add_spec(old(self).reg, n, add_carry).1)
                    && *final(self) == with_reg(*old(self), add_spec(old(self).reg, n, add_carry).0),
            },
    {
        let n = self.alu_operand(l, mem)?;
        Some(add_flags(&mut self.reg, n, add_carry))
    }

    /// SUB, SBC or CP: A minus the operand (minus carry); returns the difference and sets the flags.
    fn sub_set_flags(&mut self, l: DataLoc, add_carry: bool, mem: &Memory) -> (r: Option<u8>)
        ensures
            match alu_operand(*old(self), *mem, l) {
                None => r is None,
                Some(n) => r == Some(sub_spec(old(self).reg, n, add_carry).1)
                    && *final(self) == with_reg(*old(self), sub_spec(old(self).reg, n, add_carry).0),
            },
    {
        let n = self.alu_operand(l, mem)?;
        Some(sub_flags(&mut self.reg, n, add_carry))
    }

    /// AND with the operand; returns the result and sets the flags.
    fn and_set_flags(&mut self, l: DataLoc, mem: &Memory) -> (r: Option<u8>)
        ensures
            match alu_operand(*old(self), *mem, l) {
                None => r is None,
                Some(n) => r == Some(and_spec(old(self).reg, n).1)
                    && *final(self) == with_reg(*old(self), and_spec(old(self).reg, n).0),
            },
    {
        let n = self.alu_operand(l, mem)?;
        Some(and_flags(&mut self.reg, n))
    }

    /// OR with the operand; returns the result and sets the flags.
    fn or_set_flags(&mut self, l: DataLoc, mem: &Memory) -> (r: Option<u8>)
        ensures
            match alu_operand(*old(self), *mem, l) {
                None => r is None,
                Some(n) => r == Some(or_spec(old(self).reg, n).1)
                    && *final(self) == with_reg(*old(self), or_spec(old(self).reg, n).0),
            },
    {
        let n = self.alu_operand(l, mem)?;
        Some(or_flags(&mut self.reg, n))
    }

    /// XOR with the operand; returns the result and sets the flags.
    fn xor_set_flags(&mut self, l: DataLoc, mem: &Memory) -> (r: Option<u8>)
        ensures
            match alu_operand(*old(self), *mem, l) {
                None => r is None,
                Some(n) => r == Some(xor_spec(old(self).reg, n).1)
                    && *final(self) == with_reg(*old(self), xor_spec(old(self).reg, n).0),
            },
    {
        let n = self.alu_operand(l, mem)?;
        Some(xor_flags(&mut self.reg, n))
    }

    /// Executes an instruction of the 8-bit ALU group.
    fn alu(&mut self, ins: Instruction, mem: &Memory) -> (ok: bool)
        ensures
            outcome(alu_spec(*old(self), *mem, ins), ok, *final(self), *mem),
    {
        let r = match ins {
            Instruction::ADD(l) => self.add_set_flags(l, false, mem),
            Instruction::ADC(l) => self.add_set_flags(l, true, mem),
            Instruction::SUB(l) => self.sub_set_flags(l, false, mem),
            Instruction::SBC(l) => self.sub_set_flags(l, true, mem),
            Instruction::AND(l) => self.and_set_flags(l, mem),
            Instruction::OR(l) => self.or_set_flags(l, mem),
            Instruction::XOR(l) => self.xor_set_flags(l, mem),
            Instruction::CP(l) => {
                return self.sub_set_flags(l, false, mem).is_some();
            },
            _ => None,
        };
        match r {
            Some(v) => {
                self.reg.a = v;
                true
            },
            None => false,
        }
    }

    /// An 8-bit load from `from` to `to`.
    fn ld_8_bit(&mut self, to: DataLoc, from: DataLoc, mem: &mut Memory) -> (ok: bool)
        ensures
            outcome(ld_spec(*old(self), *old(mem), to, from), ok, *final(self), *final(mem)),
    {
        let v = match from {
            DataLoc::Reg(r) => self.reg.get(r),
            DataLoc::AddrReg(r) => {
                if r == AddrReg::SP {
                    return false;
                }
                match mem.try_read(self.reg.get_pair(r)) {
                    Some(v) => v,
                    None => {
                        return false;
                    },
                }
            },
            DataLoc::Addr(addr) => match mem.try_read(addr) {
                Some(v) => v,
                None => {
                    return false;
                },
            },
            DataLoc::Value(v) => v,
        };
        match to {
            DataLoc::Reg(r) => {
                self.reg.set(r, v);
                true
            },
            DataLoc::AddrReg(r) => {
                if r == AddrReg::SP {
                    return false;
                }
                mem.try_write(self.reg.get_pair(r), v)
            },
            DataLoc::Addr(addr) => mem.try_write(addr, v),
            DataLoc::Value(_) => false,
        }
    }

    /// INC or DEC of a register or (HL).
    fn inc_dec(&mut self, l: DataLoc, inc: bool, mem: &mut Memory) -> (ok: bool)
        ensures
            outcome(inc_dec_spec(*old(self), *old(mem), l, inc), ok, *final(self), *final(mem)),
    {
        let (old_v, res) = match l {
            DataLoc::Reg(r) => {
                let old_v = self.reg.get(r);
                let res = if inc { old_v.wrapping_add(1) } else { old_v.wrapping_sub(1) };
                self.reg.set(r, res);
                (old_v, res)
            },
            DataLoc::AddrReg(AddrReg::HL) => {
                let addr = self.reg.get_pair(AddrReg::HL);
                let old_v = match mem.try_read(addr) {
                    Some(v) => v,
                    None => {
                        return false;
                    },
                };
                let new_v = if inc { old_v.wrapping_add(1) } else { old_v.wrapping_sub(1) };
                if !mem.try_write(addr, new_v) {
                    return false;
                }
                match mem.try_read(addr) {
                    Some(v) => (old_v, v),
                    None => {
                        return false;
                    },
                }
            },
            _ => {
                return false;
            },
        };
        proof {
            lemma_byte_ops(old_v);
            lemma_byte_ops(res);
        }
        if inc {
            self.reg.set_flag(7, res == 0);
            self.reg.set_flag(6, false);
            self.reg.set_flag(5, old_v & 0x0F == 0x0F);
        } else {
            self.reg.set_flag(7, res == 0);
            self.reg.set_flag(6, true);
            self.reg.set_flag(5, res & 0x0F == 0x0F);
        }
        true
    }

    /// Applies a rotate or shift to a register or (HL).
    fn apply_to_7_bit_reg(&mut self, op: RotOp, r: DataLoc, mem: &mut Memory) -> (ok: bool)
        ensures
            outcome(rot_loc_spec(*old(self), *old(mem), op, r), ok, *final(self), *final(mem)),
    {
        let n = match self.rw_operand(r, mem) {
            Some(n) => n,
            None => {
                return false;
            },
        };
        let n_new = rotate(op, n, &mut self.reg);
        self.write_back(r, n_new, mem)
    }

    /// BIT, SET or RES.
    fn bit_op(&mut self, ins: Instruction, mem: &mut Memory) -> (ok: bool)
        ensures
            outcome(bit_op_spec(*old(self), *old(mem), ins), ok, *final(self), *final(mem)),
    {
        match ins {
            Instruction::BIT(data, n) => {
                let b = (data / 8) % 8;
                let mask: u8 = 1u8 << b;
                let v = match self.rw_operand(n, mem) {
                    Some(v) => v,
                    None => {
                        return false;
                    },
                };
                let z = v & mask;
                self.reg.set_flag(7, z == 0);
                self.reg.set_flag(6, false);
                self.reg.set_flag(5, true);
                true
            },
            Instruction::SET(data, n) | Instruction::RES(data, n) => {
                let b = (data / 8) % 8;
                let mask: u8 = 1u8 << b;
                let is_set = matches!(ins, Instruction::SET(_, _));
                match n {
                    DataLoc::Reg(r) => {
                        let v = self.reg.get(r);
                        let nv = if is_set { v | mask } else { v & !mask };
                        self.reg.set(r, nv);
                        true
                    },
                    DataLoc::AddrReg(AddrReg::HL) => {
                        let addr = self.reg.get_pair(AddrReg::HL);
                        if !mem.is_writable(addr) {
                            return false;
                        }
                        let v = mem.write_cell(addr);
                        let nv = if is_set { v | mask } else { v & !mask };
                        mem.write(addr, nv);
                        true
                    },
                    _ => false,
                }
            },
            _ => false,
        }
    }

    /// SWAP of the nibbles of a register or (HL).
    fn swap(&mut self, l: DataLoc, mem: &mut Memory) -> (ok: bool)
        ensures
            outcome(swap_spec(*old(self), *old(mem), l), ok, *final(self), *final(mem)),
    {
        let n = match self.rw_operand(l, mem) {
            Some(n) => n,
            None => {
                return false;
            },
        };
        let msn = n >> 4u8;
        let lsn = n & 0xF;
        let n_new = (lsn << 4u8) | msn;
        proof {
            lemma_byte_ops(n);
        }
        self.write_back(l, n_new, mem)
    }

    /// SP plus a signed offset with the H and C flags of LDHL and ADD SP,n.
    fn sp_offset(&self, offset: i8) -> (r: (u16, bool, bool))
        ensures
            r == sp_offset_spec(self.reg.sp, offset),
    {
        let sp = self.reg.sp;
        let lo = sp % 256;
        let n = (offset as u8) as u16;
        let r = sp.wrapping_add_signed(offset as i16);
        (r, lo % 16 + n % 16 > 15, lo + n > 255)
    }

    /// STOP.
    fn stop(&mut self, mem: &mut Memory) -> (ok: bool)
        ensures
            outcome(stop_spec(*old(self), *old(mem)), ok, *final(self), *final(mem)),
    {
        let p1 = mem.read(0xFF00);
        proof {
            lemma_byte_ops(p1);
        }
        let button_pressed = p1 & 0x0F == 0;
        let interrupt_pending = mem.read(0xFF0F) & mem.read(0xFFFF) > 0;
        if button_pressed {
            if !interrupt_pending {
                self.halted = true;
            }
        } else {
            mem.write(0xFF04, 0x00);
        }
        true
    }

    /// Executes one of the loads, stack pushes and pops.
    fn execute_load(&mut self, instruction: Instruction, mem: &mut Memory) -> (ok: bool)
        requires
            is_load_group(instruction),
        ensures
            outcome(execute_spec(*old(self), *old(mem), instruction), ok, *final(self), *final(mem)),
    {
        match instruction {
            Instruction::LD(a, b) => self.ld_8_bit(a, b, mem),
            Instruction::LD5 => {
                let addr = 0xFF00 + self.reg.c as u16;
                self.ld_8_bit(DataLoc::Reg(Reg::A), DataLoc::Addr(addr), mem)
            },
            Instruction::LD6 => {
                let addr = 0xFF00 + self.reg.c as u16;
                self.ld_8_bit(DataLoc::Addr(addr), DataLoc::Reg(Reg::A), mem)
            },
            Instruction::LDH1(o) => mem.try_write(0xFF00 + o as u16, self.reg.a),
            Instruction::LDH2(o) => match mem.try_read(0xFF00 + o as u16) {
                Some(v) => {
                    self.reg.a = v;
                    true
                },
                None => false,
            },
            Instruction::LDI(a, b) => {
                if !self.ld_8_bit(a, b, mem) {
                    return false;
                }
                let hl = self.reg.get_pair(AddrReg::HL).wrapping_add(1);
                self.reg.set_pair(AddrReg::HL, hl);
                true
            },
            Instruction::LDD(a, b) => {
                if !self.ld_8_bit(a, b, mem) {
                    return false;
                }
                let hl = self.reg.get_pair(AddrReg::HL).wrapping_sub(1);
                self.reg.set_pair(AddrReg::HL, hl);
                true
            },
            Instruction::LD16(reg, v) => {
                self.reg.set_pair(reg, v);
                true
            },
            Instruction::LDSPHL => {
                let hl = self.reg.get_pair(AddrReg::HL);
                self.reg.set_pair(AddrReg::SP, hl);
                true
            },
            Instruction::LDHL(offset) => {
                let (r, h, c) = self.sp_offset(offset);
                self.reg.set_pair(AddrReg::HL, r);
                self.reg.set_flag(7, false);
                self.reg.set_flag(6, false);
                self.reg.set_flag(5, h);
                self.reg.set_flag(4, c);
                true
            },
            Instruction::LDnn(r) => {
                let (hi, lo) = split_word(self.reg.sp);
                if !mem.try_write(r, lo) {
                    return false;
                }
                if r == 0xFFFF {
                    return false;
                }
                mem.try_write(r + 1, hi)
            },
            Instruction::PUSH(r) => {
                if r == AddrReg::SP {
                    return false;
                }
                let v = self.reg.get_pair(r);
                self.push(v, mem)
            },
            Instruction::POP(r) => match self.pop(mem) {
                Some(val) => {
                    self.reg.set_pair(r, val);
                    true
                },
                None => false,
            },
            _ => false,
        }
    }

    /// Executes one of the arithmetic, logic and bit instructions.
    fn execute_arith(&mut self, instruction: Instruction, mem: &mut Memory) -> (ok: bool)
        requires
            is_arith_group(instruction),
        ensures
            outcome(execute_spec(*old(self), *old(mem), instruction), ok, *final(self), *final(mem)),
    {
        match instruction {
            Instruction::INC(l) => self.inc_dec(l, true, mem),
            Instruction::DEC(l) => self.inc_dec(l, false, mem),
            Instruction::INC16(r) => {
                if r == AddrReg::SP {
                    return false;
                }
                let v = self.reg.get_pair(r).wrapping_add(1);
                self.reg.set_pair(r, v);
                true
            },
            Instruction::DEC16(r) => {
                if r == AddrReg::SP {
                    return false;
                }
                let v = self.reg.get_pair(r).wrapping_sub(1);
                self.reg.set_pair(r, v);
                true
            },
            Instruction::ADD(_) | Instruction::ADC(_) | Instruction::SUB(_) | Instruction::SBC(_)
            | Instruction::AND(_) | Instruction::OR(_) | Instruction::XOR(_) | Instruction::CP(_) => {
                self.alu(instruction, mem)
            },
            Instruction::ADD16(r) => {
                if r == AddrReg::SP {
                    return false;
                }
                let hl = self.reg.get_pair(AddrReg::HL);
                let rhs = self.reg.get_pair(r);
                let h = hl % 4096 + rhs % 4096 > 4095;
                let c = hl as u32 + rhs as u32 > 65535;
                self.reg.set_flag(6, false);
                self.reg.set_flag(5, h);
                self.reg.set_flag(4, c);
                self.reg.set_pair(AddrReg::HL, hl.wrapping_add(rhs));
                true
            },
            Instruction::ADD16n(n) => {
                let (r, h, c) = self.sp_offset(n);
                self.reg.set_flag(7, false);
                self.reg.set_flag(6, false);
                self.reg.set_flag(5, h);
                self.reg.set_flag(4, c);
                self.reg.set_pair(AddrReg::SP, r);
                true
            },
            Instruction::SWAP(l) => self.swap(l, mem),
            Instruction::BIT(_, _) | Instruction::SET(_, _) | Instruction::RES(_, _) => self.bit_op(instruction, mem),
            Instruction::DAA => {
                daa(&mut self.reg);
                true
            },
            Instruction::CPL => {
                self.reg.a = !self.reg.a;
                self.reg.set_flag(6, true);
                self.reg.set_flag(5, true);
                true
            },
            Instruction::CCF => {
                self.reg.set_flag(6, false);
                self.reg.set_flag(5, false);
                let c = self.reg.get_flag(4);
                self.reg.set_flag(4, !c);
                true
            },
            Instruction::SCF => {
                self.reg.set_flag(6, false);
                self.reg.set_flag(5, false);
                self.reg.set_flag(4, true);
                true
            },
            _ => false,
        }
    }

    /// Executes one of the jumps, calls, returns and CPU control.
    fn execute_control(&mut self, instruction: Instruction, mem: &mut Memory) -> (ok: bool)
        requires
            is_control_group(instruction),
        ensures
            outcome(execute_spec(*old(self), *old(mem), instruction), ok, *final(self), *final(mem)),
    {
        match instruction {
            Instruction::JP1(addr) => {
                self.reg.pc = addr;
                true
            },
            Instruction::JP2(c, addr) => {
                if self.reg.eval_condition(c) {
                    self.reg.pc = addr;
                }
                true
            },
            Instruction::JP3 => {
                self.reg.pc = self.reg.get_pair(AddrReg::HL);
                true
            },
            Instruction::JR4(e) => {
                self.reg.pc = self.reg.pc.wrapping_add_signed(e as i16);
                true
            },
            Instruction::JR5(c, e) => {
                if self.reg.eval_condition(c) {
                    self.reg.pc = self.reg.pc.wrapping_add_signed(e as i16);
                }
                true
            },
            Instruction::CALL(addr) => self.call(addr, mem),
            Instruction::CALLc(cond, addr) => {
                if self.reg.eval_condition(cond) {
                    self.call(addr, mem)
                } else {
                    true
                }
            },
            Instruction::RET => self.ret(mem),
            Instruction::RETc(cond) => {
                if self.reg.eval_condition(cond) {
                    self.ret(mem)
                } else {
                    true
                }
            },
            Instruction::RETI => {
                if !self.ret(mem) {
                    return false;
                }
                self.ime = true;
                true
            },
            Instruction::NOP => true,
            Instruction::HALT => {
                if !self.ime && mem.read(0xFF0F) & mem.read(0xFFFF) != 0 {
                    return false;
                }
                self.halted = true;
                true
            },
            Instruction::STOP => self.stop(mem),
            Instruction::DI => {
                self.ime = false;
                true
            },
            Instruction::EI => {
                self.ie_delay = 1;
                true
            },
            Instruction::RST(proc_addr) => {
                let curr = self.reg.pc;
                if !self.push(curr, mem) {
                    return false;
                }
                self.reg.pc = proc_addr as u16;
                true
            },

            _ => false,
        }
    }

    /// Executes one of the rotates and shifts.
    fn execute_rotate(&mut self, instruction: Instruction, mem: &mut Memory) -> (ok: bool)
        requires
            is_rotate_group(instruction),
        ensures
            outcome(execute_spec(*old(self), *old(mem), instruction), ok, *final(self), *final(mem)),
    {
        match instruction {
            Instruction::RLCA => {
                self.reg.a = rotate(RotOp::RotateLeftIntoCarry, self.reg.a, &mut self.reg);
                true
            },
            Instruction::RLA => {
                self.reg.a = rotate(RotOp::RotateLeftThroughCarry, self.reg.a, &mut self.reg);
                true
            },
            Instruction::RRCA => {
                self.reg.a = rotate(RotOp::RotateRightIntoCarry, self.reg.a, &mut self.reg);
                true
            },
            Instruction::RRA => {
                self.reg.a = rotate(RotOp::RotateRightThroughCarry, self.reg.a, &mut self.reg);
                true
            },
            Instruction::RLC(r) => self.apply_to_7_bit_reg(RotOp::RotateLeftIntoCarry, r, mem),
            Instruction::RL(r) => self.apply_to_7_bit_reg(RotOp::RotateLeftThroughCarry, r, mem),
            Instruction::RRC(r) => self.apply_to_7_bit_reg(RotOp::RotateRightIntoCarry, r, mem),
            Instruction::RR(r) => self.apply_to_7_bit_reg(RotOp::RotateRightThroughCarry, r, mem),
            Instruction::SLA(r) => self.apply_to_7_bit_reg(RotOp::ShiftLeftIntoCarry, r, mem),
            Instruction::SRA(r) => self.apply_to_7_bit_reg(RotOp::ShiftRightIntoCarryKeepMsb, r, mem),
            Instruction::SRL(r) => self.apply_to_7_bit_reg(RotOp::ShiftRightIntoCarry, r, mem),
            _ => false,
        }
    }

    /// Executes a decoded instruction (see `execute_spec`).
    fn execute(&mut self, instruction: Instruction, mem: &mut Memory) -> (ok: bool)
        ensures
            outcome(execute_spec(*old(self), *old(mem), instruction), ok, *final(self), *final(mem)),
    {
        if is_load(&instruction) {
            self.execute_load(instruction, mem)
        } else if is_rotate(&instruction) {
            self.execute_rotate(instruction, mem)
        } else if is_control(&instruction) {
            self.execute_control(instruction, mem)
        } else {
            self.execute_arith(instruction, mem)
        }
    }

    /// Fetches and decodes the instruction at PC (see `fetch_decode_spec`).
    fn fetch_decode(&mut self, mem: &Memory) -> (r: Option<(Instruction, u8)>)
        ensures
            match fetch_decode_spec(*old(self), *mem) {
                None => r is None,
                Some((ins, op, c1)) => r == Some((ins, op)) && *final(self) == c1,
            },
    {
        let pc = self.reg.pc;
        if !mem.is_readable(pc) {
            return None;
        }
        let op = mem.read(pc);
        let n = operand_bytes(op);
        if pc as u32 + n as u32 >= 0xFFFF {
            return None;
        }
        let b1 = if n >= 1 { mem.try_read(pc + 1)? } else { 0 };
        let b2 = if n >= 2 { mem.try_read(pc + 2)? } else { 0 };
        let instruction = decode(op, b1, b2)?;
        if op == 0xCB {
            let i = 256 + b1 as usize;
            if self.instructions_count[i] == usize::MAX {
                return None;
            }
            let v = self.instructions_count[i] + 1;
            set_elem(&mut self.instructions_count, i, v);
        }
        if self.instructions_count[op as usize] == usize::MAX {
            return None;
        }
        let v = self.instructions_count[op as usize] + 1;
        set_elem(&mut self.instructions_count, op as usize, v);
        self.reg.pc = pc + 1 + n as u16;
        Some((instruction, op))
    }

    /// One CPU step on `mem` (see `run_cycle_spec`). Returns false exactly where the step is not
    /// defined; the state is then unspecified.
    pub fn try_run_cycle(&mut self, mem: &mut Memory) -> (ok: bool)
        ensures
            outcome(run_cycle_spec(*old(self), *old(mem)), ok, *final(self), *final(mem)),
    {
        if self.halted {
            return self.update_timer(mem, 1);
        }

        // Fetch and decode
        let (instruction, _byte) = match self.fetch_decode(mem) {
            Some(d) => d,
            None => {
                return false;
            },
        };

        // Execute
        if !self.execute(instruction, mem) {
            return false;
        }

        if !instruction.has_timing_exec() {
            return false;
        }

        if self.ie_delay == 0 {
            self.ime = true;
        }
        if self.ie_delay >= 0 {
            self.ie_delay = self.ie_delay - 1;
        }

        if !self.update_timer(mem, instruction.machine_cycles() as u32) {
            return false;
        }

        self.last = instruction;
        true
    }

    /// One CPU step: fetch, decode and execute an instruction, then advance the timer.
    pub fn run_cycle(&mut self, mem: Memory) -> (r: Memory)
        requires
            run_cycle_spec(*old(self), mem) is Some,
        ensures
            (*final(self), r) == run_cycle_spec(*old(self), mem)->Some_0,
    {
        let mut mem = mem;
        let _ = self.try_run_cycle(&mut mem);
        mem
    }
}

} // verus!
