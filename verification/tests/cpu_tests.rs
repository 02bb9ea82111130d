use gameboy_emulator::addrreg::AddrReg;
use gameboy_emulator::alu::{add_flags, daa, rotate, sub_flags, RotOp};
use gameboy_emulator::condition::Condition;
use gameboy_emulator::dataloc::DataLoc;
use gameboy_emulator::decode::{decode, decode_cb, operand_bytes};
use gameboy_emulator::gameboy::GameBoy;
use gameboy_emulator::instruction::Instruction;
use gameboy_emulator::reg::Reg;
use gameboy_emulator::register::Registers;

/// A 32 KiB ROM-only cartridge with `program` at the entry point 0x100.
fn cartridge(program: &[u8]) -> Vec<u8> {
    let mut rom = vec![0u8; 0x8000];
    for (i, b) in program.iter().enumerate() {
        rom[0x100 + i] = *b;
    }
    rom[0x147] = 0x00;
    rom[0x148] = 0x00;
    rom
}

fn console(program: &[u8]) -> GameBoy {
    let mut gb = GameBoy::from_cartridge(vec![0u8; 0x100], cartridge(program));
    gb.skip_boot_rom();
    gb
}

fn run(gb: &mut GameBoy, n: usize) {
    for _ in 0..n {
        assert!(gb.cpu.try_run_cycle(&mut gb.mem));
    }
}

#[test]
fn load_and_add_program() {
    // LD A,0x12; LD B,0x34; ADD A,B
    let mut gb = console(&[0x3E, 0x12, 0x06, 0x34, 0x80]);
    run(&mut gb, 3);
    assert_eq!(gb.cpu.reg.a, 0x46);
    assert_eq!(gb.cpu.reg.b, 0x34);
    assert_eq!(gb.cpu.reg.pc, 0x105);
    assert!(!gb.cpu.reg.get_flag(7));
    assert!(!gb.cpu.reg.get_flag(4));
}

#[test]
fn add_sets_zero_half_carry_and_carry() {
    let mut reg = Registers::new();
    reg.a = 0xFF;
    let r = add_flags(&mut reg, 0x01, false);
    assert_eq!(r, 0x00);
    assert!(reg.get_flag(7));
    assert!(!reg.get_flag(6));
    assert!(reg.get_flag(5));
    assert!(reg.get_flag(4));
}

#[test]
fn adc_adds_the_carry() {
    let mut reg = Registers::new();
    reg.a = 0x10;
    reg.set_flag(4, true);
    let r = add_flags(&mut reg, 0x01, true);
    assert_eq!(r, 0x12);
    assert!(!reg.get_flag(4));
}

#[test]
fn sub_borrow_flags() {
    let mut reg = Registers::new();
    reg.a = 0x10;
    let r = sub_flags(&mut reg, 0x01, false);
    assert_eq!(r, 0x0F);
    assert!(!reg.get_flag(7));
    assert!(reg.get_flag(6));
    assert!(reg.get_flag(5));
    assert!(!reg.get_flag(4));
    reg.a = 0x01;
    let r = sub_flags(&mut reg, 0x02, false);
    assert_eq!(r, 0xFF);
    assert!(reg.get_flag(4));
}

#[test]
fn decimal_adjust_after_add() {
    let mut reg = Registers::new();
    reg.a = 0x15;
    reg.a = add_flags(&mut reg, 0x27, false);
    assert_eq!(reg.a, 0x3C);
    daa(&mut reg);
    assert_eq!(reg.a, 0x42);
    assert!(!reg.get_flag(4));
}

#[test]
fn rotations_move_bits_through_carry() {
    let mut reg = Registers::new();
    assert_eq!(rotate(RotOp::RotateLeftIntoCarry, 0x85, &mut reg), 0x0B);
    assert!(reg.get_flag(4));
    assert_eq!(rotate(RotOp::RotateRightThroughCarry, 0x01, &mut reg), 0x80);
    assert!(reg.get_flag(4));
    assert_eq!(rotate(RotOp::ShiftRightIntoCarryKeepMsb, 0x81, &mut reg), 0xC0);
    assert_eq!(rotate(RotOp::ShiftLeftIntoCarry, 0x81, &mut reg), 0x02);
    assert!(reg.get_flag(4));
}

#[test]
fn jump_absolute() {
    // JP 0x0150
    let mut gb = console(&[0xC3, 0x50, 0x01]);
    run(&mut gb, 1);
    assert_eq!(gb.cpu.reg.pc, 0x150);
}

#[test]
fn call_then_ret_returns_after_the_call() {
    let mut program = vec![0u8; 0x110];
    // CALL 0x0200 at 0x100, RET at 0x200
    program[0] = 0xCD;
    program[1] = 0x00;
    program[2] = 0x02;
    program[0x100] = 0xC9;
    let mut gb = console(&program);
    run(&mut gb, 1);
    assert_eq!(gb.cpu.reg.pc, 0x200);
    assert_eq!(gb.cpu.reg.sp, 0xFFFC);
    assert_eq!(gb.mem.read(0xFFFD), 0x01);
    assert_eq!(gb.mem.read(0xFFFC), 0x03);
    run(&mut gb, 1);
    assert_eq!(gb.cpu.reg.pc, 0x103);
    assert_eq!(gb.cpu.reg.sp, 0xFFFE);
}

#[test]
fn push_then_pop_moves_a_pair() {
    // LD BC,0x1234; PUSH BC; POP DE
    let mut gb = console(&[0x01, 0x34, 0x12, 0xC5, 0xD1]);
    run(&mut gb, 3);
    assert_eq!(gb.cpu.reg.get_pair(AddrReg::DE), 0x1234);
    assert_eq!(gb.cpu.reg.sp, 0xFFFE);
}

#[test]
fn interrupt_dispatch_calls_the_handler() {
    // EI; NOP
    let mut gb = console(&[0xFB, 0x00, 0x00]);
    run(&mut gb, 2);
    assert!(gb.cpu.ime);
    gb.mem.write(0xFFFF, 0x04);
    gb.mem.write(0xFF0F, 0x04);
    let pc = gb.cpu.reg.pc;
    assert!(gb.cpu.check_interrupts(&mut gb.mem));
    assert_eq!(gb.cpu.reg.pc, 0x50);
    assert!(!gb.cpu.ime);
    assert_eq!(gb.mem.read(0xFF0F) & 0x04, 0);
    assert_eq!(gb.cpu.reg.sp, 0xFFFC);
    assert_eq!(gb.mem.read(0xFFFC) as u16 | (gb.mem.read(0xFFFD) as u16) << 8, pc);
}

#[test]
fn no_dispatch_without_ime() {
    let mut gb = console(&[0x00]);
    gb.mem.write(0xFFFF, 0x01);
    gb.mem.write(0xFF0F, 0x01);
    assert!(gb.cpu.check_interrupts(&mut gb.mem));
    assert_eq!(gb.cpu.reg.pc, 0x100);
    assert_eq!(gb.mem.read(0xFF0F) & 0x01, 0x01);
}

#[test]
fn halt_waits_for_an_interrupt() {
    // HALT; NOP
    let mut gb = console(&[0x76, 0x00]);
    run(&mut gb, 1);
    assert!(gb.cpu.halted);
    run(&mut gb, 3);
    assert_eq!(gb.cpu.reg.pc, 0x101);
    gb.mem.write(0xFFFF, 0x01);
    gb.mem.write(0xFF0F, 0x01);
    assert!(gb.cpu.check_interrupts(&mut gb.mem));
    assert!(!gb.cpu.halted);
}

#[test]
fn decoding_reads_the_opcode_table() {
    assert!(matches!(decode(0x00, 0, 0), Some(Instruction::NOP)));
    assert!(matches!(decode(0x3E, 0x42, 0), Some(Instruction::LD(DataLoc::Reg(Reg::A), DataLoc::Value(0x42)))));
    assert!(matches!(decode(0xC3, 0x34, 0x12), Some(Instruction::JP1(0x1234))));
    assert!(matches!(decode(0x20, 0xFE, 0), Some(Instruction::JR5(Condition::NZ, -2))));
    assert!(matches!(decode_cb(0x37), Instruction::SWAP(DataLoc::Reg(Reg::A))));
    assert!(matches!(decode_cb(0x7C), Instruction::BIT(7, DataLoc::Reg(Reg::H))));
    assert_eq!(operand_bytes(0x00), 0);
    assert_eq!(operand_bytes(0x3E), 1);
    assert_eq!(operand_bytes(0xC3), 2);
}

#[test]
fn instruction_timings() {
    assert_eq!(Instruction::NOP.clock_cycles(), 4);
    assert_eq!(Instruction::NOP.machine_cycles(), 1);
    assert_eq!(Instruction::CALL(0x1234).clock_cycles(), 24);
    assert_eq!(Instruction::LD(DataLoc::Reg(Reg::A), DataLoc::Addr(0xC000)).clock_cycles(), 16);
    assert_eq!(Instruction::ADD(DataLoc::Value(1)).machine_cycles(), 2);
    assert_eq!(Instruction::BIT(0, DataLoc::AddrReg(AddrReg::HL)).clock_cycles(), 12);
    assert_eq!(Instruction::LDnn(0).machine_cycles(), 5);
}

#[test]
fn registers_read_back_what_was_written() {
    let mut reg = Registers::new();
    assert_eq!(reg.sp, 0xFFFE);
    reg.set(Reg::H, 0xAB);
    reg.set(Reg::L, 0xCD);
    assert_eq!(reg.get(Reg::H), 0xAB);
    assert_eq!(reg.get_pair(AddrReg::HL), 0xABCD);
    reg.set_pair(AddrReg::BC, 0x1357);
    assert_eq!(reg.b, 0x13);
    assert_eq!(reg.c, 0x57);
    reg.set_pair(AddrReg::SP, 0xC000);
    assert_eq!(reg.sp, 0xC000);
    reg.set_flag(7, true);
    assert!(reg.get_flag(7));
    assert_eq!(reg.f, 0x80);
    assert!(reg.eval_condition(Condition::Z));
    assert!(!reg.eval_condition(Condition::C));
    reg.set_flag(7, false);
    assert_eq!(reg.f, 0x00);
}

#[test]
fn timer_counts_machine_cycles() {
    // TAC: enabled, clock select 01 (4 machine cycles per increment)
    let mut gb = console(&[0x00, 0x00, 0x00, 0x00]);
    gb.mem.write(0xFF07, 0b101);
    gb.mem.write(0xFF05, 0x00);
    run(&mut gb, 4);
    assert_eq!(gb.mem.read(0xFF05), 0x01);
}

#[test]
fn f_keeps_its_low_nibble_clear() {
    let mut reg = Registers::new();
    reg.set_pair(AddrReg::AF, 0x120F);
    assert_eq!(reg.f, 0x00);
    reg.set_flag(7, true);
    reg.set_flag(4, true);
    assert_eq!(reg.f, 0x90);
    assert_eq!(reg.get_pair(AddrReg::AF), 0x1290);
    reg.set_pair(AddrReg::AF, 0x12FF);
    assert_eq!(reg.a, 0x12);
    assert_eq!(reg.get_pair(AddrReg::AF), 0x12F0);
}

#[test]
fn pop_af_clears_the_low_nibble_of_f() {
    // LD BC,0x34FF; PUSH BC; POP AF
    let mut gb = console(&[0x01, 0xFF, 0x34, 0xC5, 0xF1]);
    run(&mut gb, 3);
    assert_eq!(gb.cpu.reg.a, 0x34);
    assert_eq!(gb.cpu.reg.f, 0xF0);
}

#[test]
fn disabled_timer_leaves_tima_alone() {
    let mut gb = console(&[0x00, 0x00, 0x00, 0x00]);
    gb.mem.write(0xFF07, 0b001);
    gb.mem.write(0xFF05, 0x33);
    run(&mut gb, 4);
    assert_eq!(gb.mem.read(0xFF05), 0x33);
    assert_eq!(gb.cpu.m_cycle_counter, 0);
}

#[test]
fn ei_takes_effect_after_the_next_instruction() {
    // EI; NOP; NOP
    let mut gb = console(&[0xFB, 0x00, 0x00]);
    run(&mut gb, 1);
    assert!(!gb.cpu.ime);
    assert_eq!(gb.cpu.ie_delay, 0);
    run(&mut gb, 1);
    assert!(gb.cpu.ime);
    assert_eq!(gb.cpu.ie_delay, -1);
}

#[test]
fn undefined_opcode_is_refused() {
    // 0xD3 has no instruction.
    let mut gb = console(&[0xD3]);
    assert!(!gb.cpu.try_run_cycle(&mut gb.mem));
}

#[test]
fn halted_cycle_keeps_the_registers() {
    // LD A,0x12; HALT
    let mut gb = console(&[0x3E, 0x12, 0x76]);
    run(&mut gb, 2);
    assert!(gb.cpu.halted);
    let before = gb.cpu.reg;
    let wram = gb.mem.read(0xC000);
    run(&mut gb, 1);
    assert!(gb.cpu.halted);
    assert_eq!(gb.cpu.reg.pc, 0x103);
    assert_eq!(gb.cpu.reg.a, before.a);
    assert_eq!(gb.cpu.reg.get_pair(AddrReg::AF), before.get_pair(AddrReg::AF));
    assert_eq!(gb.cpu.reg.get_pair(AddrReg::BC), before.get_pair(AddrReg::BC));
    assert_eq!(gb.cpu.reg.get_pair(AddrReg::DE), before.get_pair(AddrReg::DE));
    assert_eq!(gb.cpu.reg.get_pair(AddrReg::HL), before.get_pair(AddrReg::HL));
    assert_eq!(gb.cpu.reg.sp, before.sp);
    assert_eq!(gb.mem.read(0xC000), wram);
}

#[test]
fn ei_then_one_instruction_lets_an_interrupt_through() {
    // EI; NOP; NOP
    let mut gb = console(&[0xFB, 0x00, 0x00]);
    gb.mem.write(0xFFFF, 0x01);
    gb.mem.write(0xFF0F, 0x01);
    run(&mut gb, 1);
    assert!(gb.cpu.check_interrupts(&mut gb.mem));
    assert_eq!(gb.cpu.reg.pc, 0x101);
    run(&mut gb, 1);
    assert!(gb.cpu.check_interrupts(&mut gb.mem));
    assert_eq!(gb.cpu.reg.pc, 0x40);
    assert!(!gb.cpu.ime);
    assert_eq!(gb.mem.read(0xFF0F) & 0x01, 0);
}
