use vstd::prelude::*;
use crate::bits::{bit, lemma_bit_test};
use crate::cartridge_header::{CartridgeHeader, controller_for, supported_cartridge};
use crate::cpu::CPU;
use crate::cpu_spec::{check_interrupts_spec, run_cycle_spec, with_pc};
use crate::joypad::JoyPad;
use crate::memory::{Memory, rom_banks_for};
use crate::ppu::{PPU, PpuAction, run_dot_spec};

verus! {

/// The console: address space, CPU and PPU.
pub struct GameBoy {
    pub mem: Memory,
    pub cpu: CPU,
    pub ppu: PPU,
}

/// Whether a cartridge image can be started: its header is there, it is not a Game Boy Color
/// only cartridge (CGB flag 0xC0) and its bank controller is one of ours.
pub open spec fn startable(rom: Seq<u8>) -> bool {
    &&& rom.len() >= 0x150
    &&& rom[0x143] != 0xC0
    &&& supported_cartridge(rom[0x147])
    &&& (0x01 <= rom[0x147] <= 0x03 ==> rom[0x148] <= 7)
    &&& rom_banks_for(rom[0x148]) <= usize::MAX
}

/// The timers of one step: DIV goes up by one (wrapping); when TAC bit 2 enables the timer,
/// TIMA goes up by four (wrapping), and when it wraps it is reloaded from TMA and, if IE enables
/// it, the timer interrupt (IF bit 2) is requested.
pub open spec fn timers_spec(m: Memory) -> Memory {
    let m1 = m.write_spec(0xFF04, ((m.read_spec(0xFF04) + 1) % 256) as u8);
    let tima_old = m1.read_spec(0xFF05);
    if bit(m1.read_spec(0xFF07), 2) {
        let m2 = m1.write_spec(0xFF05, ((tima_old + 4) % 256) as u8);
        if m2.read_spec(0xFF05) < tima_old {
            let m3 = m2.write_spec(0xFF05, m2.read_spec(0xFF06));
            if bit(m3.read_spec(0xFFFF), 2) {
                m3.write_spec(0xFF0F, m3.write_cell_spec(0xFF0F) | 4)
            } else {
                m3
            }
        } else {
            m2
        }
    } else {
        m1
    }
}

/// One step of the console: the timers, the joypad written into P1, interrupt dispatch, one CPU
/// instruction and one PPU dot. `None` where one of the parts is not defined.
pub open spec fn step_spec(gb: GameBoy, jp: JoyPad) -> Option<(GameBoy, JoyPad, PpuAction)> {
    let m1 = timers_spec(gb.mem);
    let (jp1, m2) = jp.update_spec(m1);
    match check_interrupts_spec(gb.cpu, m2) {
        None => None,
        Some((c1, m3)) => match run_cycle_spec(c1, m3) {
            None => None,
            Some((c2, m4)) => match run_dot_spec(gb.ppu, m4) {
                None => None,
                Some((p1, m5, action)) => Some((GameBoy { mem: m5, cpu: c2, ppu: p1 }, jp1, action)),
            },
        },
    }
}

impl GameBoy {
    /// A console with the boot ROM and the cartridge in place, every part at reset.
    pub fn from_cartridge(boot_rom: Vec<u8>, rom: Vec<u8>) -> (gb: Self)
        requires
            startable(rom@),
        ensures
            gb.mem.bank_ctrl == controller_for(rom@[0x147], rom@[0x148], rom@[0x149]),
            gb.mem.num_rom_banks == rom_banks_for(rom@[0x148]),
            gb.mem.boot_rom@ == boot_rom@,
            gb.mem.rom@ == rom@,
            gb.mem.is_cleared(),
            gb.cpu.is_reset(),
            gb.ppu.is_reset(),
    {
        let header = CartridgeHeader::read(&rom);
        let mem = Memory::new(boot_rom, rom, header).unwrap();
        GameBoy { mem, cpu: CPU::new(), ppu: PPU::new() }
    }

    /// Starts at the cartridge's entry point (0x100) with the boot ROM unmapped (0xFF50 = 1).
    pub fn skip_boot_rom(&mut self)
        ensures
            final(self).cpu == with_pc(old(self).cpu, 0x100),
            final(self).mem == old(self).mem.write_spec(0xFF50, 0x01),
            final(self).ppu == old(self).ppu,
    {
        self.cpu.reg.pc = 0x100;
        self.mem.write(0xFF50, 0x01);
    }

    /// The timers of one step (see `timers_spec`).
    fn tick_timers(&mut self)
        ensures
            *final(self) == (GameBoy { mem: timers_spec(old(self).mem), ..*old(self) }),
    {
        // DIV register
        let div = self.mem.read(0xFF04);
        self.mem.write(0xFF04, div.wrapping_add(1));
        // TIMA register
        let tima_old = self.mem.read(0xFF05);
        let tac = self.mem.read(0xFF07);
        proof {
            lemma_bit_test(tac, 2);
        }
        if (tac >> 2) & 1 != 0 {
            self.mem.write(0xFF05, tima_old.wrapping_add(4));
            if self.mem.read(0xFF05) < tima_old {
                let tma = self.mem.read(0xFF06);
                self.mem.write(0xFF05, tma);
                let ie = self.mem.read(0xFFFF);
                proof {
                    lemma_bit_test(ie, 2);
                }
                if (ie >> 2) & 1 != 0 {
                    // Timer interrupt
                    let iflags = self.mem.write_cell(0xFF0F);
                    self.mem.write(0xFF0F, iflags | 0b0000_0100);
                }
            }
        }
    }

    /// One step of the console (see `step_spec`): `None` exactly where the step is not defined,
    /// otherwise what the PPU asks of the front end.
    pub fn try_step(&mut self, joy_pad: &mut JoyPad) -> (r: Option<PpuAction>)
        ensures
            match step_spec(*old(self), *old(joy_pad)) {
                None => r is None,
                Some((gb, jp, action)) => r == Some(action) && *final(self) == gb && *final(joy_pad) == jp,
            },
    {
        self.tick_timers();
        joy_pad.update(&mut self.mem);
        if !self.cpu.check_interrupts(&mut self.mem) {
            return None;
        }
        if !self.cpu.try_run_cycle(&mut self.mem) {
            return None;
        }
        self.ppu.try_run_dot(&mut self.mem)
    }
}

} // verus!
