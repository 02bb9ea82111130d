use gameboy_emulator::apu::{read_period, PulseChannel, Sweep, WithSweep, WithoutSweep, APU};
use gameboy_emulator::cartridge_header::CartridgeHeader;
use gameboy_emulator::gameboy::GameBoy;
use gameboy_emulator::joypad::JoyPad;
use gameboy_emulator::memory::Memory;
use gameboy_emulator::ppu::{PpuAction, LCDC, PPU};

fn rom() -> Vec<u8> {
    let mut rom = vec![0u8; 0x8000];
    rom[0x147] = 0x00;
    rom[0x148] = 0x00;
    rom
}

fn memory() -> Memory {
    let rom = rom();
    let header = CartridgeHeader::read(&rom);
    match Memory::new(vec![0u8; 0x100], rom, header) {
        Ok(m) => m,
        Err(e) => panic!("{}", e),
    }
}

#[test]
fn lcd_off_only_clears_the_stat_mode() {
    let mut mem = memory();
    let mut ppu = PPU::new();
    mem.write(0xFF41, 0b0100_0011);
    let a = ppu.try_run_dot(&mut mem);
    assert_eq!(a, Some(PpuAction { render: false, frame_done: false }));
    assert_eq!(mem.read(0xFF41), 0b0100_0000);
    assert_eq!(ppu.dot, 0);
    assert_eq!(ppu.sl, 0);
}

#[test]
fn lcdc_fields_follow_the_bits() {
    let mut mem = memory();
    mem.write(0xFF40, 0b1001_0001);
    let l = LCDC::load(&mem);
    assert!(l.lcd_ppu_enable);
    assert!(!l.window_tile_map);
    assert!(!l.window_enable);
    assert!(l.bg_window_tile_data_area);
    assert!(!l.bg_tile_map);
    assert!(!l.obj_size);
    assert!(!l.obj_enable);
    assert!(l.bg_window_enable);
}

#[test]
fn a_frame_is_154_lines_of_456_dots() {
    let mut mem = memory();
    let mut ppu = PPU::new();
    mem.write(0xFF40, 0x80);
    let mut renders = 0;
    let mut frames = 0;
    for i in 0..(154 * 456) {
        let (m, a) = ppu.run_dot(mem);
        mem = m;
        if a.render {
            renders += 1;
            assert_eq!(i, 144 * 456);
        }
        if a.frame_done {
            frames += 1;
            assert_eq!(i, 154 * 456 - 1);
        }
        if i == 456 {
            assert_eq!(ppu.sl, 1);
            assert_eq!(mem.read(0xFF44), 1);
        }
    }
    assert_eq!(renders, 1);
    assert_eq!(frames, 1);
    assert_eq!(ppu.sl, 0);
    assert_eq!(ppu.dot, 0);
    // VBlank requested its interrupt.
    assert_eq!(mem.read(0xFF0F) & 0x01, 0x01);
}

#[test]
fn background_pixels_are_drawn_in_grey() {
    let mut mem = memory();
    let mut ppu = PPU::new();
    // Tile 0, first row: low bits all set, high bits clear: colour 1.
    mem.write(0x8000, 0xFF);
    mem.write(0x8001, 0x00);
    // LCD on, tile data at 0x8000, background on.
    mem.write(0xFF40, 0b1001_0001);
    for _ in 0..100 {
        assert!(ppu.try_run_dot(&mut mem).is_some());
    }
    assert_eq!(ppu.buffer[1], 0x0040_4040);
    assert_eq!(ppu.buffer[0], 0);
}

#[test]
fn oam_dma_copies_160_bytes() {
    let mut mem = memory();
    let mut ppu = PPU::new();
    for i in 0..160u16 {
        mem.write(0xC000 + i, (i as u8).wrapping_mul(3));
    }
    mem.write(0xFF40, 0x80);
    mem.write(0xFF46, 0xC0);
    for _ in 0..160 {
        assert!(ppu.try_run_dot(&mut mem).is_some());
    }
    assert_eq!(mem.read(0xFF46), 0xFF);
    for i in 0..160u16 {
        assert_eq!(mem.read(0xFE00 + i), (i as u8).wrapping_mul(3));
    }
}

#[test]
fn ly_equal_to_lyc_requests_the_stat_interrupt() {
    let mut mem = memory();
    let mut ppu = PPU::new();
    mem.write(0xFF40, 0x80);
    mem.write(0xFF45, 0x00);
    assert!(ppu.try_run_dot(&mut mem).is_some());
    assert_eq!(mem.read(0xFF41) & 0b100, 0b100);
    assert_eq!(mem.read(0xFF0F) & 0b10, 0b10);
    assert!(ppu.stat_line);
}

#[test]
fn keys_press_buttons() {
    let mut jp = JoyPad::new();
    jp.press_key('a');
    assert!(jp.left);
    jp.press_key('j');
    assert!(jp.a);
    assert!(!jp.left);
    jp.press_key('x');
    assert!(!jp.a);
    jp.press_key('n');
    assert!(jp.start);
    jp.reset();
    assert!(!jp.start);
}

#[test]
fn joypad_update_writes_p1_and_requests_the_interrupt() {
    let mut mem = memory();
    let mut jp = JoyPad::new();
    jp.a = true;
    mem.write(0xFF00, 0x20);
    jp.update(&mut mem);
    assert_eq!(mem.read(0xFF00), 0x2B);
    assert_eq!(mem.read(0xFF0F) & 0x10, 0x10);
    assert_eq!(jp.previous, 0x2B);
    // Bit 2 is now clear in `previous`: holding A again requests no new interrupt.
    mem.write(0xFF0F, 0x00);
    jp.update(&mut mem);
    assert_eq!(mem.read(0xFF0F) & 0x10, 0);
}

#[test]
fn no_button_leaves_the_low_nibble_set() {
    let mut mem = memory();
    let mut jp = JoyPad::new();
    mem.write(0xFF00, 0x10);
    jp.update(&mut mem);
    assert_eq!(mem.read(0xFF00), 0x1F);
    assert_eq!(mem.read(0xFF0F), 0);
}

#[test]
fn set_button_bit_clears_the_button() {
    let mut mem = memory();
    let mut jp = JoyPad::new();
    mem.write(0xFF00, 0x1F);
    jp.set_button_bit(&mut mem, 3);
    assert_eq!(mem.read(0xFF00), 0x17);
    assert_eq!(mem.read(0xFF0F) & 0x10, 0x10);
}

#[test]
fn period_is_eleven_bits_of_two_registers() {
    let mut mem = memory();
    mem.write(0xC001, 0xFD);
    mem.write(0xC000, 0x34);
    assert_eq!(read_period(&mem, 0xC001, 0xC000), 0x534);
}

#[test]
fn sweep_reads_nr10() {
    let mut mem = memory();
    mem.write(0xFF26, 0x80);
    mem.audio.update();
    mem.write(0xFF10, 0x2B);
    mem.audio.update();
    let mut s = WithSweep { pace: 0, direction: 0, step_pow: 1 };
    s.read_sweep(&mem);
    assert_eq!(s.pace, 2);
    assert_eq!(s.direction, 1);
    assert_eq!(s.step_pow, 8);
}

#[test]
fn sweep_iteration_writes_the_new_period() {
    let mut mem = memory();
    mem.write(0xFF61, 0x01);
    mem.write(0xFF60, 0x00);
    let mut s = WithSweep { pace: 0, direction: 0, step_pow: 2 };
    assert!(s.sweep_iteration(&mut mem, 0xFF61, 0xFF60));
    assert_eq!(mem.write_cell(0xFF13), 0x80);
    assert_eq!(mem.write_cell(0xFF14) & 0x07, 0x01);
    let mut down = WithSweep { pace: 0, direction: 1, step_pow: 4 };
    assert!(down.sweep_iteration(&mut mem, 0xFF61, 0xFF60));
    assert_eq!(mem.write_cell(0xFF13), 0xC0);
    mem.write(0xFF61, 0x07);
    mem.write(0xFF60, 0xFF);
    let mut up = WithSweep { pace: 0, direction: 0, step_pow: 1 };
    assert!(!up.sweep_iteration(&mut mem, 0xFF61, 0xFF60));
    let mut none = WithoutSweep {};
    assert!(none.sweep_iteration(&mut mem, 0xFF61, 0xFF60));
    assert!(none.write_period(&mut mem, 0x7FF));
    assert!(!none.write_period(&mut mem, 0x800));
}

#[test]
fn trigger_starts_a_pulse_channel() {
    let mut mem = memory();
    let mut ch = PulseChannel::new(WithoutSweep {}, 0xFF60, 0xFF61, 0xFF63, 0xFF62);
    mem.write(0xFF60, 0b1000_0101);
    mem.write(0xFF63, 0b1100_0011);
    mem.write(0xFF62, 0x00);
    ch.clock_pulse(&mut mem);
    assert!(ch.enabled);
    assert!(ch.length_enabled);
    assert_eq!(ch.duty, 2);
    assert_eq!(ch.initial_length, 5);
    assert_eq!(ch.length_timer, 5);
    assert_eq!(ch.period_divider, 0x300);
    assert_eq!(ch.freq, 102);
    assert_eq!(mem.read(0xFF63), 0x03);
    ch.clock_pulse(&mut mem);
    assert_eq!(ch.period_divider, 0x301);
}

#[test]
fn length_timer_turns_the_channel_off() {
    let mut mem = memory();
    let mut ch = PulseChannel::new(WithoutSweep {}, 0xFF60, 0xFF61, 0xFF63, 0xFF62);
    mem.write(0xFF60, 62);
    mem.write(0xFF63, 0b1100_0000);
    ch.clock_pulse(&mut mem);
    assert_eq!(ch.length_timer, 62);
    ch.div_apu_tick(&mut mem, 1);
    assert_eq!(ch.length_timer, 63);
    ch.div_apu_tick(&mut mem, 2);
    assert_eq!(ch.length_timer, 63);
    ch.div_apu_tick(&mut mem, 3);
    assert_eq!(ch.length_timer, 64);
    assert!(ch.enabled);
    ch.div_apu_tick(&mut mem, 5);
    assert!(!ch.enabled);
    assert!(!ch.length_enabled);
}

#[test]
fn apu_starts_silent() {
    let mut mem = memory();
    let mut apu = APU::new();
    assert!(!apu.ch1.enabled);
    assert!(!apu.ch2.enabled);
    assert_eq!(apu.ch1.reg_period_hi, 0xFF14);
    assert_eq!(apu.ch2.reg_length_duty, 0xFF16);
    apu.clock_wave(&mut mem);
    assert_eq!(apu.wave_period_divider, 1);
    apu.div_apu_tick(&mut mem, 4);
    apu.clock_pulse(&mut mem);
    apu.update(&mut mem);
    assert!(!apu.ch1.enabled);
}

#[test]
fn console_starts_at_the_cartridge_entry() {
    let mut gb = GameBoy::from_cartridge(vec![0xAAu8; 0x100], rom());
    assert_eq!(gb.cpu.reg.pc, 0);
    assert_eq!(gb.mem.read(0x0000), 0xAA);
    gb.skip_boot_rom();
    assert_eq!(gb.cpu.reg.pc, 0x100);
    assert_eq!(gb.mem.read(0x0000), 0x00);
}

#[test]
fn a_step_runs_the_timer_cpu_and_ppu() {
    let mut gb = GameBoy::from_cartridge(vec![0u8; 0x100], rom());
    gb.skip_boot_rom();
    let mut jp = JoyPad::new();
    gb.mem.write(0xFF07, 0x04);
    gb.mem.write(0xFF06, 0x10);
    gb.mem.write(0xFF05, 0xFE);
    gb.mem.write(0xFFFF, 0x04);
    let a = gb.try_step(&mut jp);
    assert_eq!(a, Some(PpuAction { render: false, frame_done: false }));
    assert_eq!(gb.mem.read(0xFF05), 0x10);
    assert_eq!(gb.mem.read(0xFF0F) & 0x04, 0x04);
    assert_eq!(gb.cpu.reg.pc, 0x101);
    let a = gb.try_step(&mut jp);
    assert!(a.is_some());
    assert_eq!(gb.mem.read(0xFF05), 0x14);
}

#[test]
fn dma_from_a_missing_rom_byte_is_refused() {
    // A cartridge image cut short: 0x5000-0x7FFF has no bytes behind it.
    let mut rom = vec![0u8; 0x5000];
    rom[0x147] = 0x00;
    rom[0x148] = 0x00;
    let header = CartridgeHeader::read(&rom);
    let mut mem = match Memory::new(vec![0u8; 0x100], rom, header) {
        Ok(m) => m,
        Err(e) => panic!("{}", e),
    };
    let mut ppu = PPU::new();
    mem.write(0xFF40, 0x80);
    mem.write(0xFF46, 0x50);
    assert_eq!(ppu.try_run_dot(&mut mem), None);
}
