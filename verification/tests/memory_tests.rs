use gameboy_emulator::audio_registers::AudioRegisters;
use gameboy_emulator::cartridge_header::CartridgeHeader;
use gameboy_emulator::div_timer::DivTimer;
use gameboy_emulator::memory::{Memory, MemoryBankController, MBC1, MBC3, ROMOnly};

/// A cartridge image of `banks` 16 KiB banks, each filled with its bank number.
fn cartridge(cartridge_type: u8, rom_size: u8, ram_size: u8, banks: usize) -> Vec<u8> {
    let mut rom = vec![0u8; banks * 0x4000];
    for bank in 0..banks {
        for i in 0..0x4000 {
            rom[bank * 0x4000 + i] = bank as u8;
        }
    }
    rom[0x147] = cartridge_type;
    rom[0x148] = rom_size;
    rom[0x149] = ram_size;
    rom
}

fn memory(rom: Vec<u8>) -> Memory {
    let header = CartridgeHeader::read(&rom);
    let boot_rom: Vec<u8> = (0..0x100).map(|i| 0xB0u8.wrapping_add(i as u8)).collect();
    match Memory::new(boot_rom, rom, header) {
        Ok(m) => m,
        Err(e) => panic!("{}", e),
    }
}

#[test]
fn work_ram_reads_back_and_echoes() {
    let mut mem = memory(cartridge(0x00, 0x00, 0x00, 2));
    assert_eq!(mem.read(0xC123), 0);
    mem.write(0xC123, 0x5A);
    assert_eq!(mem.read(0xC123), 0x5A);
    assert_eq!(mem.read(0xE123), 0x5A);
    // Writes to echo RAM do not reach work RAM.
    mem.write(0xE000, 0x07);
    assert_eq!(mem.read(0xC000), 0);
}

#[test]
fn fresh_memory_reads_zero_and_unused_reads_ff() {
    let mem = memory(cartridge(0x00, 0x00, 0x00, 2));
    assert_eq!(mem.read(0x8000), 0);
    assert_eq!(mem.read(0xFE00), 0);
    assert_eq!(mem.read(0xFEA0), 0xFF);
    assert_eq!(mem.read(0xFF80), 0);
    // Cartridge RAM is disabled: reads the stand-in cell.
    assert_eq!(mem.read(0xA000), 0xFF);
}

#[test]
fn boot_rom_is_mapped_until_ff50_is_written() {
    let mut mem = memory(cartridge(0x00, 0x00, 0x00, 2));
    assert_eq!(mem.read(0x0000), 0xB0);
    assert_eq!(mem.read(0x00FF), 0xAF);
    assert_eq!(mem.read(0x0100), 0x00);
    mem.write(0xFF50, 0x01);
    assert_eq!(mem.read(0x0000), 0x00);
    assert_eq!(mem.read(0x00FF), 0x00);
}

#[test]
fn div_write_resets_the_divider() {
    let mut mem = memory(cartridge(0x00, 0x00, 0x00, 2));
    mem.div.tick(32);
    mem.div.tick(32);
    assert_eq!(mem.read(0xFF04), 1);
    mem.write(0xFF04, 0x42);
    assert_eq!(mem.read(0xFF04), 0);
}

#[test]
fn ff77_is_neither_readable_nor_writable() {
    let mut mem = memory(cartridge(0x00, 0x00, 0x00, 2));
    assert!(!mem.is_readable(0xFF77));
    assert!(!mem.is_writable(0xFF77));
    assert_eq!(mem.try_read(0xFF77), None);
    assert!(!mem.try_write(0xFF77, 1));
    assert_eq!(mem.try_read(0xFF76), Some(0));
    assert!(mem.try_write(0xFF78, 9));
    assert_eq!(mem.read(0xFF78), 9);
}

#[test]
fn mbc1_switches_rom_banks() {
    // 64 KiB: four banks.
    let mut mem = memory(cartridge(0x01, 0x01, 0x00, 4));
    assert_eq!(mem.read(0x4000), 1);
    mem.write(0x2000, 2);
    assert_eq!(mem.read(0x4000), 2);
    assert_eq!(mem.read(0x7FFF), 2);
    // Bank 0 selects bank 1.
    mem.write(0x2000, 0);
    assert_eq!(mem.read(0x4000), 1);
    // The fixed bank stays.
    assert_eq!(mem.read(0x3FFF), 0);
}

#[test]
fn mbc1_ram_needs_enabling() {
    let mut mem = memory(cartridge(0x03, 0x01, 0x02, 4));
    mem.write(0xA000, 0x11);
    assert_eq!(mem.read(0xA000), 0x11);
    assert_eq!(mem.cartridge_ram[0], 0);
    mem.write(0x0000, 0x0A);
    assert_eq!(mem.read(0xA000), 0);
    mem.write(0xA000, 0x22);
    assert_eq!(mem.read(0xA000), 0x22);
    assert_eq!(mem.cartridge_ram[0], 0x22);
}

#[test]
fn bank_controllers_report_their_banks() {
    let mut c = MBC1::new(1, 0);
    assert_eq!(c.rom_bank(), 1);
    c.rom_write(0x2000, 3);
    assert_eq!(c.rom_bank(), 3);
    c.rom_write(0x2000, 0x1F);
    // 64 KiB: the bank number is masked to two bits.
    assert_eq!(c.rom_bank(), 3);
    assert_eq!(c.ram_bank(), None);
    c.rom_write(0x0000, 0x0A);
    assert_eq!(c.ram_bank(), Some(0));
    let mut big = MBC1::new(5, 0);
    big.rom_write(0x2000, 0x01);
    big.rom_write(0x4000, 0x01);
    assert_eq!(big.rom_bank(), 0x21);
    let mut m3 = MBC3::new();
    assert_eq!(m3.rom_bank(), 1);
    m3.rom_write(0x2000, 0);
    assert_eq!(m3.rom_bank(), 1);
    m3.rom_write(0x2000, 7);
    assert_eq!(m3.rom_bank(), 7);
    assert_eq!(m3.ram_bank(), None);
    let r = ROMOnly::new();
    assert_eq!(r.rom_bank(), 1);
    assert_eq!(r.ram_bank(), None);
    let mut ctrl = MemoryBankController::MBC3(MBC3::new());
    ctrl.rom_write(0x2100, 5);
    assert_eq!(ctrl.rom_bank(), 5);
    assert_eq!(ctrl.ram_bank(), None);
}

#[test]
fn header_fields_are_read_at_their_offsets() {
    let mut rom = cartridge(0x13, 0x02, 0x03, 8);
    rom[0x134] = b'T';
    rom[0x143] = 0x80;
    rom[0x14D] = 0x5C;
    let h = CartridgeHeader::read(&rom);
    assert_eq!(h.title[0], b'T');
    assert_eq!(h.cgb, 0x80);
    assert_eq!(h.cartridge_type, 0x13);
    assert_eq!(h.rom_size, 0x02);
    assert_eq!(h.ram_size, 0x03);
    assert_eq!(h.header_checksum, 0x5C);
    assert!(matches!(h.memory_bank_controller(), Ok(MemoryBankController::MBC3(_))));
}

#[test]
fn unsupported_cartridge_type_is_refused() {
    let rom = cartridge(0x05, 0x00, 0x00, 2);
    let h = CartridgeHeader::read(&rom);
    match h.memory_bank_controller() {
        Err(e) => assert_eq!(e, "Cartridge type's MemoryBankController not implemented"),
        Ok(_) => panic!("type 0x05 has no controller here"),
    }
    let boot_rom = vec![0u8; 0x100];
    assert!(Memory::new(boot_rom, rom, h).is_err());
}

#[test]
fn div_timer_counts_and_ticks_div_apu() {
    let mut t = DivTimer::new();
    let mut apu_ticks = 0;
    for _ in 0..64 {
        if t.tick(32) {
            apu_ticks += 1;
        }
    }
    // 64 * 32 machine cycles: 32 DIV increments, one falling edge of DIV bit 4.
    assert_eq!(t.read(), 32);
    assert_eq!(apu_ticks, 1);
    assert_eq!(t.div_apu, 1);
    t.write(0x55);
    assert_eq!(t.read(), 0);
    assert_eq!(t.write_reg, 0x55);
}

#[test]
fn audio_registers_apply_masks_on_update() {
    let mut regs = AudioRegisters::new();
    // Written while powered off: cleared by the update.
    regs.index_mut(0xFF11, 0xC5);
    regs.index_mut(0xFF26, 0x80);
    regs.update();
    assert_eq!(regs.index(0xFF26), 0xF0);
    assert_eq!(regs.index(0xFF11), 0x3F);
    // Powered on now: NR11 keeps its duty bits readable.
    regs.index_mut(0xFF11, 0xC5);
    regs.update();
    assert_eq!(regs.index(0xFF11), 0xFF);
    regs.index_mut(0xFF11, 0x45);
    regs.update();
    assert_eq!(regs.index(0xFF11), 0x7F);
    // NR13 is write-only.
    regs.index_mut(0xFF13, 0x12);
    regs.update();
    assert_eq!(regs.index(0xFF13), 0xFF);
}

#[test]
fn a_write_changes_only_its_address() {
    let mut mem = memory(cartridge(0x00, 0x00, 0x00, 2));
    mem.write(0xC000, 0x11);
    mem.write(0xC001, 0x22);
    mem.write(0xFF80, 0x33);
    assert_eq!(mem.read(0xC000), 0x11);
    assert_eq!(mem.read(0xC001), 0x22);
    assert_eq!(mem.read(0xFF80), 0x33);
    assert_eq!(mem.read(0xC002), 0x00);
}

#[test]
fn writes_never_change_the_rom() {
    let mut mem = memory(cartridge(0x00, 0x00, 0x00, 2));
    mem.write(0x0150, 0x99);
    mem.write(0x4000, 0x99);
    assert_eq!(mem.rom[0x0150], 0x00);
    assert_eq!(mem.read(0x4000), 0x01);
}

#[test]
fn mbc1_ram_bank_follows_the_last_writes() {
    // RAM banking model (64 KiB ROM, 32 KiB RAM).
    let mut c = MBC1::new(1, 3);
    c.rom_write(0x4000, 2);
    assert_eq!(c.ram_bank(), None);
    c.rom_write(0x1000, 0x0A);
    assert_eq!(c.ram_bank(), Some(2));
    c.rom_write(0x5FFF, 3);
    c.rom_write(0x2000, 7);
    assert_eq!(c.ram_bank(), Some(3));
    c.rom_write(0x0000, 0x00);
    assert_eq!(c.ram_bank(), None);
    c.rom_write(0x1FFF, 0x0A);
    assert_eq!(c.ram_bank(), Some(3));
    // Upper ROM bits model: the bank stays 0.
    let mut big = MBC1::new(5, 3);
    big.rom_write(0x4000, 2);
    big.rom_write(0x0000, 0x0A);
    assert_eq!(big.ram_bank(), Some(0));
}
