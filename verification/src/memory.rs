use vstd::prelude::*;
use vstd::array::spec_array_update;
use crate::audio_registers::AudioRegisters;
use crate::cartridge_header::{CartridgeHeader, controller_for, supported_cartridge};
use vstd::arithmetic::power2::{pow2, lemma_pow2_unfold, lemma_pow2_strictly_increases};
use crate::div_timer::DivTimer;
use crate::bits::set_elem;

verus! {

/// Cartridge without bank switching: writes to ROM land in a cell that nothing reads.
pub struct ROMOnly {
    pub null: u8,
}


impl ROMOnly {
    /// The controller of a cartridge without banking.
    pub fn new() -> (c: Self)
        ensures
            c.null == 0,
    {
        Self { null: 0 }
    }

    /// The switchable ROM bank, always bank 1.
    pub fn rom_bank(&self) -> (b: usize)
        ensures
            b == 1,
    {
        1
    }

    /// Value of the cell that a write at `addr` in ROM space lands in.
    pub fn rom_register(&self, _addr: u16) -> (v: u8)
        ensures
            v == self.null,
    {
        self.null
    }

    /// A write into ROM space.
    pub fn rom_write(&mut self, _addr: u16, value: u8)
        ensures
            final(self).null == value,
    {
        self.null = value;
    }

    /// No cartridge RAM.
    pub fn ram_bank(&self) -> (b: Option<usize>)
        ensures
            b is None,
    {
        None
    }
}

/// What MBC1's register at 0x4000-0x5FFF selects.
#[derive(Debug, Clone, Copy, PartialEq, Eq, Structural)]
pub enum MBC1MemoryModel {
    ROMUpperBits,
    RAMBanking,
    Neither,
}

/// MBC1 bank controller.
pub struct MBC1 {
    pub memory_model: MBC1MemoryModel,
    pub ram_enable: u8,
    /// last bit is: false == 16/8, true == 32/4
    pub advanced_mode: u8,
    pub rom_bank: u8,
    pub rom_bank_mask: u8,
    pub upper_rom_bank_bits: u8,
    pub ram_bank: u8,
    pub void: u8,
}

/// The larger of two bytes.
pub open spec fn max_u8(a: u8, b: u8) -> u8 {
    if a >= b { a } else { b }
}

/// The smaller of two bytes.
pub open spec fn min_u8(a: u8, b: u8) -> u8 {
    if a <= b { a } else { b }
}

fn max_u8_exec(a: u8, b: u8) -> (m: u8)
    ensures
        m == max_u8(a, b),
{
    if a >= b { a } else { b }
}

impl MBC1 {
    /// The memory model chosen from the cartridge's ROM and RAM size codes.
    pub open spec fn model_for(rom_size: u8, ram_size: u8) -> MBC1MemoryModel {
        if rom_size >= 5 {
            MBC1MemoryModel::ROMUpperBits
        } else if ram_size >= 3 {
            MBC1MemoryModel::RAMBanking
        } else {
            MBC1MemoryModel::Neither
        }
    }

    /// Selected ROM bank: the masked low bits (0 counts as 1) with the two upper bits above them.
    pub open spec fn rom_bank_spec(self) -> usize {
        let lower_bank = max_u8(self.rom_bank & self.rom_bank_mask, 1);
        let upper_bank = self.upper_rom_bank_bits & 0b11;
        let bank_number = lower_bank | (upper_bank << 5u8);
        max_u8(bank_number, 1) as usize
    }

    /// Selected RAM bank, while RAM is enabled (0x0A written to 0x0000-0x1FFF).
    pub open spec fn ram_bank_spec(self) -> Option<usize> {
        if self.ram_enable == 0x0A {
            Some(self.ram_bank as usize)
        } else {
            None
        }
    }

    /// The register that a write to `addr` in 0x0000-0x7FFF reaches.
    pub open spec fn rom_register_spec(self, addr: u16) -> u8 {
        if addr <= 0x1FFF {
            self.ram_enable
        } else if addr <= 0x3FFF {
            self.rom_bank
        } else if addr <= 0x5FFF {
            match self.memory_model {
                MBC1MemoryModel::ROMUpperBits => self.upper_rom_bank_bits,
                MBC1MemoryModel::RAMBanking => self.ram_bank,
                MBC1MemoryModel::Neither => self.void,
            }
        } else {
            self.advanced_mode
        }
    }

    /// The controller after `v` is written to `addr` in 0x0000-0x7FFF.
    pub open spec fn rom_write_spec(self, addr: u16, v: u8) -> MBC1 {
        if addr <= 0x1FFF {
            MBC1 { ram_enable: v, ..self }
        } else if addr <= 0x3FFF {
            MBC1 { rom_bank: v, ..self }
        } else if addr <= 0x5FFF {
            match self.memory_model {
                MBC1MemoryModel::ROMUpperBits => MBC1 { upper_rom_bank_bits: v, ..self },
                MBC1MemoryModel::RAMBanking => MBC1 { ram_bank: v, ..self },
                MBC1MemoryModel::Neither => MBC1 { void: v, ..self },
            }
        } else {
            MBC1 { advanced_mode: v, ..self }
        }
    }

    /// The controller that `new` builds.
    pub open spec fn new_spec(rom_size: u8, ram_size: u8) -> MBC1 {
        MBC1 {
            memory_model: Self::model_for(rom_size, ram_size),
            ram_enable: 0,
            advanced_mode: 0,
            rom_bank: 1,
            rom_bank_mask: min_u8(0b0001_1111, (0b1111_1111u8 >> ((7 - rom_size) as u8))),
            upper_rom_bank_bits: 0,
            ram_bank: 0,
            void: 0,
        }
    }

    // MBC1M multi-carts are not supported: they use 4 bits of the main ROM bank instead of 5
    // and put the upper 2 bits at bits 4 and 5 instead of 5 and 6.
    /// A controller for a cartridge with the given ROM and RAM size codes.
    pub fn new(rom_size: u8, ram_size: u8) -> (c: Self)
        requires
            rom_size <= 7,
        ensures
            c == Self::new_spec(rom_size, ram_size),
    {
        let memory_model = if rom_size >= 5 {
            MBC1MemoryModel::ROMUpperBits
        } else if ram_size >= 3 {
            MBC1MemoryModel::RAMBanking
        } else {
            MBC1MemoryModel::Neither
        };
        let shifted: u8 = 0b1111_1111u8 >> (8 - rom_size - 1);
        let mask = if shifted <= 0b0001_1111 { shifted } else { 0b0001_1111 };
        Self {
            memory_model,
            ram_enable: 0,
            advanced_mode: 0,
            rom_bank: 1,
            rom_bank_mask: mask,
            upper_rom_bank_bits: 0,
            ram_bank: 0,
            void: 0,
        }
    }

    /// The ROM bank mapped at 0x4000-0x7FFF.
    pub fn rom_bank(&self) -> (b: usize)
        ensures
            b == self.rom_bank_spec(),
    {
        let lower_bank = max_u8_exec(self.rom_bank & self.rom_bank_mask, 1);
        let upper_bank = self.upper_rom_bank_bits & 0b11;
        let bank_number = lower_bank | (upper_bank << 5u8);
        max_u8_exec(bank_number, 1) as usize
    }

    /// Value of the register that a write at `addr` lands in.
    pub fn rom_register(&self, addr: u16) -> (v: u8)
        requires
            addr <= 0x7FFF,
        ensures
            v == self.rom_register_spec(addr),
    {
        if addr <= 0x1FFF {
            self.ram_enable
        } else if addr <= 0x3FFF {
            self.rom_bank
        } else if addr <= 0x5FFF {
            match self.memory_model {
                MBC1MemoryModel::ROMUpperBits => self.upper_rom_bank_bits,
                MBC1MemoryModel::RAMBanking => self.ram_bank,
                MBC1MemoryModel::Neither => self.void,
            }
        } else {
            self.advanced_mode
        }
    }

    /// A write into ROM space sets the register that the address selects.
    pub fn rom_write(&mut self, addr: u16, value: u8)
        requires
            addr <= 0x7FFF,
        ensures
            *final(self) == old(self).rom_write_spec(addr, value),
    {
        if addr <= 0x1FFF {
            self.ram_enable = value;
        } else if addr <= 0x3FFF {
            self.rom_bank = value;
        } else if addr <= 0x5FFF {
            match self.memory_model {
                MBC1MemoryModel::ROMUpperBits => self.upper_rom_bank_bits = value,
                MBC1MemoryModel::RAMBanking => self.ram_bank = value,
                MBC1MemoryModel::Neither => self.void = value,
            }
        } else {
            self.advanced_mode = value;
        }
    }

    /// The RAM bank, when RAM is enabled (0x0A written to 0x0000-0x1FFF).
    pub fn ram_bank(&self) -> (b: Option<usize>)
        ensures
            b == self.ram_bank_spec(),
    {
        if self.ram_enable == 0x0A {
            Some(self.ram_bank as usize)
        } else {
            None
        }
    }
}

/// MBC3 bank controller (ROM banking only).
pub struct MBC3 {
    pub rom_bank_reg: u8,
}

impl MBC3 {
    /// An MBC3 with bank 1 selected.
    pub fn new() -> (c: Self)
        ensures
            c.rom_bank_reg == 1,
    {
        Self { rom_bank_reg: 1 }
    }

    /// The ROM bank mapped at 0x4000-0x7FFF; bank 0 selects bank 1.
    pub fn rom_bank(&self) -> (b: usize)
        ensures
            b == max_u8(self.rom_bank_reg, 1) as usize,
    {
        max_u8_exec(self.rom_bank_reg, 1) as usize
    }

    /// Value of the bank register, which every write into ROM space lands in.
    pub fn rom_register(&self, _addr: u16) -> (v: u8)
        ensures
            v == self.rom_bank_reg,
    {
        self.rom_bank_reg
    }

    /// Every write into ROM space sets the bank register.
    pub fn rom_write(&mut self, _addr: u16, value: u8)
        ensures
            final(self).rom_bank_reg == value,
    {
        self.rom_bank_reg = value;
    }

    /// No cartridge RAM.
    pub fn ram_bank(&self) -> (b: Option<usize>)
        ensures
            b is None,
    {
        None
    }
}

/// The cartridge's bank controller.
pub enum MemoryBankController {
    ROMOnly(ROMOnly),
    MBC1(MBC1),
    MBC3(MBC3),
}

impl MemoryBankController {
    /// Selected ROM bank of the controller.
    pub open spec fn rom_bank_spec(self) -> usize {
        match self {
            MemoryBankController::ROMOnly(_) => 1,
            MemoryBankController::MBC1(c) => c.rom_bank_spec(),
            MemoryBankController::MBC3(c) => max_u8(c.rom_bank_reg, 1) as usize,
        }
    }

    /// Selected RAM bank of the controller, if RAM is enabled.
    pub open spec fn ram_bank_spec(self) -> Option<usize> {
        match self {
            MemoryBankController::MBC1(c) => c.ram_bank_spec(),
            _ => None,
        }
    }

    /// The register of the controller that a write to `addr` reaches.
    pub open spec fn rom_register_spec(self, addr: u16) -> u8 {
        match self {
            MemoryBankController::ROMOnly(c) => c.null,
            MemoryBankController::MBC1(c) => c.rom_register_spec(addr),
            MemoryBankController::MBC3(c) => c.rom_bank_reg,
        }
    }

    /// The controller after `v` is written to `addr` in 0x0000-0x7FFF.
    pub open spec fn rom_write_spec(self, addr: u16, v: u8) -> MemoryBankController {
        match self {
            MemoryBankController::ROMOnly(c) => MemoryBankController::ROMOnly(ROMOnly { null: v }),
            MemoryBankController::MBC1(c) => MemoryBankController::MBC1(c.rom_write_spec(addr, v)),
            MemoryBankController::MBC3(c) => MemoryBankController::MBC3(MBC3 { rom_bank_reg: v }),
        }
    }

    /// The ROM bank mapped at 0x4000-0x7FFF.
    pub fn rom_bank(&self) -> (b: usize)
        ensures
            b == self.rom_bank_spec(),
    {
        match self {
            MemoryBankController::ROMOnly(c) => c.rom_bank(),
            MemoryBankController::MBC1(c) => c.rom_bank(),
            MemoryBankController::MBC3(c) => c.rom_bank(),
        }
    }

    /// Value of the register that a write at `addr` (in ROM space) lands in.
    pub fn rom_register(&self, addr: u16) -> (v: u8)
        requires
            addr <= 0x7FFF,
        ensures
            v == self.rom_register_spec(addr),
    {
        match self {
            MemoryBankController::ROMOnly(c) => c.rom_register(addr),
            MemoryBankController::MBC1(c) => c.rom_register(addr),
            MemoryBankController::MBC3(c) => c.rom_register(addr),
        }
    }

    /// A write into ROM space (0x0000-0x7FFF).
    pub fn rom_write(&mut self, addr: u16, value: u8)
        requires
            addr <= 0x7FFF,
        ensures
            *final(self) == old(self).rom_write_spec(addr, value),
    {
        match self {
            MemoryBankController::ROMOnly(c) => c.rom_write(addr, value),
            MemoryBankController::MBC1(c) => c.rom_write(addr, value),
            MemoryBankController::MBC3(c) => c.rom_write(addr, value),
        }
    }

    /// The RAM bank mapped at 0xA000-0xBFFF, if RAM is enabled.
    pub fn ram_bank(&self) -> (b: Option<usize>)
        ensures
            b == self.ram_bank_spec(),
    {
        match self {
            MemoryBankController::ROMOnly(c) => c.ram_bank(),
            MemoryBankController::MBC1(c) => c.ram_bank(),
            MemoryBankController::MBC3(c) => c.ram_bank(),
        }
    }
}


/// The address space of the console.
pub struct Memory {
    pub bank_ctrl: MemoryBankController,
    pub num_rom_banks: usize,
    pub boot_rom: Vec<u8>,
    pub rom: Vec<u8>,
    pub tile_ram: [u8; 0x1800],
    pub background_map: [u8; 0x0800],
    pub cartridge_ram: [u8; 0x8000],
    pub wram: [u8; 0x2000],
    pub sprite: [u8; 0xA0],
    /// 00 - 0F
    pub io1: [u8; 0x10],
    /// 10 - 26
    pub audio: AudioRegisters,
    /// 30 - 3F
    pub wave_ram: [u8; 0x10],
    /// 40 - 77
    pub io2: [u8; 0x37],
    /// 78 - FF
    pub high_ram: [u8; 0x89],
    pub unused_response: u8,
    pub unused_write_dummy: u8,
    pub audio_disabled: u8,
    pub div: DivTimer,
    pub void: u8,
}

/// Number of ROM banks for a ROM size code: 2^(code + 1).
pub open spec fn rom_banks_for(rom_size: u8) -> nat {
    pow2((rom_size + 1) as nat)
}

/// A ROM size code `c` declares a cartridge of 32 KiB << `c`, made of 16 KiB banks: two banks
/// for code 0, and each next code doubles the count.
pub proof fn lemma_rom_banks_match_the_declared_size(c: u8)
    requires
        c <= 8,
    ensures
        rom_banks_for(0) == 2,
        rom_banks_for((c + 1) as u8) == 2 * rom_banks_for(c),
        rom_banks_for(c) * 0x4000 == (0x8000u64 << c),
{
    lemma_pow2_unfold(1);
    vstd::arithmetic::power2::lemma2_to64();
    lemma_pow2_unfold((c + 2) as nat);
    vstd::bits::lemma_u64_shl_is_mul(0x8000u64, c as u64);
    lemma_pow2_unfold((c + 1) as nat);
    assert(0x8000u64 * pow2(c as nat) == 0x4000 * pow2((c + 1) as nat));
}

/// A fresh bank controller maps bank 1 at 0x4000-0x7FFF.
proof fn lemma_fresh_controller_maps_bank_one(cartridge_type: u8, rom_size: u8, ram_size: u8)
    requires
        0x01 <= cartridge_type <= 0x03 ==> rom_size <= 7,
    ensures
        controller_for(cartridge_type, rom_size, ram_size).rom_bank_spec() == 1,
{
    if 0x01 <= cartridge_type <= 0x03 {
        let k = (7 - rom_size) as u8;
        let mask = min_u8(0b0001_1111, (0b1111_1111u8 >> k));
        assert(1u8 & min_u8(0b0001_1111, (0b1111_1111u8 >> k)) == 1u8) by (bit_vector)
            requires
                k <= 7,
        ;
        assert((1u8 | ((0u8 & 0b11u8) << 5u8)) == 1u8) by (bit_vector);
    }
}

fn rom_banks(rom_size: u8) -> (n: usize)
    requires
        rom_banks_for(rom_size) <= usize::MAX,
    ensures
        n == rom_banks_for(rom_size),
{
    let mut n: usize = 2;
    let mut i: u8 = 0;
    proof {
        lemma_pow2_unfold(1);
        vstd::arithmetic::power2::lemma2_to64();
    }
    while i < rom_size
        invariant
            i <= rom_size,
            n == pow2((i + 1) as nat),
            pow2((rom_size + 1) as nat) <= usize::MAX,
        decreases rom_size - i,
    {
        proof {
            lemma_pow2_unfold((i + 2) as nat);
            if i + 2 < rom_size + 1 {
                lemma_pow2_strictly_increases((i + 2) as nat, (rom_size + 1) as nat);
            }
        }
        n = n * 2;
        i = i + 1;
    }
    n
}

impl Memory {
    /// Whether reading `addr` is defined: the backing byte exists.
    pub open spec fn readable(self, addr: u16) -> bool {
        if addr <= 0x00FF {
            if self.io2@[0x10] == 0 {
                addr < self.boot_rom@.len()
            } else {
                addr < self.rom@.len()
            }
        } else if addr <= 0x3FFF {
            addr < self.rom@.len()
        } else if addr <= 0x7FFF {
            let bank = self.bank_ctrl.rom_bank_spec();
            bank < self.num_rom_banks && bank * 0x4000 + (addr - 0x4000) < self.rom@.len()
        } else if 0xA000 <= addr <= 0xBFFF {
            match self.bank_ctrl.ram_bank_spec() {
                Some(bank) => (addr - 0xA000) + 0x2000 * bank < 0x8000,
                None => true,
            }
        } else {
            addr != 0xFF77
        }
    }

    /// Whether writing `addr` is defined.
    pub open spec fn writable(self, addr: u16) -> bool {
        if 0xA000 <= addr <= 0xBFFF {
            match self.bank_ctrl.ram_bank_spec() {
                Some(bank) => (addr - 0xA000) + 0x2000 * bank < 0x8000,
                None => true,
            }
        } else {
            addr != 0xFF77
        }
    }

    /// The byte a read at `addr` returns.
    pub open spec fn read_spec(self, addr: u16) -> u8 {
        if addr <= 0x00FF {
            if self.io2@[0x10] == 0 {
                self.boot_rom@[addr as int]
            } else {
                self.rom@[addr as int]
            }
        } else if addr <= 0x3FFF {
            self.rom@[addr as int]
        } else if addr <= 0x7FFF {
            self.rom@[self.bank_ctrl.rom_bank_spec() * 0x4000 + (addr - 0x4000)]
        } else if addr <= 0x97FF {
            self.tile_ram@[addr - 0x8000]
        } else if addr <= 0x9FFF {
            self.background_map@[addr - 0x9800]
        } else if addr <= 0xBFFF {
            match self.bank_ctrl.ram_bank_spec() {
                Some(bank) => self.cartridge_ram@[(addr - 0xA000) + 0x2000 * bank],
                None => self.void,
            }
        } else if addr <= 0xDFFF {
            self.wram@[addr - 0xC000]
        } else if addr <= 0xFDFF {
            // Echo RAM
            self.wram@[addr - 0xE000]
        } else if addr <= 0xFE9F {
            self.sprite@[addr - 0xFE00]
        } else if addr <= 0xFEFF {
            self.unused_response
        } else if addr <= 0xFF03 {
            self.io1@[addr - 0xFF00]
        } else if addr == 0xFF04 {
            self.div.read_reg
        } else if addr <= 0xFF0F {
            self.io1@[addr - 0xFF00]
        } else if addr <= 0xFF26 {
            self.audio.read@[addr - 0xFF10]
        } else if addr <= 0xFF2F {
            self.unused_response
        } else if addr <= 0xFF3F {
            self.wave_ram@[addr - 0xFF30]
        } else if addr <= 0xFF76 {
            self.io2@[addr - 0xFF40]
        } else {
            self.high_ram@[addr - 0xFF77]
        }
    }

    /// The current value of the cell that a write at `addr` lands in.
    pub open spec fn write_cell_spec(self, addr: u16) -> u8 {
        if addr <= 0x7FFF {
            self.bank_ctrl.rom_register_spec(addr)
        } else if addr <= 0x97FF {
            self.tile_ram@[addr - 0x8000]
        } else if addr <= 0x9FFF {
            self.background_map@[addr - 0x9800]
        } else if addr <= 0xBFFF {
            match self.bank_ctrl.ram_bank_spec() {
                Some(bank) => self.cartridge_ram@[(addr - 0xA000) + 0x2000 * bank],
                None => self.void,
            }
        } else if addr <= 0xDFFF {
            self.wram@[addr - 0xC000]
        } else if addr <= 0xFDFF {
            self.unused_write_dummy
        } else if addr <= 0xFE9F {
            self.sprite@[addr - 0xFE00]
        } else if addr <= 0xFEFF {
            self.unused_write_dummy
        } else if addr <= 0xFF03 {
            self.io1@[addr - 0xFF00]
        } else if addr == 0xFF04 {
            self.div.write_reg
        } else if addr <= 0xFF0F {
            self.io1@[addr - 0xFF00]
        } else if addr <= 0xFF26 {
            self.audio.write@[addr - 0xFF10]
        } else if addr <= 0xFF2F {
            self.unused_write_dummy
        } else if addr <= 0xFF3F {
            self.wave_ram@[addr - 0xFF30]
        } else if addr <= 0xFF76 {
            self.io2@[addr - 0xFF40]
        } else {
            self.high_ram@[addr - 0xFF77]
        }
    }

    /// The memory after a write of `v` at `addr`.
    pub open spec fn write_spec(self, addr: u16, v: u8) -> Memory {
        if addr <= 0x7FFF {
            Memory { bank_ctrl: self.bank_ctrl.rom_write_spec(addr, v), ..self }
        } else if addr <= 0x97FF {
            Memory { tile_ram: spec_array_update(self.tile_ram, addr - 0x8000, v), ..self }
        } else if addr <= 0x9FFF {
            Memory { background_map: spec_array_update(self.background_map, addr - 0x9800, v), ..self }
        } else if addr <= 0xBFFF {
            match self.bank_ctrl.ram_bank_spec() {
                Some(bank) => Memory {
                    cartridge_ram: spec_array_update(self.cartridge_ram, (addr - 0xA000) + 0x2000 * bank, v),
                    ..self
                },
                None => Memory { void: v, ..self },
            }
        } else if addr <= 0xDFFF {
            Memory { wram: spec_array_update(self.wram, addr - 0xC000, v), ..self }
        } else if addr <= 0xFDFF {
            Memory { unused_write_dummy: v, ..self }
        } else if addr <= 0xFE9F {
            Memory { sprite: spec_array_update(self.sprite, addr - 0xFE00, v), ..self }
        } else if addr <= 0xFEFF {
            Memory { unused_write_dummy: v, ..self }
        } else if addr <= 0xFF03 {
            Memory { io1: spec_array_update(self.io1, addr - 0xFF00, v), ..self }
        } else if addr == 0xFF04 {
            Memory { div: DivTimer { read_reg: 0, write_reg: v, ..self.div }, ..self }
        } else if addr <= 0xFF0F {
            Memory { io1: spec_array_update(self.io1, addr - 0xFF00, v), ..self }
        } else if addr <= 0xFF26 {
            Memory {
                audio: AudioRegisters { write: spec_array_update(self.audio.write, addr - 0xFF10, v), ..self.audio },
                ..self
            }
        } else if addr <= 0xFF2F {
            Memory { unused_write_dummy: v, ..self }
        } else if addr <= 0xFF3F {
            Memory { wave_ram: spec_array_update(self.wave_ram, addr - 0xFF30, v), ..self }
        } else if addr <= 0xFF76 {
            Memory { io2: spec_array_update(self.io2, addr - 0xFF40, v), ..self }
        } else {
            Memory { high_ram: spec_array_update(self.high_ram, addr - 0xFF77, v), ..self }
        }
    }

    /// Reads a byte.
    pub fn read(&self, addr: u16) -> (v: u8)
        requires
            self.readable(addr),
        ensures
            v == self.read_spec(addr),
    {
        if addr <= 0x00FF {
            if self.io2[0x10] == 0 {
                self.boot_rom[addr as usize]
            } else {
                self.rom[addr as usize]
            }
        } else if addr <= 0x3FFF {
            self.rom[addr as usize]
        } else if addr <= 0x7FFF {
            let bank = self.bank_ctrl.rom_bank();
            self.rom[bank * 0x4000 + (addr as usize - 0x4000)]
        } else if addr <= 0x97FF {
            self.tile_ram[(addr - 0x8000) as usize]
        } else if addr <= 0x9FFF {
            self.background_map[(addr - 0x9800) as usize]
        } else if addr <= 0xBFFF {
            match self.bank_ctrl.ram_bank() {
                Some(bank) => self.cartridge_ram[(addr - 0xA000) as usize + 0x2000 * bank],
                None => self.void,
            }
        } else if addr <= 0xDFFF {
            self.wram[(addr - 0xC000) as usize]
        } else if addr <= 0xFDFF {
            self.wram[(addr - 0xE000) as usize]
        } else if addr <= 0xFE9F {
            self.sprite[(addr - 0xFE00) as usize]
        } else if addr <= 0xFEFF {
            self.unused_response
        } else if addr <= 0xFF03 {
            self.io1[(addr - 0xFF00) as usize]
        } else if addr == 0xFF04 {
            self.div.read()
        } else if addr <= 0xFF0F {
            self.io1[(addr - 0xFF00) as usize]
        } else if addr <= 0xFF26 {
            self.audio.index(addr)
        } else if addr <= 0xFF2F {
            self.unused_response
        } else if addr <= 0xFF3F {
            self.wave_ram[(addr - 0xFF30) as usize]
        } else if addr <= 0xFF76 {
            self.io2[(addr - 0xFF40) as usize]
        } else {
            self.high_ram[(addr - 0xFF77) as usize]
        }
    }

    /// The current value of the cell that a write at `addr` lands in
    /// (what a read-modify-write of `addr` modifies).
    pub fn write_cell(&self, addr: u16) -> (v: u8)
        requires
            self.writable(addr),
        ensures
            v == self.write_cell_spec(addr),
    {
        if addr <= 0x7FFF {
            self.bank_ctrl.rom_register(addr)
        } else if addr <= 0x97FF {
            self.tile_ram[(addr - 0x8000) as usize]
        } else if addr <= 0x9FFF {
            self.background_map[(addr - 0x9800) as usize]
        } else if addr <= 0xBFFF {
            match self.bank_ctrl.ram_bank() {
                Some(bank) => self.cartridge_ram[(addr - 0xA000) as usize + 0x2000 * bank],
                None => self.void,
            }
        } else if addr <= 0xDFFF {
            self.wram[(addr - 0xC000) as usize]
        } else if addr <= 0xFDFF {
            self.unused_write_dummy
        } else if addr <= 0xFE9F {
            self.sprite[(addr - 0xFE00) as usize]
        } else if addr <= 0xFEFF {
            self.unused_write_dummy
        } else if addr <= 0xFF03 {
            self.io1[(addr - 0xFF00) as usize]
        } else if addr == 0xFF04 {
            self.div.write_reg
        } else if addr <= 0xFF0F {
            self.io1[(addr - 0xFF00) as usize]
        } else if addr <= 0xFF26 {
            self.audio.write_cell(addr)
        } else if addr <= 0xFF2F {
            self.unused_write_dummy
        } else if addr <= 0xFF3F {
            self.wave_ram[(addr - 0xFF30) as usize]
        } else if addr <= 0xFF76 {
            self.io2[(addr - 0xFF40) as usize]
        } else {
            self.high_ram[(addr - 0xFF77) as usize]
        }
    }

    /// Writes a byte.
    pub fn write(&mut self, addr: u16, value: u8)
        requires
            old(self).writable(addr),
        ensures
            *final(self) == old(self).write_spec(addr, value),
    {
        if addr <= 0x7FFF {
            self.bank_ctrl.rom_write(addr, value);
        } else if addr <= 0x97FF {
            set_elem(&mut self.tile_ram, (addr - 0x8000) as usize, value);
        } else if addr <= 0x9FFF {
            set_elem(&mut self.background_map, (addr - 0x9800) as usize, value);
        } else if addr <= 0xBFFF {
            match self.bank_ctrl.ram_bank() {
                Some(bank) => {
                    set_elem(&mut self.cartridge_ram, (addr - 0xA000) as usize + 0x2000 * bank, value);
                },
                None => {
                    self.void = value;
                },
            }
        } else if addr <= 0xDFFF {
            set_elem(&mut self.wram, (addr - 0xC000) as usize, value);
        } else if addr <= 0xFDFF {
            self.unused_write_dummy = value;
        } else if addr <= 0xFE9F {
            set_elem(&mut self.sprite, (addr - 0xFE00) as usize, value);
        } else if addr <= 0xFEFF {
            self.unused_write_dummy = value;
        } else if addr <= 0xFF03 {
            set_elem(&mut self.io1, (addr - 0xFF00) as usize, value);
        } else if addr == 0xFF04 {
            self.div.write(value);
        } else if addr <= 0xFF0F {
            set_elem(&mut self.io1, (addr - 0xFF00) as usize, value);
        } else if addr <= 0xFF26 {
            self.audio.index_mut(addr, value);
        } else if addr <= 0xFF2F {
            self.unused_write_dummy = value;
        } else if addr <= 0xFF3F {
            set_elem(&mut self.wave_ram, (addr - 0xFF30) as usize, value);
        } else if addr <= 0xFF76 {
            set_elem(&mut self.io2, (addr - 0xFF40) as usize, value);
        } else {
            set_elem(&mut self.high_ram, (addr - 0xFF77) as usize, value);
        }
    }
}


impl Memory {
    /// A fresh address space for a cartridge: every RAM zero, unused cells 0xFF.
    /// Fails when the cartridge type has no bank controller here.
    pub fn new(boot_rom: Vec<u8>, rom: Vec<u8>, header: CartridgeHeader) -> (r: Result<Self, String>)
        requires
            0x01 <= header.cartridge_type <= 0x03 ==> header.rom_size <= 7,
            supported_cartridge(header.cartridge_type) ==> rom_banks_for(header.rom_size) <= usize::MAX,
        ensures
            r is Ok <==> supported_cartridge(header.cartridge_type),
            r is Err ==> r->Err_0@ == "Cartridge type's MemoryBankController not implemented"@,
            r is Ok ==> {
                let m = r->Ok_0;
                &&& m.bank_ctrl == controller_for(header.cartridge_type, header.rom_size, header.ram_size)
                &&& m.num_rom_banks == rom_banks_for(header.rom_size)
                &&& m.boot_rom@ == boot_rom@
                &&& m.rom@ == rom@
                &&& m.is_cleared()
            },
            r is Ok ==> r->Ok_0.num_rom_banks >= 2,
            r is Ok && rom@.len() >= 0x8000 ==> forall|a: u16|
                0x0100 <= a <= 0x7FFF ==> r->Ok_0.readable(a) && #[trigger] r->Ok_0.read_spec(a) == rom@[a as int],
    {
        proof {
            if supported_cartridge(header.cartridge_type) {
                lemma_fresh_controller_maps_bank_one(header.cartridge_type, header.rom_size, header.ram_size);
                vstd::arithmetic::power2::lemma_pow2_pos(header.rom_size as nat);
                lemma_pow2_unfold((header.rom_size + 1) as nat);
            }
        }
        let bank_ctrl = match header.memory_bank_controller() {
            Ok(c) => c,
            Err(e) => {
                return Err(e);
            },
        };
        let num_rom_banks = rom_banks(header.rom_size);
        Ok(Self {
            bank_ctrl,
            num_rom_banks,
            boot_rom,
            rom,
            tile_ram: [0; 0x1800],
            background_map: [0; 0x0800],
            cartridge_ram: [0; 0x8000],
            wram: [0; 0x2000],
            sprite: [0; 0xA0],
            io1: [0; 0x10],
            audio: AudioRegisters::new(),
            wave_ram: [0; 0x10],
            io2: [0; 0x37],
            high_ram: [0; 0x89],
            unused_response: 0xFF,
            unused_write_dummy: 0,
            audio_disabled: 0,
            div: DivTimer::new(),
            void: 0xFF,
        })
    }

    /// Every RAM and register zero, unused cells 0xFF, as `new` leaves them.
    pub open spec fn is_cleared(self) -> bool {
        &&& forall|i: int| 0 <= i < 0x1800 ==> self.tile_ram@[i] == 0
        &&& forall|i: int| 0 <= i < 0x0800 ==> self.background_map@[i] == 0
        &&& forall|i: int| 0 <= i < 0x8000 ==> self.cartridge_ram@[i] == 0
        &&& forall|i: int| 0 <= i < 0x2000 ==> self.wram@[i] == 0
        &&& forall|i: int| 0 <= i < 0xA0 ==> self.sprite@[i] == 0
        &&& forall|i: int| 0 <= i < 0x10 ==> self.io1@[i] == 0 && self.wave_ram@[i] == 0
        &&& forall|i: int| 0 <= i < 0x37 ==> self.io2@[i] == 0
        &&& forall|i: int| 0 <= i < 0x89 ==> self.high_ram@[i] == 0
        &&& forall|i: int| 0 <= i < 0x17 ==> self.audio.read@[i] == 0 && self.audio.write@[i] == 0
            && self.audio.internal.internal@[i] == 0
        &&& self.unused_response == 0xFF
        &&& self.unused_write_dummy == 0
        &&& self.audio_disabled == 0
        &&& self.div.read_reg == 0 && self.div.write_reg == 0 && self.div.div_counter == 0 && self.div.div_apu == 0
        &&& self.void == 0xFF
    }
}


/// Addresses backed by a RAM cell that both reads and writes reach.
pub open spec fn is_plain_ram(addr: u16) -> bool {
    ||| 0x8000 <= addr <= 0x9FFF
    ||| 0xC000 <= addr <= 0xDFFF
    ||| 0xFE00 <= addr <= 0xFE9F
    ||| 0xFF00 <= addr <= 0xFF03
    ||| 0xFF05 <= addr <= 0xFF0F
    ||| 0xFF30 <= addr <= 0xFF3F
    ||| 0xFF40 <= addr <= 0xFF76
    ||| 0xFF78 <= addr
}

/// A read of a RAM address gives back what the last write there wrote; so does a read of
/// cartridge RAM space where the write was defined (the RAM bank, or the cell that stands in for
/// disabled RAM).
pub proof fn lemma_read_after_write(mem: Memory, addr: u16, v: u8)
    requires
        is_plain_ram(addr) || (0xA000 <= addr <= 0xBFFF && mem.writable(addr)),
    ensures
        mem.write_spec(addr, v).readable(addr),
        mem.write_spec(addr, v).read_spec(addr) == v,
        mem.write_spec(addr, v).write_cell_spec(addr) == v,
{
}

/// A write to one RAM address leaves what every other RAM address reads unchanged.
pub proof fn lemma_write_frame(mem: Memory, a: u16, b: u16, v: u8)
    requires
        is_plain_ram(a),
        is_plain_ram(b),
        a != b,
    ensures
        mem.write_spec(a, v).read_spec(b) == mem.read_spec(b),
        mem.write_spec(a, v).readable(b) == mem.readable(b),
{
}

/// No write changes the ROM or the boot ROM.
pub proof fn lemma_write_keeps_rom(mem: Memory, addr: u16, v: u8)
    ensures
        mem.write_spec(addr, v).rom@ == mem.rom@,
        mem.write_spec(addr, v).boot_rom@ == mem.boot_rom@,
        mem.write_spec(addr, v).num_rom_banks == mem.num_rom_banks,
{
}

/// Echo RAM (0xE000-0xFDFF) reads the work RAM 0x2000 below it.
pub proof fn lemma_echo_ram(mem: Memory, addr: u16)
    requires
        0xE000 <= addr <= 0xFDFF,
    ensures
        mem.read_spec(addr) == mem.read_spec((addr - 0x2000) as u16),
        mem.readable(addr) && mem.readable((addr - 0x2000) as u16),
{
}

/// Once a non-zero byte is written to 0xFF50 the boot ROM is unmapped: the first 256 addresses
/// read the cartridge.
pub proof fn lemma_boot_rom_unmapped(mem: Memory, v: u8, addr: u16)
    requires
        v != 0,
        addr <= 0x00FF,
    ensures
        mem.write_spec(0xFF50, v).read_spec(addr) == mem.rom@[addr as int],
        mem.write_spec(0xFF50, v).readable(addr) == (addr < mem.rom@.len()),
{
}

/// The MBC1 after the writes `writes` ((address, byte), in order) to 0x0000-0x7FFF.
pub open spec fn mbc1_after(c: MBC1, writes: Seq<(u16, u8)>) -> MBC1
    decreases writes.len(),
{
    if writes.len() == 0 {
        c
    } else {
        mbc1_after(c, writes.drop_last()).rom_write_spec(writes.last().0, writes.last().1)
    }
}

/// The last byte of `writes` written to an address in `lo..=hi`; `default` if there is none.
pub open spec fn last_written(writes: Seq<(u16, u8)>, lo: u16, hi: u16, default: u8) -> u8
    decreases writes.len(),
{
    if writes.len() == 0 {
        default
    } else if lo <= writes.last().0 <= hi {
        writes.last().1
    } else {
        last_written(writes.drop_last(), lo, hi, default)
    }
}

/// After any writes, an MBC1's RAM enable register holds the last byte written to
/// 0x0000-0x1FFF, and its RAM bank register the last byte written to 0x4000-0x5FFF in the
/// RAM banking model (it keeps its value in the other models).
pub proof fn lemma_mbc1_ram_registers(c: MBC1, writes: Seq<(u16, u8)>)
    ensures
        mbc1_after(c, writes).memory_model == c.memory_model,
        mbc1_after(c, writes).ram_enable == last_written(writes, 0x0000, 0x1FFF, c.ram_enable),
        mbc1_after(c, writes).ram_bank == (if c.memory_model == MBC1MemoryModel::RAMBanking {
            last_written(writes, 0x4000, 0x5FFF, c.ram_bank)
        } else {
            c.ram_bank
        }),
    decreases writes.len(),
{
    if writes.len() > 0 {
        lemma_mbc1_ram_registers(c, writes.drop_last());
    }
}

/// For a fresh MBC1 and any writes, cartridge RAM is enabled exactly when the last byte written
/// to 0x0000-0x1FFF is 0x0A; its bank is then the last byte written to 0x4000-0x5FFF in the RAM
/// banking model (ROM size code below 5, RAM size code 3 or more), and 0 otherwise.
pub proof fn lemma_mbc1_ram_bank_after_writes(rom_size: u8, ram_size: u8, writes: Seq<(u16, u8)>)
    ensures
        mbc1_after(MBC1::new_spec(rom_size, ram_size), writes).ram_bank_spec() == (
        if last_written(writes, 0x0000, 0x1FFF, 0) == 0x0A {
            Some(
                if rom_size < 5 && ram_size >= 3 {
                    last_written(writes, 0x4000, 0x5FFF, 0) as usize
                } else {
                    0usize
                },
            )
        } else {
            None
        }),
{
    lemma_mbc1_ram_registers(MBC1::new_spec(rom_size, ram_size), writes);
}

/// The switchable ROM area never maps bank 0: a bank number of 0 selects bank 1.
pub proof fn lemma_rom_bank_nonzero(c: MemoryBankController)
    ensures
        c.rom_bank_spec() >= 1,
{
}

/// Any write to DIV (0xFF04) resets what it reads to zero.
pub proof fn lemma_div_write_resets(mem: Memory, v: u8)
    ensures
        mem.write_spec(0xFF04, v).read_spec(0xFF04) == 0,
{
}


/// What a read gives: the byte where the read is defined.
pub open spec fn rd(m: Memory, addr: u16) -> Option<u8> {
    if m.readable(addr) {
        Some(m.read_spec(addr))
    } else {
        None
    }
}

/// What a write gives: the new memory where the write is defined.
pub open spec fn wr(m: Memory, addr: u16, v: u8) -> Option<Memory> {
    if m.writable(addr) {
        Some(m.write_spec(addr, v))
    } else {
        None
    }
}

impl Memory {
    /// Whether a read at `addr` is defined.
    pub fn is_readable(&self, addr: u16) -> (b: bool)
        ensures
            b == self.readable(addr),
    {
        if addr <= 0x00FF {
            if self.io2[0x10] == 0 {
                (addr as usize) < self.boot_rom.len()
            } else {
                (addr as usize) < self.rom.len()
            }
        } else if addr <= 0x3FFF {
            (addr as usize) < self.rom.len()
        } else if addr <= 0x7FFF {
            let bank = self.bank_ctrl.rom_bank();
            bank < self.num_rom_banks && bank * 0x4000 + (addr as usize - 0x4000) < self.rom.len()
        } else if 0xA000 <= addr && addr <= 0xBFFF {
            match self.bank_ctrl.ram_bank() {
                Some(bank) => (addr - 0xA000) as usize + 0x2000 * bank < 0x8000,
                None => true,
            }
        } else {
            addr != 0xFF77
        }
    }

    /// Whether a write at `addr` is defined.
    pub fn is_writable(&self, addr: u16) -> (b: bool)
        ensures
            b == self.writable(addr),
    {
        if 0xA000 <= addr && addr <= 0xBFFF {
            match self.bank_ctrl.ram_bank() {
                Some(bank) => (addr - 0xA000) as usize + 0x2000 * bank < 0x8000,
                None => true,
            }
        } else {
            addr != 0xFF77
        }
    }

    /// Reads a byte where the read is defined.
    pub fn try_read(&self, addr: u16) -> (r: Option<u8>)
        ensures
            r == rd(*self, addr),
    {
        if self.is_readable(addr) {
            Some(self.read(addr))
        } else {
            None
        }
    }

    /// Writes a byte where the write is defined; reports whether it was.
    pub fn try_write(&mut self, addr: u16, value: u8) -> (ok: bool)
        ensures
            ok == old(self).writable(addr),
            ok ==> *final(self) == old(self).write_spec(addr, value),
            !ok ==> *final(self) == *old(self),
    {
        if self.is_writable(addr) {
            self.write(addr, value);
            true
        } else {
            false
        }
    }
}

} // verus!
