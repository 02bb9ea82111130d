use vstd::prelude::*;
use crate::memory::{MemoryBankController, ROMOnly, MBC1, MBC3};

verus! {

/// The cartridge header at 0x0100-0x014F of a ROM.
#[derive(Debug)]
pub struct CartridgeHeader {
    pub logo: [u8; 0x30],
    pub title: [u8; 0x10],
    pub manufacturer: [u8; 0x4],
    pub cgb: u8,
    pub licensee: [u8; 0x2],
    pub sgb: u8,
    pub cartridge_type: u8,
    pub rom_size: u8,
    pub ram_size: u8,
    pub destination_code: u8,
    pub licensee_old: u8,
    pub rom_version: u8,
    pub header_checksum: u8,
    pub global_checksum: [u8; 2],
}

/// Whether a cartridge type code has a bank controller here.
pub open spec fn supported_cartridge(cartridge_type: u8) -> bool {
    cartridge_type == 0x00 || (0x01 <= cartridge_type <= 0x03) || (0x0F <= cartridge_type <= 0x13)
}

/// The fresh bank controller for a supported cartridge type.
pub open spec fn controller_for(cartridge_type: u8, rom_size: u8, ram_size: u8) -> MemoryBankController {
    if cartridge_type == 0x00 {
        MemoryBankController::ROMOnly(ROMOnly { null: 0 })
    } else if 0x01 <= cartridge_type <= 0x03 {
        MemoryBankController::MBC1(MBC1::new_spec(rom_size, ram_size))
    } else {
        MemoryBankController::MBC3(MBC3 { rom_bank_reg: 1 })
    }
}

fn copy_bytes<const N: usize>(rom: &Vec<u8>, start: usize) -> (out: [u8; N])
    requires
        start + N <= rom@.len(),
    ensures
        forall|i: int| 0 <= i < N ==> out@[i] == rom@[start + i],
{
    let mut out = [0u8; N];
    let len = rom.len();
    let mut i: usize = 0;
    while i < N
        invariant
            i <= N,
            start + N <= rom@.len(),
            len == rom@.len(),
            forall|j: int| 0 <= j < i ==> out@[j] == rom@[start + j],
        decreases N - i,
    {
        out[i] = rom[start + i];
        i = i + 1;
    }
    out
}

impl CartridgeHeader {
    /// Reads the header fields at their fixed offsets.
    pub fn read(rom: &Vec<u8>) -> (h: Self)
        requires
            rom@.len() >= 0x150,
        ensures
            forall|i: int| 0 <= i < 0x30 ==> h.logo@[i] == rom@[0x104 + i],
            forall|i: int| 0 <= i < 0x10 ==> h.title@[i] == rom@[0x134 + i],
            forall|i: int| 0 <= i < 4 ==> h.manufacturer@[i] == rom@[0x13F + i],
            forall|i: int| 0 <= i < 2 ==> h.licensee@[i] == rom@[0x144 + i],
            forall|i: int| 0 <= i < 2 ==> h.global_checksum@[i] == rom@[0x14E + i],
            h.cgb == rom@[0x143],
            h.sgb == rom@[0x146],
            h.cartridge_type == rom@[0x147],
            h.rom_size == rom@[0x148],
            h.ram_size == rom@[0x149],
            h.destination_code == rom@[0x14A],
            h.licensee_old == rom@[0x14B],
            h.rom_version == rom@[0x14C],
            h.header_checksum == rom@[0x14D],
    {
        Self {
            logo: copy_bytes(rom, 0x104),
            title: copy_bytes(rom, 0x134),
            manufacturer: copy_bytes(rom, 0x13F),
            cgb: rom[0x143],
            licensee: copy_bytes(rom, 0x144),
            sgb: rom[0x146],
            cartridge_type: rom[0x147],
            rom_size: rom[0x148],
            ram_size: rom[0x149],
            destination_code: rom[0x14A],
            licensee_old: rom[0x14B],
            rom_version: rom[0x14C],
            header_checksum: rom[0x14D],
            global_checksum: copy_bytes(rom, 0x14E),
        }
    }

    /// The bank controller that the cartridge type asks for:
    /// ROM only for 0x00, MBC1 for 0x01-0x03, MBC3 for 0x0F-0x13, an error otherwise.
    pub fn memory_bank_controller(&self) -> (r: Result<MemoryBankController, String>)
        requires
            0x01 <= self.cartridge_type <= 0x03 ==> self.rom_size <= 7,
        ensures
            r is Ok <==> supported_cartridge(self.cartridge_type),
            r is Ok ==> r->Ok_0 == controller_for(self.cartridge_type, self.rom_size, self.ram_size),
            r is Err ==> r->Err_0@ == "Cartridge type's MemoryBankController not implemented"@,
    {
        if self.cartridge_type == 0x00 {
            Ok(MemoryBankController::ROMOnly(ROMOnly::new()))
        } else if 0x01 <= self.cartridge_type && self.cartridge_type <= 0x03 {
            Ok(MemoryBankController::MBC1(MBC1::new(self.rom_size, self.ram_size)))
        } else if 0x0F <= self.cartridge_type && self.cartridge_type <= 0x13 {
            Ok(MemoryBankController::MBC3(MBC3::new()))
        } else {
            Err("Cartridge type's MemoryBankController not implemented".to_string())
        }
    }
}

} // verus!
