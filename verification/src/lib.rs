pub mod addrreg;
pub mod alu;
pub mod bits;
pub mod condition;
pub mod reg;
pub mod register;
pub mod dataloc;
pub mod decode;
pub mod instruction;
pub mod joypad;
pub mod div_timer;
pub mod audio_registers;
pub mod cartridge_header;
pub mod memory;
pub mod ppu;
pub mod cpu;
pub mod cpu_spec;
pub mod apu;
pub mod gameboy;
pub mod admin;
