//! A verified core for a NES emulator: the audio processing unit with its
//! channel synthesizers, the picture processing unit's register file, the
//! cartridge mappers, the bus and the 6502 processor.
pub mod apu;
pub mod bus;
pub mod cpu;
pub mod joypad;
pub mod mapper;
pub mod noise_sound;
pub mod opscodes;
pub mod ppu;
pub mod rom;
pub mod trace;
pub mod types;
