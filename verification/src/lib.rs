//! A Game Boy (DMG) emulator core.

pub mod bitfield;
pub mod bool_bitfield;
pub mod interrupt;
pub mod timer;
pub mod handler_holder;
pub mod apu;
pub mod ppu;
pub mod cartridge;
pub mod dma;
pub mod bus;
pub mod video;
pub mod cpu;
pub mod debugger;
pub mod controller;
pub mod noise;
pub mod save_file;
pub mod machine;
pub mod opcode;
pub mod emulator;
