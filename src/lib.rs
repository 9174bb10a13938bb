//! A Game Boy (DMG) emulation core: CPU interpreter, memory bus, pixel
//! pipeline, timer, joypad, cartridge bank controllers and the APU register
//! file, each specified against a mathematical model and verified.

pub mod alu;
pub mod apu;
pub mod bits;
pub mod cartridge;
pub mod cpu;
pub mod decimal;
pub mod interp;
pub mod isa;
pub mod joypad;
pub mod laws;
pub mod log;
pub mod ppu;
pub mod timer;
