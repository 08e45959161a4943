//! The peripherals that the bus steps once per machine cycle.

pub mod apu;
pub mod joypad;
pub mod ppu;
pub mod serial;
pub mod timer;
