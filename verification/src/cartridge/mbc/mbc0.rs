//! A cartridge without a controller: 32 KiB of ROM mapped flat, no RAM.

use vstd::prelude::*;
use crate::cartridge::mbc::Mbc;
use crate::cartridge::RomError;

verus! {

/// The size of the address window that a flat ROM fills.
pub const FLAT_ROM_SIZE: usize = 0x8000;

pub struct Mbc0 {
    pub rom: Vec<u8>,
}

impl View for Mbc0 {
    type V = Seq<u8>;

    open spec fn view(&self) -> Seq<u8> {
        self.rom@
    }
}

impl Mbc0 {
    /// Takes the image, which must fill the 32 KiB window.
    pub fn new(rom_data: Vec<u8>) -> (r: Result<Mbc0, RomError>)
        ensures
            match r {
                Ok(m) => rom_data@.len() >= FLAT_ROM_SIZE && m@ == rom_data@ && m.wf(),
                Err(e) => rom_data@.len() < FLAT_ROM_SIZE && e == RomError::Truncated,
            },
    {
        if rom_data.len() < FLAT_ROM_SIZE {
            Err(RomError::Truncated)
        } else {
            Ok(Mbc0 { rom: rom_data })
        }
    }
}

impl Mbc for Mbc0 {
    open spec fn wf(&self) -> bool {
        self.rom@.len() >= FLAT_ROM_SIZE
    }

    open spec fn rom_byte(&self, addr: u16) -> u8 {
        self.rom@[addr as int]
    }

    open spec fn ram_byte(&self, addr: u16) -> u8 {
        0xFF
    }

    open spec fn rom_written(&self, addr: u16, value: u8, after: &Self) -> bool {
        after@ == self@
    }

    open spec fn ram_written(&self, addr: u16, value: u8, after: &Self) -> bool {
        after@ == self@
    }

    fn read_rom(&self, addr: u16) -> (b: u8) {
        self.rom[addr as usize]
    }

    fn write_rom(&mut self, _addr: u16, _value: u8) {
    }

    fn read_ram(&self, _addr: u16) -> (b: u8) {
        0xFF
    }

    fn write_ram(&mut self, _addr: u16, _value: u8) {
    }
}

} // verus!
