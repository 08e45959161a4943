//! The cartridge: a ROM image behind the bank controller that its header
//! names.

use vstd::prelude::*;
use crate::cartridge::mbc::mbc0::{Mbc0, FLAT_ROM_SIZE};
use crate::cartridge::mbc::mbc1::{Mbc1, Mbc1State, mbc1_verdict, ram_banks_of, RAM_SIZE_AT};
use crate::cartridge::mbc::{Mbc, RAM_END, RAM_START, ROM_END};

pub mod mbc;

verus! {

/// Where the header names the controller.
pub const CARTRIDGE_TYPE_AT: usize = 0x0147;

/// Why an image is refused.
#[derive(Clone, Copy, Debug, PartialEq, Eq, Structural)]
pub enum RomError {
    /// The image ends before the header does.
    HeaderMissing,
    /// The header names a controller other than none or MBC1.
    UnsupportedController(u8),
    /// The RAM size code is none of 0, 2, 3, 4, 5.
    UnsupportedRamSize(u8),
    /// The ROM size code is above 8.
    UnsupportedRomSize(u8),
    /// The image is shorter than the ROM that its header declares.
    Truncated,
}

/// The controller found on the cartridge.
pub enum Controller {
    Flat(Mbc0),
    Banked(Mbc1),
}

pub struct Cartridge {
    pub mbc: Controller,
}

/// The cartridge as contracts see it.
pub enum CartridgeState {
    Flat(Seq<u8>),
    Banked(Mbc1State),
}

impl View for Cartridge {
    type V = CartridgeState;

    open spec fn view(&self) -> CartridgeState {
        match self.mbc {
            Controller::Flat(m) => CartridgeState::Flat(m@),
            Controller::Banked(m) => CartridgeState::Banked(m@),
        }
    }
}

/// Whether the header byte at 0x0147 names MBC1, with or without RAM and
/// battery.
pub open spec fn is_mbc1(kind: u8) -> bool {
    1 <= kind <= 3
}

/// Why an image is refused, if it is. The checks run in this order: the
/// header is there, the controller is known, the RAM size code is known, and
/// the image is as long as its ROM.
pub open spec fn verdict(rom: Seq<u8>) -> Option<RomError> {
    if rom.len() <= RAM_SIZE_AT {
        Some(RomError::HeaderMissing)
    } else if rom[CARTRIDGE_TYPE_AT as int] > 3 {
        Some(RomError::UnsupportedController(rom[CARTRIDGE_TYPE_AT as int]))
    } else if ram_banks_of(rom[RAM_SIZE_AT as int]) is None {
        Some(RomError::UnsupportedRamSize(rom[RAM_SIZE_AT as int]))
    } else if rom[CARTRIDGE_TYPE_AT as int] == 0 {
        if rom.len() < FLAT_ROM_SIZE {
            Some(RomError::Truncated)
        } else {
            None
        }
    } else {
        mbc1_verdict(rom)
    }
}

impl CartridgeState {
    /// The cartridge right after an accepted image was loaded.
    pub open spec fn loaded(rom: Seq<u8>) -> CartridgeState {
        if rom[CARTRIDGE_TYPE_AT as int] == 0 {
            CartridgeState::Flat(rom)
        } else {
            CartridgeState::Banked(Mbc1State::loaded(rom, rom[CARTRIDGE_TYPE_AT as int] == 3))
        }
    }

    pub open spec fn wf(self) -> bool {
        match self {
            CartridgeState::Flat(rom) => rom.len() >= FLAT_ROM_SIZE,
            CartridgeState::Banked(m) => m.wf(),
        }
    }

    /// The byte at an address in 0x0000..=0x7FFF or 0xA000..=0xBFFF. Without
    /// a controller the ROM is flat and the RAM range reads 0xFF.
    pub open spec fn read(self, addr: u16) -> u8 {
        match self {
            CartridgeState::Flat(rom) => if addr <= ROM_END {
                rom[addr as int]
            } else {
                0xFF
            },
            CartridgeState::Banked(m) => if addr <= ROM_END {
                m.read_rom(addr)
            } else {
                m.read_ram(addr)
            },
        }
    }

    /// The cartridge after a write. Without a controller nothing changes.
    pub open spec fn write(self, addr: u16, value: u8) -> CartridgeState {
        match self {
            CartridgeState::Flat(rom) => self,
            CartridgeState::Banked(m) => if addr <= ROM_END {
                CartridgeState::Banked(m.write_rom(addr, value))
            } else {
                CartridgeState::Banked(m.write_ram(addr, value))
            },
        }
    }
}

/// Whether the cartridge answers at `addr`.
pub open spec fn on_cartridge(addr: u16) -> bool {
    addr <= ROM_END || RAM_START <= addr <= RAM_END
}

/// A write leaves the cartridge well formed.
pub proof fn lemma_write_keeps_wf(c: CartridgeState, addr: u16, value: u8)
    requires
        c.wf(),
        on_cartridge(addr),
    ensures
        c.write(addr, value).wf(),
{
}

impl Cartridge {
    pub open spec fn wf(&self) -> bool {
        self@.wf()
    }

    /// Builds the cartridge that the header describes, or says why the image
    /// is refused.
    pub fn new(rom_data: Vec<u8>) -> (r: Result<Cartridge, RomError>)
        ensures
            match r {
                Ok(c) => verdict(rom_data@) is None && c.wf() && c@ == CartridgeState::loaded(
                    rom_data@,
                ),
                Err(e) => verdict(rom_data@) == Some(e),
            },
    {
        if rom_data.len() <= RAM_SIZE_AT {
            return Err(RomError::HeaderMissing);
        }
        let mbc_type = rom_data[CARTRIDGE_TYPE_AT];
        let ram_code = rom_data[RAM_SIZE_AT];
        if mbc_type > 3 {
            return Err(RomError::UnsupportedController(mbc_type));
        }
        if !(ram_code == 0 || (2 <= ram_code && ram_code <= 5)) {
            return Err(RomError::UnsupportedRamSize(ram_code));
        }
        if mbc_type == 0 {
            match Mbc0::new(rom_data) {
                Ok(m) => Ok(Cartridge { mbc: Controller::Flat(m) }),
                Err(e) => Err(e),
            }
        } else {
            match Mbc1::new(rom_data, mbc_type == 3) {
                Ok(m) => Ok(Cartridge { mbc: Controller::Banked(m) }),
                Err(e) => Err(e),
            }
        }
    }

    pub fn read(&self, addr: u16) -> (b: u8)
        requires
            self.wf(),
            on_cartridge(addr),
        ensures
            b == self@.read(addr),
    {
        match &self.mbc {
            Controller::Flat(m) => if addr <= ROM_END {
                m.read_rom(addr)
            } else {
                m.read_ram(addr)
            },
            Controller::Banked(m) => if addr <= ROM_END {
                m.read_rom(addr)
            } else {
                m.read_ram(addr)
            },
        }
    }

    pub fn write(&mut self, addr: u16, value: u8)
        requires
            old(self).wf(),
            on_cartridge(addr),
        ensures
            final(self).wf(),
            final(self)@ == old(self)@.write(addr, value),
    {
        match &mut self.mbc {
            Controller::Flat(m) => if addr <= ROM_END {
                m.write_rom(addr, value)
            } else {
                m.write_ram(addr, value)
            },
            Controller::Banked(m) => if addr <= ROM_END {
                m.write_rom(addr, value)
            } else {
                m.write_ram(addr, value)
            },
        }
    }
}

} // verus!
