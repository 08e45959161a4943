//! Memory-bank controllers: the circuit on the cartridge that decides which
//! part of ROM and RAM the console sees.

use vstd::prelude::*;

pub mod mbc0;
pub mod mbc1;

verus! {

pub const ROM_END: u16 = 0x7FFF;

pub const RAM_START: u16 = 0xA000;

pub const RAM_END: u16 = 0xBFFF;

/// What a bank controller answers to. `read_rom` and `write_rom` take
/// addresses in 0x0000..=0x7FFF, `read_ram` and `write_ram` addresses in
/// 0xA000..=0xBFFF.
pub trait Mbc {
    /// The controller's invariant.
    spec fn wf(&self) -> bool;

    /// The byte seen at a ROM address.
    spec fn rom_byte(&self, addr: u16) -> u8;

    /// The byte seen at a RAM address.
    spec fn ram_byte(&self, addr: u16) -> u8;

    /// Whether `after` is this controller once `value` was written to the
    /// ROM address `addr`.
    spec fn rom_written(&self, addr: u16, value: u8, after: &Self) -> bool;

    /// Whether `after` is this controller once `value` was written to the
    /// RAM address `addr`.
    spec fn ram_written(&self, addr: u16, value: u8, after: &Self) -> bool;

    fn read_rom(&self, addr: u16) -> (b: u8)
        requires
            self.wf(),
            addr <= ROM_END,
        ensures
            b == self.rom_byte(addr),
    ;

    fn write_rom(&mut self, addr: u16, value: u8)
        requires
            old(self).wf(),
            addr <= ROM_END,
        ensures
            final(self).wf(),
            old(self).rom_written(addr, value, final(self)),
    ;

    fn read_ram(&self, addr: u16) -> (b: u8)
        requires
            self.wf(),
            RAM_START <= addr <= RAM_END,
        ensures
            b == self.ram_byte(addr),
    ;

    fn write_ram(&mut self, addr: u16, value: u8)
        requires
            old(self).wf(),
            RAM_START <= addr <= RAM_END,
        ensures
            final(self).wf(),
            old(self).ram_written(addr, value, final(self)),
    ;
}

} // verus!
