//! The sound unit, kept as a plain register file: what is written is read
//! back, and nothing is synthesised.

use vstd::prelude::*;

verus! {

pub const APU_FIRST: u16 = 0xFF10;

pub const APU_LAST: u16 = 0xFF26;

#[derive(Clone, Copy, Debug)]
pub struct Apu {
    pub registers: [u8; 23],
}

impl Apu {
    pub open spec fn read_spec(self, addr: u16) -> u8 {
        self.registers[addr - APU_FIRST]
    }

    pub open spec fn write_spec(self, addr: u16, value: u8) -> Apu {
        Apu { registers: vstd::array::spec_array_update(self.registers, addr - APU_FIRST, value) }
    }

    pub fn new() -> (a: Apu)
        ensures
            forall|i: int| 0 <= i < 23 ==> a.registers[i] == 0,
    {
        Apu { registers: [0u8; 23] }
    }

    pub fn read(&self, addr: u16) -> (b: u8)
        requires
            APU_FIRST <= addr <= APU_LAST,
        ensures
            b == self.read_spec(addr),
    {
        self.registers[(addr - APU_FIRST) as usize]
    }

    pub fn write(&mut self, addr: u16, value: u8)
        requires
            APU_FIRST <= addr <= APU_LAST,
        ensures
            *final(self) == old(self).write_spec(addr, value),
            final(self).read_spec(addr) == value,
    {
        self.registers[(addr - APU_FIRST) as usize] = value;
        assert(self.registers =~= vstd::array::spec_array_update(
            old(self).registers,
            addr - APU_FIRST,
            value,
        ));
    }
}

} // verus!
