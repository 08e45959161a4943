//! The eight 8-bit registers and the packing of the flag register.

use vstd::prelude::*;
use vstd::std_specs::convert::FromSpecImpl;

verus! {

/// The four condition flags. Only the upper nibble of F exists on the chip.
///
/// | bit | flag | set when                                   |
/// |-----|------|--------------------------------------------|
/// | 7   | Z    | the result of the operation is zero        |
/// | 6   | N    | the last operation was a subtraction       |
/// | 5   | H    | a carry or borrow crossed bit 3            |
/// | 4   | C    | a carry or borrow crossed bit 7            |
#[derive(Copy, Clone, Debug, PartialEq, Eq, Structural)]
pub struct FlagsRegister {
    pub zero: bool,
    pub subtract: bool,
    pub half_carry: bool,
    pub carry: bool,
}

impl FlagsRegister {
    /// The byte that F reads as: `Z<<7 | N<<6 | H<<5 | C<<4`.
    pub open spec fn byte(self) -> u8 {
        ((if self.zero { 128int } else { 0int })
            + (if self.subtract { 64int } else { 0int })
            + (if self.half_carry { 32int } else { 0int })
            + (if self.carry { 16int } else { 0int })) as u8
    }

    /// The flags held by bits 7..4 of `byte`; bits 3..0 are dropped.
    pub open spec fn unpack(byte: u8) -> FlagsRegister {
        FlagsRegister {
            zero: byte / 128 == 1,
            subtract: (byte / 64) % 2 == 1,
            half_carry: (byte / 32) % 2 == 1,
            carry: (byte / 16) % 2 == 1,
        }
    }

    pub fn to_byte(self) -> (b: u8)
        ensures
            b == self.byte(),
            b % 16 == 0,
    {
        let z: u8 = if self.zero { 128 } else { 0 };
        let n: u8 = if self.subtract { 64 } else { 0 };
        let h: u8 = if self.half_carry { 32 } else { 0 };
        let c: u8 = if self.carry { 16 } else { 0 };
        z + n + h + c
    }

    pub fn from_byte(byte: u8) -> (f: FlagsRegister)
        ensures
            f == Self::unpack(byte),
            f.byte() == byte - byte % 16,
    {
        FlagsRegister {
            zero: byte / 128 == 1,
            subtract: (byte / 64) % 2 == 1,
            half_carry: (byte / 32) % 2 == 1,
            carry: (byte / 16) % 2 == 1,
        }
    }
}

impl FromSpecImpl<FlagsRegister> for u8 {
    open spec fn obeys_from_spec() -> bool {
        true
    }

    open spec fn from_spec(flags: FlagsRegister) -> u8 {
        flags.byte()
    }
}

impl From<FlagsRegister> for u8 {
    fn from(flags: FlagsRegister) -> (b: u8) {
        flags.to_byte()
    }
}

impl FromSpecImpl<u8> for FlagsRegister {
    open spec fn obeys_from_spec() -> bool {
        true
    }

    open spec fn from_spec(byte: u8) -> FlagsRegister {
        FlagsRegister::unpack(byte)
    }
}

impl From<u8> for FlagsRegister {
    fn from(byte: u8) -> (f: FlagsRegister) {
        FlagsRegister::from_byte(byte)
    }
}

/// The 16-bit value whose high byte is `hi` and whose low byte is `lo`.
pub open spec fn word(hi: u8, lo: u8) -> u16 {
    (hi as int * 256 + lo as int) as u16
}

/// The high byte of a 16-bit value.
pub open spec fn high(w: u16) -> u8 {
    (w / 256) as u8
}

/// The low byte of a 16-bit value.
pub open spec fn low(w: u16) -> u8 {
    (w % 256) as u8
}

pub fn make_word(hi: u8, lo: u8) -> (w: u16)
    ensures
        w == word(hi, lo),
        high(w) == hi,
        low(w) == lo,
{
    (hi as u16) * 256 + (lo as u16)
}

pub fn high_byte(w: u16) -> (b: u8)
    ensures
        b == high(w),
{
    (w / 256) as u8
}

pub fn low_byte(w: u16) -> (b: u8)
    ensures
        b == low(w),
{
    (w % 256) as u8
}

/// Splitting a word and joining the halves again gives the word back.
pub proof fn lemma_word_split(w: u16)
    ensures
        word(high(w), low(w)) == w,
{
}

#[derive(Copy, Clone, Debug, PartialEq, Eq, Structural)]
pub struct Registers {
    pub a: u8,
    pub f: FlagsRegister,
    pub b: u8,
    pub c: u8,
    pub d: u8,
    pub e: u8,
    pub h: u8,
    pub l: u8,
}

impl Registers {
    /// The register file as the boot sequence leaves it.
    pub open spec fn power_on() -> Registers {
        Registers {
            a: 0x01,
            f: FlagsRegister { zero: true, subtract: false, half_carry: true, carry: true },
            b: 0x00,
            c: 0x13,
            d: 0x00,
            e: 0xD8,
            h: 0x01,
            l: 0x4D,
        }
    }

    pub open spec fn af(self) -> u16 {
        word(self.a, self.f.byte())
    }

    pub open spec fn bc(self) -> u16 {
        word(self.b, self.c)
    }

    pub open spec fn de(self) -> u16 {
        word(self.d, self.e)
    }

    pub open spec fn hl(self) -> u16 {
        word(self.h, self.l)
    }

    pub open spec fn with_af(self, value: u16) -> Registers {
        Registers { a: high(value), f: FlagsRegister::unpack(low(value)), ..self }
    }

    pub open spec fn with_bc(self, value: u16) -> Registers {
        Registers { b: high(value), c: low(value), ..self }
    }

    pub open spec fn with_de(self, value: u16) -> Registers {
        Registers { d: high(value), e: low(value), ..self }
    }

    pub open spec fn with_hl(self, value: u16) -> Registers {
        Registers { h: high(value), l: low(value), ..self }
    }

    pub fn new() -> (r: Registers)
        ensures
            r == Self::power_on(),
            r.af() == 0x01B0,
            r.bc() == 0x0013,
            r.de() == 0x00D8,
            r.hl() == 0x014D,
    {
        Registers {
            a: 0x01,
            f: FlagsRegister::from_byte(0xB0),
            b: 0x00,
            c: 0x13,
            d: 0x00,
            e: 0xD8,
            h: 0x01,
            l: 0x4D,
        }
    }

    pub fn get_af(&self) -> (w: u16)
        ensures
            w == self.af(),
            w % 16 == 0,
    {
        make_word(self.a, self.f.to_byte())
    }

    /// Loads A and F from `value`; the low nibble of F does not exist and is
    /// dropped, so AF afterwards reads as `value` with bits 3..0 cleared.
    pub fn set_af(&mut self, value: u16)
        ensures
            *final(self) == old(self).with_af(value),
            final(self).af() == value - value % 16,
            final(self).af() % 16 == 0,
    {
        self.a = high_byte(value);
        self.f = FlagsRegister::from_byte(low_byte(value));
    }

    pub fn get_bc(&self) -> (w: u16)
        ensures
            w == self.bc(),
    {
        make_word(self.b, self.c)
    }

    pub fn set_bc(&mut self, value: u16)
        ensures
            *final(self) == old(self).with_bc(value),
            final(self).bc() == value,
    {
        self.b = high_byte(value);
        self.c = low_byte(value);
    }

    pub fn get_de(&self) -> (w: u16)
        ensures
            w == self.de(),
    {
        make_word(self.d, self.e)
    }

    pub fn set_de(&mut self, value: u16)
        ensures
            *final(self) == old(self).with_de(value),
            final(self).de() == value,
    {
        self.d = high_byte(value);
        self.e = low_byte(value);
    }

    pub fn get_hl(&self) -> (w: u16)
        ensures
            w == self.hl(),
    {
        make_word(self.h, self.l)
    }

    pub fn set_hl(&mut self, value: u16)
        ensures
            *final(self) == old(self).with_hl(value),
            final(self).hl() == value,
    {
        self.h = high_byte(value);
        self.l = low_byte(value);
    }
}

/// Every write to AF leaves the low nibble of F at zero, whatever was written.
pub proof fn lemma_af_low_nibble_clear(r: Registers, value: u16)
    ensures
        r.with_af(value).f.byte() % 16 == 0,
        r.with_af(value).af() % 16 == 0,
        r.with_af(value).af() == value - value % 16,
        r.with_af(value).a == high(value),
{
}

} // verus!
