//! The arithmetic unit: each operation as a function from operands and
//! incoming flags to a result and outgoing flags.

use vstd::prelude::*;
use crate::bits::{bit_is_set, clear_bit, set_bit, test_bit, with_bit, without_bit};
use crate::cpu::registers::FlagsRegister;

verus! {

/// What an 8-bit operation produces.
#[derive(Clone, Copy, Debug, PartialEq, Eq, Structural)]
pub struct AluResult {
    pub value: u8,
    pub flags: FlagsRegister,
}

/// What a 16-bit operation produces.
#[derive(Clone, Copy, Debug, PartialEq, Eq, Structural)]
pub struct WideResult {
    pub value: u16,
    pub flags: FlagsRegister,
}

pub open spec fn carry_in(carry: bool) -> int {
    if carry { 1 } else { 0 }
}

/// `a + v + carry`: Z from the 8-bit sum, N clear, H on a carry out of bit 3,
/// C on a carry out of bit 7.
pub open spec fn add_spec(a: u8, v: u8, carry: bool) -> AluResult {
    let sum = a + v + carry_in(carry);
    AluResult {
        value: (sum % 256) as u8,
        flags: FlagsRegister {
            zero: sum % 256 == 0,
            subtract: false,
            half_carry: a % 16 + v % 16 + carry_in(carry) > 15,
            carry: sum > 255,
        },
    }
}

/// `a - v - carry`: Z from the 8-bit difference, N set, H on a borrow into
/// bit 3, C on a borrow into bit 7.
pub open spec fn sub_spec(a: u8, v: u8, carry: bool) -> AluResult {
    let diff = a - v - carry_in(carry);
    AluResult {
        value: (diff % 256) as u8,
        flags: FlagsRegister {
            zero: diff % 256 == 0,
            subtract: true,
            half_carry: a % 16 - v % 16 - carry_in(carry) < 0,
            carry: diff < 0,
        },
    }
}

pub open spec fn and_spec(a: u8, v: u8) -> AluResult {
    AluResult {
        value: a & v,
        flags: FlagsRegister { zero: a & v == 0, subtract: false, half_carry: true, carry: false },
    }
}

pub open spec fn xor_spec(a: u8, v: u8) -> AluResult {
    AluResult {
        value: a ^ v,
        flags: FlagsRegister { zero: a ^ v == 0, subtract: false, half_carry: false, carry: false },
    }
}

pub open spec fn or_spec(a: u8, v: u8) -> AluResult {
    AluResult {
        value: a | v,
        flags: FlagsRegister { zero: a | v == 0, subtract: false, half_carry: false, carry: false },
    }
}

/// `v + 1`; the carry flag is left as it was.
pub open spec fn inc_spec(v: u8, flags: FlagsRegister) -> AluResult {
    AluResult {
        value: ((v + 1) % 256) as u8,
        flags: FlagsRegister {
            zero: v == 255,
            subtract: false,
            half_carry: v % 16 == 15,
            carry: flags.carry,
        },
    }
}

/// `v - 1`; the carry flag is left as it was.
pub open spec fn dec_spec(v: u8, flags: FlagsRegister) -> AluResult {
    AluResult {
        value: ((v - 1) % 256) as u8,
        flags: FlagsRegister {
            zero: v == 1,
            subtract: true,
            half_carry: v % 16 == 0,
            carry: flags.carry,
        },
    }
}

/// The correction that decimal adjust applies to A: 0x00, 0x06, 0x60 or 0x66.
pub open spec fn daa_adjust(a: u8, flags: FlagsRegister) -> int {
    (if flags.half_carry || (!flags.subtract && a % 16 > 9) { 0x06int } else { 0int })
        + (if flags.carry || (!flags.subtract && a > 0x99) { 0x60int } else { 0int })
}

/// Decimal adjust: the correction is subtracted after a subtraction and added
/// otherwise. Z from the result, N kept, H clear, C set when the 0x60
/// correction was applied or C was already set.
pub open spec fn daa_spec(a: u8, flags: FlagsRegister) -> AluResult {
    let adjust = daa_adjust(a, flags);
    let value = if flags.subtract { (a - adjust) % 256 } else { (a + adjust) % 256 };
    AluResult {
        value: value as u8,
        flags: FlagsRegister {
            zero: value == 0,
            subtract: flags.subtract,
            half_carry: false,
            carry: flags.carry || (!flags.subtract && a > 0x99),
        },
    }
}

/// Complement A: N and H set, Z and C kept.
pub open spec fn cpl_spec(a: u8, flags: FlagsRegister) -> AluResult {
    AluResult {
        value: (255 - a) as u8,
        flags: FlagsRegister { subtract: true, half_carry: true, ..flags },
    }
}

/// Set carry: C set, N and H clear, Z kept.
pub open spec fn scf_spec(flags: FlagsRegister) -> FlagsRegister {
    FlagsRegister { subtract: false, half_carry: false, carry: true, ..flags }
}

/// Complement carry: C toggled, N and H clear, Z kept.
pub open spec fn ccf_spec(flags: FlagsRegister) -> FlagsRegister {
    FlagsRegister { subtract: false, half_carry: false, carry: !flags.carry, ..flags }
}

pub open spec fn shift_flags(value: int, carry: bool) -> FlagsRegister {
    FlagsRegister { zero: value == 0, subtract: false, half_carry: false, carry }
}

/// Rotate left; bit 7 goes to bit 0 and to C.
pub open spec fn rlc_spec(v: u8) -> AluResult {
    let value = (v * 2) % 256 + v / 128;
    AluResult { value: value as u8, flags: shift_flags(value, v >= 128) }
}

/// Rotate right; bit 0 goes to bit 7 and to C.
pub open spec fn rrc_spec(v: u8) -> AluResult {
    let value = v / 2 + (v % 2) * 128;
    AluResult { value: value as u8, flags: shift_flags(value, v % 2 == 1) }
}

/// Rotate left through carry; C goes to bit 0 and bit 7 to C.
pub open spec fn rl_spec(v: u8, carry: bool) -> AluResult {
    let value = (v * 2) % 256 + carry_in(carry);
    AluResult { value: value as u8, flags: shift_flags(value, v >= 128) }
}

/// Rotate right through carry; C goes to bit 7 and bit 0 to C.
pub open spec fn rr_spec(v: u8, carry: bool) -> AluResult {
    let value = v / 2 + carry_in(carry) * 128;
    AluResult { value: value as u8, flags: shift_flags(value, v % 2 == 1) }
}

/// Shift left; bit 7 goes to C and bit 0 becomes 0.
pub open spec fn sla_spec(v: u8) -> AluResult {
    let value = (v * 2) % 256;
    AluResult { value: value as u8, flags: shift_flags(value, v >= 128) }
}

/// Arithmetic shift right; bit 7 is kept and bit 0 goes to C.
pub open spec fn sra_spec(v: u8) -> AluResult {
    let value = v / 2 + (v / 128) * 128;
    AluResult { value: value as u8, flags: shift_flags(value, v % 2 == 1) }
}

/// Exchange the two nibbles; C clear.
pub open spec fn swap_spec(v: u8) -> AluResult {
    let value = (v % 16) * 16 + v / 16;
    AluResult { value: value as u8, flags: shift_flags(value, false) }
}

/// Logical shift right; bit 7 becomes 0 and bit 0 goes to C.
pub open spec fn srl_spec(v: u8) -> AluResult {
    let value = (v / 2) as int;
    AluResult { value: value as u8, flags: shift_flags(value, v % 2 == 1) }
}

/// The accumulator forms of the rotates clear Z whatever the result.
pub open spec fn clear_zero(r: AluResult) -> AluResult {
    AluResult { value: r.value, flags: FlagsRegister { zero: false, ..r.flags } }
}

/// `BIT n`: Z set when the bit is clear, N clear, H set, C kept.
pub open spec fn bit_spec(v: u8, n: u8, flags: FlagsRegister) -> FlagsRegister {
    FlagsRegister { zero: !bit_is_set(v, n), subtract: false, half_carry: true, carry: flags.carry }
}

pub open spec fn res_spec(v: u8, n: u8) -> u8 {
    without_bit(v, n)
}

pub open spec fn set_spec(v: u8, n: u8) -> u8 {
    with_bit(v, n)
}

/// `HL + v`: Z kept, N clear, H on a carry out of bit 11, C on a carry out of
/// bit 15.
pub open spec fn add16_spec(hl: u16, v: u16, flags: FlagsRegister) -> WideResult {
    WideResult {
        value: ((hl + v) % 0x10000) as u16,
        flags: FlagsRegister {
            zero: flags.zero,
            subtract: false,
            half_carry: hl % 0x1000 + v % 0x1000 > 0x0FFF,
            carry: hl + v > 0xFFFF,
        },
    }
}

/// The value of a byte read as a two's-complement number.
pub open spec fn signed(n: u8) -> int {
    if n >= 128 { n - 256 } else { n as int }
}

/// `base + signed(n)`, wrapped to 16 bits.
pub open spec fn offset_spec(base: u16, n: u8) -> u16 {
    ((base + signed(n)) % 0x10000) as u16
}

/// `SP + signed(n)`: Z and N clear; H and C come from adding the unsigned
/// byte to the low byte of SP.
pub open spec fn add_sp_spec(sp: u16, n: u8) -> WideResult {
    WideResult {
        value: offset_spec(sp, n),
        flags: FlagsRegister {
            zero: false,
            subtract: false,
            half_carry: sp % 16 + n % 16 > 15,
            carry: sp % 256 + n > 255,
        },
    }
}

pub fn alu_add(a: u8, v: u8, carry: bool) -> (r: AluResult)
    ensures
        r == add_spec(a, v, carry),
{
    let c: u16 = if carry { 1 } else { 0 };
    let sum: u16 = (a as u16) + (v as u16) + c;
    let value: u8 = (sum % 256) as u8;
    AluResult {
        value,
        flags: FlagsRegister {
            zero: value == 0,
            subtract: false,
            half_carry: ((a % 16) as u16) + ((v % 16) as u16) + c > 15,
            carry: sum > 255,
        },
    }
}

pub fn alu_sub(a: u8, v: u8, carry: bool) -> (r: AluResult)
    ensures
        r == sub_spec(a, v, carry),
{
    let c: u16 = if carry { 1 } else { 0 };
    let take: u16 = (v as u16) + c;
    let borrow: bool = (a as u16) < take;
    let wide: u16 = if borrow { (a as u16) + 256 - take } else { (a as u16) - take };
    let value: u8 = wide as u8;
    AluResult {
        value,
        flags: FlagsRegister {
            zero: value == 0,
            subtract: true,
            half_carry: ((a % 16) as u16) < ((v % 16) as u16) + c,
            carry: borrow,
        },
    }
}

pub fn alu_and(a: u8, v: u8) -> (r: AluResult)
    ensures
        r == and_spec(a, v),
{
    let value: u8 = a & v;
    AluResult {
        value,
        flags: FlagsRegister { zero: value == 0, subtract: false, half_carry: true, carry: false },
    }
}

pub fn alu_xor(a: u8, v: u8) -> (r: AluResult)
    ensures
        r == xor_spec(a, v),
{
    let value: u8 = a ^ v;
    AluResult {
        value,
        flags: FlagsRegister { zero: value == 0, subtract: false, half_carry: false, carry: false },
    }
}

pub fn alu_or(a: u8, v: u8) -> (r: AluResult)
    ensures
        r == or_spec(a, v),
{
    let value: u8 = a | v;
    AluResult {
        value,
        flags: FlagsRegister { zero: value == 0, subtract: false, half_carry: false, carry: false },
    }
}

pub fn alu_inc(v: u8, flags: FlagsRegister) -> (r: AluResult)
    ensures
        r == inc_spec(v, flags),
{
    let value: u8 = if v == 255 { 0 } else { v + 1 };
    AluResult {
        value,
        flags: FlagsRegister {
            zero: value == 0,
            subtract: false,
            half_carry: v % 16 == 15,
            carry: flags.carry,
        },
    }
}

pub fn alu_dec(v: u8, flags: FlagsRegister) -> (r: AluResult)
    ensures
        r == dec_spec(v, flags),
{
    let value: u8 = if v == 0 { 255 } else { v - 1 };
    AluResult {
        value,
        flags: FlagsRegister {
            zero: value == 0,
            subtract: true,
            half_carry: v % 16 == 0,
            carry: flags.carry,
        },
    }
}

pub fn alu_daa(a: u8, flags: FlagsRegister) -> (r: AluResult)
    ensures
        r == daa_spec(a, flags),
{
    let mut adjust: u16 = 0;
    if flags.half_carry || (!flags.subtract && a % 16 > 9) {
        adjust = adjust + 0x06;
    }
    if flags.carry || (!flags.subtract && a > 0x99) {
        adjust = adjust + 0x60;
    }
    let wide: u16 = if flags.subtract {
        ((a as u16) + 256 - adjust) % 256
    } else {
        ((a as u16) + adjust) % 256
    };
    let value: u8 = wide as u8;
    AluResult {
        value,
        flags: FlagsRegister {
            zero: value == 0,
            subtract: flags.subtract,
            half_carry: false,
            carry: flags.carry || (!flags.subtract && a > 0x99),
        },
    }
}

pub fn alu_cpl(a: u8, flags: FlagsRegister) -> (r: AluResult)
    ensures
        r == cpl_spec(a, flags),
{
    AluResult {
        value: 255 - a,
        flags: FlagsRegister {
            zero: flags.zero,
            subtract: true,
            half_carry: true,
            carry: flags.carry,
        },
    }
}

fn shifted(value: u8, carry: bool) -> (r: AluResult)
    ensures
        r == (AluResult { value, flags: shift_flags(value as int, carry) }),
{
    AluResult {
        value,
        flags: FlagsRegister { zero: value == 0, subtract: false, half_carry: false, carry },
    }
}

pub fn alu_rlc(v: u8) -> (r: AluResult)
    ensures
        r == rlc_spec(v),
{
    shifted((v % 128) * 2 + v / 128, v >= 128)
}

pub fn alu_rrc(v: u8) -> (r: AluResult)
    ensures
        r == rrc_spec(v),
{
    shifted(v / 2 + (v % 2) * 128, v % 2 == 1)
}

pub fn alu_rl(v: u8, carry: bool) -> (r: AluResult)
    ensures
        r == rl_spec(v, carry),
{
    let c: u8 = if carry { 1 } else { 0 };
    shifted((v % 128) * 2 + c, v >= 128)
}

pub fn alu_rr(v: u8, carry: bool) -> (r: AluResult)
    ensures
        r == rr_spec(v, carry),
{
    let c: u8 = if carry { 128 } else { 0 };
    shifted(v / 2 + c, v % 2 == 1)
}

pub fn alu_sla(v: u8) -> (r: AluResult)
    ensures
        r == sla_spec(v),
{
    shifted((v % 128) * 2, v >= 128)
}

pub fn alu_sra(v: u8) -> (r: AluResult)
    ensures
        r == sra_spec(v),
{
    shifted(v / 2 + (v / 128) * 128, v % 2 == 1)
}

pub fn alu_swap(v: u8) -> (r: AluResult)
    ensures
        r == swap_spec(v),
{
    shifted((v % 16) * 16 + v / 16, false)
}

pub fn alu_srl(v: u8) -> (r: AluResult)
    ensures
        r == srl_spec(v),
{
    shifted(v / 2, v % 2 == 1)
}

pub fn alu_bit(v: u8, n: u8, flags: FlagsRegister) -> (f: FlagsRegister)
    ensures
        f == bit_spec(v, n, flags),
{
    FlagsRegister { zero: !test_bit(v, n), subtract: false, half_carry: true, carry: flags.carry }
}

pub fn alu_res(v: u8, n: u8) -> (r: u8)
    ensures
        r == res_spec(v, n),
{
    clear_bit(v, n)
}

pub fn alu_set(v: u8, n: u8) -> (r: u8)
    ensures
        r == set_spec(v, n),
{
    set_bit(v, n)
}

pub fn alu_add16(hl: u16, v: u16, flags: FlagsRegister) -> (r: WideResult)
    ensures
        r == add16_spec(hl, v, flags),
{
    let sum: u32 = (hl as u32) + (v as u32);
    WideResult {
        value: (sum % 0x10000) as u16,
        flags: FlagsRegister {
            zero: flags.zero,
            subtract: false,
            half_carry: ((hl % 0x1000) as u32) + ((v % 0x1000) as u32) > 0x0FFF,
            carry: sum > 0xFFFF,
        },
    }
}

pub fn add_offset(base: u16, n: u8) -> (r: u16)
    ensures
        r == offset_spec(base, n),
{
    let wide: u32 = if n >= 128 {
        (base as u32) + 0x10000 - (256 - (n as u32))
    } else {
        (base as u32) + (n as u32)
    };
    (wide % 0x10000) as u16
}

pub fn alu_add_sp(sp: u16, n: u8) -> (r: WideResult)
    ensures
        r == add_sp_spec(sp, n),
{
    WideResult {
        value: add_offset(sp, n),
        flags: FlagsRegister {
            zero: false,
            subtract: false,
            half_carry: (sp % 16) + ((n % 16) as u16) > 15,
            carry: (sp % 256) + (n as u16) > 255,
        },
    }
}

} // verus!
