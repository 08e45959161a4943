//! Single bits of a byte, by arithmetic.

use vstd::prelude::*;

verus! {

/// The byte with only bit `n` set, for `n` in 0..8.
pub open spec fn bit_mask(n: u8) -> u8 {
    if n == 0 {
        1
    } else if n == 1 {
        2
    } else if n == 2 {
        4
    } else if n == 3 {
        8
    } else if n == 4 {
        16
    } else if n == 5 {
        32
    } else if n == 6 {
        64
    } else {
        128
    }
}

/// Whether bit `n` of `v` is set.
pub open spec fn bit_is_set(v: u8, n: u8) -> bool {
    (v / bit_mask(n)) % 2 == 1
}

/// Bit `n` of `v` as 0 or 1.
pub open spec fn bit_value(v: u8, n: u8) -> u8 {
    if bit_is_set(v, n) {
        1
    } else {
        0
    }
}

/// `v` with bit `n` set.
pub open spec fn with_bit(v: u8, n: u8) -> u8 {
    if bit_is_set(v, n) {
        v
    } else {
        (v + bit_mask(n)) as u8
    }
}

/// `v` with bit `n` cleared.
pub open spec fn without_bit(v: u8, n: u8) -> u8 {
    if bit_is_set(v, n) {
        (v - bit_mask(n)) as u8
    } else {
        v
    }
}

pub fn mask_of(n: u8) -> (m: u8)
    ensures
        m == bit_mask(n),
        m >= 1,
{
    if n == 0 {
        1
    } else if n == 1 {
        2
    } else if n == 2 {
        4
    } else if n == 3 {
        8
    } else if n == 4 {
        16
    } else if n == 5 {
        32
    } else if n == 6 {
        64
    } else {
        128
    }
}

pub fn test_bit(v: u8, n: u8) -> (b: bool)
    ensures
        b == bit_is_set(v, n),
{
    (v / mask_of(n)) % 2 == 1
}

/// A set bit weighs at most the byte, and a clear bit leaves room for its
/// weight.
pub proof fn lemma_bit_weight(v: u8, n: u8)
    ensures
        bit_is_set(v, n) ==> v >= bit_mask(n),
        !bit_is_set(v, n) ==> v + bit_mask(n) <= 255,
{
    if n == 0 {
    } else if n == 1 {
    } else if n == 2 {
    } else if n == 3 {
    } else if n == 4 {
    } else if n == 5 {
    } else if n == 6 {
    } else {
    }
}

pub fn set_bit(v: u8, n: u8) -> (r: u8)
    ensures
        r == with_bit(v, n),
{
    proof {
        lemma_bit_weight(v, n);
    }
    if test_bit(v, n) {
        v
    } else {
        v + mask_of(n)
    }
}

pub fn clear_bit(v: u8, n: u8) -> (r: u8)
    ensures
        r == without_bit(v, n),
{
    proof {
        lemma_bit_weight(v, n);
    }
    if test_bit(v, n) {
        v - mask_of(n)
    } else {
        v
    }
}

/// Setting a bit sets it and clearing a bit clears it.
pub proof fn lemma_bit_after_change(v: u8, n: u8)
    ensures
        bit_is_set(with_bit(v, n), n),
        !bit_is_set(without_bit(v, n), n),
{
    lemma_bit_weight(v, n);
    if n == 0 {
        assert((v as int + 1) / 1 == v as int / 1 + 1);
        assert(v >= 1 ==> (v as int - 1) / 1 == v as int / 1 - 1);
    } else if n == 1 {
        assert((v as int + 2) / 2 == v as int / 2 + 1);
        assert(v >= 2 ==> (v as int - 2) / 2 == v as int / 2 - 1);
    } else if n == 2 {
        assert((v as int + 4) / 4 == v as int / 4 + 1);
        assert(v >= 4 ==> (v as int - 4) / 4 == v as int / 4 - 1);
    } else if n == 3 {
        assert((v as int + 8) / 8 == v as int / 8 + 1);
        assert(v >= 8 ==> (v as int - 8) / 8 == v as int / 8 - 1);
    } else if n == 4 {
        assert((v as int + 16) / 16 == v as int / 16 + 1);
        assert(v >= 16 ==> (v as int - 16) / 16 == v as int / 16 - 1);
    } else if n == 5 {
        assert((v as int + 32) / 32 == v as int / 32 + 1);
        assert(v >= 32 ==> (v as int - 32) / 32 == v as int / 32 - 1);
    } else if n == 6 {
        assert((v as int + 64) / 64 == v as int / 64 + 1);
        assert(v >= 64 ==> (v as int - 64) / 64 == v as int / 64 - 1);
    } else {
        assert((v as int + 128) / 128 == v as int / 128 + 1);
        assert(v >= 128 ==> (v as int - 128) / 128 == v as int / 128 - 1);
    }
}

} // verus!
