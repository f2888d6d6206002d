use vstd::prelude::*;

verus! {

/// Number of distinct 16-bit words.
pub const WORD_RANGE: u32 = 65536;

/// The bits `w..16` all set, as a 16-bit word (zero when `w == 16`).
pub open spec fn high_mask(w: u8) -> u16 {
    if w < 16 {
        (0xFFFFu16 << w) as u16
    } else {
        0
    }
}

/// Bit `w - 1` of `x`, the sign bit of a `w`-bit field.
pub open spec fn field_sign(x: u16, w: u8) -> bool {
    (x >> ((w - 1) as u8)) & 1 == 1
}

/// `x` read as a `w`-bit two's-complement field and widened to 16 bits.
pub open spec fn sext(x: u16, w: u8) -> u16 {
    if field_sign(x, w) {
        x | high_mask(w)
    } else {
        x
    }
}

/// Addition modulo 2^16.
pub open spec fn wadd(a: u16, b: u16) -> u16 {
    ((a as int + b as int) % (WORD_RANGE as int)) as u16
}

/// Replicates bit `bit_count - 1` of `x` into the bits above it.
pub fn sign_extend(x: u16, bit_count: u8) -> (r: u16)
    requires
        1 <= bit_count <= 16,
    ensures
        r == sext(x, bit_count),
{
    let t: u16 = (x >> (bit_count - 1)) & 1;
    assert(t != 0 <==> t == 1) by (bit_vector)
        requires
            t == (x >> ((bit_count - 1) as u8)) & 1,
    ;
    if t != 0 {
        if bit_count < 16 {
            x | (0xFFFFu16 << bit_count)
        } else {
            assert(x | 0 == x) by (bit_vector);
            x
        }
    } else {
        x
    }
}

/// Adds two words, wrapping modulo 2^16.
pub fn add_words(a: u16, b: u16) -> (r: u16)
    ensures
        r == wadd(a, b),
{
    let s: u32 = a as u32 + b as u32;
    (s % WORD_RANGE) as u16
}

} // verus!
