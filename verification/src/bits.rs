//! Facts about the fixed-width shifts used by the fixed-point formulas.
//!
//! An arithmetic right shift by `k` is floor division by `2^k`; a left shift
//! by `k` of a value small enough not to lose bits is multiplication by `2^k`.

use vstd::prelude::*;

verus! {

/// Right shifts of an `i32` as floor division.
pub proof fn lemma_i32_shr(x: i32)
    ensures
        x >> 3i32 == x / 8,
        x >> 4i32 == x / 16,
        x >> 7i32 == x / 128,
        x >> 8i32 == x / 256,
        x >> 10i32 == x / 1024,
        x >> 11i32 == x / 2048,
        x >> 12i32 == x / 4096,
        x >> 14i32 == x / 16384,
        x >> 15i32 == x / 32768,
{
    assert(x >> 3i32 == x / 8 && x >> 4i32 == x / 16 && x >> 7i32 == x / 128 && x >> 8i32 == x
        / 256 && x >> 10i32 == x / 1024 && x >> 11i32 == x / 2048 && x >> 12i32 == x / 4096 && x
        >> 14i32 == x / 16384 && x >> 15i32 == x / 32768) by (bit_vector);
}

} // verus!

verus! {

/// Left shifts of an `i32` whose result keeps all its bits.
pub proof fn lemma_i32_shl(x: i32)
    ensures
        -0x4000_0000 <= x < 0x4000_0000 ==> x << 1i32 == x * 2,
        -0x2_0000 <= x < 0x2_0000 ==> x << 14i32 == x * 16384,
        -0x800 <= x < 0x800 ==> x << 20i32 == x * 0x10_0000,
{
    assert((-0x4000_0000 <= x < 0x4000_0000 ==> x << 1i32 == x * 2) && (-0x2_0000 <= x < 0x2_0000
        ==> x << 14i32 == x * 16384) && (-0x800 <= x < 0x800 ==> x << 20i32 == x * 0x10_0000))
        by (bit_vector);
}

} // verus!

verus! {

/// Right shifts of an `i64` as floor division.
pub proof fn lemma_i64_shr(x: i64)
    ensures
        x >> 8i32 == x / 256,
        x >> 13i32 == x / 8192,
        x >> 19i32 == x / 0x8_0000,
        x >> 25i32 == x / 0x200_0000,
        x >> 33i32 == x / 0x2_0000_0000,
{
    assert(x >> 8i32 == x / 256 && x >> 13i32 == x / 8192 && x >> 19i32 == x / 0x8_0000 && x
        >> 25i32 == x / 0x200_0000 && x >> 33i32 == x / 0x2_0000_0000) by (bit_vector);
}

/// Left shifts of an `i64` whose result keeps all its bits.
pub proof fn lemma_i64_shl(x: i64)
    ensures
        -0x100_0000_0000 <= x < 0x100_0000_0000 ==> x << 4i32 == x * 16,
        -0x100_0000_0000 <= x < 0x100_0000_0000 ==> x << 12i32 == x * 4096,
        -0x100_0000_0000 <= x < 0x100_0000_0000 ==> x << 17i32 == x * 0x2_0000,
        -0x4000_0000 <= x < 0x4000_0000 ==> x << 31i32 == x * 0x8000_0000,
        -0x800_0000 <= x < 0x800_0000 ==> x << 35i32 == x * 0x8_0000_0000,
        1i64 << 47i32 == 0x8000_0000_0000,
{
    assert(-0x100_0000_0000 <= x < 0x100_0000_0000 ==> x << 4i32 == x * 16 && x << 12i32 == x
        * 4096 && x << 17i32 == x * 0x2_0000) by (bit_vector);
    assert(-0x4000_0000 <= x < 0x4000_0000 ==> x << 31i32 == x * 0x8000_0000) by (bit_vector);
    assert(-0x800_0000 <= x < 0x800_0000 ==> x << 35i32 == x * 0x8_0000_0000) by (bit_vector);
    assert(1i64 << 47i32 == 0x8000_0000_0000) by (bit_vector);
}

/// A bound on a product from bounds on its factors.
pub proof fn lemma_mul_magnitude(a: int, b: int, ba: int, bb: int)
    by (nonlinear_arith)
    requires
        -ba <= a <= ba,
        -bb <= b <= bb,
    ensures
        -(ba * bb) <= a * b <= ba * bb,
{
}

} // verus!

verus! {

/// Right shift of a `u64` by 22 as division.
pub proof fn lemma_u64_shr_22(x: u64)
    ensures
        x >> 22i32 == x / 0x40_0000,
{
    assert(x >> 22i32 == x / 0x40_0000) by (bit_vector);
}

} // verus!

verus! {

/// The shift-and-or packing of a 20-bit sample.
pub proof fn lemma_adc20_packing(b0: u8, b1: u8, b2: u8)
    ensures
        ((b0 as i32) << 12i32) | ((b1 as i32) << 4i32) | ((b2 as i32) >> 4i32) == b0 * 4096 + b1
            * 16 + b2 / 16,
{
    assert(((b0 as i32) << 12i32) | ((b1 as i32) << 4i32) | ((b2 as i32) >> 4i32) == b0 * 4096
        + b1 * 16 + b2 / 16) by (bit_vector);
}

/// The shift-and-or packing of a 16-bit sample.
pub proof fn lemma_adc16_packing(b0: u8, b1: u8)
    ensures
        ((b0 as i32) << 8i32) | (b1 as i32) == b0 * 256 + b1,
{
    assert(((b0 as i32) << 8i32) | (b1 as i32) == b0 * 256 + b1) by (bit_vector);
}

} // verus!
