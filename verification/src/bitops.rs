//! The keyed 64-bit mixing primitive used by the cipher and the handshake,
//! together with the XOR facts that the tamper-evidence proofs rest on.

use vstd::prelude::*;

verus! {

/// Multiplier of the mixing step; an odd 64-bit constant.
pub const MIX_MULTIPLIER: u64 = 0x9e3779b97f4a7c15;

/// One round of 64-bit mixing: fold the high bits down, then multiply
/// (wrapping) by an odd constant.
pub open spec fn spec_mix64(x: u64) -> u64 {
    vstd::wrapping::u64_specs::wrapping_mul(x ^ (x >> 33), MIX_MULTIPLIER)
}

/// Executable counterpart of [`spec_mix64`].
pub fn mix64(x: u64) -> (r: u64)
    ensures
        r == spec_mix64(x),
{
    (x ^ (x >> 33)).wrapping_mul(MIX_MULTIPLIER)
}

/// XOR on `u64` is commutative and associative, and `0` is its unit.
pub proof fn lemma_xor64_algebra(a: u64, b: u64, c: u64)
    by (bit_vector)
    ensures
        a ^ b == b ^ a,
        (a ^ b) ^ c == a ^ (b ^ c),
        a ^ 0 == a,
        a ^ a == 0,
{
}

/// XOR with a fixed left operand is injective.
pub proof fn lemma_xor64_cancel(a: u64, b: u64, c: u64)
    by (bit_vector)
    requires
        b != c,
    ensures
        a ^ b != a ^ c,
{
}

/// XOR on bytes undoes itself: masking twice with the same key byte is the
/// identity.
pub proof fn lemma_xor8_involution(p: u8, k: u8)
    by (bit_vector)
    ensures
        (p ^ k) ^ k == p,
{
}

/// Changing a byte by a non-zero mask changes the byte.
pub proof fn lemma_xor8_flip(b: u8, m: u8)
    by (bit_vector)
    requires
        m != 0,
    ensures
        b ^ m != b,
{
}

/// A byte value shifted into one of the eight lanes of a 64-bit word is
/// non-zero when the byte is.
pub proof fn lemma_lane_nonzero(b: u64, k: u64)
    by (bit_vector)
    requires
        b != 0,
        b < 256,
        k <= 56,
    ensures
        b << k != 0,
{
}

/// Shifting into a lane distributes over XOR.
pub proof fn lemma_lane_xor(x: u64, y: u64, k: u64)
    by (bit_vector)
    requires
        x < 256,
        y < 256,
        k <= 56,
    ensures
        (x << k) ^ (y << k) == (x ^ y) << k,
{
}

/// Casting XOR of bytes up to 64 bits commutes with XOR of the casts.
pub proof fn lemma_cast_xor8(x: u8, y: u8)
    by (bit_vector)
    ensures
        ((x ^ y) as u64) == (x as u64) ^ (y as u64),
        (x as u64) < 256,
{
}

} // verus!
