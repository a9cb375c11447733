//! Single-point perturbations of a bit pattern: one bit flipped, the rest
//! kept, so that a mutant stays next to the input it came from.
use vstd::prelude::*;

verus! {

/// Bit `i` of a 32-bit pattern.
pub open spec fn bit32(x: u32, i: u32) -> bool {
    (x >> i) & 1 == 1
}

/// Bit `i` of a 64-bit pattern.
pub open spec fn bit64(x: u64, i: u64) -> bool {
    (x >> i) & 1 == 1
}

/// The pattern `bits` with bit `bit` flipped.
pub open spec fn flipped32(bits: u32, bit: u32) -> u32 {
    bits ^ (1u32 << bit)
}

/// The pattern `bits` with bit `bit` flipped.
pub open spec fn flipped64(bits: u64, bit: u64) -> u64 {
    bits ^ (1u64 << bit)
}

/// Flips bit `bit` (0 is the least significant) of a 32-bit pattern.
/// The result differs from `bits` in that bit and in no other.
pub fn flip_bit32(bits: u32, bit: u32) -> (r: u32)
    requires
        bit < 32,
    ensures
        r == flipped32(bits, bit),
        forall|i: u32| i < 32 ==> (bit32(r, i) != bit32(bits, i) <==> i == bit),
{
    let r = bits ^ (1u32 << bit);
    assert forall|i: u32| i < 32 implies (bit32(r, i) != bit32(bits, i) <==> i == bit) by {
        assert((((bits ^ (1u32 << bit)) >> i) & 1 == 1) != ((bits >> i) & 1 == 1) <==> i == bit)
            by (bit_vector)
            requires
                bit < 32,
                i < 32,
        ;
    }
    r
}

/// Flips bit `bit` (0 is the least significant) of a 64-bit pattern.
/// The result differs from `bits` in that bit and in no other.
pub fn flip_bit64(bits: u64, bit: u64) -> (r: u64)
    requires
        bit < 64,
    ensures
        r == flipped64(bits, bit),
        forall|i: u64| i < 64 ==> (bit64(r, i) != bit64(bits, i) <==> i == bit),
{
    let r = bits ^ (1u64 << bit);
    assert forall|i: u64| i < 64 implies (bit64(r, i) != bit64(bits, i) <==> i == bit) by {
        assert((((bits ^ (1u64 << bit)) >> i) & 1 == 1) != ((bits >> i) & 1 == 1) <==> i == bit)
            by (bit_vector)
            requires
                bit < 64,
                i < 64,
        ;
    }
    r
}

/// Flipping the same bit twice gives the pattern back, so every mutant can
/// be undone by the mutation that made it.
pub proof fn flip_twice32(bits: u32, bit: u32)
    requires
        bit < 32,
    ensures
        flipped32(flipped32(bits, bit), bit) == bits,
{
    assert((bits ^ (1u32 << bit)) ^ (1u32 << bit) == bits) by (bit_vector);
}

/// Flipping the same bit twice gives the pattern back, so every mutant can
/// be undone by the mutation that made it.
pub proof fn flip_twice64(bits: u64, bit: u64)
    requires
        bit < 64,
    ensures
        flipped64(flipped64(bits, bit), bit) == bits,
{
    assert((bits ^ (1u64 << bit)) ^ (1u64 << bit) == bits) by (bit_vector);
}

} // verus!
