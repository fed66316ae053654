//! Byte-level encoding rules for the numeric variants.
//!
//! Every fixed-width variant is laid out least-significant byte first, the
//! byte order of the platforms this crate targets, so the encoding is a
//! pure function of the value alone.

use vstd::prelude::*;
use vstd::bytes::{spec_u64_from_le_bytes, spec_u64_to_le_bytes, lemma_auto_spec_u64_to_from_le_bytes};

verus! {

/// The byte encoding of a 64-bit signed integer: its two's-complement bit
/// pattern, least-significant byte first.
pub open spec fn int_bytes(n: i64) -> Seq<u8> {
    spec_u64_to_le_bytes(n as u64)
}

/// Encode a 64-bit signed integer as its 8-byte two's-complement form,
/// least-significant byte first.
pub fn int_to_endian(n: i64) -> (r: Vec<u8>)
    ensures
        r@ == int_bytes(n),
        r@.len() == 8,
{
    proof {
        lemma_auto_spec_u64_to_from_le_bytes();
    }
    vstd::bytes::u64_to_le_bytes(n as u64)
}

/// Encode a 64-bit IEEE-754 double, given by its bit pattern, as its
/// 8-byte form, least-significant byte first.
pub fn float_to_endian(bits: u64) -> (r: Vec<u8>)
    ensures
        r@ == spec_u64_to_le_bytes(bits),
        r@.len() == 8,
{
    proof {
        lemma_auto_spec_u64_to_from_le_bytes();
    }
    vstd::bytes::u64_to_le_bytes(bits)
}

/// Reading the 8 bytes of `int_bytes(n)` back as a little-endian word
/// recovers `n` exactly.
pub proof fn lemma_int_bytes_round_trip(n: i64)
    ensures
        int_bytes(n).len() == 8,
        spec_u64_from_le_bytes(int_bytes(n)) == n as u64,
        (n as u64) as i64 == n,
{
    lemma_auto_spec_u64_to_from_le_bytes();
    assert((n as u64) as i64 == n) by (bit_vector);
}

} // verus!
