//! Fixed-layout, versionless binary records.
//!
//! Each record type is an explicit fixed-width little-endian codec over a raw
//! byte buffer; decoding enforces the exact declared size and encoding
//! reproduces the buffer byte for byte.
use vstd::prelude::*;
use vstd::bytes::{spec_u64_from_le_bytes, spec_u64_to_le_bytes};

pub mod contributor;
pub mod fundraise;

verus! {

/// The two's-complement bit pattern of a signed 64-bit value, as the unsigned
/// value that shares its little-endian byte encoding.
pub open spec fn i64_bits(x: i64) -> u64 {
    if x >= 0 {
        x as u64
    } else {
        (x + 0x1_0000_0000_0000_0000) as u64
    }
}

/// The signed 64-bit value whose two's-complement bit pattern is `u`.
pub open spec fn i64_from_bits(u: u64) -> i64 {
    if u < 0x8000_0000_0000_0000 {
        u as i64
    } else {
        (u - 0x1_0000_0000_0000_0000) as i64
    }
}

/// The little-endian encoding of a signed 64-bit value.
pub open spec fn spec_i64_to_le_bytes(x: i64) -> Seq<u8> {
    spec_u64_to_le_bytes(i64_bits(x))
}

/// The signed 64-bit value encoded little-endian in `s`.
pub open spec fn spec_i64_from_le_bytes(s: Seq<u8>) -> i64 {
    i64_from_bits(spec_u64_from_le_bytes(s))
}

/// The two bit-pattern conversions invert each other.
pub proof fn lemma_i64_bits_roundtrip(x: i64, u: u64)
    ensures
        i64_from_bits(i64_bits(x)) == x,
        i64_bits(i64_from_bits(u)) == u,
{
}

/// The unsigned value sharing the little-endian byte encoding of `x`.
pub fn i64_to_bits(x: i64) -> (r: u64)
    ensures
        r == i64_bits(x),
{
    if x >= 0 {
        x as u64
    } else {
        let m: u64 = (-(x + 1)) as u64;
        u64::MAX - m
    }
}

/// The signed value whose two's-complement bit pattern is `u`.
pub fn i64_of_bits(u: u64) -> (r: i64)
    ensures
        r == i64_from_bits(u),
{
    if u < 0x8000_0000_0000_0000 {
        u as i64
    } else {
        let m: u64 = u64::MAX - u;
        -(m as i64) - 1
    }
}

/// Appends every byte of `src` to `dst` in order.
pub fn push_bytes(dst: &mut Vec<u8>, src: &[u8])
    ensures
        final(dst)@ == old(dst)@ + src@,
{
    let mut i: usize = 0;
    while i < src.len()
        invariant
            i <= src@.len(),
            dst@ == old(dst)@ + src@.subrange(0, i as int),
        decreases src@.len() - i,
    {
        dst.push(src[i]);
        i += 1;
        proof {
            assert(dst@ =~= old(dst)@ + src@.subrange(0, i as int));
        }
    }
    proof {
        assert(dst@ =~= old(dst)@ + src@);
    }
}

/// A record type addressed under a fixed seed label.
pub trait Prefix {
    /// The seed label under which this record type's addresses are derived.
    spec fn prefix_spec() -> Seq<u8>;

    /// The seed label, as bytes.
    fn prefix() -> (r: Vec<u8>)
        ensures
            r@ == Self::prefix_spec(),
    ;
}

/// A record type with a fixed encoded size.
pub trait Space {
    /// The exact byte length of an encoded record.
    spec fn len_spec() -> int;

    /// The exact byte length of an encoded record.
    fn len() -> (r: usize)
        ensures
            r == Self::len_spec(),
    ;
}

/// A record type whose contents can be set in one step from a parameter
/// bundle when the record account is first created.
pub trait SetInner: Sized {
    type Params;

    /// The record value that the parameter bundle describes.
    spec fn inner_from(params: Self::Params) -> Self;

    /// Overwrites the record with the value the parameters describe.
    fn set_inner(&mut self, params: Self::Params)
        ensures
            *final(self) == Self::inner_from(params),
    ;
}

} // verus!
