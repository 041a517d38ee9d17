//! Byte-level helpers: equality and byte-lexicographic order on 32-byte
//! values, and the little-endian encoding of 64-bit integers. These fix, in
//! executable code with exact contracts, the byte conventions that the
//! commitment scheme depends on.

use vstd::prelude::*;

verus! {

/// Byte-lexicographic order: `a` is less than or equal to `b`, comparing byte
/// by byte, a strict prefix coming first.
pub open spec fn lex_le(a: Seq<u8>, b: Seq<u8>) -> bool
    decreases a.len(),
{
    if a.len() == 0 {
        true
    } else if b.len() == 0 {
        false
    } else if a[0] < b[0] {
        true
    } else if a[0] > b[0] {
        false
    } else {
        lex_le(a.skip(1), b.skip(1))
    }
}

/// The little-endian bytes of a 64-bit integer, lowest byte first.
pub open spec fn u64_le_bytes(x: u64) -> Seq<u8> {
    seq![
        (x & 0xff) as u8,
        ((x >> 8) & 0xff) as u8,
        ((x >> 16) & 0xff) as u8,
        ((x >> 24) & 0xff) as u8,
        ((x >> 32) & 0xff) as u8,
        ((x >> 40) & 0xff) as u8,
        ((x >> 48) & 0xff) as u8,
        ((x >> 56) & 0xff) as u8,
    ]
}

/// Whether two 32-byte values hold the same bytes.
pub fn bytes32_eq(a: &[u8; 32], b: &[u8; 32]) -> (r: bool)
    ensures
        r == (a@ == b@),
{
    let mut i: usize = 0;
    while i < 32
        invariant
            i <= 32,
            forall|j: int| 0 <= j < i ==> a@[j] == b@[j],
        decreases 32 - i,
    {
        if a[i] != b[i] {
            return false;
        }
        i += 1;
    }
    proof {
        assert(a@ =~= b@);
    }
    true
}

/// Decides the byte-lexicographic order of two 32-byte values.
pub fn lex_le_32(a: &[u8; 32], b: &[u8; 32]) -> (r: bool)
    ensures
        r == lex_le(a@, b@),
{
    proof {
        assert(a@.skip(0) =~= a@);
        assert(b@.skip(0) =~= b@);
    }
    let mut i: usize = 0;
    while i < 32
        invariant
            i <= 32,
            lex_le(a@, b@) == lex_le(a@.skip(i as int), b@.skip(i as int)),
        decreases 32 - i,
    {
        if a[i] < b[i] {
            return true;
        }
        if a[i] > b[i] {
            return false;
        }
        proof {
            assert(a@.skip(i as int).skip(1) =~= a@.skip(i + 1));
            assert(b@.skip(i as int).skip(1) =~= b@.skip(i + 1));
        }
        i += 1;
    }
    proof {
        assert(a@.skip(32) =~= Seq::<u8>::empty());
    }
    true
}

/// Appends the bytes of a 32-byte value to a buffer.
pub fn push_bytes32(buf: &mut Vec<u8>, x: &[u8; 32])
    ensures
        final(buf)@ == old(buf)@ + x@,
{
    let mut i: usize = 0;
    while i < 32
        invariant
            i <= 32,
            buf@ == old(buf)@ + x@.take(i as int),
        decreases 32 - i,
    {
        buf.push(x[i]);
        proof {
            assert(old(buf)@ + x@.take(i as int) + seq![x@[i as int]] =~= old(buf)@ + x@.take(
                i + 1,
            ));
        }
        i += 1;
    }
    proof {
        assert(x@.take(32) =~= x@);
    }
}

/// Appends the little-endian bytes of a 64-bit integer to a buffer.
pub fn push_u64_le(buf: &mut Vec<u8>, x: u64)
    ensures
        final(buf)@ == old(buf)@ + u64_le_bytes(x),
{
    assert((x & 0xff) < 256 && ((x >> 8) & 0xff) < 256 && ((x >> 16) & 0xff) < 256 && ((x >> 24)
        & 0xff) < 256 && ((x >> 32) & 0xff) < 256 && ((x >> 40) & 0xff) < 256 && ((x >> 48) & 0xff)
        < 256 && ((x >> 56) & 0xff) < 256) by (bit_vector);
    buf.push((x & 0xff) as u8);
    buf.push(((x >> 8) & 0xff) as u8);
    buf.push(((x >> 16) & 0xff) as u8);
    buf.push(((x >> 24) & 0xff) as u8);
    buf.push(((x >> 32) & 0xff) as u8);
    buf.push(((x >> 40) & 0xff) as u8);
    buf.push(((x >> 48) & 0xff) as u8);
    buf.push(((x >> 56) & 0xff) as u8);
    proof {
        assert(buf@ =~= old(buf)@ + u64_le_bytes(x));
    }
}

} // verus!
