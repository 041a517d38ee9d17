//! The 256-bit cryptographic hash that the commitment scheme is built on,
//! together with the two digests the engine needs: the hash of an ordered
//! pair of 32-byte values and the hash of a claim entry's leaf bytes.

use vstd::prelude::*;

use crate::bytes::{lex_le, lex_le_32, push_bytes32, push_u64_le, u64_le_bytes};

verus! {

/// The keccak-256 digest of a byte sequence. The digest itself is left
/// unspecified; it is a function of the bytes alone.
pub uninterp spec fn keccak_of(data: Seq<u8>) -> Seq<u8>;

/// Relies on anchor_lang::solana_program::keccak::hashv: the keccak-256
/// digest of the given bytes, a function of the bytes alone.
#[verifier::external_body]
pub(crate) fn keccak_digest(data: &Vec<u8>) -> (r: [u8; 32])
    ensures
        r@ == keccak_of(data@),
{
    anchor_lang::solana_program::keccak::hashv(&[data.as_slice()]).0
}

/// The digest of two 32-byte values concatenated in ascending
/// byte-lexicographic order. This ordering rule must match the one the
/// off-line tree builder used, or no proof verifies.
pub open spec fn spec_node_hash(a: Seq<u8>, b: Seq<u8>) -> Seq<u8> {
    if lex_le(a, b) {
        keccak_of(a + b)
    } else {
        keccak_of(b + a)
    }
}

/// The digest of a claim entry: its index, the claimant identity and the
/// entitlement amount, the integers in little-endian byte order.
pub open spec fn spec_leaf_hash(index: u64, claimant: Seq<u8>, amount: u64) -> Seq<u8> {
    keccak_of(u64_le_bytes(index) + claimant + u64_le_bytes(amount))
}

/// Hashes two 32-byte values, the lexicographically lower one first.
pub fn hash_pair_ordered(a: &[u8; 32], b: &[u8; 32]) -> (r: [u8; 32])
    ensures
        r@ == spec_node_hash(a@, b@),
{
    let mut buf: Vec<u8> = Vec::new();
    if lex_le_32(a, b) {
        push_bytes32(&mut buf, a);
        push_bytes32(&mut buf, b);
        proof {
            assert(buf@ =~= a@ + b@);
        }
    } else {
        push_bytes32(&mut buf, b);
        push_bytes32(&mut buf, a);
        proof {
            assert(buf@ =~= b@ + a@);
        }
    }
    keccak_digest(&buf)
}

/// Hashes a claim entry into the leaf value whose membership in the committed
/// tree authorizes redeeming the entitlement.
pub fn hash_leaf(index: u64, claimant: &[u8; 32], amount: u64) -> (r: [u8; 32])
    ensures
        r@ == spec_leaf_hash(index, claimant@, amount),
{
    let mut buf: Vec<u8> = Vec::new();
    push_u64_le(&mut buf, index);
    push_bytes32(&mut buf, claimant);
    push_u64_le(&mut buf, amount);
    proof {
        assert(buf@ =~= u64_le_bytes(index) + claimant@ + u64_le_bytes(amount));
    }
    keccak_digest(&buf)
}

} // verus!
