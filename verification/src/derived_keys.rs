//! Deterministic storage keys: a distributor's key is derived from a fixed
//! namespace tag plus its base identity, and a claim record's key from a
//! fixed namespace tag plus the distributor's key plus the claimant
//! identity. Any party can recompute them from those inputs alone, so no
//! registry of claimants needs to be created in advance.

use vstd::prelude::*;

use crate::bytes::push_bytes32;
use crate::hash::{keccak_digest, keccak_of};

verus! {

/// The namespace tag of distributor keys: the bytes of "MerkleDistributor".
pub open spec fn distributor_tag() -> Seq<u8> {
    seq![77u8, 101u8, 114u8, 107u8, 108u8, 101u8, 68u8, 105u8, 115u8, 116u8, 114u8, 105u8, 98u8, 117u8, 116u8, 111u8, 114u8]
}

/// The namespace tag of claim-record keys: the bytes of "ClaimStatus".
pub open spec fn claim_status_tag() -> Seq<u8> {
    seq![67u8, 108u8, 97u8, 105u8, 109u8, 83u8, 116u8, 97u8, 116u8, 117u8, 115u8]
}

/// Appends the distributor namespace tag to a buffer.
fn push_distributor_tag(buf: &mut Vec<u8>)
    ensures
        final(buf)@ == old(buf)@ + distributor_tag(),
{
    buf.push(77);
    buf.push(101);
    buf.push(114);
    buf.push(107);
    buf.push(108);
    buf.push(101);
    buf.push(68);
    buf.push(105);
    buf.push(115);
    buf.push(116);
    buf.push(114);
    buf.push(105);
    buf.push(98);
    buf.push(117);
    buf.push(116);
    buf.push(111);
    buf.push(114);
    proof {
        assert(buf@ =~= old(buf)@ + distributor_tag());
    }
}

/// Appends the claim-record namespace tag to a buffer.
fn push_claim_status_tag(buf: &mut Vec<u8>)
    ensures
        final(buf)@ == old(buf)@ + claim_status_tag(),
{
    buf.push(67);
    buf.push(108);
    buf.push(97);
    buf.push(105);
    buf.push(109);
    buf.push(83);
    buf.push(116);
    buf.push(97);
    buf.push(116);
    buf.push(117);
    buf.push(115);
    proof {
        assert(buf@ =~= old(buf)@ + claim_status_tag());
    }
}

/// The storage key of the distributor derived from `base`.
pub fn distributor_key(base: &[u8; 32]) -> (r: [u8; 32])
    ensures
        r@ == keccak_of(distributor_tag() + base@),
{
    let mut buf: Vec<u8> = Vec::new();
    push_distributor_tag(&mut buf);
    push_bytes32(&mut buf, base);
    proof {
        assert(buf@ =~= distributor_tag() + base@);
    }
    keccak_digest(&buf)
}

/// The storage key of `claimant`'s claim record under the distributor stored
/// at `distributor`.
pub fn claim_status_key(distributor: &[u8; 32], claimant: &[u8; 32]) -> (r: [u8; 32])
    ensures
        r@ == keccak_of(claim_status_tag() + distributor@ + claimant@),
{
    let mut buf: Vec<u8> = Vec::new();
    push_claim_status_tag(&mut buf);
    push_bytes32(&mut buf, distributor);
    push_bytes32(&mut buf, claimant);
    proof {
        assert(buf@ =~= claim_status_tag() + distributor@ + claimant@);
    }
    keccak_digest(&buf)
}

} // verus!
