//! The proof verifier: recomputes a commitment root from a leaf and an
//! ordered sequence of sibling hashes and compares it to the expected root.

use vstd::prelude::*;

use crate::bytes::bytes32_eq;
use crate::hash::{hash_pair_ordered, spec_node_hash};

verus! {

/// The byte sequences of a sequence of 32-byte hashes.
pub open spec fn proof_hashes(p: Seq<[u8; 32]>) -> Seq<Seq<u8>> {
    p.map_values(|e: [u8; 32]| e@)
}

/// The root reached from `leaf` by folding each sibling in, in order, with
/// the order-normalizing pair hash.
pub open spec fn spec_chain(leaf: Seq<u8>, siblings: Seq<Seq<u8>>) -> Seq<u8>
    decreases siblings.len(),
{
    if siblings.len() == 0 {
        leaf
    } else {
        spec_chain(spec_node_hash(leaf, siblings[0]), siblings.skip(1))
    }
}

/// Recomputes the commitment root from `leaf` and the sibling path
/// `proof_nodes` and returns whether it equals `root` exactly. There is no
/// partial-proof semantics: a mismatch at any single step makes it false.
pub fn verify(proof_nodes: Vec<[u8; 32]>, root: [u8; 32], leaf: [u8; 32]) -> (r: bool)
    ensures
        r == (spec_chain(leaf@, proof_hashes(proof_nodes@)) == root@),
{
    let ghost all: Seq<Seq<u8>> = proof_hashes(proof_nodes@);
    let mut computed: [u8; 32] = leaf;
    let mut i: usize = 0;
    proof {
        assert(all.skip(0) =~= all);
    }
    while i < proof_nodes.len()
        invariant
            i <= proof_nodes@.len(),
            all == proof_hashes(proof_nodes@),
            spec_chain(leaf@, all) == spec_chain(computed@, all.skip(i as int)),
        decreases proof_nodes@.len() - i,
    {
        proof {
            assert(all.skip(i as int)[0] == proof_nodes@[i as int]@);
            assert(all.skip(i as int).skip(1) =~= all.skip(i + 1));
        }
        computed = hash_pair_ordered(&computed, &proof_nodes[i]);
        i += 1;
    }
    proof {
        assert(all.skip(i as int) =~= Seq::<Seq<u8>>::empty());
    }
    bytes32_eq(&computed, &root)
}

} // verus!
