//! A mathematical model of the off-line tree builder, and the completeness
//! law of the proof verifier against it: the sibling path read off a
//! commitment tree reconstructs that tree's root, for every leaf. The
//! converse — that no other leaf or path reconstructs it — rests on the
//! collision resistance of the hash and is not a theorem of this model.

use vstd::prelude::*;

use crate::bytes::lex_le;
use crate::hash::spec_node_hash;
use crate::merkle_proof::spec_chain;

verus! {

/// A commitment tree over already-hashed leaves, as the off-line builder
/// shapes it: inner nodes hash their children in ascending byte order.
pub enum MerkleTree {
    /// One allocation entry's leaf digest.
    Leaf { hash: Seq<u8> },
    /// An inner node over two subtrees.
    Node { left: Box<MerkleTree>, right: Box<MerkleTree> },
}

/// How many leaves the tree has; always at least one.
pub open spec fn leaf_count(t: MerkleTree) -> nat
    decreases t,
{
    match t {
        MerkleTree::Leaf { .. } => 1,
        MerkleTree::Node { left, right } => leaf_count(*left) + leaf_count(*right),
    }
}

/// The tree's commitment root.
pub open spec fn tree_root(t: MerkleTree) -> Seq<u8>
    decreases t,
{
    match t {
        MerkleTree::Leaf { hash } => hash,
        MerkleTree::Node { left, right } => spec_node_hash(tree_root(*left), tree_root(*right)),
    }
}

/// The `i`-th leaf digest, counting left to right.
pub open spec fn leaf_at(t: MerkleTree, i: nat) -> Seq<u8>
    decreases t,
{
    match t {
        MerkleTree::Leaf { hash } => hash,
        MerkleTree::Node { left, right } => if i < leaf_count(*left) {
            leaf_at(*left, i)
        } else {
            leaf_at(*right, (i - leaf_count(*left)) as nat)
        },
    }
}

/// The membership proof for the `i`-th leaf: the sibling hashes on the way
/// from that leaf up to the root, deepest first.
pub open spec fn path_of(t: MerkleTree, i: nat) -> Seq<Seq<u8>>
    decreases t,
{
    match t {
        MerkleTree::Leaf { .. } => Seq::empty(),
        MerkleTree::Node { left, right } => if i < leaf_count(*left) {
            path_of(*left, i).push(tree_root(*right))
        } else {
            path_of(*right, (i - leaf_count(*left)) as nat).push(tree_root(*left))
        },
    }
}

/// Byte-lexicographic order is total: of any two byte sequences, one is less
/// than or equal to the other.
proof fn lemma_lex_le_total(a: Seq<u8>, b: Seq<u8>)
    ensures
        lex_le(a, b) || lex_le(b, a),
    decreases a.len(),
{
    if a.len() > 0 && b.len() > 0 && a[0] == b[0] {
        lemma_lex_le_total(a.skip(1), b.skip(1));
    }
}

/// Byte-lexicographic order is antisymmetric: two sequences each at most the
/// other are the same sequence.
proof fn lemma_lex_le_antisymmetric(a: Seq<u8>, b: Seq<u8>)
    requires
        lex_le(a, b),
        lex_le(b, a),
    ensures
        a == b,
    decreases a.len(),
{
    if a.len() == 0 {
        assert(b.len() == 0);
        assert(a =~= b);
    } else {
        assert(a[0] == b[0]);
        lemma_lex_le_antisymmetric(a.skip(1), b.skip(1));
        assert(a =~= b) by {
            assert(forall|j: int|
                1 <= j < a.len() ==> a[j] == a.skip(1)[j - 1] && b[j] == b.skip(1)[j - 1]);
        }
    }
}

/// The order-normalizing pair hash does not care which argument comes first.
proof fn lemma_node_hash_symmetric(a: Seq<u8>, b: Seq<u8>)
    ensures
        spec_node_hash(a, b) == spec_node_hash(b, a),
{
    lemma_lex_le_total(a, b);
    if lex_le(a, b) && lex_le(b, a) {
        lemma_lex_le_antisymmetric(a, b);
    }
}

/// Folding one more sibling into a chain hashes the chain's result with it.
proof fn lemma_chain_snoc(leaf: Seq<u8>, siblings: Seq<Seq<u8>>, sib: Seq<u8>)
    ensures
        spec_chain(leaf, siblings.push(sib)) == spec_node_hash(spec_chain(leaf, siblings), sib),
    decreases siblings.len(),
{
    if siblings.len() == 0 {
        assert(siblings.push(sib)[0] == sib);
        assert(siblings.push(sib).skip(1) =~= Seq::<Seq<u8>>::empty());
        assert(spec_chain(leaf, siblings.push(sib)) == spec_chain(
            spec_node_hash(leaf, sib),
            Seq::<Seq<u8>>::empty(),
        ));
        assert(spec_chain(spec_node_hash(leaf, sib), Seq::<Seq<u8>>::empty()) == spec_node_hash(
            leaf,
            sib,
        ));
        assert(spec_chain(leaf, siblings) == leaf);
    } else {
        assert(siblings.push(sib)[0] == siblings[0]);
        assert(siblings.push(sib).skip(1) =~= siblings.skip(1).push(sib));
        lemma_chain_snoc(spec_node_hash(leaf, siblings[0]), siblings.skip(1), sib);
        assert(spec_chain(leaf, siblings.push(sib)) == spec_chain(
            spec_node_hash(leaf, siblings[0]),
            siblings.skip(1).push(sib),
        ));
        assert(spec_chain(leaf, siblings) == spec_chain(
            spec_node_hash(leaf, siblings[0]),
            siblings.skip(1),
        ));
    }
}

/// Completeness of the proof verifier against the tree construction: for
/// every leaf of a commitment tree, folding the leaf's sibling path
/// reconstructs exactly the tree's root, so `verify` accepts the pair.
pub proof fn lemma_verify_complete(t: MerkleTree, i: nat)
    requires
        i < leaf_count(t),
    ensures
        spec_chain(leaf_at(t, i), path_of(t, i)) == tree_root(t),
    decreases t,
{
    match t {
        MerkleTree::Leaf { .. } => {},
        MerkleTree::Node { left, right } => {
            if i < leaf_count(*left) {
                lemma_verify_complete(*left, i);
                lemma_chain_snoc(leaf_at(*left, i), path_of(*left, i), tree_root(*right));
            } else {
                let j = (i - leaf_count(*left)) as nat;
                lemma_verify_complete(*right, j);
                lemma_chain_snoc(leaf_at(*right, j), path_of(*right, j), tree_root(*left));
                lemma_node_hash_symmetric(tree_root(*right), tree_root(*left));
            }
        },
    }
}

} // verus!
