//! Merkle proofs over the holder snapshot.
//!
//! A leaf is the SHA-256 digest of `"luckie:leaf:"` followed by a holder's
//! address; an inner node is the digest of `"luckie:node:"` followed by its
//! two children, the smaller one (in byte order) first. Sorting the children
//! makes a proof a plain list of siblings, with no left/right flags.

use vstd::prelude::*;
use crate::codec::{append_bytes, key_lt, key_eq, lex_lt, lemma_lex_lt_asymmetric, lemma_lex_lt_first_difference, lemma_lex_lt_total};

verus! {

/// Domain-separation prefix of a leaf: `b"luckie:leaf:"`.
pub const LEAF_PREFIX: [u8; 12] = [108, 117, 99, 107, 105, 101, 58, 108, 101, 97, 102, 58];

/// Domain-separation prefix of an inner node: `b"luckie:node:"`.
pub const NODE_PREFIX: [u8; 12] = [108, 117, 99, 107, 105, 101, 58, 110, 111, 100, 101, 58];

/// The SHA-256 digest of a byte string.
pub uninterp spec fn sha256(data: Seq<u8>) -> Seq<u8>;

/// Calls `solana_program::hash::hash` (re-exported by `anchor_lang`), which
/// computes SHA-256, and returns the digest's 32 bytes. Claimed: the digest is
/// `sha256` of the input bytes, a function of those bytes alone.
#[verifier::external_body]
fn sha256_digest(data: &[u8]) -> (digest: [u8; 32])
    ensures
        digest@ == sha256(data@),
{
    anchor_lang::solana_program::hash::hash(data).to_bytes()
}

/// The bytes hashed for the leaf of `address`.
pub open spec fn leaf_preimage(address: Seq<u8>) -> Seq<u8> {
    LEAF_PREFIX@ + address
}

/// The two children of a node, smaller first.
pub open spec fn ordered_children(left: Seq<u8>, right: Seq<u8>) -> (Seq<u8>, Seq<u8>) {
    if lex_lt(left, right) {
        (left, right)
    } else {
        (right, left)
    }
}

/// The bytes hashed for the node above `left` and `right`.
pub open spec fn node_preimage(left: Seq<u8>, right: Seq<u8>) -> Seq<u8> {
    NODE_PREFIX@ + ordered_children(left, right).0 + ordered_children(left, right).1
}

/// The leaf of `address`.
pub open spec fn leaf_hash(address: Seq<u8>) -> Seq<u8> {
    sha256(leaf_preimage(address))
}

/// The node above `left` and `right`.
pub open spec fn node_hash(left: Seq<u8>, right: Seq<u8>) -> Seq<u8> {
    sha256(node_preimage(left, right))
}

/// The root reached from `leaf` by hashing in each sibling in turn.
pub open spec fn proof_root(leaf: Seq<u8>, siblings: Seq<[u8; 32]>) -> Seq<u8>
    decreases siblings.len(),
{
    if siblings.len() == 0 {
        leaf
    } else {
        node_hash(proof_root(leaf, siblings.drop_last()), siblings.last()@)
    }
}

/// The bytes that are hashed into the leaf of `address`.
pub fn leaf_bytes(address: &[u8; 32]) -> (data: Vec<u8>)
    ensures
        data@ == leaf_preimage(address@),
{
    let mut data: Vec<u8> = Vec::with_capacity(LEAF_PREFIX.len() + 32);
    append_bytes(&mut data, &LEAF_PREFIX);
    append_bytes(&mut data, address);
    data
}

/// The bytes that are hashed into the node above `left` and `right`.
pub fn node_bytes(left: &[u8; 32], right: &[u8; 32]) -> (data: Vec<u8>)
    ensures
        data@ == node_preimage(left@, right@),
{
    let mut data: Vec<u8> = Vec::with_capacity(NODE_PREFIX.len() + 64);
    append_bytes(&mut data, &NODE_PREFIX);
    if key_lt(left, right) {
        append_bytes(&mut data, left);
        append_bytes(&mut data, right);
    } else {
        append_bytes(&mut data, right);
        append_bytes(&mut data, left);
    }
    data
}

/// Hashes a holder address as a Merkle leaf:
/// SHA-256(`"luckie:leaf:"` + address).
pub fn merkle_hash_leaf(address: &[u8; 32]) -> (leaf: [u8; 32])
    ensures
        leaf@ == leaf_hash(address@),
{
    let data = leaf_bytes(address);
    sha256_digest(data.as_slice())
}

/// Hashes two children into their parent:
/// SHA-256(`"luckie:node:"` + smaller child + larger child).
pub fn merkle_hash_pair(left: &[u8; 32], right: &[u8; 32]) -> (node: [u8; 32])
    ensures
        node@ == node_hash(left@, right@),
{
    let data = node_bytes(left, right);
    sha256_digest(data.as_slice())
}

/// Checks a Merkle proof: hashes `leaf` with each sibling in turn and
/// compares the result with `root`.
pub fn verify_merkle_proof(root: &[u8; 32], leaf: &[u8; 32], siblings: &[[u8; 32]]) -> (valid: bool)
    ensures
        valid == (proof_root(leaf@, siblings@) == root@),
{
    let mut hash: [u8; 32] = *leaf;
    let mut i: usize = 0;
    assert(siblings@.take(0) =~= Seq::<[u8; 32]>::empty());
    while i < siblings.len()
        invariant
            i <= siblings@.len(),
            hash@ == proof_root(leaf@, siblings@.take(i as int)),
        decreases siblings@.len() - i,
    {
        hash = merkle_hash_pair(&hash, &siblings[i]);
        assert(siblings@.take(i + 1).drop_last() =~= siblings@.take(i as int));
        i = i + 1;
    }
    assert(siblings@.take(siblings@.len() as int) =~= siblings@);
    key_eq(&hash, root)
}

/// Hashing two children does not depend on their order.
pub proof fn lemma_node_hash_commutative(a: Seq<u8>, b: Seq<u8>)
    ensures
        node_hash(a, b) == node_hash(b, a),
{
    if a != b {
        lemma_lex_lt_total(a, b);
        if lex_lt(a, b) {
            lemma_lex_lt_asymmetric(a, b);
        } else {
            lemma_lex_lt_asymmetric(b, a);
        }
    }
    assert(node_preimage(a, b) =~= node_preimage(b, a));
}

/// A leaf preimage never equals a node preimage, nor the raw address: the
/// prefixes keep the three kinds of hashed data apart.
pub proof fn lemma_domain_separation(address: Seq<u8>, left: Seq<u8>, right: Seq<u8>)
    ensures
        leaf_preimage(address) != node_preimage(left, right),
        leaf_preimage(address) != address,
{
    assert(leaf_preimage(address)[7] == 108);
    assert(node_preimage(left, right)[7] == 110);
    assert(leaf_preimage(address).len() == address.len() + 12);
}

/// A proof that reaches one child of a node, extended by the other child,
/// reaches the node, whichever side the first child is on. By induction over
/// the levels of a tree, every leaf's sibling path reaches the root.
pub proof fn lemma_proof_extends(leaf: Seq<u8>, siblings: Seq<[u8; 32]>, child: Seq<u8>, other: [u8; 32])
    requires
        proof_root(leaf, siblings) == child,
    ensures
        proof_root(leaf, siblings.push(other)) == node_hash(child, other@),
        proof_root(leaf, siblings.push(other)) == node_hash(other@, child),
{
    assert(siblings.push(other).drop_last() =~= siblings);
    lemma_node_hash_commutative(child, other@);
}

/// The ASCII bytes of `"luckie:leaf:"`.
pub open spec fn leaf_tag() -> Seq<u8> {
    seq![108u8, 117u8, 99u8, 107u8, 105u8, 101u8, 58u8, 108u8, 101u8, 97u8, 102u8, 58u8]
}

/// The ASCII bytes of `"luckie:node:"`.
pub open spec fn node_tag() -> Seq<u8> {
    seq![108u8, 117u8, 99u8, 107u8, 105u8, 101u8, 58u8, 110u8, 111u8, 100u8, 101u8, 58u8]
}

/// A leaf hashes exactly `"luckie:leaf:"` followed by the address.
pub proof fn lemma_leaf_preimage_bytes(address: Seq<u8>)
    ensures
        leaf_preimage(address) == leaf_tag() + address,
{
    assert(LEAF_PREFIX@ =~= leaf_tag());
}

/// A node hashes `"luckie:node:"`, then the child whose first differing
/// byte is smaller, then the other child, whichever order they are given in;
/// two equal children are both hashed.
pub proof fn lemma_node_preimage_bytes(small: Seq<u8>, large: Seq<u8>, i: int)
    requires
        small.len() == large.len(),
        0 <= i < small.len(),
        forall|j: int| 0 <= j < i ==> small[j] == large[j],
        small[i] < large[i],
    ensures
        node_preimage(small, large) == node_tag() + small + large,
        node_preimage(large, small) == node_tag() + small + large,
        node_preimage(small, small) == node_tag() + small + small,
{
    assert(NODE_PREFIX@ =~= node_tag());
    lemma_lex_lt_first_difference(small, large, i);
    assert(!lex_lt(small, small)) by {
        if lex_lt(small, small) {
            lemma_lex_lt_asymmetric(small, small);
        }
    }
}

/// A proof with no sibling reaches the leaf itself; each further sibling is
/// hashed with the root reached so far, in the order given.
pub proof fn lemma_proof_root_steps(leaf: Seq<u8>, first: [u8; 32], second: [u8; 32])
    ensures
        proof_root(leaf, Seq::<[u8; 32]>::empty()) == leaf,
        proof_root(leaf, seq![first]) == node_hash(leaf, first@),
        proof_root(leaf, seq![first, second]) == node_hash(node_hash(leaf, first@), second@),
{
    let one = seq![first];
    let two = seq![first, second];
    assert(one.drop_last() =~= Seq::<[u8; 32]>::empty());
    assert(one.last() == first);
    assert(proof_root(leaf, one) == node_hash(proof_root(leaf, one.drop_last()), one.last()@));
    assert(two.drop_last() =~= one);
    assert(two.last() == second);
    assert(proof_root(leaf, two) == node_hash(proof_root(leaf, two.drop_last()), two.last()@));
}

} // verus!
