//! Light-client commitments: a periodic Merkle root over the hashes of the
//! observed block headers.
//!
//! The root is deterministic in the header set: leaves are the block hashes
//! in storage order, each tree level pairs neighbours under the hash oracle
//! and promotes an unpaired last leaf, and the root of a single leaf is the
//! leaf itself. Light clients consume the stored root for probabilistic
//! inclusion proofs; verification failures surface outside the core.

use vstd::prelude::*;

use crate::bytes::{push_u64_be, u64_be_bytes};
use crate::digest::{sha_digest, sha_digest_of};
use crate::state::ChainState;
use crate::types::{BlockInfo, HashValue};

verus! {

/// Domain tag of interior Merkle nodes.
pub const NODE_DOMAIN: u8 = 3;

/// Digest of an interior node over its two children.
pub open spec fn spec_node_digest(left: HashValue, right: HashValue) -> HashValue {
    sha_digest_of(seq![NODE_DOMAIN] + u64_be_bytes(left) + u64_be_bytes(right))
}

/// One level up the tree: neighbours pair up, an unpaired last leaf is
/// promoted.
pub open spec fn spec_merkle_level(leaves: Seq<HashValue>) -> Seq<HashValue> {
    Seq::new(
        (leaves.len() + 1) / 2,
        |i: int|
            if 2 * i + 1 < leaves.len() {
                spec_node_digest(leaves[2 * i], leaves[2 * i + 1])
            } else {
                leaves[2 * i]
            },
    )
}

/// Merkle root of `leaves`: zero for no leaves, the leaf itself for one,
/// and the root of the next level otherwise.
pub open spec fn spec_merkle_root(leaves: Seq<HashValue>) -> HashValue
    decreases leaves.len(),
{
    if leaves.len() == 0 {
        0
    } else if leaves.len() == 1 {
        leaves[0]
    } else {
        spec_merkle_root(spec_merkle_level(leaves))
    }
}

/// The hashes of the observed blocks, in storage order.
pub open spec fn spec_block_hashes(blocks: Seq<BlockInfo>) -> Seq<HashValue> {
    Seq::new(blocks.len(), |i: int| blocks[i].hash)
}

/// Computes the digest of an interior node.
fn node_digest(left: HashValue, right: HashValue) -> (r: HashValue)
    ensures
        r == spec_node_digest(left, right),
{
    let mut preimage: Vec<u8> = Vec::new();
    preimage.push(NODE_DOMAIN);
    push_u64_be(&mut preimage, left);
    push_u64_be(&mut preimage, right);
    proof {
        assert(preimage@ =~= seq![NODE_DOMAIN] + u64_be_bytes(left) + u64_be_bytes(right));
    }
    sha_digest(&preimage)
}

/// Computes one level up the tree.
fn merkle_level(leaves: &Vec<HashValue>) -> (r: Vec<HashValue>)
    ensures
        r@ == spec_merkle_level(leaves@),
{
    let mut r: Vec<HashValue> = Vec::new();
    let mut i: usize = 0;
    while i < leaves.len()
        invariant
            i <= leaves@.len(),
            i % 2 == 0 || i == leaves@.len(),
            r@.len() == (i + 1) / 2,
            r@ == spec_merkle_level(leaves@).subrange(0, r@.len() as int),
        decreases leaves@.len() - i,
    {
        if i + 1 < leaves.len() {
            r.push(node_digest(leaves[i], leaves[i + 1]));
            i = i + 2;
        } else {
            r.push(leaves[i]);
            i = leaves.len();
        }
        proof {
            assert(r@ =~= spec_merkle_level(leaves@).subrange(0, r@.len() as int));
        }
    }
    proof {
        assert(r@ =~= spec_merkle_level(leaves@));
    }
    r
}

/// Computes the Merkle root of `leaves`.
pub fn merkle_root_of(leaves: &Vec<HashValue>) -> (r: HashValue)
    ensures
        r == spec_merkle_root(leaves@),
{
    if leaves.len() == 0 {
        return 0;
    }
    let mut level = merkle_copy(leaves);
    while level.len() >= 2
        invariant
            spec_merkle_root(level@) == spec_merkle_root(leaves@),
            level@.len() >= 1,
        decreases level@.len(),
    {
        proof {
            assert((level@.len() + 1) / 2 < level@.len());
        }
        level = merkle_level(&level);
    }
    level[0]
}

/// A fresh vector with the same hashes.
fn merkle_copy(v: &Vec<HashValue>) -> (r: Vec<HashValue>)
    ensures
        r@ == v@,
{
    let mut r: Vec<HashValue> = Vec::new();
    let mut i: usize = 0;
    while i < v.len()
        invariant
            i <= v@.len(),
            r@ == v@.subrange(0, i as int),
        decreases v@.len() - i,
    {
        r.push(v[i]);
        i = i + 1;
        proof {
            assert(r@ =~= v@.subrange(0, i as int));
        }
    }
    proof {
        assert(r@ =~= v@);
    }
    r
}

impl ChainState {
    /// Recomputes the light-client commitment over the current header set
    /// and stores it. Deterministic given the same headers.
    pub fn update_merkle_tree(&mut self)
        requires
            old(self).wf(),
        ensures
            final(self).wf(),
            final(self).merkle_root == spec_merkle_root(spec_block_hashes(old(self).blocks@)),
            *final(self) == (ChainState { merkle_root: final(self).merkle_root, ..*old(self) }),
    {
        let mut leaves: Vec<HashValue> = Vec::new();
        let mut i: usize = 0;
        while i < self.blocks.len()
            invariant
                i <= self.blocks@.len(),
                leaves@ == spec_block_hashes(self.blocks@).subrange(0, i as int),
                *self == *old(self),
            decreases self.blocks@.len() - i,
        {
            leaves.push(self.blocks[i].hash);
            i = i + 1;
            proof {
                assert(leaves@ =~= spec_block_hashes(self.blocks@).subrange(0, i as int));
            }
        }
        proof {
            assert(leaves@ =~= spec_block_hashes(self.blocks@));
        }
        self.merkle_root = merkle_root_of(&leaves);
    }
}

} // verus!
