use vstd::prelude::*;

use crate::hash::{hash_zero, H256};

verus! {

/// The hashes of a list, each as its bytes.
pub open spec fn hashes_view(s: Seq<H256>) -> Seq<Seq<u8>> {
    s.map_values(|h: H256| h@)
}

/// The byte contents of a list of leaves.
pub open spec fn leaves_view(s: Seq<Vec<u8>>) -> Seq<Seq<u8>> {
    s.map_values(|l: Vec<u8>| l@)
}

/// A copy of a byte vector.
pub fn copy_bytes(v: &Vec<u8>) -> (r: Vec<u8>)
    ensures
        r@ == v@,
{
    let mut r: Vec<u8> = Vec::new();
    let mut i: usize = 0;
    while i < v.len()
        invariant
            0 <= i <= v@.len(),
            r@ == v@.take(i as int),
        decreases v@.len() - i,
    {
        r.push(v[i]);
        i += 1;
        assert(r@ =~= v@.take(i as int));
    }
    assert(v@.take(v@.len() as int) =~= v@);
    r
}

/// A copy of a list of hashes.
pub fn copy_hashes(v: &Vec<H256>) -> (r: Vec<H256>)
    ensures
        r@ == v@,
{
    let mut r: Vec<H256> = Vec::new();
    let mut i: usize = 0;
    while i < v.len()
        invariant
            0 <= i <= v@.len(),
            r@ == v@.take(i as int),
        decreases v@.len() - i,
    {
        r.push(v[i]);
        i += 1;
        assert(r@ =~= v@.take(i as int));
    }
    assert(v@.take(v@.len() as int) =~= v@);
    r
}

/// An MMR membership proof for a batch of leaves: the leaves' indices, the
/// number of leaves the MMR had when the proof was made, and the sibling
/// hashes on the way to the root.
#[derive(Debug, Clone, PartialEq, Eq)]
pub struct MmrProof {
    pub leaf_indices: Vec<u64>,
    pub leaf_count: u64,
    pub items: Vec<H256>,
}

/// The largest leaf count and leaf index that MMR verification handles
/// without its node arithmetic overflowing: 2^63 - 1.
pub const MMR_MAX_LEAF_INDEX: u64 = 0x7fff_ffff_ffff_ffff;

/// Verifying the proof for `num_leaves` leaves stays within the range where
/// MMR node positions fit in 64 bits: the leaf count always (the MMR size is
/// computed from it first), and the leaf indices when there are as many of
/// them as leaves (otherwise the proof is rejected before any index is read).
pub open spec fn mmr_proof_in_range(p: MmrProof, num_leaves: nat) -> bool {
    &&& p.leaf_count <= MMR_MAX_LEAF_INDEX
    &&& num_leaves == p.leaf_indices@.len() ==> forall|i: int|
        0 <= i < p.leaf_indices@.len() ==> p.leaf_indices@[i] <= MMR_MAX_LEAF_INDEX
}

/// Tests `mmr_proof_in_range`.
pub fn mmr_proof_is_in_range(p: &MmrProof, num_leaves: usize) -> (r: bool)
    ensures
        r == mmr_proof_in_range(*p, num_leaves as nat),
{
    if p.leaf_count > MMR_MAX_LEAF_INDEX {
        return false;
    }
    if num_leaves != p.leaf_indices.len() {
        return true;
    }
    let mut i: usize = 0;
    while i < p.leaf_indices.len()
        invariant
            0 <= i <= p.leaf_indices@.len(),
            num_leaves == p.leaf_indices@.len(),
            forall|j: int| 0 <= j < i ==> p.leaf_indices@[j] <= MMR_MAX_LEAF_INDEX,
        decreases p.leaf_indices@.len() - i,
    {
        if p.leaf_indices[i] > MMR_MAX_LEAF_INDEX {
            return false;
        }
        i += 1;
    }
    true
}

/// A parachain's entry in the relay chain's tree of parachain heads.
#[derive(Debug, Clone, PartialEq, Eq)]
pub struct ParaLeaf {
    pub para_id: u32,
    pub head_data: Vec<u8>,
}

impl ParaLeaf {
    /// A copy with the same contents.
    pub fn duplicate(&self) -> (r: Self)
        ensures
            r.para_id == self.para_id,
            r.head_data@ == self.head_data@,
    {
        ParaLeaf { para_id: self.para_id, head_data: copy_bytes(&self.head_data) }
    }
}

/// A binary Merkle proof that a parachain head is in the relay chain's tree
/// of parachain heads.
#[derive(Debug, Clone, PartialEq, Eq)]
pub struct ParaMerkleProof {
    pub root: H256,
    pub proof: Vec<H256>,
    pub num_leaves: u64,
    pub leaf_index: u64,
    pub leaf: ParaLeaf,
}

impl ParaMerkleProof {
    /// A copy with the same contents.
    pub fn duplicate(&self) -> (r: Self)
        ensures
            r.root == self.root,
            r.proof@ == self.proof@,
            r.num_leaves == self.num_leaves,
            r.leaf_index == self.leaf_index,
            r.leaf.para_id == self.leaf.para_id,
            r.leaf.head_data@ == self.leaf.head_data@,
    {
        ParaMerkleProof {
            root: self.root,
            proof: copy_hashes(&self.proof),
            num_leaves: self.num_leaves,
            leaf_index: self.leaf_index,
            leaf: self.leaf.duplicate(),
        }
    }
}

/// A binary Merkle proof that a channel's message-MMR root is in the sending
/// parachain's tree of channel roots.
#[derive(Debug, Clone, PartialEq, Eq)]
pub struct ChannelMerkleProof {
    pub root: H256,
    pub proof: Vec<H256>,
    pub num_leaves: u64,
    pub leaf_index: u64,
    pub leaf: H256,
}

impl Default for ChannelMerkleProof {
    fn default() -> (r: Self)
        ensures
            r.root@ == crate::hash::zero_hash(),
            r.proof@.len() == 0,
            r.num_leaves == 0,
            r.leaf_index == 0,
            r.leaf@ == crate::hash::zero_hash(),
    {
        ChannelMerkleProof {
            root: hash_zero(),
            proof: Vec::new(),
            num_leaves: 0u64,
            leaf_index: 0u64,
            leaf: hash_zero(),
        }
    }
}

/// The four-tier proof that links a message on a sending parachain to a
/// BEEFY MMR root:
/// 1. an MMR proof of a BEEFY leaf against the BEEFY root,
/// 2. a Merkle proof of the sender's head in the parachain-heads tree,
/// 3. a Merkle proof of the channel's MMR root in the sender's channel tree,
/// 4. an MMR proof of the message leaves against that channel root.
#[derive(Debug, PartialEq, Eq)]
pub struct XcmpProof {
    pub stage_1: (MmrProof, Vec<Vec<u8>>),
    pub stage_2: ParaMerkleProof,
    pub stage_3: ChannelMerkleProof,
    pub stage_4: (MmrProof, Vec<Vec<u8>>),
}

} // verus!
