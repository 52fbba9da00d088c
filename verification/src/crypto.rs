use vstd::prelude::*;

use sp_mmr_primitives::{DataOrHash, LeafProof, OpaqueLeaf};
use sp_runtime::traits::{BlakeTwo256, Keccak256};

use crate::hash::H256;
use crate::proofs::{hashes_view, leaves_view, mmr_proof_in_range, MmrProof};

verus! {

/// Whether `binary_merkle_tree::verify_proof` with the Keccak-256 hasher
/// accepts the proof for a leaf given by its content.
pub uninterp spec fn binary_merkle_proof_verifies(
    root: Seq<u8>,
    proof: Seq<Seq<u8>>,
    number_of_leaves: u32,
    leaf_index: u32,
    leaf: Seq<u8>,
) -> bool;

/// Whether `pallet_mmr::verify_leaves_proof` with the Keccak-256 hasher
/// accepts the proof of the given opaque leaves against `root`.
pub uninterp spec fn mmr_leaves_proof_verifies(
    root: Seq<u8>,
    leaves: Seq<Seq<u8>>,
    leaf_indices: Seq<u64>,
    leaf_count: u64,
    items: Seq<Seq<u8>>,
) -> bool;

/// The BLAKE2b-256 hash of the bytes, as `BlakeTwo256` computes it.
pub uninterp spec fn blake2_256_hash(data: Seq<u8>) -> Seq<u8>;

/// Whether the MMR proof verifies the leaves against the root.
pub open spec fn mmr_proof_verifies(root: Seq<u8>, leaves: Seq<Vec<u8>>, proof: MmrProof) -> bool {
    mmr_leaves_proof_verifies(
        root,
        leaves_view(leaves),
        proof.leaf_indices@,
        proof.leaf_count,
        hashes_view(proof.items@),
    )
}

/// Calls `binary_merkle_tree::verify_proof::<Keccak256, _, _>` with the leaf
/// given as a value (`Leaf::Value`), which the crate hashes first. The
/// contract names the result, and states the crate's first check: an index
/// at or past the number of leaves is rejected.
#[verifier::external_body]
pub(crate) fn verify_binary_merkle_proof(
    root: &H256,
    proof: &Vec<H256>,
    number_of_leaves: u32,
    leaf_index: u32,
    leaf: &[u8],
) -> (r: bool)
    ensures
        r == binary_merkle_proof_verifies(
            root@,
            hashes_view(proof@),
            number_of_leaves,
            leaf_index,
            leaf@,
        ),
        leaf_index >= number_of_leaves ==> !r,
{
    let root = sp_core::H256::from(*root);
    let proof = proof.iter().map(|h| sp_core::H256::from(*h));
    binary_merkle_tree::verify_proof::<Keccak256, _, _>(
        &root,
        proof,
        number_of_leaves,
        leaf_index,
        binary_merkle_tree::Leaf::Value(leaf),
    )
}

/// Calls `pallet_mmr::verify_leaves_proof::<Keccak256, OpaqueLeaf>` with each
/// leaf passed as opaque data (`DataOrHash::Data`) and tells `Ok` from `Err`.
/// The contract names the result and states the function's first check: the
/// number of leaves must equal the number of leaf indices. It requires the
/// leaf count, and the leaf indices when that check passes, to be at most
/// 2^63 - 1, beyond which the MMR's node arithmetic (`2 * leaf_count`,
/// `leaf_index_to_pos`) overflows.
#[verifier::external_body]
pub(crate) fn verify_mmr_leaves_proof(root: &H256, leaves: &Vec<Vec<u8>>, proof: &MmrProof) -> (r:
    bool)
    requires
        mmr_proof_in_range(*proof, leaves@.len()),
    ensures
        r == mmr_leaves_proof_verifies(
            root@,
            leaves_view(leaves@),
            proof.leaf_indices@,
            proof.leaf_count,
            hashes_view(proof.items@),
        ),
        leaves@.len() != proof.leaf_indices@.len() ==> !r,
{
    let nodes = leaves.iter().map(|l| DataOrHash::<Keccak256, _>::Data(OpaqueLeaf(l.clone())));
    let proof = LeafProof {
        leaf_indices: proof.leaf_indices.clone(),
        leaf_count: proof.leaf_count,
        items: proof.items.iter().map(|h| sp_core::H256::from(*h)).collect(),
    };
    let root = sp_core::H256::from(*root);
    pallet_mmr::verify_leaves_proof::<Keccak256, OpaqueLeaf>(root, nodes.collect(), proof).is_ok()
}

/// Calls `<BlakeTwo256 as sp_runtime::traits::Hash>::hash` and returns the
/// hash's bytes.
#[verifier::external_body]
pub(crate) fn blake2_256(data: &Vec<u8>) -> (h: H256)
    ensures
        h@ == blake2_256_hash(data@),
{
    <BlakeTwo256 as sp_runtime::traits::Hash>::hash(&data[..]).0
}

} // verus!
