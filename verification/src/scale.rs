use vstd::prelude::*;

use parity_scale_codec::{Decode, Encode};
use sp_mmr_primitives::{EncodableOpaqueLeaf, LeafProof};
use sp_runtime::generic::Header;
use sp_runtime::traits::BlakeTwo256;

use crate::hash::H256;
use crate::proofs::{hashes_view, leaves_view, MmrProof, ParaLeaf};

verus! {

/// The `k` least significant bytes of `n`, least significant first.
pub open spec fn le_bytes(n: nat, k: nat) -> Seq<u8>
    decreases k,
{
    if k == 0 {
        Seq::empty()
    } else {
        seq![(n % 256) as u8] + le_bytes(n / 256, (k - 1) as nat)
    }
}

/// SCALE's compact encoding of a number below 2^32: the two low bits of the
/// first byte give the mode (one, two or four bytes holding `n << 2`, or a
/// marker byte followed by the four bytes of `n`).
pub open spec fn compact_u32(n: nat) -> Seq<u8> {
    if n < 0x40 {
        le_bytes(n * 4, 1)
    } else if n < 0x4000 {
        le_bytes(n * 4 + 1, 2)
    } else if n < 0x4000_0000 {
        le_bytes(n * 4 + 2, 4)
    } else {
        seq![3u8] + le_bytes(n, 4)
    }
}

/// SCALE encoding of a parachain-heads leaf: the para id as four
/// little-endian bytes, then the head data with its compact length prefix.
pub open spec fn para_leaf_encoding(para_id: u32, head_data: Seq<u8>) -> Seq<u8> {
    le_bytes(para_id as nat, 4) + compact_u32(head_data.len()) + head_data
}

/// The width of a runtime's block numbers.
#[derive(Debug, Clone, Copy, PartialEq, Eq, Structural)]
pub enum BlockNumberWidth {
    U32,
    U64,
}

/// The number of bytes of a block number of that width.
pub open spec fn block_number_bytes(w: BlockNumberWidth) -> nat {
    match w {
        BlockNumberWidth::U32 => 4,
        BlockNumberWidth::U64 => 8,
    }
}

/// Number of bytes of a SCALE-encoded BEEFY MMR leaf: version (1), parent
/// number (4 or 8) and hash (32), next authority set id (8), length (4) and
/// root (32), and the extra data hash (32).
pub open spec fn beefy_leaf_len(w: BlockNumberWidth) -> nat {
    109 + block_number_bytes(w)
}

/// The extra data of a BEEFY MMR leaf, with block numbers of width `w`,
/// decoded from the front of `bytes`: its last 32 bytes; `None` when there
/// are too few bytes.
pub open spec fn beefy_leaf_extra(bytes: Seq<u8>, w: BlockNumberWidth) -> Option<Seq<u8>> {
    if bytes.len() >= beefy_leaf_len(w) {
        Some(bytes.subrange(beefy_leaf_len(w) - 32, beefy_leaf_len(w) as int))
    } else {
        None
    }
}

/// Whether `bytes` start with a SCALE-encoded parachain header
/// (`sp_runtime::generic::Header<u32, BlakeTwo256>`).
pub uninterp spec fn para_header_decodes(bytes: Seq<u8>) -> bool;

/// The leaves that SCALE-decoding `bytes` as `Vec<EncodableOpaqueLeaf>` gives.
pub uninterp spec fn decoded_opaque_leaves(bytes: Seq<u8>) -> Option<Seq<Seq<u8>>>;

/// The leaf indices, leaf count and items that SCALE-decoding `bytes` as an
/// MMR `LeafProof<H256>` gives.
pub uninterp spec fn decoded_mmr_proof(bytes: Seq<u8>) -> Option<(Seq<u64>, u64, Seq<Seq<u8>>)>;

/// Encodes a parachain-heads leaf with `parity_scale_codec` (as the pair of
/// its para id and head data, which encodes like the leaf struct). The
/// contract states the SCALE format. The codec panics on a collection longer
/// than `u32::MAX`, hence the `requires`.
#[verifier::external_body]
pub(crate) fn encode_para_leaf(leaf: &ParaLeaf) -> (r: Vec<u8>)
    requires
        leaf.head_data@.len() <= u32::MAX,
    ensures
        r@ == para_leaf_encoding(leaf.para_id, leaf.head_data@),
{
    (leaf.para_id, &leaf.head_data).encode()
}

/// Decodes the front of `bytes` with `parity_scale_codec` as a BEEFY MMR leaf
/// with a 32-bit block number (the tuple of its fields, which decodes like
/// the leaf struct) and returns its extra data. The contract states the
/// SCALE format: fixed-width integers little-endian, hashes as their 32
/// bytes, fields in order.
#[verifier::external_body]
fn decode_beefy_leaf_extra_u32(bytes: &Vec<u8>) -> (r: Option<H256>)
    ensures
        r is Some <==> beefy_leaf_extra(bytes@, BlockNumberWidth::U32) is Some,
        r matches Some(h) ==> Some(h@) == beefy_leaf_extra(bytes@, BlockNumberWidth::U32),
{
    let leaf: Result<(u8, (u32, [u8; 32]), (u64, u32, [u8; 32]), [u8; 32]), _> = Decode::decode(
        &mut &bytes[..],
    );
    leaf.ok().map(|l| l.3)
}

/// Decodes the front of `bytes` with `parity_scale_codec` as a BEEFY MMR leaf
/// with a 64-bit block number (the tuple of its fields, which decodes like
/// the leaf struct) and returns its extra data. The contract states the
/// SCALE format, as above.
#[verifier::external_body]
fn decode_beefy_leaf_extra_u64(bytes: &Vec<u8>) -> (r: Option<H256>)
    ensures
        r is Some <==> beefy_leaf_extra(bytes@, BlockNumberWidth::U64) is Some,
        r matches Some(h) ==> Some(h@) == beefy_leaf_extra(bytes@, BlockNumberWidth::U64),
{
    let leaf: Result<(u8, (u64, [u8; 32]), (u64, u32, [u8; 32]), [u8; 32]), _> = Decode::decode(
        &mut &bytes[..],
    );
    leaf.ok().map(|l| l.3)
}

/// The extra data of a BEEFY MMR leaf whose block numbers have width `w`.
pub(crate) fn decode_beefy_leaf_extra(bytes: &Vec<u8>, w: BlockNumberWidth) -> (r: Option<H256>)
    ensures
        r is Some <==> beefy_leaf_extra(bytes@, w) is Some,
        r matches Some(h) ==> Some(h@) == beefy_leaf_extra(bytes@, w),
{
    match w {
        BlockNumberWidth::U32 => decode_beefy_leaf_extra_u32(bytes),
        BlockNumberWidth::U64 => decode_beefy_leaf_extra_u64(bytes),
    }
}

/// Decodes the front of `bytes` with `parity_scale_codec` as a parachain
/// header (`sp_runtime::generic::Header<u32, BlakeTwo256>`) and tells whether
/// that succeeded.
#[verifier::external_body]
pub(crate) fn decode_para_header(bytes: &Vec<u8>) -> (r: bool)
    ensures
        r == para_header_decodes(bytes@),
{
    let header: Result<Header<u32, BlakeTwo256>, _> = Decode::decode(&mut &bytes[..]);
    header.is_ok()
}

/// Decodes the front of `bytes` with `parity_scale_codec` as
/// `Vec<EncodableOpaqueLeaf>` and returns each leaf's bytes.
#[verifier::external_body]
pub(crate) fn decode_opaque_leaves(bytes: &Vec<u8>) -> (r: Option<Vec<Vec<u8>>>)
    ensures
        r is Some <==> decoded_opaque_leaves(bytes@) is Some,
        r matches Some(v) ==> decoded_opaque_leaves(bytes@) == Some(leaves_view(v@)),
{
    let leaves: Result<Vec<EncodableOpaqueLeaf>, _> = Decode::decode(&mut &bytes[..]);
    leaves.ok().map(|v| v.into_iter().map(|l| l.0).collect())
}

/// Decodes the front of `bytes` with `parity_scale_codec` as an MMR
/// `LeafProof<H256>`.
#[verifier::external_body]
pub(crate) fn decode_mmr_proof(bytes: &Vec<u8>) -> (r: Option<MmrProof>)
    ensures
        r is Some <==> decoded_mmr_proof(bytes@) is Some,
        r matches Some(p) ==> decoded_mmr_proof(bytes@) == Some(
            (p.leaf_indices@, p.leaf_count, hashes_view(p.items@)),
        ),
{
    let proof: Result<LeafProof<sp_core::H256>, _> = Decode::decode(&mut &bytes[..]);
    proof.ok().map(|p| MmrProof {
        leaf_indices: p.leaf_indices,
        leaf_count: p.leaf_count,
        items: p.items.into_iter().map(|h| h.0).collect(),
    })
}

} // verus!
