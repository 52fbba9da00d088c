use parity_scale_codec::Encode;
use sp_runtime::traits::{BlakeTwo256, Keccak256};
use sp_runtime::traits::Hash as HashT;

use xcmp_message_stuffer::{
    BlockNumberWidth,
    hash_eq, hash_zero, ChannelMerkleProof, Config, DispatchError, Error, Event, MmrLeaf, MmrProof,
    Origin, Pallet, ParaLeaf, ParaMerkleProof, XcmpMessageProvider, XcmpProof, H256,
};

fn keccak(data: &[u8]) -> H256 {
    Keccak256::hash(data).0
}

fn cfg() -> Config {
    Config { para_identifier: 1000, leaf_version: 72, block_number_width: BlockNumberWidth::U32 }
}

fn alice() -> Origin {
    Origin::Signed([7u8; 32])
}

/// The root of a two-leaf MMR and the proof of its first leaf.
fn mmr_of_two(l0: &[u8], l1: &[u8]) -> (H256, MmrProof) {
    let mut concat = keccak(l0).to_vec();
    concat.extend_from_slice(&keccak(l1));
    let root = keccak(&concat);
    let proof = MmrProof { leaf_indices: vec![0], leaf_count: 2, items: vec![keccak(l1)] };
    (root, proof)
}

/// An encoded BEEFY MMR leaf (32-bit block number) with the given extra data.
fn beefy_leaf(extra: H256) -> Vec<u8> {
    let leaf: (u8, (u32, [u8; 32]), (u64, u32, [u8; 32]), [u8; 32]) =
        (16u8, (41u32, [3u8; 32]), (2u64, 5u32, [4u8; 32]), extra);
    leaf.encode()
}

fn para_header() -> Vec<u8> {
    let header = sp_runtime::generic::Header::<u32, BlakeTwo256> {
        parent_hash: Default::default(),
        number: 12,
        state_root: Default::default(),
        extrinsics_root: Default::default(),
        digest: Default::default(),
    };
    header.encode()
}

/// The parts of a valid four-stage proof, with the BEEFY root it targets and
/// the channel root that the sender's header carries.
struct Fixture {
    beefy_root: H256,
    proof: XcmpProof,
    /// The root of the sender's channel tree, as its header's digest carries it.
    channel_root: H256,
}

fn para_tree(leaves: &[ParaLeaf], index: u32) -> ParaMerkleProof {
    let encoded: Vec<Vec<u8>> = leaves.iter().map(|l| (l.para_id, &l.head_data).encode()).collect();
    let p = binary_merkle_tree::merkle_proof::<Keccak256, _, _>(encoded, index);
    ParaMerkleProof {
        root: p.root.0,
        proof: p.proof.iter().map(|h| h.0).collect(),
        num_leaves: p.number_of_leaves as u64,
        leaf_index: p.leaf_index as u64,
        leaf: leaves[index as usize].clone(),
    }
}

fn channel_tree(roots: &[H256], index: u32) -> ChannelMerkleProof {
    let p = binary_merkle_tree::merkle_proof::<Keccak256, _, _>(roots.to_vec(), index);
    ChannelMerkleProof {
        root: p.root.0,
        proof: p.proof.iter().map(|h| h.0).collect(),
        num_leaves: p.number_of_leaves as u64,
        leaf_index: p.leaf_index as u64,
        leaf: roots[index as usize],
    }
}

fn fixture_with_head(head_data: Vec<u8>) -> Fixture {
    // Stage 4: the channel's message MMR.
    let (channel_mmr_root, stage_4_proof) = mmr_of_two(b"message one", b"message two");
    // Stage 3: the sender's tree of channel roots.
    let stage_3 = channel_tree(&[[9u8; 32], channel_mmr_root, [8u8; 32]], 1);
    let digest_root = stage_3.root;
    // Stage 2: the relay chain's tree of parachain heads.
    let leaves = vec![
        ParaLeaf { para_id: 999, head_data: vec![1, 2, 3] },
        ParaLeaf { para_id: 1000, head_data },
        ParaLeaf { para_id: 2000, head_data: vec![4; 70] },
    ];
    let stage_2 = para_tree(&leaves, 1);
    // Stage 1: the BEEFY MMR whose leaf carries the stage-2 root.
    let leaf = beefy_leaf(stage_2.root);
    let (beefy_root, stage_1_proof) = mmr_of_two(&leaf, b"next beefy leaf");
    Fixture {
        beefy_root,
        proof: XcmpProof {
            stage_1: (stage_1_proof, vec![leaf]),
            stage_2,
            stage_3,
            stage_4: (stage_4_proof, vec![b"message one".to_vec()]),
        },
        channel_root: digest_root,
    }
}

fn fixture() -> Fixture {
    fixture_with_head(para_header())
}

fn pallet_that_saw(root: H256) -> Pallet {
    let mut p = Pallet::new();
    p.on_initialize(1, Some(root), 100);
    p
}

fn module(e: Error) -> Result<(), DispatchError> {
    Err(DispatchError::Module(e))
}

#[test]
fn full_xcmp_proof_is_accepted() {
    let f = fixture();
    let p = pallet_that_saw(f.beefy_root);
    let r = p.submit_xcmp_proof(&cfg(), &alice(), &f.proof, &f.beefy_root, Some(f.channel_root));
    assert_eq!(r, Ok(()));
    let t = p.try_submit_xcmp_proof(&cfg(), &alice(), &f.proof, &f.beefy_root, Some(f.channel_root));
    assert_eq!(t, Some(Ok(())));
}

#[test]
fn unsigned_xcmp_proof_is_bad_origin() {
    let f = fixture();
    let p = pallet_that_saw(f.beefy_root);
    let r = p.submit_xcmp_proof(&cfg(), &Origin::Root, &f.proof, &f.beefy_root, Some(f.channel_root));
    assert_eq!(r, Err(DispatchError::BadOrigin));
    let r = p.submit_xcmp_proof(&cfg(), &Origin::Unsigned, &f.proof, &f.beefy_root, Some(f.channel_root));
    assert_eq!(r, Err(DispatchError::BadOrigin));
}

#[test]
fn unseen_beefy_root_is_refused() {
    let f = fixture();
    let p = pallet_that_saw([1u8; 32]);
    let r = p.submit_xcmp_proof(&cfg(), &alice(), &f.proof, &f.beefy_root, Some(f.channel_root));
    assert_eq!(r, module(Error::XcmpBeefyRootTargetedNeverSeen));
}

#[test]
fn stage_1_wrong_root_does_not_verify() {
    let f = fixture();
    let other = [5u8; 32];
    let p = pallet_that_saw(other);
    let r = p.submit_xcmp_proof(&cfg(), &alice(), &f.proof, &other, Some(f.channel_root));
    assert_eq!(r, module(Error::XcmpStage1ProofDoesntVerify));
}

#[test]
fn stage_1_leaf_count_mismatch_does_not_verify() {
    let mut f = fixture();
    f.proof.stage_1.0.leaf_indices = vec![0, 1];
    let p = pallet_that_saw(f.beefy_root);
    let r = p.submit_xcmp_proof(&cfg(), &alice(), &f.proof, &f.beefy_root, Some(f.channel_root));
    assert_eq!(r, module(Error::XcmpStage1ProofDoesntVerify));
}

#[test]
fn stage_1_two_leaves_are_too_many() {
    let f = fixture();
    let l0 = f.proof.stage_1.1[0].clone();
    let l1 = b"next beefy leaf".to_vec();
    let proof = MmrProof { leaf_indices: vec![0, 1], leaf_count: 2, items: vec![] };
    let xcmp = XcmpProof { stage_1: (proof, vec![l0, l1]), ..f.proof };
    let p = pallet_that_saw(f.beefy_root);
    let r = p.submit_xcmp_proof(&cfg(), &alice(), &xcmp, &f.beefy_root, Some(f.channel_root));
    assert_eq!(r, module(Error::XcmpStage1LeavesTooLarge));
}

#[test]
fn stage_1_proof_of_no_leaf_aborts() {
    // A one-leaf MMR whose proof is its peak verifies an empty batch of leaves.
    let f = fixture();
    let root = [6u8; 32];
    let proof = MmrProof { leaf_indices: vec![], leaf_count: 1, items: vec![root] };
    let xcmp = XcmpProof { stage_1: (proof, vec![]), ..f.proof };
    let p = pallet_that_saw(root);
    assert_eq!(p.try_submit_xcmp_proof(&cfg(), &alice(), &xcmp, &root, Some(f.channel_root)), None);
}

#[test]
fn stage_1_leaf_index_beyond_range_aborts() {
    let mut f = fixture();
    f.proof.stage_1.0.leaf_indices = vec![u64::MAX];
    let p = pallet_that_saw(f.beefy_root);
    assert_eq!(p.try_submit_xcmp_proof(&cfg(), &alice(), &f.proof, &f.beefy_root, Some(f.channel_root)), None);
    // An unseen root is refused before the proof is looked at.
    let q = pallet_that_saw([0u8; 32]);
    assert_eq!(
        q.try_submit_xcmp_proof(&cfg(), &alice(), &f.proof, &f.beefy_root, Some(f.channel_root)),
        Some(module(Error::XcmpBeefyRootTargetedNeverSeen))
    );
}

#[test]
fn stage_2_short_leaf_does_not_decode() {
    let f = fixture();
    let short = vec![0u8; 112];
    let (root, proof) = mmr_of_two(&short, b"x");
    let xcmp = XcmpProof { stage_1: (proof, vec![short]), ..f.proof };
    let p = pallet_that_saw(root);
    let r = p.submit_xcmp_proof(&cfg(), &alice(), &xcmp, &root, Some(f.channel_root));
    assert_eq!(r, module(Error::XcmpStage2LeafDoesntDecode));
}

#[test]
fn stage_2_root_must_match_leaf_extra() {
    let f = fixture();
    let leaf = beefy_leaf([0xaa; 32]);
    let (root, proof) = mmr_of_two(&leaf, b"x");
    let xcmp = XcmpProof { stage_1: (proof, vec![leaf]), ..f.proof };
    let p = pallet_that_saw(root);
    let r = p.submit_xcmp_proof(&cfg(), &alice(), &xcmp, &root, Some(f.channel_root));
    assert_eq!(r, module(Error::XcmpStage2RootDoesntMatch));
}

#[test]
fn stage_2_wrong_index_does_not_verify() {
    let mut f = fixture();
    f.proof.stage_2.leaf_index = 0;
    let p = pallet_that_saw(f.beefy_root);
    let r = p.submit_xcmp_proof(&cfg(), &alice(), &f.proof, &f.beefy_root, Some(f.channel_root));
    assert_eq!(r, module(Error::XcmpStage2ProofDoesntVerify));
}

#[test]
fn stage_2_leaf_is_encoded_before_hashing() {
    // The tree holds the SCALE encoding of the leaf; a tree of the raw head
    // data does not verify it.
    let f = fixture();
    let leaf = f.proof.stage_2.leaf.clone();
    let p = binary_merkle_tree::merkle_proof::<Keccak256, _, _>(vec![leaf.head_data.clone()], 0);
    let stage_2 = ParaMerkleProof {
        root: p.root.0,
        proof: vec![],
        num_leaves: 1,
        leaf_index: 0,
        leaf,
    };
    let beefy = beefy_leaf(stage_2.root);
    let (root, proof) = mmr_of_two(&beefy, b"x");
    let xcmp = XcmpProof { stage_1: (proof, vec![beefy]), stage_2, ..f.proof };
    let pallet = pallet_that_saw(root);
    let r = pallet.submit_xcmp_proof(&cfg(), &alice(), &xcmp, &root, Some(f.channel_root));
    assert_eq!(r, module(Error::XcmpStage2ProofDoesntVerify));
}

#[test]
fn stage_2_index_at_leaf_count_does_not_verify() {
    let mut f = fixture();
    f.proof.stage_2.leaf_index = f.proof.stage_2.num_leaves;
    let p = pallet_that_saw(f.beefy_root);
    let r = p.submit_xcmp_proof(&cfg(), &alice(), &f.proof, &f.beefy_root, Some(f.channel_root));
    assert_eq!(r, module(Error::XcmpStage2ProofDoesntVerify));
}

#[test]
fn stage_2_count_beyond_u32_aborts() {
    let mut f = fixture();
    f.proof.stage_2.num_leaves = 1u64 << 32;
    let p = pallet_that_saw(f.beefy_root);
    assert_eq!(p.try_submit_xcmp_proof(&cfg(), &alice(), &f.proof, &f.beefy_root, Some(f.channel_root)), None);
}

#[test]
fn stage_3_header_must_decode() {
    let f = fixture_with_head(vec![1, 2, 3]);
    let p = pallet_that_saw(f.beefy_root);
    let r = p.submit_xcmp_proof(&cfg(), &alice(), &f.proof, &f.beefy_root, Some(f.channel_root));
    assert_eq!(r, module(Error::XcmpStage3HeaderDoesntDecode));
}

#[test]
fn stage_3_root_must_be_in_digest() {
    let f = fixture();
    let p = pallet_that_saw(f.beefy_root);
    let r = p.submit_xcmp_proof(&cfg(), &alice(), &f.proof, &f.beefy_root, None);
    assert_eq!(r, module(Error::XcmpStage3CannotBeExtracted));
}

#[test]
fn stage_3_root_must_match_digest() {
    let f = fixture();
    let p = pallet_that_saw(f.beefy_root);
    let r = p.submit_xcmp_proof(&cfg(), &alice(), &f.proof, &f.beefy_root, Some([0x11; 32]));
    assert_eq!(r, module(Error::XcmpStage3RootDoesntMatch));
}

#[test]
fn stage_3_wrong_leaf_does_not_verify() {
    let mut f = fixture();
    let digest = f.proof.stage_3.root;
    f.proof.stage_3.leaf = [0x22; 32];
    let p = pallet_that_saw(f.beefy_root);
    let r = p.submit_xcmp_proof(&cfg(), &alice(), &f.proof, &f.beefy_root, Some(digest));
    assert_eq!(r, module(Error::XcmpStage3ProofDoesntVerify));
}

#[test]
fn stage_4_wrong_message_does_not_verify() {
    let mut f = fixture();
    f.proof.stage_4.1 = vec![b"forged message".to_vec()];
    let p = pallet_that_saw(f.beefy_root);
    let digest = f.proof.stage_3.root;
    let r = p.submit_xcmp_proof(&cfg(), &alice(), &f.proof, &f.beefy_root, Some(digest));
    assert_eq!(r, module(Error::XcmpStage4ProofDoesntVerify));
}

#[test]
fn extract_channel_root_from_leaf() {
    let good = ParaLeaf { para_id: 1, head_data: para_header() };
    let bad = ParaLeaf { para_id: 1, head_data: vec![0; 10] };
    assert_eq!(Pallet::extract_xcmp_channel_root(&good, Some([3; 32])), Ok([3; 32]));
    assert_eq!(Pallet::extract_xcmp_channel_root(&good, None), Err(Error::XcmpStage3CannotBeExtracted));
    assert_eq!(Pallet::extract_xcmp_channel_root(&bad, Some([3; 32])), Err(Error::XcmpStage3HeaderDoesntDecode));
}

#[test]
fn initialized_root_becomes_targetable() {
    let f = fixture();
    let mut p = Pallet::new();
    assert_eq!(
        p.try_submit_xcmp_proof(&cfg(), &alice(), &f.proof, &f.beefy_root, Some(f.channel_root)),
        Some(module(Error::XcmpBeefyRootTargetedNeverSeen))
    );
    p.on_initialize(5, Some(f.beefy_root), 1);
    assert_eq!(
        p.try_submit_xcmp_proof(&cfg(), &alice(), &f.proof, &f.beefy_root, Some(f.channel_root)),
        Some(Ok(()))
    );
}

#[test]
fn on_initialize_records_roots() {
    let mut p = Pallet::new();
    assert_eq!(p.seen_beefy_roots(&[1; 32]), None);
    assert_eq!(p.on_initialize(1, Some([1; 32]), 25), 75);
    assert_eq!(p.on_initialize(2, None, u64::MAX / 2), u64::MAX);
    assert_eq!(p.on_initialize(3, Some([1; 32]), 0), 0);
    assert_eq!(p.seen_beefy_roots(&[1; 32]), Some(3));
    assert_eq!(p.seen_beefy_roots(&hash_zero()), Some(2));
    assert_eq!(p.seen_beefy_roots(&[2; 32]), None);
    assert_eq!(p.seen_beefy_roots_order(), &vec![[1; 32], [0; 32], [1; 32]]);
}

#[test]
fn update_root_reads_back() {
    let mut p = Pallet::new();
    assert_eq!(p.xcmp_channel_roots(0), None);
    assert_eq!(p.update_root(&alice(), [4; 32], 0), Ok(()));
    assert_eq!(p.update_root(&alice(), [5; 32], 1), Ok(()));
    assert_eq!(p.xcmp_channel_roots(0), Some([4; 32]));
    assert_eq!(p.update_root(&alice(), [6; 32], 0), Ok(()));
    assert_eq!(p.xcmp_channel_roots(0), Some([6; 32]));
    assert_eq!(p.xcmp_channel_roots(1), Some([5; 32]));
    assert_eq!(p.update_root(&Origin::Root, [7; 32], 0), Err(DispatchError::BadOrigin));
    assert_eq!(p.xcmp_channel_roots(0), Some([6; 32]));
    assert_eq!(p.xcmp_channel_roots(2), None);
}

#[test]
fn test_proof_checked_against_set_root() {
    let (root, proof) = mmr_of_two(b"m0", b"m1");
    let leaves = vec![b"m0".to_vec()];
    let mut p = Pallet::new();
    assert_eq!(
        p.submit_test_proof(&alice(), &proof, &leaves, 3),
        Err(DispatchError::Module(Error::XcmpNoChannelRootForChannelId))
    );
    p.update_root(&alice(), root, 3).unwrap();
    assert_eq!(
        p.submit_test_proof(&alice(), &proof, &leaves, 3),
        Ok(Event::XcmpMessagesAccepted { mmr_channel_root: root, channel_id: 3 })
    );
    assert_eq!(
        p.submit_test_proof(&alice(), &proof, &vec![b"m1".to_vec()], 3),
        Err(DispatchError::Module(Error::XcmpProofNotValid))
    );
    assert_eq!(p.submit_test_proof(&Origin::Unsigned, &proof, &leaves, 3), Err(DispatchError::BadOrigin));
}

#[test]
fn channel_merkle_proof_default_is_zero() {
    let d = ChannelMerkleProof::default();
    assert_eq!(d.root, [0u8; 32]);
    assert!(d.proof.is_empty());
    assert_eq!(d.num_leaves, 0);
    assert_eq!(d.leaf_index, 0);
    assert_eq!(d.leaf, [0u8; 32]);
}

#[test]
fn hashes_compare_bytewise() {
    assert!(hash_eq(&[3; 32], &[3; 32]));
    let mut b = [3u8; 32];
    b[31] = 4;
    assert!(!hash_eq(&[3; 32], &b));
}

struct TwoMessages;

impl XcmpMessageProvider for TwoMessages {
    fn messages_for(block_hash: vstd::seq::Seq<u8>, para_id: u32) -> vstd::seq::Seq<u8> {
        let b = para_id.to_le_bytes();
        block_hash.push(b[0]).push(b[1]).push(b[2]).push(b[3])
    }

    fn get_xcmp_messages(block_hash: H256, para_id: u32) -> Vec<u8> {
        let mut m = block_hash.to_vec();
        m.extend_from_slice(&para_id.to_le_bytes());
        m
    }
}

#[test]
fn leaf_data_hashes_the_messages() {
    let config = Config { para_identifier: 1000, leaf_version: 72, block_number_width: BlockNumberWidth::U32 };
    let (leaf, event) = Pallet::leaf_data::<TwoMessages>(&config, 9, [0x45; 32]);
    let mut expected = vec![0x45u8; 32];
    expected.extend_from_slice(&1000u32.to_le_bytes());
    assert_eq!(leaf.xcmp_msgs, expected);
    assert_eq!(leaf.version, 72);
    assert_eq!(leaf.parent_number_and_hash, (9, [0x45; 32]));
    let hash = BlakeTwo256::hash(&expected).0;
    assert_eq!(event, Event::XcmpMessageSent { msg_hash: hash, block_num: 9 });
    assert_ne!(hash.to_vec(), expected[..32].to_vec());
}

#[test]
fn accepted_proof_stays_accepted_across_blocks() {
    let f = fixture();
    let mut p = pallet_that_saw(f.beefy_root);
    p.on_initialize(2, Some([0x31; 32]), 1);
    p.on_initialize(3, None, 1);
    p.update_root(&alice(), [0x32; 32], 0).unwrap();
    let r = p.submit_xcmp_proof(&cfg(), &alice(), &f.proof, &f.beefy_root, Some(f.channel_root));
    assert_eq!(r, Ok(()));
}

#[test]
fn out_of_range_index_with_count_mismatch_is_rejected() {
    // An index beyond 2^63 - 1 is never read when the number of indices
    // differs from the number of leaves: the proof is refused.
    let f = fixture();
    let root = [6u8; 32];
    let proof = MmrProof { leaf_indices: vec![1u64 << 63], leaf_count: 1, items: vec![] };
    let xcmp = XcmpProof { stage_1: (proof, vec![]), ..f.proof };
    let p = pallet_that_saw(root);
    assert_eq!(
        p.try_submit_xcmp_proof(&cfg(), &alice(), &xcmp, &root, Some(f.channel_root)),
        Some(module(Error::XcmpStage1ProofDoesntVerify))
    );
    let mut q = Pallet::new();
    q.update_root(&alice(), root, 4).unwrap();
    let bad = MmrProof { leaf_indices: vec![1u64 << 63, 0], leaf_count: 3, items: vec![] };
    assert_eq!(
        q.submit_test_proof(&alice(), &bad, &vec![b"m".to_vec()], 4),
        Err(DispatchError::Module(Error::XcmpProofNotValid))
    );
}

#[test]
fn stage_4_out_of_range_index_with_count_mismatch_is_rejected() {
    let mut f = fixture();
    f.proof.stage_4.0.leaf_indices = vec![u64::MAX, 0];
    let p = pallet_that_saw(f.beefy_root);
    let digest = f.proof.stage_3.root;
    assert_eq!(
        p.try_submit_xcmp_proof(&cfg(), &alice(), &f.proof, &f.beefy_root, Some(digest)),
        Some(module(Error::XcmpStage4ProofDoesntVerify))
    );
}

#[test]
fn mmr_leaf_holds_given_messages() {
    let config = Config { para_identifier: 7, leaf_version: 72, block_number_width: BlockNumberWidth::U32 };
    let msgs = vec![1u8, 2, 3];
    let (leaf, event) = Pallet::mmr_leaf_for(&config, 0, [0x45; 32], msgs.clone());
    assert_eq!(leaf, MmrLeaf { xcmp_msgs: msgs.clone(), version: 72, parent_number_and_hash: (0, [0x45; 32]) });
    assert_eq!(event, Event::XcmpMessageSent { msg_hash: BlakeTwo256::hash(&msgs).0, block_num: 0 });
}

/// An encoded BEEFY MMR leaf with a 64-bit block number.
fn beefy_leaf_u64(extra: H256) -> Vec<u8> {
    let leaf: (u8, (u64, [u8; 32]), (u64, u32, [u8; 32]), [u8; 32]) =
        (16u8, (41u64, [3u8; 32]), (2u64, 5u32, [4u8; 32]), extra);
    leaf.encode()
}

#[test]
fn beefy_leaf_decoded_with_the_runtime_block_number() {
    let f = fixture();
    let stage_2_root = f.proof.stage_2.root;
    let leaf = beefy_leaf_u64(stage_2_root);
    assert_eq!(leaf.len(), 117);
    let (root, proof) = mmr_of_two(&leaf, b"x");
    let xcmp = XcmpProof { stage_1: (proof, vec![leaf]), ..f.proof };
    let p = pallet_that_saw(root);
    let wide = Config { block_number_width: BlockNumberWidth::U64, ..cfg() };
    assert_eq!(p.submit_xcmp_proof(&wide, &alice(), &xcmp, &root, Some(f.channel_root)), Ok(()));
    // Read with 32-bit block numbers, the extra data is taken four bytes early.
    assert_eq!(
        p.submit_xcmp_proof(&cfg(), &alice(), &xcmp, &root, Some(f.channel_root)),
        module(Error::XcmpStage2RootDoesntMatch)
    );
    // A 32-bit leaf is too short for 64-bit block numbers only when it has
    // fewer than 117 bytes.
    let short = beefy_leaf(stage_2_root);
    let (root2, proof2) = mmr_of_two(&short, b"x");
    let xcmp2 = XcmpProof { stage_1: (proof2, vec![short]), ..fixture().proof };
    let q = pallet_that_saw(root2);
    assert_eq!(
        q.submit_xcmp_proof(&wide, &alice(), &xcmp2, &root2, Some(f.channel_root)),
        module(Error::XcmpStage2LeafDoesntDecode)
    );
}
