use parity_scale_codec::Encode;
use sp_mmr_primitives::{EncodableOpaqueLeaf, LeafProof};

use xcmp_message_stuffer::relayer::{
    do_mean, prepare_test_proof, proof_fetch_step, proof_submission_due, ProofBuildError,
    ProofFetchStep, ProofRequestOutcome, MAX_ATTEMPTS, RETRY_INTERVAL,
};
use xcmp_message_stuffer::{
    ClientType, LeavesProof, MmrProof, ParaLeaf, ParaMerkleProof, ProofSizeBenchmark, RelayStore,
    RelayerError,
};

#[test]
fn client_types_by_index() {
    assert_eq!(ClientType::from_index(0), ClientType::Sender);
    assert_eq!(ClientType::from_index(1), ClientType::Receiver);
    assert_eq!(ClientType::from_index(2), ClientType::Relay);
    assert_eq!(ClientType::from_index(2).describe(), "ClientType Relay");
    assert_eq!(ClientType::Sender.describe(), "ClientType Sender");
    assert_eq!(ClientType::Receiver.describe(), "ClientType Receiver");
    assert_eq!(RelayerError::Default.describe(), "Relayer Error Default");
}

#[test]
fn mean_rounds_down() {
    assert_eq!(do_mean(&[4]), 4);
    assert_eq!(do_mean(&[1, 2]), 1);
    assert_eq!(do_mean(&[3, 4, 8]), 5);
    assert_eq!(do_mean(&[u64::MAX, 0]), u64::MAX / 2);
}

#[test]
fn benchmark_grows_query_and_averages() {
    let mut b = ProofSizeBenchmark::new();
    assert_eq!(b.blocks_to_query, vec![1]);
    assert_eq!(b.record(10), 10);
    assert_eq!(b.record(21), 15);
    assert_eq!(b.record(30), 20);
    assert_eq!(b.blocks_to_query, vec![1, 1, 2, 3]);
    assert_eq!(b.counter, 4);
    assert_eq!(b.proof_sizes, vec![10, 21, 30]);
}

#[test]
fn proof_requests_retry_three_times() {
    let mut attempts = 0u32;
    let mut requests = 0;
    loop {
        requests += 1;
        match proof_fetch_step(attempts, ProofRequestOutcome::Failed) {
            ProofFetchStep::Retry { attempts: a, wait_secs } => {
                assert_eq!(a, attempts + 1);
                assert_eq!(wait_secs, RETRY_INTERVAL);
                attempts = a;
            }
            ProofFetchStep::GiveUpFailed => break,
            other => panic!("unexpected step {:?}", other),
        }
    }
    assert_eq!(requests, MAX_ATTEMPTS + 1);
    assert_eq!(proof_fetch_step(2, ProofRequestOutcome::Proof), ProofFetchStep::Deliver);
    assert_eq!(proof_fetch_step(0, ProofRequestOutcome::NoProof), ProofFetchStep::GiveUpNoProof);
}

#[test]
fn submission_due_when_roots_match() {
    assert!(proof_submission_due(Some([2; 32]), &[2; 32]));
    assert!(!proof_submission_due(Some([2; 32]), &[3; 32]));
    assert!(proof_submission_due(None, &[0; 32]));
    assert!(!proof_submission_due(None, &[1; 32]));
}

fn rpc_proof() -> LeavesProof {
    let leaves = vec![EncodableOpaqueLeaf(vec![1, 2, 3]), EncodableOpaqueLeaf(vec![])];
    let proof = LeafProof::<sp_core::H256> {
        leaf_indices: vec![0, 5],
        leaf_count: 9,
        items: vec![sp_core::H256([7; 32])],
    };
    LeavesProof { block_hash: [1; 32], leaves: leaves.encode(), proof: proof.encode() }
}

#[test]
fn test_proof_decodes_leaves_and_proof() {
    let (proof, leaves) = prepare_test_proof(&rpc_proof()).unwrap();
    assert_eq!(leaves, vec![vec![1, 2, 3], vec![]]);
    assert_eq!(proof, MmrProof { leaf_indices: vec![0, 5], leaf_count: 9, items: vec![[7; 32]] });
}

#[test]
fn test_proof_decode_errors() {
    let mut bad_leaves = rpc_proof();
    bad_leaves.leaves = vec![0x04];
    bad_leaves.proof = vec![];
    assert_eq!(prepare_test_proof(&bad_leaves), Err(ProofBuildError::LeavesDontDecode));
    let mut bad_proof = rpc_proof();
    bad_proof.proof = vec![0x04, 1];
    assert_eq!(prepare_test_proof(&bad_proof), Err(ProofBuildError::ProofDoesntDecode));
}

fn para_proof() -> ParaMerkleProof {
    ParaMerkleProof {
        root: [8; 32],
        proof: vec![[9; 32]],
        num_leaves: 3,
        leaf_index: 1,
        leaf: ParaLeaf { para_id: 1000, head_data: vec![5, 6] },
    }
}

#[test]
fn relay_store_reads_back() {
    let mut s = RelayStore::new();
    assert!(s.beefy_proof(&[1; 32]).is_none());
    s.record_beefy_proof([1; 32], 10, rpc_proof());
    let mut newer = rpc_proof();
    newer.block_hash = [2; 32];
    s.record_beefy_proof([1; 32], 11, newer.clone());
    s.record_beefy_proof([3; 32], 12, rpc_proof());
    assert_eq!(s.beefy_proof(&[1; 32]), Some(&(11, newer)));
    assert_eq!(s.beefy_proof(&[3; 32]).map(|p| p.0), Some(12));
    s.record_para_heads_proof([1; 32], para_proof());
    assert_eq!(s.para_heads_proof(&[1; 32]), Some(&para_proof()));
    assert!(s.para_heads_proof(&[3; 32]).is_none());
}

#[test]
fn relayed_proof_needs_both_records() {
    let mut s = RelayStore::new();
    assert_eq!(
        s.build_proof(&[1; 32]).map(|_| ()),
        Err(ProofBuildError::Relayer(RelayerError::Default))
    );
    s.record_beefy_proof([1; 32], 10, rpc_proof());
    assert_eq!(
        s.build_proof(&[1; 32]).map(|_| ()),
        Err(ProofBuildError::Relayer(RelayerError::Default))
    );
    s.record_para_heads_proof([1; 32], para_proof());
    let (n, p) = s.build_proof(&[1; 32]).unwrap();
    assert_eq!(n, 10);
    assert_eq!(p.stage_1.1, vec![vec![1, 2, 3], vec![]]);
    assert_eq!(p.stage_1.0.leaf_indices, vec![0, 5]);
    assert_eq!(p.stage_2, para_proof());
    assert_eq!(p.stage_4.0, MmrProof { leaf_indices: vec![], leaf_count: 0, items: vec![] });
    assert!(p.stage_4.1.is_empty());
}
