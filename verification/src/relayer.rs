use vstd::prelude::*;

use crate::assoc::{
    assoc_map, keys_distinct, lemma_assoc_domain, lemma_assoc_lookup, lemma_assoc_push,
    lemma_assoc_update,
};
use crate::hash::{find_hash_key, hash_eq, zero_hash, H256};
use crate::proofs::{copy_bytes, leaves_view, hashes_view, MmrProof, ParaMerkleProof};
use crate::scale::{decode_mmr_proof, decode_opaque_leaves, decoded_mmr_proof, decoded_opaque_leaves};

verus! {

/// The three chains the relayer follows.
#[derive(Debug, Clone, Copy, PartialEq, Eq, Structural)]
pub enum ClientType {
    Sender,
    Receiver,
    Relay,
}

impl ClientType {
    /// The client at a position of the relayer's client list: sender,
    /// receiver, relay chain.
    pub fn from_index(index: usize) -> (r: Self)
        requires
            index < 3,
        ensures
            index == 0 ==> r == ClientType::Sender,
            index == 1 ==> r == ClientType::Receiver,
            index == 2 ==> r == ClientType::Relay,
    {
        match index {
            0 => ClientType::Sender,
            1 => ClientType::Receiver,
            _ => ClientType::Relay,
        }
    }

    /// How the client type is shown in logs.
    pub open spec fn spec_describe(self) -> Seq<char> {
        match self {
            ClientType::Sender => "ClientType Sender"@,
            ClientType::Receiver => "ClientType Receiver"@,
            ClientType::Relay => "ClientType Relay"@,
        }
    }

    /// How the client type is shown in logs.
    pub fn describe(&self) -> (s: String)
        ensures
            s@ == self.spec_describe(),
    {
        match self {
            ClientType::Sender => "ClientType Sender".to_owned(),
            ClientType::Receiver => "ClientType Receiver".to_owned(),
            ClientType::Relay => "ClientType Relay".to_owned(),
        }
    }
}

/// The relayer's error.
#[derive(Debug, Clone, Copy, PartialEq, Eq, Structural)]
pub enum RelayerError {
    Default,
}

impl RelayerError {
    /// How the error is shown.
    pub fn describe(&self) -> (s: String)
        ensures
            s@ == "Relayer Error Default"@,
    {
        "Relayer Error Default".to_owned()
    }
}

/// The sum of a list of numbers.
pub open spec fn seq_sum(s: Seq<u64>) -> int
    decreases s.len(),
{
    if s.len() == 0 {
        0
    } else {
        seq_sum(s.drop_last()) + s.last()
    }
}

/// Sums of prefixes never exceed the sum of the whole list.
pub proof fn lemma_prefix_sum_bounded(s: Seq<u64>, i: int)
    requires
        0 <= i <= s.len(),
    ensures
        0 <= seq_sum(s.take(i)) <= seq_sum(s),
    decreases s.len(),
{
    if s.len() > 0 {
        if i == s.len() {
            assert(s.take(i) =~= s);
            lemma_prefix_sum_bounded(s.drop_last(), i - 1);
            assert(s.drop_last().take(i - 1) =~= s.drop_last());
        } else {
            lemma_prefix_sum_bounded(s.drop_last(), i);
            assert(s.drop_last().take(i) =~= s.take(i));
        }
    }
}

/// The mean of a non-empty list of numbers, rounded down. The list's sum
/// must fit in a `u64`, as the running sum is a `u64`.
pub fn do_mean(vec: &[u64]) -> (r: u64)
    requires
        vec@.len() > 0,
        seq_sum(vec@) <= u64::MAX,
    ensures
        r == seq_sum(vec@) / (vec@.len() as int),
{
    let mut sum: u64 = 0;
    let len = vec.len();
    let mut i: usize = 0;
    while i < len
        invariant
            len == vec@.len(),
            0 <= i <= len,
            sum == seq_sum(vec@.take(i as int)),
            seq_sum(vec@) <= u64::MAX,
        decreases len - i,
    {
        proof {
            lemma_prefix_sum_bounded(vec@, i + 1);
            assert(vec@.take(i + 1).drop_last() =~= vec@.take(i as int));
        }
        sum = sum + vec[i];
        i += 1;
    }
    assert(vec@.take(len as int) =~= vec@);
    sum / (len as u64)
}

/// The bookkeeping of the relayer's MMR proof-size benchmark: the sizes of
/// the proofs received so far, the block numbers to ask a proof for next,
/// and the counter that gives the next block number to add.
pub struct ProofSizeBenchmark {
    pub proof_sizes: Vec<u64>,
    pub blocks_to_query: Vec<u64>,
    pub counter: u64,
}

impl ProofSizeBenchmark {
    /// No proof received yet; block 1 is asked for first.
    pub fn new() -> (b: Self)
        ensures
            b.proof_sizes@ == Seq::<u64>::empty(),
            b.blocks_to_query@ == seq![1u64],
            b.counter == 1,
    {
        let mut blocks_to_query: Vec<u64> = Vec::new();
        blocks_to_query.push(1u64);
        ProofSizeBenchmark { proof_sizes: Vec::new(), blocks_to_query, counter: 1u64 }
    }

    /// Records a received proof of `proof_size` bytes: the current counter is
    /// added to the blocks to ask for, the counter moves on, and the mean
    /// proof size so far is returned.
    pub fn record(&mut self, proof_size: u64) -> (mean: u64)
        requires
            old(self).counter < u64::MAX,
            seq_sum(old(self).proof_sizes@) + proof_size <= u64::MAX,
        ensures
            final(self).blocks_to_query@ == old(self).blocks_to_query@.push(old(self).counter),
            final(self).counter == old(self).counter + 1,
            final(self).proof_sizes@ == old(self).proof_sizes@.push(proof_size),
            mean == seq_sum(final(self).proof_sizes@) / (final(self).proof_sizes@.len() as int),
    {
        self.blocks_to_query.push(self.counter);
        self.counter = self.counter + 1;
        let ghost old_sizes = self.proof_sizes@;
        self.proof_sizes.push(proof_size);
        assert(self.proof_sizes@.drop_last() =~= old_sizes);
        do_mean(self.proof_sizes.as_slice())
    }
}

/// The number of times an MMR proof is asked for before giving up.
pub const MAX_ATTEMPTS: u32 = 3;

/// Seconds to wait before asking again.
pub const RETRY_INTERVAL: u64 = 4;

/// What a request for an MMR proof gave.
#[derive(Debug, Clone, Copy, PartialEq, Eq, Structural)]
pub enum ProofRequestOutcome {
    /// The node answered with a proof.
    Proof,
    /// The node answered that it has no proof.
    NoProof,
    /// The request failed.
    Failed,
}

/// What the relayer does next when fetching an MMR proof.
#[derive(Debug, Clone, Copy, PartialEq, Eq, Structural)]
pub enum ProofFetchStep {
    /// Return the proof.
    Deliver,
    /// Give up: the node has no proof.
    GiveUpNoProof,
    /// Give up with the request's error.
    GiveUpFailed,
    /// Wait and ask again, having now failed `attempts` times.
    Retry { attempts: u32, wait_secs: u64 },
}

/// The next step after a request, `attempts` failed requests before it.
pub open spec fn spec_proof_fetch_step(attempts: u32, outcome: ProofRequestOutcome) -> ProofFetchStep {
    match outcome {
        ProofRequestOutcome::Proof => ProofFetchStep::Deliver,
        ProofRequestOutcome::NoProof => ProofFetchStep::GiveUpNoProof,
        ProofRequestOutcome::Failed => if attempts < MAX_ATTEMPTS {
            ProofFetchStep::Retry { attempts: (attempts + 1) as u32, wait_secs: RETRY_INTERVAL }
        } else {
            ProofFetchStep::GiveUpFailed
        },
    }
}

/// The retry policy of MMR proof requests: a failed request is retried after
/// `RETRY_INTERVAL` seconds while fewer than `MAX_ATTEMPTS` requests have
/// failed before it.
pub fn proof_fetch_step(attempts: u32, outcome: ProofRequestOutcome) -> (step: ProofFetchStep)
    ensures
        step == spec_proof_fetch_step(attempts, outcome),
{
    match outcome {
        ProofRequestOutcome::Proof => ProofFetchStep::Deliver,
        ProofRequestOutcome::NoProof => ProofFetchStep::GiveUpNoProof,
        ProofRequestOutcome::Failed => {
            if attempts < MAX_ATTEMPTS {
                ProofFetchStep::Retry { attempts: attempts + 1, wait_secs: RETRY_INTERVAL }
            } else {
                ProofFetchStep::GiveUpFailed
            }
        },
    }
}

/// The number of requests made, from `attempts` earlier failures on, when
/// every request fails.
pub open spec fn requests_when_all_fail(attempts: u32) -> nat
    decreases MAX_ATTEMPTS - attempts,
{
    match spec_proof_fetch_step(attempts, ProofRequestOutcome::Failed) {
        ProofFetchStep::Retry { attempts: next, .. } => if next > attempts {
            1 + requests_when_all_fail(next)
        } else {
            1
        },
        _ => 1,
    }
}

/// When every request fails, the relayer asks `MAX_ATTEMPTS + 1` times in
/// all and then gives up; a retry always counts one more failure.
pub proof fn law_proof_requests_bounded(attempts: u32)
    ensures
        requests_when_all_fail(0) == MAX_ATTEMPTS + 1,
        spec_proof_fetch_step(attempts, ProofRequestOutcome::Failed) matches ProofFetchStep::Retry {
            attempts: next,
            wait_secs,
        } ==> next == attempts + 1 && wait_secs == RETRY_INTERVAL && next <= MAX_ATTEMPTS,
{
    reveal_with_fuel(requests_when_all_fail, 5);
}

/// A node's answer ends the fetch whatever the number of earlier failed
/// requests: a proof is delivered and an answer without one gives up as
/// such. The attempt budget limits failed requests only: a failure is
/// retried, counting one more failure, while fewer than `MAX_ATTEMPTS`
/// requests failed before it, and gives up with its error after that.
pub proof fn law_answers_end_the_fetch(attempts: u32)
    ensures
        spec_proof_fetch_step(attempts, ProofRequestOutcome::Proof) == ProofFetchStep::Deliver,
        spec_proof_fetch_step(attempts, ProofRequestOutcome::NoProof)
            == ProofFetchStep::GiveUpNoProof,
        attempts < MAX_ATTEMPTS ==> spec_proof_fetch_step(attempts, ProofRequestOutcome::Failed)
            == (ProofFetchStep::Retry { attempts: (attempts + 1) as u32, wait_secs: RETRY_INTERVAL }),
        attempts >= MAX_ATTEMPTS ==> spec_proof_fetch_step(attempts, ProofRequestOutcome::Failed)
            == ProofFetchStep::GiveUpFailed,
{
}

/// An MMR proof as a node's RPC gives it: the block it was made at, and the
/// SCALE-encoded leaves and proof.
#[derive(Debug, Clone, PartialEq, Eq)]
pub struct LeavesProof {
    pub block_hash: H256,
    pub leaves: Vec<u8>,
    pub proof: Vec<u8>,
}

impl LeavesProof {
    /// A copy with the same contents.
    pub fn duplicate(&self) -> (r: Self)
        ensures
            r.block_hash == self.block_hash,
            r.leaves@ == self.leaves@,
            r.proof@ == self.proof@,
    {
        LeavesProof {
            block_hash: self.block_hash,
            leaves: copy_bytes(&self.leaves),
            proof: copy_bytes(&self.proof),
        }
    }
}

/// Whether the relayer submits its test proof now: when the channel root on
/// chain (the zero hash when none could be read) is the root that the proof
/// was made against.
pub open spec fn spec_proof_submission_due(onchain_root: Option<H256>, root: Seq<u8>) -> bool {
    match onchain_root {
        Some(r) => r@ == root,
        None => zero_hash() == root,
    }
}

/// Decides whether the relayer submits its test proof now.
pub fn proof_submission_due(onchain_root: Option<H256>, root: &H256) -> (r: bool)
    ensures
        r == spec_proof_submission_due(onchain_root, root@),
{
    let onchain = match onchain_root {
        Some(r) => r,
        None => crate::hash::hash_zero(),
    };
    hash_eq(&onchain, root)
}

/// What the relayer keeps per BEEFY root: the relay block and MMR proof of
/// the BEEFY leaf, and the proof of the sender's head in the parachain-heads
/// tree.
pub struct RelayStore {
    beefy_mmr: Vec<(H256, (u32, LeavesProof))>,
    para_heads: Vec<(H256, ParaMerkleProof)>,
}

/// The relayer's store, as maps keyed by the bytes of the BEEFY root.
#[verifier::ext_equal]
pub struct RelayStoreState {
    pub beefy_mmr: Map<Seq<u8>, (u32, LeavesProof)>,
    pub para_heads: Map<Seq<u8>, ParaMerkleProof>,
}

/// The BEEFY entries keyed by the bytes of their root.
pub open spec fn beefy_entries(s: Seq<(H256, (u32, LeavesProof))>) -> Seq<(Seq<u8>, (u32, LeavesProof))> {
    s.map_values(|e: (H256, (u32, LeavesProof))| (e.0@, e.1))
}

/// The parachain-heads entries keyed by the bytes of their root.
pub open spec fn para_entries(s: Seq<(H256, ParaMerkleProof)>) -> Seq<(Seq<u8>, ParaMerkleProof)> {
    s.map_values(|e: (H256, ParaMerkleProof)| (e.0@, e.1))
}

impl View for RelayStore {
    type V = RelayStoreState;

    closed spec fn view(&self) -> RelayStoreState {
        RelayStoreState {
            beefy_mmr: assoc_map(beefy_entries(self.beefy_mmr@)),
            para_heads: assoc_map(para_entries(self.para_heads@)),
        }
    }
}

/// The relayer's test proofs go to this channel.
pub const TEST_CHANNEL_ID: u64 = 0;

/// The parts of the relayer's XCMP proof: stage 1 from the BEEFY MMR, stage 2
/// from the parachain-heads tree, and stage 4 (not built yet: an empty
/// proof of no leaves).
#[derive(Debug, PartialEq, Eq)]
pub struct RelayedProof {
    pub stage_1: (MmrProof, Vec<Vec<u8>>),
    pub stage_2: ParaMerkleProof,
    pub stage_4: (MmrProof, Vec<Vec<u8>>),
}

/// Why the relayer could not build a proof.
#[derive(Debug, Clone, Copy, PartialEq, Eq, Structural)]
pub enum ProofBuildError {
    /// Nothing is stored for the BEEFY root.
    Relayer(RelayerError),
    /// The MMR leaves do not decode.
    LeavesDontDecode,
    /// The MMR proof does not decode.
    ProofDoesntDecode,
}

/// Decoding an RPC proof's leaves and then its proof: the leaves' error
/// comes first.
pub open spec fn decoded_leaves_proof(p: LeavesProof) -> Result<((Seq<u64>, u64, Seq<Seq<u8>>), Seq<Seq<u8>>), ProofBuildError> {
    match decoded_opaque_leaves(p.leaves@) {
        None => Err(ProofBuildError::LeavesDontDecode),
        Some(leaves) => match decoded_mmr_proof(p.proof@) {
            None => Err(ProofBuildError::ProofDoesntDecode),
            Some(proof) => Ok((proof, leaves)),
        },
    }
}

/// The leaves and MMR proof of an RPC proof, decoded (leaves first).
pub fn prepare_test_proof(p: &LeavesProof) -> (r: Result<(MmrProof, Vec<Vec<u8>>), ProofBuildError>)
    ensures
        r is Ok <==> decoded_leaves_proof(*p) is Ok,
        r matches Err(e) ==> decoded_leaves_proof(*p) == Err::<((Seq<u64>, u64, Seq<Seq<u8>>), Seq<Seq<u8>>), ProofBuildError>(e),
        r matches Ok(x) ==> decoded_leaves_proof(*p) == Ok::<((Seq<u64>, u64, Seq<Seq<u8>>), Seq<Seq<u8>>), ProofBuildError>(
            ((x.0.leaf_indices@, x.0.leaf_count, hashes_view(x.0.items@)), leaves_view(x.1@)),
        ),
{
    let leaves = match decode_opaque_leaves(&p.leaves) {
        Some(l) => l,
        None => {
            return Err(ProofBuildError::LeavesDontDecode);
        },
    };
    let proof = match decode_mmr_proof(&p.proof) {
        Some(q) => q,
        None => {
            return Err(ProofBuildError::ProofDoesntDecode);
        },
    };
    Ok((proof, leaves))
}

/// Decoding an RPC proof gives exactly what the two decoders give, in
/// order and unchanged: the proof's indices, leaf count and items as the
/// proof decoder reads them, and the leaves as the leaf decoder reads them.
/// Leaves that do not decode are reported first, then a proof that does not.
pub proof fn law_decoded_proof_is_what_the_decoders_give(
    p: LeavesProof,
    leaves: Seq<Seq<u8>>,
    proof: (Seq<u64>, u64, Seq<Seq<u8>>),
)
    ensures
        decoded_opaque_leaves(p.leaves@) == Some(leaves) && decoded_mmr_proof(p.proof@) == Some(
            proof,
        ) ==> decoded_leaves_proof(p) == Ok::<
            ((Seq<u64>, u64, Seq<Seq<u8>>), Seq<Seq<u8>>),
            ProofBuildError,
        >((proof, leaves)),
        decoded_opaque_leaves(p.leaves@) is None ==> decoded_leaves_proof(p) == Err::<
            ((Seq<u64>, u64, Seq<Seq<u8>>), Seq<Seq<u8>>),
            ProofBuildError,
        >(ProofBuildError::LeavesDontDecode),
        decoded_opaque_leaves(p.leaves@) is Some && decoded_mmr_proof(p.proof@) is None
            ==> decoded_leaves_proof(p) == Err::<
            ((Seq<u64>, u64, Seq<Seq<u8>>), Seq<Seq<u8>>),
            ProofBuildError,
        >(ProofBuildError::ProofDoesntDecode),
{
}

impl RelayStore {
    /// Each BEEFY root is stored once in each table.
    pub closed spec fn wf(&self) -> bool {
        &&& keys_distinct(beefy_entries(self.beefy_mmr@))
        &&& keys_distinct(para_entries(self.para_heads@))
    }

    /// An empty store.
    pub fn new() -> (s: Self)
        ensures
            s.wf(),
            s@.beefy_mmr == Map::<Seq<u8>, (u32, LeavesProof)>::empty(),
            s@.para_heads == Map::<Seq<u8>, ParaMerkleProof>::empty(),
    {
        let s = RelayStore { beefy_mmr: Vec::new(), para_heads: Vec::new() };
        assert(beefy_entries(s.beefy_mmr@) =~= Seq::empty());
        assert(para_entries(s.para_heads@) =~= Seq::empty());
        s
    }

    /// Keeps the relay block number and BEEFY MMR proof for a BEEFY root,
    /// replacing what was kept for it.
    pub fn record_beefy_proof(&mut self, root: H256, block_number: u32, proof: LeavesProof)
        requires
            old(self).wf(),
        ensures
            final(self).wf(),
            final(self)@ == (RelayStoreState {
                beefy_mmr: old(self)@.beefy_mmr.insert(root@, (block_number, proof)),
                para_heads: old(self)@.para_heads,
            }),
    {
        let ghost e = beefy_entries(self.beefy_mmr@);
        match find_hash_key(&self.beefy_mmr, &root) {
            Some(i) => {
                self.beefy_mmr.set(i, (root, (block_number, proof)));
                proof {
                    lemma_assoc_update(e, i as int, (block_number, proof));
                    assert(beefy_entries(self.beefy_mmr@) =~= e.update(i as int, (e[i as int].0, (block_number, proof))));
                }
            },
            None => {
                self.beefy_mmr.push((root, (block_number, proof)));
                proof {
                    lemma_assoc_domain(e, root@);
                    assert(forall|j: int| 0 <= j < e.len() ==> e[j].0 != root@);
                    lemma_assoc_push(e, root@, (block_number, proof));
                    assert(beefy_entries(self.beefy_mmr@) =~= e.push((root@, (block_number, proof))));
                }
            },
        }
    }

    /// Keeps the parachain-heads proof for a BEEFY root, replacing what was
    /// kept for it.
    pub fn record_para_heads_proof(&mut self, root: H256, proof: ParaMerkleProof)
        requires
            old(self).wf(),
        ensures
            final(self).wf(),
            final(self)@ == (RelayStoreState {
                beefy_mmr: old(self)@.beefy_mmr,
                para_heads: old(self)@.para_heads.insert(root@, proof),
            }),
    {
        let ghost e = para_entries(self.para_heads@);
        match find_hash_key(&self.para_heads, &root) {
            Some(i) => {
                self.para_heads.set(i, (root, proof));
                proof {
                    lemma_assoc_update(e, i as int, proof);
                    assert(para_entries(self.para_heads@) =~= e.update(i as int, (e[i as int].0, proof)));
                }
            },
            None => {
                self.para_heads.push((root, proof));
                proof {
                    lemma_assoc_domain(e, root@);
                    assert(forall|j: int| 0 <= j < e.len() ==> e[j].0 != root@);
                    lemma_assoc_push(e, root@, proof);
                    assert(para_entries(self.para_heads@) =~= e.push((root@, proof)));
                }
            },
        }
    }

    /// The relay block number and BEEFY MMR proof kept for a BEEFY root.
    pub fn beefy_proof(&self, root: &H256) -> (r: Option<&(u32, LeavesProof)>)
        requires
            self.wf(),
        ensures
            r is Some <==> self@.beefy_mmr.contains_key(root@),
            r matches Some(x) ==> *x == self@.beefy_mmr[root@],
    {
        let ghost e = beefy_entries(self.beefy_mmr@);
        proof {
            lemma_assoc_domain(e, root@);
        }
        match find_hash_key(&self.beefy_mmr, root) {
            Some(i) => {
                proof {
                    lemma_assoc_lookup(e, i as int);
                }
                Some(&self.beefy_mmr[i].1)
            },
            None => {
                assert(forall|j: int| 0 <= j < e.len() ==> e[j].0 != root@);
                None
            },
        }
    }

    /// The parachain-heads proof kept for a BEEFY root.
    pub fn para_heads_proof(&self, root: &H256) -> (r: Option<&ParaMerkleProof>)
        requires
            self.wf(),
        ensures
            r is Some <==> self@.para_heads.contains_key(root@),
            r matches Some(x) ==> *x == self@.para_heads[root@],
    {
        let ghost e = para_entries(self.para_heads@);
        proof {
            lemma_assoc_domain(e, root@);
        }
        match find_hash_key(&self.para_heads, root) {
            Some(i) => {
                proof {
                    lemma_assoc_lookup(e, i as int);
                }
                Some(&self.para_heads[i].1)
            },
            None => {
                assert(forall|j: int| 0 <= j < e.len() ==> e[j].0 != root@);
                None
            },
        }
    }

    /// Builds the relayer's proof for the BEEFY root that the receiver
    /// currently holds, from what is kept for that root: stage 1 is the
    /// decoded BEEFY MMR proof and leaves, stage 2 the parachain-heads proof,
    /// stage 4 an empty proof of no leaves. Also returns the relay block
    /// number kept for the root.
    pub fn build_proof(&self, beefy_root: &H256) -> (r: Result<(u32, RelayedProof), ProofBuildError>)
        requires
            self.wf(),
        ensures
            !self@.beefy_mmr.contains_key(beefy_root@) ==> r == Err::<(u32, RelayedProof), ProofBuildError>(
                ProofBuildError::Relayer(RelayerError::Default),
            ),
            self@.beefy_mmr.contains_key(beefy_root@) && !self@.para_heads.contains_key(beefy_root@)
                ==> r == Err::<(u32, RelayedProof), ProofBuildError>(ProofBuildError::Relayer(RelayerError::Default)),
            self@.beefy_mmr.contains_key(beefy_root@) && self@.para_heads.contains_key(beefy_root@) ==> {
                let kept = self@.beefy_mmr[beefy_root@];
                let para = self@.para_heads[beefy_root@];
                &&& r is Ok <==> decoded_leaves_proof(kept.1) is Ok
                &&& r matches Err(e) ==> decoded_leaves_proof(kept.1) == Err::<((Seq<u64>, u64, Seq<Seq<u8>>), Seq<Seq<u8>>), ProofBuildError>(e)
                &&& r matches Ok((n, p)) ==> {
                    &&& n == kept.0
                    &&& decoded_leaves_proof(kept.1) == Ok::<((Seq<u64>, u64, Seq<Seq<u8>>), Seq<Seq<u8>>), ProofBuildError>(
                        ((p.stage_1.0.leaf_indices@, p.stage_1.0.leaf_count, hashes_view(p.stage_1.0.items@)), leaves_view(p.stage_1.1@)),
                    )
                    &&& p.stage_2.root == para.root
                    &&& p.stage_2.proof@ == para.proof@
                    &&& p.stage_2.num_leaves == para.num_leaves
                    &&& p.stage_2.leaf_index == para.leaf_index
                    &&& p.stage_2.leaf.para_id == para.leaf.para_id
                    &&& p.stage_2.leaf.head_data@ == para.leaf.head_data@
                    &&& p.stage_4.0.leaf_indices@.len() == 0
                    &&& p.stage_4.0.leaf_count == 0
                    &&& p.stage_4.0.items@.len() == 0
                    &&& p.stage_4.1@.len() == 0
                }
            },
    {
        let kept = match self.beefy_proof(beefy_root) {
            Some(k) => k,
            None => {
                return Err(ProofBuildError::Relayer(RelayerError::Default));
            },
        };
        let para = match self.para_heads_proof(beefy_root) {
            Some(p) => p,
            None => {
                return Err(ProofBuildError::Relayer(RelayerError::Default));
            },
        };
        let (proof, leaves) = match prepare_test_proof(&kept.1) {
            Ok(x) => x,
            Err(e) => {
                return Err(e);
            },
        };
        let empty = MmrProof { leaf_indices: Vec::new(), leaf_count: 0u64, items: Vec::new() };
        Ok((kept.0, RelayedProof { stage_1: (proof, leaves), stage_2: para.duplicate(), stage_4: (empty, Vec::new()) }))
    }
}

} // verus!
