use vstd::prelude::*;

use crate::assoc::{
    assoc_map, keys_distinct, lemma_assoc_domain, lemma_assoc_lookup, lemma_assoc_push,
    lemma_assoc_update,
};
use crate::crypto::{
    binary_merkle_proof_verifies, blake2_256, blake2_256_hash, mmr_proof_verifies,
    verify_binary_merkle_proof, verify_mmr_leaves_proof,
};
use crate::num::{low_u32, narrow_u32, pos};
use crate::hash::{find_hash_key, hash_eq, hash_zero, zero_hash, H256};
use crate::proofs::{
    hashes_view, mmr_proof_in_range, mmr_proof_is_in_range, MmrProof, ParaLeaf, XcmpProof,
};
use crate::scale::{
    beefy_leaf_extra, decode_beefy_leaf_extra, BlockNumberWidth, decode_para_header, encode_para_leaf,
    para_header_decodes, para_leaf_encoding,
};

verus! {

/// Who dispatched a call.
#[derive(Debug, Clone, Copy, PartialEq, Eq)]
pub enum Origin {
    /// A signed extrinsic from the account with this id.
    Signed(H256),
    /// The root origin.
    Root,
    /// An unsigned extrinsic.
    Unsigned,
}

impl Origin {
    /// Whether the origin is a signed account (what `ensure_signed` accepts).
    pub open spec fn spec_is_signed(self) -> bool {
        self is Signed
    }

    /// Tests `spec_is_signed`.
    pub fn is_signed(&self) -> (r: bool)
        ensures
            r == self.spec_is_signed(),
    {
        match self {
            Origin::Signed(_) => true,
            _ => false,
        }
    }
}

/// The pallet's errors.
#[derive(Debug, Clone, Copy, PartialEq, Eq, Structural)]
pub enum Error {
    XcmpProofNotValid,
    XcmpProofAccepted,
    XcmpProofLeavesNotValid,
    XcmpNoChannelRootForChannelId,
    XcmpBeefyRootTargetedNeverSeen,
    XcmpStage1LeavesTooLarge,
    XcmpStage1ProofDoesntVerify,
    XcmpStage2RootDoesntMatch,
    XcmpStage2LeafDoesntDecode,
    XcmpStage2ProofDoesntVerify,
    XcmpStage3HeaderDoesntDecode,
    XcmpStage3CannotBeExtracted,
    XcmpStage3RootDoesntMatch,
    XcmpStage3ProofDoesntVerify,
    XcmpStage4ProofDoesntVerify,
}

/// Why a call failed: a bad origin, or an error of this pallet.
#[derive(Debug, Clone, Copy, PartialEq, Eq, Structural)]
pub enum DispatchError {
    BadOrigin,
    Module(Error),
}

/// The pallet's events.
#[derive(Debug, Clone, Copy, PartialEq, Eq)]
pub enum Event {
    /// The messages of a block were put into the channel MMR leaf.
    XcmpMessageSent { msg_hash: H256, block_num: u64 },
    /// A channel MMR proof was accepted.
    XcmpMessagesAccepted { mmr_channel_root: H256, channel_id: u64 },
}

/// What a submission comes to: accepted, rejected with an error, or a
/// submission on which the dispatch aborts (a panic in the runtime).
#[derive(Debug, Clone, Copy, PartialEq, Eq, Structural)]
pub enum Verdict {
    Accepted,
    Rejected(DispatchError),
    Aborts,
}

/// The pallet's constants.
#[derive(Debug, Clone, Copy, PartialEq, Eq, Structural)]
pub struct Config {
    /// This parachain's id.
    pub para_identifier: u32,
    /// The version byte put into each channel MMR leaf.
    pub leaf_version: u8,
    /// The width of the runtime's block numbers, with which BEEFY MMR leaves
    /// are decoded.
    pub block_number_width: BlockNumberWidth,
}

/// A leaf of this parachain's channel message MMR.
#[derive(Debug, PartialEq, Eq)]
pub struct MmrLeaf {
    /// The SCALE-encoded XCMP messages of the block.
    pub xcmp_msgs: Vec<u8>,
    pub version: u8,
    pub parent_number_and_hash: (u64, H256),
}

/// Gives the XCMP messages of a block, as SCALE-encoded bytes. Each runtime
/// implements it, and says by `messages_for` what its messages are.
pub trait XcmpMessageProvider {
    /// The SCALE-encoded XCMP messages that this runtime has for the block
    /// with hash `block_hash` and the parachain `para_id`.
    spec fn messages_for(block_hash: Seq<u8>, para_id: u32) -> Seq<u8>;

    fn get_xcmp_messages(block_hash: H256, para_id: u32) -> (r: Vec<u8>)
        ensures
            r@ == Self::messages_for(block_hash@, para_id),
    ;
}

/// Receives each new root of the channel message MMR; it does nothing with it.
pub struct OnNewRootSatisfier;

impl OnNewRootSatisfier {
    /// Ignores the new root.
    pub fn on_new_root(_root: &H256) {
    }
}

/// The pallet's storage, as maps.
#[verifier::ext_equal]
pub struct PalletState {
    /// The MMR root of each open XCMP channel.
    pub channel_roots: Map<u64, Seq<u8>>,
    /// Each BEEFY root seen so far, with the block at which it was last seen.
    pub seen_beefy_roots: Map<Seq<u8>, u64>,
    /// The BEEFY roots in the order of the blocks that saw them.
    pub seen_beefy_roots_order: Seq<Seq<u8>>,
}

impl PalletState {
    /// The storage after a block initialisation at `n` that saw `root`.
    pub open spec fn initialized(self, n: u64, root: Seq<u8>) -> PalletState {
        PalletState {
            channel_roots: self.channel_roots,
            seen_beefy_roots: self.seen_beefy_roots.insert(root, n),
            seen_beefy_roots_order: self.seen_beefy_roots_order.push(root),
        }
    }

    /// The storage after setting the root of `channel_id`.
    pub open spec fn with_channel_root(self, channel_id: u64, root: Seq<u8>) -> PalletState {
        PalletState {
            channel_roots: self.channel_roots.insert(channel_id, root),
            seen_beefy_roots: self.seen_beefy_roots,
            seen_beefy_roots_order: self.seen_beefy_roots_order,
        }
    }
}

/// The storage of the XCMP message-stuffer pallet.
pub struct Pallet {
    channel_roots: Vec<(u64, H256)>,
    seen_beefy_roots: Vec<(H256, u64)>,
    seen_beefy_roots_order: Vec<H256>,
}

/// The channel-root entries with each root as its bytes.
pub open spec fn channel_entries(s: Seq<(u64, H256)>) -> Seq<(u64, Seq<u8>)> {
    s.map_values(|e: (u64, H256)| (e.0, e.1@))
}

/// The seen-root entries with each root as its bytes.
pub open spec fn seen_entries(s: Seq<(H256, u64)>) -> Seq<(Seq<u8>, u64)> {
    s.map_values(|e: (H256, u64)| (e.0@, e.1))
}

impl View for Pallet {
    type V = PalletState;

    closed spec fn view(&self) -> PalletState {
        PalletState {
            channel_roots: assoc_map(channel_entries(self.channel_roots@)),
            seen_beefy_roots: assoc_map(seen_entries(self.seen_beefy_roots@)),
            seen_beefy_roots_order: hashes_view(self.seen_beefy_roots_order@),
        }
    }
}

/// Whether a binary Merkle proof's leaf count and index fit the `u32` that
/// the verifier takes.
pub open spec fn merkle_numbers_fit(num_leaves: u64, leaf_index: u64) -> bool {
    num_leaves <= u32::MAX && leaf_index <= u32::MAX
}

/// The XCMP channel root of a parachain leaf: the leaf's head data must
/// decode as a header, and `digest_root` is the root that the header's
/// digest carries, if any.
pub open spec fn channel_root_extraction(head_data: Seq<u8>, digest_root: Option<H256>) -> Result<
    H256,
    Error,
> {
    if !para_header_decodes(head_data) {
        Err(Error::XcmpStage3HeaderDoesntDecode)
    } else {
        match digest_root {
            Some(r) => Ok(r),
            None => Err(Error::XcmpStage3CannotBeExtracted),
        }
    }
}

/// Stages 3 and 4: the channel root taken from the parachain header must be
/// the stage-3 root, the channel proof must verify, and the message leaves
/// must verify against the channel's MMR root.
pub open spec fn stage_3_verdict(p: XcmpProof, digest_root: Option<H256>) -> Verdict {
    match channel_root_extraction(p.stage_2.leaf.head_data@, digest_root) {
        Err(e) => Verdict::Rejected(DispatchError::Module(e)),
        Ok(r3) => {
            if r3@ != p.stage_3.root@ {
                Verdict::Rejected(DispatchError::Module(Error::XcmpStage3RootDoesntMatch))
            } else if !merkle_numbers_fit(p.stage_3.num_leaves, p.stage_3.leaf_index) {
                Verdict::Aborts
            } else if !binary_merkle_proof_verifies(
                p.stage_3.root@,
                hashes_view(p.stage_3.proof@),
                low_u32(p.stage_3.num_leaves),
                low_u32(p.stage_3.leaf_index),
                p.stage_3.leaf@,
            ) {
                Verdict::Rejected(DispatchError::Module(Error::XcmpStage3ProofDoesntVerify))
            } else if !mmr_proof_in_range(p.stage_4.0, p.stage_4.1@.len()) {
                Verdict::Aborts
            } else if !mmr_proof_verifies(p.stage_3.leaf@, p.stage_4.1@, p.stage_4.0) {
                Verdict::Rejected(DispatchError::Module(Error::XcmpStage4ProofDoesntVerify))
            } else {
                Verdict::Accepted
            }
        },
    }
}

/// Stage 2 onwards, for a stage-1 leaf: the BEEFY leaf's extra data must be
/// the stage-2 root and the parachain-heads proof must verify.
pub open spec fn stage_2_verdict(p: XcmpProof, digest_root: Option<H256>, w: BlockNumberWidth) -> Verdict {
    match beefy_leaf_extra(p.stage_1.1@[0]@, w) {
        None => Verdict::Rejected(DispatchError::Module(Error::XcmpStage2LeafDoesntDecode)),
        Some(extra) => {
            if extra != p.stage_2.root@ {
                Verdict::Rejected(DispatchError::Module(Error::XcmpStage2RootDoesntMatch))
            } else if !merkle_numbers_fit(p.stage_2.num_leaves, p.stage_2.leaf_index)
                || p.stage_2.leaf.head_data@.len() > u32::MAX {
                Verdict::Aborts
            } else if !binary_merkle_proof_verifies(
                p.stage_2.root@,
                hashes_view(p.stage_2.proof@),
                low_u32(p.stage_2.num_leaves),
                low_u32(p.stage_2.leaf_index),
                para_leaf_encoding(p.stage_2.leaf.para_id, p.stage_2.leaf.head_data@),
            ) {
                Verdict::Rejected(DispatchError::Module(Error::XcmpStage2ProofDoesntVerify))
            } else {
                stage_3_verdict(p, digest_root)
            }
        },
    }
}

/// What submitting the XCMP proof `p` against `beefy_root` comes to, given
/// the BEEFY roots seen so far and the width of block numbers.
pub open spec fn xcmp_verdict(
    seen: Map<Seq<u8>, u64>,
    signed: bool,
    p: XcmpProof,
    beefy_root: Seq<u8>,
    digest_root: Option<H256>,
    w: BlockNumberWidth,
) -> Verdict {
    if !signed {
        Verdict::Rejected(DispatchError::BadOrigin)
    } else if !seen.contains_key(beefy_root) {
        Verdict::Rejected(DispatchError::Module(Error::XcmpBeefyRootTargetedNeverSeen))
    } else if !mmr_proof_in_range(p.stage_1.0, p.stage_1.1@.len()) {
        Verdict::Aborts
    } else if !mmr_proof_verifies(beefy_root, p.stage_1.1@, p.stage_1.0) {
        Verdict::Rejected(DispatchError::Module(Error::XcmpStage1ProofDoesntVerify))
    } else if p.stage_1.1@.len() > 1 {
        Verdict::Rejected(DispatchError::Module(Error::XcmpStage1LeavesTooLarge))
    } else if p.stage_1.1@.len() == 0 {
        Verdict::Aborts
    } else {
        stage_2_verdict(p, digest_root, w)
    }
}

/// What submitting the channel MMR proof of `leaves` for `channel_id`
/// comes to, given the channel roots.
pub open spec fn test_proof_verdict(
    channel_roots: Map<u64, Seq<u8>>,
    signed: bool,
    proof: MmrProof,
    leaves: Seq<Vec<u8>>,
    channel_id: u64,
) -> Verdict {
    if !signed {
        Verdict::Rejected(DispatchError::BadOrigin)
    } else if !channel_roots.contains_key(channel_id) {
        Verdict::Rejected(DispatchError::Module(Error::XcmpNoChannelRootForChannelId))
    } else if !mmr_proof_in_range(proof, leaves.len()) {
        Verdict::Aborts
    } else if !mmr_proof_verifies(channel_roots[channel_id], leaves, proof) {
        Verdict::Rejected(DispatchError::Module(Error::XcmpProofNotValid))
    } else {
        Verdict::Accepted
    }
}

/// The result a dispatch gives for a verdict other than `Aborts`.
pub open spec fn verdict_result(v: Verdict) -> Result<(), DispatchError> {
    match v {
        Verdict::Rejected(e) => Err(e),
        _ => Ok(()),
    }
}

/// The BEEFY root that a block initialisation records: the provider's root,
/// or the zero hash when it has none.
pub open spec fn root_or_zero(root: Option<H256>) -> Seq<u8> {
    match root {
        Some(r) => r@,
        None => zero_hash(),
    }
}

/// `w * 3`, saturating at `u64::MAX`.
pub open spec fn saturating_triple(w: u64) -> u64 {
    if w * 3 > u64::MAX {
        u64::MAX
    } else {
        (w * 3) as u64
    }
}

impl Pallet {
    /// The entries are keyed uniquely.
    pub closed spec fn wf(&self) -> bool {
        &&& keys_distinct(channel_entries(self.channel_roots@))
        &&& keys_distinct(seen_entries(self.seen_beefy_roots@))
    }

    /// Empty storage.
    pub fn new() -> (p: Self)
        ensures
            p.wf(),
            p@.channel_roots == Map::<u64, Seq<u8>>::empty(),
            p@.seen_beefy_roots == Map::<Seq<u8>, u64>::empty(),
            p@.seen_beefy_roots_order == Seq::<Seq<u8>>::empty(),
    {
        let p = Pallet {
            channel_roots: Vec::new(),
            seen_beefy_roots: Vec::new(),
            seen_beefy_roots_order: Vec::new(),
        };
        assert(channel_entries(p.channel_roots@) =~= Seq::empty());
        assert(seen_entries(p.seen_beefy_roots@) =~= Seq::empty());
        assert(p@.seen_beefy_roots_order =~= Seq::empty());
        p
    }

    /// Position of the entry for `channel_id`, if there is one.
    fn find_channel(&self, channel_id: u64) -> (r: Option<usize>)
        ensures
            r matches Some(i) ==> i < self.channel_roots@.len() && self.channel_roots@[i as int].0
                == channel_id,
            r is None ==> forall|i: int|
                0 <= i < self.channel_roots@.len() ==> self.channel_roots@[i].0 != channel_id,
    {
        let mut i: usize = 0;
        while i < self.channel_roots.len()
            invariant
                0 <= i <= self.channel_roots@.len(),
                forall|j: int| 0 <= j < i ==> self.channel_roots@[j].0 != channel_id,
            decreases self.channel_roots@.len() - i,
        {
            if self.channel_roots[i].0 == channel_id {
                return Some(i);
            }
            i += 1;
        }
        None
    }

    /// The MMR root stored for a channel.
    pub fn xcmp_channel_roots(&self, channel_id: u64) -> (r: Option<H256>)
        requires
            self.wf(),
        ensures
            r is Some <==> self@.channel_roots.contains_key(channel_id),
            r matches Some(h) ==> h@ == self@.channel_roots[channel_id],
    {
        let ghost e = channel_entries(self.channel_roots@);
        proof {
            lemma_assoc_domain(e, channel_id);
        }
        match self.find_channel(channel_id) {
            Some(i) => {
                proof {
                    lemma_assoc_lookup(e, pos(i));
                }
                Some(self.channel_roots[i].1)
            },
            None => {
                assert(forall|j: int| 0 <= j < e.len() ==> e[j].0 != channel_id);
                None
            },
        }
    }

    /// The block at which a BEEFY root was last seen.
    pub fn seen_beefy_roots(&self, root: &H256) -> (r: Option<u64>)
        requires
            self.wf(),
        ensures
            r is Some <==> self@.seen_beefy_roots.contains_key(root@),
            r matches Some(n) ==> n == self@.seen_beefy_roots[root@],
    {
        let ghost e = seen_entries(self.seen_beefy_roots@);
        proof {
            lemma_assoc_domain(e, root@);
        }
        match find_hash_key(&self.seen_beefy_roots, root) {
            Some(i) => {
                proof {
                    lemma_assoc_lookup(e, i as int);
                }
                Some(self.seen_beefy_roots[i].1)
            },
            None => {
                assert(forall|j: int| 0 <= j < e.len() ==> e[j].0 != root@);
                None
            },
        }
    }

    /// The BEEFY roots in the order of the blocks that saw them.
    pub fn seen_beefy_roots_order(&self) -> (r: &Vec<H256>)
        ensures
            hashes_view(r@) == self@.seen_beefy_roots_order,
    {
        &self.seen_beefy_roots_order
    }

    /// Block initialisation: records the current BEEFY root (the zero hash when
    /// the provider has none) as seen at block `n` and appends it to the
    /// order of seen roots. Returns the weight of the three storage writes,
    /// given the weight of one.
    pub fn on_initialize(&mut self, n: u64, beefy_root: Option<H256>, db_write_weight: u64) -> (w:
        u64)
        requires
            old(self).wf(),
        ensures
            final(self).wf(),
            final(self)@ == old(self)@.initialized(n, root_or_zero(beefy_root)),
            w == saturating_triple(db_write_weight),
    {
        let root = match beefy_root {
            Some(r) => r,
            None => hash_zero(),
        };
        let ghost e = seen_entries(self.seen_beefy_roots@);
        match find_hash_key(&self.seen_beefy_roots, &root) {
            Some(i) => {
                self.seen_beefy_roots.set(i, (root, n));
                proof {
                    lemma_assoc_update(e, i as int, n);
                    assert(seen_entries(self.seen_beefy_roots@) =~= e.update(i as int, (e[i as int].0, n)));
                }
            },
            None => {
                self.seen_beefy_roots.push((root, n));
                proof {
                    lemma_assoc_domain(e, root@);
                    assert(forall|j: int| 0 <= j < e.len() ==> e[j].0 != root@);
                    lemma_assoc_push(e, root@, n);
                    assert(seen_entries(self.seen_beefy_roots@) =~= e.push((root@, n)));
                }
            },
        }
        let ghost old_order = self.seen_beefy_roots_order@;
        self.seen_beefy_roots_order.push(root);
        assert(hashes_view(self.seen_beefy_roots_order@) =~= hashes_view(old_order).push(root@));
        if db_write_weight > u64::MAX / 3 {
            u64::MAX
        } else {
            db_write_weight * 3
        }
    }

    /// Sets the MMR root of a channel; a signed origin is required.
    pub fn update_root(&mut self, origin: &Origin, root: H256, channel_id: u64) -> (r: Result<
        (),
        DispatchError,
    >)
        requires
            old(self).wf(),
        ensures
            final(self).wf(),
            !origin.spec_is_signed() ==> r == Err::<(), DispatchError>(DispatchError::BadOrigin)
                && final(self)@ == old(self)@,
            origin.spec_is_signed() ==> r is Ok && final(self)@ == old(self)@.with_channel_root(
                channel_id,
                root@,
            ),
    {
        if !origin.is_signed() {
            return Err(DispatchError::BadOrigin);
        }
        let ghost e = channel_entries(self.channel_roots@);
        match self.find_channel(channel_id) {
            Some(i) => {
                self.channel_roots.set(i, (channel_id, root));
                proof {
                    lemma_assoc_update(e, i as int, root@);
                    assert(channel_entries(self.channel_roots@) =~= e.update(i as int, (e[i as int].0, root@)));
                }
            },
            None => {
                self.channel_roots.push((channel_id, root));
                proof {
                    lemma_assoc_domain(e, channel_id);
                    assert(forall|j: int| 0 <= j < e.len() ==> e[j].0 != channel_id);
                    lemma_assoc_push(e, channel_id, root@);
                    assert(channel_entries(self.channel_roots@) =~= e.push((channel_id, root@)));
                }
            },
        }
        Ok(())
    }
}

/// The largest `u32`, as a `u64`.
pub const U32_MAX: u64 = 0xffff_ffff;

impl Pallet {
    /// The XCMP channel root carried by a parachain leaf: its head data must
    /// decode as a parachain header (else `XcmpStage3HeaderDoesntDecode`), and
    /// `digest_root` is the channel root that the header's digest carries, as
    /// the chain's digest reader finds it (`None` gives
    /// `XcmpStage3CannotBeExtracted`).
    pub fn extract_xcmp_channel_root(leaf: &ParaLeaf, digest_root: Option<H256>) -> (r: Result<
        H256,
        Error,
    >)
        ensures
            r == channel_root_extraction(leaf.head_data@, digest_root),
    {
        if !decode_para_header(&leaf.head_data) {
            return Err(Error::XcmpStage3HeaderDoesntDecode);
        }
        match digest_root {
            Some(r) => Ok(r),
            None => Err(Error::XcmpStage3CannotBeExtracted),
        }
    }

    /// Checks a channel MMR proof of `leaves` against the stored root of
    /// `channel_id`; on success returns the `XcmpMessagesAccepted` event.
    pub fn submit_test_proof(
        &self,
        origin: &Origin,
        mmr_proof: &MmrProof,
        leaves: &Vec<Vec<u8>>,
        channel_id: u64,
    ) -> (r: Result<Event, DispatchError>)
        requires
            self.wf(),
            origin.spec_is_signed() && self@.channel_roots.contains_key(channel_id)
                ==> mmr_proof_in_range(*mmr_proof, leaves@.len()),
        ensures
            ({
                let v = test_proof_verdict(
                    self@.channel_roots,
                    origin.spec_is_signed(),
                    *mmr_proof,
                    leaves@,
                    channel_id,
                );
                &&& r is Ok <==> v == Verdict::Accepted
                &&& r matches Err(e) ==> v == Verdict::Rejected(e)
                &&& r matches Ok(ev) ==> ev matches Event::XcmpMessagesAccepted {
                    mmr_channel_root,
                    channel_id: c,
                } && mmr_channel_root@ == self@.channel_roots[channel_id] && c == channel_id
            }),
    {
        if !origin.is_signed() {
            return Err(DispatchError::BadOrigin);
        }
        let root = match self.xcmp_channel_roots(channel_id) {
            Some(r) => r,
            None => {
                return Err(DispatchError::Module(Error::XcmpNoChannelRootForChannelId));
            },
        };
        if !verify_mmr_leaves_proof(&root, leaves, mmr_proof) {
            return Err(DispatchError::Module(Error::XcmpProofNotValid));
        }
        Ok(Event::XcmpMessagesAccepted { mmr_channel_root: root, channel_id })
    }

    /// Stages 3 and 4 of an XCMP proof.
    fn evaluate_stages_3_and_4(p: &XcmpProof, digest_root: Option<H256>) -> (v: Verdict)
        ensures
            v == stage_3_verdict(*p, digest_root),
    {
        let r3 = match Pallet::extract_xcmp_channel_root(&p.stage_2.leaf, digest_root) {
            Ok(r) => r,
            Err(e) => {
                return Verdict::Rejected(DispatchError::Module(e));
            },
        };
        if !hash_eq(&r3, &p.stage_3.root) {
            return Verdict::Rejected(DispatchError::Module(Error::XcmpStage3RootDoesntMatch));
        }
        if p.stage_3.num_leaves > U32_MAX || p.stage_3.leaf_index > U32_MAX {
            return Verdict::Aborts;
        }
        let num_leaves = narrow_u32(p.stage_3.num_leaves);
        let leaf_index = narrow_u32(p.stage_3.leaf_index);
        if !verify_binary_merkle_proof(
            &p.stage_3.root,
            &p.stage_3.proof,
            num_leaves,
            leaf_index,
            p.stage_3.leaf.as_slice(),
        ) {
            return Verdict::Rejected(DispatchError::Module(Error::XcmpStage3ProofDoesntVerify));
        }
        if !mmr_proof_is_in_range(&p.stage_4.0, p.stage_4.1.len()) {
            return Verdict::Aborts;
        }
        if !verify_mmr_leaves_proof(&p.stage_3.leaf, &p.stage_4.1, &p.stage_4.0) {
            return Verdict::Rejected(DispatchError::Module(Error::XcmpStage4ProofDoesntVerify));
        }
        Verdict::Accepted
    }

    /// Stage 2 onwards of an XCMP proof whose stage 1 has exactly one leaf.
    fn evaluate_from_stage_2(p: &XcmpProof, digest_root: Option<H256>, w: BlockNumberWidth) -> (v:
        Verdict)
        requires
            p.stage_1.1@.len() == 1,
        ensures
            v == stage_2_verdict(*p, digest_root, w),
    {
        let extra = match decode_beefy_leaf_extra(&p.stage_1.1[0], w) {
            Some(e) => e,
            None => {
                return Verdict::Rejected(DispatchError::Module(Error::XcmpStage2LeafDoesntDecode));
            },
        };
        if !hash_eq(&extra, &p.stage_2.root) {
            return Verdict::Rejected(DispatchError::Module(Error::XcmpStage2RootDoesntMatch));
        }
        if p.stage_2.num_leaves > U32_MAX || p.stage_2.leaf_index > U32_MAX
            || p.stage_2.leaf.head_data.len() > 0xffff_ffffusize {
            return Verdict::Aborts;
        }
        let num_leaves = narrow_u32(p.stage_2.num_leaves);
        let leaf_index = narrow_u32(p.stage_2.leaf_index);
        let encoded = encode_para_leaf(&p.stage_2.leaf);
        if !verify_binary_merkle_proof(
            &p.stage_2.root,
            &p.stage_2.proof,
            num_leaves,
            leaf_index,
            encoded.as_slice(),
        ) {
            return Verdict::Rejected(DispatchError::Module(Error::XcmpStage2ProofDoesntVerify));
        }
        Pallet::evaluate_stages_3_and_4(p, digest_root)
    }

    /// The verdict on an XCMP proof submission.
    fn evaluate_xcmp_proof(
        &self,
        config: &Config,
        origin: &Origin,
        p: &XcmpProof,
        beefy_root_targeted: &H256,
        digest_root: Option<H256>,
    ) -> (v: Verdict)
        requires
            self.wf(),
        ensures
            v == xcmp_verdict(
                self@.seen_beefy_roots,
                origin.spec_is_signed(),
                *p,
                beefy_root_targeted@,
                digest_root,
                config.block_number_width,
            ),
    {
        if !origin.is_signed() {
            return Verdict::Rejected(DispatchError::BadOrigin);
        }
        if self.seen_beefy_roots(beefy_root_targeted).is_none() {
            return Verdict::Rejected(DispatchError::Module(Error::XcmpBeefyRootTargetedNeverSeen));
        }
        if !mmr_proof_is_in_range(&p.stage_1.0, p.stage_1.1.len()) {
            return Verdict::Aborts;
        }
        if !verify_mmr_leaves_proof(beefy_root_targeted, &p.stage_1.1, &p.stage_1.0) {
            return Verdict::Rejected(DispatchError::Module(Error::XcmpStage1ProofDoesntVerify));
        }
        if p.stage_1.1.len() > 1 {
            return Verdict::Rejected(DispatchError::Module(Error::XcmpStage1LeavesTooLarge));
        }
        if p.stage_1.1.len() == 0 {
            return Verdict::Aborts;
        }
        Pallet::evaluate_from_stage_2(p, digest_root, config.block_number_width)
    }

    /// Verifies a four-stage XCMP proof against a BEEFY root seen earlier:
    /// stage 1 proves a BEEFY MMR leaf under that root; the leaf's extra data
    /// must be the stage-2 root, under which stage 2 proves the sender's
    /// parachain leaf; the channel root read from that leaf's header
    /// (`digest_root`, see `extract_xcmp_channel_root`) must be the stage-3
    /// root, under which stage 3 proves the channel's MMR root; stage 4 proves
    /// the message leaves under that MMR root. Each failure has its own error.
    /// The submissions on which the dispatch aborts are left out; see
    /// `try_submit_xcmp_proof`.
    pub fn submit_xcmp_proof(
        &self,
        config: &Config,
        origin: &Origin,
        xcmp_proof: &XcmpProof,
        beefy_root_targeted: &H256,
        digest_root: Option<H256>,
    ) -> (r: Result<(), DispatchError>)
        requires
            self.wf(),
            xcmp_verdict(
                self@.seen_beefy_roots,
                origin.spec_is_signed(),
                *xcmp_proof,
                beefy_root_targeted@,
                digest_root,
                config.block_number_width,
            ) != Verdict::Aborts,
        ensures
            r == verdict_result(
                xcmp_verdict(
                    self@.seen_beefy_roots,
                    origin.spec_is_signed(),
                    *xcmp_proof,
                    beefy_root_targeted@,
                    digest_root,
                    config.block_number_width,
                ),
            ),
    {
        match self.evaluate_xcmp_proof(config, origin, xcmp_proof, beefy_root_targeted, digest_root) {
            Verdict::Accepted => Ok(()),
            Verdict::Rejected(e) => Err(e),
            Verdict::Aborts => {
                // The `requires` rules this verdict out.
                proof {
                    assert(false);
                }
                Err(DispatchError::BadOrigin)
            },
        }
    }

    /// `submit_xcmp_proof` for any submission: `None` exactly on the
    /// submissions on which the dispatch aborts (a stage-1 proof that
    /// verifies no leaf, a Merkle leaf count or index beyond `u32`, head data
    /// longer than `u32::MAX`, or, where that stage is reached, an MMR leaf
    /// count beyond 2^63 - 1 or, with as many indices as leaves, an index
    /// beyond 2^63 - 1).
    pub fn try_submit_xcmp_proof(
        &self,
        config: &Config,
        origin: &Origin,
        xcmp_proof: &XcmpProof,
        beefy_root_targeted: &H256,
        digest_root: Option<H256>,
    ) -> (r: Option<Result<(), DispatchError>>)
        requires
            self.wf(),
        ensures
            ({
                let v = xcmp_verdict(
                    self@.seen_beefy_roots,
                    origin.spec_is_signed(),
                    *xcmp_proof,
                    beefy_root_targeted@,
                    digest_root,
                    config.block_number_width,
                );
                &&& r is None <==> v == Verdict::Aborts
                &&& r matches Some(x) ==> x == verdict_result(v)
            }),
    {
        match self.evaluate_xcmp_proof(config, origin, xcmp_proof, beefy_root_targeted, digest_root) {
            Verdict::Accepted => Some(Ok(())),
            Verdict::Rejected(e) => Some(Err(e)),
            Verdict::Aborts => None,
        }
    }

    /// The channel MMR leaf that holds `xcmp_msgs`: the configured leaf
    /// version and the parent's number and hash; with the `XcmpMessageSent`
    /// event carrying the messages' BLAKE2-256 hash.
    pub fn mmr_leaf_for(
        config: &Config,
        parent_number: u64,
        parent_hash: H256,
        xcmp_msgs: Vec<u8>,
    ) -> (r: (MmrLeaf, Event))
        ensures
            r.0.xcmp_msgs@ == xcmp_msgs@,
            r.0.version == config.leaf_version,
            r.0.parent_number_and_hash.0 == parent_number,
            r.0.parent_number_and_hash.1 == parent_hash,
            r.1 matches Event::XcmpMessageSent { msg_hash, block_num } && msg_hash@
                == blake2_256_hash(xcmp_msgs@) && block_num == parent_number,
    {
        let msg_hash = blake2_256(&xcmp_msgs);
        let event = Event::XcmpMessageSent { msg_hash, block_num: parent_number };
        let leaf = MmrLeaf {
            xcmp_msgs,
            version: config.leaf_version,
            parent_number_and_hash: (parent_number, parent_hash),
        };
        (leaf, event)
    }

    /// The channel MMR leaf for the current block: the messages that the
    /// provider has for the parent block and this parachain, the configured
    /// leaf version and the parent's number and hash; with the
    /// `XcmpMessageSent` event carrying the messages' BLAKE2-256 hash.
    pub fn leaf_data<P: XcmpMessageProvider>(
        config: &Config,
        parent_number: u64,
        parent_hash: H256,
    ) -> (r: (MmrLeaf, Event))
        ensures
            r.0.xcmp_msgs@ == P::messages_for(parent_hash@, config.para_identifier),
            r.0.version == config.leaf_version,
            r.0.parent_number_and_hash.0 == parent_number,
            r.0.parent_number_and_hash.1 == parent_hash,
            r.1 matches Event::XcmpMessageSent { msg_hash, block_num } && msg_hash@
                == blake2_256_hash(r.0.xcmp_msgs@) && block_num == parent_number,
    {
        let raw_messages = P::get_xcmp_messages(parent_hash, config.para_identifier);
        Pallet::mmr_leaf_for(config, parent_number, parent_hash, raw_messages)
    }
}

/// Reading a channel root back after setting it gives the root that was
/// set, and the roots of all other channels are unchanged.
pub proof fn law_channel_root_read_back(s: PalletState, channel_id: u64, root: Seq<u8>, other: u64)
    ensures
        s.with_channel_root(channel_id, root).channel_roots.contains_key(channel_id),
        s.with_channel_root(channel_id, root).channel_roots[channel_id] == root,
        other != channel_id ==> (s.with_channel_root(channel_id, root).channel_roots.contains_key(
            other,
        ) == s.channel_roots.contains_key(other) && s.with_channel_root(
            channel_id,
            root,
        ).channel_roots.get(other) == s.channel_roots.get(other)),
{
}

/// After a block initialisation that saw `root`, the root is recorded at
/// that block and ends the order of seen roots, the channel roots are
/// unchanged, and an XCMP proof that targets `root` is no longer refused as
/// targeting an unseen root.
pub proof fn law_initialized_root_is_targetable(
    s: PalletState,
    n: u64,
    root: Seq<u8>,
    signed: bool,
    p: XcmpProof,
    digest_root: Option<H256>,
    w: BlockNumberWidth,
)
    ensures
        s.initialized(n, root).seen_beefy_roots[root] == n,
        s.initialized(n, root).seen_beefy_roots_order.last() == root,
        s.initialized(n, root).seen_beefy_roots_order.len() == s.seen_beefy_roots_order.len() + 1,
        s.initialized(n, root).channel_roots == s.channel_roots,
        xcmp_verdict(s.initialized(n, root).seen_beefy_roots, signed, p, root, digest_root, w)
            != Verdict::Rejected(DispatchError::Module(Error::XcmpBeefyRootTargetedNeverSeen)),
{
}

/// A submission that targets a BEEFY root never seen is refused with
/// `XcmpBeefyRootTargetedNeverSeen` before any proof is looked at, and an
/// unsigned submission is refused as a bad origin.
pub proof fn law_refusals_before_verification(
    seen: Map<Seq<u8>, u64>,
    signed: bool,
    p: XcmpProof,
    root: Seq<u8>,
    digest_root: Option<H256>,
    w: BlockNumberWidth,
)
    ensures
        !signed ==> xcmp_verdict(seen, signed, p, root, digest_root, w) == Verdict::Rejected(
            DispatchError::BadOrigin,
        ),
        signed && !seen.contains_key(root) ==> xcmp_verdict(seen, signed, p, root, digest_root, w)
            == Verdict::Rejected(DispatchError::Module(Error::XcmpBeefyRootTargetedNeverSeen)),
{
}

/// All four tiers verified: stage 1 proves a single BEEFY leaf under the
/// seen root, that leaf's extra data is the stage-2 root under which the
/// parachain leaf is proved, the channel root read from that leaf's header is
/// the stage-3 root under which the channel's MMR root is proved, and the
/// message leaves are proved under that MMR root.
pub open spec fn every_stage_verifies(
    seen: Map<Seq<u8>, u64>,
    signed: bool,
    p: XcmpProof,
    root: Seq<u8>,
    digest_root: Option<H256>,
    w: BlockNumberWidth,
) -> bool {
    &&& signed
    &&& seen.contains_key(root)
    &&& p.stage_1.1@.len() == 1
    &&& mmr_proof_verifies(root, p.stage_1.1@, p.stage_1.0)
    &&& beefy_leaf_extra(p.stage_1.1@[0]@, w) == Some(p.stage_2.root@)
    &&& binary_merkle_proof_verifies(
        p.stage_2.root@,
        hashes_view(p.stage_2.proof@),
        low_u32(p.stage_2.num_leaves),
        low_u32(p.stage_2.leaf_index),
        para_leaf_encoding(p.stage_2.leaf.para_id, p.stage_2.leaf.head_data@),
    )
    &&& channel_root_extraction(p.stage_2.leaf.head_data@, digest_root) matches Ok(r3) && r3@
        == p.stage_3.root@
    &&& binary_merkle_proof_verifies(
        p.stage_3.root@,
        hashes_view(p.stage_3.proof@),
        low_u32(p.stage_3.num_leaves),
        low_u32(p.stage_3.leaf_index),
        p.stage_3.leaf@,
    )
    &&& mmr_proof_verifies(p.stage_3.leaf@, p.stage_4.1@, p.stage_4.0)
}

/// An XCMP proof is accepted only when it is verified at all four tiers,
/// and a submission that does not abort is accepted whenever it is.
pub proof fn law_accepted_iff_verified_at_every_stage(
    seen: Map<Seq<u8>, u64>,
    signed: bool,
    p: XcmpProof,
    root: Seq<u8>,
    digest_root: Option<H256>,
    w: BlockNumberWidth,
)
    ensures
        xcmp_verdict(seen, signed, p, root, digest_root, w) == Verdict::Accepted
            ==> every_stage_verifies(seen, signed, p, root, digest_root, w),
        xcmp_verdict(seen, signed, p, root, digest_root, w) != Verdict::Aborts
            && every_stage_verifies(seen, signed, p, root, digest_root, w)
            ==> xcmp_verdict(seen, signed, p, root, digest_root, w) == Verdict::Accepted,
{
}

/// A submission is refused as targeting an unseen BEEFY root exactly when
/// it is signed and its root was never seen; in particular never for a root
/// that a block initialisation recorded.
pub proof fn law_unseen_root_error_iff(
    seen: Map<Seq<u8>, u64>,
    signed: bool,
    p: XcmpProof,
    root: Seq<u8>,
    digest_root: Option<H256>,
    w: BlockNumberWidth,
)
    ensures
        (xcmp_verdict(seen, signed, p, root, digest_root, w) == Verdict::Rejected(
            DispatchError::Module(Error::XcmpBeefyRootTargetedNeverSeen),
        )) <==> (signed && !seen.contains_key(root)),
{
    let v = xcmp_verdict(seen, signed, p, root, digest_root, w);
    if signed && seen.contains_key(root) && p.stage_1.1@.len() == 1 {
        let e = channel_root_extraction(p.stage_2.leaf.head_data@, digest_root);
        assert(e matches Err(x) ==> x != Error::XcmpBeefyRootTargetedNeverSeen);
    }
}

/// A test proof that does not abort is accepted exactly when it is signed,
/// its channel has a root and its MMR proof verifies against that root; it
/// is refused for lack of a root exactly when it is signed and the channel
/// has none.
pub proof fn law_test_proof_accepted_iff(
    channel_roots: Map<u64, Seq<u8>>,
    signed: bool,
    proof: MmrProof,
    leaves: Seq<Vec<u8>>,
    channel_id: u64,
)
    ensures
        test_proof_verdict(channel_roots, signed, proof, leaves, channel_id) != Verdict::Aborts
            ==> ((test_proof_verdict(channel_roots, signed, proof, leaves, channel_id)
            == Verdict::Accepted) <==> (signed && channel_roots.contains_key(channel_id)
            && mmr_proof_verifies(channel_roots[channel_id], leaves, proof))),
        (test_proof_verdict(channel_roots, signed, proof, leaves, channel_id) == Verdict::Rejected(
            DispatchError::Module(Error::XcmpNoChannelRootForChannelId),
        )) <==> (signed && !channel_roots.contains_key(channel_id)),
{
}

/// Once a channel's root is set, a test proof for that channel is never
/// refused for lack of a root: a signed one is accepted exactly when its MMR
/// proof verifies against that root, and the root stays set.
pub proof fn law_test_proof_checked_against_set_root(
    s: PalletState,
    channel_id: u64,
    root: Seq<u8>,
    signed: bool,
    proof: MmrProof,
    leaves: Seq<Vec<u8>>,
)
    requires
        mmr_proof_in_range(proof, leaves.len()),
    ensures
        s.with_channel_root(channel_id, root).channel_roots[channel_id] == root,
        test_proof_verdict(s.with_channel_root(channel_id, root).channel_roots, signed, proof, leaves, channel_id)
            == (if !signed {
            Verdict::Rejected(DispatchError::BadOrigin)
        } else if mmr_proof_verifies(root, leaves, proof) {
            Verdict::Accepted
        } else {
            Verdict::Rejected(DispatchError::Module(Error::XcmpProofNotValid))
        }),
{
}

/// Seen BEEFY roots stay seen: once an XCMP proof targets a root that has
/// been seen, later block initialisations (whatever root they see) do not
/// change what submitting it comes to.
pub proof fn law_verdict_stable_across_blocks(
    s: PalletState,
    n: u64,
    new_root: Seq<u8>,
    signed: bool,
    p: XcmpProof,
    root: Seq<u8>,
    digest_root: Option<H256>,
    w: BlockNumberWidth,
)
    requires
        s.seen_beefy_roots.contains_key(root),
    ensures
        s.initialized(n, new_root).seen_beefy_roots.contains_key(root),
        xcmp_verdict(s.initialized(n, new_root).seen_beefy_roots, signed, p, root, digest_root, w)
            == xcmp_verdict(s.seen_beefy_roots, signed, p, root, digest_root, w),
{
}

/// Every signed account may dispatch, whatever its id; the root and
/// unsigned origins are not signed accounts.
pub proof fn law_every_account_is_signed(who: H256)
    ensures
        Origin::Signed(who).spec_is_signed(),
        !Origin::Root.spec_is_signed(),
        !Origin::Unsigned.spec_is_signed(),
{
}

/// The channel root of a parachain leaf whose head data decodes as a
/// header is the root that the header's digest carries, whatever the
/// header's length or contents; with no such root it cannot be extracted.
/// Head data that does not decode is refused as such, root or no root.
pub proof fn law_channel_root_of_decoded_header(head_data: Seq<u8>, r: H256)
    ensures
        para_header_decodes(head_data) ==> channel_root_extraction(head_data, Some(r)) == Ok::<
            H256,
            Error,
        >(r),
        para_header_decodes(head_data) ==> channel_root_extraction(head_data, None) == Err::<
            H256,
            Error,
        >(Error::XcmpStage3CannotBeExtracted),
        !para_header_decodes(head_data) ==> channel_root_extraction(head_data, Some(r)) == Err::<
            H256,
            Error,
        >(Error::XcmpStage3HeaderDoesntDecode),
        !para_header_decodes(head_data) ==> channel_root_extraction(head_data, None) == Err::<
            H256,
            Error,
        >(Error::XcmpStage3HeaderDoesntDecode),
{
}

/// A submission aborts only where the dispatch panics: stage 1 proves no
/// leaf, a binary Merkle leaf count or index exceeds `u32::MAX`, the head
/// data is longer than `u32::MAX` bytes, or an MMR leaf count or index
/// exceeds 2^63 - 1. With one stage-1 leaf and every number within those
/// bounds, whatever the size of the MMRs, the submission is answered.
pub proof fn law_aborts_only_where_the_dispatch_panics(
    seen: Map<Seq<u8>, u64>,
    signed: bool,
    p: XcmpProof,
    root: Seq<u8>,
    digest_root: Option<H256>,
    w: BlockNumberWidth,
)
    requires
        p.stage_1.1@.len() == 1,
        p.stage_1.0.leaf_count <= 0x7fff_ffff_ffff_ffffu64,
        forall|i: int|
            0 <= i < p.stage_1.0.leaf_indices@.len() ==> p.stage_1.0.leaf_indices@[i]
                <= 0x7fff_ffff_ffff_ffffu64,
        p.stage_2.num_leaves <= 0xffff_ffffu64,
        p.stage_2.leaf_index <= 0xffff_ffffu64,
        p.stage_2.leaf.head_data@.len() <= 0xffff_ffffu64,
        p.stage_3.num_leaves <= 0xffff_ffffu64,
        p.stage_3.leaf_index <= 0xffff_ffffu64,
        p.stage_4.0.leaf_count <= 0x7fff_ffff_ffff_ffffu64,
        forall|i: int|
            0 <= i < p.stage_4.0.leaf_indices@.len() ==> p.stage_4.0.leaf_indices@[i]
                <= 0x7fff_ffff_ffff_ffffu64,
    ensures
        xcmp_verdict(seen, signed, p, root, digest_root, w) != Verdict::Aborts,
{
}

} // verus!
