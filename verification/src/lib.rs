//! Verified core of an XCMP message-stuffing pallet and its relayer.
//!
//! The pallet accepts a four-tier proof that links message leaves on a
//! sending parachain to a BEEFY MMR root that the receiving parachain has
//! seen: an MMR proof of a BEEFY leaf, a binary Merkle proof of the sender's
//! head in the parachain-heads tree, a binary Merkle proof of the channel's
//! MMR root in the sender's channel tree, and an MMR proof of the messages.
//! The relayer gathers the parts of such proofs and decides when to submit.
pub mod assoc;
pub mod crypto;
pub mod hash;
pub mod num;
pub mod pallet;
pub mod proofs;
pub mod relayer;
pub mod scale;

pub use hash::{hash_eq, hash_zero, H256};
pub use scale::BlockNumberWidth;
pub use pallet::{Config, DispatchError, Error, Event, MmrLeaf, OnNewRootSatisfier, Origin, Pallet, Verdict, XcmpMessageProvider};
pub use proofs::{ChannelMerkleProof, MmrProof, ParaLeaf, ParaMerkleProof, XcmpProof};
pub use relayer::{ClientType, LeavesProof, ProofSizeBenchmark, RelayStore, RelayedProof, RelayerError};
