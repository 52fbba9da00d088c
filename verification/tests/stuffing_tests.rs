use sp_runtime::traits::BlakeTwo256;
use sp_runtime::traits::Hash as HashT;
use vstd::seq::Seq;

use xcmp_message_stuffer::{BlockNumberWidth, Config, MmrLeaf, Pallet, XcmpMessageProvider, H256};

const PARA_A: u32 = 1000;
const PARA_B: u32 = 2000;

/// One-instruction XCM programs, SCALE-encoded.
const MESSAGE_1: [u8; 3] = [0x04, 0x19, 0x14];
const MESSAGE_2: [u8; 3] = [0x04, 0x19, 0x04];

fn blake2(data: &[u8]) -> Vec<u8> {
    BlakeTwo256::hash(data).0.to_vec()
}

fn seq_of(bytes: Vec<u8>) -> Seq<u8> {
    let mut s = Seq::empty();
    for b in bytes {
        s = s.push(b);
    }
    s
}

/// The leaf version 2.8 (major version in the top three bits).
const LEAF_VERSION: u8 = (2 << 5) + 8;

fn config(para: u32) -> Config {
    Config { para_identifier: para, leaf_version: LEAF_VERSION, block_number_width: BlockNumberWidth::U64 }
}

/// A runtime with no outbound XCMP messages: the messages of a block are the
/// hash of the empty buffer.
struct NoOutbound;

impl XcmpMessageProvider for NoOutbound {
    fn messages_for(_block_hash: Seq<u8>, _para_id: u32) -> Seq<u8> {
        seq_of(blake2(&[]))
    }

    fn get_xcmp_messages(_block_hash: H256, _para_id: u32) -> Vec<u8> {
        blake2(&[])
    }
}

/// A runtime whose outbound queue holds messages 1 and 2 for para A and
/// message 1 for para B: the messages of a block are the hash of the
/// concatenated queue for the para.
struct QueuedOutbound;

fn queued(para_id: u32) -> Vec<u8> {
    let mut buf = Vec::new();
    if para_id == PARA_A {
        buf.extend_from_slice(&MESSAGE_1);
        buf.extend_from_slice(&MESSAGE_2);
    } else if para_id == PARA_B {
        buf.extend_from_slice(&MESSAGE_1);
    }
    blake2(&buf)
}

impl XcmpMessageProvider for QueuedOutbound {
    fn messages_for(_block_hash: Seq<u8>, para_id: u32) -> Seq<u8> {
        seq_of(queued(para_id))
    }

    fn get_xcmp_messages(_block_hash: H256, para_id: u32) -> Vec<u8> {
        queued(para_id)
    }
}

#[test]
fn verify_messages_stuffing_default_works() {
    let parent_hash = [0x45u8; 32];
    let empty = blake2(&Vec::new());
    for para in [PARA_A, PARA_B] {
        for parent in [0u64, 1] {
            let (leaf, _) = Pallet::leaf_data::<NoOutbound>(&config(para), parent, parent_hash);
            assert_eq!(
                leaf,
                MmrLeaf {
                    version: LEAF_VERSION,
                    parent_number_and_hash: (parent, parent_hash),
                    xcmp_msgs: empty.clone(),
                }
            );
        }
    }
}

#[test]
fn verify_messages_stuffing_xcmp_messages_works() {
    let parent_hash = [0x45u8; 32];
    // Block 1: nothing is queued yet.
    let (leaf, _) = Pallet::leaf_data::<NoOutbound>(&config(PARA_A), 0, parent_hash);
    assert_eq!(
        leaf,
        MmrLeaf {
            version: LEAF_VERSION,
            parent_number_and_hash: (0, parent_hash),
            xcmp_msgs: blake2(&Vec::new()),
        }
    );
    // Block 2: para A's leaf holds messages 1 and 2, para B's message 1.
    let mut aggregate = MESSAGE_1.to_vec();
    aggregate.extend_from_slice(&MESSAGE_2);
    let (leaf, _) = Pallet::leaf_data::<QueuedOutbound>(&config(PARA_A), 1, parent_hash);
    assert_eq!(
        leaf,
        MmrLeaf {
            version: LEAF_VERSION,
            parent_number_and_hash: (1, parent_hash),
            xcmp_msgs: blake2(&aggregate),
        }
    );
    let (leaf, _) = Pallet::leaf_data::<QueuedOutbound>(&config(PARA_B), 1, parent_hash);
    assert_eq!(
        leaf,
        MmrLeaf {
            version: LEAF_VERSION,
            parent_number_and_hash: (1, parent_hash),
            xcmp_msgs: blake2(&MESSAGE_1),
        }
    );
}
