# xcmp_message_stuffer

Verified core of an XCMP message-stuffing pallet and of the relayer that feeds it.

A message sent from parachain A to parachain B is proved to B through four tiers:

1. an MMR proof of a BEEFY leaf under a BEEFY root that B has seen,
2. a binary Merkle proof of A's head in the relay chain's parachain-heads tree,
   whose root is the BEEFY leaf's extra data,
3. a binary Merkle proof of the channel's message-MMR root in A's channel tree,
   whose root A's header digest carries,
4. an MMR proof of the message leaves under that channel root.

Layout:

- `src/pallet.rs`: the pallet's storage (channel roots, seen BEEFY roots), its
  dispatchables (`update_root`, `submit_test_proof`, `submit_xcmp_proof`), block
  initialisation, the channel MMR leaf, and the laws that relate them.
- `src/proofs.rs`: the proof types.
- `src/relayer.rs`: the relayer's decisions: retry policy, proof-size
  benchmark, store of relay-chain proofs, proof assembly.
- `src/crypto.rs`, `src/scale.rs`: the calls into `binary-merkle-tree`,
  `pallet-mmr`, `sp-runtime` and `parity-scale-codec`.
- `src/assoc.rs`, `src/hash.rs`, `src/num.rs`: key/value lists as maps, hashes,
  integer narrowing.
- `app/main.rs`: the relayer's network side (subxt, jsonrpsee, tokio).

What rests on the caller or on a choice of this library:

- The stage-3 channel root is read from the sender's header digest by the
  chain's own digest reader, which is not part of this library.
  `submit_xcmp_proof` checks that the parachain leaf's head data decodes as a
  header, and takes the channel root that the digest carries as its
  `digest_root` argument; the link from header to channel root rests on the
  caller passing what that reader gives.
- The BEEFY MMR leaf of stage 1 is decoded with the runtime's block-number
  width, which `Config::block_number_width` names (32 or 64 bits).
- Keyed storage is held in key/value lists proved to behave as maps: the
  keys are 32-byte hashes, for which vstd's `BTreeMap` specification gives
  nothing (its contracts hold only for key types that obey its ordering
  laws, and arrays have none).
