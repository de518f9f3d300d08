# hint_host

The decisions of a fault-proof host that answers hints for a single chain, verified with Verus.

A hint names data that a proof program will read from the preimage oracle: a header, a block's
transactions or receipts, a blob, a precompile call, a state trie node, an account's proof, the
starting output root. The library turns a hint into steps: requests to the nodes, and entries
for the preimage store. It states exactly which requests are made, what is stored under which
key, and when a hint fails.

- `src/`: the verified library. `handler.rs` is the way in, `laws.rs` states what holds of the
  store and of whole runs. `sync.rs` finds the L1 block that an oracle-backed derivation
  pipeline starts from, and `batcher.rs` tells which L2 blocks a batch covers.
  `outside.rs` holds all that is taken on trust: Keccak-256, the RLP decoding of headers, the
  JSON parsing of payload attributes, and the big-endian form of big integers.
- `app/`: ordinary Rust that performs the steps: JSON-RPC, the shared store, logging, the
  command line. The beacon client, the precompile runner, the trie writer, the rollup
  configuration and the derivation pipeline are traits there.
- `tests/`: runs the library on concrete values, with the real crates linked.
