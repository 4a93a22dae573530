# miden_node_core

Two admission rules of a Miden node, verified with Verus against the miden-protocol library.

- `src/fee.rs`: the fee rule of the block producer's mempool. With a non-zero verification base
  fee, a transaction must create the canonical fee note (a public note whose recipient runs the
  fee note script) with at least one asset whose value word is not empty. The rule is proved on
  what it reads of a transaction (`check_transaction_fee`), and `ensure_transaction_has_fee`
  applies it to a `ProvenTransaction`. The fee note script root is an argument: miden-standards
  0.15.3 has no fee note to take it from, so the caller must pass the right root; a wrong one is
  not detected.
- `src/block_checks.rs`: the checks a signed block must pass to follow a parent block, in order:
  its signature over the header commitment under the parent's validator key (the key that the
  parent header names for the next block), the header's transaction commitment and note root
  against the body, and its link to the parent (number and previous block commitment). A refused
  block is answered with the error of the first failed check.
- `src/chain_state.rs`: the network transaction builder's chain state, a chain tip and a partial
  chain MMR that lags it by one block. A refused block leaves the state unchanged; an accepted
  one advances the tip by one block, appends the old tip to the MMR (keeping its header) and
  prunes the MMR to the headers and authentication paths of the last `max_block_count` blocks.
- `src/external.rs`: the miden-protocol types the library carries and the trusted wrappers
  through which it reads and changes them, with what each claims of the protocol library.
- `app/lib.rs`: the lock that shares the chain state between actors.
