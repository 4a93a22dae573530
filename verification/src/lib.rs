//! Admission rules of a Miden node: the fee check that the block producer applies to submitted
//! transactions, and the chain state that the network transaction builder advances block by block.

pub mod block_checks;
pub mod chain_state;
pub mod external;
pub mod fee;
