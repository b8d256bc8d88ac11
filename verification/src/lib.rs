//! The consensus-facing shell of a ledger node: what is admitted to the
//! mempool, how replays are kept out, how evidence of misbehaviour becomes
//! slashes, and what the Ethereum oracle is told.

pub mod codes;
pub mod commit;
pub mod epochs;
pub mod error;
pub mod ethereum;
pub mod faucet;
pub mod mempool;
pub mod mode;
pub mod oracle;
pub mod replay;
pub mod shell;
pub mod slashing;
pub mod storage;
pub mod text;
pub mod transaction;
pub mod types;
pub mod vote_extensions;
