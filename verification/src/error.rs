//! What can go wrong in the shell, and how it is reported.

use crate::text::{decimal, decimal_string, join};
use vstd::prelude::*;
use vstd::string::StringExecFns;

verus! {

/// An error of the shell. Where the cause lies in a collaborator (the
/// database, the consensus node, the oracle), the variant holds the
/// collaborator's own description of it.
#[derive(Debug)]
pub enum Error {
    RemoveDB(String),
    ChainId(String),
    TxDecoding(String),
    TxApply(String),
    GasOverflow,
    Tendermint(String),
    Ethereum(String),
    TowerServer(String),
    Broadcaster(String),
    BadProposal(u64, String),
    ReadingWasm(String),
    LoadingWasm(String),
    StorageApi(String),
    ReplayAttempt(String),
}

impl Error {
    /// The line that describes the error.
    pub open spec fn message(&self) -> Seq<char> {
        match self {
            Error::RemoveDB(e) => "Error removing the DB data: "@ + e@,
            Error::ChainId(e) => "chain ID mismatch: "@ + e@,
            Error::TxDecoding(e) => "Error decoding a transaction from bytes: "@ + e@,
            Error::TxApply(e) => "Error trying to apply a transaction: "@ + e@,
            Error::GasOverflow => "Gas limit exceeding while applying transactions in block"@,
            Error::Tendermint(e) => e@,
            Error::Ethereum(e) => e@,
            Error::TowerServer(e) => "Server error: "@ + e@,
            Error::Broadcaster(e) => e@,
            Error::BadProposal(id, e) => "Error executing proposal "@ + decimal(*id as nat)
                + ": "@ + e@,
            Error::ReadingWasm(e) => "Error reading wasm: "@ + e@,
            Error::LoadingWasm(e) => "Error loading wasm: "@ + e@,
            Error::StorageApi(e) => "Error reading from or writing to storage: "@ + e@,
            Error::ReplayAttempt(e) => "Transaction replay attempt: "@ + e@,
        }
    }

    /// Describes the error in one line.
    pub fn to_string(&self) -> (r: String)
        ensures
            r@ == self.message(),
    {
        match self {
            Error::RemoveDB(e) => join("Error removing the DB data: ", e.as_str()),
            Error::ChainId(e) => join("chain ID mismatch: ", e.as_str()),
            Error::TxDecoding(e) => join("Error decoding a transaction from bytes: ", e.as_str()),
            Error::TxApply(e) => join("Error trying to apply a transaction: ", e.as_str()),
            Error::GasOverflow => String::from_str(
                "Gas limit exceeding while applying transactions in block",
            ),
            Error::Tendermint(e) => e.clone(),
            Error::Ethereum(e) => e.clone(),
            Error::TowerServer(e) => join("Server error: ", e.as_str()),
            Error::Broadcaster(e) => e.clone(),
            Error::BadProposal(id, e) => {
                let mut s = join("Error executing proposal ", decimal_string(*id).as_str());
                s.append(": ");
                s.append(e.as_str());
                s
            },
            Error::ReadingWasm(e) => join("Error reading wasm: ", e.as_str()),
            Error::LoadingWasm(e) => join("Error loading wasm: ", e.as_str()),
            Error::StorageApi(e) => join("Error reading from or writing to storage: ", e.as_str()),
            Error::ReplayAttempt(e) => join("Transaction replay attempt: ", e.as_str()),
        }
    }
}

/// The outcome of one transaction as the block's results carry it.
#[derive(Debug)]
pub struct TxResult {
    pub code: u32,
    pub info: String,
}

impl TxResult {
    /// The result that reports an error: code 1 and the error's description.
    pub fn from(err: Error) -> (r: TxResult)
        ensures
            r.code == 1,
            r.info@ == err.message(),
    {
        TxResult { code: 1, info: err.to_string() }
    }
}

} // verus!
