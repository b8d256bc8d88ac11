//! The result codes that the ledger hands back to the consensus engine, and
//! the two kinds of mempool validation request.

use crate::text::{decimal, decimal_string};
use vstd::prelude::*;
use vstd::std_specs::convert::FromSpecImpl;

verus! {

/// The status of a submitted transaction. The numbers are part of the
/// protocol with the consensus engine and never change.
#[derive(Debug, Clone, Copy, PartialEq, Eq, Structural)]
pub enum ErrorCodes {
    Okay,
    InvalidDecryptedChainId,
    ExpiredDecryptedTx,
    WasmRuntimeError,
    InvalidTx,
    InvalidSig,
    InvalidOrder,
    ExtraTxs,
    Undecryptable,
    AllocationError,
    ReplayTx,
    InvalidChainId,
    ExpiredTx,
    InvalidVoteExtension,
}

/// The number that stands for a code on the wire.
pub open spec fn code_number(code: ErrorCodes) -> u32 {
    match code {
        ErrorCodes::Okay => 0,
        ErrorCodes::InvalidDecryptedChainId => 1,
        ErrorCodes::ExpiredDecryptedTx => 2,
        ErrorCodes::WasmRuntimeError => 3,
        ErrorCodes::InvalidTx => 4,
        ErrorCodes::InvalidSig => 5,
        ErrorCodes::InvalidOrder => 6,
        ErrorCodes::ExtraTxs => 7,
        ErrorCodes::Undecryptable => 8,
        ErrorCodes::AllocationError => 9,
        ErrorCodes::ReplayTx => 10,
        ErrorCodes::InvalidChainId => 11,
        ErrorCodes::ExpiredTx => 12,
        ErrorCodes::InvalidVoteExtension => 13,
    }
}

/// The code that a number stands for, if any.
pub open spec fn code_of_number(n: u32) -> Option<ErrorCodes> {
    if n == 0 {
        Some(ErrorCodes::Okay)
    } else if n == 1 {
        Some(ErrorCodes::InvalidDecryptedChainId)
    } else if n == 2 {
        Some(ErrorCodes::ExpiredDecryptedTx)
    } else if n == 3 {
        Some(ErrorCodes::WasmRuntimeError)
    } else if n == 4 {
        Some(ErrorCodes::InvalidTx)
    } else if n == 5 {
        Some(ErrorCodes::InvalidSig)
    } else if n == 6 {
        Some(ErrorCodes::InvalidOrder)
    } else if n == 7 {
        Some(ErrorCodes::ExtraTxs)
    } else if n == 8 {
        Some(ErrorCodes::Undecryptable)
    } else if n == 9 {
        Some(ErrorCodes::AllocationError)
    } else if n == 10 {
        Some(ErrorCodes::ReplayTx)
    } else if n == 11 {
        Some(ErrorCodes::InvalidChainId)
    } else if n == 12 {
        Some(ErrorCodes::ExpiredTx)
    } else if n == 13 {
        Some(ErrorCodes::InvalidVoteExtension)
    } else {
        None
    }
}

impl ErrorCodes {
    /// A recoverable code is one that block finalization survives: the
    /// transaction fails and the block goes on.
    pub open spec fn recoverable(self) -> bool {
        code_number(self) <= 3
    }

    /// Checks if the code is a protocol level error that block finalization
    /// can recover from.
    pub fn is_recoverable(&self) -> (r: bool)
        ensures
            r == self.recoverable(),
    {
        match self {
            ErrorCodes::Okay
            | ErrorCodes::InvalidDecryptedChainId
            | ErrorCodes::ExpiredDecryptedTx
            | ErrorCodes::WasmRuntimeError => true,
            ErrorCodes::InvalidTx
            | ErrorCodes::InvalidSig
            | ErrorCodes::InvalidOrder
            | ErrorCodes::ExtraTxs
            | ErrorCodes::Undecryptable
            | ErrorCodes::AllocationError
            | ErrorCodes::ReplayTx
            | ErrorCodes::InvalidChainId
            | ErrorCodes::ExpiredTx
            | ErrorCodes::InvalidVoteExtension => false,
        }
    }

    /// The code that a number from the wire stands for.
    pub fn from_u32(n: u32) -> (r: Option<ErrorCodes>)
        ensures
            r == code_of_number(n),
    {
        match n {
            0 => Some(ErrorCodes::Okay),
            1 => Some(ErrorCodes::InvalidDecryptedChainId),
            2 => Some(ErrorCodes::ExpiredDecryptedTx),
            3 => Some(ErrorCodes::WasmRuntimeError),
            4 => Some(ErrorCodes::InvalidTx),
            5 => Some(ErrorCodes::InvalidSig),
            6 => Some(ErrorCodes::InvalidOrder),
            7 => Some(ErrorCodes::ExtraTxs),
            8 => Some(ErrorCodes::Undecryptable),
            9 => Some(ErrorCodes::AllocationError),
            10 => Some(ErrorCodes::ReplayTx),
            11 => Some(ErrorCodes::InvalidChainId),
            12 => Some(ErrorCodes::ExpiredTx),
            13 => Some(ErrorCodes::InvalidVoteExtension),
            _ => None,
        }
    }

    /// The number of the code.
    pub fn to_u32(&self) -> (r: u32)
        ensures
            r == code_number(*self),
    {
        match self {
            ErrorCodes::Okay => 0,
            ErrorCodes::InvalidDecryptedChainId => 1,
            ErrorCodes::ExpiredDecryptedTx => 2,
            ErrorCodes::WasmRuntimeError => 3,
            ErrorCodes::InvalidTx => 4,
            ErrorCodes::InvalidSig => 5,
            ErrorCodes::InvalidOrder => 6,
            ErrorCodes::ExtraTxs => 7,
            ErrorCodes::Undecryptable => 8,
            ErrorCodes::AllocationError => 9,
            ErrorCodes::ReplayTx => 10,
            ErrorCodes::InvalidChainId => 11,
            ErrorCodes::ExpiredTx => 12,
            ErrorCodes::InvalidVoteExtension => 13,
        }
    }

    /// The number of the code, written in decimal.
    pub fn to_string(&self) -> (r: String)
        ensures
            r@ == decimal(code_number(*self) as nat),
    {
        let n: u32 = self.to_u32();
        decimal_string(n as u64)
    }
}

impl From<ErrorCodes> for u32 {
    fn from(code: ErrorCodes) -> (r: u32) {
        code.to_u32()
    }
}

impl FromSpecImpl<ErrorCodes> for u32 {
    open spec fn obeys_from_spec() -> bool {
        true
    }

    open spec fn from_spec(code: ErrorCodes) -> u32 {
        code_number(code)
    }
}

/// Every code is found again from its number, and no other number stands
/// for a code.
pub proof fn code_numbers_round_trip(code: ErrorCodes, n: u32)
    ensures
        code_of_number(code_number(code)) == Some(code),
        code_of_number(n) is Some ==> code_number(code_of_number(n).unwrap()) == n,
        code_of_number(n) is Some <==> n <= 13,
{
}

/// Whether a transaction comes to the mempool for the first time.
#[derive(Debug, Clone, Copy, PartialEq, Eq, Structural)]
pub enum MempoolTxType {
    /// A transaction that has not been validated by this node before
    NewTransaction,
    /// A transaction that has been validated at some previous level that may
    /// need to be validated again
    RecheckTransaction,
}

impl Default for MempoolTxType {
    fn default() -> (r: MempoolTxType)
        ensures
            r == MempoolTxType::NewTransaction,
    {
        MempoolTxType::NewTransaction
    }
}

} // verus!
