//! Admission to the mempool: the checks that a submitted transaction goes
//! through, in their order, and the answer that each failure gives.

use crate::codes::{code_number, ErrorCodes, MempoolTxType};
use crate::shell::{CheckTx, Shell};
use crate::storage::balance_in;
use crate::text::hex_upper;
use crate::transaction::{ProtocolTxType, Tx, TxError, TxType, WrapperTx};
use crate::types;
use crate::types::{Address, DateTimeUtc};
use crate::vote_extensions::{
    bp_roots_verdict, eth_events_verdict, validate_bp_roots_vext, validate_eth_events_vext,
    validate_valset_upd_vext, valset_upd_verdict, VoteExtensionError,
};
use vstd::prelude::*;
use vstd::string::StringExecFns;

verus! {

/// The fee that a wrapper has to cover where the chain has set none: a
/// hundred whole tokens, in millionths.
pub const MIN_FEE: u64 = 100_000_000;

/// What mempool validation comes to: the transaction is admitted, or it is
/// refused for one of these reasons.
#[derive(Debug)]
pub enum MempoolVerdict {
    /// Admitted.
    Valid,
    /// Admitted, and to be scheduled before everything else: a vote on the
    /// next validator set.
    ValidValsetUpdate,
    /// The bytes are no transaction: the decoder's description.
    Undecodable(String),
    /// The transaction is for another chain.
    WrongChainId,
    /// The transaction expired before the last committed block: its
    /// expiration and the block's time.
    Expired(DateTimeUtc, DateTimeUtc),
    /// The header is not signed as its kind demands.
    InvalidHeader(TxError),
    InvalidEthEventsVext(VoteExtensionError),
    InvalidBpRootsVext(VoteExtensionError),
    InvalidValsetUpdVext(VoteExtensionError),
    /// A protocol transaction of a kind that does not go through the
    /// mempool.
    ProtocolTxNotAllowed,
    /// The inner transaction has been applied before: its hash.
    InnerReplay(types::Hash),
    /// The wrapper has been applied before: its hash.
    WrapperReplay(types::Hash),
    /// The fee payer cannot pay the fee.
    InsufficientBalance,
    /// A bare payload.
    RawTx,
    /// A payload that only the validators may put into a block.
    DecryptedTx,
}

impl MempoolVerdict {
    /// The result code that goes with the verdict.
    pub open spec fn code(&self) -> ErrorCodes {
        match self {
            MempoolVerdict::Valid => ErrorCodes::Okay,
            MempoolVerdict::ValidValsetUpdate => ErrorCodes::Okay,
            MempoolVerdict::Undecodable(_) => ErrorCodes::InvalidTx,
            MempoolVerdict::WrongChainId => ErrorCodes::InvalidChainId,
            MempoolVerdict::Expired(_, _) => ErrorCodes::ExpiredTx,
            MempoolVerdict::InvalidHeader(_) => ErrorCodes::InvalidSig,
            MempoolVerdict::InvalidEthEventsVext(_) => ErrorCodes::InvalidVoteExtension,
            MempoolVerdict::InvalidBpRootsVext(_) => ErrorCodes::InvalidVoteExtension,
            MempoolVerdict::InvalidValsetUpdVext(_) => ErrorCodes::InvalidVoteExtension,
            MempoolVerdict::ProtocolTxNotAllowed => ErrorCodes::InvalidTx,
            MempoolVerdict::InnerReplay(_) => ErrorCodes::ReplayTx,
            MempoolVerdict::WrapperReplay(_) => ErrorCodes::ReplayTx,
            MempoolVerdict::InsufficientBalance => ErrorCodes::InvalidTx,
            MempoolVerdict::RawTx => ErrorCodes::InvalidTx,
            MempoolVerdict::DecryptedTx => ErrorCodes::InvalidTx,
        }
    }

    /// How urgently the transaction is to be put into a block: as urgently
    /// as can be for an admitted vote on the next validator set, not at all
    /// otherwise.
    pub open spec fn priority(&self) -> i64 {
        match self {
            MempoolVerdict::ValidValsetUpdate => i64::MAX,
            _ => 0,
        }
    }

    /// What follows `Mempool validation failed: ` in the log line of a
    /// refusal. `expected` and `found` are the chain id of the node and
    /// that of the transaction.
    pub open spec fn reason(&self, expected: Seq<char>, found: Seq<char>) -> Seq<char> {
        match self {
            MempoolVerdict::Valid => Seq::empty(),
            MempoolVerdict::ValidValsetUpdate => Seq::empty(),
            MempoolVerdict::Undecodable(e) => "Error decoding a transaction from bytes: "@ + e@,
            MempoolVerdict::WrongChainId => "Tx carries a wrong chain id: expected "@ + expected
                + ", found "@ + found,
            MempoolVerdict::Expired(expiration, last) => "Tx expired at "@ + expiration.rendered()
                + ", last committed block time: "@ + last.rendered(),
            MempoolVerdict::InvalidHeader(e) => e.message(),
            MempoolVerdict::InvalidEthEventsVext(e) => "Invalid Ethereum events vote extension: "@
                + e.message(),
            MempoolVerdict::InvalidBpRootsVext(e) => "Invalid Brige pool roots vote extension: "@
                + e.message(),
            MempoolVerdict::InvalidValsetUpdVext(e) => "Invalid validator set update vote extension: "@
                + e.message(),
            MempoolVerdict::ProtocolTxNotAllowed => "The given protocol tx cannot be added to the mempool"@,
            MempoolVerdict::InnerReplay(hash) => "Inner transaction hash "@ + hex_upper(hash@)
                + " already in storage, replay attempt"@,
            MempoolVerdict::WrapperReplay(hash) => "Wrapper transaction hash "@ + hex_upper(
                hash@,
            ) + " already in storage, replay attempt"@,
            MempoolVerdict::InsufficientBalance => "The given address does not have a sufficient balance to pay fee"@,
            MempoolVerdict::RawTx => "Raw transactions cannot be accepted into the mempool"@,
            MempoolVerdict::DecryptedTx => "Decrypted txs cannot be sent by clients"@,
        }
    }

    /// The log line that goes with the verdict.
    pub open spec fn log(&self, expected: Seq<char>, found: Seq<char>) -> Seq<char> {
        if self.code() == ErrorCodes::Okay {
            "Mempool validation passed"@
        } else {
            "Mempool validation failed: "@ + self.reason(expected, found)
        }
    }

    /// Writes the reason of a refusal: see `reason`.
    pub fn describe(&self, expected: &str, found: &str) -> (r: String)
        ensures
            r@ == self.reason(expected@, found@),
    {
        match self {
            MempoolVerdict::Valid => String::new(),
            MempoolVerdict::ValidValsetUpdate => String::new(),
            MempoolVerdict::Undecodable(e) => {
                let mut s = String::from_str("Error decoding a transaction from bytes: ");
                s.append(e.as_str());
                s
            },
            MempoolVerdict::WrongChainId => {
                let mut s = String::from_str("Tx carries a wrong chain id: expected ");
                s.append(expected);
                s.append(", found ");
                s.append(found);
                s
            },
            MempoolVerdict::Expired(expiration, last) => {
                let mut s = String::from_str("Tx expired at ");
                s.append(expiration.to_string().as_str());
                s.append(", last committed block time: ");
                s.append(last.to_string().as_str());
                s
            },
            MempoolVerdict::InvalidHeader(e) => e.to_string(),
            MempoolVerdict::InvalidEthEventsVext(e) => {
                let mut s = String::from_str("Invalid Ethereum events vote extension: ");
                s.append(e.to_string().as_str());
                s
            },
            MempoolVerdict::InvalidBpRootsVext(e) => {
                let mut s = String::from_str("Invalid Brige pool roots vote extension: ");
                s.append(e.to_string().as_str());
                s
            },
            MempoolVerdict::InvalidValsetUpdVext(e) => {
                let mut s = String::from_str("Invalid validator set update vote extension: ");
                s.append(e.to_string().as_str());
                s
            },
            MempoolVerdict::ProtocolTxNotAllowed => String::from_str(
                "The given protocol tx cannot be added to the mempool",
            ),
            MempoolVerdict::InnerReplay(hash) => {
                let mut s = String::from_str("Inner transaction hash ");
                s.append(hash.to_string().as_str());
                s.append(" already in storage, replay attempt");
                s
            },
            MempoolVerdict::WrapperReplay(hash) => {
                let mut s = String::from_str("Wrapper transaction hash ");
                s.append(hash.to_string().as_str());
                s.append(" already in storage, replay attempt");
                s
            },
            MempoolVerdict::InsufficientBalance => String::from_str(
                "The given address does not have a sufficient balance to pay fee",
            ),
            MempoolVerdict::RawTx => String::from_str(
                "Raw transactions cannot be accepted into the mempool",
            ),
            MempoolVerdict::DecryptedTx => String::from_str(
                "Decrypted txs cannot be sent by clients",
            ),
        }
    }

    /// The result code that goes with the verdict.
    pub fn error_code(&self) -> (r: ErrorCodes)
        ensures
            r == self.code(),
    {
        match self {
            MempoolVerdict::Valid => ErrorCodes::Okay,
            MempoolVerdict::ValidValsetUpdate => ErrorCodes::Okay,
            MempoolVerdict::Undecodable(_) => ErrorCodes::InvalidTx,
            MempoolVerdict::WrongChainId => ErrorCodes::InvalidChainId,
            MempoolVerdict::Expired(_, _) => ErrorCodes::ExpiredTx,
            MempoolVerdict::InvalidHeader(_) => ErrorCodes::InvalidSig,
            MempoolVerdict::InvalidEthEventsVext(_) => ErrorCodes::InvalidVoteExtension,
            MempoolVerdict::InvalidBpRootsVext(_) => ErrorCodes::InvalidVoteExtension,
            MempoolVerdict::InvalidValsetUpdVext(_) => ErrorCodes::InvalidVoteExtension,
            MempoolVerdict::ProtocolTxNotAllowed => ErrorCodes::InvalidTx,
            MempoolVerdict::InnerReplay(_) => ErrorCodes::ReplayTx,
            MempoolVerdict::WrapperReplay(_) => ErrorCodes::ReplayTx,
            MempoolVerdict::InsufficientBalance => ErrorCodes::InvalidTx,
            MempoolVerdict::RawTx => ErrorCodes::InvalidTx,
            MempoolVerdict::DecryptedTx => ErrorCodes::InvalidTx,
        }
    }
}

impl Shell {
    /// The account that pays a wrapper's fee: the shielded pool for a
    /// wrapper under the pool's key, else the account of the wrapper's key.
    pub open spec fn fee_payer_of(&self, wrapper: WrapperTx) -> Address {
        if wrapper.pk@ != self.config.masp_tx_key@ {
            wrapper.payer
        } else {
            self.config.masp
        }
    }

    /// The fee that a wrapper has to cover: what the chain has set, else
    /// `MIN_FEE`.
    pub open spec fn wrapper_tx_fees(&self) -> u64 {
        match self.storage.wrapper_tx_fees {
            Some(fees) => fees,
            None => MIN_FEE,
        }
    }

    /// What the checks of a wrapper come to. In this order: the inner
    /// transaction's hash, then the wrapper's, must not be among the
    /// committed replay records; the fee payer's balance in the fee's token
    /// must cover the fee, unless a valid proof of work stands in for it.
    pub open spec fn wrapper_verdict(&self, tx: Tx, wrapper: WrapperTx) -> MempoolVerdict {
        if self.storage.replay_protection.committed@.contains(tx.raw_header_hash) {
            MempoolVerdict::InnerReplay(tx.raw_header_hash)
        } else if self.storage.replay_protection.committed@.contains(tx.header_hash) {
            MempoolVerdict::WrapperReplay(tx.header_hash)
        } else if !self.valid_pow_solution(wrapper) && self.wrapper_tx_fees()
            > balance_in(
            self.storage.balances@,
            wrapper.fee.token@,
            self.fee_payer_of(wrapper)@,
        ) {
            MempoolVerdict::InsufficientBalance
        } else {
            MempoolVerdict::Valid
        }
    }

    /// What the checks of a protocol transaction come to: a vote extension
    /// is validated as it is at consensus time, against the last committed
    /// height or, for a vote on the next validator set, the last completed
    /// epoch, which must not be the epoch in progress; nothing else goes
    /// through the mempool.
    pub open spec fn protocol_verdict(&self, payload: ProtocolTxType) -> MempoolVerdict {
        match payload {
            ProtocolTxType::EthEventsVext(ext) => match eth_events_verdict(
                &self.storage,
                ext,
                self.storage.last_height(),
            ) {
                Ok(_) => MempoolVerdict::Valid,
                Err(e) => MempoolVerdict::InvalidEthEventsVext(e),
            },
            ProtocolTxType::BridgePoolVext(ext) => match bp_roots_verdict(
                &self.storage,
                ext,
                self.storage.last_height(),
            ) {
                Ok(_) => MempoolVerdict::Valid,
                Err(e) => MempoolVerdict::InvalidBpRootsVext(e),
            },
            ProtocolTxType::ValSetUpdateVext(ext) => match valset_upd_verdict(
                &self.storage,
                ext,
                self.storage.last_epoch,
            ) {
                Ok(_) => MempoolVerdict::ValidValsetUpdate,
                Err(e) => MempoolVerdict::InvalidValsetUpdVext(e),
            },
            _ => MempoolVerdict::ProtocolTxNotAllowed,
        }
    }

    /// Whether the transaction has expired: it has an expiration, a block
    /// has been committed, and that block's time is after the expiration.
    pub open spec fn expired(&self, tx: Tx) -> bool {
        &&& tx.header.expiration is Some
        &&& self.storage.last_block is Some
        &&& self.storage.last_block.unwrap().time.later_than(tx.header.expiration.unwrap())
    }

    /// What mempool validation comes to. The checks run in this order and
    /// the first that fails decides: the bytes have to decode; the chain id
    /// has to be this chain's; the transaction must not have expired; the
    /// header has to be signed as its kind demands; then the kind decides.
    pub open spec fn mempool_verdict(&self, decoded: Result<Tx, String>) -> MempoolVerdict {
        match decoded {
            Err(e) => MempoolVerdict::Undecodable(e),
            Ok(tx) => {
                if tx.header.chain_id@ != self.chain_id@ {
                    MempoolVerdict::WrongChainId
                } else if self.expired(tx) {
                    MempoolVerdict::Expired(
                        tx.header.expiration.unwrap(),
                        self.storage.last_block.unwrap().time,
                    )
                } else if tx.header_verdict() is Err {
                    MempoolVerdict::InvalidHeader(tx.header_verdict()->Err_0)
                } else {
                    match tx.header.tx_type {
                        TxType::Protocol(protocol) => self.protocol_verdict(protocol.tx),
                        TxType::Wrapper(wrapper) => self.wrapper_verdict(tx, wrapper),
                        TxType::Raw => MempoolVerdict::RawTx,
                        TxType::Decrypted => MempoolVerdict::DecryptedTx,
                    }
                }
            },
        }
    }

    /// The chain id that a decoded transaction carries; nothing where the
    /// bytes did not decode.
    pub open spec fn found_chain_id(decoded: Result<Tx, String>) -> Seq<char> {
        match decoded {
            Ok(tx) => tx.header.chain_id@,
            Err(_) => Seq::empty(),
        }
    }

    /// Get fixed amount of fees for wrapper tx
    pub fn get_wrapper_tx_fees(&self) -> (r: u64)
        ensures
            r == self.wrapper_tx_fees(),
    {
        match self.storage.wrapper_tx_fees {
            Some(fees) => fees,
            None => MIN_FEE,
        }
    }

    /// Runs the checks of a wrapper: see `wrapper_verdict`.
    pub fn check_wrapper(&self, tx: &Tx, wrapper: &WrapperTx) -> (r: MempoolVerdict)
        ensures
            r == self.wrapper_verdict(*tx, *wrapper),
    {
        if self.storage.replay_protection.has_key(&tx.raw_header_hash) {
            return MempoolVerdict::InnerReplay(tx.raw_header_hash);
        }
        if self.storage.replay_protection.has_key(&tx.header_hash) {
            return MempoolVerdict::WrapperReplay(tx.header_hash);
        }
        let balance: u64 = if !wrapper.pk.same(&self.config.masp_tx_key) {
            self.storage.get_balance(&wrapper.fee.token, &wrapper.payer)
        } else {
            self.storage.get_balance(&wrapper.fee.token, &self.config.masp)
        };
        let has_valid_pow: bool = self.has_valid_pow_solution(wrapper);
        if !has_valid_pow && self.get_wrapper_tx_fees() > balance {
            return MempoolVerdict::InsufficientBalance;
        }
        MempoolVerdict::Valid
    }

    /// Runs the checks of a protocol transaction: see `protocol_verdict`.
    pub fn check_protocol_tx(&self, payload: &ProtocolTxType) -> (r: MempoolVerdict)
        ensures
            r == self.protocol_verdict(*payload),
    {
        match payload {
            ProtocolTxType::EthEventsVext(ext) => {
                match validate_eth_events_vext(
                    &self.storage,
                    ext,
                    self.storage.get_last_block_height(),
                ) {
                    Ok(_) => MempoolVerdict::Valid,
                    Err(e) => MempoolVerdict::InvalidEthEventsVext(e),
                }
            },
            ProtocolTxType::BridgePoolVext(ext) => {
                match validate_bp_roots_vext(
                    &self.storage,
                    ext,
                    self.storage.get_last_block_height(),
                ) {
                    Ok(_) => MempoolVerdict::Valid,
                    Err(e) => MempoolVerdict::InvalidBpRootsVext(e),
                }
            },
            ProtocolTxType::ValSetUpdateVext(ext) => {
                match validate_valset_upd_vext(&self.storage, ext, self.storage.last_epoch) {
                    Ok(_) => MempoolVerdict::ValidValsetUpdate,
                    Err(e) => MempoolVerdict::InvalidValsetUpdVext(e),
                }
            },
            _ => MempoolVerdict::ProtocolTxNotAllowed,
        }
    }

    /// Decides on a transaction: see `mempool_verdict`.
    pub fn mempool_decide(&self, decoded: &Result<Tx, String>) -> (r: MempoolVerdict)
        ensures
            r == self.mempool_verdict(*decoded),
    {
        let tx: &Tx = match decoded {
            Ok(tx) => tx,
            Err(e) => {
                return MempoolVerdict::Undecodable(e.clone());
            },
        };
        if tx.header.chain_id != self.chain_id {
            return MempoolVerdict::WrongChainId;
        }
        match (&tx.header.expiration, &self.storage.last_block) {
            (Some(expiration), Some(block)) => {
                if block.time.is_after(expiration) {
                    return MempoolVerdict::Expired(*expiration, block.time);
                }
            },
            _ => {},
        }
        match tx.validate_header() {
            Ok(()) => {},
            Err(e) => {
                return MempoolVerdict::InvalidHeader(e);
            },
        }
        match &tx.header.tx_type {
            TxType::Protocol(protocol) => self.check_protocol_tx(&protocol.tx),
            TxType::Wrapper(wrapper) => self.check_wrapper(tx, wrapper),
            TxType::Raw => MempoolVerdict::RawTx,
            TxType::Decrypted => MempoolVerdict::DecryptedTx,
        }
    }

    /// Validate a transaction request. On success, the transaction will
    /// included in the mempool and propagated to peers, otherwise it will be
    /// rejected.
    ///
    /// Takes what decoding the request's bytes came to: the transaction, or
    /// the decoder's description of the failure. The answer is the same for
    /// a new transaction and for one that is checked again.
    pub fn mempool_validate(&self, decoded: &Result<Tx, String>, _tx_type: MempoolTxType) -> (r:
        CheckTx)
        ensures
            r.code == code_number(self.mempool_verdict(*decoded).code()),
            r.log@ == self.mempool_verdict(*decoded).log(
                self.chain_id@,
                Self::found_chain_id(*decoded),
            ),
            r.priority == self.mempool_verdict(*decoded).priority(),
    {
        let verdict = self.mempool_decide(decoded);
        let code: ErrorCodes = verdict.error_code();
        let priority: i64 = match &verdict {
            MempoolVerdict::ValidValsetUpdate => i64::MAX,
            _ => 0,
        };
        let log = match code {
            ErrorCodes::Okay => String::from_str("Mempool validation passed"),
            _ => {
                let reason = match decoded {
                    Ok(tx) => verdict.describe(self.chain_id.as_str(), tx.header.chain_id.as_str()),
                    Err(_) => verdict.describe(self.chain_id.as_str(), ""),
                };
                let mut s = String::from_str("Mempool validation failed: ");
                s.append(reason.as_str());
                s
            },
        };
        CheckTx { code: code.to_u32(), log, priority }
    }
}

/// A wrapper that has been applied before is refused as a replay: where the
/// wrapper's hash or its inner transaction's hash is among the committed
/// records, and the wrapper is for this chain, has not expired and is signed
/// by its fee payer, the verdict is a replay. Validation reads the state and
/// leaves it as it was, and its answer does not depend on the kind of the
/// request, so the same holds of every later submission, new or checked
/// again.
pub proof fn recorded_wrapper_is_refused_as_replay(shell: Shell, tx: Tx, wrapper: WrapperTx)
    requires
        tx.header.tx_type == TxType::Wrapper(wrapper),
        tx.header.chain_id@ == shell.chain_id@,
        !shell.expired(tx),
        tx.header_verdict() is Ok,
        shell.storage.replay_protection.committed@.contains(tx.header_hash)
            || shell.storage.replay_protection.committed@.contains(tx.raw_header_hash),
    ensures
        shell.mempool_verdict(Ok(tx)).code() == ErrorCodes::ReplayTx,
        shell.mempool_verdict(Ok(tx)) == MempoolVerdict::InnerReplay(tx.raw_header_hash)
            || shell.mempool_verdict(Ok(tx)) == MempoolVerdict::WrapperReplay(tx.header_hash),
{
}

/// A transaction for this chain that expired before the last committed
/// block is refused as expired, whatever its kind and whether or not its
/// signatures are valid.
pub proof fn expired_tx_is_refused(shell: Shell, tx: Tx)
    requires
        tx.header.chain_id@ == shell.chain_id@,
        tx.header.expiration is Some,
        shell.storage.last_block is Some,
        shell.storage.last_block.unwrap().time.later_than(tx.header.expiration.unwrap()),
    ensures
        shell.mempool_verdict(Ok(tx)).code() == ErrorCodes::ExpiredTx,
{
}

/// A transaction that carries the id of another chain is refused for that,
/// before its expiration, its signatures or the replay records are looked
/// at.
pub proof fn foreign_chain_id_is_refused(shell: Shell, tx: Tx)
    requires
        tx.header.chain_id@ != shell.chain_id@,
    ensures
        shell.mempool_verdict(Ok(tx)) == MempoolVerdict::WrongChainId,
        shell.mempool_verdict(Ok(tx)).code() == ErrorCodes::InvalidChainId,
{
}

/// A vote on the next validator set that was cast in the epoch of the
/// block in progress is refused, even where a bonded validator signed it
/// well: such votes are due in the last completed epoch, and while that is
/// still the epoch in progress none is due.
pub proof fn valset_update_of_current_epoch_is_refused(
    shell: Shell,
    tx: Tx,
    protocol: crate::transaction::ProtocolTx,
    ext: crate::transaction::ValSetUpdateVext,
)
    requires
        tx.header.tx_type == TxType::Protocol(protocol),
        protocol.tx == ProtocolTxType::ValSetUpdateVext(ext),
        tx.header.chain_id@ == shell.chain_id@,
        !shell.expired(tx),
        tx.header_verdict() is Ok,
        ext.signing_epoch == shell.storage.epoch,
    ensures
        shell.mempool_verdict(Ok(tx)) == MempoolVerdict::InvalidValsetUpdVext(
            VoteExtensionError::UnexpectedEpoch,
        ),
        shell.mempool_verdict(Ok(tx)).code() == ErrorCodes::InvalidVoteExtension,
        shell.mempool_verdict(Ok(tx)).priority() == 0,
{
}

/// The result code is zero for exactly the two verdicts that admit a
/// transaction, and every refusal carries a code that block finalization
/// does not recover from.
pub proof fn refusals_are_not_recoverable(verdict: MempoolVerdict)
    ensures
        code_number(verdict.code()) == 0 <==> verdict is Valid || verdict is ValidValsetUpdate,
        code_number(verdict.code()) != 0 ==> !verdict.code().recoverable(),
{
}

/// Only a wrapper or a vote extension is ever admitted, and only after
/// every check before its own: an admitted transaction decoded, carries
/// this chain's id, has not expired and is signed as its kind demands.
pub proof fn admitted_tx_passed_every_check(shell: Shell, decoded: Result<Tx, String>)
    requires
        shell.mempool_verdict(decoded).code() == ErrorCodes::Okay,
    ensures
        decoded matches Ok(tx) && {
            &&& tx.header.chain_id@ == shell.chain_id@
            &&& !shell.expired(tx)
            &&& tx.header_verdict() is Ok
            &&& tx.header.tx_type is Wrapper || tx.header.tx_type is Protocol
            &&& tx.header.tx_type is Wrapper ==> !shell.storage.replay_protection.committed@.contains(
                tx.header_hash,
            ) && !shell.storage.replay_protection.committed@.contains(tx.raw_header_hash)
        },
{
}

} // verus!
