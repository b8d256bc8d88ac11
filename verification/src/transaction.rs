//! A transaction as the shell sees it once the wire format has been taken
//! apart: the header, the two content hashes and the signatures, each as a
//! plain value.

use crate::ethereum::EthereumEvent;
use crate::types;
use crate::types::{Address, DateTimeUtc, PublicKey};
use vstd::prelude::*;
use vstd::string::StringExecFns;

verus! {

/// The fee that a wrapper offers.
#[derive(Debug)]
pub struct Fee {
    pub amount: u64,
    pub token: Address,
}

/// A solution to the faucet's proof-of-work challenge: the value of the
/// submitter's counter that it was made for, and whether its hash meets the
/// challenge's difficulty.
#[derive(Debug, Clone, Copy, PartialEq, Eq, Structural)]
pub struct PowSolution {
    pub counter: u64,
    pub meets_difficulty: bool,
}

/// The header of a fee-bearing wrapper.
#[derive(Debug)]
pub struct WrapperTx {
    pub fee: Fee,
    /// The key of whoever pays the fee.
    pub pk: PublicKey,
    /// The account that belongs to `pk`.
    pub payer: Address,
    pub epoch: u64,
    pub gas_limit: u64,
    pub pow_solution: Option<PowSolution>,
}

impl WrapperTx {
    /// A wrapper that offers `fee`, paid by the holder of `pk`.
    pub fn new(
        fee: Fee,
        pk: PublicKey,
        payer: Address,
        epoch: u64,
        gas_limit: u64,
        pow_solution: Option<PowSolution>,
    ) -> (r: WrapperTx)
        ensures
            r.fee == fee,
            r.pk == pk,
            r.payer == payer,
            r.epoch == epoch,
            r.gas_limit == gas_limit,
            r.pow_solution == pow_solution,
    {
        WrapperTx { fee, pk, payer, epoch, gas_limit, pow_solution }
    }
}

/// A signature as the signature scheme judged it: what it was made over, and
/// the key under which it verifies, if there is one.
#[derive(Debug)]
pub struct Signature {
    pub target: types::Hash,
    pub verifies_under: Option<PublicKey>,
}

impl Signature {
    /// Whether this is a valid signature over `target` by the holder of `pk`.
    pub open spec fn covers(&self, target: types::Hash, pk: Seq<char>) -> bool {
        self.target == target && self.verifies_under is Some && self.verifies_under.unwrap()@
            == pk
    }

    /// Whether this is a valid signature over `target` by the holder of `pk`.
    pub fn is_valid_for(&self, target: &types::Hash, pk: &PublicKey) -> (r: bool)
        ensures
            r == self.covers(*target, pk@),
    {
        match &self.verifies_under {
            Some(key) => self.target.same(target) && key.same(pk),
            None => false,
        }
    }
}

/// A validator's vote on the Ethereum events it has seen.
#[derive(Debug)]
pub struct EthEventsVext {
    pub validator_addr: Address,
    /// The height of the block that the vote was cast on.
    pub block_height: u64,
    pub ethereum_events: Vec<EthereumEvent>,
    /// The key under which the vote's signature verifies.
    pub signer: Option<PublicKey>,
}

/// A validator's signature over the bridge pool's root and nonce.
#[derive(Debug)]
pub struct BridgePoolVext {
    pub validator_addr: Address,
    /// The height of the block that the root belongs to.
    pub block_height: u64,
    /// The key under which the signature over root and nonce verifies.
    pub signer: Option<PublicKey>,
}

/// A validator's signature over the validator set of the next epoch.
#[derive(Debug)]
pub struct ValSetUpdateVext {
    pub validator_addr: Address,
    /// The epoch in which the vote was cast.
    pub signing_epoch: u64,
    /// The key under which the signature verifies.
    pub signer: Option<PublicKey>,
}

/// What a protocol transaction carries.
#[derive(Debug)]
pub enum ProtocolTxType {
    DKG,
    NewDkgKeypair,
    EthereumEvents,
    BridgePool,
    ValidatorSetUpdate,
    EthEventsVext(EthEventsVext),
    BridgePoolVext(BridgePoolVext),
    ValSetUpdateVext(ValSetUpdateVext),
}

/// The header of a protocol transaction: the validator's key and the payload.
#[derive(Debug)]
pub struct ProtocolTx {
    pub pk: PublicKey,
    pub tx: ProtocolTxType,
}

/// The kind of a transaction.
#[derive(Debug)]
pub enum TxType {
    /// A bare payload.
    Raw,
    /// A fee-bearing envelope round an encrypted payload.
    Wrapper(WrapperTx),
    /// A payload that the validators decrypted.
    Decrypted,
    /// A transaction that a validator issues for the protocol's own sake.
    Protocol(ProtocolTx),
}

/// The header of a transaction.
#[derive(Debug)]
pub struct Header {
    pub chain_id: String,
    pub expiration: Option<DateTimeUtc>,
    pub tx_type: TxType,
}

/// Why a header was refused.
#[derive(Debug, Clone, Copy, PartialEq, Eq, Structural)]
pub enum TxError {
    /// A wrapper without a valid signature by the fee payer's key.
    WrapperSignature,
    /// A protocol transaction without a valid signature by the validator's key.
    ProtocolSignature,
}

impl TxError {
    /// The line that describes the error.
    pub open spec fn message(self) -> Seq<char> {
        match self {
            TxError::WrapperSignature => "WrapperTx signature verification failed"@,
            TxError::ProtocolSignature => "ProtocolTx signature verification failed"@,
        }
    }

    /// Describes the error in one line.
    pub fn to_string(&self) -> (r: String)
        ensures
            r@ == self.message(),
    {
        match self {
            TxError::WrapperSignature => String::from_str(
                "WrapperTx signature verification failed",
            ),
            TxError::ProtocolSignature => String::from_str(
                "ProtocolTx signature verification failed",
            ),
        }
    }
}

/// A transaction taken apart.
#[derive(Debug)]
pub struct Tx {
    pub header: Header,
    /// The hash of the header as it stands.
    pub header_hash: types::Hash,
    /// The hash that the header would have with the kind `Raw` in place of
    /// its own: the hash of the inner transaction.
    pub raw_header_hash: types::Hash,
    pub signatures: Vec<Signature>,
}

/// Whether one of the signatures is a valid one over `target` by `pk`.
pub open spec fn signed_by(signatures: Seq<Signature>, target: types::Hash, pk: Seq<char>) -> bool {
    exists|i: int| 0 <= i < signatures.len() && (#[trigger] signatures[i]).covers(target, pk)
}

impl Tx {
    /// A transaction of the given kind, for no chain yet, that never expires
    /// and carries no signature.
    pub fn new(tx_type: TxType, header_hash: types::Hash, raw_header_hash: types::Hash) -> (r: Tx)
        ensures
            r.header.chain_id@ == Seq::<char>::empty(),
            r.header.expiration is None,
            r.header.tx_type == tx_type,
            r.header_hash == header_hash,
            r.raw_header_hash == raw_header_hash,
            r.signatures@ == Seq::<Signature>::empty(),
    {
        Tx {
            header: Header { chain_id: String::new(), expiration: None, tx_type },
            header_hash,
            raw_header_hash,
            signatures: Vec::new(),
        }
    }

    /// Adds a signature.
    pub fn add_signature(&mut self, signature: Signature)
        ensures
            final(self).header == old(self).header,
            final(self).header_hash == old(self).header_hash,
            final(self).raw_header_hash == old(self).raw_header_hash,
            final(self).signatures@ == old(self).signatures@.push(signature),
    {
        self.signatures.push(signature);
    }

    /// What the header's validation comes to: a wrapper needs a valid
    /// signature over the header's hash by the fee payer's key, a protocol
    /// transaction one by the validator's key; the other kinds need none.
    pub open spec fn header_verdict(&self) -> Result<(), TxError> {
        match self.header.tx_type {
            TxType::Wrapper(wrapper) => if signed_by(
                self.signatures@,
                self.header_hash,
                wrapper.pk@,
            ) {
                Ok(())
            } else {
                Err(TxError::WrapperSignature)
            },
            TxType::Protocol(protocol) => if signed_by(
                self.signatures@,
                self.header_hash,
                protocol.pk@,
            ) {
                Ok(())
            } else {
                Err(TxError::ProtocolSignature)
            },
            TxType::Decrypted => Ok(()),
            TxType::Raw => Ok(()),
        }
    }

    /// Whether one of the signatures is a valid one over the header's hash
    /// by `pk`.
    pub fn verify_signature(&self, pk: &PublicKey) -> (r: bool)
        ensures
            r == signed_by(self.signatures@, self.header_hash, pk@),
    {
        let mut i: usize = 0;
        while i < self.signatures.len()
            invariant
                i <= self.signatures.len(),
                forall|j: int|
                    0 <= j < i ==> !(#[trigger] self.signatures@[j]).covers(
                        self.header_hash,
                        pk@,
                    ),
            decreases self.signatures.len() - i,
        {
            if self.signatures[i].is_valid_for(&self.header_hash, pk) {
                return true;
            }
            i += 1;
        }
        false
    }

    /// Validates the header: see `header_verdict`.
    pub fn validate_header(&self) -> (r: Result<(), TxError>)
        ensures
            r == self.header_verdict(),
    {
        match &self.header.tx_type {
            TxType::Wrapper(wrapper) => {
                if self.verify_signature(&wrapper.pk) {
                    Ok(())
                } else {
                    Err(TxError::WrapperSignature)
                }
            },
            TxType::Protocol(protocol) => {
                if self.verify_signature(&protocol.pk) {
                    Ok(())
                } else {
                    Err(TxError::ProtocolSignature)
                }
            },
            TxType::Decrypted => Ok(()),
            TxType::Raw => Ok(()),
        }
    }
}

} // verus!
