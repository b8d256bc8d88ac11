//! The rules by which a validator's vote extension is accepted: who may
//! sign, for which height or epoch, and with which key.

use crate::ethereum::{event_before, EthereumEvent};
use crate::shell::Shell;
use crate::storage::{position_by_address, Storage, Validator};
use crate::transaction::{BridgePoolVext, EthEventsVext, ProtocolTxType, ValSetUpdateVext};
use crate::types::{Address, PublicKey};
use vstd::prelude::*;
use vstd::string::StringExecFns;

verus! {

/// Why a vote extension was refused.
#[derive(Debug, Clone, Copy, PartialEq, Eq, Structural)]
pub enum VoteExtensionError {
    /// The bridge to Ethereum is not in use.
    EthereumBridgeInactive,
    /// The extension was not cast on the last committed block, or no block
    /// has been committed yet.
    UnexpectedBlockHeight,
    /// The extension was not cast in the last completed epoch, or that
    /// epoch is still the one in progress.
    UnexpectedEpoch,
    /// The signer is not a bonded validator.
    PubKeyNotInStorage,
    /// The signature does not verify under the validator's key.
    VerifySigFailed,
}

impl VoteExtensionError {
    /// The line that describes the error.
    pub open spec fn message(self) -> Seq<char> {
        match self {
            VoteExtensionError::EthereumBridgeInactive => "The Ethereum bridge is currently not active"@,
            VoteExtensionError::UnexpectedBlockHeight => "The vote extension was issued for an unexpected block height"@,
            VoteExtensionError::UnexpectedEpoch => "The vote extension was issued for an unexpected epoch"@,
            VoteExtensionError::PubKeyNotInStorage => "The vote extension was issued by a node that is not a bonded validator"@,
            VoteExtensionError::VerifySigFailed => "The vote extension's signature is invalid"@,
        }
    }

    /// Describes the error in one line.
    pub fn to_string(&self) -> (r: String)
        ensures
            r@ == self.message(),
    {
        match self {
            VoteExtensionError::EthereumBridgeInactive => String::from_str(
                "The Ethereum bridge is currently not active",
            ),
            VoteExtensionError::UnexpectedBlockHeight => String::from_str(
                "The vote extension was issued for an unexpected block height",
            ),
            VoteExtensionError::UnexpectedEpoch => String::from_str(
                "The vote extension was issued for an unexpected epoch",
            ),
            VoteExtensionError::PubKeyNotInStorage => String::from_str(
                "The vote extension was issued by a node that is not a bonded validator",
            ),
            VoteExtensionError::VerifySigFailed => String::from_str(
                "The vote extension's signature is invalid",
            ),
        }
    }
}

/// Which of a validator's two keys a signature has to be made with.
#[derive(Debug, Clone, Copy, PartialEq, Eq, Structural)]
pub enum SigningKey {
    Protocol,
    EthBridge,
}

/// The key of that kind.
pub open spec fn key_of(validator: Validator, which: SigningKey) -> PublicKey {
    match which {
        SigningKey::Protocol => validator.protocol_key,
        SigningKey::EthBridge => validator.eth_bridge_key,
    }
}

/// What the check of the signer comes to: the signer has to be a validator
/// with bonded stake, and the signature has to verify under its key of the
/// given kind. Where both hold, the validator's stake.
pub open spec fn signer_verdict(
    storage: &Storage,
    address: Seq<char>,
    signer: Option<PublicKey>,
    which: SigningKey,
) -> Result<u64, VoteExtensionError> {
    match position_by_address(storage.validators@, address) {
        None => Err(VoteExtensionError::PubKeyNotInStorage),
        Some(i) => {
            let validator = storage.validators@[i];
            if validator.bonded_stake == 0 {
                Err(VoteExtensionError::PubKeyNotInStorage)
            } else if signer is Some && signer.unwrap()@ == key_of(validator, which)@ {
                Ok(validator.bonded_stake)
            } else {
                Err(VoteExtensionError::VerifySigFailed)
            }
        },
    }
}

/// Checks the signer of a vote extension: see `signer_verdict`.
pub fn check_signer(
    storage: &Storage,
    address: &Address,
    signer: &Option<PublicKey>,
    which: SigningKey,
) -> (r: Result<u64, VoteExtensionError>)
    ensures
        r == signer_verdict(storage, address@, *signer, which),
{
    match storage.find_validator(address) {
        None => Err(VoteExtensionError::PubKeyNotInStorage),
        Some(validator) => {
            if validator.bonded_stake == 0 {
                return Err(VoteExtensionError::PubKeyNotInStorage);
            }
            let expected: &PublicKey = match which {
                SigningKey::Protocol => &validator.protocol_key,
                SigningKey::EthBridge => &validator.eth_bridge_key,
            };
            match signer {
                Some(key) => {
                    if key.same(expected) {
                        Ok(validator.bonded_stake)
                    } else {
                        Err(VoteExtensionError::VerifySigFailed)
                    }
                },
                None => Err(VoteExtensionError::VerifySigFailed),
            }
        },
    }
}

/// What the check of a height-bound extension comes to. In this order: the
/// bridge has to be in use; the extension has to be cast on the last
/// committed block, and there has to be one; the signer has to be a bonded
/// validator whose key of the given kind verifies the signature.
pub open spec fn height_bound_verdict(
    storage: &Storage,
    address: Seq<char>,
    block_height: u64,
    signer: Option<PublicKey>,
    which: SigningKey,
    last_height: u64,
) -> Result<u64, VoteExtensionError> {
    if !storage.bridge_active() {
        Err(VoteExtensionError::EthereumBridgeInactive)
    } else if block_height != last_height || last_height == 0 {
        Err(VoteExtensionError::UnexpectedBlockHeight)
    } else {
        signer_verdict(storage, address, signer, which)
    }
}

/// What the check of a vote on Ethereum events comes to: the signature has
/// to be by the validator's protocol key.
pub open spec fn eth_events_verdict(storage: &Storage, ext: EthEventsVext, last_height: u64) -> Result<
    u64,
    VoteExtensionError,
> {
    height_bound_verdict(
        storage,
        ext.validator_addr@,
        ext.block_height,
        ext.signer,
        SigningKey::Protocol,
        last_height,
    )
}

/// What the check of a signature over the bridge pool's root comes to: the
/// signature has to be by the validator's bridge key.
pub open spec fn bp_roots_verdict(storage: &Storage, ext: BridgePoolVext, last_height: u64) -> Result<
    u64,
    VoteExtensionError,
> {
    height_bound_verdict(
        storage,
        ext.validator_addr@,
        ext.block_height,
        ext.signer,
        SigningKey::EthBridge,
        last_height,
    )
}

/// What the check of a vote on the next validator set comes to. In this
/// order: the vote has to be cast in `signing_epoch`, the last completed
/// epoch, and not in the epoch of the block in progress, so that no vote is
/// accepted while the two are the same epoch; the signer has to be a bonded
/// validator whose bridge key verifies the signature.
pub open spec fn valset_upd_verdict(
    storage: &Storage,
    ext: ValSetUpdateVext,
    signing_epoch: u64,
) -> Result<u64, VoteExtensionError> {
    if ext.signing_epoch != signing_epoch || ext.signing_epoch == storage.epoch {
        Err(VoteExtensionError::UnexpectedEpoch)
    } else {
        signer_verdict(storage, ext.validator_addr@, ext.signer, SigningKey::EthBridge)
    }
}

/// Validates a vote on Ethereum events against the state and the height of
/// the last committed block. Returns the signer's stake.
pub fn validate_eth_events_vext(storage: &Storage, ext: &EthEventsVext, last_height: u64) -> (r:
    Result<u64, VoteExtensionError>)
    ensures
        r == eth_events_verdict(storage, *ext, last_height),
{
    if !storage.is_bridge_active() {
        return Err(VoteExtensionError::EthereumBridgeInactive);
    }
    if ext.block_height != last_height || last_height == 0 {
        return Err(VoteExtensionError::UnexpectedBlockHeight);
    }
    check_signer(storage, &ext.validator_addr, &ext.signer, SigningKey::Protocol)
}

/// Validates a signature over the bridge pool's root and nonce against the
/// state and the height of the last committed block. Returns the signer's
/// stake.
pub fn validate_bp_roots_vext(storage: &Storage, ext: &BridgePoolVext, last_height: u64) -> (r:
    Result<u64, VoteExtensionError>)
    ensures
        r == bp_roots_verdict(storage, *ext, last_height),
{
    if !storage.is_bridge_active() {
        return Err(VoteExtensionError::EthereumBridgeInactive);
    }
    if ext.block_height != last_height || last_height == 0 {
        return Err(VoteExtensionError::UnexpectedBlockHeight);
    }
    check_signer(storage, &ext.validator_addr, &ext.signer, SigningKey::EthBridge)
}

/// Validates a vote on the next validator set against the state and the
/// epoch in which such votes are due, the last completed one. Returns the
/// signer's stake.
pub fn validate_valset_upd_vext(storage: &Storage, ext: &ValSetUpdateVext, signing_epoch: u64) -> (r:
    Result<u64, VoteExtensionError>)
    ensures
        r == valset_upd_verdict(storage, *ext, signing_epoch),
{
    if ext.signing_epoch != signing_epoch || ext.signing_epoch == storage.epoch {
        return Err(VoteExtensionError::UnexpectedEpoch);
    }
    check_signer(storage, &ext.validator_addr, &ext.signer, SigningKey::EthBridge)
}

/// What a validator attaches to its vote on a block: each of the three
/// extensions that is due at that height.
#[derive(Debug)]
pub struct VoteExtension {
    pub ethereum_events: Option<EthEventsVext>,
    pub bridge_pool_root: Option<BridgePoolVext>,
    pub validator_set_update: Option<ValSetUpdateVext>,
}

/// The payloads of the protocol transactions that carry a vote extension:
/// one for each part that is there, the Ethereum events first, then the
/// bridge pool's root, then the vote on the next validator set.
pub open spec fn protocol_txs_of(ext: VoteExtension) -> Seq<ProtocolTxType> {
    let events = match ext.ethereum_events {
        Some(part) => seq![ProtocolTxType::EthEventsVext(part)],
        None => Seq::empty(),
    };
    let root = match ext.bridge_pool_root {
        Some(part) => seq![ProtocolTxType::BridgePoolVext(part)],
        None => Seq::empty(),
    };
    let update = match ext.validator_set_update {
        Some(part) => seq![ProtocolTxType::ValSetUpdateVext(part)],
        None => Seq::empty(),
    };
    events + root + update
}

/// Splits a vote extension into the payloads of the protocol transactions
/// that carry it: see `protocol_txs_of`.
pub fn iter_protocol_txs(ext: VoteExtension) -> (r: Vec<ProtocolTxType>)
    ensures
        r@ == protocol_txs_of(ext),
{
    let mut txs: Vec<ProtocolTxType> = Vec::new();
    let VoteExtension { ethereum_events, bridge_pool_root, validator_set_update } = ext;
    match ethereum_events {
        Some(part) => {
            txs.push(ProtocolTxType::EthEventsVext(part));
        },
        None => {},
    }
    match bridge_pool_root {
        Some(part) => {
            txs.push(ProtocolTxType::BridgePoolVext(part));
        },
        None => {},
    }
    match validator_set_update {
        Some(part) => {
            txs.push(ProtocolTxType::ValSetUpdateVext(part));
        },
        None => {},
    }
    assert(txs@ =~= protocol_txs_of(ext));
    txs
}

/// The key of the given kind that the state holds for an account, if the
/// account is a validator's.
pub open spec fn registered_key(storage: &Storage, address: Seq<char>, which: SigningKey) -> Option<
    PublicKey,
> {
    match position_by_address(storage.validators@, address) {
        Some(i) => Some(key_of(storage.validators@[i], which)),
        None => None,
    }
}

/// Looks up the key of the given kind that the state holds for an
/// account.
pub fn find_registered_key(storage: &Storage, address: &Address, which: SigningKey) -> (r: Option<
    PublicKey,
>)
    ensures
        r == registered_key(storage, address@, which),
{
    match storage.find_validator(address) {
        Some(validator) => match which {
            SigningKey::Protocol => Some(validator.protocol_key.clone()),
            SigningKey::EthBridge => Some(validator.eth_bridge_key.clone()),
        },
        None => None,
    }
}

impl Shell {
    /// What this validator attaches to its vote on the block after the
    /// last committed one. While the bridge is in use: the Ethereum events
    /// that wait in its queue, after the queue has taken what the oracle
    /// sent, and its signature over the bridge pool's root, both for the
    /// last committed height. Where `valset_signing_epoch` names an epoch:
    /// its vote on the next validator set, cast in that epoch. Each part
    /// names the key that the state holds for the validator and with which
    /// the part is to be signed: the protocol key for the events, the
    /// bridge key for the other two.
    pub fn craft_extension(&mut self, valset_signing_epoch: Option<u64>) -> (r: VoteExtension)
        requires
            old(self).mode is Validator,
        ensures
            old(self).same_but_for_mode(final(self)),
            final(self).mode.validator_data() == old(self).mode.validator_data(),
            final(self).mode.same_senders(&old(self).mode),
            match (old(self).mode.queued_events(), final(self).mode.queued_events()) {
                (Some(before), Some(after)) => before.subset_of(after) && (
                old(self).storage.bridge_active() || after == before),
                (None, None) => true,
                _ => false,
            },
            r.ethereum_events is Some <==> old(self).storage.bridge_active(),
            r.ethereum_events matches Some(part) ==> {
                &&& part.validator_addr == old(self).mode.validator_data().unwrap().address
                &&& part.block_height == old(self).storage.last_height()
                &&& part.signer == registered_key(
                    &old(self).storage,
                    part.validator_addr@,
                    SigningKey::Protocol,
                )
                &&& forall|i: int, j: int|
                    0 <= i < j < part.ethereum_events@.len() ==> event_before(
                        part.ethereum_events@[i],
                        part.ethereum_events@[j],
                    )
                &&& match final(self).mode.queued_events() {
                    Some(queue) => forall|event: EthereumEvent|
                        part.ethereum_events@.contains(event) <==> queue.contains(event),
                    None => part.ethereum_events@ == Seq::<EthereumEvent>::empty(),
                }
            },
            r.bridge_pool_root is Some <==> old(self).storage.bridge_active(),
            r.bridge_pool_root matches Some(part) ==> {
                &&& part.validator_addr == old(self).mode.validator_data().unwrap().address
                &&& part.block_height == old(self).storage.last_height()
                &&& part.signer == registered_key(
                    &old(self).storage,
                    part.validator_addr@,
                    SigningKey::EthBridge,
                )
            },
            r.validator_set_update is Some <==> valset_signing_epoch is Some,
            r.validator_set_update matches Some(part) ==> {
                &&& part.validator_addr == old(self).mode.validator_data().unwrap().address
                &&& part.signing_epoch == valset_signing_epoch.unwrap()
                &&& part.signer == registered_key(
                    &old(self).storage,
                    part.validator_addr@,
                    SigningKey::EthBridge,
                )
            },
    {
        let validator_addr: Address = self.mode.get_validator_address().unwrap().clone();
        let block_height: u64 = self.storage.get_last_block_height();
        let bridge_active: bool = self.storage.is_bridge_active();
        let ethereum_events = if bridge_active {
            let events = self.mode.new_ethereum_events();
            Some(
                EthEventsVext {
                    validator_addr: validator_addr.clone(),
                    block_height,
                    ethereum_events: events,
                    signer: find_registered_key(
                        &self.storage,
                        &validator_addr,
                        SigningKey::Protocol,
                    ),
                },
            )
        } else {
            None
        };
        let bridge_pool_root = if bridge_active {
            Some(
                BridgePoolVext {
                    validator_addr: validator_addr.clone(),
                    block_height,
                    signer: find_registered_key(
                        &self.storage,
                        &validator_addr,
                        SigningKey::EthBridge,
                    ),
                },
            )
        } else {
            None
        };
        let validator_set_update = match valset_signing_epoch {
            Some(signing_epoch) => Some(
                ValSetUpdateVext {
                    validator_addr: validator_addr.clone(),
                    signing_epoch,
                    signer: find_registered_key(
                        &self.storage,
                        &validator_addr,
                        SigningKey::EthBridge,
                    ),
                },
            ),
            None => None,
        };
        VoteExtension { ethereum_events, bridge_pool_root, validator_set_update }
    }
}

/// A vote on the next validator set that was cast in any epoch but the one
/// in which such votes are due, or in the epoch of the block in progress,
/// is refused, whoever signed it and however well.
pub proof fn valset_upd_of_other_epoch_is_refused(
    storage: &Storage,
    ext: ValSetUpdateVext,
    signing_epoch: u64,
)
    requires
        ext.signing_epoch != signing_epoch || ext.signing_epoch == storage.epoch,
    ensures
        valset_upd_verdict(storage, ext, signing_epoch) == Err::<u64, VoteExtensionError>(
            VoteExtensionError::UnexpectedEpoch,
        ),
{
}

/// What a bonded validator crafts, its peers accept: a height-bound
/// extension for the last committed block that names the key which the
/// state holds for its signer passes the check, once a block has been
/// committed and while the bridge is in use.
pub proof fn crafted_extension_is_accepted(
    storage: &Storage,
    address: Seq<char>,
    which: SigningKey,
    last_height: u64,
)
    requires
        storage.bridge_active(),
        last_height != 0,
        position_by_address(storage.validators@, address) matches Some(i)
            && storage.validators@[i].bonded_stake > 0,
    ensures
        height_bound_verdict(
            storage,
            address,
            last_height,
            registered_key(storage, address, which),
            which,
            last_height,
        ) is Ok,
{
}

/// A height-bound vote extension is accepted only from a bonded validator
/// and only for the last committed block: where the verdict is an
/// acceptance, the bridge is in use, the extension was cast on the last
/// committed block, the signer is a validator with stake, the signature
/// verifies under the validator's key of the kind asked for, and what is
/// handed back is the validator's stake.
pub proof fn accepted_extension_is_by_bonded_validator(
    storage: &Storage,
    address: Seq<char>,
    block_height: u64,
    signer: Option<PublicKey>,
    which: SigningKey,
    last_height: u64,
)
    requires
        height_bound_verdict(storage, address, block_height, signer, which, last_height) is Ok,
    ensures
        storage.bridge_active(),
        block_height == last_height,
        last_height != 0,
        position_by_address(storage.validators@, address) matches Some(i) && {
            let validator = storage.validators@[i];
            &&& validator.address@ == address
            &&& validator.bonded_stake > 0
            &&& signer is Some
            &&& signer.unwrap()@ == key_of(validator, which)@
            &&& height_bound_verdict(storage, address, block_height, signer, which, last_height)
                == Ok::<u64, VoteExtensionError>(validator.bonded_stake)
        },
{
    position_by_address_finds(storage.validators@, address);
}

/// Where a validator is found by its address, the entry at that place has
/// that address.
proof fn position_by_address_finds(validators: Seq<Validator>, address: Seq<char>)
    ensures
        position_by_address(validators, address) matches Some(i) ==> 0 <= i < validators.len()
            && validators[i].address@ == address,
    decreases validators.len(),
{
    if validators.len() > 0 && validators[0].address@ != address {
        position_by_address_finds(validators.drop_first(), address);
    }
}

} // verus!
