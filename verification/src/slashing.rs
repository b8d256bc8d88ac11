//! From the consensus engine's evidence of misbehaviour to slashes.

use crate::shell::Shell;
use crate::storage::{position_by_raw_hash, PosParams, Storage};
use crate::text::{hex_string, hex_upper};
use crate::types::Address;
use tendermint_proto::abci::MisbehaviorType;
use vstd::prelude::*;

verus! {

/// The validator that a piece of evidence accuses, as the consensus engine
/// names it.
#[derive(Debug)]
pub struct EvidenceValidator {
    /// The raw identity under which the consensus engine knows the
    /// validator.
    pub address: Vec<u8>,
    pub power: i64,
}

/// A report of misbehaviour as the consensus engine hands it over.
#[derive(Debug)]
pub struct Evidence {
    /// The number of the kind of misbehaviour.
    pub kind: i32,
    pub validator: Option<EvidenceValidator>,
    /// The height at which it happened.
    pub height: i64,
    pub total_voting_power: i64,
}

/// The kinds of misbehaviour that the consensus engine reports.
#[derive(Debug, Clone, Copy, PartialEq, Eq, Structural)]
pub enum EvidenceType {
    Unknown,
    DuplicateVote,
    LightClientAttack,
}

/// The kinds of misbehaviour that are slashed.
#[derive(Debug, Clone, Copy, PartialEq, Eq, Structural)]
pub enum SlashType {
    DuplicateVote,
    LightClientAttack,
}

/// A slash to be recorded: who is slashed, for what, and when it happened.
#[derive(Debug)]
pub struct Slash {
    pub validator: Address,
    /// The epoch of the misbehaviour.
    pub epoch: u64,
    /// The height of the misbehaviour.
    pub block_height: u64,
    pub kind: SlashType,
}

/// The kind of misbehaviour that a number of the consensus engine's
/// protocol stands for.
pub open spec fn evidence_type_of(kind: i32) -> Option<EvidenceType> {
    if kind == 0 {
        Some(EvidenceType::Unknown)
    } else if kind == 1 {
        Some(EvidenceType::DuplicateVote)
    } else if kind == 2 {
        Some(EvidenceType::LightClientAttack)
    } else {
        None
    }
}

/// `TryFrom<i32>` of `tendermint_proto::abci::MisbehaviorType`: the kind of
/// misbehaviour that a number stands for. The contract states the three
/// numbers of the protocol's definition, 0, 1 and 2, and that no other
/// number stands for a kind.
#[verifier::external_body]
fn evidence_type_from_i32(kind: i32) -> (r: Option<EvidenceType>)
    ensures
        r == evidence_type_of(kind),
{
    match MisbehaviorType::try_from(kind) {
        Ok(MisbehaviorType::Unknown) => Some(EvidenceType::Unknown),
        Ok(MisbehaviorType::DuplicateVote) => Some(EvidenceType::DuplicateVote),
        Ok(MisbehaviorType::LightClientAttack) => Some(EvidenceType::LightClientAttack),
        Err(_) => None,
    }
}

/// The slash that a kind of misbehaviour earns, if it earns one.
pub open spec fn slash_type_of(kind: i32) -> Option<SlashType> {
    match evidence_type_of(kind) {
        Some(EvidenceType::DuplicateVote) => Some(SlashType::DuplicateVote),
        Some(EvidenceType::LightClientAttack) => Some(SlashType::LightClientAttack),
        _ => None,
    }
}

/// Whether evidence from `evidence_epoch` comes too late at
/// `current_epoch`: its slash would have been processed by now.
pub open spec fn outdated(params: PosParams, evidence_epoch: u64, current_epoch: u64) -> bool {
    evidence_epoch + params.slash_processing_epoch_offset - params.cubic_slashing_window_length
        <= current_epoch
}

/// The slash that one piece of evidence leads to, if any. There is none
/// where the height is negative or belongs to no known epoch, where the
/// evidence is outdated, where the kind of misbehaviour is unknown, where
/// the evidence names no validator, or where the state knows no validator of
/// that identity.
pub open spec fn slash_for(storage: &Storage, params: PosParams, evidence: Evidence) -> Option<
    Slash,
> {
    if evidence.height < 0 {
        None
    } else {
        match storage.pred_epochs.epoch_of(evidence.height as u64) {
            None => None,
            Some(epoch) => if outdated(params, epoch, storage.epoch) {
                None
            } else {
                match (slash_type_of(evidence.kind), evidence.validator) {
                    (Some(kind), Some(accused)) => match position_by_raw_hash(
                        storage.validators@,
                        hex_upper(accused.address@),
                    ) {
                        Some(i) => Some(
                            Slash {
                                validator: storage.validators@[i].address,
                                epoch,
                                block_height: evidence.height as u64,
                                kind,
                            },
                        ),
                        None => None,
                    },
                    _ => None,
                }
            },
        }
    }
}

/// The slashes that a list of evidence leads to, in the order of the
/// evidence. Without the parameters of proof of stake there are none.
pub open spec fn slashes_for(storage: &Storage, evidence: Seq<Evidence>) -> Seq<Slash>
    decreases evidence.len(),
{
    if evidence.len() == 0 || storage.pos_params is None {
        Seq::empty()
    } else {
        let before = slashes_for(storage, evidence.drop_last());
        match slash_for(storage, storage.pos_params.unwrap(), evidence.last()) {
            Some(slash) => before.push(slash),
            None => before,
        }
    }
}

/// Decides on one piece of evidence: see `slash_for`.
pub fn slash_from_evidence(storage: &Storage, params: &PosParams, evidence: &Evidence) -> (r:
    Option<Slash>)
    requires
        storage.pred_epochs.well_formed(),
    ensures
        r == slash_for(storage, *params, *evidence),
{
    if evidence.height < 0 {
        return None;
    }
    let evidence_height: u64 = evidence.height as u64;
    let evidence_epoch: u64 = match storage.pred_epochs.get_epoch(evidence_height) {
        Some(epoch) => epoch,
        None => {
            return None;
        },
    };
    // Disregard evidences that should have already been processed
    // at this time
    if (evidence_epoch as u128) + (params.slash_processing_epoch_offset as u128) <= (
    storage.epoch as u128) + (params.cubic_slashing_window_length as u128) {
        return None;
    }
    let slash_type: SlashType = match evidence_type_from_i32(evidence.kind) {
        Some(EvidenceType::DuplicateVote) => SlashType::DuplicateVote,
        Some(EvidenceType::LightClientAttack) => SlashType::LightClientAttack,
        _ => {
            return None;
        },
    };
    let validator_raw_hash: String = match &evidence.validator {
        Some(validator) => hex_string(validator.address.as_slice()),
        None => {
            return None;
        },
    };
    match storage.find_validator_by_raw_hash(&validator_raw_hash) {
        Some(validator) => Some(
            Slash {
                validator: validator.address.clone(),
                epoch: evidence_epoch,
                block_height: evidence_height,
                kind: slash_type,
            },
        ),
        None => None,
    }
}

impl Shell {
    /// Apply PoS slashes from the evidence
    ///
    /// Takes the pending evidence, leaves the list empty and returns the
    /// slashes to record, in the order of the evidence. Nothing else
    /// changes.
    pub fn record_slashes_from_evidence(&mut self) -> (r: Vec<Slash>)
        requires
            old(self).storage.pred_epochs.well_formed(),
        ensures
            r@ == slashes_for(&old(self).storage, old(self).byzantine_validators@),
            final(self).byzantine_validators@ == Seq::<Evidence>::empty(),
            final(self).chain_id == old(self).chain_id,
            final(self).storage == old(self).storage,
            final(self).gas_meter == old(self).gas_meter,
            final(self).config == old(self).config,
            final(self).mode == old(self).mode,
            final(self).proposal_data == old(self).proposal_data,
            final(self).event_log == old(self).event_log,
            final(self).oracle_config == old(self).oracle_config,
    {
        let mut byzantine_validators: Vec<Evidence> = Vec::new();
        std::mem::swap(&mut byzantine_validators, &mut self.byzantine_validators);
        let mut slashes: Vec<Slash> = Vec::new();
        let pos_params: PosParams = match self.storage.pos_params {
            Some(params) => params,
            None => {
                return slashes;
            },
        };
        let mut i: usize = 0;
        assert(byzantine_validators@.take(0) =~= Seq::<Evidence>::empty());
        while i < byzantine_validators.len()
            invariant
                i <= byzantine_validators.len(),
                self.storage.pred_epochs.well_formed(),
                self.storage.pos_params == Some(pos_params),
                slashes@ == slashes_for(&self.storage, byzantine_validators@.take(i as int)),
            decreases byzantine_validators.len() - i,
        {
            let ghost next = byzantine_validators@.take(i + 1);
            assert(next.drop_last() =~= byzantine_validators@.take(i as int));
            assert(next.last() == byzantine_validators@[i as int]);
            match slash_from_evidence(&self.storage, &pos_params, &byzantine_validators[i]) {
                Some(slash) => {
                    slashes.push(slash);
                },
                None => {},
            }
            i += 1;
        }
        assert(byzantine_validators@.take(byzantine_validators@.len() as int)
            =~= byzantine_validators@);
        slashes
    }
}

/// Evidence is slashed at most once: a pass over the pending evidence
/// leaves the list empty, over an empty list there is nothing to record,
/// and no pass records more slashes than there was evidence.
pub proof fn drained_evidence_is_not_slashed_again(storage: &Storage, evidence: Seq<Evidence>)
    ensures
        slashes_for(storage, Seq::<Evidence>::empty()) == Seq::<Slash>::empty(),
        slashes_for(storage, evidence).len() <= evidence.len(),
    decreases evidence.len(),
{
    if evidence.len() > 0 && storage.pos_params is Some {
        drained_evidence_is_not_slashed_again(storage, evidence.drop_last());
    }
}

} // verus!
