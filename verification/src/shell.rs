//! The shell: the state that one node keeps between the calls of the
//! consensus engine, and the answers to its simplest requests.

use crate::mode::ShellMode;
use crate::slashing::Evidence;
use crate::storage::{Storage, TxInQueue};
use crate::types::{Address, DateTimeUtc, PublicKey, Timestamp};
use std::collections::HashSet;
use vstd::prelude::*;

verus! {

/// The gas that the block in progress and its current transaction have used.
#[derive(Debug, Clone, Copy, PartialEq, Eq, Structural)]
pub struct BlockGasMeter {
    pub block_gas: u64,
    pub transaction_gas: u64,
}

impl Default for BlockGasMeter {
    fn default() -> (r: BlockGasMeter)
        ensures
            r == (BlockGasMeter { block_gas: 0, transaction_gas: 0 }),
    {
        BlockGasMeter { block_gas: 0, transaction_gas: 0 }
    }
}

/// What a finalized transaction came to.
#[derive(Debug)]
pub struct Event {
    pub event_type: String,
    pub code: u32,
    pub info: String,
}

/// The log of what finalized transactions came to.
#[derive(Debug)]
pub struct EventLog {
    pub events: Vec<Event>,
}

impl EventLog {
    /// An empty log.
    pub fn new() -> (r: EventLog)
        ensures
            r.events@ == Seq::<Event>::empty(),
    {
        EventLog { events: Vec::new() }
    }

    /// Adds an event at the end of the log.
    pub fn add(&mut self, event: Event)
        ensures
            final(self).events@ == old(self).events@.push(event),
    {
        self.events.push(event);
    }
}

/// What the node is set up with.
#[derive(Debug)]
pub struct Config {
    pub chain_id: String,
    pub base_dir: String,
    pub wasm_dir: String,
    /// How many heights into the past the state may be read, where limited.
    pub storage_read_past_height_limit: Option<u64>,
    /// The size of the cache of compiled validity predicates, in bytes.
    pub vp_wasm_compilation_cache: u64,
    /// The size of the cache of compiled transactions, in bytes.
    pub tx_wasm_compilation_cache: u64,
    /// On the main network no proof of work stands in for a fee.
    pub mainnet: bool,
    /// The key that marks a wrapper whose fee the shielded pool pays.
    pub masp_tx_key: PublicKey,
    /// The account of the shielded pool.
    pub masp: Address,
}

/// The answer to the consensus engine's request for the last state.
#[derive(Debug)]
pub struct Info {
    pub last_block_app_hash: Vec<u8>,
    pub last_block_height: i64,
}

/// The answer to a mempool validation request.
#[derive(Debug)]
pub struct CheckTx {
    pub code: u32,
    pub log: String,
    pub priority: i64,
}

/// The answer to a commit request.
#[derive(Debug)]
pub struct Commit {
    /// The Merkle root of the committed state.
    pub data: Vec<u8>,
}

/// `borsh::BorshDeserialize::try_from_slice`: the value that the bytes
/// encode, if they encode one and nothing follows it. Nothing is claimed of
/// the value: it is for the type's own decoder to say.
#[verifier::external_body]
fn try_from_slice<T: borsh::BorshDeserialize>(bytes: &[u8]) -> (r: Option<T>) {
    T::try_from_slice(bytes).ok()
}

/// The state of one node between the calls of the consensus engine.
pub struct Shell {
    /// The id of the current chain
    pub chain_id: String,
    /// The state of the ledger.
    pub storage: Storage,
    /// Gas meter for the current block
    pub gas_meter: BlockGasMeter,
    /// Byzantine validators given from ABCI++ `prepare_proposal` are stored in
    /// this field. They will be slashed when we finalize the block.
    pub byzantine_validators: Vec<Evidence>,
    /// What the node was set up with.
    pub config: Config,
    /// Information about the running shell instance
    pub mode: ShellMode,
    /// Proposal execution tracking
    pub proposal_data: HashSet<u64>,
    /// Log of events emitted by `FinalizeBlock` ABCI calls.
    pub event_log: EventLog,
    /// The parameters that the oracle was sent last, if it was sent any.
    pub oracle_config: Option<crate::ethereum::Config>,
}

impl Shell {
    /// Whether `after` is this shell but for its mode.
    pub open spec fn same_but_for_mode(&self, after: &Shell) -> bool {
        &&& after.chain_id == self.chain_id
        &&& after.storage == self.storage
        &&& after.gas_meter == self.gas_meter
        &&& after.byzantine_validators == self.byzantine_validators
        &&& after.config == self.config
        &&& after.proposal_data == self.proposal_data
        &&& after.event_log == self.event_log
        &&& after.oracle_config == self.oracle_config
    }

    /// Return a reference to the [`EventLog`].
    pub fn event_log(&self) -> (r: &EventLog)
        ensures
            r == &self.event_log,
    {
        &self.event_log
    }

    /// Return a mutable reference to the [`EventLog`].
    pub fn event_log_mut(&mut self) -> (r: &mut EventLog)
        ensures
            *r == old(self).event_log,
            final(self).event_log == *final(r),
            final(self).chain_id == old(self).chain_id,
            final(self).storage == old(self).storage,
            final(self).gas_meter == old(self).gas_meter,
            final(self).byzantine_validators == old(self).byzantine_validators,
            final(self).config == old(self).config,
            final(self).mode == old(self).mode,
            final(self).proposal_data == old(self).proposal_data,
            final(self).oracle_config == old(self).oracle_config,
    {
        &mut self.event_log
    }

    /// The wrapper txs in the queue, in order
    pub fn iter_tx_queue(&self) -> (r: &Vec<TxInQueue>)
        ensures
            r == &self.storage.tx_queue,
    {
        &self.storage.tx_queue
    }

    /// Load the Merkle root hash and the height of the last committed block, if
    /// any. This is returned when ABCI sends an `info` request.
    ///
    /// Before the first block the root is empty and the height zero.
    pub fn last_state(&self) -> (r: Info)
        requires
            self.storage.well_formed(),
        ensures
            match self.storage.last_block {
                Some(block) => r.last_block_app_hash@ == block.root@ && r.last_block_height
                    == block.height,
                None => r.last_block_app_hash@ == Seq::<u8>::empty() && r.last_block_height == 0,
            },
    {
        match self.storage.get_state() {
            Some((root, height)) => Info {
                last_block_app_hash: root.to_vec(),
                last_block_height: height as i64,
            },
            None => Info { last_block_app_hash: Vec::new(), last_block_height: 0 },
        }
    }

    /// The time that the consensus engine gave for the block, where it gave
    /// one that is a valid time.
    pub open spec fn given_time(tendermint_block_time: Option<Timestamp>) -> Option<DateTimeUtc> {
        match tendermint_block_time {
            Some(timestamp) => DateTimeUtc::at_instant(timestamp.instant()),
            None => None,
        }
    }

    /// Takes the optional tendermint timestamp of the block: if it's Some than
    /// converts it to a [`DateTimeUtc`], otherwise retrieve from self the
    /// time of the last block committed
    ///
    /// The last block's time is also taken where the timestamp is no valid
    /// time.
    pub fn get_block_timestamp(&self, tendermint_block_time: Option<Timestamp>) -> (r:
        DateTimeUtc)
        requires
            Self::given_time(tendermint_block_time) is None ==> self.storage.last_block is Some,
        ensures
            r == match Self::given_time(tendermint_block_time) {
                Some(time) => time,
                None => self.storage.last_block.unwrap().time,
            },
    {
        match tendermint_block_time {
            Some(timestamp) => {
                match DateTimeUtc::from_timestamp(timestamp) {
                    Some(time) => {
                        return time;
                    },
                    None => {},
                }
            },
            None => {},
        }
        // Default to last committed block time
        self.storage.get_last_block_timestamp().unwrap()
    }

    /// Read the value for a storage key dropping any error
    ///
    /// Takes what the read of the key came to, as `read_storage_key_bytes`
    /// does. Returns nothing where the read failed or the key is not
    /// there; otherwise what decoding the bytes gives.
    pub fn read_storage_key<T: borsh::BorshDeserialize>(
        &self,
        read: Result<(Option<Vec<u8>>, u64), String>,
    ) -> (r: Option<T>)
        ensures
            !(read matches Ok((Some(_), _))) ==> r is None,
    {
        match read {
            Ok((Some(bytes), _gas)) => try_from_slice::<T>(bytes.as_slice()),
            _ => None,
        }
    }

    /// Read the bytes for a storage key dropping any error
    ///
    /// Takes what the read of the key came to: the bytes, if the key is
    /// there, with the gas that the read cost, or the error's description.
    pub fn read_storage_key_bytes(&self, read: Result<(Option<Vec<u8>>, u64), String>) -> (r:
        Option<Vec<u8>>)
        ensures
            r == match read {
                Ok((bytes, _)) => bytes,
                Err(_) => None,
            },
    {
        match read {
            Ok((bytes, _gas)) => bytes,
            Err(_) => None,
        }
    }
}

} // verus!
