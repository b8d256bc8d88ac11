//! What the shell reads from the ledger's state and what it writes there,
//! held as plain values: the last committed block, the index from heights
//! to epochs, the replay-protection records, balances, the validators and
//! the parameters of the Ethereum bridge.

use crate::epochs::Epochs;
use crate::faucet::PowCounter;
use crate::replay::ReplayRecords;
use crate::transaction::Tx;
use crate::types;
use crate::types::{Address, DateTimeUtc, PublicKey};
use vstd::prelude::*;

verus! {

/// The block that was committed last.
#[derive(Debug, Clone, Copy)]
pub struct LastBlock {
    pub height: u64,
    /// The Merkle root of the state after the block.
    pub root: types::Hash,
    pub time: DateTimeUtc,
}

/// What an account holds of a token.
#[derive(Debug)]
pub struct Balance {
    pub token: Address,
    pub owner: Address,
    pub amount: u64,
}

/// The first balance of `owner` in `token`, or nothing.
pub open spec fn balance_in(balances: Seq<Balance>, token: Seq<char>, owner: Seq<char>) -> u64
    decreases balances.len(),
{
    if balances.len() == 0 {
        0
    } else if balances[0].token@ == token && balances[0].owner@ == owner {
        balances[0].amount
    } else {
        balance_in(balances.drop_first(), token, owner)
    }
}

/// A validator as the proof-of-stake state knows it.
#[derive(Debug)]
pub struct Validator {
    pub address: Address,
    /// The upper-case hexadecimal text of the identity under which the
    /// consensus engine knows the validator.
    pub raw_hash: String,
    /// The key with which the validator signs protocol transactions and
    /// vote extensions.
    pub protocol_key: PublicKey,
    /// The key with which the validator signs for the Ethereum bridge.
    pub eth_bridge_key: PublicKey,
    /// The stake bonded to the validator; none means it is not in the
    /// consensus set.
    pub bonded_stake: u64,
}

/// The index of the first validator with this consensus identity.
pub open spec fn position_by_raw_hash(validators: Seq<Validator>, raw_hash: Seq<char>) -> Option<
    int,
>
    decreases validators.len(),
{
    if validators.len() == 0 {
        None
    } else if validators[0].raw_hash@ == raw_hash {
        Some(0int)
    } else {
        match position_by_raw_hash(validators.drop_first(), raw_hash) {
            Some(i) => Some(i + 1),
            None => None,
        }
    }
}

/// The index of the first validator with this address.
pub open spec fn position_by_address(validators: Seq<Validator>, address: Seq<char>) -> Option<int>
    decreases validators.len(),
{
    if validators.len() == 0 {
        None
    } else if validators[0].address@ == address {
        Some(0int)
    } else {
        match position_by_address(validators.drop_first(), address) {
            Some(i) => Some(i + 1),
            None => None,
        }
    }
}

/// The parameters of proof of stake that slashing reads.
#[derive(Debug, Clone, Copy, PartialEq, Eq, Structural)]
pub struct PosParams {
    /// The number of epochs after an infraction at which its slash is
    /// processed.
    pub slash_processing_epoch_offset: u64,
    /// The number of epochs on either side of an infraction over which
    /// slashes are added up.
    pub cubic_slashing_window_length: u64,
}

/// Whether the bridge to Ethereum is in use.
#[derive(Debug, Clone, Copy, PartialEq, Eq, Structural)]
pub enum EthBridgeStatus {
    Disabled,
    Enabled,
}

/// The address of a contract on Ethereum.
#[derive(Debug, Clone, Copy)]
pub struct EthAddress {
    pub bytes: [u8; 20],
}

/// The bridge's parameters as the chain stores them.
#[derive(Debug, Clone, Copy)]
pub struct EthereumBridgeConfig {
    pub min_confirmations: u64,
    pub bridge_contract: EthAddress,
    pub governance_contract: EthAddress,
}

/// A wrapper that waits in a block for its inner transaction to be
/// decrypted and applied.
#[derive(Debug)]
pub struct TxInQueue {
    pub tx: Tx,
    /// Whether a proof of work paid for the wrapper.
    pub has_valid_pow: bool,
}

/// The state of the ledger, as far as the shell reads and writes it.
#[derive(Debug)]
pub struct Storage {
    pub native_token: Address,
    /// The last committed block; none before the first.
    pub last_block: Option<LastBlock>,
    /// The epoch of the block in progress.
    pub epoch: u64,
    /// The epoch of the last committed block.
    pub last_epoch: u64,
    pub pred_epochs: Epochs,
    /// The wrappers whose inner transactions the next block is to apply.
    pub tx_queue: Vec<TxInQueue>,
    /// The height up to which the oracle has worked through Ethereum.
    pub ethereum_height: Option<u64>,
    pub replay_protection: ReplayRecords,
    pub balances: Vec<Balance>,
    /// The fee that a wrapper has to cover, where the chain has set one.
    pub wrapper_tx_fees: Option<u64>,
    /// The faucet's account, where the chain has one.
    pub faucet_account: Option<Address>,
    pub pow_counters: Vec<PowCounter>,
    /// The parameters of proof of stake; none before the chain is set up.
    pub pos_params: Option<PosParams>,
    pub validators: Vec<Validator>,
    /// The bridge's status; none before the chain is set up.
    pub eth_bridge_status: Option<EthBridgeStatus>,
    pub eth_bridge_config: Option<EthereumBridgeConfig>,
    /// The Ethereum height from which the oracle is to start, as the chain
    /// was set up with.
    pub eth_start_height: Option<u64>,
}

impl Storage {
    /// The index of epochs is well formed, no transaction is recorded as
    /// applied twice, the last block's height fits into the consensus
    /// engine's signed heights and its time is valid.
    pub open spec fn well_formed(&self) -> bool {
        &&& self.pred_epochs.well_formed()
        &&& self.replay_protection.well_formed()
        &&& self.last_block matches Some(block) ==> block.height <= i64::MAX
            && block.time.well_formed()
    }

    /// Checks that the state is well formed.
    pub fn is_well_formed(&self) -> (r: bool)
        ensures
            r == self.well_formed(),
    {
        let block_fits: bool = match &self.last_block {
            Some(block) => block.height <= 0x7fff_ffff_ffff_ffff && block.time.nanos
                < 1_000_000_000,
            None => true,
        };
        block_fits && self.pred_epochs.is_well_formed() && self.replay_protection.is_well_formed()
    }

    /// The state of a chain that has not been set up: no block, no epoch,
    /// no record, no account.
    pub fn new(native_token: Address) -> (r: Storage)
        ensures
            r.well_formed(),
            r.native_token == native_token,
            r.last_block is None,
            r.epoch == 0,
            r.last_epoch == 0,
            r.pred_epochs.first_block_heights@.len() == 0,
            r.tx_queue@.len() == 0,
            r.ethereum_height is None,
            r.replay_protection.committed@.len() == 0,
            r.replay_protection.pending@.len() == 0,
            r.balances@.len() == 0,
            r.wrapper_tx_fees is None,
            r.faucet_account is None,
            r.pow_counters@.len() == 0,
            r.pos_params is None,
            r.validators@.len() == 0,
            r.eth_bridge_status is None,
            r.eth_bridge_config is None,
            r.eth_start_height is None,
    {
        Storage {
            native_token,
            last_block: None,
            epoch: 0,
            last_epoch: 0,
            pred_epochs: Epochs::new(),
            tx_queue: Vec::new(),
            ethereum_height: None,
            replay_protection: ReplayRecords::new(),
            balances: Vec::new(),
            wrapper_tx_fees: None,
            faucet_account: None,
            pow_counters: Vec::new(),
            pos_params: None,
            validators: Vec::new(),
            eth_bridge_status: None,
            eth_bridge_config: None,
            eth_start_height: None,
        }
    }

    /// The height of the last committed block; zero before the first.
    pub open spec fn last_height(&self) -> u64 {
        match self.last_block {
            Some(block) => block.height,
            None => 0,
        }
    }

    /// The height of the last committed block; zero before the first.
    pub fn get_last_block_height(&self) -> (r: u64)
        ensures
            r == self.last_height(),
    {
        match &self.last_block {
            Some(block) => block.height,
            None => 0,
        }
    }

    /// The time of the last committed block.
    pub fn get_last_block_timestamp(&self) -> (r: Option<DateTimeUtc>)
        ensures
            r == match self.last_block {
                Some(block) => Some(block.time),
                None => None,
            },
    {
        match &self.last_block {
            Some(block) => Some(block.time),
            None => None,
        }
    }

    /// The Merkle root and the height of the last committed block.
    pub fn get_state(&self) -> (r: Option<(types::Hash, u64)>)
        ensures
            r == match self.last_block {
                Some(block) => Some((block.root, block.height)),
                None => None,
            },
    {
        match &self.last_block {
            Some(block) => Some((block.root, block.height)),
            None => None,
        }
    }

    /// What `owner` holds of `token`; nothing where the state has no entry.
    pub fn get_balance(&self, token: &Address, owner: &Address) -> (r: u64)
        ensures
            r == balance_in(self.balances@, token@, owner@),
    {
        let mut i: usize = 0;
        assert(self.balances@.skip(0) =~= self.balances@);
        while i < self.balances.len()
            invariant
                i <= self.balances.len(),
                balance_in(self.balances@, token@, owner@) == balance_in(
                    self.balances@.skip(i as int),
                    token@,
                    owner@,
                ),
            decreases self.balances.len() - i,
        {
            let ghost rest = self.balances@.skip(i as int);
            assert(rest[0] == self.balances@[i as int]);
            assert(rest.drop_first() =~= self.balances@.skip(i + 1));
            if self.balances[i].token.same(token) && self.balances[i].owner.same(owner) {
                return self.balances[i].amount;
            }
            i += 1;
        }
        0
    }

    /// The validator that the consensus engine knows under `raw_hash`.
    pub fn find_validator_by_raw_hash(&self, raw_hash: &String) -> (r: Option<&Validator>)
        ensures
            match position_by_raw_hash(self.validators@, raw_hash@) {
                Some(i) => 0 <= i < self.validators@.len() && r == Some(&self.validators@[i]),
                None => r is None,
            },
    {
        let mut i: usize = 0;
        assert(self.validators@.skip(0) =~= self.validators@);
        while i < self.validators.len()
            invariant
                i <= self.validators.len(),
                position_by_raw_hash(self.validators@, raw_hash@) == match position_by_raw_hash(
                    self.validators@.skip(i as int),
                    raw_hash@,
                ) {
                    Some(k) => Some(k + i),
                    None => None,
                },
            decreases self.validators.len() - i,
        {
            let ghost rest = self.validators@.skip(i as int);
            assert(rest[0] == self.validators@[i as int]);
            assert(rest.drop_first() =~= self.validators@.skip(i + 1));
            if self.validators[i].raw_hash == *raw_hash {
                return Some(&self.validators[i]);
            }
            i += 1;
        }
        None
    }

    /// The validator with this address.
    pub fn find_validator(&self, address: &Address) -> (r: Option<&Validator>)
        ensures
            match position_by_address(self.validators@, address@) {
                Some(i) => 0 <= i < self.validators@.len() && r == Some(&self.validators@[i]),
                None => r is None,
            },
    {
        let mut i: usize = 0;
        assert(self.validators@.skip(0) =~= self.validators@);
        while i < self.validators.len()
            invariant
                i <= self.validators.len(),
                position_by_address(self.validators@, address@) == match position_by_address(
                    self.validators@.skip(i as int),
                    address@,
                ) {
                    Some(k) => Some(k + i),
                    None => None,
                },
            decreases self.validators.len() - i,
        {
            let ghost rest = self.validators@.skip(i as int);
            assert(rest[0] == self.validators@[i as int]);
            assert(rest.drop_first() =~= self.validators@.skip(i + 1));
            if self.validators[i].address.same(address) {
                return Some(&self.validators[i]);
            }
            i += 1;
        }
        None
    }

    /// Whether the bridge's status is in the state and says that the bridge
    /// is in use.
    pub open spec fn bridge_active(&self) -> bool {
        self.eth_bridge_status == Some(EthBridgeStatus::Enabled)
    }

    /// Whether the bridge to Ethereum is in use.
    pub fn is_bridge_active(&self) -> (r: bool)
        ensures
            r == self.bridge_active(),
    {
        match &self.eth_bridge_status {
            Some(EthBridgeStatus::Enabled) => true,
            _ => false,
        }
    }

}

} // verus!
