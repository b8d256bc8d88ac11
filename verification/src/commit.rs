//! Starting the shell and committing a block.

use crate::ethereum::{EthereumOracleChannels, OracleChannelError};
use crate::mode::{ShellMode, TendermintMode, ValidatorData};
use crate::oracle::OracleUpdate;
use crate::shell::{BlockGasMeter, Commit, Config, EventLog, Shell};
use crate::slashing::Evidence;
use crate::storage::{LastBlock, Storage};
use crate::types;
use std::collections::HashSet;
use tokio::sync::mpsc::UnboundedSender;
use vstd::prelude::*;

verus! {

/// Why a commit could not be completed.
#[derive(Debug, Clone, Copy, PartialEq, Eq, Structural)]
pub enum CommitError {
    /// The oracle could not be told how to work.
    Oracle(OracleChannelError),
    /// The broadcaster that takes a validator's protocol transactions no
    /// longer runs.
    BroadcasterDown,
}

impl Storage {
    /// Whether `after` is this state with the block committed: the block
    /// is the last one, the epoch in progress is the last epoch, the replay
    /// records of the block in progress have joined the committed ones, and
    /// but for the oracle's height nothing else has changed.
    pub open spec fn committed_as(&self, after: &Storage, block: LastBlock) -> bool {
        &&& after.last_block == Some(block)
        &&& after.last_epoch == self.epoch
        &&& after.replay_protection.committed@ == self.replay_protection.committed@
            + self.replay_protection.pending@
        &&& after.replay_protection.pending@ == Seq::<types::Hash>::empty()
        &&& after.native_token == self.native_token
        &&& after.epoch == self.epoch
        &&& after.pred_epochs == self.pred_epochs
        &&& after.tx_queue == self.tx_queue
        &&& after.balances == self.balances
        &&& after.wrapper_tx_fees == self.wrapper_tx_fees
        &&& after.faucet_account == self.faucet_account
        &&& after.pow_counters == self.pow_counters
        &&& after.pos_params == self.pos_params
        &&& after.validators == self.validators
        &&& after.eth_bridge_status == self.eth_bridge_status
        &&& after.eth_bridge_config == self.eth_bridge_config
        &&& after.eth_start_height == self.eth_start_height
    }

    /// Commits the block in progress: see `committed_as`. The oracle's
    /// height stays as it is.
    pub fn commit_block(&mut self, block: LastBlock)
        requires
            old(self).replay_protection.well_formed(),
        ensures
            final(self).replay_protection.well_formed(),
            old(self).committed_as(final(self), block),
            final(self).ethereum_height == old(self).ethereum_height,
    {
        self.replay_protection.commit();
        self.last_block = Some(block);
        self.last_epoch = self.epoch;
    }

    /// Takes note of the Ethereum height up to which the oracle says it has
    /// worked; a report without a height changes nothing.
    pub fn note_ethereum_height(&mut self, reported: Option<u64>)
        ensures
            final(self).ethereum_height == match reported {
                Some(height) => Some(height),
                None => old(self).ethereum_height,
            },
            final(self).last_block == old(self).last_block,
            final(self).last_epoch == old(self).last_epoch,
            final(self).replay_protection == old(self).replay_protection,
            final(self).native_token == old(self).native_token,
            final(self).epoch == old(self).epoch,
            final(self).pred_epochs == old(self).pred_epochs,
            final(self).tx_queue == old(self).tx_queue,
            final(self).balances == old(self).balances,
            final(self).wrapper_tx_fees == old(self).wrapper_tx_fees,
            final(self).faucet_account == old(self).faucet_account,
            final(self).pow_counters == old(self).pow_counters,
            final(self).pos_params == old(self).pos_params,
            final(self).validators == old(self).validators,
            final(self).eth_bridge_status == old(self).eth_bridge_status,
            final(self).eth_bridge_config == old(self).eth_bridge_config,
            final(self).eth_start_height == old(self).eth_start_height,
    {
        match reported {
            Some(height) => {
                self.ethereum_height = Some(height);
            },
            None => {},
        }
    }
}

impl Shell {
    /// Create a new shell from the node's configuration and the state that
    /// the database holds, and tell the oracle, where the node has one, how
    /// to work.
    ///
    /// A validator takes its identity from `validator_data`. The new shell
    /// holds no evidence and no events; its gas meter stands at zero. An
    /// error means that the oracle could not be told: the node cannot
    /// start.
    pub fn new(
        config: Config,
        storage: Storage,
        mode: TendermintMode,
        validator_data: Option<ValidatorData>,
        broadcast_sender: UnboundedSender<Vec<u8>>,
        eth_oracle: Option<EthereumOracleChannels>,
    ) -> (r: Result<Shell, OracleChannelError>)
        requires
            storage.well_formed(),
            mode == TendermintMode::Validator && eth_oracle is Some
                ==> storage.oracle_start_known(),
            mode == TendermintMode::Validator ==> validator_data is Some,
        ensures
            r matches Ok(shell) ==> {
                &&& shell.chain_id == config.chain_id
                &&& shell.config == config
                &&& shell.storage == storage
                &&& shell.gas_meter == (BlockGasMeter { block_gas: 0, transaction_gas: 0 })
                &&& shell.byzantine_validators@ == Seq::<Evidence>::empty()
                &&& shell.proposal_data@ == Set::<u64>::empty()
                &&& shell.event_log.events@ == Seq::<crate::shell::Event>::empty()
                &&& match mode {
                    TendermintMode::Validator => shell.mode == (ShellMode::Validator {
                        data: validator_data.unwrap(),
                        broadcast_sender,
                        eth_oracle,
                    }),
                    TendermintMode::Full => shell.mode == ShellMode::Full,
                    TendermintMode::Seed => shell.mode == ShellMode::Seed,
                }
                &&& shell.oracle_config == if mode == TendermintMode::Validator
                    && eth_oracle is Some {
                    match storage.oracle_update() {
                        OracleUpdate::Sent(sent) => Some(sent),
                        _ => None,
                    }
                } else {
                    None
                }
            },
            r is Err ==> mode == TendermintMode::Validator && eth_oracle is Some
                && storage.oracle_update() is Sent,
    {
        let mode = ShellMode::new(mode, validator_data, broadcast_sender, eth_oracle);
        let mut shell = Shell {
            chain_id: config.chain_id.clone(),
            storage,
            gas_meter: BlockGasMeter::default(),
            byzantine_validators: Vec::new(),
            config,
            mode,
            proposal_data: HashSet::new(),
            event_log: EventLog::new(),
            oracle_config: None,
        };
        match shell.update_eth_oracle() {
            Ok(_) => Ok(shell),
            Err(e) => Err(e),
        }
    }

    /// Commit a block. Persist the application state and return the Merkle root
    /// hash.
    ///
    /// `block` is the block as the database committed it. A validator with
    /// an oracle takes note of the height that the oracle reported last,
    /// and the oracle is told how to work if the committed state asks for
    /// other work than it was told before. Then a validator hands
    /// `protocol_txs`, its signed vote extensions, to the broadcaster, in
    /// order. An error means that the oracle or the broadcaster could not
    /// be reached: the node cannot go on. The oracle can only fail a commit
    /// that has something to tell it, the broadcaster only one that has
    /// something to broadcast; and after any commit that did not fail on
    /// the oracle, the oracle has been told all that the committed state
    /// asks for.
    #[verifier::loop_isolation(false)]
    pub fn commit(&mut self, block: LastBlock, protocol_txs: Vec<Vec<u8>>) -> (r: Result<
        Commit,
        CommitError,
    >)
        requires
            old(self).storage.well_formed(),
            old(self).mode.oracle() is Some ==> old(self).storage.oracle_start_known(),
            block.height <= i64::MAX,
            block.time.well_formed(),
        ensures
            final(self).storage.well_formed(),
            old(self).storage.oracle_start_known() ==> final(self).storage.oracle_start_known(),
            old(self).storage.committed_as(&final(self).storage, block),
            old(self).mode.oracle() is None ==> final(self).storage.ethereum_height
                == old(self).storage.ethereum_height,
            old(self).mode.oracle() is None ==> final(self).oracle_config
                == old(self).oracle_config,
            final(self).storage.ethereum_height == old(self).storage.ethereum_height
                || final(self).storage.ethereum_height is Some,
            final(self).oracle_config == old(self).oracle_config || (final(self).oracle_config
                matches Some(sent) && final(self).storage.oracle_update() == OracleUpdate::Sent(
                sent,
            )),
            final(self).chain_id == old(self).chain_id,
            final(self).gas_meter == old(self).gas_meter,
            final(self).byzantine_validators == old(self).byzantine_validators,
            final(self).config == old(self).config,
            final(self).mode == old(self).mode,
            final(self).proposal_data == old(self).proposal_data,
            final(self).event_log == old(self).event_log,
            r matches Ok(response) ==> response.data@ == block.root@,
            r matches Err(CommitError::Oracle(_)) ==> old(self).mode.oracle() is Some
                && old(self).due_oracle_update() is Sent
                && final(self).due_oracle_update() is Sent,
            r matches Err(CommitError::BroadcasterDown) ==> old(self).mode is Validator
                && protocol_txs@.len() > 0 && !(final(self).due_oracle_update() is Sent),
            r is Ok ==> !(final(self).due_oracle_update() is Sent),
            !(old(self).due_oracle_update() is Sent) && (!(old(self).mode is Validator)
                || protocol_txs@.len() == 0) ==> r is Ok,
    {
        // commit block's data from write log and store the in DB
        self.storage.commit_block(block);

        match &self.mode {
            ShellMode::Validator { eth_oracle: Some(eth_oracle), .. } => {
                let last_processed_block: Option<u64> = eth_oracle.last_processed_block();
                self.storage.note_ethereum_height(last_processed_block);
            },
            _ => {},
        }
        match self.update_eth_oracle() {
            Ok(_) => {},
            Err(e) => {
                return Err(CommitError::Oracle(e));
            },
        }
        let response = Commit { data: block.root.to_vec() };
        if self.mode.is_validator() {
            let mut i: usize = 0;
            while i < protocol_txs.len()
                invariant
                    i <= protocol_txs.len(),
                decreases protocol_txs.len() - i,
            {
                if !self.mode.broadcast(protocol_txs[i].clone()) {
                    return Err(CommitError::BroadcasterDown);
                }
                i += 1;
            }
        }
        Ok(response)
    }
}

} // verus!
