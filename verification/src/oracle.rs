//! What the shell tells the Ethereum oracle, and when.

use crate::ethereum::{Command, Config, OracleChannelError};
use crate::mode::ShellMode;
use crate::shell::Shell;
use crate::storage::{EthAddress, Storage};
use vstd::prelude::*;

verus! {

/// What an update of the oracle came to.
#[derive(Debug, Clone, Copy)]
pub enum OracleUpdate {
    /// The node has no oracle to update.
    NoOracle,
    /// The chain has not been set up yet: the state does not say whether
    /// the bridge is in use.
    StorageNotInitialized,
    /// The bridge is not in use.
    BridgeDisabled,
    /// The state holds no parameters of the bridge.
    ConfigNotFound,
    /// The oracle works with the state's parameters already.
    Unchanged,
    /// The oracle was sent these parameters.
    Sent(Config),
}

impl EthAddress {
    /// Whether both are the same 20 bytes.
    pub fn same(&self, other: &EthAddress) -> (r: bool)
        ensures
            r == (*self == *other),
    {
        let mut i: usize = 0;
        while i < 20
            invariant
                i <= 20,
                forall|j: int| 0 <= j < i ==> self.bytes@[j] == other.bytes@[j],
            decreases 20 - i,
        {
            if self.bytes[i] != other.bytes[i] {
                return false;
            }
            i += 1;
        }
        assert(self.bytes@ =~= other.bytes@);
        assert(self.bytes == other.bytes);
        true
    }
}

impl Config {
    /// Whether both tell the oracle to work in the same way: with the same
    /// number of confirmations and the same contracts. The height to start
    /// from does not count: it moves with the oracle's own progress.
    pub open spec fn same_work(&self, other: &Config) -> bool {
        &&& self.min_confirmations == other.min_confirmations
        &&& self.bridge_contract == other.bridge_contract
        &&& self.governance_contract == other.governance_contract
    }

    /// Whether both tell the oracle to work in the same way.
    pub fn is_same_work(&self, other: &Config) -> (r: bool)
        ensures
            r == self.same_work(other),
    {
        self.min_confirmations == other.min_confirmations && self.bridge_contract.same(
            &other.bridge_contract,
        ) && self.governance_contract.same(&other.governance_contract)
    }
}

impl Storage {
    /// The Ethereum height from which the oracle is to start: the height
    /// that the oracle reported last, where the state has one, else the
    /// height that the chain was set up with.
    pub open spec fn oracle_start_block(&self) -> Option<u64> {
        match self.ethereum_height {
            Some(height) => Some(height),
            None => self.eth_start_height,
        }
    }

    /// What there is to tell an oracle, going by the state: nothing before
    /// the chain is set up, nothing while the bridge is not in use, nothing
    /// without the bridge's parameters; else the parameters, with the
    /// height to start from.
    pub open spec fn oracle_update(&self) -> OracleUpdate {
        if self.eth_bridge_status is None {
            OracleUpdate::StorageNotInitialized
        } else if !self.bridge_active() {
            OracleUpdate::BridgeDisabled
        } else {
            match self.eth_bridge_config {
                None => OracleUpdate::ConfigNotFound,
                Some(config) => OracleUpdate::Sent(
                    Config {
                        min_confirmations: config.min_confirmations,
                        bridge_contract: config.bridge_contract,
                        governance_contract: config.governance_contract,
                        start_block: self.oracle_start_block().unwrap(),
                    },
                ),
            }
        }
    }

    /// Where there are parameters to send, the state knows a height to
    /// start from.
    pub open spec fn oracle_start_known(&self) -> bool {
        self.oracle_update() is Sent ==> self.oracle_start_block() is Some
    }

    /// Checks that the state knows a height for the oracle to start from,
    /// where it has parameters to send.
    pub fn knows_oracle_start(&self) -> (r: bool)
        ensures
            r == self.oracle_start_known(),
    {
        let to_send: bool = self.is_bridge_active() && self.eth_bridge_config.is_some();
        !to_send || self.ethereum_height.is_some() || self.eth_start_height.is_some()
    }

    /// Works out what there is to tell an oracle: see `oracle_update`.
    pub fn plan_oracle_update(&self) -> (r: OracleUpdate)
        requires
            self.oracle_start_known(),
        ensures
            r == self.oracle_update(),
    {
        if self.eth_bridge_status.is_none() {
            return OracleUpdate::StorageNotInitialized;
        }
        if !self.is_bridge_active() {
            return OracleUpdate::BridgeDisabled;
        }
        let config = match self.eth_bridge_config {
            Some(config) => config,
            None => {
                return OracleUpdate::ConfigNotFound;
            },
        };
        let start_block: u64 = match self.ethereum_height {
            Some(height) => height,
            None => self.eth_start_height.unwrap(),
        };
        OracleUpdate::Sent(
            Config {
                min_confirmations: config.min_confirmations,
                bridge_contract: config.bridge_contract,
                governance_contract: config.governance_contract,
                start_block,
            },
        )
    }
}

impl Shell {
    /// The update of the oracle that is due: none for a node without an
    /// oracle; else what the state has to tell, unless the oracle was told
    /// to work in that way before.
    pub open spec fn due_oracle_update(&self) -> OracleUpdate {
        if self.mode.oracle() is None {
            OracleUpdate::NoOracle
        } else {
            match self.storage.oracle_update() {
                OracleUpdate::Sent(config) => if self.oracle_config is Some
                    && self.oracle_config.unwrap().same_work(&config) {
                    OracleUpdate::Unchanged
                } else {
                    OracleUpdate::Sent(config)
                },
                other => other,
            }
        }
    }

    /// Whether `after` is this shell but for the parameters that the
    /// oracle was sent last.
    pub open spec fn same_but_for_oracle_config(&self, after: &Shell) -> bool {
        &&& after.chain_id == self.chain_id
        &&& after.storage == self.storage
        &&& after.gas_meter == self.gas_meter
        &&& after.byzantine_validators == self.byzantine_validators
        &&& after.config == self.config
        &&& after.mode == self.mode
        &&& after.proposal_data == self.proposal_data
        &&& after.event_log == self.event_log
    }

    /// Works out the update of the oracle that is due: see
    /// `due_oracle_update`.
    pub fn plan_oracle_update(&self) -> (r: OracleUpdate)
        requires
            self.mode.oracle() is Some ==> self.storage.oracle_start_known(),
        ensures
            r == self.due_oracle_update(),
    {
        match &self.mode {
            ShellMode::Validator { eth_oracle: Some(_), .. } => {
                let update = self.storage.plan_oracle_update();
                match (&update, &self.oracle_config) {
                    (OracleUpdate::Sent(config), Some(last)) => {
                        if last.is_same_work(config) {
                            OracleUpdate::Unchanged
                        } else {
                            update
                        }
                    },
                    _ => update,
                }
            },
            _ => OracleUpdate::NoOracle,
        }
    }

    /// If a handle to an Ethereum oracle was provided to the [`Shell`], attempt
    /// to send it an updated configuration, using an initial configuration
    /// based on Ethereum bridge parameters in blockchain storage.
    ///
    /// This method must be safe to call even before ABCI `InitChain` has been
    /// called (i.e. when storage is empty), as we may want to do this check
    /// every time the shell starts up (including the first time ever at which
    /// time storage will be empty).
    ///
    /// Nothing is sent to an oracle that was told before to work in the
    /// way that the state asks for. An error means that the command did not
    /// reach the oracle: the node cannot go on. The shell remembers what
    /// the oracle was sent, and nothing else changes. Only a node with an
    /// oracle needs the state to know the height to start from.
    pub fn update_eth_oracle(&mut self) -> (r: Result<OracleUpdate, OracleChannelError>)
        requires
            old(self).mode.oracle() is Some ==> old(self).storage.oracle_start_known(),
        ensures
            old(self).same_but_for_oracle_config(final(self)),
            r matches Ok(update) ==> update == old(self).due_oracle_update(),
            r is Err ==> old(self).due_oracle_update() is Sent,
            r is Ok ==> !(final(self).due_oracle_update() is Sent),
            final(self).oracle_config == match r {
                Ok(OracleUpdate::Sent(config)) => Some(config),
                _ => old(self).oracle_config,
            },
    {
        let update = self.plan_oracle_update();
        match update {
            OracleUpdate::Sent(config) => {
                let sent = match &self.mode {
                    ShellMode::Validator { eth_oracle: Some(channels), .. } => {
                        channels.send_command(Command::UpdateConfig(config))
                    },
                    _ => Ok(()),
                };
                match sent {
                    Ok(()) => {
                        self.oracle_config = Some(config);
                        Ok(update)
                    },
                    Err(e) => Err(e),
                }
            },
            _ => Ok(update),
        }
    }
}

/// The oracle is told at most once to work in a given way: once it was
/// sent parameters, no update is due while the state asks for the same
/// work, whatever the height to start from has become.
pub proof fn oracle_is_told_once(shell: Shell, sent: Config)
    requires
        shell.mode.oracle() is Some,
        shell.oracle_config == Some(sent),
        shell.storage.oracle_update() matches OracleUpdate::Sent(config) && config.same_work(&sent),
    ensures
        shell.due_oracle_update() is Unchanged,
{
}

} // verus!
