//! The mode in which the node runs: as a validator, with keys and channels,
//! or as a full or seed node without either.

use crate::ethereum::{event_before, EthereumEvent, EthereumOracleChannels};
use crate::types::{Address, SecretKey};
use tokio::sync::mpsc::UnboundedSender;
use vstd::prelude::*;

verus! {

/// The keys that a validator signs with.
#[derive(Debug)]
pub struct ValidatorKeys {
    /// For protocol transactions and vote extensions.
    pub protocol_keypair: SecretKey,
    /// For what goes to the Ethereum bridge.
    pub eth_bridge_keypair: SecretKey,
    /// For the distributed key generation, where the node takes part in it.
    pub dkg_keypair: Option<SecretKey>,
}

/// A validator's identity: its address and its keys.
#[derive(Debug)]
pub struct ValidatorData {
    pub address: Address,
    pub keys: ValidatorKeys,
}

/// The mode that the node's configuration asks for.
#[derive(Debug, Clone, Copy, PartialEq, Eq, Structural)]
pub enum TendermintMode {
    Full,
    Validator,
    Seed,
}

/// `tokio::sync::mpsc::UnboundedSender`, the sending half of a channel
/// without a bound. The shell holds it and hands it to `send`; nothing is
/// known of what is inside.
#[verifier::external_type_specification]
#[verifier::external_body]
#[verifier::reject_recursive_types(T)]
pub struct ExUnboundedSender<T>(UnboundedSender<T>);

/// `tokio::sync::mpsc::UnboundedSender::send`: hands the bytes to the
/// channel; false where nobody receives any more. Which it is depends on
/// the receiver, so nothing is claimed of it.
#[verifier::external_body]
fn send_bytes(channel: &UnboundedSender<Vec<u8>>, data: Vec<u8>) -> (sent: bool) {
    channel.send(data).is_ok()
}

/// The mode in which the node runs. Only a validator holds keys and
/// channels.
pub enum ShellMode {
    Validator {
        data: ValidatorData,
        broadcast_sender: UnboundedSender<Vec<u8>>,
        eth_oracle: Option<EthereumOracleChannels>,
    },
    Full,
    Seed,
}

impl ShellMode {
    /// The channels to the oracle, for a validator that has them.
    pub open spec fn oracle(&self) -> Option<EthereumOracleChannels> {
        match self {
            ShellMode::Validator { eth_oracle, .. } => *eth_oracle,
            _ => None,
        }
    }

    /// The Ethereum events that wait for a vote, for a validator with an
    /// oracle.
    pub open spec fn queued_events(&self) -> Option<Set<EthereumEvent>> {
        match self.oracle() {
            Some(channels) => Some(channels.ethereum_receiver.queued()),
            None => None,
        }
    }

    /// Whether both are of one variant and, if validators, hold the same
    /// channel to the broadcaster and the same two channels on which the
    /// oracle is told how to work and reports how far it has come.
    pub open spec fn same_senders(&self, other: &ShellMode) -> bool {
        match (*self, *other) {
            (
                ShellMode::Validator { broadcast_sender: mine, eth_oracle: my_oracle, .. },
                ShellMode::Validator { broadcast_sender: theirs, eth_oracle: their_oracle, .. },
            ) => mine == theirs && match (my_oracle, their_oracle) {
                (Some(a), Some(b)) => a.control_sender == b.control_sender
                    && a.last_processed_block_receiver == b.last_processed_block_receiver,
                (None, None) => true,
                _ => false,
            },
            (ShellMode::Full, ShellMode::Full) => true,
            (ShellMode::Seed, ShellMode::Seed) => true,
            _ => false,
        }
    }

    /// Whether both hold the same channels throughout: those of
    /// `same_senders` and the one on which the oracle's events come.
    pub open spec fn same_channels(&self, other: &ShellMode) -> bool {
        &&& self.same_senders(other)
        &&& match (self.oracle(), other.oracle()) {
            (Some(a), Some(b)) => a.ethereum_receiver.channel() == b.ethereum_receiver.channel(),
            _ => true,
        }
    }

    /// The validator's identity, for a validator.
    pub open spec fn validator_data(&self) -> Option<ValidatorData> {
        match self {
            ShellMode::Validator { data, .. } => Some(*data),
            _ => None,
        }
    }

    /// The mode that the configuration asks for. A validator needs its
    /// identity from the wallet; the other modes drop what they are given.
    pub fn new(
        mode: TendermintMode,
        data: Option<ValidatorData>,
        broadcast_sender: UnboundedSender<Vec<u8>>,
        eth_oracle: Option<EthereumOracleChannels>,
    ) -> (r: ShellMode)
        requires
            mode == TendermintMode::Validator ==> data is Some,
        ensures
            match mode {
                TendermintMode::Validator => r == (ShellMode::Validator {
                    data: data.unwrap(),
                    broadcast_sender,
                    eth_oracle,
                }),
                TendermintMode::Full => r == ShellMode::Full,
                TendermintMode::Seed => r == ShellMode::Seed,
            },
    {
        match mode {
            TendermintMode::Validator => ShellMode::Validator {
                data: data.unwrap(),
                broadcast_sender,
                eth_oracle,
            },
            TendermintMode::Full => ShellMode::Full,
            TendermintMode::Seed => ShellMode::Seed,
        }
    }

    /// Whether the node is a validator with channels to an oracle.
    pub fn has_oracle(&self) -> (r: bool)
        ensures
            r == (self.oracle() is Some),
    {
        match self {
            ShellMode::Validator { eth_oracle: Some(_), .. } => true,
            _ => false,
        }
    }

    /// Whether the node runs as a validator.
    pub fn is_validator(&self) -> (r: bool)
        ensures
            r == (self is Validator),
    {
        match self {
            ShellMode::Validator { .. } => true,
            _ => false,
        }
    }

    /// Get the validator address if ledger is in validator mode
    pub fn get_validator_address(&self) -> (r: Option<&Address>)
        ensures
            r == match self {
                ShellMode::Validator { data, .. } => Some(&data.address),
                _ => None,
            },
    {
        match self {
            ShellMode::Validator { data, .. } => Some(&data.address),
            _ => None,
        }
    }

    /// Remove an Ethereum event from the internal queue
    pub fn dequeue_eth_event(&mut self, event: &EthereumEvent)
        ensures
            final(self).validator_data() == old(self).validator_data(),
            final(self).queued_events() == match old(self).queued_events() {
                Some(queue) => Some(queue.remove(*event)),
                None => None,
            },
            final(self).same_channels(old(self)),
            old(self).oracle() is None ==> *final(self) == *old(self),
    {
        match self {
            ShellMode::Validator { eth_oracle: Some(channels), .. } => {
                channels.ethereum_receiver.remove_event(event);
            },
            _ => {},
        }
    }

    /// Remove the given Ethereum events from the internal queue: those
    /// that a committed block has taken up and that need no further vote.
    pub fn dequeue_eth_events(&mut self, events: &Vec<EthereumEvent>)
        ensures
            final(self).validator_data() == old(self).validator_data(),
            final(self).queued_events() == match old(self).queued_events() {
                Some(queue) => Some(queue.difference(events@.to_set())),
                None => None,
            },
            final(self).same_channels(old(self)),
            old(self).oracle() is None ==> *final(self) == *old(self),
    {
        let mut i: usize = 0;
        proof {
            assert(events@.take(0).to_set() =~= Set::<EthereumEvent>::empty());
            if old(self).queued_events() is Some {
                assert(old(self).queued_events().unwrap().difference(Set::empty())
                    =~= old(self).queued_events().unwrap());
            }
        }
        while i < events.len()
            invariant
                i <= events.len(),
                self.validator_data() == old(self).validator_data(),
                self.queued_events() == match old(self).queued_events() {
                    Some(queue) => Some(queue.difference(events@.take(i as int).to_set())),
                    None => None,
                },
                self.same_channels(old(self)),
                old(self).oracle() is None ==> *self == *old(self),
            decreases events.len() - i,
        {
            let ghost done = events@.take(i as int).to_set();
            self.dequeue_eth_event(&events[i]);
            proof {
                let next = events@.take(i + 1);
                assert(next.to_set() =~= done.insert(events@[i as int])) by {
                    assert(next.drop_last() =~= events@.take(i as int));
                    assert forall|event: EthereumEvent|
                        next.to_set().contains(event) <==> done.insert(
                            events@[i as int],
                        ).contains(event) by {
                        if next.to_set().contains(event) {
                            let k = choose|k: int| 0 <= k < next.len() && next[k] == event;
                            if k < i {
                                assert(events@.take(i as int)[k] == event);
                            }
                        }
                        if done.contains(event) {
                            let k = choose|k: int|
                                0 <= k < i && events@.take(i as int)[k] == event;
                            assert(next[k] == event);
                        }
                        if event == events@[i as int] {
                            assert(next[i as int] == event);
                        }
                    }
                }
                if old(self).queued_events() is Some {
                    let queue = old(self).queued_events().unwrap();
                    assert(queue.difference(done).remove(events@[i as int]) =~= queue.difference(
                        next.to_set(),
                    ));
                }
            }
            i += 1;
        }
        assert(events@.take(events@.len() as int) =~= events@);
    }

    /// The Ethereum events that this validator is to vote on: what the
    /// oracle has sent is put into the queue, and the queue is copied, each
    /// event once and in the queue's order. A node without an oracle has
    /// none.
    pub fn new_ethereum_events(&mut self) -> (r: Vec<EthereumEvent>)
        ensures
            final(self).validator_data() == old(self).validator_data(),
            final(self).same_senders(old(self)),
            match (old(self).queued_events(), final(self).queued_events()) {
                (Some(before), Some(after)) => before.subset_of(after) && forall|
                    event: EthereumEvent,
                | r@.contains(event) <==> after.contains(event),
                (None, None) => r@ == Seq::<EthereumEvent>::empty() && *final(self) == *old(self),
                _ => false,
            },
            forall|i: int, j: int| 0 <= i < j < r@.len() ==> event_before(r@[i], r@[j]),
    {
        match self {
            ShellMode::Validator { eth_oracle: Some(channels), .. } => {
                channels.ethereum_receiver.fill_queue();
                channels.ethereum_receiver.get_events()
            },
            _ => Vec::new(),
        }
    }

    /// Get the protocol keypair for this validator.
    pub fn get_protocol_key(&self) -> (r: Option<&SecretKey>)
        ensures
            r == match self {
                ShellMode::Validator { data, .. } => Some(&data.keys.protocol_keypair),
                _ => None,
            },
    {
        match self {
            ShellMode::Validator { data, .. } => Some(&data.keys.protocol_keypair),
            _ => None,
        }
    }

    /// Get the Ethereum bridge keypair for this validator.
    pub fn get_eth_bridge_keypair(&self) -> (r: Option<&SecretKey>)
        ensures
            r == match self {
                ShellMode::Validator { data, .. } => Some(&data.keys.eth_bridge_keypair),
                _ => None,
            },
    {
        match self {
            ShellMode::Validator { data, .. } => Some(&data.keys.eth_bridge_keypair),
            _ => None,
        }
    }

    /// If this node is a validator, broadcast a tx
    /// to the mempool using the broadcaster subprocess
    ///
    /// Returns false where the node is a validator and its broadcaster no
    /// longer runs. A node that is no validator sends nothing and returns
    /// true.
    pub fn broadcast(&self, data: Vec<u8>) -> (sent: bool)
        ensures
            !(self is Validator) ==> sent,
    {
        match self {
            ShellMode::Validator { broadcast_sender, .. } => send_bytes(broadcast_sender, data),
            _ => true,
        }
    }
}

} // verus!
