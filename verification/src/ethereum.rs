//! Events seen on Ethereum, the queue in which they wait for a vote, and the
//! channels between the shell and the oracle that watches Ethereum.

use crate::storage::EthAddress;
use std::collections::BTreeSet;
use tokio::sync::mpsc::{Receiver, Sender};
use vstd::prelude::*;
use vstd::std_specs::cmp::OrdSpec;
use vstd::std_specs::iter::IteratorSpec;

verus! {

/// The kinds of event that the bridge's contracts emit, in the order in
/// which the queue sorts them.
#[derive(Debug, Clone, Copy, PartialEq, Eq, Structural)]
pub enum EthereumEventKind {
    TransfersToNamada,
    TransfersToEthereum,
    ValidatorSetUpdate,
}

/// An event seen on Ethereum, by what identifies it: its kind and the nonce
/// that the emitting contract gave it.
#[derive(Debug, Clone, Copy, PartialEq, Eq, Structural)]
pub struct EthereumEvent {
    pub kind: EthereumEventKind,
    pub nonce: u64,
}

/// The place of a kind in the order of kinds.
pub open spec fn kind_rank(kind: EthereumEventKind) -> u8 {
    match kind {
        EthereumEventKind::TransfersToNamada => 0,
        EthereumEventKind::TransfersToEthereum => 1,
        EthereumEventKind::ValidatorSetUpdate => 2,
    }
}

/// The order of the queue: by kind first, then by nonce.
pub open spec fn event_before(a: EthereumEvent, b: EthereumEvent) -> bool {
    kind_rank(a.kind) < kind_rank(b.kind) || (a.kind == b.kind && a.nonce < b.nonce)
}

/// The order of the queue leaves no choice: two lists that hold the same
/// events, each in the queue's order, are the same list. So validators
/// whose queues hold the same events vote on the same list, in whatever
/// order the events reached them.
pub proof fn queue_order_is_canonical(a: Seq<EthereumEvent>, b: Seq<EthereumEvent>)
    requires
        forall|i: int, j: int| 0 <= i < j < a.len() ==> event_before(a[i], a[j]),
        forall|i: int, j: int| 0 <= i < j < b.len() ==> event_before(b[i], b[j]),
        forall|event: EthereumEvent| a.contains(event) <==> b.contains(event),
    ensures
        a == b,
    decreases a.len(),
{
    if a.len() == 0 {
        if b.len() > 0 {
            assert(b.contains(b[0]));
        }
        assert(a =~= b);
    } else {
        assert(a.contains(a[0]));
        let k = choose|k: int| 0 <= k < b.len() && b[k] == a[0];
        assert(b.contains(b[0]));
        let m = choose|m: int| 0 <= m < a.len() && a[m] == b[0];
        if k > 0 && m > 0 {
            assert(event_before(b[0], b[k]));
            assert(event_before(a[0], a[m]));
        }
        assert(a[0] == b[0]);
        let rest_a = a.drop_first();
        let rest_b = b.drop_first();
        assert forall|event: EthereumEvent| rest_a.contains(event) <==> rest_b.contains(
            event,
        ) by {
            if rest_a.contains(event) {
                let i = choose|i: int| 0 <= i < rest_a.len() && rest_a[i] == event;
                assert(a[i + 1] == event);
                assert(event_before(a[0], a[i + 1]));
                assert(a.contains(event));
                let j = choose|j: int| 0 <= j < b.len() && b[j] == event;
                assert(rest_b[j - 1] == event);
            }
            if rest_b.contains(event) {
                let i = choose|i: int| 0 <= i < rest_b.len() && rest_b[i] == event;
                assert(b[i + 1] == event);
                assert(event_before(b[0], b[i + 1]));
                assert(b.contains(event));
                let j = choose|j: int| 0 <= j < a.len() && a[j] == event;
                assert(rest_a[j - 1] == event);
            }
        }
        assert forall|i: int, j: int| 0 <= i < j < rest_a.len() implies event_before(
            rest_a[i],
            rest_a[j],
        ) by {
            assert(event_before(a[i + 1], a[j + 1]));
        }
        assert forall|i: int, j: int| 0 <= i < j < rest_b.len() implies event_before(
            rest_b[i],
            rest_b[j],
        ) by {
            assert(event_before(b[i + 1], b[j + 1]));
        }
        queue_order_is_canonical(rest_a, rest_b);
        assert(a =~= seq![a[0]] + rest_a);
        assert(b =~= seq![b[0]] + rest_b);
    }
}

impl EthereumEvent {
    /// The pair by which the queue sorts and finds the event.
    pub open spec fn spec_key(self) -> (u8, u64) {
        (kind_rank(self.kind), self.nonce)
    }

    /// The pair by which the queue sorts and finds the event.
    pub fn key(&self) -> (r: (u8, u64))
        ensures
            r == self.spec_key(),
    {
        let rank: u8 = match self.kind {
            EthereumEventKind::TransfersToNamada => 0,
            EthereumEventKind::TransfersToEthereum => 1,
            EthereumEventKind::ValidatorSetUpdate => 2,
        };
        (rank, self.nonce)
    }

    /// The event that a pair stands for.
    pub fn from_key(key: (u8, u64)) -> (r: EthereumEvent)
        requires
            key.0 <= 2,
        ensures
            r.spec_key() == key,
    {
        let kind = if key.0 == 0 {
            EthereumEventKind::TransfersToNamada
        } else if key.0 == 1 {
            EthereumEventKind::TransfersToEthereum
        } else {
            EthereumEventKind::ValidatorSetUpdate
        };
        EthereumEvent { kind, nonce: key.1 }
    }
}

/// `tokio::sync::mpsc::Receiver`, the receiving half of a bounded channel.
/// Nothing is known of what is inside.
#[verifier::external_type_specification]
#[verifier::external_body]
#[verifier::reject_recursive_types(T)]
pub struct ExReceiver<T>(Receiver<T>);

/// `tokio::sync::mpsc::Sender`, the sending half of a bounded channel.
/// Nothing is known of what is inside.
#[verifier::external_type_specification]
#[verifier::external_body]
#[verifier::reject_recursive_types(T)]
pub struct ExSender<T>(Sender<T>);

/// `tokio::sync::watch::Receiver`, the receiving half of a channel that
/// keeps the value sent last. Nothing is known of what is inside.
#[verifier::external_type_specification]
#[verifier::external_body]
#[verifier::reject_recursive_types(T)]
pub struct ExWatchReceiver<T>(tokio::sync::watch::Receiver<T>);

/// `tokio::sync::mpsc::Receiver::try_recv`: the next message, if one is
/// waiting. Nothing is claimed of what comes back: it depends on what the
/// senders have done.
#[verifier::external_body]
fn try_recv(channel: &mut Receiver<EthereumEvent>) -> (r: Option<EthereumEvent>) {
    match channel.try_recv() {
        Ok(event) => Some(event),
        Err(_) => None,
    }
}

/// `tokio::sync::mpsc::Receiver::max_capacity`: the number of messages that
/// the channel was made to hold. Nothing is claimed of the number.
#[verifier::external_body]
fn max_capacity(channel: &Receiver<EthereumEvent>) -> (r: usize) {
    channel.max_capacity()
}

/// A channel for pulling events from the Ethereum oracle
/// and queueing them up for inclusion in vote extensions
pub struct EthereumReceiver {
    channel: Receiver<EthereumEvent>,
    queue: BTreeSet<(u8, u64)>,
}

impl EthereumReceiver {
    /// The channel on which the oracle sends its events.
    pub closed spec fn channel(&self) -> Receiver<EthereumEvent> {
        self.channel
    }

    /// The events that wait in the queue.
    pub closed spec fn queued(&self) -> Set<EthereumEvent> {
        Set::new(|event: EthereumEvent| self.queue@.contains(event.spec_key()))
    }

    /// Create a new [`EthereumReceiver`] from a channel connected
    /// to an Ethereum oracle
    pub fn new(channel: Receiver<EthereumEvent>) -> (r: EthereumReceiver)
        ensures
            r.channel() == channel,
            r.queued() == Set::<EthereumEvent>::empty(),
    {
        let r = EthereumReceiver { channel, queue: BTreeSet::new() };
        assert(r.queued() =~= Set::<EthereumEvent>::empty());
        r
    }

    /// Puts one event into the queue; says whether it was new.
    pub fn enqueue(&mut self, event: EthereumEvent) -> (r: bool)
        ensures
            final(self).channel() == old(self).channel(),
            final(self).queued() == old(self).queued().insert(event),
            r == !old(self).queued().contains(event),
    {
        let r = self.queue.insert(event.key());
        assert(self.queued() =~= old(self).queued().insert(event));
        r
    }

    /// Pull messages from the channel and add to queue
    /// Since vote extensions require ordering of ethereum
    /// events, we do that here. We also de-duplicate events
    ///
    /// Takes from the channel until it is empty, and at most as many
    /// messages as it holds at once. Whatever the oracle sent, no event
    /// leaves the queue. Returns the number of events that are in the queue
    /// now and were not before.
    pub fn fill_queue(&mut self) -> (new_events: usize)
        ensures
            old(self).queued().subset_of(final(self).queued()),
            final(self).queued().difference(old(self).queued()).finite(),
            final(self).queued().difference(old(self).queued()).len() == new_events,
            new_events == 0 <==> final(self).queued() == old(self).queued(),
    {
        let limit: usize = max_capacity(&self.channel);
        let mut taken: usize = 0;
        let mut new_events: usize = 0;
        let ghost mut fresh: Seq<EthereumEvent> = Seq::empty();
        proof {
            assert(self.queued() =~= old(self).queued().union(fresh.to_set()));
        }
        while taken < limit
            invariant
                taken <= limit,
                new_events <= taken,
                fresh.len() == new_events,
                fresh.no_duplicates(),
                forall|event: EthereumEvent|
                    fresh.contains(event) ==> !old(self).queued().contains(event),
                self.queued() == old(self).queued().union(fresh.to_set()),
            decreases limit - taken,
        {
            match try_recv(&mut self.channel) {
                Some(event) => {
                    let ghost before = self.queued();
                    let is_new = self.enqueue(event);
                    if is_new {
                        new_events += 1;
                        proof {
                            assert(!fresh.contains(event)) by {
                                if fresh.contains(event) {
                                    assert(fresh.to_set().contains(event));
                                }
                            }
                            fresh.lemma_push_to_set_commute(event);
                            let earlier = fresh;
                            fresh = fresh.push(event);
                            assert(fresh.no_duplicates());
                            assert(!old(self).queued().contains(event));
                            assert forall|other: EthereumEvent|
                                fresh.contains(other) implies !old(self).queued().contains(
                                other,
                            ) by {
                                let i = choose|i: int| 0 <= i < fresh.len() && fresh[i] == other;
                                if i < earlier.len() {
                                    assert(earlier[i] == other);
                                    assert(earlier.contains(other));
                                }
                            }
                            assert(self.queued() =~= old(self).queued().union(fresh.to_set()));
                        }
                    } else {
                        assert(self.queued() =~= before);
                    }
                },
                None => {
                    break ;
                },
            }
            taken += 1;
        }
        proof {
            let added = self.queued().difference(old(self).queued());
            assert(added =~= fresh.to_set()) by {
                assert forall|event: EthereumEvent| added.contains(event)
                    <==> fresh.to_set().contains(event) by {
                    if fresh.to_set().contains(event) {
                        assert(fresh.contains(event));
                    }
                }
            }
            vstd::seq_lib::seq_to_set_is_finite(fresh);
            fresh.unique_seq_to_set();
            if new_events == 0 {
                assert(fresh.to_set() =~= Set::<EthereumEvent>::empty());
                assert(self.queued() =~= old(self).queued());
            } else {
                assert(fresh.contains(fresh[0]));
            }
        }
        new_events
    }

    /// Get a copy of the queue: each event in it once, in the queue's order.
    pub fn get_events(&self) -> (r: Vec<EthereumEvent>)
        ensures
            forall|event: EthereumEvent| r@.contains(event) <==> self.queued().contains(event),
            forall|i: int, j: int| 0 <= i < j < r@.len() ==> event_before(r@[i], r@[j]),
    {
        let mut out: Vec<EthereumEvent> = Vec::new();
        let ghost all = self.queue.iter().remaining();
        let ghost mut places: Seq<int> = Seq::empty();
        proof {
            broadcast use vstd::laws_cmp::group_laws_cmp;
            vstd::std_specs::btree::axiom_spec_btree_keys_iter(&self.queue);
            assert(vstd::laws_cmp::obeys_cmp::<&(u8, u64)>());
            vstd::std_specs::btree::axiom_increasing_seq_meaning(all);
            assert(all.unref().to_set() == self.queue@);
        }
        for key in it: self.queue.iter()
            invariant
                it.seq() == all,
                places.len() == out@.len(),
                forall|j: int|
                    0 <= j < out@.len() ==> 0 <= #[trigger] places[j] < it.index()
                        && out@[j].spec_key() == *all[places[j]],
                forall|i: int, j: int| 0 <= i < j < out@.len() ==> places[i] < places[j],
                forall|k: int|
                    0 <= k < it.index() && (#[trigger] all[k]).0 <= 2 ==> exists|j: int|
                        0 <= j < out@.len() && places[j] == k,
        {
            if key.0 <= 2 {
                out.push(EthereumEvent::from_key(*key));
                proof {
                    let before = places;
                    places = places.push(it.index());
                    assert forall|k: int| 0 <= k < it.index() + 1 && (#[trigger] all[k]).0
                        <= 2 implies exists|j: int| 0 <= j < out@.len() && places[j] == k by {
                        if k < it.index() {
                            let j = choose|j: int| 0 <= j < before.len() && before[j] == k;
                            assert(places[j] == k);
                        } else {
                            assert(places[out@.len() - 1] == k);
                        }
                    }
                }
            }
        }
        proof {
            assert forall|i: int, j: int| 0 <= i < j < out@.len() implies event_before(
                out@[i],
                out@[j],
            ) by {
                assert(OrdSpec::cmp_spec(&all[places[i]], &all[places[j]]) is Less);
            }
            assert forall|event: EthereumEvent| out@.contains(event) <==> self.queued().contains(
                event,
            ) by {
                if out@.contains(event) {
                    let j = choose|j: int| 0 <= j < out@.len() && out@[j] == event;
                    assert(all.unref()[places[j]] == event.spec_key());
                    assert(all.unref().to_set().contains(event.spec_key()));
                }
                if self.queued().contains(event) {
                    assert(all.unref().to_set().contains(event.spec_key()));
                    let k = choose|k: int|
                        0 <= k < all.unref().len() && all.unref()[k] == event.spec_key();
                    assert(all[k].0 <= 2);
                    let j = choose|j: int| 0 <= j < out@.len() && places[j] == k;
                    assert(out@[j].spec_key() == event.spec_key());
                    assert(out@[j] == event);
                }
            }
        }
        out
    }

    /// Remove the given [`EthereumEvent`] from the queue, if present.
    ///
    /// **INVARIANT:** This method preserves the sorting and de-duplication
    /// of events in the queue.
    pub fn remove_event(&mut self, event: &EthereumEvent)
        ensures
            final(self).channel() == old(self).channel(),
            final(self).queued() == old(self).queued().remove(*event),
    {
        let key = event.key();
        self.queue.remove(&key);
        assert(self.queued() =~= old(self).queued().remove(*event));
    }
}

/// The oracle's operating parameters.
#[derive(Debug, Clone, Copy)]
pub struct Config {
    /// How many blocks have to lie over an event before it counts as seen.
    pub min_confirmations: u64,
    pub bridge_contract: EthAddress,
    pub governance_contract: EthAddress,
    /// The Ethereum height from which the oracle is to look for events.
    pub start_block: u64,
}

/// What the shell tells the oracle.
#[derive(Debug, Clone, Copy)]
pub enum Command {
    /// Work with these parameters from now on.
    UpdateConfig(Config),
}

/// Why a command did not reach the oracle.
#[derive(Debug, Clone, Copy, PartialEq, Eq, Structural)]
pub enum OracleChannelError {
    /// The channel holds as many commands as it can: the oracle has stalled.
    Full,
    /// Nobody receives any more: the oracle is gone.
    Closed,
}

impl OracleChannelError {
    /// The line that describes the error.
    pub open spec fn message(self) -> Seq<char> {
        match self {
            OracleChannelError::Full => "The Ethereum oracle communication channel is full!"@,
            OracleChannelError::Closed => "The Ethereum oracle can no longer be communicated with"@,
        }
    }

    /// Describes the error in one line.
    pub fn to_string(&self) -> (r: String)
        ensures
            r@ == self.message(),
    {
        match self {
            OracleChannelError::Full => "The Ethereum oracle communication channel is full!".to_owned(),
            OracleChannelError::Closed => "The Ethereum oracle can no longer be communicated with".to_owned(),
        }
    }
}

/// `tokio::sync::mpsc::Sender::try_send`: hands the command to the channel
/// without waiting. Which of the three outcomes comes back depends on the
/// receiver, so nothing is claimed of it.
#[verifier::external_body]
fn try_send(channel: &Sender<Command>, command: Command) -> (r: Result<(), OracleChannelError>) {
    match channel.try_send(command) {
        Ok(()) => Ok(()),
        Err(tokio::sync::mpsc::error::TrySendError::Full(_)) => Err(OracleChannelError::Full),
        Err(tokio::sync::mpsc::error::TrySendError::Closed(_)) => Err(OracleChannelError::Closed),
    }
}

/// `tokio::sync::watch::Receiver::borrow`: the value that was sent last.
/// Nothing is claimed of it: it is the oracle's to set.
#[verifier::external_body]
fn borrow_last(channel: &tokio::sync::watch::Receiver<Option<u64>>) -> (r: Option<u64>) {
    *channel.borrow()
}

/// Channels for communicating with an Ethereum oracle.
pub struct EthereumOracleChannels {
    pub ethereum_receiver: EthereumReceiver,
    pub control_sender: Sender<Command>,
    pub last_processed_block_receiver: tokio::sync::watch::Receiver<Option<u64>>,
}

impl EthereumOracleChannels {
    /// The channels of an oracle whose events nobody has taken yet.
    pub fn new(
        events_receiver: Receiver<EthereumEvent>,
        control_sender: Sender<Command>,
        last_processed_block_receiver: tokio::sync::watch::Receiver<Option<u64>>,
    ) -> (r: EthereumOracleChannels)
        ensures
            r.ethereum_receiver.channel() == events_receiver,
            r.ethereum_receiver.queued() == Set::<EthereumEvent>::empty(),
            r.control_sender == control_sender,
            r.last_processed_block_receiver == last_processed_block_receiver,
    {
        EthereumOracleChannels {
            ethereum_receiver: EthereumReceiver::new(events_receiver),
            control_sender,
            last_processed_block_receiver,
        }
    }

    /// Hands a command to the oracle without waiting for it.
    pub(crate) fn send_command(&self, command: Command) -> (r: Result<(), OracleChannelError>) {
        try_send(&self.control_sender, command)
    }

    /// The Ethereum height that the oracle reported last as fully worked
    /// through, if it has reported one.
    pub(crate) fn last_processed_block(&self) -> (r: Option<u64>) {
        borrow_last(&self.last_processed_block_receiver)
    }
}

} // verus!
