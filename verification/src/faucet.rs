//! The faucet's proof of work: a solution of the faucet's challenge may
//! stand in for a wrapper's fee, once.

use crate::shell::Shell;
use crate::storage::Storage;
use crate::transaction::{PowSolution, WrapperTx};
use crate::types::Address;
use vstd::prelude::*;

verus! {

/// How often an account has drawn on the faucet with a proof of work.
#[derive(Debug)]
pub struct PowCounter {
    pub owner: Address,
    pub counter: u64,
}

/// The counter of `owner`: that of its first entry, or zero.
pub open spec fn counter_in(counters: Seq<PowCounter>, owner: Seq<char>) -> u64
    decreases counters.len(),
{
    if counters.len() == 0 {
        0
    } else if counters[0].owner@ == owner {
        counters[0].counter
    } else {
        counter_in(counters.drop_first(), owner)
    }
}

/// The counter of an owner is that of the first entry that names it.
proof fn counter_in_at_first(counters: Seq<PowCounter>, owner: Seq<char>, i: int)
    requires
        0 <= i < counters.len(),
        counters[i].owner@ == owner,
        forall|j: int| 0 <= j < i ==> counters[j].owner@ != owner,
    ensures
        counter_in(counters, owner) == counters[i].counter,
    decreases i,
{
    if i > 0 {
        counter_in_at_first(counters.drop_first(), owner, i - 1);
    }
}

/// An entry that takes the place of one for the same owner leaves the
/// counters of all other owners as they were.
proof fn counter_in_after_update(
    counters: Seq<PowCounter>,
    i: int,
    entry: PowCounter,
    other: Seq<char>,
)
    requires
        0 <= i < counters.len(),
        entry.owner@ == counters[i].owner@,
        other != entry.owner@,
    ensures
        counter_in(counters.update(i, entry), other) == counter_in(counters, other),
    decreases counters.len(),
{
    if i == 0 {
        assert(counters.update(0, entry).drop_first() =~= counters.drop_first());
    } else {
        counter_in_after_update(counters.drop_first(), i - 1, entry, other);
        assert(counters.update(i, entry).drop_first() =~= counters.drop_first().update(
            i - 1,
            entry,
        ));
    }
}

/// An entry added at the end for an owner that had none gives that owner
/// its counter and leaves the counters of all other owners as they were.
proof fn counter_in_after_push(counters: Seq<PowCounter>, entry: PowCounter, other: Seq<char>)
    requires
        forall|j: int| 0 <= j < counters.len() ==> counters[j].owner@ != entry.owner@,
    ensures
        counter_in(counters.push(entry), other) == if other == entry.owner@ {
            entry.counter
        } else {
            counter_in(counters, other)
        },
    decreases counters.len(),
{
    let pushed = counters.push(entry);
    if counters.len() == 0 {
        reveal_with_fuel(counter_in, 2);
        assert(pushed.drop_first() =~= Seq::<PowCounter>::empty());
        assert(pushed[0] == entry);
    } else {
        let rest = counters.drop_first();
        assert(pushed.drop_first() =~= rest.push(entry));
        assert(pushed[0] == counters[0]);
        assert forall|j: int| 0 <= j < rest.len() implies rest[j].owner@
            != entry.owner@ by {
            assert(rest[j] == counters[j + 1]);
        }
        counter_in_after_push(rest, entry, other);
    }
}

/// An owner without an entry has used the faucet no times.
proof fn counter_absent(counters: Seq<PowCounter>, owner: Seq<char>)
    requires
        forall|j: int| 0 <= j < counters.len() ==> counters[j].owner@ != owner,
    ensures
        counter_in(counters, owner) == 0,
    decreases counters.len(),
{
    if counters.len() > 0 {
        counter_absent(counters.drop_first(), owner);
    }
}

impl Storage {
    /// Whether `solution` is one that `source` may still use: its hash
    /// meets the challenge and it was made for the present value of the
    /// source's counter. A counter that cannot go up any more admits no
    /// solution.
    pub open spec fn pow_valid(&self, solution: PowSolution, source: Seq<char>) -> bool {
        &&& solution.meets_difficulty
        &&& solution.counter == counter_in(self.pow_counters@, source)
        &&& solution.counter < u64::MAX
    }

    /// The counter of `source`; zero where it has none yet.
    pub fn pow_counter(&self, source: &Address) -> (r: u64)
        ensures
            r == counter_in(self.pow_counters@, source@),
    {
        match self.find_pow_counter(source) {
            Some(i) => self.pow_counters[i].counter,
            None => {
                proof {
                    counter_absent(self.pow_counters@, source@);
                }
                0
            },
        }
    }

    /// Whether `other` is this state but for the counters of the faucet.
    pub open spec fn same_but_for_pow_counters(&self, other: &Storage) -> bool {
        &&& other.native_token == self.native_token
        &&& other.last_block == self.last_block
        &&& other.epoch == self.epoch
        &&& other.last_epoch == self.last_epoch
        &&& other.pred_epochs == self.pred_epochs
        &&& other.tx_queue == self.tx_queue
        &&& other.ethereum_height == self.ethereum_height
        &&& other.replay_protection == self.replay_protection
        &&& other.balances == self.balances
        &&& other.wrapper_tx_fees == self.wrapper_tx_fees
        &&& other.faucet_account == self.faucet_account
        &&& other.pos_params == self.pos_params
        &&& other.validators == self.validators
        &&& other.eth_bridge_status == self.eth_bridge_status
        &&& other.eth_bridge_config == self.eth_bridge_config
        &&& other.eth_start_height == self.eth_start_height
    }

    /// The place of the first entry for `source`, if it has one.
    fn find_pow_counter(&self, source: &Address) -> (r: Option<usize>)
        ensures
            match r {
                Some(i) => i < self.pow_counters@.len() && self.pow_counters@[i as int].owner@
                    == source@ && self.pow_counters@[i as int].counter == counter_in(
                    self.pow_counters@,
                    source@,
                ) && forall|j: int|
                    0 <= j < i ==> self.pow_counters@[j].owner@ != source@,
                None => forall|j: int|
                    0 <= j < self.pow_counters@.len() ==> self.pow_counters@[j].owner@
                        != source@,
            },
    {
        let mut i: usize = 0;
        while i < self.pow_counters.len()
            invariant
                i <= self.pow_counters.len(),
                forall|j: int| 0 <= j < i ==> self.pow_counters@[j].owner@ != source@,
            decreases self.pow_counters.len() - i,
        {
            if self.pow_counters[i].owner.same(source) {
                proof {
                    counter_in_at_first(self.pow_counters@, source@, i as int);
                }
                return Some(i);
            }
            i += 1;
        }
        None
    }

    /// Counts one more use of the faucet by `source`.
    pub fn bump_pow_counter(&mut self, source: &Address)
        requires
            counter_in(old(self).pow_counters@, source@) < u64::MAX,
        ensures
            counter_in(final(self).pow_counters@, source@) == counter_in(
                old(self).pow_counters@,
                source@,
            ) + 1,
            forall|other: Seq<char>|
                other != source@ ==> counter_in(final(self).pow_counters@, other)
                    == counter_in(old(self).pow_counters@, other),
            old(self).same_but_for_pow_counters(final(self)),
    {
        let ghost before = self.pow_counters@;
        match self.find_pow_counter(source) {
            Some(i) => {
                let entry = PowCounter {
                    owner: source.clone(),
                    counter: self.pow_counters[i].counter + 1,
                };
                self.pow_counters.set(i, entry);
                proof {
                    counter_in_at_first(self.pow_counters@, source@, i as int);
                    assert forall|other: Seq<char>| other != source@ implies counter_in(
                        self.pow_counters@,
                        other,
                    ) == counter_in(before, other) by {
                        counter_in_after_update(before, i as int, entry, other);
                    }
                }
            },
            None => {
                let entry = PowCounter { owner: source.clone(), counter: 1 };
                proof {
                    counter_absent(before, source@);
                    counter_in_after_push(before, entry, source@);
                    assert forall|other: Seq<char>| other != source@ implies counter_in(
                        before.push(entry),
                        other,
                    ) == counter_in(before, other) by {
                        counter_in_after_push(before, entry, other);
                    }
                }
                self.pow_counters.push(entry);
            },
        }
    }
}

impl Shell {
    /// Whether the wrapper carries a proof of work that stands in for the
    /// fee: never on the main network; elsewhere the chain has to have a
    /// faucet and the solution has to be one that the wrapper's account may
    /// still use.
    pub open spec fn valid_pow_solution(&self, wrapper: WrapperTx) -> bool {
        &&& !self.config.mainnet
        &&& wrapper.pow_solution is Some
        &&& self.storage.faucet_account is Some
        &&& self.storage.pow_valid(wrapper.pow_solution.unwrap(), wrapper.payer@)
    }

    /// Check if the tx has a valid PoW solution. Unlike
    /// `invalidate_pow_solution_if_valid`, this won't invalidate the solution.
    pub fn has_valid_pow_solution(&self, tx: &WrapperTx) -> (r: bool)
        ensures
            r == self.valid_pow_solution(*tx),
    {
        if self.config.mainnet {
            return false;
        }
        match &tx.pow_solution {
            Some(solution) => {
                if self.storage.faucet_account.is_some() {
                    let counter: u64 = self.storage.pow_counter(&tx.payer);
                    solution.meets_difficulty && solution.counter == counter && counter
                        < u64::MAX
                } else {
                    false
                }
            },
            None => false,
        }
    }

    /// Check if the tx has a valid PoW solution and if so invalidate it to
    /// prevent replay.
    ///
    /// Where the solution is valid, the counter of the wrapper's account
    /// goes up by one, which makes the solution invalid; nothing else
    /// changes. Where it is not, nothing changes at all.
    pub fn invalidate_pow_solution_if_valid(&mut self, tx: &WrapperTx) -> (r: bool)
        ensures
            r == old(self).valid_pow_solution(*tx),
            !final(self).valid_pow_solution(*tx),
            !r ==> *final(self) == *old(self),
            final(self).chain_id == old(self).chain_id,
            final(self).gas_meter == old(self).gas_meter,
            final(self).byzantine_validators == old(self).byzantine_validators,
            final(self).config == old(self).config,
            final(self).mode == old(self).mode,
            final(self).proposal_data == old(self).proposal_data,
            final(self).event_log == old(self).event_log,
            final(self).oracle_config == old(self).oracle_config,
            old(self).storage.same_but_for_pow_counters(&final(self).storage),
            r ==> counter_in(final(self).storage.pow_counters@, tx.payer@)
                == counter_in(old(self).storage.pow_counters@, tx.payer@) + 1,
            forall|other: Seq<char>|
                other != tx.payer@ ==> counter_in(
                    final(self).storage.pow_counters@,
                    other,
                ) == counter_in(old(self).storage.pow_counters@, other),
    {
        if self.has_valid_pow_solution(tx) {
            self.storage.bump_pow_counter(&tx.payer);
            true
        } else {
            false
        }
    }
}

} // verus!
