//! Replay protection at proposal time: a wrapper and its inner transaction
//! may each be applied once.

use crate::error::Error;
use crate::shell::Shell;
use crate::text::hex_upper;
use crate::transaction::Tx;
use crate::types;
use vstd::prelude::*;
use vstd::string::StringExecFns;

verus! {

/// Whether `hashes` holds `hash`.
pub fn contains_hash(hashes: &Vec<types::Hash>, hash: &types::Hash) -> (r: bool)
    ensures
        r == hashes@.contains(*hash),
{
    let mut i: usize = 0;
    while i < hashes.len()
        invariant
            i <= hashes.len(),
            forall|j: int| 0 <= j < i ==> hashes@[j] != *hash,
        decreases hashes.len() - i,
    {
        if hashes[i].same(hash) {
            return true;
        }
        i += 1;
    }
    false
}

/// Whether no hash occurs twice in `hashes`.
pub fn all_distinct(hashes: &Vec<types::Hash>) -> (r: bool)
    ensures
        r == hashes@.no_duplicates(),
{
    let mut i: usize = 0;
    while i < hashes.len()
        invariant
            i <= hashes.len(),
            forall|a: int, b: int| 0 <= a < b < i ==> hashes@[a] != hashes@[b],
        decreases hashes.len() - i,
    {
        let mut j: usize = 0;
        while j < i
            invariant
                j <= i < hashes.len(),
                forall|a: int| 0 <= a < j ==> hashes@[a] != hashes@[i as int],
            decreases i - j,
        {
            if hashes[j].same(&hashes[i]) {
                return false;
            }
            j += 1;
        }
        i += 1;
    }
    assert forall|a: int, b: int| 0 <= a < hashes@.len() && 0 <= b < hashes@.len() && a
        != b implies hashes@[a] != hashes@[b] by {
        if a < b {
            assert(hashes@[a] != hashes@[b]);
        } else {
            assert(hashes@[b] != hashes@[a]);
        }
    }
    true
}

/// Whether no hash of `left` occurs in `right`.
pub fn disjoint(left: &Vec<types::Hash>, right: &Vec<types::Hash>) -> (r: bool)
    ensures
        r == (forall|hash: types::Hash| !(left@.contains(hash) && right@.contains(hash))),
{
    let mut i: usize = 0;
    while i < left.len()
        invariant
            i <= left.len(),
            forall|a: int| 0 <= a < i ==> !right@.contains(left@[a]),
        decreases left.len() - i,
    {
        if contains_hash(right, &left[i]) {
            assert(left@.contains(left@[i as int]));
            return false;
        }
        i += 1;
    }
    true
}

/// Two lists joined hold no hash twice where neither does and they share
/// none, and only there.
proof fn joined_without_duplicates(left: Seq<types::Hash>, right: Seq<types::Hash>)
    ensures
        (left + right).no_duplicates() <==> left.no_duplicates() && right.no_duplicates() && (
        forall|hash: types::Hash| !(left.contains(hash) && right.contains(hash))),
{
    let joined = left + right;
    if left.no_duplicates() && right.no_duplicates() && (forall|hash: types::Hash|
        !(left.contains(hash) && right.contains(hash))) {
        assert forall|i: int, j: int| 0 <= i < left.len() && 0 <= j < right.len() implies left[i]
            != right[j] by {
            assert(left.contains(left[i]));
            assert(right.contains(right[j]));
        }
        vstd::seq_lib::lemma_no_dup_in_concat(left, right);
    }
    if joined.no_duplicates() {
        assert forall|i: int, j: int| 0 <= i < left.len() && 0 <= j < left.len() && i
            != j implies left[i] != left[j] by {
            assert(joined[i] == left[i] && joined[j] == left[j]);
        }
        assert forall|i: int, j: int| 0 <= i < right.len() && 0 <= j < right.len() && i
            != j implies right[i] != right[j] by {
            assert(joined[left.len() + i] == right[i] && joined[left.len() + j] == right[j]);
        }
        assert forall|hash: types::Hash| !(left.contains(hash) && right.contains(hash)) by {
            if left.contains(hash) && right.contains(hash) {
                let i = choose|i: int| 0 <= i < left.len() && left[i] == hash;
                let j = choose|j: int| 0 <= j < right.len() && right[j] == hash;
                assert(joined[i] == hash && joined[left.len() + j] == hash);
            }
        }
    }
}

/// The replay-protection records: the hashes of the transactions that
/// committed blocks have applied, and those that the block in progress has
/// applied and the next commit will add.
#[derive(Debug)]
pub struct ReplayRecords {
    pub committed: Vec<types::Hash>,
    pub pending: Vec<types::Hash>,
}

impl ReplayRecords {
    /// No hash is recorded twice: a transaction is applied at most once.
    pub open spec fn well_formed(&self) -> bool {
        (self.committed@ + self.pending@).no_duplicates()
    }

    /// Whether the hash is recorded, by a committed block or by the block
    /// in progress.
    pub open spec fn recorded(&self, hash: types::Hash) -> bool {
        self.committed@.contains(hash) || self.pending@.contains(hash)
    }

    /// Checks that no hash is recorded twice.
    pub fn is_well_formed(&self) -> (r: bool)
        ensures
            r == self.well_formed(),
    {
        proof {
            joined_without_duplicates(self.committed@, self.pending@);
        }
        all_distinct(&self.committed) && all_distinct(&self.pending) && disjoint(
            &self.committed,
            &self.pending,
        )
    }

    /// No transaction applied yet.
    pub fn new() -> (r: ReplayRecords)
        ensures
            r.well_formed(),
            r.committed@ == Seq::<types::Hash>::empty(),
            r.pending@ == Seq::<types::Hash>::empty(),
    {
        ReplayRecords { committed: Vec::new(), pending: Vec::new() }
    }

    /// Whether a committed block has applied the transaction with this hash.
    pub fn has_key(&self, hash: &types::Hash) -> (r: bool)
        ensures
            r == self.committed@.contains(*hash),
    {
        contains_hash(&self.committed, hash)
    }

    /// Records the hash among the committed ones, unless it is recorded
    /// already. Says whether it was new.
    pub fn write(&mut self, hash: types::Hash) -> (r: bool)
        requires
            old(self).well_formed(),
        ensures
            final(self).well_formed(),
            r == !old(self).recorded(hash),
            final(self).committed@ == if r {
                old(self).committed@.push(hash)
            } else {
                old(self).committed@
            },
            final(self).pending@ == old(self).pending@,
    {
        if contains_hash(&self.committed, &hash) || contains_hash(&self.pending, &hash) {
            return false;
        }
        let ghost before = self.committed@ + self.pending@;
        let ghost at = self.committed@.len() as int;
        self.committed.push(hash);
        proof {
            let after = self.committed@ + self.pending@;
            assert forall|i: int, j: int| 0 <= i < after.len() && 0 <= j < after.len() && i
                != j implies after[i] != after[j] by {
                let from = |k: int| if k < at { k } else { k - 1 };
                if i != at {
                    assert(after[i] == before[from(i)]);
                    assert(before.contains(after[i]));
                }
                if j != at {
                    assert(after[j] == before[from(j)]);
                    assert(before.contains(after[j]));
                }
                if i == at || j == at {
                    assert(after[at] == hash);
                    assert(!before.contains(hash)) by {
                        if before.contains(hash) {
                            let k = choose|k: int| 0 <= k < before.len() && before[k] == hash;
                            if k < at {
                                assert(old(self).committed@[k] == hash);
                            } else {
                                assert(old(self).pending@[k - at] == hash);
                            }
                        }
                    }
                }
            }
        }
        true
    }

    /// Records the hash for the block in progress, unless it is recorded
    /// already. Says whether it was new.
    pub fn write_pending(&mut self, hash: types::Hash) -> (r: bool)
        requires
            old(self).well_formed(),
        ensures
            final(self).well_formed(),
            r == !old(self).recorded(hash),
            final(self).committed@ == old(self).committed@,
            final(self).pending@ == if r {
                old(self).pending@.push(hash)
            } else {
                old(self).pending@
            },
    {
        if contains_hash(&self.committed, &hash) || contains_hash(&self.pending, &hash) {
            return false;
        }
        let ghost before = self.committed@ + self.pending@;
        self.pending.push(hash);
        proof {
            let after = self.committed@ + self.pending@;
            assert(after =~= before.push(hash));
            assert(!before.contains(hash)) by {
                if before.contains(hash) {
                    let k = choose|k: int| 0 <= k < before.len() && before[k] == hash;
                    if k < old(self).committed@.len() {
                        assert(old(self).committed@[k] == hash);
                    } else {
                        assert(old(self).pending@[k - old(self).committed@.len()] == hash);
                    }
                }
            }
            assert forall|i: int, j: int| 0 <= i < after.len() && 0 <= j < after.len() && i
                != j implies after[i] != after[j] by {
                if i < before.len() {
                    assert(before.contains(after[i]));
                }
                if j < before.len() {
                    assert(before.contains(after[j]));
                }
            }
        }
        true
    }

    /// Makes the records of the block in progress permanent.
    pub fn commit(&mut self)
        requires
            old(self).well_formed(),
        ensures
            final(self).well_formed(),
            final(self).committed@ == old(self).committed@ + old(self).pending@,
            final(self).pending@ == Seq::<types::Hash>::empty(),
    {
        let mut pending: Vec<types::Hash> = Vec::new();
        std::mem::swap(&mut pending, &mut self.pending);
        self.committed.append(&mut pending);
        assert(self.committed@ + self.pending@ =~= old(self).committed@ + old(self).pending@);
    }
}

/// The writes of a proposal under inspection. They lie over the committed
/// state, are seen by later checks of the same proposal, and are dropped
/// with the value: nothing here reaches the permanent records.
#[derive(Debug)]
pub struct TempWlStorage {
    pub write_log: Vec<types::Hash>,
}

impl TempWlStorage {
    /// An overlay without writes.
    pub fn new() -> (r: TempWlStorage)
        ensures
            r.write_log@ == Seq::<types::Hash>::empty(),
    {
        TempWlStorage { write_log: Vec::new() }
    }

    /// Whether the overlay or the committed records hold the hash.
    pub open spec fn holds(&self, records: &ReplayRecords, hash: types::Hash) -> bool {
        self.write_log@.contains(hash) || records.committed@.contains(hash)
    }

    /// Whether the overlay or the committed records hold the hash.
    pub fn has_key(&self, records: &ReplayRecords, hash: &types::Hash) -> (r: bool)
        ensures
            r == self.holds(records, *hash),
    {
        contains_hash(&self.write_log, hash) || records.has_key(hash)
    }

    /// Writes the hash into the overlay.
    pub fn write(&mut self, hash: types::Hash)
        ensures
            final(self).write_log@ == old(self).write_log@.push(hash),
    {
        self.write_log.push(hash);
    }
}

/// Which of a wrapper's two hashes has been seen before.
#[derive(Debug, Clone, Copy, PartialEq, Eq, Structural)]
pub enum Collision {
    Inner,
    Wrapper,
}

/// What the check of a wrapper against the overlay and the committed
/// records comes to. Both hashes are looked up in the overlay as it came,
/// the inner transaction's first; a hash that is there is a collision.
pub open spec fn replay_collision(
    records: &ReplayRecords,
    overlay: Seq<types::Hash>,
    tx: Tx,
) -> Option<Collision> {
    if overlay.contains(tx.raw_header_hash) || records.committed@.contains(tx.raw_header_hash) {
        Some(Collision::Inner)
    } else if overlay.contains(tx.header_hash) || records.committed@.contains(tx.header_hash) {
        Some(Collision::Wrapper)
    } else {
        None
    }
}

/// The overlay after the check: with both hashes written, the inner
/// transaction's first, where neither collided; as it came on a collision.
pub open spec fn overlay_after(records: &ReplayRecords, overlay: Seq<types::Hash>, tx: Tx) -> Seq<
    types::Hash,
> {
    match replay_collision(records, overlay, tx) {
        Some(_) => overlay,
        None => overlay.push(tx.raw_header_hash).push(tx.header_hash),
    }
}

/// The description of a replay attempt.
pub open spec fn collision_message(collision: Collision, tx: Tx) -> Seq<char> {
    match collision {
        Collision::Inner => "Inner transaction hash "@ + hex_upper(tx.raw_header_hash@)
            + " already in storage"@,
        Collision::Wrapper => "Wrapper transaction hash "@ + hex_upper(tx.header_hash@)
            + " already in storage"@,
    }
}

impl Shell {
    /// Checks that neither the wrapper nor the inner transaction have already
    /// been applied. Requires a [`TempWlStorage`] to perform the check during
    /// block construction and validation
    ///
    /// Where neither hash has been seen, both are written to the overlay;
    /// a failed check writes nothing. Nothing is ever written to the
    /// shell's own records.
    pub fn replay_protection_checks(&self, wrapper: &Tx, temp_wl_storage: &mut TempWlStorage) -> (r:
        Result<(), Error>)
        ensures
            final(temp_wl_storage).write_log@ == overlay_after(
                &self.storage.replay_protection,
                old(temp_wl_storage).write_log@,
                *wrapper,
            ),
            match replay_collision(
                &self.storage.replay_protection,
                old(temp_wl_storage).write_log@,
                *wrapper,
            ) {
                Some(collision) => r matches Err(Error::ReplayAttempt(message)) && message@
                    == collision_message(collision, *wrapper),
                None => r is Ok,
            },
    {
        let inner_tx_hash: types::Hash = wrapper.raw_header_hash;
        if temp_wl_storage.has_key(&self.storage.replay_protection, &inner_tx_hash) {
            let mut message = String::from_str("Inner transaction hash ");
            message.append(inner_tx_hash.to_string().as_str());
            message.append(" already in storage");
            return Err(Error::ReplayAttempt(message));
        }
        let wrapper_hash: types::Hash = wrapper.header_hash;
        if temp_wl_storage.has_key(&self.storage.replay_protection, &wrapper_hash) {
            let mut message = String::from_str("Wrapper transaction hash ");
            message.append(wrapper_hash.to_string().as_str());
            message.append(" already in storage");
            return Err(Error::ReplayAttempt(message));
        }
        // Write both hashes to WAL
        temp_wl_storage.write(inner_tx_hash);
        temp_wl_storage.write(wrapper_hash);
        Ok(())
    }
}

/// Within one proposal a transaction passes the check at most once: after
/// a check that found no collision, the same transaction collides with the
/// overlay that the check left. A check never takes a hash out of the
/// overlay, and a check that found a collision leaves the overlay as it
/// came.
pub proof fn checked_tx_collides_afterwards(
    records: &ReplayRecords,
    overlay: Seq<types::Hash>,
    tx: Tx,
)
    ensures
        replay_collision(records, overlay, tx) is None ==> replay_collision(
            records,
            overlay_after(records, overlay, tx),
            tx,
        ) == Some(Collision::Inner),
        forall|hash: types::Hash|
            overlay.contains(hash) ==> overlay_after(records, overlay, tx).contains(hash),
        replay_collision(records, overlay, tx) is Some ==> overlay_after(records, overlay, tx)
            == overlay,
{
    let after = overlay_after(records, overlay, tx);
    if replay_collision(records, overlay, tx) is None {
        assert(after[after.len() - 2] == tx.raw_header_hash);
    }
    assert forall|hash: types::Hash| overlay.contains(hash) implies after.contains(hash) by {
        let i = choose|i: int| 0 <= i < overlay.len() && overlay[i] == hash;
        assert(after[i] == hash);
    }
}

/// A collision with the committed records does not depend on the overlay:
/// a transaction whose inner hash or whose own hash has been committed is
/// refused under every overlay, and so in every later proposal.
pub proof fn committed_tx_always_collides(
    records: &ReplayRecords,
    overlay: Seq<types::Hash>,
    tx: Tx,
)
    requires
        records.committed@.contains(tx.raw_header_hash) || records.committed@.contains(
            tx.header_hash,
        ),
    ensures
        replay_collision(records, overlay, tx) is Some,
{
}

} // verus!
