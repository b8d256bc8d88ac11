//! The index from block heights to epochs.

use vstd::prelude::*;

verus! {

/// The index from block heights to epochs: the first epoch that is still
/// known, and the height at which it and each later epoch began.
#[derive(Debug)]
pub struct Epochs {
    pub first_known_epoch: u64,
    pub first_block_heights: Vec<u64>,
}

/// How many of the heights are at or below `height`.
pub open spec fn begun_by(heights: Seq<u64>, height: u64) -> nat
    decreases heights.len(),
{
    if heights.len() == 0 {
        0
    } else {
        begun_by(heights.drop_last(), height) + if heights.last() <= height {
            1nat
        } else {
            0nat
        }
    }
}

/// Each height is above the one before.
pub open spec fn ascending(heights: Seq<u64>) -> bool {
    forall|i: int, j: int| 0 <= i < j < heights.len() ==> heights[i] < heights[j]
}

/// In ascending heights, once `k` of them are at or below `height` and the
/// next is above it, no more than `k` are.
proof fn begun_by_prefix(heights: Seq<u64>, height: u64, k: int)
    requires
        ascending(heights),
        0 <= k <= heights.len(),
        forall|i: int| 0 <= i < k ==> heights[i] <= height,
        k < heights.len() ==> heights[k] > height,
    ensures
        begun_by(heights, height) == k,
    decreases heights.len(),
{
    if heights.len() > 0 {
        let rest = heights.drop_last();
        if k == heights.len() {
            begun_by_prefix(rest, height, k - 1);
        } else {
            assert(heights.last() > height) by {
                if k < heights.len() - 1 {
                    assert(heights[k] < heights[heights.len() - 1]);
                }
            }
            begun_by_prefix(rest, height, k);
        }
    }
}

impl Epochs {
    /// The heights ascend, and the number of the last epoch fits.
    pub open spec fn well_formed(&self) -> bool {
        &&& ascending(self.first_block_heights@)
        &&& self.first_known_epoch + self.first_block_heights@.len() <= u64::MAX
    }

    /// The epoch that the block at `height` belongs to: the last one that
    /// had begun by then. None before the first known epoch.
    pub open spec fn epoch_of(&self, height: u64) -> Option<u64> {
        let begun = begun_by(self.first_block_heights@, height);
        if begun == 0 {
            None
        } else {
            Some((self.first_known_epoch + begun - 1) as u64)
        }
    }

    /// Checks that the index is well formed.
    pub fn is_well_formed(&self) -> (r: bool)
        ensures
            r == self.well_formed(),
    {
        let n: usize = self.first_block_heights.len();
        if (self.first_known_epoch as u128) + (n as u128) > (u64::MAX as u128) {
            return false;
        }
        let mut i: usize = 1;
        while i < n
            invariant
                1 <= i,
                n == self.first_block_heights@.len(),
                forall|a: int, b: int|
                    0 <= a < b < i && b < n ==> self.first_block_heights@[a]
                        < self.first_block_heights@[b],
            decreases n - i,
        {
            if self.first_block_heights[i - 1] >= self.first_block_heights[i] {
                return false;
            }
            assert forall|a: int, b: int| 0 <= a < b < i + 1 && b < n implies self.first_block_heights@[a]
                < self.first_block_heights@[b] by {
                if b == i && a < i - 1 {
                    assert(self.first_block_heights@[a] < self.first_block_heights@[i - 1]);
                }
            }
            i += 1;
        }
        true
    }

    /// An index that knows of no epoch.
    pub fn new() -> (r: Epochs)
        ensures
            r.well_formed(),
            r.first_known_epoch == 0,
            r.first_block_heights@ == Seq::<u64>::empty(),
    {
        Epochs { first_known_epoch: 0, first_block_heights: Vec::new() }
    }

    /// Notes that a new epoch begins at `height`. Returns false, and changes
    /// nothing, where `height` is not above the heights already there or
    /// the epoch's number would not fit.
    pub fn new_epoch(&mut self, height: u64) -> (r: bool)
        requires
            old(self).well_formed(),
        ensures
            final(self).well_formed(),
            final(self).first_known_epoch == old(self).first_known_epoch,
            r == ((old(self).first_block_heights@.len() == 0
                || old(self).first_block_heights@.last() < height) && old(self).first_known_epoch
                + old(self).first_block_heights@.len() < u64::MAX),
            r ==> final(self).first_block_heights@ == old(self).first_block_heights@.push(height),
            !r ==> final(self).first_block_heights@ == old(self).first_block_heights@,
    {
        let n: usize = self.first_block_heights.len();
        if n > 0 && self.first_block_heights[n - 1] >= height {
            return false;
        }
        if self.first_known_epoch >= u64::MAX - (n as u64) {
            return false;
        }
        self.first_block_heights.push(height);
        true
    }

    /// Looks up the epoch of the block at `height`.
    pub fn get_epoch(&self, height: u64) -> (r: Option<u64>)
        requires
            self.well_formed(),
        ensures
            r == self.epoch_of(height),
    {
        let n: usize = self.first_block_heights.len();
        let mut i: usize = 0;
        while i < n && self.first_block_heights[i] <= height
            invariant
                n == self.first_block_heights@.len(),
                i <= n,
                forall|j: int| 0 <= j < i ==> self.first_block_heights@[j] <= height,
            decreases n - i,
        {
            i += 1;
        }
        proof {
            begun_by_prefix(self.first_block_heights@, height, i as int);
        }
        if i == 0 {
            None
        } else {
            Some(self.first_known_epoch + ((i - 1) as u64))
        }
    }
}

/// The count of heights at or below a height does not go down as the
/// height goes up.
proof fn begun_by_grows(heights: Seq<u64>, lower: u64, upper: u64)
    requires
        lower <= upper,
    ensures
        begun_by(heights, lower) <= begun_by(heights, upper),
    decreases heights.len(),
{
    if heights.len() > 0 {
        begun_by_grows(heights.drop_last(), lower, upper);
    }
}

/// Epochs follow heights: a later block belongs to the same epoch as an
/// earlier one or to a later epoch, and once a block belongs to a known
/// epoch so does every block after it.
pub proof fn epochs_follow_heights(epochs: Epochs, lower: u64, upper: u64)
    requires
        epochs.well_formed(),
        lower <= upper,
        epochs.epoch_of(lower) is Some,
    ensures
        epochs.epoch_of(upper) is Some,
        epochs.epoch_of(lower).unwrap() <= epochs.epoch_of(upper).unwrap(),
        epochs.first_known_epoch <= epochs.epoch_of(lower).unwrap(),
{
    begun_by_grows(epochs.first_block_heights@, lower, upper);
    begun_by_prefix_bound(epochs.first_block_heights@, upper);
    begun_by_prefix_bound(epochs.first_block_heights@, lower);
}

/// No more heights are at or below a height than there are heights.
proof fn begun_by_prefix_bound(heights: Seq<u64>, height: u64)
    ensures
        begun_by(heights, height) <= heights.len(),
    decreases heights.len(),
{
    if heights.len() > 0 {
        begun_by_prefix_bound(heights.drop_last(), height);
    }
}

} // verus!
