//! Rotation state: the persistent cursor over the archived collection.
//!
//! The state holds the index of the last successfully published item and an
//! era counter that counts full passes over the collection.  Advancing past
//! the final index wraps back to index 1 (index 0 is a seed row that is never
//! revisited) and increments the era.  Persistence of this state is the
//! caller's concern; the logic here is the single authority on how the cursor
//! moves.

use vstd::prelude::*;

verus! {

/// The persistent rotation cursor: `last_index` is the index of the last
/// item that was fully published, `era` counts completed passes over the
/// collection.
#[derive(Clone, Copy, PartialEq, Eq, Structural, Debug)]
pub struct RotationState {
    pub last_index: usize,
    pub era: usize,
}

impl RotationState {
    /// Builds a rotation state from a persisted index and era.
    pub fn new(last_index: usize, era: usize) -> (s: RotationState)
        ensures
            s.last_index == last_index,
            s.era == era,
    {
        RotationState { last_index, era }
    }

    /// The freshly seeded state: both the cursor and the era start at 1.
    pub fn initial() -> (s: RotationState)
        ensures
            s.last_index == 1,
            s.era == 1,
    {
        RotationState { last_index: 1, era: 1 }
    }

    /// The index of the next item to publish.  Returns `last_index + 1`
    /// unless the cursor sits on the final index of the collection, in which
    /// case the rotation wraps: the era is incremented and the next index is
    /// 1 (index 0 is deliberately skipped on every pass after the first).
    /// The cursor itself moves only via [`Self::save_tweet_index`], after a
    /// successful publish.
    pub fn get_next_index(&mut self, tweet_count: usize) -> (next: usize)
        requires
            old(self).last_index < tweet_count,
            old(self).era < usize::MAX,
        ensures
            final(self).last_index == old(self).last_index,
            old(self).last_index + 1 == tweet_count ==> next == 1
                && final(self).era == old(self).era + 1,
            old(self).last_index + 1 < tweet_count ==> next == old(self).last_index + 1
                && final(self).era == old(self).era,
            tweet_count >= 2 ==> next < tweet_count,
    {
        if self.last_index == tweet_count - 1 {
            self.era = self.era + 1;
            1
        } else {
            self.last_index + 1
        }
    }

    /// Records that the item at index `i` has been fully published.
    pub fn save_tweet_index(&mut self, i: usize)
        ensures
            final(self).last_index == i,
            final(self).era == old(self).era,
    {
        self.last_index = i;
    }

    /// Reads the era counter (the number of the current pass over the
    /// collection).
    pub fn get_year_index(&self) -> (era: usize)
        ensures
            era == self.era,
    {
        self.era
    }

    /// Overwrites the era counter.
    pub fn set_year_index(&mut self, era: usize)
        ensures
            final(self).era == era,
            final(self).last_index == old(self).last_index,
    {
        self.era = era;
    }
}

} // verus!
