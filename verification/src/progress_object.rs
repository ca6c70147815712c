//! Per-chunk byte counters and the overall progress they add up to.
//!
//! This is the arithmetic of the tracker. A caller that shares counters
//! between threads keeps them in atomic cells of its own and applies the same
//! updates there; nothing here blocks or locks.

use crate::sums::{lemma_sum_bounds, lemma_sum_constant, lemma_sum_update, spec_sum};
use vstd::prelude::*;

verus! {

/// What a transfer asks to be done to its chunk's counter.
#[derive(Debug, Clone, Copy, PartialEq, Eq, Structural)]
pub enum ProgressUpdate {
    /// Leave the counter as it is.
    Keep,
    /// Count this many more bytes.
    Add(usize),
    /// Replace the count.
    Replace(usize),
}

impl ProgressUpdate {
    /// The counter after the update; an addition stops at `usize::MAX`.
    pub open spec fn apply(self, before: usize) -> usize {
        match self {
            ProgressUpdate::Keep => before,
            ProgressUpdate::Add(amount) => if before + amount > usize::MAX {
                usize::MAX
            } else {
                (before + amount) as usize
            },
            ProgressUpdate::Replace(amount) => amount,
        }
    }

    /// The counter after the update.
    pub fn apply_to(self, before: usize) -> (after: usize)
        ensures
            after == self.apply(before),
            self is Add ==> after >= before,
    {
        match self {
            ProgressUpdate::Keep => before,
            ProgressUpdate::Add(amount) => before.saturating_add(amount),
            ProgressUpdate::Replace(amount) => amount,
        }
    }
}

/// The right to update the counter of one chunk, and of no other.
#[derive(Debug, Clone, Copy)]
pub struct ProgressHandle {
    index: usize,
}

impl ProgressHandle {
    /// The chunk whose counter this handle updates.
    pub closed spec fn chunk(&self) -> usize {
        self.index
    }

    /// The chunk whose counter this handle updates.
    pub fn index(&self) -> (i: usize)
        ensures
            i == self.chunk(),
    {
        self.index
    }

    /// Counts `amount` more bytes for this handle's chunk; no other counter changes.
    pub fn add(&self, progress: &mut ProgressObject, amount: usize)
        requires
            self.chunk() < old(progress).counters().len(),
        ensures
            final(progress).counters() == old(progress).counters().update(
                self.chunk() as int,
                ProgressUpdate::Add(amount).apply(old(progress).counters()[self.chunk() as int]),
            ),
            final(progress).max() == old(progress).max(),
            final(progress).start() == old(progress).start(),
            final(progress).current_bytes() >= old(progress).current_bytes(),
    {
        progress.apply(self.index, ProgressUpdate::Add(amount));
    }

    /// Replaces the count of this handle's chunk; no other counter changes.
    pub fn set(&self, progress: &mut ProgressObject, amount: usize)
        requires
            self.chunk() < old(progress).counters().len(),
        ensures
            final(progress).counters() == old(progress).counters().update(
                self.chunk() as int,
                amount,
            ),
            final(progress).max() == old(progress).max(),
            final(progress).start() == old(progress).start(),
    {
        progress.apply(self.index, ProgressUpdate::Replace(amount));
    }
}

/// Overall progress of one agent: the byte total to reach, one counter per
/// chunk, and when the run started.
#[derive(Debug, Clone)]
pub struct ProgressObject {
    max: usize,
    progress_instances: Vec<usize>,
    start: u64,
}

impl ProgressObject {
    /// The byte total to reach; zero until the bounds are set.
    pub closed spec fn max(&self) -> usize {
        self.max
    }

    /// The bytes counted so far for each chunk.
    pub closed spec fn counters(&self) -> Seq<usize> {
        self.progress_instances@
    }

    /// When the run started, in milliseconds on the caller's clock.
    pub closed spec fn start(&self) -> u64 {
        self.start
    }

    /// The bytes counted so far over all chunks.
    pub open spec fn current_bytes(&self) -> int {
        spec_sum(self.counters())
    }

    /// A tracker for `length` chunks and `max` bytes, with every counter at zero.
    pub fn new(max: usize, length: usize) -> (progress: Self)
        ensures
            progress.max() == max,
            progress.counters() == Seq::new(length as nat, |i: int| 0usize),
            progress.start() == 0,
            progress.current_bytes() == 0,
    {
        let progress_instances = zeroed(length);
        proof {
            lemma_sum_constant(progress_instances@, 0);
        }
        ProgressObject { max, progress_instances, start: 0 }
    }

    /// The byte total to reach.
    pub fn get_max(&self) -> (max: usize)
        ensures
            max == self.max(),
    {
        self.max
    }

    /// The number of chunks tracked.
    pub fn get_size(&self) -> (length: usize)
        ensures
            length == self.counters().len(),
    {
        self.progress_instances.len()
    }

    /// Sets the byte total, unless one is already set: then nothing changes.
    pub fn set_max(&mut self, new_max: usize)
        ensures
            final(self).max() == if old(self).max() != 0 {
                old(self).max()
            } else {
                new_max
            },
            final(self).counters() == old(self).counters(),
            final(self).start() == old(self).start(),
    {
        if self.max == 0 {
            self.max = new_max;
        }
    }

    /// Starts over with `length` zeroed counters, unless a byte total is
    /// already set: then nothing changes.
    pub fn set_size(&mut self, length: usize)
        ensures
            final(self).counters() == if old(self).max() != 0 {
                old(self).counters()
            } else {
                Seq::new(length as nat, |i: int| 0usize)
            },
            final(self).max() == old(self).max(),
            final(self).start() == old(self).start(),
    {
        if self.max == 0 {
            self.progress_instances = zeroed(length);
        }
    }

    /// Records `now` as the start of the run.
    pub fn set_time_now(&mut self, now: u64)
        ensures
            final(self).start() == now,
            final(self).max() == old(self).max(),
            final(self).counters() == old(self).counters(),
    {
        self.start = now;
    }

    /// Milliseconds from the start of the run to `now`; zero where the clock
    /// went backwards.
    pub fn elapsed(&self, now: u64) -> (elapsed: u64)
        ensures
            elapsed == if now >= self.start() {
                now - self.start()
            } else {
                0
            },
    {
        now.saturating_sub(self.start)
    }

    /// The handle for chunk `index`.
    pub fn get(&self, index: usize) -> (handle: ProgressHandle)
        ensures
            handle.chunk() == index,
    {
        ProgressHandle { index }
    }

    /// The bytes counted so far for chunk `index`.
    pub fn get_count(&self, index: usize) -> (count: usize)
        requires
            index < self.counters().len(),
        ensures
            count == self.counters()[index as int],
    {
        self.progress_instances[index]
    }

    /// Applies `update` to the counter of chunk `index`; no other counter changes.
    pub fn apply(&mut self, index: usize, update: ProgressUpdate)
        requires
            index < old(self).counters().len(),
        ensures
            final(self).counters() == old(self).counters().update(
                index as int,
                update.apply(old(self).counters()[index as int]),
            ),
            final(self).max() == old(self).max(),
            final(self).start() == old(self).start(),
            update is Add ==> final(self).current_bytes() >= old(self).current_bytes(),
            update is Keep ==> final(self).counters() == old(self).counters(),
    {
        let before = self.progress_instances[index];
        let after = update.apply_to(before);
        proof {
            lemma_sum_update(self.progress_instances@, index as int, after);
            if update is Keep {
                assert(self.progress_instances@.update(index as int, after)
                    =~= self.progress_instances@);
            }
        }
        self.progress_instances.set(index, after);
    }

    /// The bytes counted so far over all chunks, or `usize::MAX` where the
    /// total is larger than that.
    pub fn sum(&self) -> (total: usize)
        ensures
            total == if self.current_bytes() > usize::MAX {
                usize::MAX as int
            } else {
                self.current_bytes()
            },
    {
        let mut total: usize = 0;
        let mut i: usize = 0;
        let n = self.progress_instances.len();
        proof {
            assert(self.progress_instances@.subrange(0, 0).len() == 0);
        }
        while i < n
            invariant
                i <= n,
                n == self.progress_instances@.len(),
                total == if spec_sum(self.progress_instances@.subrange(0, i as int))
                    > usize::MAX {
                    usize::MAX as int
                } else {
                    spec_sum(self.progress_instances@.subrange(0, i as int))
                },
            decreases n - i,
        {
            proof {
                let next = self.progress_instances@.subrange(0, i + 1);
                assert(next.drop_last() =~= self.progress_instances@.subrange(0, i as int));
                lemma_sum_bounds(self.progress_instances@.subrange(0, i as int));
            }
            total = total.saturating_add(self.progress_instances[i]);
            i = i + 1;
        }
        assert(self.progress_instances@.subrange(0, n as int) =~= self.progress_instances@);
        total
    }

    /// Progress as a fraction: the first number over the second. The first is
    /// never larger than the second, so the fraction lies between zero and
    /// one; where no byte total is set the second is zero and so is the first.
    pub fn get_progress(&self) -> (fraction: (usize, usize))
        ensures
            fraction.1 == self.max(),
            fraction.0 <= fraction.1,
            fraction.0 == if self.current_bytes() > self.max() {
                self.max() as int
            } else {
                self.current_bytes()
            },
    {
        proof {
            lemma_sum_bounds(self.counters());
        }
        let current = self.sum();
        if current > self.max {
            (self.max, self.max)
        } else {
            (current, self.max)
        }
    }
}

/// `length` zeroes.
fn zeroed(length: usize) -> (counters: Vec<usize>)
    ensures
        counters@ == Seq::new(length as nat, |i: int| 0usize),
{
    let mut counters: Vec<usize> = Vec::new();
    let mut i: usize = 0;
    while i < length
        invariant
            i <= length,
            counters@.len() == i,
            forall|j: int| 0 <= j < i ==> counters@[j] == 0,
        decreases length - i,
    {
        counters.push(0);
        i = i + 1;
    }
    assert(counters@ =~= Seq::new(length as nat, |i: int| 0usize));
    counters
}

} // verus!
