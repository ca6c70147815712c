//! A fixed-size circular window of recent transfer rates and their average.
//!
//! Slots start at zero, so until `S` samples have been written the average is
//! biased low. That bias is kept on purpose: the average is always taken over
//! all `S` slots.

use crate::sums::{lemma_sum_bounds, spec_sum};
use vstd::prelude::*;

verus! {

/// The slots of a window after `values` have been written one by one,
/// starting from the slots `slots` with the cursor at `cursor`.
pub open spec fn fed(slots: Seq<usize>, cursor: int, values: Seq<usize>) -> Seq<usize>
    decreases values.len(),
{
    if values.len() == 0 {
        slots
    } else {
        fed(slots, cursor, values.drop_last()).update(
            (cursor + values.len() - 1) % (slots.len() as int),
            values.last(),
        )
    }
}

/// Writing never changes the number of slots.
pub proof fn lemma_fed_len(slots: Seq<usize>, cursor: int, values: Seq<usize>)
    requires
        slots.len() > 0,
        0 <= cursor,
    ensures
        fed(slots, cursor, values).len() == slots.len(),
    decreases values.len(),
{
    if values.len() > 0 {
        lemma_fed_len(slots, cursor, values.drop_last());
    }
}

/// Writing one more value is one `update` with the cursor that many steps on.
pub proof fn lemma_fed_step(slots: Seq<usize>, cursor: int, values: Seq<usize>, next: usize)
    ensures
        fed(slots, cursor, values.push(next)) == fed(slots, cursor, values).update(
            (cursor + values.len()) % (slots.len() as int),
            next,
        ),
{
    assert(values.push(next).drop_last() =~= values);
}

/// Two positions less than a ring's size apart fall on different slots.
proof fn lemma_distinct_slots(a: int, b: int, size: int)
    requires
        size > 0,
        0 <= a < b < a + size,
    ensures
        a % size != b % size,
{
    vstd::arithmetic::div_mod::lemma_fundamental_div_mod(a, size);
    vstd::arithmetic::div_mod::lemma_fundamental_div_mod(b, size);
    if a % size == b % size {
        let k = b / size - a / size;
        assert(b - a == size * k) by (nonlinear_arith)
            requires
                a == size * (a / size) + a % size,
                b == size * (b / size) + b % size,
                a % size == b % size,
                k == b / size - a / size,
        ;
        assert(false) by (nonlinear_arith)
            requires
                0 < size * k < size,
        ;
    }
}

/// A window holds the last values written to it: after `values` have been
/// written to a window of `S` slots, wherever its cursor started, each of the
/// last `S` values sits in the slot of its position modulo `S`. So where more
/// than `S` values are written the oldest are overwritten, and where exactly
/// `S` are written the window holds exactly those values.
pub proof fn lemma_window_holds_last(slots: Seq<usize>, cursor: int, values: Seq<usize>, i: int)
    requires
        slots.len() > 0,
        0 <= cursor,
        0 <= i < values.len(),
        values.len() - slots.len() <= i,
    ensures
        fed(slots, cursor, values)[(cursor + i) % (slots.len() as int)] == values[i],
    decreases values.len(),
{
    let size = slots.len() as int;
    let last = values.len() - 1;
    lemma_fed_len(slots, cursor, values.drop_last());
    if i < last {
        lemma_window_holds_last(slots, cursor, values.drop_last(), i);
        lemma_distinct_slots(cursor + i, cursor + last, size);
    }
}

/// Writing exactly `S` values into a fresh window leaves exactly those values
/// in its slots, so the average is their arithmetic mean.
pub proof fn lemma_full_window(slots: Seq<usize>, values: Seq<usize>)
    requires
        slots.len() > 0,
        values.len() == slots.len(),
    ensures
        fed(slots, 0, values) == values,
        spec_sum(fed(slots, 0, values)) / (slots.len() as int) == spec_sum(values) / (
        values.len() as int),
{
    lemma_fed_len(slots, 0, values);
    assert forall|i: int| 0 <= i < values.len() implies fed(slots, 0, values)[i] == values[i] by {
        lemma_window_holds_last(slots, 0, values, i);
        vstd::arithmetic::div_mod::lemma_small_mod(i as nat, slots.len());
    }
    assert(fed(slots, 0, values) =~= values);
}

/// The last `S` rates reported, in a ring of `S` slots.
pub struct RollingProgressWindow<const S: usize> {
    window: Vec<usize>,
    current: usize,
}

impl<const S: usize> RollingProgressWindow<S> {
    /// The ring has exactly `S` slots.
    pub open spec fn wf(&self) -> bool {
        self.slots().len() == S
    }

    /// The slots, by position in the ring.
    pub closed spec fn slots(&self) -> Seq<usize> {
        self.window@
    }

    /// How many updates have been made, modulo `usize::MAX + 1`.
    pub closed spec fn cursor(&self) -> usize {
        self.current
    }

    /// A window of `S` zeroed slots with the cursor at the first slot.
    pub fn new() -> (w: Self)
        ensures
            w.wf(),
            w.cursor() == 0,
            w.slots() == Seq::new(S as nat, |i: int| 0usize),
    {
        let mut window: Vec<usize> = Vec::new();
        let mut i: usize = 0;
        while i < S
            invariant
                i <= S,
                window@.len() == i,
                forall|j: int| 0 <= j < i ==> window@[j] == 0,
            decreases S - i,
        {
            window.push(0);
            i = i + 1;
        }
        assert(window@ =~= Seq::new(S as nat, |i: int| 0usize));
        RollingProgressWindow { window, current: 0 }
    }

    /// Overwrites the slot under the cursor and advances the cursor by one,
    /// wrapping at the end of `usize` as an atomic counter does.
    pub fn update(&mut self, kilobytes_per_second: usize)
        requires
            old(self).wf(),
            S > 0,
        ensures
            final(self).wf(),
            final(self).slots() == old(self).slots().update(
                old(self).cursor() as int % S as int,
                kilobytes_per_second,
            ),
            final(self).cursor() == if old(self).cursor() == usize::MAX {
                0usize
            } else {
                (old(self).cursor() + 1) as usize
            },
    {
        let index = self.current;
        self.current = if index == usize::MAX {
            0
        } else {
            index + 1
        };
        self.window.set(index % S, kilobytes_per_second);
    }

    /// The value held by slot `index`.
    pub fn get(&self, index: usize) -> (v: usize)
        requires
            self.wf(),
            index < S,
        ensures
            v == self.slots()[index as int],
    {
        self.window[index]
    }

    /// The sum of all `S` slots divided by `S`, rounded down.
    pub fn get_average(&self) -> (avg: usize)
        requires
            self.wf(),
            S > 0,
        ensures
            avg == spec_sum(self.slots()) / S as int,
    {
        let mut total: u128 = 0;
        let mut i: usize = 0;
        while i < S
            invariant
                i <= S,
                self.window@.len() == S,
                total == spec_sum(self.window@.subrange(0, i as int)),
                total <= i * usize::MAX,
            decreases S - i,
        {
            proof {
                let next = self.window@.subrange(0, i + 1);
                assert(next.drop_last() =~= self.window@.subrange(0, i as int));
                assert((i + 1) * usize::MAX == i * usize::MAX + usize::MAX) by (nonlinear_arith);
                assert(i * usize::MAX <= usize::MAX * usize::MAX) by (nonlinear_arith)
                    requires
                        i <= usize::MAX,
                ;
            }
            total = total + self.window[i] as u128;
            i = i + 1;
        }
        proof {
            assert(self.window@.subrange(0, S as int) =~= self.window@);
            lemma_sum_bounds(self.window@);
            assert(spec_sum(self.window@) / S as int <= usize::MAX) by (nonlinear_arith)
                requires
                    S > 0,
                    0 <= spec_sum(self.window@) <= S * usize::MAX,
            ;
        }
        (total / S as u128) as usize
    }
}

} // verus!
