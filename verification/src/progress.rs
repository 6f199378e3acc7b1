//! Progress of loading work, shown while assets load.

use vstd::prelude::*;

verus! {

/// How much of some work is done, out of a total that is never exceeded.
pub struct Progress {
    current: usize,
    max: usize,
}

/// `current + amount`, capped at `max`.
pub open spec fn capped_add(current: int, amount: int, max: int) -> int {
    if current + amount <= max {
        current + amount
    } else {
        max
    }
}

/// Sum of the work done over a sequence of progresses.
pub open spec fn sum_done(items: Seq<Progress>) -> int
    decreases items.len(),
{
    if items.len() == 0 {
        0
    } else {
        sum_done(items.drop_last()) + items.last().done()
    }
}

/// Sum of the totals over a sequence of progresses.
pub open spec fn sum_total(items: Seq<Progress>) -> int
    decreases items.len(),
{
    if items.len() == 0 {
        0
    } else {
        sum_total(items.drop_last()) + items.last().total()
    }
}

impl Progress {
    #[verifier::type_invariant]
    spec fn within_total(self) -> bool {
        self.current <= self.max
    }

    /// The work done.
    pub closed spec fn done(self) -> int {
        self.current as int
    }

    /// The total amount of work.
    pub closed spec fn total(self) -> int {
        self.max as int
    }

    /// Progress starting at `min` out of `max`; `min` may not exceed `max`.
    pub fn new(min: usize, max: usize) -> (p: Progress)
        requires
            min <= max,
        ensures
            p.done() == min,
            p.total() == max,
    {
        Progress { current: min, max }
    }

    /// Records `progress` more units of work, never going past the total.
    pub fn add(&mut self, progress: usize)
        ensures
            final(self).done() == capped_add(old(self).done(), progress as int, old(self).total()),
            final(self).total() == old(self).total(),
    {
        proof {
            use_type_invariant(&*self);
        }
        let sum = self.current.saturating_add(progress);
        self.current = if sum < self.max {
            sum
        } else {
            self.max
        };
    }

    pub fn max(&self) -> (m: usize)
        ensures
            m == self.total(),
    {
        self.max
    }

    pub fn get(&self) -> (c: usize)
        ensures
            c == self.done(),
    {
        self.current
    }

    pub fn is_finished(&self) -> (r: bool)
        ensures
            r == (self.done() == self.total()),
    {
        proof {
            use_type_invariant(self);
        }
        self.current >= self.max
    }

    /// The combined progress of several pieces of work; the totals must fit in a `usize`.
    pub fn sum(items: &[Progress]) -> (p: Progress)
        requires
            sum_total(items@) <= usize::MAX,
        ensures
            p.done() == sum_done(items@),
            p.total() == sum_total(items@),
    {
        let mut sum = Progress { current: 0, max: 0 };
        let mut i: usize = 0;
        while i < items.len()
            invariant
                i <= items@.len(),
                sum.done() == sum_done(items@.take(i as int)),
                sum.total() == sum_total(items@.take(i as int)),
                sum_total(items@) <= usize::MAX,
            decreases items@.len() - i,
        {
            proof {
                assert(items@.take(i + 1).drop_last() =~= items@.take(i as int));
                lemma_sum_prefix_bounded(items@, i + 1);
            }
            let item = &items[i];
            proof {
                use_type_invariant(item);
                use_type_invariant(&sum);
            }
            sum = Progress { current: sum.current + item.current, max: sum.max + item.max };
            i = i + 1;
        }
        proof {
            assert(items@.take(items@.len() as int) =~= items@);
        }
        sum
    }
}

impl Default for Progress {
    fn default() -> (p: Progress)
        ensures
            p.done() == 0,
            p.total() == 100,
    {
        Progress::new(0, 100)
    }
}

/// The totals of a prefix add up to at most the totals of the whole sequence.
pub proof fn lemma_sum_prefix_bounded(items: Seq<Progress>, n: int)
    requires
        0 <= n <= items.len(),
    ensures
        sum_total(items.take(n)) <= sum_total(items),
    decreases items.len() - n,
{
    if n < items.len() {
        lemma_sum_prefix_bounded(items, n + 1);
        assert(items.take(n + 1).drop_last() =~= items.take(n));
    } else {
        assert(items.take(n) =~= items);
    }
}

/// Adding work in two steps is the same as adding it at once.
pub proof fn lemma_add_composes(current: int, a: int, b: int, max: int)
    requires
        0 <= current <= max,
        0 <= a,
        0 <= b,
    ensures
        capped_add(capped_add(current, a, max), b, max) == capped_add(current, a + b, max),
        capped_add(current, a, max) <= max,
{
}

/// Combined progress is finished exactly when every piece of it is finished.
pub proof fn lemma_sum_finished_iff_all_finished(items: Seq<Progress>)
    requires
        forall|i: int| 0 <= i < items.len() ==> #[trigger] items[i].done() <= items[i].total(),
    ensures
        sum_done(items) <= sum_total(items),
        (sum_done(items) == sum_total(items)) <==> (forall|i: int|
            0 <= i < items.len() ==> #[trigger] items[i].done() == items[i].total()),
    decreases items.len(),
{
    if items.len() > 0 {
        let rest = items.drop_last();
        assert forall|i: int| 0 <= i < rest.len() implies #[trigger] rest[i].done() <= rest[i].total() by {
            assert(rest[i] == items[i]);
        }
        lemma_sum_finished_iff_all_finished(rest);
        assert(items.last() == items[items.len() - 1]);
        if sum_done(items) == sum_total(items) {
            assert forall|i: int| 0 <= i < items.len() implies #[trigger] items[i].done() == items[i].total() by {
                if i < items.len() - 1 {
                    assert(rest[i] == items[i]);
                }
            }
        }
        if forall|i: int| 0 <= i < items.len() ==> #[trigger] items[i].done() == items[i].total() {
            assert forall|i: int| 0 <= i < rest.len() implies #[trigger] rest[i].done() == rest[i].total() by {
                assert(rest[i] == items[i]);
            }
        }
    }
}

impl core::ops::AddAssign<usize> for Progress {
    fn add_assign(&mut self, rhs: usize)
        ensures
            final(self).done() == capped_add(old(self).done(), rhs as int, old(self).total()),
            final(self).total() == old(self).total(),
    {
        self.add(rhs);
    }
}

impl<'a> core::ops::Add<&'a Progress> for &'a Progress {
    type Output = Progress;

    fn add(self, rhs: &'a Progress) -> (p: Progress)
        ensures
            p.done() == self.done() + rhs.done(),
            p.total() == self.total() + rhs.total(),
    {
        proof {
            use_type_invariant(self);
            use_type_invariant(rhs);
        }
        Progress { current: self.current + rhs.current, max: self.max + rhs.max }
    }
}

impl<'a> vstd::std_specs::ops::AddSpecImpl<&'a Progress> for &'a Progress {
    open spec fn obeys_add_spec() -> bool {
        true
    }

    open spec fn add_req(self, rhs: &'a Progress) -> bool {
        self.total() + rhs.total() <= usize::MAX
    }

    closed spec fn add_spec(self, rhs: &'a Progress) -> Progress {
        Progress { current: (self.current + rhs.current) as usize, max: (self.max + rhs.max) as usize }
    }
}

impl<'a> core::ops::AddAssign<&'a Progress> for Progress {
    /// Adds another progress into this one; sums beyond `usize::MAX` stay at `usize::MAX`.
    fn add_assign(&mut self, rhs: &'a Progress)
        ensures
            final(self).done() == capped_add(old(self).done(), rhs.done(), usize::MAX as int),
            final(self).total() == capped_add(old(self).total(), rhs.total(), usize::MAX as int),
    {
        proof {
            use_type_invariant(&*self);
            use_type_invariant(rhs);
        }
        let current = self.current.saturating_add(rhs.current);
        let max = self.max.saturating_add(rhs.max);
        *self = Progress { current, max };
    }
}

} // verus!
