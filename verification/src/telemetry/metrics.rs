//! Counters and gauges.
//!
//! Updates wrap around at the bounds of the value type, as atomic additions do.

use vstd::prelude::*;
use crate::telemetry::meta::Subsystem;

verus! {

/// Monotonically increasing counter of events (requests, errors, bytes).
#[derive(Debug)]
pub struct Counter {
    /// Metric name.
    pub name: &'static str,
    /// Originating subsystem.
    pub subsystem: Subsystem,
    /// Current value (read it with `get`).
    pub value: u64,
}

impl Counter {
    /// The current value.
    pub open spec fn value(&self) -> u64 {
        self.value
    }

    /// The metric's name.
    pub open spec fn metric_name(&self) -> &'static str {
        self.name
    }

    /// The metric's subsystem.
    pub open spec fn metric_subsystem(&self) -> Subsystem {
        self.subsystem
    }

    /// Creates a counter at zero.
    pub fn new(name: &'static str, subsystem: Subsystem) -> (c: Counter)
        ensures
            c.metric_name() == name,
            c.metric_subsystem() == subsystem,
            c.name == name,
            c.subsystem == subsystem,
            c.value() == 0,
    {
        Counter { name, subsystem, value: 0 }
    }

    /// Increments the counter by 1.
    pub fn inc(&mut self)
        ensures
            final(self).value() == old(self).value().wrapping_add(1),
            final(self).metric_name() == old(self).metric_name(),
            final(self).metric_subsystem() == old(self).metric_subsystem(),
    {
        self.value = self.value.wrapping_add(1);
    }

    /// Adds a value to the counter.
    pub fn add(&mut self, n: u64)
        ensures
            final(self).value() == old(self).value().wrapping_add(n),
            final(self).metric_name() == old(self).metric_name(),
            final(self).metric_subsystem() == old(self).metric_subsystem(),
    {
        self.value = self.value.wrapping_add(n);
    }

    /// Gets the current value.
    pub fn get(&self) -> (v: u64)
        ensures
            v == self.value(),
    {
        self.value
    }

    /// Resets the counter to zero.
    pub fn reset(&mut self)
        ensures
            final(self).value() == 0,
            final(self).metric_name() == old(self).metric_name(),
            final(self).metric_subsystem() == old(self).metric_subsystem(),
    {
        self.value = 0;
    }
}

/// Gauge: a value that goes up and down (memory in use, open connections).
#[derive(Debug)]
pub struct Gauge {
    /// Metric name.
    pub name: &'static str,
    /// Originating subsystem.
    pub subsystem: Subsystem,
    /// Current value (read it with `get`).
    pub value: i64,
}

impl Gauge {
    /// The current value.
    pub open spec fn value(&self) -> i64 {
        self.value
    }

    /// The metric's name.
    pub open spec fn metric_name(&self) -> &'static str {
        self.name
    }

    /// The metric's subsystem.
    pub open spec fn metric_subsystem(&self) -> Subsystem {
        self.subsystem
    }

    /// Creates a gauge at zero.
    pub fn new(name: &'static str, subsystem: Subsystem) -> (g: Gauge)
        ensures
            g.metric_name() == name,
            g.metric_subsystem() == subsystem,
            g.name == name,
            g.subsystem == subsystem,
            g.value() == 0,
    {
        Gauge { name, subsystem, value: 0 }
    }

    /// Sets the gauge to a specific value.
    pub fn set(&mut self, v: i64)
        ensures
            final(self).value() == v,
            final(self).metric_name() == old(self).metric_name(),
            final(self).metric_subsystem() == old(self).metric_subsystem(),
    {
        self.value = v;
    }

    /// Increments the gauge by 1.
    pub fn inc(&mut self)
        ensures
            final(self).value() == old(self).value().wrapping_add(1),
            final(self).metric_name() == old(self).metric_name(),
            final(self).metric_subsystem() == old(self).metric_subsystem(),
    {
        self.value = self.value.wrapping_add(1);
    }

    /// Decrements the gauge by 1.
    pub fn dec(&mut self)
        ensures
            final(self).value() == old(self).value().wrapping_sub(1),
            final(self).metric_name() == old(self).metric_name(),
            final(self).metric_subsystem() == old(self).metric_subsystem(),
    {
        self.value = self.value.wrapping_sub(1);
    }

    /// Adds a value to the gauge.
    pub fn add(&mut self, n: i64)
        ensures
            final(self).value() == old(self).value().wrapping_add(n),
            final(self).metric_name() == old(self).metric_name(),
            final(self).metric_subsystem() == old(self).metric_subsystem(),
    {
        self.value = self.value.wrapping_add(n);
    }

    /// Subtracts a value from the gauge.
    pub fn sub(&mut self, n: i64)
        ensures
            final(self).value() == old(self).value().wrapping_sub(n),
            final(self).metric_name() == old(self).metric_name(),
            final(self).metric_subsystem() == old(self).metric_subsystem(),
    {
        self.value = self.value.wrapping_sub(n);
    }

    /// Gets the current value.
    pub fn get(&self) -> (v: i64)
        ensures
            v == self.value(),
    {
        self.value
    }
}

/// Incrementing then decrementing a gauge leaves it where it was, and so does adding
/// then subtracting the same amount (wrapping arithmetic).
pub proof fn law_gauge_add_sub_cancel(v: i64, n: i64)
    ensures
        v.wrapping_add(n).wrapping_sub(n) == v,
        v.wrapping_add(1).wrapping_sub(1) == v,
{
}

/// Counting adds up: adding `a` then `b` to a counter (without wrapping) is adding `a + b`.
pub proof fn law_counter_adds_up(v: u64, a: u64, b: u64)
    requires
        v + a + b <= u64::MAX,
    ensures
        v.wrapping_add(a).wrapping_add(b) == v + a + b,
{
}


/// The running totals of a sequence: element `i` is the sum of the first `i + 1`
/// elements.
pub open spec fn prefix_sums(s: Seq<u64>) -> Seq<int>
    decreases s.len(),
{
    if s.len() == 0 {
        Seq::empty()
    } else {
        let before = prefix_sums(s.drop_last());
        before.push((if before.len() == 0 { 0 } else { before.last() }) + s.last())
    }
}

/// The sum of a sequence.
pub open spec fn total(s: Seq<u64>) -> int
    decreases s.len(),
{
    if s.len() == 0 {
        0
    } else {
        total(s.drop_last()) + s.last()
    }
}

proof fn lemma_prefix_sums_last(s: Seq<u64>)
    ensures
        prefix_sums(s).len() == s.len(),
        s.len() > 0 ==> prefix_sums(s).last() == total(s),
    decreases s.len(),
{
    if s.len() > 0 {
        lemma_prefix_sums_last(s.drop_last());
        let before = prefix_sums(s.drop_last());
        let v = (if before.len() == 0 { 0 } else { before.last() }) + s.last();
        assert(prefix_sums(s) == before.push(v));
        assert(before.len() == 0 ==> total(s.drop_last()) == 0);
        assert(prefix_sums(s).last() == v);
    }
}

proof fn lemma_total_monotone(s: Seq<u64>, i: int)
    requires
        0 <= i <= s.len(),
    ensures
        total(s.take(i)) <= total(s),
    decreases s.len(),
{
    if i < s.len() {
        assert(s.drop_last().take(i) =~= s.take(i));
        lemma_total_monotone(s.drop_last(), i);
    } else {
        assert(s.take(i) =~= s);
    }
}

/// The integer state of a histogram: how many values fell in each bucket (each
/// value counts in the first bucket whose boundary it does not exceed, if any),
/// their number and their sum. Updates wrap as atomic additions do.
#[derive(Debug)]
pub struct HistogramCounts {
    counts: Vec<u64>,
    sum: u64,
    count: u64,
}

impl HistogramCounts {
    /// The per-bucket counts.
    pub closed spec fn bucket_counts(&self) -> Seq<u64> {
        self.counts@
    }

    /// The sum of the recorded values.
    pub closed spec fn value_sum(&self) -> u64 {
        self.sum
    }

    /// The number of recorded values.
    pub closed spec fn value_count(&self) -> u64 {
        self.count
    }

    /// Counts for `buckets` buckets, all zero.
    pub fn new(buckets: usize) -> (h: HistogramCounts)
        ensures
            h.bucket_counts() == Seq::new(buckets as nat, |i: int| 0u64),
            h.value_sum() == 0,
            h.value_count() == 0,
    {
        let mut counts: Vec<u64> = Vec::new();
        let mut i: usize = 0;
        while i < buckets
            invariant
                i <= buckets,
                counts@ == Seq::new(i as nat, |k: int| 0u64),
            decreases buckets - i,
        {
            counts.push(0);
            proof {
                assert(counts@ =~= Seq::new((i + 1) as nat, |k: int| 0u64));
            }
            i = i + 1;
        }
        HistogramCounts { counts, sum: 0, count: 0 }
    }

    /// Records a value that fell in `bucket` (`None`: above every boundary).
    pub fn record(&mut self, value: u64, bucket: Option<usize>)
        ensures
            final(self).value_count() == old(self).value_count().wrapping_add(1),
            final(self).value_sum() == old(self).value_sum().wrapping_add(value),
            final(self).bucket_counts() == match bucket {
                Some(i) => if i < old(self).bucket_counts().len() {
                    old(self).bucket_counts().update(i as int, old(self).bucket_counts()[i as int].wrapping_add(1))
                } else {
                    old(self).bucket_counts()
                },
                None => old(self).bucket_counts(),
            },
    {
        self.count = self.count.wrapping_add(1);
        self.sum = self.sum.wrapping_add(value);
        match bucket {
            Some(i) => {
                if i < self.counts.len() {
                    let c = self.counts[i];
                    self.counts.set(i, c.wrapping_add(1));
                }
            },
            None => {},
        }
    }

    /// The cumulative bucket counts: entry `i` counts the values in buckets `0..=i`.
    pub fn cumulative(&self) -> (r: Vec<u64>)
        requires
            total(self.bucket_counts()) <= u64::MAX,
        ensures
            r@.len() == self.bucket_counts().len(),
            forall|i: int| 0 <= i < r@.len() ==> r@[i] == #[trigger] prefix_sums(self.bucket_counts())[i],
    {
        let mut out: Vec<u64> = Vec::new();
        let mut acc: u64 = 0;
        let n = self.counts.len();
        let ghost s = self.counts@;
        let mut i: usize = 0;
        while i < n
            invariant
                n == s.len(),
                s == self.counts@,
                total(s) <= u64::MAX,
                i <= n,
                acc == total(s.take(i as int)),
                out@.len() == i,
                forall|k: int| 0 <= k < i ==> out@[k] == #[trigger] prefix_sums(s.take(i as int))[k],
            decreases n - i,
        {
            proof {
                assert(s.take(i + 1).drop_last() =~= s.take(i as int));
                lemma_total_monotone(s, i + 1);
                lemma_prefix_sums_last(s.take(i as int));
            }
            acc = acc + self.counts[i];
            out.push(acc);
            proof {
                lemma_prefix_sums_last(s.take(i + 1));
                assert forall|k: int| 0 <= k < i + 1 implies out@[k] == #[trigger] prefix_sums(s.take(i + 1))[k] by {
                    if k < i {
                        assert(prefix_sums(s.take(i + 1))[k] == prefix_sums(s.take(i as int))[k]);
                    }
                }
            }
            i = i + 1;
        }
        proof {
            assert(s.take(n as int) =~= s);
        }
        out
    }

    /// Whether the cumulative counts fit in `u64` (their total does).
    pub fn cumulative_fits(&self) -> (r: bool)
        ensures
            r == (total(self.bucket_counts()) <= u64::MAX),
    {
        let n = self.counts.len();
        let ghost s = self.counts@;
        let mut acc: u64 = 0;
        let mut i: usize = 0;
        while i < n
            invariant
                n == s.len(),
                s == self.counts@,
                i <= n,
                acc == total(s.take(i as int)),
            decreases n - i,
        {
            proof {
                assert(s.take(i + 1).drop_last() =~= s.take(i as int));
            }
            match acc.checked_add(self.counts[i]) {
                Some(v) => {
                    acc = v;
                },
                None => {
                    proof {
                        lemma_total_monotone(s, i + 1);
                    }
                    return false;
                },
            }
            i = i + 1;
        }
        proof {
            assert(s.take(n as int) =~= s);
        }
        true
    }

    /// Resets the counts, the sum and the number of values to zero.
    pub fn reset(&mut self)
        ensures
            final(self).bucket_counts() == Seq::new(old(self).bucket_counts().len(), |i: int| 0u64),
            final(self).value_sum() == 0,
            final(self).value_count() == 0,
    {
        let n = self.counts.len();
        *self = HistogramCounts::new(n);
    }

    /// The sum of the recorded values.
    pub fn sum(&self) -> (v: u64)
        ensures
            v == self.value_sum(),
    {
        self.sum
    }

    /// The number of recorded values.
    pub fn count(&self) -> (v: u64)
        ensures
            v == self.value_count(),
    {
        self.count
    }
}

/// The cumulative counts never decrease from one bucket to the next, and the
/// last one counts every value that fell in some bucket.
pub proof fn law_cumulative_counts_monotone(counts: Seq<u64>, i: int, j: int)
    requires
        0 <= i <= j < counts.len(),
    ensures
        prefix_sums(counts)[i] <= prefix_sums(counts)[j],
        prefix_sums(counts)[counts.len() - 1] == total(counts),
    decreases counts.len(),
{
    lemma_prefix_sums_last(counts);
    if j < counts.len() - 1 {
        law_cumulative_counts_monotone(counts.drop_last(), i, j);
        lemma_prefix_sums_last(counts.drop_last());
    } else if i < j {
        law_cumulative_counts_monotone(counts.drop_last(), i, j - 1);
        lemma_prefix_sums_last(counts.drop_last());
    }
}

} // verus!
