//! Histograms of durations, with cumulative buckets.
use crate::arith::{cap_u64, max_int, max_u64, saturating_mul_u64, what_fits_is_kept, wrapped_u64, wrapping_add_u64};
use vstd::prelude::*;

verus! {

/// How many buckets a histogram has.
pub const DURATION_BUCKET_COUNT: usize = 13;

/// The upper bounds of the buckets, in microseconds.
pub open spec fn bucket_bounds() -> Seq<u64> {
    seq![
        100,
        250,
        500,
        1_000,
        2_500,
        5_000,
        10_000,
        25_000,
        50_000,
        100_000,
        250_000,
        500_000,
        1_000_000,
    ]
}

/// The upper bound of one bucket, in microseconds.
pub fn bucket_bound(index: usize) -> (r: u64)
    requires
        index < DURATION_BUCKET_COUNT,
    ensures
        r == bucket_bounds()[index as int],
{
    let bounds: [u64; 13] = [
        100,
        250,
        500,
        1_000,
        2_500,
        5_000,
        10_000,
        25_000,
        50_000,
        100_000,
        250_000,
        500_000,
        1_000_000,
    ];
    bounds[index]
}

/// Durations counted by size; a bucket counts every duration up to its bound.
#[derive(Debug, Clone, Copy)]
pub struct DurationHistogram {
    pub count: u64,
    pub sum_us: u64,
    pub max_us: u64,
    pub buckets: [u64; 13],
}

/// What a [`DurationHistogram`] holds.
pub struct HistogramView {
    pub count: u64,
    pub sum_us: u64,
    pub max_us: u64,
    pub buckets: Seq<u64>,
}

impl View for DurationHistogram {
    type V = HistogramView;

    open spec fn view(&self) -> HistogramView {
        HistogramView {
            count: self.count,
            sum_us: self.sum_us,
            max_us: self.max_us,
            buckets: self.buckets@,
        }
    }
}

/// A histogram as it is reported.
#[derive(Debug)]
pub struct DurationHistogramSnapshot {
    pub count: u64,
    pub sum_us: u64,
    pub p95_us: Option<u64>,
    pub buckets: Vec<u64>,
}

/// What a [`DurationHistogramSnapshot`] holds.
pub struct HistogramSnapshotView {
    pub count: u64,
    pub sum_us: u64,
    pub p95_us: Option<u64>,
    pub buckets: Seq<u64>,
}

impl View for DurationHistogramSnapshot {
    type V = HistogramSnapshotView;

    open spec fn view(&self) -> HistogramSnapshotView {
        HistogramSnapshotView {
            count: self.count,
            sum_us: self.sum_us,
            p95_us: self.p95_us,
            buckets: self.buckets@,
        }
    }
}

/// The bound of the first bucket that holds at least `rank` durations, or the longest duration.
pub open spec fn first_bound_reaching(buckets: Seq<u64>, rank: int, max_us: u64, from: int) -> u64
    decreases buckets.len() - from,
{
    if from < 0 || from >= buckets.len() {
        max_us
    } else if buckets[from] >= rank {
        bucket_bounds()[from]
    } else {
        first_bound_reaching(buckets, rank, max_us, from + 1)
    }
}

/// How many durations make up a percentile of `count`, rounded up, where nothing overflows.
pub open spec fn percentile_rank(count: u64, percentile: u64) -> int {
    cap_u64(cap_u64(count * percentile) + 99) / 100
}

/// A bound that a percentile of the durations does not exceed.
pub open spec fn percentile_bound(count: u64, buckets: Seq<u64>, percentile: u64, max_us: u64) -> Option<
    u64,
> {
    if count == 0 {
        None
    } else {
        Some(first_bound_reaching(buckets, percentile_rank(count, percentile), max_us, 0))
    }
}

/// Finds a bound that a percentile of the durations does not exceed.
pub fn histogram_percentile_upper_bound_us(
    count: u64,
    buckets: &[u64],
    percentile: u64,
    max_us: u64,
) -> (r: Option<u64>)
    requires
        buckets@.len() <= DURATION_BUCKET_COUNT,
    ensures
        r == percentile_bound(count, buckets@, percentile, max_us),
{
    if count == 0 {
        return None;
    }
    let rank: u64 = saturating_mul_u64(count, percentile).saturating_add(99) / 100;
    let mut i: usize = 0;
    while i < buckets.len()
        invariant
            i <= buckets@.len() <= DURATION_BUCKET_COUNT,
            count != 0,
            rank == percentile_rank(count, percentile),
            first_bound_reaching(buckets@, rank as int, max_us, 0) == first_bound_reaching(
                buckets@,
                rank as int,
                max_us,
                i as int,
            ),
        decreases buckets@.len() - i,
    {
        if buckets[i] >= rank {
            return Some(bucket_bound(i));
        }
        i = i + 1;
    }
    Some(max_us)
}

impl HistogramView {
    /// Nothing counted.
    pub open spec fn empty() -> Self {
        HistogramView {
            count: 0,
            sum_us: 0,
            max_us: 0,
            buckets: Seq::new(DURATION_BUCKET_COUNT as nat, |i: int| 0u64),
        }
    }

    /// The histogram with one more duration.
    pub open spec fn recorded(self, duration_us: u64) -> Self {
        HistogramView {
            count: wrapped_u64(self.count + 1),
            sum_us: wrapped_u64(self.sum_us + duration_us),
            max_us: max_int(self.max_us as int, duration_us as int) as u64,
            buckets: Seq::new(
                DURATION_BUCKET_COUNT as nat,
                |i: int|
                    if duration_us <= bucket_bounds()[i] {
                        wrapped_u64(self.buckets[i] + 1)
                    } else {
                        self.buckets[i]
                    },
            ),
        }
    }

    /// The histogram as it is reported.
    pub open spec fn reported(self) -> HistogramSnapshotView {
        HistogramSnapshotView {
            count: self.count,
            sum_us: self.sum_us,
            p95_us: percentile_bound(self.count, self.buckets, 95, self.max_us),
            buckets: self.buckets,
        }
    }
}

impl DurationHistogram {
    /// A histogram of nothing.
    pub fn new() -> (r: Self)
        ensures
            r@ == HistogramView::empty(),
    {
        let r = DurationHistogram { count: 0, sum_us: 0, max_us: 0, buckets: [0;13] };
        assert(r@.buckets =~= HistogramView::empty().buckets);
        r
    }

    /// Counts a duration.
    pub fn record(&mut self, duration_us: u64)
        ensures
            final(self)@ == old(self)@.recorded(duration_us),
    {
        self.count = wrapping_add_u64(self.count, 1);
        self.sum_us = wrapping_add_u64(self.sum_us, duration_us);
        self.max_us = max_u64(self.max_us, duration_us);
        let ghost target = old(self)@.recorded(duration_us).buckets;
        let mut i: usize = 0;
        while i < 13
            invariant
                i <= 13,
                target == old(self)@.recorded(duration_us).buckets,
                self.count == old(self)@.recorded(duration_us).count,
                self.sum_us == old(self)@.recorded(duration_us).sum_us,
                self.max_us == old(self)@.recorded(duration_us).max_us,
                forall|k: int| 0 <= k < i ==> self.buckets@[k] == target[k],
                forall|k: int| i <= k < 13 ==> self.buckets@[k] == old(self)@.buckets[k],
            decreases 13 - i,
        {
            if duration_us <= bucket_bound(i) {
                self.buckets[i] = wrapping_add_u64(self.buckets[i], 1);
            }
            i = i + 1;
        }
        assert(self@.buckets =~= target);
    }

    /// The histogram as it is reported.
    pub fn snapshot(&self) -> (r: DurationHistogramSnapshot)
        ensures
            r@ == self@.reported(),
    {
        let mut buckets: Vec<u64> = Vec::new();
        let mut i: usize = 0;
        while i < 13
            invariant
                i <= 13,
                buckets@ == self.buckets@.take(i as int),
            decreases 13 - i,
        {
            buckets.push(self.buckets[i]);
            assert(buckets@ =~= self.buckets@.take(i + 1));
            i = i + 1;
        }
        assert(buckets@ =~= self.buckets@);
        DurationHistogramSnapshot {
            count: self.count,
            sum_us: self.sum_us,
            p95_us: histogram_percentile_upper_bound_us(
                self.count,
                buckets.as_slice(),
                95,
                self.max_us,
            ),
            buckets,
        }
    }
}

/// The histogram of some durations.
pub open spec fn histogram_of(durations: Seq<u64>) -> HistogramView
    decreases durations.len(),
{
    if durations.len() == 0 {
        HistogramView::empty()
    } else {
        histogram_of(durations.drop_last()).recorded(durations.last())
    }
}

/// How many of some durations do not exceed a bound.
pub open spec fn up_to(durations: Seq<u64>, bound: u64) -> int
    decreases durations.len(),
{
    if durations.len() == 0 {
        0
    } else {
        up_to(durations.drop_last(), bound) + if durations.last() <= bound {
            1int
        } else {
            0
        }
    }
}

/// A bucket counts exactly the durations up to its bound, so buckets only grow from one to the
/// next, and none exceeds the number of durations.
pub proof fn buckets_count_durations(durations: Seq<u64>)
    requires
        durations.len() <= u64::MAX,
    ensures
        ({
            let histogram = histogram_of(durations);
            &&& histogram.count == durations.len()
            &&& histogram.buckets.len() == DURATION_BUCKET_COUNT
            &&& forall|i: int|
                0 <= i < DURATION_BUCKET_COUNT ==> #[trigger] histogram.buckets[i] == up_to(
                    durations,
                    bucket_bounds()[i],
                )
            &&& up_to(durations, histogram.max_us) == durations.len()
        }),
    decreases durations.len(),
{
    if durations.len() > 0 {
        let before = durations.drop_last();
        buckets_count_durations(before);
        what_fits_is_kept();
        let earlier = histogram_of(before);
        let histogram = histogram_of(durations);
        assert forall|i: int| 0 <= i < DURATION_BUCKET_COUNT implies #[trigger] histogram.buckets[i]
            == up_to(durations, bucket_bounds()[i]) by {
            up_to_is_bounded(before, bucket_bounds()[i]);
            assert(earlier.buckets[i] == up_to(before, bucket_bounds()[i]));
        }
        up_to_grows(before, earlier.max_us, histogram.max_us);
        up_to_is_bounded(before, histogram.max_us);
    }
}

proof fn up_to_is_bounded(durations: Seq<u64>, bound: u64)
    ensures
        0 <= up_to(durations, bound) <= durations.len(),
    decreases durations.len(),
{
    if durations.len() > 0 {
        up_to_is_bounded(durations.drop_last(), bound);
    }
}

/// A larger bound takes in at least as many durations.
pub proof fn up_to_grows(durations: Seq<u64>, a: u64, b: u64)
    requires
        a <= b,
    ensures
        up_to(durations, a) <= up_to(durations, b),
    decreases durations.len(),
{
    if durations.len() > 0 {
        up_to_grows(durations.drop_last(), a, b);
    }
}

/// The reported percentile is sound: at least that share of the durations does not exceed it.
pub proof fn reported_percentile_is_sound(durations: Seq<u64>)
    requires
        0 < durations.len(),
        durations.len() * 95 + 99 <= u64::MAX,
    ensures
        histogram_of(durations).reported().p95_us matches Some(bound) && 100 * up_to(
            durations,
            bound,
        ) >= 95 * durations.len(),
{
    buckets_count_durations(durations);
    let histogram = histogram_of(durations);
    let rank = percentile_rank(histogram.count, 95);
    assert(rank == (durations.len() * 95 + 99) / 100);
    bound_reaches_rank(durations, histogram, rank, 0);
}

proof fn bound_reaches_rank(durations: Seq<u64>, histogram: HistogramView, rank: int, from: int)
    requires
        0 <= from,
        histogram.buckets.len() == DURATION_BUCKET_COUNT,
        forall|i: int|
            0 <= i < DURATION_BUCKET_COUNT ==> #[trigger] histogram.buckets[i] == up_to(
                durations,
                bucket_bounds()[i],
            ),
        up_to(durations, histogram.max_us) == durations.len(),
        rank <= durations.len(),
    ensures
        up_to(
            durations,
            first_bound_reaching(histogram.buckets, rank, histogram.max_us, from),
        ) >= rank,
    decreases histogram.buckets.len() - from,
{
    if from < histogram.buckets.len() {
        if histogram.buckets[from] < rank {
            bound_reaches_rank(durations, histogram, rank, from + 1);
        }
    }
}

/// No bound is passed over that enough durations do not exceed.
proof fn no_reaching_bound_is_passed_over(
    buckets: Seq<u64>,
    rank: int,
    max_us: u64,
    from: int,
    i: int,
)
    requires
        0 <= from <= i < buckets.len(),
        buckets.len() == DURATION_BUCKET_COUNT,
        buckets[i] >= rank,
    ensures
        first_bound_reaching(buckets, rank, max_us, from) <= bucket_bounds()[i],
    decreases i - from,
{
    if from < i && buckets[from] < rank {
        no_reaching_bound_is_passed_over(buckets, rank, max_us, from + 1, i);
    }
}

/// The reported percentile is tight: it is no larger than any bound that this share of the durations
/// does not exceed.
pub proof fn reported_percentile_is_tight(durations: Seq<u64>, i: int)
    requires
        0 < durations.len(),
        durations.len() * 95 + 99 <= u64::MAX,
        0 <= i < DURATION_BUCKET_COUNT,
        100 * up_to(durations, bucket_bounds()[i]) >= 95 * durations.len(),
    ensures
        histogram_of(durations).reported().p95_us matches Some(bound) && bound
            <= bucket_bounds()[i],
{
    buckets_count_durations(durations);
    let histogram = histogram_of(durations);
    no_reaching_bound_is_passed_over(
        histogram.buckets,
        percentile_rank(histogram.count, 95),
        histogram.max_us,
        0,
        i,
    );
}

/// The durations that are counted are summed up, and the longest is the maximum.
pub proof fn durations_are_summed_up(histogram: HistogramView, duration_us: u64)
    requires
        histogram.sum_us + duration_us <= u64::MAX,
    ensures
        histogram.recorded(duration_us).sum_us == histogram.sum_us + duration_us,
        histogram.recorded(duration_us).max_us >= duration_us,
        histogram.recorded(duration_us).max_us >= histogram.max_us,
        histogram.recorded(duration_us).max_us == duration_us || histogram.recorded(
            duration_us,
        ).max_us == histogram.max_us,
        histogram.recorded(duration_us).reported().sum_us == histogram.sum_us + duration_us,
        histogram.reported().count == histogram.count,
        histogram.reported().buckets == histogram.buckets,
{
    what_fits_is_kept();
}

} // verus!
