//! Samples of latencies, kept within bounds.
use crate::service::histogram::up_to;
use vstd::prelude::*;

verus! {

/// The most samples that are kept.
pub const MAX_LATENCY_SAMPLES: usize = 65_536;

/// A product reduced to the range of `u64`.
pub open spec fn wrapped_product(a: u64, b: u64) -> u64 {
    ((a * b) % 0x1_0000_0000_0000_0000) as u64
}

/// A sum reduced to the range of `u64`.
pub open spec fn wrapped_sum(a: u64, b: u64) -> u64 {
    ((a + b) % 0x1_0000_0000_0000_0000) as u64
}

/// Multiplies, reducing the product to the range of `u64`.
pub fn wrap_mul(a: u64, b: u64) -> (r: u64)
    ensures
        r == wrapped_product(a, b),
{
    a.wrapping_mul(b)
}

/// The number that a count is scattered to.
pub open spec fn scattered(value: u64) -> u64 {
    let a = wrapped_sum(value, 0x9e37_79b9_7f4a_7c15);
    let b = wrapped_product(a ^ (a >> 30), 0xbf58_476d_1ce4_e5b9);
    let c = wrapped_product(b ^ (b >> 27), 0x94d0_49bb_1331_11eb);
    c ^ (c >> 31)
}

/// The number that a count is scattered to, the same every time.
pub fn deterministic_sample_index(value: u64) -> (r: u64)
    ensures
        r == scattered(value),
{
    let a: u64 = value.wrapping_add(0x9e37_79b9_7f4a_7c15);
    let b: u64 = wrap_mul(a ^ (a >> 30), 0xbf58_476d_1ce4_e5b9);
    let c: u64 = wrap_mul(b ^ (b >> 27), 0x94d0_49bb_1331_11eb);
    c ^ (c >> 31)
}

/// What is known of some latencies, in nanoseconds: all zero where there is none.
#[derive(Debug, Clone, Copy, PartialEq, Eq, Structural)]
pub struct Percentiles {
    /// How many latencies there were.
    pub count: usize,
    /// How many of them are summed up here.
    pub sample_count: usize,
    pub min_ns: u64,
    pub p50_ns: u64,
    pub p95_ns: u64,
    pub p99_ns: u64,
    pub max_ns: u64,
}

/// The order of latencies.
pub open spec fn no_longer() -> spec_fn(u64, u64) -> bool {
    |a: u64, b: u64| a <= b
}

/// The latencies, the shortest first.
pub open spec fn sorted(values: Seq<u64>) -> Seq<u64> {
    values.sort_by(no_longer())
}

/// Which of `count` latencies, counted from one, at least so many hundredths do not exceed.
pub open spec fn nearest_rank(count: nat, hundredths: int) -> int {
    (count * hundredths + 99) / 100
}

/// The shortest latency that at least so many hundredths of all do not exceed.
pub open spec fn percentile(values: Seq<u64>, hundredths: int) -> u64 {
    sorted(values)[nearest_rank(values.len(), hundredths) - 1]
}

/// What is known of latencies, where there were `count` of them and these are kept.
pub open spec fn summed_up(values: Seq<u64>, count: usize) -> Percentiles {
    if values.len() == 0 {
        Percentiles { count, sample_count: 0, min_ns: 0, p50_ns: 0, p95_ns: 0, p99_ns: 0, max_ns: 0 }
    } else {
        Percentiles {
            count,
            sample_count: values.len() as usize,
            min_ns: sorted(values)[0],
            p50_ns: percentile(values, 50),
            p95_ns: percentile(values, 95),
            p99_ns: percentile(values, 99),
            max_ns: sorted(values).last(),
        }
    }
}

/// Sorts with `<[u64]>::sort_unstable`: the slice then holds the numbers that it held, as often as
/// it held them, from the smallest to the largest.
#[verifier::external_body]
fn sort_numbers(values: &mut Vec<u64>)
    ensures
        final(values)@.to_multiset() == old(values)@.to_multiset(),
        forall|i: int, j: int| 0 <= i <= j < final(values)@.len() ==> final(values)@[i] <= final(values)@[j],
{
    values.sort_unstable()
}

/// A rank lies among the latencies.
proof fn rank_is_valid(count: nat, hundredths: int)
    requires
        count > 0,
        1 <= hundredths <= 100,
    ensures
        1 <= nearest_rank(count, hundredths) <= count,
{
    assert(count * hundredths >= 1) by (nonlinear_arith)
        requires
            count > 0,
            hundredths >= 1,
    ;
    assert(count * hundredths <= count * 100) by (nonlinear_arith)
        requires
            hundredths <= 100,
    ;
}

/// What sorting gives.
proof fn sorting_sorts(values: Seq<u64>)
    ensures
        sorted(values).len() == values.len(),
        sorted(values).to_multiset() == values.to_multiset(),
        forall|i: int, j: int| 0 <= i <= j < values.len() ==> sorted(values)[i] <= sorted(values)[j],
{
    broadcast use vstd::seq_lib::group_to_multiset_ensures;

    values.lemma_sort_by_ensures(no_longer());
    assert(sorted(values).len() == sorted(values).to_multiset().len());
    let order = no_longer();
    assert forall|i: int, j: int| 0 <= i <= j < values.len() implies sorted(values)[i]
        <= sorted(values)[j] by {
        if i < j {
            assert(order(sorted(values)[i], sorted(values)[j]));
        }
    }
}

/// The latency of a rank.
fn at_rank(values: &Vec<u64>, hundredths: u64) -> (r: u64)
    requires
        values@.len() > 0,
        1 <= hundredths <= 100,
    ensures
        r == values@[nearest_rank(values@.len(), hundredths as int) - 1],
{
    proof {
        rank_is_valid(values@.len(), hundredths as int);
    }
    let count: u128 = values.len() as u128;
    let wide: u128 = hundredths as u128;
    assert(count * wide + 99 <= u64::MAX * 100 + 99) by (nonlinear_arith)
        requires
            count <= u64::MAX,
            wide <= 100,
    ;
    let rank: u128 = (count * wide + 99) / 100;
    values[(rank - 1) as usize]
}

/// Sums up latencies that are a selection of `count`.
pub fn percentiles_ns_with_count(values_ns: Vec<u64>, count: usize) -> (r: Percentiles)
    ensures
        r == summed_up(values_ns@, count),
{
    if values_ns.len() == 0 {
        return Percentiles {
            count,
            sample_count: 0,
            min_ns: 0,
            p50_ns: 0,
            p95_ns: 0,
            p99_ns: 0,
            max_ns: 0,
        };
    }
    let mut values: Vec<u64> = values_ns;
    sort_numbers(&mut values);
    proof {
        broadcast use vstd::seq_lib::group_to_multiset_ensures;

        sorting_sorts(values_ns@);
        assert(values@.len() == values@.to_multiset().len());
        vstd::seq_lib::lemma_sorted_unique(values@, sorted(values_ns@), no_longer());
    }
    Percentiles {
        count,
        sample_count: values.len(),
        min_ns: values[0],
        p50_ns: at_rank(&values, 50),
        p95_ns: at_rank(&values, 95),
        p99_ns: at_rank(&values, 99),
        max_ns: values[values.len() - 1],
    }
}

/// Sums up latencies.
pub fn percentiles_ns(values_ns: Vec<u64>) -> (r: Percentiles)
    ensures
        r == summed_up(values_ns@, values_ns@.len() as usize),
{
    let count: usize = values_ns.len();
    percentiles_ns_with_count(values_ns, count)
}

/// No percentile exceeds a higher one, and each is a latency that was seen.
pub proof fn percentiles_are_in_order(values: Seq<u64>, count: usize)
    requires
        values.len() > 0,
    ensures
        ({
            let r = summed_up(values, count);
            &&& r.min_ns <= r.p50_ns <= r.p95_ns <= r.p99_ns <= r.max_ns
            &&& values.contains(r.min_ns) && values.contains(r.p50_ns) && values.contains(r.p95_ns)
            &&& values.contains(r.p99_ns) && values.contains(r.max_ns)
            &&& forall|i: int| 0 <= i < values.len() ==> r.min_ns <= #[trigger] values[i] <= r.max_ns
        }),
{
    broadcast use vstd::seq_lib::group_to_multiset_ensures;

    sorting_sorts(values);
    rank_is_valid(values.len(), 50);
    rank_is_valid(values.len(), 95);
    rank_is_valid(values.len(), 99);
    let order = sorted(values);
    assert forall|i: int| 0 <= i < values.len() implies values.contains(#[trigger] order[i]) by {
        assert(order.contains(order[i]));
        assert(order.to_multiset().count(order[i]) > 0);
        assert(values.to_multiset().count(order[i]) > 0);
    }
    assert forall|i: int| 0 <= i < values.len() implies order[0] <= #[trigger] values[i]
        <= order.last() by {
        assert(values.contains(values[i]));
        assert(values.to_multiset().count(values[i]) > 0);
        assert(order.contains(values[i]));
        let at = order.index_of(values[i]);
        assert(order[at] == values[i]);
    }
}

/// Samples of latencies: all of them at first, later a selection.
#[derive(Debug)]
pub struct BoundedLatencySamples {
    pub observations: usize,
    pub values_ns: Vec<u64>,
}

/// What a [`BoundedLatencySamples`] holds.
pub struct SamplesView {
    pub observations: usize,
    pub values_ns: Seq<u64>,
}

impl View for BoundedLatencySamples {
    type V = SamplesView;

    open spec fn view(&self) -> SamplesView {
        SamplesView { observations: self.observations, values_ns: self.values_ns@ }
    }
}

impl SamplesView {
    /// The samples with one more latency: behind the others while there is room, then in the place
    /// that the count of latencies is scattered to, if there is one.
    pub open spec fn with(self, value_ns: u64) -> SamplesView {
        let observations = if self.observations == usize::MAX {
            usize::MAX
        } else {
            (self.observations + 1) as usize
        };
        let slot = scattered(observations as u64) as int % observations as int;
        SamplesView {
            observations,
            values_ns: if self.values_ns.len() < MAX_LATENCY_SAMPLES {
                self.values_ns.push(value_ns)
            } else if slot < MAX_LATENCY_SAMPLES {
                self.values_ns.update(slot, value_ns)
            } else {
                self.values_ns
            },
        }
    }

    /// Whether no more samples are kept than are allowed, nor than there were latencies.
    pub open spec fn wf(self) -> bool {
        &&& self.values_ns.len() <= MAX_LATENCY_SAMPLES
        &&& self.values_ns.len() <= self.observations
        &&& (self.values_ns.len() < MAX_LATENCY_SAMPLES ==> self.values_ns.len()
            == self.observations)
    }
}

impl BoundedLatencySamples {
    /// No samples.
    pub fn new() -> (r: Self)
        ensures
            r@ == (SamplesView { observations: 0, values_ns: Seq::empty() }),
            r@.wf(),
    {
        let samples = BoundedLatencySamples { observations: 0, values_ns: Vec::new() };
        assert(samples.values_ns@ =~= Seq::<u64>::empty());
        samples
    }

    /// Takes one more latency.
    pub fn record(&mut self, value_ns: u64)
        requires
            old(self)@.wf(),
        ensures
            final(self)@ == old(self)@.with(value_ns),
            final(self)@.wf(),
    {
        self.observations = self.observations.saturating_add(1);
        if self.values_ns.len() < MAX_LATENCY_SAMPLES {
            self.values_ns.push(value_ns);
            return;
        }
        let candidate: u64 = deterministic_sample_index(self.observations as u64);
        let slot: u64 = candidate % (self.observations as u64);
        if slot < MAX_LATENCY_SAMPLES as u64 {
            self.values_ns.set(slot as usize, value_ns);
        }
    }

    /// Sums up the latencies.
    pub fn summary(self) -> (r: Percentiles)
        ensures
            r == summed_up(self@.values_ns, self@.observations),
    {
        percentiles_ns_with_count(self.values_ns, self.observations)
    }
}

/// The noise of a channel at a sample: 24 bits, the same every time.
pub open spec fn noise(sample_index: u64, channel: u16) -> int {
    let a = wrapped_sum(
        wrapped_product(sample_index, 0x9e37_79b9_7f4a_7c15),
        wrapped_product(channel as u64, 0xbf58_476d_1ce4_e5b9),
    );
    let b = wrapped_product(a ^ (a >> 30), 0xbf58_476d_1ce4_e5b9);
    let c = wrapped_product(b ^ (b >> 27), 0x94d0_49bb_1331_11eb);
    let d = c ^ (c >> 31);
    (d >> 40) as int - 8_388_608
}

/// The noise of a channel at a sample.
pub fn deterministic_noise_sample(sample_index: u64, channel: u16) -> (r: i32)
    ensures
        r == noise(sample_index, channel),
        -8_388_608 <= r < 8_388_608,
{
    let a: u64 = wrap_mul(sample_index, 0x9e37_79b9_7f4a_7c15).wrapping_add(
        wrap_mul(channel as u64, 0xbf58_476d_1ce4_e5b9),
    );
    let b: u64 = wrap_mul(a ^ (a >> 30), 0xbf58_476d_1ce4_e5b9);
    let c: u64 = wrap_mul(b ^ (b >> 27), 0x94d0_49bb_1331_11eb);
    let d: u64 = c ^ (c >> 31);
    let high: u64 = d >> 40;
    assert(high < 0x100_0000) by (bit_vector)
        requires
            high == d >> 40,
    ;
    (high as i32) - 8_388_608
}

proof fn counting_without(values: Seq<u64>, at: int, bound: u64)
    requires
        0 <= at < values.len(),
    ensures
        up_to(values, bound) == up_to(values.remove(at), bound) + (if values[at] <= bound {
            1int
        } else {
            0
        }),
    decreases values.len(),
{
    if at == values.len() - 1 {
        assert(values.remove(at) =~= values.drop_last());
    } else {
        counting_without(values.drop_last(), at, bound);
        assert(values.remove(at).drop_last() =~= values.drop_last().remove(at));
        assert(values.remove(at).last() == values.last());
    }
}

/// How many latencies do not exceed a bound does not depend on their order.
proof fn counting_has_no_order(values: Seq<u64>, other: Seq<u64>, bound: u64)
    requires
        values.to_multiset() == other.to_multiset(),
    ensures
        up_to(values, bound) == up_to(other, bound),
    decreases values.len(),
{
    broadcast use vstd::seq_lib::group_to_multiset_ensures;
    broadcast use vstd::multiset::group_multiset_axioms;

    assert(values.len() == values.to_multiset().len());
    assert(other.len() == other.to_multiset().len());
    if values.len() > 0 {
        let x = values.last();
        assert(values.contains(x));
        assert(other.to_multiset().count(x) > 0);
        assert(other.contains(x));
        let at = other.index_of(x);
        let rest = other.remove(at);
        assert(values.drop_last() =~= values.remove(values.len() - 1));
        assert(values.drop_last().to_multiset() =~= values.to_multiset().remove(x));
        assert(rest.to_multiset() =~= other.to_multiset().remove(x));
        counting_has_no_order(values.drop_last(), rest, bound);
        counting_without(other, at, bound);
    }
}

proof fn counting_is_bounded(values: Seq<u64>, bound: u64, few: int)
    requires
        0 <= few <= values.len(),
    ensures
        (forall|i: int| 0 <= i < few ==> #[trigger] values[i] <= bound) ==> up_to(values, bound)
            >= few,
        (forall|i: int| few <= i < values.len() ==> #[trigger] values[i] > bound) ==> up_to(
            values,
            bound,
        ) <= few,
        0 <= up_to(values, bound) <= values.len(),
    decreases values.len(),
{
    if values.len() > 0 {
        let older = values.drop_last();
        assert forall|i: int| 0 <= i < older.len() implies older[i] == #[trigger] values[i] by {}
        assert(values.last() == values[values.len() - 1]);
        if few < values.len() {
            counting_is_bounded(older, bound, few);
        } else {
            counting_is_bounded(older, bound, few - 1);
        }
    }
}

/// At least so many hundredths of all latencies do not exceed a percentile, and of those that are
/// shorter there are fewer.
pub proof fn percentiles_part_the_latencies(values: Seq<u64>, count: usize)
    requires
        0 < values.len() <= usize::MAX,
    ensures
        ({
            let r = summed_up(values, count);
            let n = values.len();
            &&& r.count == count && r.sample_count == n
            &&& 100 * up_to(values, r.p50_ns) >= 50 * n
            &&& 100 * up_to(values, r.p95_ns) >= 95 * n
            &&& 100 * up_to(values, r.p99_ns) >= 99 * n
            &&& r.p50_ns > 0 ==> 100 * up_to(values, (r.p50_ns - 1) as u64) < 50 * n
            &&& r.p95_ns > 0 ==> 100 * up_to(values, (r.p95_ns - 1) as u64) < 95 * n
            &&& r.p99_ns > 0 ==> 100 * up_to(values, (r.p99_ns - 1) as u64) < 99 * n
        }),
{
    a_percentile_parts_the_latencies(values, 50);
    a_percentile_parts_the_latencies(values, 95);
    a_percentile_parts_the_latencies(values, 99);
}

proof fn a_percentile_parts_the_latencies(values: Seq<u64>, hundredths: int)
    requires
        values.len() > 0,
        1 <= hundredths <= 100,
    ensures
        100 * up_to(values, percentile(values, hundredths)) >= hundredths * values.len(),
        percentile(values, hundredths) > 0 ==> 100 * up_to(
            values,
            (percentile(values, hundredths) - 1) as u64,
        ) < hundredths * values.len(),
{
    let order = sorted(values);
    let n = values.len() as int;
    let rank = nearest_rank(values.len(), hundredths);
    let p = percentile(values, hundredths);
    sorting_sorts(values);
    rank_is_valid(values.len(), hundredths);
    assert(n * hundredths == hundredths * n) by (nonlinear_arith);
    let product = hundredths * n;
    assert(100 * rank >= product && 100 * (rank - 1) < product) by {
        assert(rank == (product + 99) / 100);
    }
    counting_has_no_order(values, order, p);
    counting_is_bounded(order, p, rank);
    if p > 0 {
        let below = (p - 1) as u64;
        counting_has_no_order(values, order, below);
        counting_is_bounded(order, below, rank - 1);
    }
}

/// Every latency counts. It is kept as long as there is room; later at most one that is kept gives way to
/// it, and no more are kept than there is room for.
pub proof fn samples_are_kept_while_there_is_room(samples: SamplesView, value_ns: u64)
    requires
        samples.wf(),
    ensures
        ({
            let after = samples.with(value_ns);
            &&& samples.observations < usize::MAX ==> after.observations == samples.observations + 1
            &&& samples.values_ns.len() < 65_536 ==> after.values_ns == samples.values_ns.push(
                value_ns,
            )
            &&& samples.values_ns.len() >= 65_536 ==> after.values_ns.len()
                == samples.values_ns.len()
            &&& forall|i: int, j: int|
                0 <= i < j < samples.values_ns.len() ==> #[trigger] after.values_ns[i]
                    == samples.values_ns[i] || #[trigger] after.values_ns[j] == samples.values_ns[j]
            &&& forall|i: int|
                0 <= i < samples.values_ns.len() ==> #[trigger] after.values_ns[i]
                    == samples.values_ns[i] || after.values_ns[i] == value_ns
        }),
{
}

/// Of latencies beyond those that are kept, one takes the place that falls to it where it is one of
/// those kept, and changes none of the others.
pub proof fn late_samples_take_their_place(samples: SamplesView, value_ns: u64, i: int)
    requires
        samples.values_ns.len() == MAX_LATENCY_SAMPLES,
        samples.observations < usize::MAX,
        0 <= i < MAX_LATENCY_SAMPLES,
    ensures
        ({
            let after = samples.with(value_ns);
            let place = scattered(after.observations as u64) as int % after.observations as int;
            &&& after.observations == samples.observations + 1
            &&& after.values_ns.len() == MAX_LATENCY_SAMPLES
            &&& after.values_ns[i] == (if i == place {
                value_ns
            } else {
                samples.values_ns[i]
            })
        }),
{
    let after = samples.with(value_ns);
    assert(0 <= scattered(after.observations as u64) as int % after.observations as int)
        by (nonlinear_arith)
        requires
            after.observations > 0,
    ;
}

} // verus!
