//! A histogram of latencies over buckets that double in width.

use vstd::prelude::*;
use vstd::std_specs::convert::FromSpecImpl;

use crate::instrumentation::window::total;

verus! {

/// The number of buckets.
pub const BUCKETS: usize = 16;

/// The width of the first bucket, in microseconds.
pub const BASE_US: u32 = 500;

/// The most samples that a histogram takes: as many as it can count.
pub const SAMPLE_LIMIT: u64 = 0xFFFF_FFFF_FFFF_FFFF;

/// One, in parts per million.
pub const MILLION: i64 = 1_000_000;

/// The lower edge of bucket `i`.
pub open spec fn edge(i: int) -> int
    decreases i,
{
    if i <= 0 {
        0
    } else if i == 1 {
        BASE_US as int
    } else {
        2 * edge(i - 1)
    }
}

/// The upper edge of bucket `i`.
pub open spec fn top(i: int) -> int {
    if i >= BUCKETS - 1 {
        u32::MAX as int
    } else {
        edge(i + 1)
    }
}

/// Whether a latency falls into bucket `i`.
pub open spec fn falls_into(us: int, i: int) -> bool {
    &&& 0 <= i < BUCKETS
    &&& edge(i) <= us
    &&& i < BUCKETS - 1 ==> us < edge(i + 1)
}

proof fn edges()
    ensures
        edge(0) == 0,
        edge(1) == 500,
        edge(2) == 1000,
        edge(3) == 2000,
        edge(4) == 4000,
        edge(5) == 8000,
        edge(6) == 16000,
        edge(7) == 32000,
        edge(8) == 64000,
        edge(9) == 128000,
        edge(10) == 256000,
        edge(11) == 512000,
        edge(12) == 1024000,
        edge(13) == 2048000,
        edge(14) == 4096000,
        edge(15) == 8192000,
{
    reveal_with_fuel(edge, 16);
}

/// Edges grow from bucket to bucket.
proof fn edges_grow(i: int, j: int)
    requires
        0 <= i < j,
    ensures
        edge(i) < edge(j),
    decreases j,
{
    if i < j - 1 {
        edges_grow(i, j - 1);
    }
    if j >= 2 {
        edges_grow(0, j - 1);
    }
}

/// Every latency falls into exactly one bucket.
pub proof fn buckets_cover_all(us: u32)
    ensures
        exists|i: int| falls_into(us as int, i),
        forall|i: int, j: int|
            falls_into(us as int, i) && falls_into(us as int, j) ==> i == j,
{
    edges();
    let mut i: int = 0;
    if us >= 500 { i = 1; }
    if us >= 1000 { i = 2; }
    if us >= 2000 { i = 3; }
    if us >= 4000 { i = 4; }
    if us >= 8000 { i = 5; }
    if us >= 16000 { i = 6; }
    if us >= 32000 { i = 7; }
    if us >= 64000 { i = 8; }
    if us >= 128000 { i = 9; }
    if us >= 256000 { i = 10; }
    if us >= 512000 { i = 11; }
    if us >= 1024000 { i = 12; }
    if us >= 2048000 { i = 13; }
    if us >= 4096000 { i = 14; }
    if us >= 8192000 { i = 15; }
    assert(falls_into(us as int, i));
    assert forall|a: int, b: int|
        falls_into(us as int, a) && falls_into(us as int, b) implies a == b by {
        if a < b {
            if a + 1 < b {
                edges_grow(a + 1, b);
            }
        } else if b < a {
            if b + 1 < a {
                edges_grow(b + 1, a);
            }
        }
    }
}

/// The bucket of a latency.
pub fn bucket_idx(us: u32) -> (r: usize)
    ensures
        falls_into(us as int, r as int),
{
    if us < BASE_US {
        return 0;
    }
    proof {
        edges();
    }
    let mut k: usize = 1;
    let mut above: u32 = 2 * BASE_US;
    while k < BUCKETS - 1 && us >= above
        invariant
            1 <= k <= BUCKETS - 1,
            above == edge(k + 1),
            edge(k as int) <= us,
            above <= 0x00FF_FFFF,
            k == 15 || above <= 8192000,
            edge(15) == 8192000,
        decreases BUCKETS - k,
    {
        k = k + 1;
        above = 2 * above;
        proof {
            edges();
            if k < 14 {
                edges_grow(k + 1, 15);
            }
        }
    }
    k
}

/// The edges of a bucket.
pub fn bucket_bounds_us(idx: usize) -> (r: (u32, u32))
    ensures
        idx < BUCKETS - 1 ==> r.0 == edge(idx as int) && r.1 == edge(idx + 1),
        idx >= BUCKETS - 1 ==> r.0 == edge(BUCKETS - 1) && r.1 == u32::MAX,
{
    proof {
        edges();
    }
    if idx == 0 {
        return (0, BASE_US);
    }
    let mut k: usize = 1;
    let mut lo: u32 = BASE_US;
    while k < idx && k < BUCKETS - 1
        invariant
            idx >= 1,
            1 <= k <= BUCKETS - 1,
            k <= idx,
            lo == edge(k as int),
            lo <= 8192000,
        decreases BUCKETS - k,
    {
        k = k + 1;
        lo = 2 * lo;
        proof {
            edges();
            if k < 15 {
                edges_grow(k as int, 15);
            }
        }
    }
    if idx >= BUCKETS - 1 {
        (lo, u32::MAX)
    } else {
        (lo, 2 * lo)
    }
}

/// The number of samples in the first `i` buckets.
pub open spec fn before(b: Seq<u64>, i: int) -> int
    decreases i,
{
    if i <= 0 {
        0
    } else {
        before(b, i - 1) + b[i - 1]
    }
}

/// A share in parts per million, held between none and all.
pub open spec fn share(p: int) -> int {
    if p < 0 {
        0
    } else if p > MILLION {
        MILLION as int
    } else {
        p
    }
}

/// The rank of the sample at share `p` of `count` samples, counted from 1.
pub open spec fn rank_at(count: int, p: int) -> int {
    let rank = (count * share(p) + (MILLION - 1)) / (MILLION as int);
    if rank < 1 {
        1
    } else {
        rank
    }
}

/// Where the sample of rank `rank` is taken to lie within bucket `i`: the samples of a bucket
/// are taken to be spread evenly over it, each in the middle of its part.
pub open spec fn estimate(b: Seq<u64>, rank: int, i: int) -> int {
    edge(i) + ((top(i) - edge(i)) * (2 * (rank - before(b, i)) - 1)) / (2 * b[i] as int)
}

/// The estimate in the first bucket from `i` on at which `rank` samples are reached, and
/// `otherwise` where they never are.
pub open spec fn estimate_from(b: Seq<u64>, rank: int, otherwise: int, i: int) -> int
    decreases BUCKETS - i,
{
    if i >= BUCKETS {
        otherwise
    } else if before(b, i + 1) >= rank {
        estimate(b, rank, i)
    } else {
        estimate_from(b, rank, otherwise, i + 1)
    }
}

proof fn before_grows(b: Seq<u64>, i: int, j: int)
    requires
        0 <= i <= j,
    ensures
        0 <= before(b, i) <= before(b, j),
    decreases j,
{
    if i < j {
        before_grows(b, i, j - 1);
    } else if j > 0 {
        before_grows(b, i - 1, j - 1);
    }
}

proof fn before_bounded(b: Seq<u64>, i: int)
    requires
        0 <= i,
    ensures
        0 <= before(b, i) <= i * u64::MAX,
    decreases i,
{
    if i > 0 {
        before_bounded(b, i - 1);
        assert(i * u64::MAX == (i - 1) * u64::MAX + u64::MAX) by (nonlinear_arith);
    }
}

proof fn before_after_update(b: Seq<u64>, k: int, v: u64, i: int)
    requires
        0 <= k < b.len(),
        0 <= i <= b.len(),
    ensures
        before(b.update(k, v), i) == before(b, i) + if k < i {
            v - b[k]
        } else {
            0
        },
    decreases i,
{
    if i > 0 {
        before_after_update(b, k, v, i - 1);
    }
}

/// An estimate lies within its bucket.
proof fn estimate_in_bucket(b: Seq<u64>, rank: int, i: int)
    requires
        0 <= i < BUCKETS,
        b.len() == BUCKETS,
        before(b, i) < rank <= before(b, i + 1),
    ensures
        edge(i) <= estimate(b, rank, i) < top(i),
        0 <= edge(i) < top(i) <= u32::MAX,
{
    edges();
    if i < BUCKETS - 1 {
        edges_grow(i, i + 1);
    }
    if i < BUCKETS - 2 {
        edges_grow(i + 1, BUCKETS - 1);
    }
    if i > 0 {
        edges_grow(0, i);
    }
    let w = top(i) - edge(i);
    let n = 2 * (rank - before(b, i)) - 1;
    let d = 2 * b[i] as int;
    assert(0 < w);
    assert(0 < n < d);
    assert(0 <= (w * n) / d < w) by (nonlinear_arith)
        requires
            0 < w,
            0 < n < d,
    ;
}

/// A histogram of latencies in microseconds.
#[derive(Debug)]
pub struct LatencyHistogram {
    buckets: [u64; 16],
    sum_us: u128,
    count: u64,
    max_us: u32,
}

impl LatencyHistogram {
    /// The samples of each bucket.
    pub closed spec fn per_bucket(&self) -> Seq<u64> {
        self.buckets@
    }

    /// The sum of all samples.
    pub closed spec fn sum(&self) -> u128 {
        self.sum_us
    }

    /// The number of samples.
    pub closed spec fn samples(&self) -> u64 {
        self.count
    }

    /// The largest sample.
    pub closed spec fn largest(&self) -> u32 {
        self.max_us
    }

    pub open spec fn wf(&self) -> bool {
        &&& self.per_bucket().len() == BUCKETS
        &&& self.samples() <= SAMPLE_LIMIT
        &&& self.samples() == before(self.per_bucket(), BUCKETS as int)
        &&& self.sum() <= self.samples() * self.largest()
    }

    /// The whole part of the mean.
    pub open spec fn average(&self) -> int {
        if self.samples() == 0 {
            0
        } else {
            (self.sum() / self.samples() as u128) as u32 as int
        }
    }

    /// The estimate of the sample at share `p`, in parts per million.
    pub open spec fn at_share(&self, p: int) -> int {
        if self.samples() == 0 {
            0
        } else {
            estimate_from(
                self.per_bucket(),
                rank_at(self.samples() as int, p),
                self.largest() as int,
                0,
            )
        }
    }

    /// What the histogram is after one more sample.
    pub open spec fn after(&self, us: u32, next: &LatencyHistogram) -> bool {
        &&& exists|i: int|
            #![trigger falls_into(us as int, i)]
            falls_into(us as int, i) && next.per_bucket() == self.per_bucket().update(
                i,
                (self.per_bucket()[i] + 1) as u64,
            )
        &&& next.samples() == self.samples() + 1
        &&& next.sum() == self.sum() + us
        &&& next.largest() == if us > self.largest() {
            us
        } else {
            self.largest()
        }
    }

    /// What the histogram is after some more samples.
    pub open spec fn after_all(&self, values: Seq<u32>, next: &LatencyHistogram) -> bool {
        &&& next.per_bucket().len() == self.per_bucket().len()
        &&& forall|i: int|
            0 <= i < BUCKETS ==> next.per_bucket()[i] == self.per_bucket()[i] + #[trigger] in_bucket(
                values,
                i,
            )
        &&& next.samples() == self.samples() + values.len()
        &&& next.sum() == self.sum() + total(values)
        &&& next.largest() >= self.largest()
        &&& forall|i: int| 0 <= i < values.len() ==> values[i] <= next.largest()
        &&& next.largest() == self.largest() || values.contains(next.largest())
    }

    pub open spec fn is_empty(&self) -> bool {
        &&& self.samples() == 0
        &&& self.sum() == 0
        &&& self.largest() == 0
        &&& self.per_bucket() == Seq::new(BUCKETS as nat, |i: int| 0u64)
    }

    /// A histogram without samples.
    pub fn new() -> (r: LatencyHistogram)
        ensures
            r.wf(),
            r.is_empty(),
    {
        let r = LatencyHistogram { buckets: [0; 16], sum_us: 0, count: 0, max_us: 0 };
        assert(before(r.buckets@, 16) == 0) by {
            reveal_with_fuel(before, 17);
        }
        assert(r.per_bucket() =~= Seq::new(BUCKETS as nat, |i: int| 0u64));
        r
    }

    /// Takes in a sample.
    pub fn record_us(&mut self, us: u32)
        requires
            old(self).wf(),
            old(self).samples() < SAMPLE_LIMIT,
        ensures
            final(self).wf(),
            old(self).after(us, final(self)),
    {
        let idx: usize = bucket_idx(us);
        proof {
            before_grows(self.buckets@, idx + 1, 16);
            before_grows(self.buckets@, 0, idx as int);
            before_after_update(self.buckets@, idx as int, (self.buckets@[idx as int] + 1) as u64, 16);
            let c = self.count as int;
            let m = self.max_us as int;
            assert(c * m <= 0xFFFF_FFFF_FFFF_FFFE * 0xFFFF_FFFF) by (nonlinear_arith)
                requires
                    0 <= c <= 0xFFFF_FFFF_FFFF_FFFE,
                    0 <= m <= 0xFFFF_FFFF,
            ;
            let top = if us > m {
                us as int
            } else {
                m
            };
            assert(c * m + us <= (c + 1) * top) by (nonlinear_arith)
                requires
                    0 <= c,
                    0 <= m <= top,
                    us <= top,
            ;
        }
        self.buckets[idx] = self.buckets[idx] + 1;
        self.sum_us = self.sum_us + us as u128;
        self.count = self.count + 1;
        if us > self.max_us {
            self.max_us = us;
        }
    }

    /// How many samples were recorded.
    pub fn count(&self) -> (r: u64)
        ensures
            r == self.samples(),
    {
        self.count
    }

    /// The mean of the samples; 0 where there are none.
    pub fn mean_us(&self) -> (r: u32)
        ensures
            r == self.average(),
    {
        if self.count == 0 {
            0
        } else {
            #[verifier::truncate]
            ((self.sum_us / self.count as u128) as u32)
        }
    }

    /// The largest sample; 0 where there are none.
    pub fn max_us(&self) -> (r: u32)
        ensures
            r == self.largest(),
    {
        self.max_us
    }

    /// The estimate of the sample below which the share `p`, in parts per million, of all
    /// samples lies.
    pub fn percentile(&self, p: i64) -> (r: u32)
        ensures
            r == self.at_share(p as int),
    {
        if self.count == 0 {
            return 0;
        }
        let part_of_all: i64 = if p < 0 {
            0
        } else if p > MILLION {
            MILLION
        } else {
            p
        };
        proof {
            let c = self.count as int;
            let s = part_of_all as int;
            assert(0 <= c * s <= u64::MAX * 1_000_000) by (nonlinear_arith)
                requires
                    0 <= c <= u64::MAX,
                    0 <= s <= 1_000_000,
            ;
        }
        let mut rank: u128 = (self.count as u128 * part_of_all as u128 + 999_999) / 1_000_000;
        if rank < 1 {
            rank = 1;
        }
        assert(rank == rank_at(self.count as int, p as int));
        let mut acc: u128 = 0;
        let mut i: usize = 0;
        while i < BUCKETS
            invariant
                i <= BUCKETS,
                rank >= 1,
                rank == rank_at(self.count as int, p as int),
                self.count > 0,
                acc == before(self.buckets@, i as int),
                acc < rank,
                estimate_from(self.buckets@, rank as int, self.max_us as int, 0) == estimate_from(
                    self.buckets@,
                    rank as int,
                    self.max_us as int,
                    i as int,
                ),
            decreases BUCKETS - i,
        {
            let c: u64 = self.buckets[i];
            proof {
                before_bounded(self.buckets@, i as int);
            }
            if acc + c as u128 >= rank {
                let (lo, hi) = bucket_bounds_us(i);
                let pos: u128 = rank - acc;
                proof {
                    estimate_in_bucket(self.buckets@, rank as int, i as int);
                    let w = hi - lo;
                    let n = 2 * pos - 1;
                    assert(0 <= w * n <= 0xFFFF_FFFF * 0x2_0000_0000_0000_0000) by (nonlinear_arith)
                        requires
                            0 <= w <= 0xFFFF_FFFF,
                            0 <= n <= 0x2_0000_0000_0000_0000,
                    ;
                }
                let part: u128 = ((hi - lo) as u128 * (2 * pos - 1)) / (2 * c as u128);
                assert(lo + part == estimate(self.buckets@, rank as int, i as int));
                return (lo as u128 + part) as u32;
            }
            acc = acc + c as u128;
            i = i + 1;
        }
        self.max_us
    }

    /// The counts with the usual summary.
    pub fn snapshot(&self) -> (r: HistogramSnapshot)
        ensures
            r.buckets@ == self.per_bucket(),
            r.sum_us == self.sum(),
            r.count == self.samples(),
            r.max_us == self.largest(),
            r.mean_us == self.average(),
            r.p50 == self.at_share(500_000),
            r.p95 == self.at_share(950_000),
            r.p99 == self.at_share(990_000),
    {
        HistogramSnapshot {
            buckets: self.buckets,
            sum_us: self.sum_us,
            count: self.count,
            max_us: self.max_us,
            mean_us: self.mean_us(),
            p50: self.percentile(500_000),
            p95: self.percentile(950_000),
            p99: self.percentile(990_000),
        }
    }
}

/// How many of the values fall into bucket `i`.
pub open spec fn in_bucket(values: Seq<u32>, i: int) -> int
    decreases values.len(),
{
    if values.len() == 0 {
        0
    } else {
        in_bucket(values.drop_last(), i) + if falls_into(values.last() as int, i) {
            1int
        } else {
            0
        }
    }
}

/// Samples taken in one by one add up.
pub proof fn samples_add_up(
    first: LatencyHistogram,
    values: Seq<u32>,
    mid: LatencyHistogram,
    v: u32,
    last: LatencyHistogram,
)
    requires
        first.wf(),
        mid.wf(),
        mid.samples() < SAMPLE_LIMIT,
        first.after_all(values, &mid),
        mid.after(v, &last),
    ensures
        first.after_all(values.push(v), &last),
{
    let more = values.push(v);
    assert(more.drop_last() =~= values);
    let k = choose|k: int|
        #![trigger falls_into(v as int, k)]
        falls_into(v as int, k) && last.per_bucket() == mid.per_bucket().update(
            k,
            (mid.per_bucket()[k] + 1) as u64,
        );
    before_grows(mid.per_bucket(), k + 1, 16);
    before_grows(mid.per_bucket(), 0, k);
    buckets_cover_all(v);
    assert forall|i: int| 0 <= i < BUCKETS implies last.per_bucket()[i] == first.per_bucket()[i]
        + #[trigger] in_bucket(more, i) by {
        assert(in_bucket(more, i) == in_bucket(values, i) + if falls_into(v as int, i) {
            1int
        } else {
            0
        });
    }
    assert forall|i: int| 0 <= i < more.len() implies more[i] <= last.largest() by {
        if i < values.len() {
            assert(values[i] <= mid.largest());
        }
    }
    if last.largest() == v && v > mid.largest() {
        assert(more[values.len() as int] == last.largest());
    } else if values.contains(mid.largest()) {
        let j = choose|j: int| 0 <= j < values.len() && values[j] == mid.largest();
        assert(more[j] == last.largest());
    }
}

impl Default for LatencyHistogram {
    fn default() -> (r: LatencyHistogram)
        ensures
            r.wf(),
            r.is_empty(),
    {
        LatencyHistogram::new()
    }
}

/// A histogram at one moment.
#[derive(Clone, Copy, Debug)]
pub struct HistogramSnapshot {
    pub buckets: [u64; 16],
    pub sum_us: u128,
    pub count: u64,
    pub max_us: u32,
    pub mean_us: u32,
    pub p50: u32,
    pub p95: u32,
    pub p99: u32,
}

/// The short form of a histogram.
#[derive(Clone, Copy, Debug, PartialEq, Eq, Structural)]
pub struct Percentiles {
    pub p50: u32,
    pub p95: u32,
    pub p99: u32,
    pub mean: u32,
    pub max: u32,
}

impl From<&LatencyHistogram> for Percentiles {
    fn from(h: &LatencyHistogram) -> (r: Percentiles) {
        Percentiles {
            p50: h.percentile(500_000),
            p95: h.percentile(950_000),
            p99: h.percentile(990_000),
            mean: h.mean_us(),
            max: h.max_us(),
        }
    }
}

impl FromSpecImpl<&LatencyHistogram> for Percentiles {
    open spec fn obeys_from_spec() -> bool {
        true
    }

    open spec fn from_spec(h: &LatencyHistogram) -> Percentiles {
        Percentiles {
            p50: h.at_share(500_000) as u32,
            p95: h.at_share(950_000) as u32,
            p99: h.at_share(990_000) as u32,
            mean: h.average() as u32,
            max: h.largest(),
        }
    }
}

/// The mean is the exact whole part of the sum over the count, and is at most the largest
/// sample.
pub proof fn mean_is_at_most_max(h: LatencyHistogram)
    requires
        h.wf(),
        h.samples() > 0,
    ensures
        h.average() == h.sum() / h.samples() as u128,
        h.average() <= h.largest(),
{
    let s = h.sum() as int;
    let n = h.samples() as int;
    let m = h.largest() as int;
    assert(0 <= s / n <= m) by (nonlinear_arith)
        requires
            0 <= s <= n * m,
            n > 0,
    ;
}

/// Whether the histogram after place `i` follows from the one before by the sample there.
pub open spec fn follows(states: Seq<LatencyHistogram>, values: Seq<u32>, i: int) -> bool {
    states[i].samples() < SAMPLE_LIMIT && states[i].after(values[i], &states[i + 1])
}

/// Whether histograms follow from each other by one sample each, the first of them empty.
pub open spec fn is_run(states: Seq<LatencyHistogram>, values: Seq<u32>) -> bool {
    &&& states.len() == values.len() + 1
    &&& states[0].is_empty()
    &&& forall|i: int| 0 <= i < states.len() ==> (#[trigger] states[i]).wf()
    &&& forall|i: int| 0 <= i < values.len() ==> #[trigger] follows(states, values, i)
}

proof fn run_adds_up(states: Seq<LatencyHistogram>, values: Seq<u32>)
    requires
        is_run(states, values),
    ensures
        states.last().samples() == values.len(),
        states.last().sum() == total(values),
    decreases values.len(),
{
    if values.len() > 0 {
        let fewer = states.drop_last();
        let before = values.drop_last();
        assert(is_run(fewer, before)) by {
            assert(fewer[0] == states[0]);
            assert forall|i: int| 0 <= i < fewer.len() implies (#[trigger] fewer[i]).wf() by {
                assert(states[i].wf());
            }
            assert forall|i: int| 0 <= i < before.len() implies #[trigger] follows(
                fewer,
                before,
                i,
            ) by {
                assert(follows(states, values, i));
            }
        }
        run_adds_up(fewer, before);
        let n = values.len() - 1;
        assert(follows(states, values, n));
    }
}

/// After a run of samples from an empty histogram, the mean is the whole part of the sum of the
/// very values over their number, not of the edges of their buckets.
pub proof fn mean_is_that_of_the_samples(states: Seq<LatencyHistogram>, values: Seq<u32>)
    requires
        is_run(states, values),
    ensures
        states.last().average() == if values.len() == 0 {
            0
        } else {
            total(values) / values.len() as int
        },
{
    run_adds_up(states, values);
    if values.len() > 0 {
        assert(states.last() == states[values.len() as int]);
        mean_is_at_most_max(states.last());
    }
}

/// The bucket in which `rank` samples are reached.
spec fn holder(b: Seq<u64>, rank: int, i: int) -> int
    decreases BUCKETS - i,
{
    if i >= BUCKETS - 1 || before(b, i + 1) >= rank {
        i
    } else {
        holder(b, rank, i + 1)
    }
}

proof fn holder_holds(b: Seq<u64>, rank: int, otherwise: int, i: int)
    requires
        b.len() == BUCKETS,
        0 <= i < BUCKETS,
        before(b, i) < rank <= before(b, BUCKETS as int),
    ensures
        ({
            let k = holder(b, rank, i);
            &&& i <= k < BUCKETS
            &&& before(b, k) < rank <= before(b, k + 1)
            &&& estimate_from(b, rank, otherwise, i) == estimate(b, rank, k)
        }),
    decreases BUCKETS - i,
{
    reveal_with_fuel(estimate_from, 2);
    if i >= BUCKETS - 1 || before(b, i + 1) >= rank {
    } else {
        holder_holds(b, rank, otherwise, i + 1);
    }
}

proof fn rank_fits(count: int, p: int)
    requires
        count > 0,
    ensures
        1 <= rank_at(count, p) <= count,
{
    let s = share(p);
    assert(count * s <= count * 1_000_000) by (nonlinear_arith)
        requires
            count > 0,
            0 <= s <= 1_000_000,
    ;
}

/// A percentile lies in the bucket of the sample that it stands for, so it errs by less than
/// the width of that bucket.
pub proof fn percentile_errs_within_a_bucket(h: LatencyHistogram, p: int)
    requires
        h.wf(),
        h.samples() > 0,
    ensures
        exists|i: int|
            0 <= i < BUCKETS && before(h.per_bucket(), i) < rank_at(h.samples() as int, p)
                <= before(h.per_bucket(), i + 1) && edge(i) <= #[trigger] estimate(
                h.per_bucket(),
                rank_at(h.samples() as int, p),
                i,
            ) < top(i) && h.at_share(p) == estimate(
                h.per_bucket(),
                rank_at(h.samples() as int, p),
                i,
            ),
{
    let b = h.per_bucket();
    let rank = rank_at(h.samples() as int, p);
    rank_fits(h.samples() as int, p);
    holder_holds(b, rank, h.largest() as int, 0);
    estimate_in_bucket(b, rank, holder(b, rank, 0));
}

/// A larger share never has a smaller percentile.
pub proof fn percentiles_grow(h: LatencyHistogram, p: int, q: int)
    requires
        h.wf(),
        p <= q,
    ensures
        h.at_share(p) <= h.at_share(q),
{
    if h.samples() > 0 {
        let b = h.per_bucket();
        let n = h.samples() as int;
        let low = rank_at(n, p);
        let high = rank_at(n, q);
        rank_fits(n, p);
        rank_fits(n, q);
        let a = share(p);
        let c = share(q);
        assert(n * a <= n * c) by (nonlinear_arith)
            requires
                n > 0,
                a <= c,
        ;
        assert(low <= high);
        holder_holds(b, low, h.largest() as int, 0);
        holder_holds(b, high, h.largest() as int, 0);
        let i = holder(b, low, 0);
        let j = holder(b, high, 0);
        estimate_in_bucket(b, low, i);
        estimate_in_bucket(b, high, j);
        if i == j {
            let w = top(i) - edge(i);
            let d = 2 * b[i] as int;
            let x = 2 * (low - before(b, i)) - 1;
            let y = 2 * (high - before(b, i)) - 1;
            assert(w * x <= w * y) by (nonlinear_arith)
                requires
                    w >= 0,
                    x <= y,
            ;
            let wx = w * x;
            let wy = w * y;
            assert(wx / d <= wy / d) by (nonlinear_arith)
                requires
                    wx <= wy,
                    d > 0,
            ;
        } else if i < j {
            edges();
            if i + 1 < j {
                edges_grow(i + 1, j);
            }
        } else {
            before_grows(b, j + 1, i);
        }
    }
}

/// The first bucket ends at half a millisecond, each further one at twice that of the one before,
/// and the last is open.
pub proof fn each_bucket_is_twice_as_wide(us: u32, i: int)
    ensures
        falls_into(us as int, 0) == (us < 500),
        falls_into(us as int, 1) == (500 <= us < 1_000),
        falls_into(us as int, 15) == (8_192_000 <= us),
        1 <= i < 14 && falls_into(us as int, i) && us <= 0x7FFF_FFFF ==> falls_into(
            2 * (us as int),
            i + 1,
        ),
        0 <= i < 16 && falls_into(us as int, i) && us >= 1_000 ==> i >= 2,
        falls_into(us as int, i) ==> 0 <= i < 16,
{
    edges();
    if 1 <= i < 14 {
        assert(edge(i + 1) == 2 * edge(i));
        assert(edge(i + 2) == 2 * edge(i + 1));
    }
}

/// A sample adds one to its own bucket and to no other, one to the number of samples and itself to
/// their sum; the largest is the larger of it and the largest before.
pub proof fn a_sample_is_counted_once(
    now: LatencyHistogram,
    us: u32,
    next: LatencyHistogram,
    i: int,
)
    requires
        now.wf(),
        now.samples() < u64::MAX,
        now.after(us, &next),
        0 <= i < 16,
    ensures
        next.per_bucket()[i] == now.per_bucket()[i] + (if falls_into(us as int, i) {
            1int
        } else {
            0
        }),
        next.samples() == now.samples() + 1,
        next.sum() == now.sum() + us,
        next.largest() >= us && next.largest() >= now.largest(),
        next.largest() == us || next.largest() == now.largest(),
{
    let k = choose|k: int|
        #![trigger falls_into(us as int, k)]
        falls_into(us as int, k) && next.per_bucket() == now.per_bucket().update(
            k,
            (now.per_bucket()[k] + 1) as u64,
        );
    buckets_cover_all(us);
    before_grows(now.per_bucket(), k + 1, 16);
    before_grows(now.per_bucket(), 0, k);
    assert(before(now.per_bucket(), k + 1) == before(now.per_bucket(), k) + now.per_bucket()[k]);
}

/// The sample that a share asks for is the first that no fewer than that share of all lie at or
/// before; the first one at least, and the last at most.
pub proof fn a_share_asks_for_its_sample(count: int, p: int)
    requires
        count > 0,
    ensures
        0 < p <= 1_000_000 ==> 1_000_000 * (rank_at(count, p) - 1) < count * p && count * p
            <= 1_000_000 * rank_at(count, p),
        p <= 0 ==> rank_at(count, p) == 1,
        p >= 1_000_000 ==> rank_at(count, p) == count,
{
    if p <= 0 {
        assert(count * 0 == 0);
    }
    if p >= 1_000_000 {
        assert(share(p) == 1_000_000);
        assert((count * 1_000_000 + 999_999) / 1_000_000 == count);
    }
    if 0 < p <= 1_000_000 {
        assert(count * p > 0) by (nonlinear_arith)
            requires
                count > 0,
                p > 0,
        ;
    }
}

/// A share is read off as if the samples of its bucket lay evenly in it, each in the middle of its
/// part, in whole microseconds.
pub proof fn samples_lie_evenly_in_their_bucket(b: Seq<u64>, rank: int, i: int)
    requires
        0 <= i < 16,
        b.len() == 16,
        before(b, i) < rank <= before(b, i) + b[i],
    ensures
        2 * b[i] * (estimate(b, rank, i) - edge(i)) <= (top(i) - edge(i)) * (2 * (rank - before(
            b,
            i,
        )) - 1),
        (top(i) - edge(i)) * (2 * (rank - before(b, i)) - 1) < 2 * b[i] * (estimate(b, rank, i)
            - edge(i) + 1),
{
    let n: int = (top(i) - edge(i)) * (2 * (rank - before(b, i)) - 1);
    let d: int = 2 * b[i] as int;
    let q: int = n / d;
    let r: int = n % d;
    assert(d > 0);
    vstd::arithmetic::div_mod::lemma_fundamental_div_mod(n, d);
    assert(0 <= r < d) by (nonlinear_arith)
        requires
            r == n % d,
            d > 0,
    ;
    assert(d * (q + 1) == d * q + d) by (nonlinear_arith);
    assert(2 * b[i] * (estimate(b, rank, i) - edge(i)) == d * q);
    assert(2 * b[i] * (estimate(b, rank, i) - edge(i) + 1) == d * (q + 1));
}

/// Where the buckets begin and end: the first begins at nothing and ends at half a millisecond,
/// each next one ends at twice that, and the last at the largest number.
pub proof fn the_edges_double(i: int)
    ensures
        edge(0) == 0,
        edge(1) == 500,
        i >= 1 ==> edge(i + 1) == 2 * edge(i),
        0 <= i < 15 ==> top(i) == edge(i + 1),
        top(15) == 0xFFFF_FFFF,
{
}

/// The usual percentiles are read off at half, at nineteen twentieths and at ninety-nine
/// hundredths.
pub proof fn percentiles_are_read_off_at_their_shares(h: LatencyHistogram)
    requires
        h.wf(),
    ensures
        ({
            let p = <Percentiles as vstd::std_specs::convert::FromSpec<
                &LatencyHistogram,
            >>::from_spec(&h);
            &&& h.at_share(500_000) <= u32::MAX ==> p.p50 == h.at_share(500_000)
            &&& h.at_share(950_000) <= u32::MAX ==> p.p95 == h.at_share(950_000)
            &&& h.at_share(990_000) <= u32::MAX ==> p.p99 == h.at_share(990_000)
            &&& p.max == h.largest()
            &&& h.samples() > 0 ==> p.mean == h.sum() / h.samples() as u128
        }),
{
    if h.samples() > 0 {
        mean_is_at_most_max(h);
        percentile_errs_within_a_bucket(h, 500_000);
        percentile_errs_within_a_bucket(h, 950_000);
        percentile_errs_within_a_bucket(h, 990_000);
    }
    assert(h.at_share(500_000) >= 0 && h.at_share(950_000) >= 0 && h.at_share(990_000) >= 0) by {
        if h.samples() > 0 {
            shares_are_not_negative(h, 500_000);
            shares_are_not_negative(h, 950_000);
            shares_are_not_negative(h, 990_000);
        }
    }
}

proof fn shares_are_not_negative(h: LatencyHistogram, p: int)
    requires
        h.wf(),
        h.samples() > 0,
    ensures
        h.at_share(p) >= 0,
{
    percentile_errs_within_a_bucket(h, p);
    let b = h.per_bucket();
    let rank = rank_at(h.samples() as int, p);
    let i = choose|i: int|
        0 <= i < BUCKETS && before(b, i) < rank <= before(b, i + 1) && edge(i)
            <= #[trigger] estimate(b, rank, i) < top(i) && h.at_share(p) == estimate(b, rank, i);
    edges();
    if i > 0 {
        edges_grow(0, i);
    }
}

} // verus!
