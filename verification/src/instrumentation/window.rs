//! A window over the latest values of a series.

use vstd::prelude::*;

verus! {

/// The sum of a sequence.
pub open spec fn total(s: Seq<u32>) -> int
    decreases s.len(),
{
    if s.len() == 0 {
        0
    } else {
        total(s.drop_last()) + s.last()
    }
}

/// The sum of the squared distances of a sequence from `mean`.
pub open spec fn squares(s: Seq<u32>, mean: int) -> int
    decreases s.len(),
{
    if s.len() == 0 {
        0
    } else {
        squares(s.drop_last(), mean) + (s.last() - mean) * (s.last() - mean)
    }
}

/// The whole part of the mean, and 0 for an empty sequence.
pub open spec fn mean_of(s: Seq<u32>) -> int {
    if s.len() == 0 {
        0
    } else {
        total(s) / (s.len() as int)
    }
}

/// The whole part of the mean squared distance from the mean.
pub open spec fn variance_of(s: Seq<u32>) -> int {
    squares(s, mean_of(s)) / (s.len() as int)
}

/// Whether `root` is the whole part of the square root of `v`.
pub open spec fn is_root(root: int, v: int) -> bool {
    0 <= root && root * root <= v < (root + 1) * (root + 1)
}

proof fn total_of_parts(a: Seq<u32>, b: Seq<u32>)
    ensures
        total(a + b) == total(a) + total(b),
    decreases b.len(),
{
    if b.len() == 0 {
        assert(a + b =~= a);
    } else {
        assert((a + b).drop_last() =~= a + b.drop_last());
        total_of_parts(a, b.drop_last());
    }
}

proof fn squares_of_parts(a: Seq<u32>, b: Seq<u32>, mean: int)
    ensures
        squares(a + b, mean) == squares(a, mean) + squares(b, mean),
    decreases b.len(),
{
    if b.len() == 0 {
        assert(a + b =~= a);
    } else {
        assert((a + b).drop_last() =~= a + b.drop_last());
        squares_of_parts(a, b.drop_last(), mean);
    }
}

proof fn total_bounds(s: Seq<u32>)
    ensures
        0 <= total(s) <= s.len() * u32::MAX,
    decreases s.len(),
{
    if s.len() > 0 {
        total_bounds(s.drop_last());
        assert(s.len() * u32::MAX == (s.len() - 1) * u32::MAX + u32::MAX) by (nonlinear_arith);
    }
}

proof fn squares_bounds(s: Seq<u32>, mean: int)
    requires
        0 <= mean <= u32::MAX,
    ensures
        0 <= squares(s, mean) <= s.len() * 0xFFFF_FFFE_0000_0001,
    decreases s.len(),
{
    if s.len() > 0 {
        squares_bounds(s.drop_last(), mean);
        let d = s.last() - mean;
        assert(0 <= d * d <= 0xFFFF_FFFE_0000_0001) by (nonlinear_arith)
            requires
                -0xFFFF_FFFF <= d <= 0xFFFF_FFFF,
        ;
        assert(s.len() * 0xFFFF_FFFE_0000_0001 == (s.len() - 1) * 0xFFFF_FFFE_0000_0001
            + 0xFFFF_FFFE_0000_0001) by (nonlinear_arith);
    }
}

/// The latest `N` values of a series.
#[derive(Debug)]
pub struct CircularU32<const N: usize> {
    buf: Vec<u32>,
    cursor: usize,
}

impl<const N: usize> CircularU32<N> {
    /// The values that are held, in the order of storage.
    pub closed spec fn stored(&self) -> Seq<u32> {
        self.buf@
    }

    /// The values that are held, the oldest first.
    pub closed spec fn samples(&self) -> Seq<u32> {
        self.buf@.skip(self.cursor as int) + self.buf@.take(self.cursor as int)
    }

    pub closed spec fn wf(&self) -> bool {
        &&& self.buf@.len() <= N
        &&& self.buf@.len() < N ==> self.cursor == 0
        &&& self.cursor == 0 || self.cursor < self.buf@.len()
    }

    /// A window without samples.
    pub fn new() -> (r: CircularU32<N>)
        ensures
            r.wf(),
            r.samples() == Seq::<u32>::empty(),
    {
        CircularU32 { buf: Vec::new(), cursor: 0 }
    }

    /// Takes in a value; where the window is full, the oldest leaves.
    pub fn push(&mut self, v: u32)
        requires
            old(self).wf(),
            N > 0,
        ensures
            final(self).wf(),
            final(self).samples() == pushed(old(self).samples(), v, N as nat),
    {
        if self.buf.len() < N {
            self.buf.push(v);
        } else {
            self.buf.set(self.cursor, v);
            self.cursor = if self.cursor + 1 == N {
                0
            } else {
                self.cursor + 1
            };
        }
        assert(self.samples() =~= pushed(old(self).samples(), v, N as nat));
    }

    /// How many samples there are.
    pub fn len(&self) -> (r: usize)
        requires
            self.wf(),
        ensures
            r == self.samples().len(),
    {
        self.buf.len()
    }

    /// How many samples there can be.
    pub fn capacity(&self) -> (r: usize)
        ensures
            r == N,
    {
        N
    }

    /// Whether there are no samples.
    pub fn is_empty(&self) -> (r: bool)
        requires
            self.wf(),
        ensures
            r == (self.samples().len() == 0),
    {
        self.buf.len() == 0
    }

    /// The values that are held, in no particular order.
    pub fn iter(&self) -> (r: &[u32])
        requires
            self.wf(),
        ensures
            r@ == self.stored(),
            r@.to_multiset() == self.samples().to_multiset(),
    {
        proof {
            self.stored_is_a_rotation();
        }
        self.buf.as_slice()
    }

    proof fn stored_is_a_rotation(&self)
        requires
            self.wf(),
        ensures
            self.stored().to_multiset() == self.samples().to_multiset(),
            self.stored().len() == self.samples().len(),
            total(self.stored()) == total(self.samples()),
            forall|m: int| squares(self.stored(), m) == squares(self.samples(), m),
    {
        let a = self.buf@.take(self.cursor as int);
        let b = self.buf@.skip(self.cursor as int);
        assert(self.stored() =~= a + b);
        assert(self.samples() =~= b + a);
        vstd::seq_lib::lemma_multiset_commutative(a, b);
        vstd::seq_lib::lemma_multiset_commutative(b, a);
        assert(a.to_multiset().add(b.to_multiset()) =~= b.to_multiset().add(a.to_multiset()));
        total_of_parts(a, b);
        total_of_parts(b, a);
        assert forall|m: int| squares(self.stored(), m) == squares(self.samples(), m) by {
            squares_of_parts(a, b, m);
            squares_of_parts(b, a, m);
        }
    }

    /// The mean of the samples; 0 where there are none.
    pub fn mean(&self) -> (r: u32)
        requires
            self.wf(),
        ensures
            r == mean_of(self.samples()),
    {
        let n: usize = self.buf.len();
        if n == 0 {
            return 0;
        }
        let mut sum: u128 = 0;
        let mut i: usize = 0;
        while i < n
            invariant
                i <= n,
                n == self.buf@.len(),
                sum == total(self.buf@.take(i as int)),
            decreases n - i,
        {
            proof {
                total_bounds(self.buf@.take(i as int));
                assert(i * u32::MAX <= u64::MAX * u32::MAX) by (nonlinear_arith)
                    requires
                        i <= u64::MAX,
                ;
                assert(self.buf@.take(i + 1).drop_last() =~= self.buf@.take(i as int));
            }
            sum = sum + self.buf[i] as u128;
            i = i + 1;
        }
        proof {
            assert(self.buf@.take(n as int) =~= self.stored());
            self.stored_is_a_rotation();
            total_bounds(self.buf@);
            let t = total(self.buf@);
            assert(0 <= t / (n as int) <= u32::MAX) by (nonlinear_arith)
                requires
                    0 <= t <= n * u32::MAX,
                    n > 0,
            ;
        }
        (sum / n as u128) as u32
    }

    /// The whole part of the standard deviation.
    pub fn stddev(&self) -> (r: u32)
        requires
            self.wf(),
        ensures
            self.samples().len() < 2 ==> r == 0,
            self.samples().len() >= 2 ==> is_root(r as int, variance_of(self.samples())),
    {
        let n: usize = self.buf.len();
        if n < 2 {
            return 0;
        }
        let mean: u32 = self.mean();
        let mut sum: u128 = 0;
        let mut i: usize = 0;
        while i < n
            invariant
                i <= n,
                n == self.buf@.len(),
                sum == squares(self.buf@.take(i as int), mean as int),
            decreases n - i,
        {
            let v: u32 = self.buf[i];
            let d: u128 = if v >= mean {
                (v - mean) as u128
            } else {
                (mean - v) as u128
            };
            proof {
                squares_bounds(self.buf@.take(i as int), mean as int);
                assert(i * 0xFFFF_FFFE_0000_0001 <= (u64::MAX - 1) * 0xFFFF_FFFE_0000_0001)
                    by (nonlinear_arith)
                    requires
                        i < n <= u64::MAX,
                ;
                assert(self.buf@.take(i + 1).drop_last() =~= self.buf@.take(i as int));
                let e = v - mean;
                assert(d * d == e * e && d * d <= 0xFFFF_FFFE_0000_0001) by (nonlinear_arith)
                    requires
                        d == e || d == -e,
                        0 <= d <= 0xFFFF_FFFF,
                ;
            }
            sum = sum + d * d;
            i = i + 1;
        }
        proof {
            assert(self.buf@.take(n as int) =~= self.stored());
            self.stored_is_a_rotation();
            squares_bounds(self.buf@, mean as int);
            let t = squares(self.buf@, mean as int);
            assert(0 <= t / (n as int) <= 0xFFFF_FFFE_0000_0001) by (nonlinear_arith)
                requires
                    0 <= t <= n * 0xFFFF_FFFE_0000_0001,
                    n > 0,
            ;
        }
        whole_root((sum / n as u128) as u64)
    }

    /// The least sample; 0 where there are none.
    pub fn min(&self) -> (r: u32)
        requires
            self.wf(),
        ensures
            self.samples().len() == 0 ==> r == 0,
            self.samples().len() > 0 ==> self.samples().contains(r),
            forall|i: int| 0 <= i < self.samples().len() ==> r <= self.samples()[i],
    {
        let n: usize = self.buf.len();
        if n == 0 {
            return 0;
        }
        let mut at: usize = 0;
        let mut i: usize = 1;
        while i < n
            invariant
                1 <= i <= n,
                n == self.buf@.len(),
                at < i,
                forall|j: int| 0 <= j < i ==> self.buf@[at as int] <= self.buf@[j],
            decreases n - i,
        {
            if self.buf[i] < self.buf[at] {
                at = i;
            }
            i = i + 1;
        }
        proof {
            self.same_place(at as int);
        }
        self.buf[at]
    }

    /// The largest sample; 0 where there are none.
    pub fn max(&self) -> (r: u32)
        requires
            self.wf(),
        ensures
            self.samples().len() == 0 ==> r == 0,
            self.samples().len() > 0 ==> self.samples().contains(r),
            forall|i: int| 0 <= i < self.samples().len() ==> self.samples()[i] <= r,
    {
        let n: usize = self.buf.len();
        if n == 0 {
            return 0;
        }
        let mut at: usize = 0;
        let mut i: usize = 1;
        while i < n
            invariant
                1 <= i <= n,
                n == self.buf@.len(),
                at < i,
                forall|j: int| 0 <= j < i ==> self.buf@[j] <= self.buf@[at as int],
            decreases n - i,
        {
            if self.buf[i] > self.buf[at] {
                at = i;
            }
            i = i + 1;
        }
        proof {
            self.same_place(at as int);
        }
        self.buf[at]
    }

    /// Where a stored value stands among the samples.
    proof fn same_place(&self, at: int)
        requires
            self.wf(),
            0 <= at < self.buf@.len(),
        ensures
            self.samples().contains(self.buf@[at]),
    {
        let n = self.buf@.len() as int;
        let c = self.cursor as int;
        let place = if at >= c {
            at - c
        } else {
            at + n - c
        };
        assert(self.samples()[place] == self.buf@[at]);
    }

    /// Forgets the samples.
    pub fn clear(&mut self)
        ensures
            final(self).wf(),
            final(self).samples() == Seq::<u32>::empty(),
    {
        self.buf.clear();
        self.cursor = 0;
    }
}

/// The whole part of a square root.
fn whole_root(v: u64) -> (r: u32)
    ensures
        is_root(r as int, v as int),
{
    let mut lo: u64 = 0;
    let mut hi: u64 = 0x1_0000_0000;
    while hi - lo > 1
        invariant
            lo < hi <= 0x1_0000_0000,
            lo * lo <= v < hi * hi,
        decreases hi - lo,
    {
        let mid: u64 = lo + (hi - lo) / 2;
        assert(mid * mid <= 0xFFFF_FFFE_0000_0001) by (nonlinear_arith)
            requires
                0 <= mid <= 0xFFFF_FFFF,
        ;
        if mid * mid <= v {
            lo = mid;
        } else {
            hi = mid;
        }
    }
    assert(hi == lo + 1);
    lo as u32
}

/// What a window of `width` values that held `held` holds after `v` was pushed.
pub open spec fn pushed(held: Seq<u32>, v: u32, width: nat) -> Seq<u32> {
    if held.len() < width {
        held.push(v)
    } else {
        held.drop_first().push(v)
    }
}

/// What a window that held `held` holds after all of `values` were pushed.
pub open spec fn pushed_all(held: Seq<u32>, values: Seq<u32>, width: nat) -> Seq<u32>
    decreases values.len(),
{
    if values.len() == 0 {
        held
    } else {
        pushed(pushed_all(held, values.drop_last(), width), values.last(), width)
    }
}

/// Pushing values one after the other leaves the latest `width` of all of them, in order.
pub proof fn holds_the_latest(held: Seq<u32>, values: Seq<u32>, width: nat)
    requires
        held.len() <= width,
        width > 0,
    ensures
        ({
            let all = held + values;
            pushed_all(held, values, width) == if all.len() <= width {
                all
            } else {
                all.skip(all.len() - width)
            }
        }),
    decreases values.len(),
{
    let all = held + values;
    if values.len() == 0 {
        assert(all =~= held);
    } else {
        holds_the_latest(held, values.drop_last(), width);
        assert(pushed_all(held, values, width) =~= if all.len() <= width {
            all
        } else {
            all.skip(all.len() - width)
        });
    }
}

impl<const N: usize> Default for CircularU32<N> {
    fn default() -> (r: CircularU32<N>)
        ensures
            r.wf(),
            r.samples() == Seq::<u32>::empty(),
    {
        CircularU32::new()
    }
}

/// A sum grows by what is added, and the squared distances by the square of the distance; both are
/// nothing for nothing.
pub proof fn sums_grow_by_what_is_added(s: Seq<u32>, v: u32, mean: int)
    ensures
        total(Seq::empty()) == 0,
        total(s.push(v)) == total(s) + v,
        squares(Seq::empty(), mean) == 0,
        squares(s.push(v), mean) == squares(s, mean) + (v - mean) * (v - mean),
{
    assert(s.push(v).drop_last() =~= s);
}

/// A mean is the whole part of the sum over the number, and a variance that of the squared
/// distances from it over the number.
pub proof fn a_mean_is_a_whole_part(s: Seq<u32>)
    requires
        s.len() > 0,
    ensures
        s.len() * mean_of(s) <= total(s) < s.len() * (mean_of(s) + 1),
        s.len() * variance_of(s) <= squares(s, mean_of(s)) < s.len() * (variance_of(s) + 1),
{
    let n: int = s.len() as int;
    let t: int = total(s);
    vstd::arithmetic::div_mod::lemma_fundamental_div_mod(t, n);
    let r: int = t % n;
    assert(0 <= r < n) by (nonlinear_arith)
        requires
            r == t % n,
            n > 0,
    ;
    let m: int = mean_of(s);
    assert(n * (m + 1) == n * m + n) by (nonlinear_arith);
    let q: int = squares(s, m);
    vstd::arithmetic::div_mod::lemma_fundamental_div_mod(q, n);
    let u: int = q % n;
    assert(0 <= u < n) by (nonlinear_arith)
        requires
            u == q % n,
            n > 0,
    ;
    let w: int = variance_of(s);
    assert(n * (w + 1) == n * w + n) by (nonlinear_arith);
}

} // verus!
