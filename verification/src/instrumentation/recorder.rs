//! The bookkeeping of a recording of tick metrics to a file, one line each.

use vstd::prelude::*;

use crate::loop_::dispatch::one_more;

verus! {

/// A recording under way.
#[derive(Debug)]
pub struct MetricsRecorder {
    path: String,
    flush_every: u32,
    since_flush: u32,
    written_lines: u64,
}

/// Whether `next` is `now` after it counted a line, and whether lines are to be pushed out then.
pub open spec fn line_counted(now: MetricsRecorder, next: MetricsRecorder, flush: bool) -> bool {
    &&& next.file() == now.file()
    &&& next.period() == now.period()
    &&& next.lines() == one_more(now.lines())
    &&& flush == (now.waiting() + 1 == now.period())
    &&& next.waiting() == if flush {
        0
    } else {
        now.waiting() + 1
    }
}

impl MetricsRecorder {
    /// Where the lines go.
    pub closed spec fn file(&self) -> Seq<char> {
        self.path@
    }

    /// After how many lines they are pushed out.
    pub closed spec fn period(&self) -> u32 {
        self.flush_every
    }

    /// How many lines have not been pushed out.
    pub closed spec fn waiting(&self) -> u32 {
        self.since_flush
    }

    /// How many lines were written.
    pub closed spec fn lines(&self) -> u64 {
        self.written_lines
    }

    /// Fewer lines wait than would be pushed out.
    pub open spec fn wf(&self) -> bool {
        self.waiting() < self.period()
    }

    /// A recording with no lines yet. Lines are pushed out one by one where the period is 0.
    pub fn start(path: String, flush_every: u32) -> (r: MetricsRecorder)
        ensures
            r.wf(),
            r.file() == path@,
            r.period() == if flush_every == 0 {
                1
            } else {
                flush_every
            },
            r.waiting() == 0,
            r.lines() == 0,
    {
        MetricsRecorder {
            path,
            flush_every: if flush_every == 0 {
                1
            } else {
                flush_every
            },
            since_flush: 0,
            written_lines: 0,
        }
    }

    /// Counts a line that was written; returns whether the lines are to be pushed out now.
    pub fn write_line(&mut self) -> (flush: bool)
        requires
            old(self).wf(),
        ensures
            final(self).wf(),
            final(self).file() == old(self).file(),
            final(self).period() == old(self).period(),
            final(self).lines() == one_more(old(self).lines()),
            flush == (old(self).waiting() + 1 == old(self).period()),
            final(self).waiting() == if flush {
                0
            } else {
                old(self).waiting() + 1
            },
            line_counted(*old(self), *final(self), flush),
    {
        if self.written_lines < u64::MAX {
            self.written_lines = self.written_lines + 1;
        }
        self.since_flush = self.since_flush + 1;
        if self.since_flush >= self.flush_every {
            self.since_flush = 0;
            true
        } else {
            false
        }
    }

    /// How many lines were written.
    pub fn written_lines(&self) -> (r: u64)
        ensures
            r == self.lines(),
    {
        self.written_lines
    }

    /// Where the lines go.
    pub fn path(&self) -> (r: &str)
        ensures
            r@ == self.file(),
    {
        self.path.as_str()
    }
}

/// Over a run from its start, lines are pushed out with every line whose number is a multiple of
/// the period, and all lines are counted.
pub proof fn lines_are_pushed_out_once_a_period(
    states: Seq<MetricsRecorder>,
    flushes: Seq<bool>,
    k: int,
)
    requires
        states.len() == flushes.len() + 1,
        states[0].wf(),
        states[0].waiting() == 0,
        states[0].lines() == 0,
        forall|i: int|
            #![trigger flushes[i]]
            0 <= i < flushes.len() ==> line_counted(states[i], states[i + 1], flushes[i]),
        0 <= k < flushes.len(),
        flushes.len() <= u64::MAX,
    ensures
        flushes[k] == ((k + 1) % (states[0].period() as int) == 0),
        states[k].waiting() == k % (states[0].period() as int),
        states[k].period() == states[0].period(),
        states[k].lines() == k,
    decreases k,
{
    let p: int = states[0].period() as int;
    if k > 0 {
        lines_are_pushed_out_once_a_period(states, flushes, k - 1);
        assert(line_counted(states[k - 1], states[k], flushes[k - 1]));
        one_further(k - 1, p);
    } else {
        assert(0int % p == 0) by (nonlinear_arith)
            requires
                p > 0,
        ;
    }
    assert(line_counted(states[k], states[k + 1], flushes[k]));
    one_further(k, p);
}

proof fn one_further(k: int, p: int)
    requires
        k >= 0,
        p > 0,
    ensures
        (k + 1) % p == if k % p + 1 == p {
            0
        } else {
            k % p + 1
        },
{
    let q: int = k / p;
    let r: int = k % p;
    vstd::arithmetic::div_mod::lemma_fundamental_div_mod(k, p);
    assert(0 <= r < p) by (nonlinear_arith)
        requires
            r == k % p,
            p > 0,
    ;
    if r + 1 == p {
        assert(p * (q + 1) == p * q + p) by (nonlinear_arith);
        vstd::arithmetic::div_mod::lemma_fundamental_div_mod_converse(k + 1, p, q + 1, 0);
    } else {
        vstd::arithmetic::div_mod::lemma_fundamental_div_mod_converse(k + 1, p, q, r + 1);
    }
}

} // verus!
