//! Breaks of several lengths, each on a schedule of its own.

use vstd::prelude::*;
use crate::safety::human_noise::{
    interval_fits, next_moment, schedule_next, CLOCK_LIMIT, INTERVAL_LIMIT_US,
};
use crate::safety::timing::GaussSampler;
use crate::units::Nanos;

verus! {

/// Least interval and least length of a break, in microseconds.
pub const MIN_BREAK_US: i64 = 1_000_000;

/// The kinds of break.
#[derive(Clone, Copy, Debug, PartialEq, Eq, Structural)]
pub enum BreakKind {
    Micro,
    Medium,
    Long,
}

impl BreakKind {
    /// The pause reason that a break of this kind gives.
    pub open spec fn reason(self) -> Seq<char> {
        match self {
            BreakKind::Micro => "break:micro"@,
            BreakKind::Medium => "break:medium"@,
            BreakKind::Long => "break:long"@,
        }
    }

    /// How long breaks of this kind are next to the others.
    pub open spec fn rank(self) -> int {
        match self {
            BreakKind::Micro => 0,
            BreakKind::Medium => 1,
            BreakKind::Long => 2,
        }
    }

    /// Whether breaks of this kind are longer than those of another.
    fn is_longer(self, other: BreakKind) -> (r: bool)
        ensures
            r == (self.rank() > other.rank()),
    {
        match (self, other) {
            (BreakKind::Medium, BreakKind::Micro) => true,
            (BreakKind::Long, BreakKind::Micro) => true,
            (BreakKind::Long, BreakKind::Medium) => true,
            _ => false,
        }
    }

    /// The pause reason that a break of this kind gives.
    pub fn as_str(self) -> (r: &'static str)
        ensures
            r@ == self.reason(),
    {
        match self {
            BreakKind::Micro => "break:micro",
            BreakKind::Medium => "break:medium",
            BreakKind::Long => "break:long",
        }
    }
}

/// A kind of break with its schedule.
#[derive(Clone, Copy, Debug, PartialEq, Eq, Structural)]
pub struct BreakLevel {
    pub kind: BreakKind,
    /// Time between breaks, in microseconds.
    pub interval: GaussSampler,
    /// Length of a break, in microseconds.
    pub duration: GaussSampler,
    /// When the next break starts.
    pub next_at: Nanos,
    /// When the running break ends; `None` where none runs.
    pub active_until: Option<Nanos>,
}

/// The mean and spread of a kind of break, in microseconds.
#[derive(Clone, Copy, Debug, PartialEq, Eq, Structural)]
pub struct BreakPlan {
    pub kind: BreakKind,
    pub interval_mean_us: i64,
    pub interval_std_us: i64,
    pub duration_mean_us: i64,
    pub duration_std_us: i64,
}

/// The draws that a level may use on a tick, as standard scores.
#[derive(Clone, Copy, Debug, PartialEq, Eq, Structural)]
pub struct BreakDraw {
    pub interval_z: i64,
    pub duration_z: i64,
}

/// What the scheduler says of a tick.
#[derive(Clone, Copy, Debug, PartialEq, Eq, Structural)]
pub enum BreakStatus {
    /// No break runs or starts.
    Quiet,
    /// A break just started.
    Started(BreakKind),
    /// A break is running.
    Active(BreakKind),
    /// A break just ended.
    Ended(BreakKind),
}

impl BreakLevel {
    /// Intervals and lengths stay within range.
    pub open spec fn wf(self) -> bool {
        interval_fits(self.interval) && interval_fits(self.duration)
    }

    /// The running break ends at `now`.
    pub open spec fn ends(self, now: Nanos) -> bool {
        self.active_until matches Some(until) && now >= until
    }

    /// A break goes on at `now`.
    pub open spec fn continues(self, now: Nanos) -> bool {
        self.active_until matches Some(until) && now < until
    }

    /// When the next break starts, once a break that ends at `now` has been
    /// rescheduled.
    pub open spec fn start_after(self, now: Nanos, draw: BreakDraw) -> int {
        if self.ends(now) {
            next_moment(self.interval, MIN_BREAK_US as int, now, draw.interval_z as int)
        } else {
            self.next_at as int
        }
    }

    /// A break starts at `now`: none runs, and its time has come.
    pub open spec fn starts(self, now: Nanos, draw: BreakDraw) -> bool {
        !self.continues(now) && now >= self.start_after(now, draw)
    }

    /// The level after the tick at `now`.
    pub open spec fn next(self, now: Nanos, draw: BreakDraw) -> BreakLevel {
        BreakLevel {
            next_at: self.start_after(now, draw) as u64,
            active_until: if self.continues(now) {
                self.active_until
            } else if self.starts(now, draw) {
                Some(
                    next_moment(
                        self.duration,
                        MIN_BREAK_US as int,
                        now,
                        draw.duration_z as int,
                    ) as u64,
                )
            } else {
                None
            },
            ..self
        }
    }

    /// A level whose first break comes an interval of the draw `z` after `now`.
    pub fn new(plan: BreakPlan, now: Nanos, z: i64) -> (r: Self)
        requires
            plan.fits(),
            now <= CLOCK_LIMIT,
        ensures
            r.wf(),
            r == plan.level(now, z as int),
    {
        let interval = GaussSampler::new(plan.interval_mean_us, plan.interval_std_us);
        let duration = GaussSampler::new(plan.duration_mean_us, plan.duration_std_us);
        let next_at: Nanos = schedule_next(&interval, MIN_BREAK_US, now, z);
        BreakLevel { kind: plan.kind, interval, duration, next_at, active_until: None }
    }
}

impl BreakPlan {
    /// Intervals and lengths stay within range.
    pub open spec fn fits(self) -> bool {
        &&& self.interval_mean_us <= INTERVAL_LIMIT_US
        &&& self.interval_std_us <= INTERVAL_LIMIT_US
        &&& self.duration_mean_us <= INTERVAL_LIMIT_US
        &&& self.duration_std_us <= INTERVAL_LIMIT_US
    }

    /// The level of this plan, started at `now` with the draw `z`.
    pub open spec fn level(self, now: Nanos, z: int) -> BreakLevel {
        let interval = GaussSampler {
            mean: self.interval_mean_us,
            stddev: if self.interval_std_us < 0 { 0 } else { self.interval_std_us },
        };
        let duration = GaussSampler {
            mean: self.duration_mean_us,
            stddev: if self.duration_std_us < 0 { 0 } else { self.duration_std_us },
        };
        BreakLevel {
            kind: self.kind,
            interval,
            duration,
            next_at: next_moment(interval, MIN_BREAK_US as int, now, z) as u64,
            active_until: None,
        }
    }
}

/// The draw of the level at index `i`; a level without a draw of its own takes
/// the mean.
pub open spec fn draw_at(draws: Seq<BreakDraw>, i: int) -> BreakDraw {
    if 0 <= i < draws.len() {
        draws[i]
    } else {
        BreakDraw { interval_z: 0, duration_z: 0 }
    }
}

/// The longer of two kinds of break, of which the first may be missing.
pub open spec fn longer(first: Option<BreakKind>, second: BreakKind) -> BreakKind {
    if first is Some && first->0.rank() > second.rank() {
        first->0
    } else {
        second
    }
}

fn longer_of(first: Option<BreakKind>, second: BreakKind) -> (r: BreakKind)
    ensures
        r == longer(first, second),
{
    match first {
        Some(kind) => if kind.is_longer(second) {
            kind
        } else {
            second
        },
        None => second,
    }
}

/// The longest kind of break that starts on the first `n` levels.
pub open spec fn longest_started(
    levels: Seq<BreakLevel>,
    now: Nanos,
    draws: Seq<BreakDraw>,
    n: int,
) -> Option<BreakKind>
    decreases n,
{
    if n <= 0 {
        None
    } else if levels[n - 1].starts(now, draw_at(draws, n - 1)) {
        Some(longer(longest_started(levels, now, draws, n - 1), levels[n - 1].kind))
    } else {
        longest_started(levels, now, draws, n - 1)
    }
}

/// The longest kind of break that goes on on the first `n` levels.
pub open spec fn longest_active(
    levels: Seq<BreakLevel>,
    now: Nanos,
    n: int,
) -> Option<BreakKind>
    decreases n,
{
    if n <= 0 {
        None
    } else if levels[n - 1].continues(now) {
        Some(longer(longest_active(levels, now, n - 1), levels[n - 1].kind))
    } else {
        longest_active(levels, now, n - 1)
    }
}

/// The longest kind of break that ends on the first `n` levels.
pub open spec fn longest_ended(
    levels: Seq<BreakLevel>,
    now: Nanos,
    n: int,
) -> Option<BreakKind>
    decreases n,
{
    if n <= 0 {
        None
    } else if levels[n - 1].ends(now) {
        Some(longer(longest_ended(levels, now, n - 1), levels[n - 1].kind))
    } else {
        longest_ended(levels, now, n - 1)
    }
}

/// The three usual levels, started at `now` with these draws.
pub open spec fn standard_levels(
    now: Nanos,
    micro_z: int,
    medium_z: int,
    long_z: int,
) -> Seq<BreakLevel> {
    seq![
        (BreakPlan {
            kind: BreakKind::Micro,
            interval_mean_us: 300_000_000,
            interval_std_us: 120_000_000,
            duration_mean_us: 30_000_000,
            duration_std_us: 15_000_000,
        }).level(now, micro_z),
        (BreakPlan {
            kind: BreakKind::Medium,
            interval_mean_us: 1_800_000_000,
            interval_std_us: 600_000_000,
            duration_mean_us: 180_000_000,
            duration_std_us: 60_000_000,
        }).level(now, medium_z),
        (BreakPlan {
            kind: BreakKind::Long,
            interval_mean_us: 10_800_000_000,
            interval_std_us: 3_600_000_000,
            duration_mean_us: 1_800_000_000,
            duration_std_us: 600_000_000,
        }).level(now, long_z),
    ]
}

/// Schedules breaks on several levels.
pub struct BreakScheduler {
    pub levels: Vec<BreakLevel>,
}

impl BreakScheduler {
    /// Every level stays within range.
    pub open spec fn wf(self) -> bool {
        forall|i: int| 0 <= i < self.levels@.len() ==> (#[trigger] self.levels@[i]).wf()
    }

    /// What a tick reports: a break that starts before one that goes on, that
    /// before one that ends; among several the longest kind.
    pub open spec fn status(self, now: Nanos, draws: Seq<BreakDraw>) -> BreakStatus {
        let n = self.levels@.len() as int;
        if longest_started(self.levels@, now, draws, n) is Some {
            BreakStatus::Started(longest_started(self.levels@, now, draws, n)->0)
        } else if longest_active(self.levels@, now, n) is Some {
            BreakStatus::Active(longest_active(self.levels@, now, n)->0)
        } else if longest_ended(self.levels@, now, n) is Some {
            BreakStatus::Ended(longest_ended(self.levels@, now, n)->0)
        } else {
            BreakStatus::Quiet
        }
    }

    /// The three usual levels: about half a minute every five minutes, three
    /// minutes every half hour, half an hour every three hours.
    pub fn new_standard(now: Nanos, micro_z: i64, medium_z: i64, long_z: i64) -> (r: Self)
        requires
            now <= CLOCK_LIMIT,
        ensures
            r.wf(),
            r.levels@ == standard_levels(now, micro_z as int, medium_z as int, long_z as int),
    {
        let micro = BreakPlan {
            kind: BreakKind::Micro,
            interval_mean_us: 300_000_000,
            interval_std_us: 120_000_000,
            duration_mean_us: 30_000_000,
            duration_std_us: 15_000_000,
        };
        let medium = BreakPlan {
            kind: BreakKind::Medium,
            interval_mean_us: 1_800_000_000,
            interval_std_us: 600_000_000,
            duration_mean_us: 180_000_000,
            duration_std_us: 60_000_000,
        };
        let long = BreakPlan {
            kind: BreakKind::Long,
            interval_mean_us: 10_800_000_000,
            interval_std_us: 3_600_000_000,
            duration_mean_us: 1_800_000_000,
            duration_std_us: 600_000_000,
        };
        let mut levels: Vec<BreakLevel> = Vec::new();
        levels.push(BreakLevel::new(micro, now, micro_z));
        levels.push(BreakLevel::new(medium, now, medium_z));
        levels.push(BreakLevel::new(long, now, long_z));
        BreakScheduler { levels }
    }

    /// A scheduler with levels of the caller's choice, all started with the
    /// draw `z`.
    pub fn with_levels(plans: Vec<BreakPlan>, now: Nanos, z: i64) -> (r: Self)
        requires
            forall|i: int| 0 <= i < plans@.len() ==> (#[trigger] plans@[i]).fits(),
            now <= CLOCK_LIMIT,
        ensures
            r.wf(),
            r.levels@.len() == plans@.len(),
            forall|i: int|
                0 <= i < plans@.len() ==> #[trigger] r.levels@[i] == plans@[i].level(now, z as int),
    {
        let mut levels: Vec<BreakLevel> = Vec::new();
        let mut i: usize = 0;
        while i < plans.len()
            invariant
                i <= plans.len(),
                now <= CLOCK_LIMIT,
                forall|j: int| 0 <= j < plans@.len() ==> (#[trigger] plans@[j]).fits(),
                levels@.len() == i,
                forall|j: int| 0 <= j < i ==> (#[trigger] levels@[j]).wf(),
                forall|j: int| 0 <= j < i ==> #[trigger] levels@[j] == plans@[j].level(now, z as int),
            decreases plans.len() - i,
        {
            levels.push(BreakLevel::new(plans[i], now, z));
            i += 1;
        }
        BreakScheduler { levels }
    }

    /// Moves every level on to `now` and reports what happened.
    pub fn tick(&mut self, now: Nanos, draws: &Vec<BreakDraw>) -> (r: BreakStatus)
        requires
            old(self).wf(),
            now <= CLOCK_LIMIT,
        ensures
            final(self).wf(),
            final(self).levels@.len() == old(self).levels@.len(),
            forall|i: int|
                0 <= i < old(self).levels@.len() ==> #[trigger] final(self).levels@[i] == old(
                    self,
                ).levels@[i].next(now, draw_at(draws@, i)),
            r == old(self).status(now, draws@),
    {
        let mut ended: Option<BreakKind> = None;
        let mut active: Option<BreakKind> = None;
        let mut started: Option<BreakKind> = None;
        let ghost before = self.levels@;
        let mut i: usize = 0;
        while i < self.levels.len()
            invariant
                now <= CLOCK_LIMIT,
                before == old(self).levels@,
                i <= self.levels@.len(),
                self.levels@.len() == before.len(),
                forall|j: int| 0 <= j < before.len() ==> (#[trigger] before[j]).wf(),
                forall|j: int| i <= j < before.len() ==> #[trigger] self.levels@[j] == before[j],
                forall|j: int|
                    0 <= j < i ==> #[trigger] self.levels@[j] == before[j].next(
                        now,
                        draw_at(draws@, j),
                    ),
                started == longest_started(before, now, draws@, i as int),
                active == longest_active(before, now, i as int),
                ended == longest_ended(before, now, i as int),
            decreases before.len() - i,
        {
            let draw = if i < draws.len() {
                draws[i]
            } else {
                BreakDraw { interval_z: 0, duration_z: 0 }
            };
            let mut level = self.levels[i];
            assert(before[i as int].wf());
            match level.active_until {
                Some(until) => {
                    if now >= until {
                        ended = Some(longer_of(ended, level.kind));
                        level.active_until = None;
                        level.next_at =
                        schedule_next(&level.interval, MIN_BREAK_US, now, draw.interval_z);
                    } else {
                        active = Some(longer_of(active, level.kind));
                    }
                },
                None => {},
            }
            if level.active_until.is_none() && now >= level.next_at {
                let until: Nanos =
                    schedule_next(&level.duration, MIN_BREAK_US, now, draw.duration_z);
                level.active_until = Some(until);
                started = Some(longer_of(started, level.kind));
            }
            self.levels.set(i, level);
            i += 1;
        }
        assert forall|j: int| 0 <= j < self.levels@.len() implies (#[trigger] self.levels@[j]).wf() by {
            assert(before[j].wf());
        }
        match started {
            Some(k) => {
                return BreakStatus::Started(k);
            },
            None => {},
        }
        match active {
            Some(k) => {
                return BreakStatus::Active(k);
            },
            None => {},
        }
        match ended {
            Some(k) => BreakStatus::Ended(k),
            None => BreakStatus::Quiet,
        }
    }
}

/// A break that starts at `now` lasts at least a second, goes on until its
/// drawn end, and ends there; after it ends the next one is at least a second
/// away.
pub proof fn breaks_run_their_course(level: BreakLevel, now: Nanos, draw: BreakDraw)
    requires
        level.wf(),
        now <= CLOCK_LIMIT,
        level.starts(now, draw),
    ensures
        ({
            let running = level.next(now, draw);
            &&& running.active_until matches Some(until) && until >= now + 1_000_000_000 && forall|
                t: Nanos,
            |
                #![trigger running.continues(t)]
                #![trigger running.ends(t)]
                (running.continues(t) <==> t < until) && (running.ends(t) <==> t >= until)
        }),
        forall|t: Nanos, d: BreakDraw|
            #![trigger level.start_after(t, d)]
            level.ends(t) ==> level.start_after(t, d) >= t + 1_000_000_000,
{
    crate::safety::timing::gauss_bound(
        level.duration.mean as int,
        level.duration.stddev as int,
        draw.duration_z as int,
        MIN_BREAK_US as int,
    );
    assert forall|t: Nanos, d: BreakDraw|
        #![trigger level.start_after(t, d)]
        level.ends(t) implies level.start_after(t, d) >= t + 1_000_000_000 by {
        crate::safety::timing::gauss_bound(
            level.interval.mean as int,
            level.interval.stddev as int,
            d.interval_z as int,
            MIN_BREAK_US as int,
        );
    }
}

proof fn longest_is_no_shorter(
    levels: Seq<BreakLevel>,
    now: Nanos,
    draws: Seq<BreakDraw>,
    n: int,
    i: int,
)
    requires
        0 <= i < n <= levels.len(),
    ensures
        levels[i].starts(now, draw_at(draws, i)) ==> longest_started(levels, now, draws, n) is Some
            && longest_started(levels, now, draws, n)->0.rank() >= levels[i].kind.rank(),
        levels[i].continues(now) ==> longest_active(levels, now, n) is Some && longest_active(
            levels,
            now,
            n,
        )->0.rank() >= levels[i].kind.rank(),
    decreases n,
{
    if i < n - 1 {
        longest_is_no_shorter(levels, now, draws, n - 1, i);
    }
}

/// Where breaks of several levels start on one tick, the longest kind of them is reported; where
/// none starts and several go on, the longest kind of those is.
pub proof fn the_longest_break_is_reported(
    sched: BreakScheduler,
    now: Nanos,
    draws: Seq<BreakDraw>,
    i: int,
)
    requires
        0 <= i < sched.levels@.len(),
    ensures
        sched.levels@[i].starts(now, draw_at(draws, i)) ==> (sched.status(now, draws) matches
            BreakStatus::Started(kind) && kind.rank() >= sched.levels@[i].kind.rank()),
        sched.levels@[i].continues(now) ==> sched.status(now, draws) is Started || (sched.status(
            now,
            draws,
        ) matches BreakStatus::Active(kind) && kind.rank() >= sched.levels@[i].kind.rank()),
{
    longest_is_no_shorter(sched.levels@, now, draws, sched.levels@.len() as int, i);
}

/// What a tick does to a level. A break that runs goes on unchanged until its end. Without one,
/// nothing happens before the next is due; then one starts, and lasts the drawn time. Once a break
/// is over the next is due the drawn interval later.
pub proof fn a_level_alternates_between_breaks_and_work(
    level: BreakLevel,
    now: Nanos,
    draw: BreakDraw,
)
    requires
        level.wf(),
        now <= CLOCK_LIMIT,
    ensures
        level.active_until matches Some(until) && now < until ==> level.next(now, draw) == level
            && level.continues(now) && !level.starts(now, draw) && !level.ends(now),
        level.active_until is None && now < level.next_at ==> level.next(now, draw) == level
            && !level.continues(now) && !level.starts(now, draw) && !level.ends(now),
        level.active_until is None && now >= level.next_at ==> level.starts(now, draw)
            && !level.ends(now) && level.next(now, draw) == (BreakLevel {
            active_until: Some(
                (now + 1_000 * crate::safety::timing::gauss(
                    level.duration.mean as int,
                    level.duration.stddev as int,
                    draw.duration_z as int,
                    1_000_000,
                )) as u64,
            ),
            ..level
        }),
        level.active_until matches Some(until) && now >= until ==> level.ends(now) && !level.starts(
            now,
            draw,
        ) && level.next(now, draw) == (BreakLevel {
            active_until: None,
            next_at: (now + 1_000 * crate::safety::timing::gauss(
                level.interval.mean as int,
                level.interval.stddev as int,
                draw.interval_z as int,
                1_000_000,
            )) as u64,
            ..level
        }),
{
    crate::safety::timing::gauss_bound(
        level.interval.mean as int,
        level.interval.stddev as int,
        draw.interval_z as int,
        1_000_000,
    );
}

/// Whether a kind of break is longer than another: half an hour is longer than three minutes, and
/// that than half a minute.
pub open spec fn outlasts(a: BreakKind, b: BreakKind) -> bool {
    (a == BreakKind::Long && b != BreakKind::Long) || (a == BreakKind::Medium && b
        == BreakKind::Micro)
}

proof fn longest_is_one(
    levels: Seq<BreakLevel>,
    now: Nanos,
    draws: Seq<BreakDraw>,
    n: int,
)
    requires
        0 <= n <= levels.len(),
    ensures
        longest_started(levels, now, draws, n) matches Some(kind) ==> (exists|i: int|
            0 <= i < n && (#[trigger] levels[i]).kind == kind && levels[i].starts(
                now,
                draw_at(draws, i),
            )),
        longest_active(levels, now, n) matches Some(kind) ==> (exists|i: int|
            0 <= i < n && (#[trigger] levels[i]).kind == kind && levels[i].continues(now)),
        longest_ended(levels, now, n) matches Some(kind) ==> (exists|i: int|
            0 <= i < n && (#[trigger] levels[i]).kind == kind && levels[i].ends(now)),
        forall|i: int|
            0 <= i < n && (#[trigger] levels[i]).starts(now, draw_at(draws, i)) ==> (
            longest_started(levels, now, draws, n) matches Some(kind) && !outlasts(
                levels[i].kind,
                kind,
            )),
        forall|i: int|
            0 <= i < n && (#[trigger] levels[i]).continues(now) ==> (longest_active(
                levels,
                now,
                n,
            ) matches Some(kind) && !outlasts(levels[i].kind, kind)),
        forall|i: int|
            0 <= i < n && (#[trigger] levels[i]).ends(now) ==> (longest_ended(
                levels,
                now,
                n,
            ) matches Some(kind) && !outlasts(levels[i].kind, kind)),
    decreases n,
{
    if n > 0 {
        longest_is_one(levels, now, draws, n - 1);
        let l = levels[n - 1];
        if let Some(kind) = longest_started(levels, now, draws, n - 1) {
            let i = choose|i: int|
                0 <= i < n - 1 && (#[trigger] levels[i]).kind == kind && levels[i].starts(
                    now,
                    draw_at(draws, i),
                );
            assert(levels[i].kind == kind);
        }
        if let Some(kind) = longest_active(levels, now, n - 1) {
            let i = choose|i: int|
                0 <= i < n - 1 && (#[trigger] levels[i]).kind == kind && levels[i].continues(now);
            assert(levels[i].kind == kind);
        }
        if let Some(kind) = longest_ended(levels, now, n - 1) {
            let i = choose|i: int|
                0 <= i < n - 1 && (#[trigger] levels[i]).kind == kind && levels[i].ends(now);
            assert(levels[i].kind == kind);
        }
    }
}

/// What a tick reports: the start of a break where one starts, else that one goes on where one
/// does, else the end of one where one ends, else nothing. The kind that it names is that of such
/// a break, and no longer one is passed over.
pub proof fn a_tick_reports_its_longest_break(
    sched: BreakScheduler,
    now: Nanos,
    draws: Seq<BreakDraw>,
)
    ensures
        sched.status(now, draws) matches BreakStatus::Started(kind) ==> (exists|i: int|
            0 <= i < sched.levels@.len() && (#[trigger] sched.levels@[i]).kind == kind
                && sched.levels@[i].starts(now, draw_at(draws, i))) && forall|i: int|
            0 <= i < sched.levels@.len() && (#[trigger] sched.levels@[i]).starts(
                now,
                draw_at(draws, i),
            ) ==> !outlasts(sched.levels@[i].kind, kind),
        sched.status(now, draws) matches BreakStatus::Active(kind) ==> (exists|i: int|
            0 <= i < sched.levels@.len() && (#[trigger] sched.levels@[i]).kind == kind
                && sched.levels@[i].continues(now)) && forall|i: int|
            0 <= i < sched.levels@.len() && (#[trigger] sched.levels@[i]).continues(now)
                ==> !outlasts(sched.levels@[i].kind, kind),
        sched.status(now, draws) matches BreakStatus::Ended(kind) ==> (exists|i: int|
            0 <= i < sched.levels@.len() && (#[trigger] sched.levels@[i]).kind == kind
                && sched.levels@[i].ends(now)) && forall|i: int|
            0 <= i < sched.levels@.len() && (#[trigger] sched.levels@[i]).ends(now) ==> !outlasts(
                sched.levels@[i].kind,
                kind,
            ),
        !(sched.status(now, draws) is Started) ==> forall|i: int|
            0 <= i < sched.levels@.len() ==> !(#[trigger] sched.levels@[i]).starts(
                now,
                draw_at(draws, i),
            ),
        sched.status(now, draws) is Ended || sched.status(now, draws) is Quiet ==> forall|i: int|
            0 <= i < sched.levels@.len() ==> !(#[trigger] sched.levels@[i]).continues(now),
        sched.status(now, draws) is Quiet ==> forall|i: int|
            0 <= i < sched.levels@.len() ==> !(#[trigger] sched.levels@[i]).ends(now),
{
    longest_is_one(sched.levels@, now, draws, sched.levels@.len() as int);
}

/// With the mean drawn, the usual breaks come first after five minutes, half an hour and three
/// hours, and last half a minute, three minutes and half an hour. Other draws lie within three
/// deviations: two minutes, ten minutes and an hour for the intervals.
pub proof fn the_usual_breaks_come_at_their_times(now: Nanos, z: int, draw: BreakDraw, at: Nanos)
    requires
        now <= CLOCK_LIMIT,
        draw.duration_z == 0,
        at <= CLOCK_LIMIT,
    ensures
        standard_levels(now, 0, 0, 0).len() == 3,
        standard_levels(now, 0, 0, 0)[0].next_at == now + 300_000_000_000,
        standard_levels(now, 0, 0, 0)[1].next_at == now + 1_800_000_000_000,
        standard_levels(now, 0, 0, 0)[2].next_at == now + 10_800_000_000_000,
        standard_levels(now, z, z, z)[0].kind == BreakKind::Micro,
        standard_levels(now, z, z, z)[1].kind == BreakKind::Medium,
        standard_levels(now, z, z, z)[2].kind == BreakKind::Long,
        standard_levels(now, z, z, z)[0].next_at <= now + 660_000_000_000,
        standard_levels(now, z, z, z)[1].next_at <= now + 3_600_000_000_000,
        standard_levels(now, z, z, z)[2].next_at <= now + 21_600_000_000_000,
        standard_levels(now, z, z, z)[0].starts(at, draw) ==> standard_levels(now, z, z, z)[0].next(
            at,
            draw,
        ).active_until == Some((at + 30_000_000_000) as u64),
        standard_levels(now, z, z, z)[1].starts(at, draw) ==> standard_levels(now, z, z, z)[1].next(
            at,
            draw,
        ).active_until == Some((at + 180_000_000_000) as u64),
        standard_levels(now, z, z, z)[2].starts(at, draw) ==> standard_levels(now, z, z, z)[2].next(
            at,
            draw,
        ).active_until == Some((at + 1_800_000_000_000) as u64),
{
    crate::safety::timing::a_draw_lies_where_its_score_says(300_000_000, 120_000_000, 0, 1_000_000);
    crate::safety::timing::a_draw_lies_where_its_score_says(
        1_800_000_000,
        600_000_000,
        0,
        1_000_000,
    );
    crate::safety::timing::a_draw_lies_where_its_score_says(
        10_800_000_000,
        3_600_000_000,
        0,
        1_000_000,
    );
    crate::safety::timing::a_draw_lies_where_its_score_says(30_000_000, 15_000_000, 0, 1_000_000);
    crate::safety::timing::a_draw_lies_where_its_score_says(180_000_000, 60_000_000, 0, 1_000_000);
    crate::safety::timing::a_draw_lies_where_its_score_says(
        1_800_000_000,
        600_000_000,
        0,
        1_000_000,
    );
    crate::safety::timing::gauss_bound(300_000_000, 120_000_000, z, 1_000_000);
    crate::safety::timing::gauss_bound(1_800_000_000, 600_000_000, z, 1_000_000);
    crate::safety::timing::gauss_bound(10_800_000_000, 3_600_000_000, z, 1_000_000);
}

/// The pause reason of a break names its kind.
pub proof fn a_break_gives_its_own_reason(kind: BreakKind)
    ensures
        kind == BreakKind::Micro ==> kind.reason() == "break:micro"@,
        kind == BreakKind::Medium ==> kind.reason() == "break:medium"@,
        kind == BreakKind::Long ==> kind.reason() == "break:long"@,
{
}

/// Each level uses its own draw; one without a draw takes the mean.
pub proof fn each_level_has_its_own_draw(draws: Seq<BreakDraw>, i: int)
    requires
        0 <= i,
    ensures
        i < draws.len() ==> draw_at(draws, i) == draws[i],
        i >= draws.len() ==> draw_at(draws, i) == (BreakDraw { interval_z: 0, duration_z: 0 }),
{
}

/// A plan's level keeps its kind and its times, and counts a negative spread as none; its first
/// break comes an interval after the start, and none runs before.
pub proof fn a_level_follows_its_plan(plan: BreakPlan, now: Nanos, z: int)
    requires
        plan.fits(),
        now <= CLOCK_LIMIT,
    ensures
        plan.level(now, z).kind == plan.kind,
        plan.level(now, z).interval.mean == plan.interval_mean_us,
        plan.level(now, z).duration.mean == plan.duration_mean_us,
        plan.interval_std_us >= 0 ==> plan.level(now, z).interval.stddev == plan.interval_std_us,
        plan.interval_std_us < 0 ==> plan.level(now, z).interval.stddev == 0,
        plan.duration_std_us >= 0 ==> plan.level(now, z).duration.stddev == plan.duration_std_us,
        plan.duration_std_us < 0 ==> plan.level(now, z).duration.stddev == 0,
        plan.level(now, z).active_until is None,
        plan.interval_std_us >= 0 ==> plan.level(now, z).next_at == now + 1_000
            * crate::safety::timing::gauss(
            plan.interval_mean_us as int,
            plan.interval_std_us as int,
            z,
            1_000_000,
        ),
{
    let s: int = if plan.interval_std_us < 0 {
        0
    } else {
        plan.interval_std_us as int
    };
    crate::safety::timing::gauss_bound(plan.interval_mean_us as int, s, z, 1_000_000);
}

} // verus!
