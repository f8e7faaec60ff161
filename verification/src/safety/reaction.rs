//! A gate that opens only some time after a condition appears.

use vstd::prelude::*;
use crate::safety::timing::{gauss_ticks, sample_gauss_ticks};

verus! {

/// Holds back reactions to a condition until a drawn delay has passed since
/// the condition became true.
pub struct ReactionGate {
    pub name: String,
    /// Mean delay, in microseconds.
    pub mean_us: i64,
    /// Spread of the delay, in microseconds.
    pub stddev_us: i64,
    pub fps: u32,
    /// The tick from which this gate is open; `None` while the condition is
    /// false.
    pub open_at: Option<u64>,
    /// The condition on the previous update.
    pub was_true: bool,
}

impl ReactionGate {
    /// The delay, in ticks, of the draw `z`.
    pub open spec fn delay(self, z: int) -> int {
        gauss_ticks(
            self.mean_us as int,
            if self.stddev_us < 0 { 0 } else { self.stddev_us as int },
            self.fps as int,
            z,
        )
    }

    /// This gate's opening tick after an update.
    pub open spec fn next_open_at(self, is_true: bool, tick: u64, z: int) -> Option<u64> {
        if !is_true {
            None
        } else if !self.was_true {
            Some((tick + self.delay(z)) as u64)
        } else {
            self.open_at
        }
    }

    /// This gate is armed and the delay has passed.
    pub open spec fn opened(self, tick: u64) -> bool {
        self.open_at matches Some(t) && tick >= t
    }

    /// A closed gate.
    pub fn new(name: &str, mean_us: i64, stddev_us: i64, fps: u32) -> (r: Self)
        ensures
            r.name@ == name@,
            r.mean_us == mean_us,
            r.stddev_us == stddev_us,
            r.fps == fps,
            r.open_at == None::<u64>,
            !r.was_true,
    {
        ReactionGate {
            name: name.to_owned(),
            mean_us,
            stddev_us,
            fps,
            open_at: None,
            was_true: false,
        }
    }

    /// Takes in the condition at `tick`. Where it just became true, this gate
    /// is armed with the delay of the draw `z`; where it is false, this gate is
    /// reset.
    pub fn update(&mut self, is_true: bool, tick: u64, z: i64)
        requires
            is_true && !old(self).was_true ==> tick + old(self).delay(z as int) <= u64::MAX,
        ensures
            *final(self) == (ReactionGate {
                open_at: old(self).next_open_at(is_true, tick, z as int),
                was_true: is_true,
                ..*old(self)
            }),
    {
        if is_true && !self.was_true {
            let delay: u64 = sample_gauss_ticks(self.mean_us, self.stddev_us, self.fps, z);
            self.open_at = Some(tick + delay);
        } else if !is_true {
            self.open_at = None;
        }
        self.was_true = is_true;
    }

    /// Whether reactions may pass at `tick`.
    pub fn is_open(&self, tick: u64) -> (r: bool)
        ensures
            r == self.opened(tick),
    {
        match self.open_at {
            None => false,
            Some(open_at) => tick >= open_at,
        }
    }

    /// Whether this gate is armed and its delay still runs.
    pub fn is_armed(&self, tick: u64) -> (r: bool)
        ensures
            r == (self.open_at matches Some(t) && tick < t),
            r ==> !self.opened(tick),
            self.open_at is Some ==> r == !self.opened(tick),
    {
        match self.open_at {
            None => false,
            Some(open_at) => tick < open_at,
        }
    }

    /// Forgets the condition.
    pub fn reset(&mut self)
        ensures
            *final(self) == (ReactionGate { open_at: None, was_true: false, ..*old(self) }),
    {
        self.open_at = None;
        self.was_true = false;
    }
}

/// From the update that finds the condition new, and for as long as the
/// condition lasts, this gate is closed before the drawn delay has passed and
/// open from then on, however many updates come in between.
pub proof fn opens_once_delay_passed(gate: ReactionGate, tick: u64, z: int, later: u64, z2: int)
    requires
        !gate.was_true,
        tick + gate.delay(z) <= u64::MAX,
    ensures
        ({
            let armed = ReactionGate {
                open_at: gate.next_open_at(true, tick, z),
                was_true: true,
                ..gate
            };
            &&& armed.opened(later) <==> later >= tick + gate.delay(z)
            &&& armed.next_open_at(true, later, z2) == armed.open_at
            &&& armed.next_open_at(false, later, z2) is None
        }),
{
    crate::safety::timing::gauss_ticks_positive(
        gate.mean_us as int,
        if gate.stddev_us < 0 { 0 } else { gate.stddev_us as int },
        gate.fps as int,
        z,
    );
}

/// A gate opens a drawn delay after the condition appears, keeps that moment while it lasts, and
/// forgets it with the condition: it lets reactions pass exactly from that moment on.
pub proof fn a_gate_opens_after_its_delay(g: ReactionGate, tick: u64, now: u64, z: int)
    requires
        tick + g.delay(z) <= u64::MAX,
        g.stddev_us >= 0,
    ensures
        g.next_open_at(false, tick, z) is None,
        !g.was_true ==> g.next_open_at(true, tick, z) == Some(
            (tick + gauss_ticks(
                g.mean_us as int,
                g.stddev_us as int,
                g.fps as int,
                z,
            )) as u64,
        ),
        g.was_true ==> g.next_open_at(true, tick, z) == g.open_at,
        g.open_at is None ==> !g.opened(now),
        g.open_at matches Some(t) ==> g.opened(now) == (t <= now),
{
}

} // verus!
