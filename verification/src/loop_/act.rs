//! Which actions of a tick go out, under the rate limit.

use vstd::prelude::*;
use crate::fsm::{BotAction, FsmState};
use crate::loop_::bot_loop::{BotLoop, Thought, TICK_LIMIT};
use crate::loop_::dispatch::{one_more, EmitSource, Emission};
use crate::loop_::loot::{
    drop_seen, largest, pending_with, window_with, LOOT_COOLDOWN_TICKS,
};
use crate::loop_::typing::{all_keystrokes, TYPING_MAX_TICKS, TYPING_MIN_TICKS};
use crate::perception::Perception;
use crate::safety::chance::random_between;
use crate::safety::human_noise::{next_moment, HumanNoise, CLOCK_LIMIT, MIN_INTERVAL_US};
use crate::safety::rate_limit::{cutoff, expire, RateLimiter};
use crate::units::Nanos;

verus! {

/// What the actions of a tick are made from, besides the decision.
#[derive(Debug)]
pub struct ActInputs {
    pub tick: u64,
    pub now: Nanos,
    /// Messages that scripts asked to type, in order.
    pub says: Vec<String>,
    /// Standard score of the next interval between harmless taps.
    pub noise_z: i64,
}

/// What went out on a tick.
#[derive(Debug)]
pub struct ActReport {
    /// The actions, in the order in which they go out.
    pub emissions: Vec<Emission>,
    /// The harmless key among them, if there is one.
    pub noise: Option<u8>,
}

/// The state of the rate limiter: the moments at which slots were taken, and
/// how many requests were dropped.
pub struct Slots {
    pub window: Seq<Nanos>,
    pub dropped: u64,
}

impl Slots {
    /// A slot is free at `now`.
    pub open spec fn free(self, max: u32, now: Nanos) -> bool {
        expire(self.window, cutoff(now)).len() < max
    }

    /// The limiter after a slot is asked for at `now`, or not.
    pub open spec fn ask(self, max: u32, now: Nanos, asked: bool) -> Slots {
        let live = expire(self.window, cutoff(now));
        if !asked {
            self
        } else if self.free(max, now) {
            Slots { window: live.push(now), ..self }
        } else {
            Slots { window: live, dropped: one_more(self.dropped) }
        }
    }
}

/// Which actions of a tick go out. Each of them that needs a slot asks for it
/// in turn: the state machine's action, the script's key, the next key of a
/// message, the loot key.
pub struct ActPlan {
    /// The state machine's action, where it got a slot.
    pub limited: BotAction,
    /// A harmless key is due. It needs no slot.
    pub noise_due: bool,
    pub overridden: bool,
    pub typed: bool,
    pub looted: bool,
    /// The limiter after the tick.
    pub slots: Slots,
}

/// The emission of a key, if there is one.
pub open spec fn key_part(key: Option<u8>, source: EmitSource) -> Seq<Emission> {
    match key {
        Some(hidcode) => seq![Emission { action: BotAction::UseHotkey { hidcode }, source }],
        None => Seq::empty(),
    }
}

/// The emission of an action, unless it is idle.
pub open spec fn action_part(action: BotAction) -> Seq<Emission> {
    if action == BotAction::Idle {
        Seq::empty()
    } else {
        seq![Emission { action, source: EmitSource::Fsm }]
    }
}

/// Whether `r` is what went out on a tick, and `after` what it left of `b`, as far as typing and
/// looting go.
pub open spec fn acted(
    b: BotLoop,
    p: Perception,
    inp: ActInputs,
    t: Thought,
    r: ActReport,
    after: BotLoop,
) -> bool {
    let plan = b.plan(p, inp, t);
    &&& r.emissions@ == b.emissions(p, inp, t, r.noise)
    &&& after.typing.queue@ == if plan.typed {
        b.queue_with(inp).drop_first()
    } else {
        b.queue_with(inp)
    }
    &&& !plan.typed ==> after.typing.next_tick == b.typing.next_tick
    &&& after.loot.prev_enemy_count == p.battle.enemy_count
    &&& after.loot.kills_pending == if plan.looted {
        b.pending_kills(p) - 1
    } else {
        b.pending_kills(p) as int
    }
    &&& after.loot.next_tick == if plan.looted {
        (inp.tick + LOOT_COOLDOWN_TICKS) as u64
    } else {
        b.loot.next_tick
    }
}

impl BotLoop {
    /// The keys that wait to be typed, with the messages of this tick.
    pub open spec fn queue_with(self, inp: ActInputs) -> Seq<u8> {
        self.typing.queue@ + all_keystrokes(inp.says@, self.keys)
    }

    /// The looting state after this tick's readings was looked at: sparkles,
    /// then pending kills.
    pub open spec fn loot_due(self, p: Perception, tick: u64) -> bool {
        &&& largest(window_with(self.loot.sparkles@, p.loot_sparkles))
            >= self.settings.loot_sparkle_threshold
        &&& self.pending_kills(p) > 0
        &&& tick >= self.loot.next_tick
    }

    /// Kills that wait to be looted, with those of this tick.
    pub open spec fn pending_kills(self, p: Perception) -> u32 {
        pending_with(
            self.loot.kills_pending,
            drop_seen(self.loot.prev_enemy_count, p.battle.enemy_count),
        )
    }

    /// The limiter at the start of the tick's actions.
    pub open spec fn slots(self) -> Slots {
        slots_of(self.rate_limiter)
    }

    /// The script's key asks for a slot.
    pub open spec fn asks_override(self, t: Thought) -> bool {
        t.tick_override is Some && self.pause@ is None && self.fsm.state != FsmState::Emergency
    }

    /// The next key of a message asks for a slot.
    pub open spec fn asks_typing(self, inp: ActInputs) -> bool {
        self.queue_with(inp).len() > 0 && self.pause@ is None && inp.tick >= self.typing.next_tick
    }

    /// The loot key asks for a slot.
    pub open spec fn asks_loot(self, p: Perception, inp: ActInputs) -> bool {
        self.hotkeys.loot_hotkey is Some && self.loot_due(p, inp.tick) && self.pause@ is None
            && self.fsm.state != FsmState::Emergency
    }

    /// Which actions of the tick go out.
    pub open spec fn plan(self, p: Perception, inp: ActInputs, t: Thought) -> ActPlan {
        let max = self.rate_limiter.max_per_sec;
        let asks_action = t.action != BotAction::Idle;
        let limited = if asks_action && self.slots().free(max, inp.now) {
            t.action
        } else {
            BotAction::Idle
        };
        let s1 = self.slots().ask(max, inp.now, asks_action);
        let s2 = s1.ask(max, inp.now, self.asks_override(t));
        let s3 = s2.ask(max, inp.now, self.asks_typing(inp));
        ActPlan {
            limited,
            noise_due: limited == BotAction::Idle && self.pause@ is None && self.fsm.state
                == FsmState::Idle && (self.human_noise matches Some(h) && h.due(inp.now)),
            overridden: self.asks_override(t) && s1.free(max, inp.now),
            typed: self.asks_typing(inp) && s2.free(max, inp.now),
            looted: self.asks_loot(p, inp) && s3.free(max, inp.now),
            slots: s3.ask(max, inp.now, self.asks_loot(p, inp)),
        }
    }

    /// The actions that go out, where `noise` is the harmless key: it comes
    /// first, then the script's key, the key of a message, the loot key, and
    /// last the state machine's action.
    pub open spec fn emissions(
        self,
        p: Perception,
        inp: ActInputs,
        t: Thought,
        noise: Option<u8>,
    ) -> Seq<Emission> {
        let plan = self.plan(p, inp, t);
        key_part(noise, EmitSource::HumanNoise) + key_part(
            if plan.overridden { t.tick_override } else { None },
            EmitSource::ScriptTickOverride,
        ) + key_part(
            if plan.typed { Some(self.queue_with(inp)[0]) } else { None },
            EmitSource::Typing,
        ) + key_part(
            if plan.looted { self.hotkeys.loot_hotkey } else { None },
            EmitSource::AutoLoot,
        ) + action_part(plan.limited)
    }

    /// Lets the actions of a tick out: those that need a slot of the rate
    /// limiter and get none are dropped, and a pause holds back everything but
    /// the state machine's own action.
    pub fn act(&mut self, p: &Perception, inp: &ActInputs, t: &Thought) -> (r: ActReport)
        requires
            old(self).wf(),
            inp.tick <= TICK_LIMIT,
            inp.now <= CLOCK_LIMIT,
        ensures
            final(self).wf(),
            r.emissions@ == old(self).emissions(*p, *inp, *t, r.noise),
            // The harmless key.
            r.noise is Some <==> old(self).plan(*p, *inp, *t).noise_due,
            r.noise matches Some(k) ==> (old(self).human_noise matches Some(h) && h.keys@.contains(k)),
            noise_after(old(self).human_noise, final(self).human_noise, *inp, r.noise),
            // The rate limiter.
            final(self).slots() == old(self).plan(*p, *inp, *t).slots,
            limiter_kept(old(self).rate_limiter, final(self).rate_limiter),
            // Typing.
            final(self).typing.queue@ == if old(self).plan(*p, *inp, *t).typed {
                old(self).queue_with(*inp).drop_first()
            } else {
                old(self).queue_with(*inp)
            },
            if old(self).plan(*p, *inp, *t).typed {
                inp.tick + TYPING_MIN_TICKS <= final(self).typing.next_tick <= inp.tick
                    + TYPING_MAX_TICKS
            } else {
                final(self).typing.next_tick == old(self).typing.next_tick
            },
            old(self).plan(*p, *inp, *t).typed ==> inp.tick + 3 <= final(self).typing.next_tick
                <= inp.tick + 8,
            // Looting.
            final(self).loot.sparkles@ == window_with(old(self).loot.sparkles@, p.loot_sparkles),
            final(self).loot.prev_enemy_count == p.battle.enemy_count,
            final(self).loot.kills_pending == if old(self).plan(*p, *inp, *t).looted {
                old(self).pending_kills(*p) - 1
            } else {
                old(self).pending_kills(*p) as int
            },
            final(self).loot.next_tick == if old(self).plan(*p, *inp, *t).looted {
                (inp.tick + LOOT_COOLDOWN_TICKS) as u64
            } else {
                old(self).loot.next_tick
            },
            old(self).plan(*p, *inp, *t).looted ==> final(self).loot.next_tick == inp.tick + 90,
            acted(*old(self), *p, *inp, *t, r, *final(self)),
            // The rest stays.
            *final(self) == (BotLoop {
                human_noise: final(self).human_noise,
                rate_limiter: final(self).rate_limiter,
                typing: final(self).typing,
                loot: final(self).loot,
                ..*old(self)
            }),
    {
        let ghost b0 = *self;
        let ghost plan = self.plan(*p, *inp, *t);
        let idle = t.action == BotAction::Idle;
        let granted = take_slot(&mut self.rate_limiter, inp.now, !idle);
        let limited = if granted { t.action } else { BotAction::Idle };
        let noise = self.tap_noise(limited, inp);
        let paused = self.pause.is_paused();
        let calm = self.fsm.state != FsmState::Emergency;
        let overridden = take_slot(
            &mut self.rate_limiter,
            inp.now,
            t.tick_override.is_some() && !paused && calm,
        );
        let typed = self.type_next(inp);
        let looted = self.loot_next(p, inp);
        let mut emissions: Vec<Emission> = Vec::new();
        push_key(&mut emissions, noise, EmitSource::HumanNoise);
        push_key(
            &mut emissions,
            if overridden { t.tick_override } else { None },
            EmitSource::ScriptTickOverride,
        );
        push_key(&mut emissions, typed, EmitSource::Typing);
        push_key(&mut emissions, looted, EmitSource::AutoLoot);
        if limited != BotAction::Idle {
            emissions.push(Emission { action: limited, source: EmitSource::Fsm });
        }
        assert(emissions@ =~= b0.emissions(*p, *inp, *t, noise));
        ActReport { emissions, noise }
    }

    /// Taps a harmless key where one is due and nothing else goes on.
    fn tap_noise(&mut self, limited: BotAction, inp: &ActInputs) -> (r: Option<u8>)
        requires
            old(self).wf(),
            inp.now <= CLOCK_LIMIT,
        ensures
            final(self).wf(),
            r is Some <==> (limited == BotAction::Idle && old(self).pause@ is None && old(
                self,
            ).fsm.state == FsmState::Idle && (old(self).human_noise matches Some(h) && h.due(
                inp.now,
            ))),
            r matches Some(k) ==> (old(self).human_noise matches Some(h) && h.keys@.contains(k)),
            noise_after(old(self).human_noise, final(self).human_noise, *inp, r),
            *final(self) == (BotLoop { human_noise: final(self).human_noise, ..*old(self) }),
    {
        let mut noise: Option<u8> = None;
        if limited == BotAction::Idle && !self.pause.is_paused() && self.fsm.state
            == FsmState::Idle {
            match &mut self.human_noise {
                Some(hn) => {
                    noise = hn.tick(inp.now, inp.noise_z);
                },
                None => {},
            }
        }
        noise
    }

    /// Queues the messages of the tick and types the next key where it is due
    /// and gets a slot.
    fn type_next(&mut self, inp: &ActInputs) -> (r: Option<u8>)
        requires
            old(self).wf(),
            inp.tick <= TICK_LIMIT,
        ensures
            final(self).wf(),
            ({
                let typed = old(self).asks_typing(*inp) && old(self).slots().free(
                    old(self).rate_limiter.max_per_sec,
                    inp.now,
                );
                let queue = old(self).queue_with(*inp);
                &&& r == if typed { Some(queue[0]) } else { None }
                &&& final(self).typing.queue@ == if typed { queue.drop_first() } else { queue }
                &&& if typed {
                    inp.tick + TYPING_MIN_TICKS <= final(self).typing.next_tick <= inp.tick
                        + TYPING_MAX_TICKS
                } else {
                    final(self).typing.next_tick == old(self).typing.next_tick
                }
            }),
            final(self).slots() == old(self).slots().ask(
                old(self).rate_limiter.max_per_sec,
                inp.now,
                old(self).asks_typing(*inp),
            ),
            limiter_kept(old(self).rate_limiter, final(self).rate_limiter),
            *final(self) == (BotLoop {
                typing: final(self).typing,
                rate_limiter: final(self).rate_limiter,
                ..*old(self)
            }),
    {
        self.typing.enqueue_all(&inp.says, &self.keys);
        let due = self.typing.queue.len() > 0 && !self.pause.is_paused() && inp.tick
            >= self.typing.next_tick;
        if take_slot(&mut self.rate_limiter, inp.now, due) {
            let spacing: u64 = random_between(
                TYPING_MIN_TICKS as u128,
                TYPING_MAX_TICKS as u128,
            ) as u64;
            Some(self.typing.take(inp.tick, spacing))
        } else {
            None
        }
    }

    /// Takes in the readings for looting and presses the loot key where that is
    /// due and gets a slot.
    fn loot_next(&mut self, p: &Perception, inp: &ActInputs) -> (r: Option<u8>)
        requires
            old(self).wf(),
            inp.tick <= TICK_LIMIT,
        ensures
            final(self).wf(),
            ({
                let looted = old(self).asks_loot(*p, *inp) && old(self).slots().free(
                    old(self).rate_limiter.max_per_sec,
                    inp.now,
                );
                &&& r == if looted { old(self).hotkeys.loot_hotkey } else { None }
                &&& final(self).loot.kills_pending == if looted {
                    old(self).pending_kills(*p) - 1
                } else {
                    old(self).pending_kills(*p) as int
                }
                &&& final(self).loot.next_tick == if looted {
                    (inp.tick + LOOT_COOLDOWN_TICKS) as u64
                } else {
                    old(self).loot.next_tick
                }
            }),
            final(self).loot.sparkles@ == window_with(old(self).loot.sparkles@, p.loot_sparkles),
            final(self).loot.prev_enemy_count == p.battle.enemy_count,
            final(self).slots() == old(self).slots().ask(
                old(self).rate_limiter.max_per_sec,
                inp.now,
                old(self).asks_loot(*p, *inp),
            ),
            limiter_kept(old(self).rate_limiter, final(self).rate_limiter),
            *final(self) == (BotLoop {
                loot: final(self).loot,
                rate_limiter: final(self).rate_limiter,
                ..*old(self)
            }),
    {
        self.loot.observe(p.loot_sparkles, p.battle.enemy_count);
        let due = self.hotkeys.loot_hotkey.is_some() && self.loot.is_due(
            inp.tick,
            self.settings.loot_sparkle_threshold,
        ) && !self.pause.is_paused() && self.fsm.state != FsmState::Emergency;
        if take_slot(&mut self.rate_limiter, inp.now, due) {
            self.loot.pressed(inp.tick);
            self.hotkeys.loot_hotkey
        } else {
            None
        }
    }
}

/// The slots of a limiter.
pub open spec fn slots_of(l: RateLimiter) -> Slots {
    Slots { window: l.window@, dropped: l.dropped }
}

/// The fixed settings of a limiter stay.
pub open spec fn limiter_kept(before: RateLimiter, after: RateLimiter) -> bool {
    after.max_per_sec == before.max_per_sec && after.name == before.name
}

/// The harmless taps after a tick on which `r` was tapped, or nothing.
pub open spec fn noise_after(
    before: Option<HumanNoise>,
    after: Option<HumanNoise>,
    inp: ActInputs,
    r: Option<u8>,
) -> bool {
    match before {
        None => after is None,
        Some(h) => after matches Some(g) && if r is Some {
            &&& g.keys == h.keys
            &&& g.interval == h.interval
            &&& g.emitted == one_more(h.emitted)
            &&& g.next_at == next_moment(
                h.interval,
                MIN_INTERVAL_US as int,
                inp.now,
                inp.noise_z as int,
            )
        } else {
            g == h
        },
    }
}

/// Takes a slot at `now` if one is asked for and free.
fn take_slot(limiter: &mut RateLimiter, now: Nanos, asked: bool) -> (granted: bool)
    requires
        old(limiter).wf(),
    ensures
        final(limiter).wf(),
        granted == (asked && slots_of(*old(limiter)).free(old(limiter).max_per_sec, now)),
        slots_of(*final(limiter)) == slots_of(*old(limiter)).ask(
            old(limiter).max_per_sec,
            now,
            asked,
        ),
        limiter_kept(*old(limiter), *final(limiter)),
{
    if asked {
        limiter.allow(now)
    } else {
        false
    }
}

fn push_key(emissions: &mut Vec<Emission>, key: Option<u8>, source: EmitSource)
    ensures
        final(emissions)@ == old(emissions)@ + key_part(key, source),
{
    match key {
        Some(hidcode) => {
            emissions.push(Emission { action: BotAction::UseHotkey { hidcode }, source });
        },
        None => {},
    }
    assert(emissions@ =~= old(emissions)@ + key_part(key, source));
}

/// While the bot is paused, neither harmless keys, scripts' keys, messages nor
/// looting go out, and what waits to be typed keeps waiting.
pub proof fn pause_holds_back_extras(b: BotLoop, p: Perception, inp: ActInputs, t: Thought)
    requires
        b.pause@ is Some,
    ensures
        ({
            let plan = b.plan(p, inp, t);
            !plan.noise_due && !plan.overridden && !plan.typed && !plan.looted
        }),
        b.emissions(p, inp, t, None) == action_part(b.plan(p, inp, t).limited),
{
    let plan = b.plan(p, inp, t);
    let none = key_part(None, EmitSource::Typing);
    assert(b.emissions(p, inp, t, None) =~= action_part(plan.limited));
}

/// A tick takes at most one slot per action that goes out through the limiter,
/// and no more slots than the cap: what it lets out beyond the harmless key
/// never exceeds the cap.
pub proof fn limited_actions_fit_the_cap(b: BotLoop, p: Perception, inp: ActInputs, t: Thought)
    requires
        b.rate_limiter.wf(),
    ensures
        b.emissions(p, inp, t, None).len() <= b.rate_limiter.max_per_sec,
{
    let max = b.rate_limiter.max_per_sec;
    let plan = b.plan(p, inp, t);
    let cut = cutoff(inp.now);
    let s0 = b.slots();
    let a1 = t.action != BotAction::Idle;
    let s1 = s0.ask(max, inp.now, a1);
    let a2 = b.asks_override(t);
    let s2 = s1.ask(max, inp.now, a2);
    let a3 = b.asks_typing(inp);
    let s3 = s2.ask(max, inp.now, a3);
    let n1: int = if plan.limited != BotAction::Idle { 1 } else { 0 };
    let n2: int = if plan.overridden { 1 } else { 0 };
    let n3: int = if plan.typed { 1 } else { 0 };
    slots_grow(s0, max, inp.now, a1);
    slots_grow(s1, max, inp.now, a2);
    slots_grow(s2, max, inp.now, a3);
    assert(expire(s1.window, cut).len() >= n1);
    assert(expire(s2.window, cut).len() >= n1 + n2);
    assert(expire(s3.window, cut).len() >= n1 + n2 + n3);
    let e = b.emissions(p, inp, t, None);
    assert(e.len() == n1 + n2 + n3 + if plan.looted { 1int } else { 0 });
}

proof fn slots_grow(s: Slots, max: u32, now: Nanos, asked: bool)
    ensures
        ({
            let after = s.ask(max, now, asked);
            let cut = cutoff(now);
            &&& asked && s.free(max, now) ==> expire(after.window, cut).len() == expire(
                s.window,
                cut,
            ).len() + 1
            &&& expire(after.window, cut).len() >= expire(s.window, cut).len()
            &&& expire(s.window, cut).len() >= 0
            &&& asked && s.free(max, now) ==> expire(after.window, cut).len() <= max
        }),
{
    let cut = cutoff(now);
    crate::safety::rate_limit::expire_push(s.window, cut, now);
    crate::safety::rate_limit::expire_twice(s.window, cut, cut);
    crate::safety::rate_limit::expire_push(expire(s.window, cut), cut, now);
}

proof fn room_after(s: Slots, max: u32, now: Nanos, asked: bool)
    ensures
        s.ask(max, now, asked).window.len() <= s.window.len() + 1,
        s.window.len() < max ==> s.free(max, now),
        expire(s.window, cutoff(now)).len() <= s.window.len(),
{
    shorter(s.window, cutoff(now));
}

proof fn shorter(w: Seq<Nanos>, cut: Nanos)
    ensures
        expire(w, cut).len() <= w.len(),
    decreases w.len(),
{
    if w.len() > 0 {
        shorter(w.drop_first(), cut);
    }
}

/// Where four slots are free, all that asks goes out. The state machine's action does, whatever it
/// is. A script's key does unless the bot is paused or in an emergency, a message's next key unless
/// the bot is paused or the key is not due, and the loot key where one is configured, a kill waits,
/// loot was seen and the key may be pressed again, unless the bot is paused or in an emergency.
pub proof fn all_that_asks_goes_out_where_there_is_room(
    b: BotLoop,
    p: Perception,
    inp: ActInputs,
    t: Thought,
)
    requires
        b.rate_limiter.window@.len() + 4 <= b.rate_limiter.max_per_sec,
        b.settings.loot_sparkle_threshold > 0,
    ensures
        b.plan(p, inp, t).limited == t.action,
        b.plan(p, inp, t).overridden == (t.tick_override is Some && b.pause.reason is None
            && b.fsm.state != FsmState::Emergency),
        b.plan(p, inp, t).typed == (b.queue_with(inp).len() > 0 && b.pause.reason is None
            && b.typing.next_tick <= inp.tick),
        b.plan(p, inp, t).looted ==> b.hotkeys.loot_hotkey is Some && b.pause.reason is None
            && b.fsm.state != FsmState::Emergency && b.loot.next_tick <= inp.tick && (
        b.loot.kills_pending > 0 || p.battle.enemy_count < b.loot.prev_enemy_count),
        b.hotkeys.loot_hotkey is Some && b.pause.reason is None && b.fsm.state
            != FsmState::Emergency && b.loot.next_tick <= inp.tick && (b.loot.kills_pending > 0
            || p.battle.enemy_count < b.loot.prev_enemy_count) && p.loot_sparkles
            >= b.settings.loot_sparkle_threshold ==> b.plan(p, inp, t).looted,
        b.plan(p, inp, t).slots.dropped == b.rate_limiter.dropped,
{
    let max = b.rate_limiter.max_per_sec;
    let s0 = b.slots();
    let a1 = t.action != BotAction::Idle;
    let s1 = s0.ask(max, inp.now, a1);
    let s2 = s1.ask(max, inp.now, b.asks_override(t));
    let s3 = s2.ask(max, inp.now, b.asks_typing(inp));
    room_after(s0, max, inp.now, a1);
    room_after(s1, max, inp.now, b.asks_override(t));
    room_after(s2, max, inp.now, b.asks_typing(inp));
    room_after(s3, max, inp.now, b.asks_loot(p, inp));
    let w = window_with(b.loot.sparkles@, p.loot_sparkles);
    crate::loop_::loot::largest_is_maximum(w);
    assert(w[w.len() - 1] == p.loot_sparkles);
}

/// A harmless key is due only where nothing else goes on: the state machine idles and lets nothing
/// out, the bot is not paused, and the moment of the tap has come. It takes no slot.
pub proof fn harmless_keys_fill_idle_ticks(b: BotLoop, p: Perception, inp: ActInputs, t: Thought)
    ensures
        b.plan(p, inp, t).noise_due == (b.plan(p, inp, t).limited == BotAction::Idle
            && b.pause.reason is None && b.fsm.state == FsmState::Idle && (b.human_noise matches Some(
            h,
        ) && h.keys@.len() > 0 && h.next_at <= inp.now)),
{
}

/// Where the slots of the last second are all taken, nothing goes out but a harmless key, and every
/// action that asked is counted as dropped.
pub proof fn nothing_goes_out_without_a_slot(b: BotLoop, p: Perception, inp: ActInputs, t: Thought)
    requires
        expire(b.rate_limiter.window@, cutoff(inp.now)).len() >= b.rate_limiter.max_per_sec,
        b.rate_limiter.dropped + 4 <= u64::MAX,
    ensures
        b.plan(p, inp, t).limited == BotAction::Idle,
        !b.plan(p, inp, t).overridden,
        !b.plan(p, inp, t).typed,
        !b.plan(p, inp, t).looted,
        b.plan(p, inp, t).slots.dropped == b.rate_limiter.dropped + (if t.action
            != BotAction::Idle {
            1int
        } else {
            0
        }) + (if b.asks_override(t) {
            1int
        } else {
            0
        }) + (if b.asks_typing(inp) {
            1int
        } else {
            0
        }) + (if b.asks_loot(p, inp) {
            1int
        } else {
            0
        }),
{
    let w = b.rate_limiter.window@;
    crate::safety::rate_limit::expire_twice(w, cutoff(inp.now), cutoff(inp.now));
}

/// What goes out carries what asked for it: the key that the script named, the first key that waits
/// to be typed, the configured loot key, the state machine's action; and it goes out in that order,
/// behind the harmless key.
pub proof fn what_goes_out_is_what_was_asked_for(
    b: BotLoop,
    p: Perception,
    inp: ActInputs,
    t: Thought,
    noise: Option<u8>,
    i: int,
)
    requires
        0 <= i < b.emissions(p, inp, t, noise).len(),
    ensures
        ({
            let out = b.emissions(p, inp, t, noise);
            let plan = b.plan(p, inp, t);
            match out[i].source {
                EmitSource::HumanNoise => i == 0 && noise is Some && out[i].action == (
                BotAction::UseHotkey { hidcode: noise->0 }),
                EmitSource::ScriptTickOverride => plan.overridden && t.tick_override is Some
                    && out[i].action == (BotAction::UseHotkey { hidcode: t.tick_override->0 }),
                EmitSource::Typing => plan.typed && out[i].action == (BotAction::UseHotkey {
                    hidcode: b.queue_with(inp)[0],
                }),
                EmitSource::AutoLoot => plan.looted && b.hotkeys.loot_hotkey is Some
                    && out[i].action == (BotAction::UseHotkey {
                    hidcode: b.hotkeys.loot_hotkey->0,
                }),
                EmitSource::Fsm => i == out.len() - 1 && out[i].action == plan.limited
                    && plan.limited != BotAction::Idle,
            }
        }),
        i + 1 < b.emissions(p, inp, t, noise).len() ==> ({
            let a = b.emissions(p, inp, t, noise)[i].source;
            let c = b.emissions(p, inp, t, noise)[i + 1].source;
            match a {
                EmitSource::HumanNoise => c != EmitSource::HumanNoise,
                EmitSource::ScriptTickOverride => c == EmitSource::Typing || c
                    == EmitSource::AutoLoot || c == EmitSource::Fsm,
                EmitSource::Typing => c == EmitSource::AutoLoot || c == EmitSource::Fsm,
                EmitSource::AutoLoot => c == EmitSource::Fsm,
                EmitSource::Fsm => false,
            }
        }),
        b.emissions(p, inp, t, noise).len() == (if noise is Some {
            1int
        } else {
            0
        }) + (if b.plan(p, inp, t).overridden {
            1int
        } else {
            0
        }) + (if b.plan(p, inp, t).typed {
            1int
        } else {
            0
        }) + (if b.plan(p, inp, t).looted {
            1int
        } else {
            0
        }) + (if b.plan(p, inp, t).limited != BotAction::Idle {
            1int
        } else {
            0
        }),
{
}

/// The messages of a tick wait behind what already waits.
pub proof fn messages_wait_their_turn(b: BotLoop, inp: ActInputs)
    ensures
        b.queue_with(inp).take(b.typing.queue@.len() as int) == b.typing.queue@,
        b.queue_with(inp).skip(b.typing.queue@.len() as int) == all_keystrokes(inp.says@, b.keys),
{
    let q = b.typing.queue@;
    assert(b.queue_with(inp).take(q.len() as int) =~= q);
    assert(b.queue_with(inp).skip(q.len() as int) =~= all_keystrokes(inp.says@, b.keys));
}

/// Harmless taps that were not due stay as they were. A tap counts once, keeps the keys and their
/// interval, and the next comes no sooner than five seconds later.
pub proof fn a_tap_sets_the_next_one(
    before: HumanNoise,
    after: HumanNoise,
    inp: ActInputs,
    k: u8,
)
    requires
        before.wf(),
        before.emitted < u64::MAX,
        inp.now <= CLOCK_LIMIT,
    ensures
        noise_after(Some(before), Some(after), inp, None) ==> after == before,
        noise_after(Some(before), Some(after), inp, Some(k)) ==> after.emitted == before.emitted + 1
            && after.keys == before.keys && after.interval == before.interval && after.next_at
            >= inp.now + 5_000_000_000,
        !noise_after(None, Some(after), inp, None),
{
    crate::safety::human_noise::taps_are_spaced(before.interval, inp.now, inp.noise_z as int);
}

/// What goes out is spent. A key that is typed leaves the queue, and the others stay in order;
/// without one all of them wait on. A press of the loot key uses up one kill, of those that waited
/// and those that the tick shows, and three seconds of thirty ticks pass before the next.
pub proof fn what_goes_out_is_spent(
    b: BotLoop,
    p: Perception,
    inp: ActInputs,
    t: Thought,
    r: ActReport,
    after: BotLoop,
)
    requires
        acted(b, p, inp, t, r, after),
        b.loot.kills_pending + b.loot.prev_enemy_count <= u32::MAX,
        inp.tick <= TICK_LIMIT,
    ensures
        b.plan(p, inp, t).typed ==> seq![b.queue_with(inp)[0]] + after.typing.queue@
            == b.queue_with(inp),
        !b.plan(p, inp, t).typed ==> after.typing.queue@ == b.queue_with(inp)
            && after.typing.next_tick == b.typing.next_tick,
        after.loot.kills_pending + (if b.plan(p, inp, t).looted {
            1int
        } else {
            0
        }) == b.loot.kills_pending + (if p.battle.enemy_count < b.loot.prev_enemy_count {
            b.loot.prev_enemy_count - p.battle.enemy_count
        } else {
            0
        }),
        b.plan(p, inp, t).looted ==> after.loot.next_tick == inp.tick + 90,
        !b.plan(p, inp, t).looted ==> after.loot.next_tick == b.loot.next_tick,
        after.loot.prev_enemy_count == p.battle.enemy_count,
{
    let q = b.queue_with(inp);
    if b.plan(p, inp, t).typed {
        assert(seq![q[0]] + q.drop_first() =~= q);
    }
}

} // verus!
