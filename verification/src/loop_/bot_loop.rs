//! The loop's own state, and what it does in each phase of a tick.

use vstd::prelude::*;
use crate::config::Hotkeys;
use crate::fsm::{
    BotAction, BotEvent, DecideContext, Fsm, FsmState, HealthGateDecision, WaypointHint,
    HP_CRITICAL_RATIO,
};
use crate::keycode::KeyMap;
use crate::loop_::commands::{
    cavebot_hint, waypoint_hint, CavebotAction, RouteModel, RouteRequest, Routes, WaypointOutcome,
};
use crate::loop_::kills::KillCounter;
use crate::loop_::loot::LootTracker;
use crate::loop_::pause::{
    after_break, after_focus, after_prompt, after_session, after_watchdog, copy_text, reason_is,
    PauseState, PromptReading,
};
use crate::loop_::schedule::{
    step_no_frame_watchdog, watchdog_counter, watchdog_step, NoFrameStep, NO_FRAME_PAUSE_TICKS,
};
use crate::loop_::typing::{keystrokes, TypingBuffer};
use crate::perception::{Perception, Sight};
use crate::safety::breaks::{BreakDraw, BreakScheduler, BreakStatus};
use crate::safety::human_noise::{HumanNoise, CLOCK_LIMIT};
use crate::safety::rate_limit::RateLimiter;
use crate::safety::reaction::ReactionGate;
use crate::safety::session_limit::SessionLimit;
use crate::safety::timing::{delay_fits, gauss_ticks_bound, FPS_LIMIT};
use crate::safety::variation::WeightedChoice;
use crate::scripting::ScriptResult;
use crate::spell_table::{cooldowns_fit, picked, SpellContext, SpellTable};
use crate::state::{text_of, GameState};
use crate::text::same;
use crate::units::{Nanos, Ppm, ONE};

verus! {

/// Last tick that the loop decides on: far beyond any uptime, and far enough
/// from the end of the tick count for every cooldown to fit.
pub const TICK_LIMIT: u64 = 0x4000_0000_0000_0000;

/// Longest fixed cooldown, in ticks.
pub const COOLDOWN_LIMIT_TICKS: u64 = 0x2000_0000_0000_0000;

/// Health that spells are judged by where none was read: neither full nor
/// critical.
pub const UNKNOWN_RATIO: Ppm = 500_000;

/// Health that the state machine is shown while a reaction to critical health
/// is held back.
pub const MASKED_HP: Ppm = 990_000;

/// Fixed settings of the loop.
#[derive(Clone, Copy, Debug, PartialEq, Eq, Structural)]
pub struct LoopSettings {
    pub target_fps: u32,
    /// Time that a tick may take.
    pub tick_budget: Nanos,
    pub cd_heal: u64,
    pub cd_attack: u64,
    pub humanize_timing: bool,
    pub heal_variation: bool,
    pub prompt_detection_enabled: bool,
    /// Spells are configured.
    pub has_spells: bool,
    /// Sparkles that count as loot in sight.
    pub loot_sparkle_threshold: u32,
    /// The target reader is calibrated.
    pub target_configured: bool,
}

/// The loop's state.
pub struct BotLoop {
    pub settings: LoopSettings,
    pub hotkeys: Hotkeys,
    pub keys: KeyMap,
    pub fsm: Fsm,
    pub hp_gate: ReactionGate,
    pub enemy_gate: ReactionGate,
    pub rate_limiter: RateLimiter,
    pub spell_table: SpellTable,
    pub heal_choice: WeightedChoice,
    pub breaks: Option<BreakScheduler>,
    pub session_limit: Option<SessionLimit>,
    /// The warning before the end of the session was given.
    pub session_warning_active: bool,
    pub human_noise: Option<HumanNoise>,
    pub routes: Routes,
    pub pause: PauseState,
    /// The previous tick kept the route from running.
    pub prev_was_interrupting: bool,
    /// State and pause reason that the scripts were last told.
    pub told_state: FsmState,
    pub told_reason: PauseState,
    pub kills: KillCounter,
    pub typing: TypingBuffer,
    pub loot: LootTracker,
    pub no_frame_ticks: u32,
}

/// The random draws of a tick, as standard scores.
#[derive(Debug)]
pub struct ThinkDraws {
    pub heal_z: i64,
    pub attack_z: i64,
    pub hp_gate_z: i64,
    pub enemy_gate_z: i64,
    pub spell_heal_z: i64,
    pub spell_attack_z: i64,
    pub breaks: Vec<BreakDraw>,
}

/// What a decision is made from, besides the perception.
#[derive(Debug)]
pub struct ThinkInputs {
    pub tick: u64,
    pub now: Nanos,
    /// The operator paused the bot.
    pub game_paused: bool,
    pub hint: WaypointHint,
    /// What the `on_tick` hook returned.
    pub on_tick: ScriptResult,
    /// What the `on_low_hp` hook returned, where it was called.
    pub on_low_hp: ScriptResult,
    pub prompt: PromptReading,
    pub focus_lost: bool,
    pub health_gate: HealthGateDecision,
    pub draws: ThinkDraws,
}

/// What came of a decision.
#[derive(Clone, Copy, Debug, PartialEq, Eq, Structural)]
pub struct Thought {
    /// The action of the state machine.
    pub action: BotAction,
    /// The key that a script asks for on top of it.
    pub tick_override: Option<u8>,
    pub heal_override: Option<u8>,
    pub attack_override: Option<u8>,
    /// The scripts are to be told the new state and pause reason.
    pub state_changed: bool,
    /// The cavebot is to be sent to its `refill` label.
    pub force_refill: bool,
    /// The session limit ended the session on this tick.
    pub session_ended: bool,
}

/// The key that a hook asks for, if it asks for one.
pub open spec fn hook_key(r: ScriptResult) -> Option<u8> {
    match r {
        ScriptResult::Hotkey(hid) => Some(hid),
        _ => None,
    }
}

/// Health is critical, as far as it was read.
pub open spec fn hp_critical(p: Perception) -> bool {
    p.hp() matches Some(r) && r < HP_CRITICAL_RATIO
}

/// What spells are judged by.
pub open spec fn spell_context(p: Perception, tick: u64) -> SpellContext {
    SpellContext {
        hp: match p.hp() {
            Some(r) => r,
            None => UNKNOWN_RATIO,
        },
        mana: match p.mana() {
            Some(r) => r,
            None => UNKNOWN_RATIO,
        },
        enemies: p.battle.enemy_count,
        tick,
    }
}

/// A reaction gate after a tick.
pub open spec fn gate_after(g: ReactionGate, is_true: bool, tick: u64, z: int) -> ReactionGate {
    ReactionGate { open_at: g.next_open_at(is_true, tick, z), was_true: is_true, ..g }
}

/// A reaction gate's delays are within the limits.
pub open spec fn gate_fits(g: ReactionGate) -> bool {
    delay_fits(
        g.mean_us as int,
        if g.stddev_us < 0 { 0 } else { g.stddev_us as int },
        g.fps as int,
    )
}

/// Whether the loop and the shared state are `next` and `after` once the cavebot's answer was taken
/// in.
pub open spec fn route_answered(
    now: BotLoop,
    game: GameState,
    action: CavebotAction,
    next: BotLoop,
    after: GameState,
) -> bool {
    &&& next.typing.queue@ == match action {
        CavebotAction::Say(text) => now.typing.queue@ + keystrokes(text@, now.keys),
        _ => now.typing.queue@,
    }
    &&& next.routes@ == if action is Finished || action is SafetyPause {
        RouteModel { cavebot_enabled: false, ..now.routes@ }
    } else {
        now.routes@
    }
    &&& next.pause@ == match action {
        CavebotAction::SafetyPause { reason } => Some(reason@),
        _ => now.pause@,
    }
    &&& text_of(after.safety_pause_reason) == match action {
        CavebotAction::SafetyPause { reason } => Some(reason@),
        _ => text_of(game.safety_pause_reason),
    }
    &&& after.is_paused == (game.is_paused || action is SafetyPause)
}

impl BotLoop {
    /// Every part is in order, and no delay or cooldown leaves the tick range.
    pub open spec fn wf(self) -> bool {
        &&& self.rate_limiter.wf()
        &&& self.loot.wf()
        &&& self.spell_table.wf()
        &&& self.heal_choice.wf()
        &&& self.breaks matches Some(b) ==> b.wf()
        &&& self.human_noise matches Some(h) ==> h.wf()
        &&& self.session_limit matches Some(s) ==> s.wf()
        &&& self.paced()
    }

    /// No delay or cooldown leaves the tick range.
    pub open spec fn paced(self) -> bool {
        &&& self.settings.cd_heal <= COOLDOWN_LIMIT_TICKS
        &&& self.settings.cd_attack <= COOLDOWN_LIMIT_TICKS
        &&& gate_fits(self.hp_gate)
        &&& gate_fits(self.enemy_gate)
        &&& self.fsm.timing matches Some(t) ==> {
            &&& delay_fits(
                t.heal_cd_mean_us as int,
                if t.heal_cd_std_us < 0 { 0 } else { t.heal_cd_std_us as int },
                t.fps as int,
            )
            &&& delay_fits(
                t.attack_cd_mean_us as int,
                if t.attack_cd_std_us < 0 { 0 } else { t.attack_cd_std_us as int },
                t.fps as int,
            )
        }
        &&& self.spell_table.jitter matches Some(j) ==> j.std_factor <= ONE && j.fps <= FPS_LIMIT
    }

    /// The pause reason after the safety rules of a tick: prompts, then breaks,
    /// then the focus, then the session limit; a later rule overrules an
    /// earlier one.
    pub open spec fn next_reason(self, p: Perception, inp: ThinkInputs) -> Option<Seq<char>> {
        let prompted = after_prompt(
            self.pause@,
            self.settings.prompt_detection_enabled,
            inp.prompt,
        );
        let status = match self.breaks {
            Some(b) => Some(b.status(inp.now, inp.draws.breaks@)),
            None => None,
        };
        after_session(
            after_focus(after_break(prompted, status, p.battle.has_enemies), inp.focus_lost),
            self.session_over(inp.tick),
        )
    }

    /// The session has lasted as long as it may.
    pub open spec fn session_over(self, tick: u64) -> bool {
        self.session_limit matches Some(sl) && sl.expired(tick)
    }

    /// The warning before the end of the session comes on this tick.
    pub open spec fn warns_now(self, tick: u64) -> bool {
        !self.session_warning_active && (self.session_limit matches Some(sl) && sl.warns(tick))
    }

    /// What the state machine sees: critical health, or else enemies, are
    /// hidden until the reaction to them is due.
    pub open spec fn masked_sight(self, p: Perception, inp: ThinkInputs) -> Sight {
        let sight = p.sight_spec();
        let hp_gate = gate_after(self.hp_gate, hp_critical(p), inp.tick, inp.draws.hp_gate_z as int);
        let enemy_gate = gate_after(
            self.enemy_gate,
            p.battle.has_enemies,
            inp.tick,
            inp.draws.enemy_gate_z as int,
        );
        if self.settings.humanize_timing && hp_critical(p) && !hp_gate.opened(inp.tick) {
            Sight { hp: Some(MASKED_HP), ..sight }
        } else if self.settings.humanize_timing && p.battle.has_enemies && !enemy_gate.opened(
            inp.tick,
        ) {
            Sight { has_enemies: false, ..sight }
        } else {
            sight
        }
    }

    /// The inputs of the state machine.
    pub open spec fn decide_context(
        self,
        p: Perception,
        inp: ThinkInputs,
        heal_override: Option<u8>,
        attack_override: Option<u8>,
    ) -> DecideContext {
        DecideContext {
            tick: inp.tick,
            is_paused: inp.game_paused,
            event: if self.next_reason(p, inp) is Some {
                BotEvent::PauseRequested
            } else {
                BotEvent::Tick
            },
            sight: self.masked_sight(p, inp),
            hotkeys: self.hotkeys,
            cd_heal: self.settings.cd_heal,
            cd_attack: self.settings.cd_attack,
            heal_z: inp.draws.heal_z,
            attack_z: inp.draws.attack_z,
            waypoint_hint: inp.hint,
            heal_override,
            attack_override,
            health_gate: inp.health_gate,
        }
    }

    /// The key that a script asks to heal with: its answer counts only while
    /// health is critical.
    pub open spec fn script_heal(self, p: Perception, inp: ThinkInputs) -> Option<u8> {
        if hp_critical(p) {
            hook_key(inp.on_low_hp)
        } else {
            None
        }
    }

    /// How the override keys come about. A script's key comes first. Without
    /// one, a bot with spells takes the first heal that may be cast, and one
    /// without draws between its heal keys, if it is set to. The attack key is
    /// the first attack that may be cast.
    pub open spec fn overrides_chosen(
        self,
        p: Perception,
        inp: ThinkInputs,
        between: Map<u8, u64>,
        after: Map<u8, u64>,
        heal: Option<u8>,
        attack: Option<u8>,
    ) -> bool {
        let ctx = spell_context(p, inp.tick);
        let t = self.spell_table;
        let before = t.cooldowns@;
        &&& if self.script_heal(p, inp) is Some {
            heal == self.script_heal(p, inp) && between == before
        } else if self.settings.has_spells {
            picked(
                t.heals@,
                t.jitter,
                ctx,
                inp.draws.spell_heal_z as int,
                before,
                between,
                heal,
            )
        } else if self.settings.heal_variation {
            between == before && (heal is None <==> self.heal_choice.total == 0) && (heal is Some
                ==> exists|roll: nat|
                roll < self.heal_choice.total && heal == #[trigger] crate::safety::variation::owner(
                    self.heal_choice.choices@,
                    roll,
                ))
        } else {
            heal is None && between == before
        }
        &&& picked(
            t.attacks@,
            t.jitter,
            ctx,
            inp.draws.spell_attack_z as int,
            between,
            after,
            attack,
        )
    }

    /// Starts a tick: counts missing frames, pauses the bot where there were
    /// too many in a row, and lifts that pause once frames are back.
    pub fn begin_tick(&mut self, game: &mut GameState, has_frame: bool)
        ensures
            final(self).no_frame_ticks == watchdog_counter(
                old(self).no_frame_ticks,
                has_frame,
                NO_FRAME_PAUSE_TICKS,
            ),
            ({
                let step = watchdog_step(old(self).no_frame_ticks, has_frame, NO_FRAME_PAUSE_TICKS);
                &&& final(self).pause@ == after_watchdog(old(self).pause@, step)
                &&& text_of(final(game).safety_pause_reason) == after_watchdog(
                    text_of(old(game).safety_pause_reason),
                    step,
                )
                &&& final(game).is_paused == (old(game).is_paused || step
                    == NoFrameStep::TriggerPause)
            }),
            has_frame ==> final(self).no_frame_ticks == 0 && final(game).is_paused == old(
                game,
            ).is_paused && final(self).pause@ != Some("vision:no_frame"@),
            !has_frame && old(self).no_frame_ticks < 119 ==> final(self).no_frame_ticks == old(
                self,
            ).no_frame_ticks + 1 && final(self).pause@ == old(self).pause@ && final(game).is_paused
                == old(game).is_paused,
            !has_frame && old(self).no_frame_ticks >= 119 ==> final(self).no_frame_ticks == 0
                && final(self).pause@ == Some("vision:no_frame"@) && final(game).is_paused && text_of(
                final(game).safety_pause_reason,
            ) == Some("vision:no_frame"@),
            *final(self) == (BotLoop {
                no_frame_ticks: final(self).no_frame_ticks,
                pause: final(self).pause,
                ..*old(self)
            }),
            *final(game) == (GameState {
                is_paused: final(game).is_paused,
                safety_pause_reason: final(game).safety_pause_reason,
                ..*old(game)
            }),
    {
        let step = step_no_frame_watchdog(&mut self.no_frame_ticks, has_frame, NO_FRAME_PAUSE_TICKS);
        match step {
            NoFrameStep::TriggerPause => {
                game.is_paused = true;
                game.safety_pause_reason = Some("vision:no_frame".to_owned());
            },
            NoFrameStep::FrameOk => {
                if reason_is(&game.safety_pause_reason, "vision:no_frame") {
                    game.safety_pause_reason = None;
                }
            },
            NoFrameStep::Accumulating => {},
        }
        self.pause.on_watchdog(step);
    }

    /// Takes in what was seen, and says whether the routes are to restart their
    /// current step because the previous tick kept them from running.
    pub fn observe(&mut self, tick: u64, p: &Perception) -> (restart: bool)
        ensures
            *final(self) == (BotLoop { kills: old(self).kills.next(tick, *p), ..*old(self) }),
            restart == old(self).prev_was_interrupting,
    {
        self.kills.observe(tick, p);
        self.prev_was_interrupting
    }

    /// What the routes are asked on this tick.
    pub fn route_request(&self, cavebot_running: bool, waypoints_running: bool) -> (r: RouteRequest)
        ensures
            r == self.routes@.request(self.pause@ is Some, cavebot_running, waypoints_running),
    {
        self.routes.request(self.pause.is_paused(), cavebot_running, waypoints_running)
    }

    /// Takes in the cavebot's answer. A message is queued for typing; the end
    /// of the route switches the cavebot off; a safety pause does that too and
    /// pauses the bot.
    pub fn cavebot_answer(&mut self, game: &mut GameState, action: &CavebotAction) -> (hint:
        WaypointHint)
        ensures
            hint == cavebot_hint(*action),
            final(self).typing.queue@ == match *action {
                CavebotAction::Say(text) => old(self).typing.queue@ + keystrokes(
                    text@,
                    old(self).keys,
                ),
                _ => old(self).typing.queue@,
            },
            final(self).typing.next_tick == old(self).typing.next_tick,
            final(self).routes@ == if *action is Finished || *action is SafetyPause {
                RouteModel { cavebot_enabled: false, ..old(self).routes@ }
            } else {
                old(self).routes@
            },
            final(self).pause@ == match *action {
                CavebotAction::SafetyPause { reason } => Some(reason@),
                _ => old(self).pause@,
            },
            text_of(final(game).safety_pause_reason) == match *action {
                CavebotAction::SafetyPause { reason } => Some(reason@),
                _ => text_of(old(game).safety_pause_reason),
            },
            final(game).is_paused == (old(game).is_paused || *action is SafetyPause),
            route_answered(*old(self), *old(game), *action, *final(self), *final(game)),
            *final(self) == (BotLoop {
                typing: final(self).typing,
                routes: final(self).routes,
                pause: final(self).pause,
                ..*old(self)
            }),
            *final(game) == (GameState {
                is_paused: final(game).is_paused,
                safety_pause_reason: final(game).safety_pause_reason,
                ..*old(game)
            }),
    {
        match action {
            CavebotAction::Idle => WaypointHint::Active { emit: None },
            CavebotAction::KeyTap(hid) => WaypointHint::Active {
                emit: Some(crate::fsm::WaypointEmit::KeyTap(*hid)),
            },
            CavebotAction::Click { vx, vy } => WaypointHint::Active {
                emit: Some(crate::fsm::WaypointEmit::Click { vx: *vx, vy: *vy }),
            },
            CavebotAction::RightClick { vx, vy } => WaypointHint::Active {
                emit: Some(crate::fsm::WaypointEmit::RightClick { vx: *vx, vy: *vy }),
            },
            CavebotAction::Say(text) => {
                self.typing.enqueue(text.as_str(), &self.keys);
                WaypointHint::Active { emit: None }
            },
            CavebotAction::Finished => {
                self.routes.cavebot_enabled = false;
                WaypointHint::Inactive
            },
            CavebotAction::SafetyPause { reason } => {
                game.is_paused = true;
                game.safety_pause_reason = Some(reason.as_str().to_owned());
                self.pause.set(reason.as_str());
                self.routes.cavebot_enabled = false;
                WaypointHint::Inactive
            },
        }
    }

    /// Takes in the waypoint list's answer. A list that is stuck is switched
    /// off.
    pub fn waypoint_answer(&mut self, outcome: WaypointOutcome) -> (hint: WaypointHint)
        ensures
            hint == waypoint_hint(outcome),
            final(self).routes@ == if outcome is Stuck {
                RouteModel { waypoints_enabled: false, ..old(self).routes@ }
            } else {
                old(self).routes@
            },
            *final(self) == (BotLoop { routes: final(self).routes, ..*old(self) }),
    {
        match outcome {
            WaypointOutcome::Stuck => {
                self.routes.waypoints_enabled = false;
                WaypointHint::Inactive
            },
            WaypointOutcome::Step(Some(hid)) => WaypointHint::Active {
                emit: Some(crate::fsm::WaypointEmit::KeyTap(hid)),
            },
            WaypointOutcome::Step(None) => WaypointHint::Active { emit: None },
        }
    }

    /// Whether health is so low that scripts are asked what to heal with.
    pub fn is_hp_critical(p: &Perception) -> (r: bool)
        ensures
            r == hp_critical(*p),
    {
        match p.hp_ratio() {
            Some(r) => r < HP_CRITICAL_RATIO,
            None => false,
        }
    }
}

/// A cavebot that is done is switched off and pauses nothing. One that finds something wrong is
/// switched off and pauses the bot for its own reason. A message waits to be typed. Any other
/// answer changes nothing.
pub proof fn a_cavebot_changes_what_it_answers(
    now: BotLoop,
    game: GameState,
    action: CavebotAction,
    next: BotLoop,
    after: GameState,
)
    requires
        route_answered(now, game, action, next, after),
    ensures
        action is Finished ==> !next.routes.cavebot_enabled && after.is_paused == game.is_paused
            && next.pause@ == now.pause@,
        action matches CavebotAction::SafetyPause { reason } ==> !next.routes.cavebot_enabled
            && after.is_paused && next.pause@ == Some(reason@) && after.safety_pause_reason is Some
            && after.safety_pause_reason->0@ == reason@,
        action matches CavebotAction::Say(text) ==> next.typing.queue@.len() > now.typing.queue@.len()
            && next.typing.queue@.take(now.typing.queue@.len() as int) == now.typing.queue@
            && next.typing.queue@[now.typing.queue@.len() as int] == 0x28
            && next.typing.queue@.last() == 0x28,
        !(action is Say) ==> next.typing.queue@ == now.typing.queue@,
        !(action is Finished || action is SafetyPause) ==> next.routes@ == now.routes@
            && after.is_paused == game.is_paused && next.pause@ == now.pause@,
        next.routes.waypoints_enabled == now.routes.waypoints_enabled,
{
    if let CavebotAction::Say(text) = action {
        let q = now.typing.queue@;
        let k = keystrokes(text@, now.keys);
        assert(next.typing.queue@.take(q.len() as int) =~= q);
        assert(next.typing.queue@[q.len() as int] == k[0]);
        assert(next.typing.queue@.last() == k.last());
    }
    assert(next.routes@.cavebot_enabled == next.routes.cavebot_enabled);
    assert(next.routes@.waypoints_enabled == next.routes.waypoints_enabled);
    assert(now.routes@.waypoints_enabled == now.routes.waypoints_enabled);
}

} // verus!
