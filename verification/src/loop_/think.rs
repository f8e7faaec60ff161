//! Safety rules, overrides and the state machine's decision.

use vstd::prelude::*;
use crate::fsm::{BotEvent, DecideContext, FsmState};
use crate::loop_::bot_loop::{
    gate_after, gate_fits, hook_key, hp_critical, spell_context, BotLoop, ThinkInputs, Thought,
    MASKED_HP, TICK_LIMIT, UNKNOWN_RATIO,
};
use crate::loop_::pause::{copy_text, PauseState, PromptReading};
use crate::perception::{Perception, Sight};
use crate::safety::breaks::{draw_at, BreakKind, BreakScheduler, BreakStatus};
use crate::safety::human_noise::CLOCK_LIMIT;
use crate::safety::reaction::ReactionGate;
use crate::safety::session_limit::SessionLimit;
use crate::safety::timing::{delay_fits, gauss_ticks_bound};
use crate::scripting::ScriptResult;
use crate::spell_table::{
    cd_ticks, cooldowns_fit, within_limit, SpellContext, SpellEntry, SpellJitter,
    COOLDOWN_LIMIT_MS,
};
use crate::state::text_of;
use crate::text::same;
use crate::units::ONE;

verus! {

/// The break scheduler after a tick.
pub open spec fn breaks_after(
    before: Option<BreakScheduler>,
    after: Option<BreakScheduler>,
    inp: ThinkInputs,
) -> bool {
    match before {
        Some(b) => after matches Some(a) && a.levels@.len() == b.levels@.len() && forall|i: int|
            0 <= i < b.levels@.len() ==> #[trigger] a.levels@[i] == b.levels@[i].next(
                inp.now,
                draw_at(inp.draws.breaks@, i),
            ),
        None => after is None,
    }
}

proof fn spell_cooldowns_fit(entries: Seq<SpellEntry>, jitter: Option<SpellJitter>, tick: u64, z: int)
    requires
        within_limit(entries),
        tick <= TICK_LIMIT,
        jitter matches Some(j) ==> j.std_factor <= ONE && j.fps
            <= crate::safety::timing::FPS_LIMIT,
    ensures
        cooldowns_fit(entries, jitter, tick, z),
{
    assert forall|i: int| 0 <= i < entries.len() implies tick + cd_ticks(
        jitter,
        (#[trigger] entries[i]).cooldown_ms,
        z,
    ) <= u64::MAX by {
        let ms = entries[i].cooldown_ms;
        if let Some(j) = jitter {
            let mean = ms * 1_000;
            let f = j.std_factor as int;
            assert(0 <= mean * f <= mean * 1_000_000) by (nonlinear_arith)
                requires
                    0 <= mean,
                    0 <= f <= 1_000_000,
            ;
            gauss_ticks_bound(mean, mean * f / 1_000_000, j.fps as int, z);
        }
    }
}

fn same_reason(a: &Option<String>, b: &Option<String>) -> (r: bool)
    ensures
        r == (text_of(*a) == text_of(*b)),
{
    match a {
        Some(x) => match b {
            Some(y) => same(x.as_str(), y.as_str()),
            None => false,
        },
        None => b.is_none(),
    }
}

fn key_of_hook(r: &ScriptResult) -> (k: Option<u8>)
    ensures
        k == hook_key(*r),
{
    match r {
        ScriptResult::Hotkey(hid) => Some(*hid),
        ScriptResult::Noop => None,
        ScriptResult::Error(_) => None,
    }
}

impl BotLoop {
    /// The session limit after a tick: it is gone once it ended the session.
    pub open spec fn next_session(self, tick: u64) -> Option<SessionLimit> {
        if self.session_over(tick) {
            None
        } else {
            self.session_limit
        }
    }

    /// Applies the safety rules of a tick to the pause reason, the reaction
    /// gates, the breaks and the session limit.
    fn apply_safety(&mut self, p: &Perception, inp: &ThinkInputs)
        requires
            old(self).wf(),
            inp.tick <= TICK_LIMIT,
            inp.now <= CLOCK_LIMIT,
        ensures
            final(self).wf(),
            final(self).pause@ == old(self).next_reason(*p, *inp),
            final(self).hp_gate == gate_after(
                old(self).hp_gate,
                hp_critical(*p),
                inp.tick,
                inp.draws.hp_gate_z as int,
            ),
            final(self).enemy_gate == gate_after(
                old(self).enemy_gate,
                p.battle.has_enemies,
                inp.tick,
                inp.draws.enemy_gate_z as int,
            ),
            breaks_after(old(self).breaks, final(self).breaks, *inp),
            final(self).session_limit == old(self).next_session(inp.tick),
            final(self).session_warning_active == (old(self).session_warning_active || old(
                self,
            ).warns_now(inp.tick)),
            *final(self) == (BotLoop {
                pause: final(self).pause,
                hp_gate: final(self).hp_gate,
                enemy_gate: final(self).enemy_gate,
                breaks: final(self).breaks,
                session_limit: final(self).session_limit,
                session_warning_active: final(self).session_warning_active,
                ..*old(self)
            }),
    {
        self.pause.on_prompt(self.settings.prompt_detection_enabled, &inp.prompt);
        proof {
            let g = self.hp_gate;
            gauss_ticks_bound(
                g.mean_us as int,
                if g.stddev_us < 0 { 0 } else { g.stddev_us as int },
                g.fps as int,
                inp.draws.hp_gate_z as int,
            );
            let e = self.enemy_gate;
            gauss_ticks_bound(
                e.mean_us as int,
                if e.stddev_us < 0 { 0 } else { e.stddev_us as int },
                e.fps as int,
                inp.draws.enemy_gate_z as int,
            );
        }
        self.hp_gate.update(Self::is_hp_critical(p), inp.tick, inp.draws.hp_gate_z);
        self.enemy_gate.update(p.battle.has_enemies, inp.tick, inp.draws.enemy_gate_z);
        let status: Option<BreakStatus> = match &mut self.breaks {
            Some(sched) => Some(sched.tick(inp.now, &inp.draws.breaks)),
            None => None,
        };
        self.pause.on_break(status, p.battle.has_enemies);
        self.pause.on_focus(inp.focus_lost);
        let mut expired = false;
        match self.session_limit {
            Some(sl) => {
                if !self.session_warning_active && sl.is_warning(inp.tick) {
                    self.session_warning_active = true;
                }
                expired = sl.is_expired(inp.tick);
            },
            None => {},
        }
        if expired {
            self.session_limit = None;
        }
        self.pause.on_session(expired);
    }

    /// Chooses the keys that take the place of the configured heal and attack
    /// keys.
    fn choose_overrides(&mut self, p: &Perception, inp: &ThinkInputs) -> (r: (
        Option<u8>,
        Option<u8>,
    ))
        requires
            old(self).wf(),
            inp.tick <= TICK_LIMIT,
        ensures
            final(self).wf(),
            exists|between: Map<u8, u64>| #[trigger]
                old(self).overrides_chosen(
                    *p,
                    *inp,
                    between,
                    final(self).spell_table.cooldowns@,
                    r.0,
                    r.1,
                ),
            final(self).spell_table.heals == old(self).spell_table.heals,
            final(self).spell_table.attacks == old(self).spell_table.attacks,
            final(self).spell_table.jitter == old(self).spell_table.jitter,
            *final(self) == (BotLoop { spell_table: final(self).spell_table, ..*old(self) }),
    {
        let ctx = SpellContext {
            hp: match p.hp_ratio() {
                Some(r) => r,
                None => UNKNOWN_RATIO,
            },
            mana: match p.mana_ratio() {
                Some(r) => r,
                None => UNKNOWN_RATIO,
            },
            enemies: p.battle.enemy_count,
            tick: inp.tick,
        };
        assert(ctx == spell_context(*p, inp.tick));
        let scripted = if Self::is_hp_critical(p) {
            key_of_hook(&inp.on_low_hp)
        } else {
            None
        };
        proof {
            spell_cooldowns_fit(
                self.spell_table.heals@,
                self.spell_table.jitter,
                inp.tick,
                inp.draws.spell_heal_z as int,
            );
            spell_cooldowns_fit(
                self.spell_table.attacks@,
                self.spell_table.jitter,
                inp.tick,
                inp.draws.spell_attack_z as int,
            );
        }
        let heal = if scripted.is_some() {
            scripted
        } else if self.settings.has_spells {
            self.spell_table.pick_heal(&ctx, inp.draws.spell_heal_z)
        } else if self.settings.heal_variation {
            self.heal_choice.pick()
        } else {
            None
        };
        let ghost between = self.spell_table.cooldowns@;
        let attack = self.spell_table.pick_attack(&ctx, inp.draws.spell_attack_z);
        let chosen = (heal, attack);
        assert(old(self).overrides_chosen(
            *p,
            *inp,
            between,
            self.spell_table.cooldowns@,
            chosen.0,
            chosen.1,
        ));
        chosen
    }

    /// What the state machine is shown, once the gates have been updated.
    fn mask(&self, p: &Perception, tick: u64) -> (r: Sight)
        ensures
            r == if self.settings.humanize_timing && hp_critical(*p) && !self.hp_gate.opened(tick) {
                Sight { hp: Some(MASKED_HP), ..p.sight_spec() }
            } else if self.settings.humanize_timing && p.battle.has_enemies
                && !self.enemy_gate.opened(tick) {
                Sight { has_enemies: false, ..p.sight_spec() }
            } else {
                p.sight_spec()
            },
    {
        let mut sight = p.sight();
        if self.settings.humanize_timing && Self::is_hp_critical(p) && !self.hp_gate.is_open(
            tick,
        ) {
            sight.hp = Some(MASKED_HP);
        } else if self.settings.humanize_timing && p.battle.has_enemies && !self.enemy_gate.is_open(
            tick,
        ) {
            sight.has_enemies = false;
        }
        sight
    }

    /// Decides a tick: applies the safety rules, chooses the override keys and
    /// asks the state machine.
    pub fn think(&mut self, p: &Perception, inp: &ThinkInputs) -> (t: Thought)
        requires
            old(self).wf(),
            inp.tick <= TICK_LIMIT,
            inp.now <= CLOCK_LIMIT,
        ensures
            final(self).wf(),
            // Safety rules.
            final(self).pause@ == old(self).next_reason(*p, *inp),
            final(self).hp_gate == gate_after(
                old(self).hp_gate,
                hp_critical(*p),
                inp.tick,
                inp.draws.hp_gate_z as int,
            ),
            final(self).enemy_gate == gate_after(
                old(self).enemy_gate,
                p.battle.has_enemies,
                inp.tick,
                inp.draws.enemy_gate_z as int,
            ),
            breaks_after(old(self).breaks, final(self).breaks, *inp),
            final(self).session_limit == old(self).next_session(inp.tick),
            final(self).session_warning_active == (old(self).session_warning_active || old(
                self,
            ).warns_now(inp.tick)),
            t.session_ended == old(self).session_over(inp.tick),
            t.force_refill == (old(self).warns_now(inp.tick) && old(self).routes@.cavebot_enabled
                && old(self).routes@.cavebot_loaded),
            t.session_ended ==> old(self).session_limit is Some && final(self).session_limit is None
                && final(self).pause@ == Some("session:max_duration_reached"@),
            t.force_refill ==> !old(self).session_warning_active
                && final(self).session_warning_active && old(self).routes.cavebot_enabled && old(
                self,
            ).routes.cavebot_loaded,
            // Override keys.
            exists|between: Map<u8, u64>| #[trigger]
                old(self).overrides_chosen(
                    *p,
                    *inp,
                    between,
                    final(self).spell_table.cooldowns@,
                    t.heal_override,
                    t.attack_override,
                ),
            t.tick_override == hook_key(inp.on_tick),
            inp.on_tick is Hotkey ==> t.tick_override == Some(inp.on_tick->Hotkey_0),
            !(inp.on_tick is Hotkey) ==> t.tick_override is None,
            // Decision.
            ({
                let ctx = old(self).decide_context(*p, *inp, t.heal_override, t.attack_override);
                &&& final(self).fsm == old(self).fsm.next(ctx)
                &&& t.action == old(self).fsm.action(ctx)
            }),
            final(self).prev_was_interrupting == final(self).fsm.interrupts(),
            // What the scripts are told.
            t.state_changed == (final(self).fsm.state != old(self).told_state || final(self).pause@
                != old(self).told_reason@),
            !t.state_changed ==> final(self).fsm.state == old(self).told_state && final(self).pause@
                == old(self).told_reason@,
            final(self).told_state == final(self).fsm.state,
            final(self).told_reason@ == final(self).pause@,
            // The rest stays.
            final(self).spell_table.heals == old(self).spell_table.heals,
            final(self).spell_table.attacks == old(self).spell_table.attacks,
            final(self).spell_table.jitter == old(self).spell_table.jitter,
            *final(self) == (BotLoop {
                pause: final(self).pause,
                hp_gate: final(self).hp_gate,
                enemy_gate: final(self).enemy_gate,
                breaks: final(self).breaks,
                session_limit: final(self).session_limit,
                session_warning_active: final(self).session_warning_active,
                spell_table: final(self).spell_table,
                fsm: final(self).fsm,
                prev_was_interrupting: final(self).prev_was_interrupting,
                told_state: final(self).told_state,
                told_reason: final(self).told_reason,
                ..*old(self)
            }),
    {
        let warned_before = self.session_warning_active;
        let had_session = self.session_limit.is_some();
        self.apply_safety(p, inp);
        let force_refill = !warned_before && self.session_warning_active
            && self.routes.cavebot_enabled && self.routes.cavebot_loaded;
        let session_ended = had_session && self.session_limit.is_none();
        let paused = self.pause.is_paused();
        let ghost safe = *self;
        let (heal_override, attack_override) = self.choose_overrides(p, inp);
        let ctx = DecideContext {
            tick: inp.tick,
            is_paused: inp.game_paused,
            event: if paused { BotEvent::PauseRequested } else { BotEvent::Tick },
            sight: self.mask(p, inp.tick),
            hotkeys: self.hotkeys,
            cd_heal: self.settings.cd_heal,
            cd_attack: self.settings.cd_attack,
            heal_z: inp.draws.heal_z,
            attack_z: inp.draws.attack_z,
            waypoint_hint: inp.hint,
            heal_override,
            attack_override,
            health_gate: inp.health_gate,
        };
        proof {
            assert(ctx == old(self).decide_context(*p, *inp, heal_override, attack_override));
            let between = choose|between: Map<u8, u64>| #[trigger]
                safe.overrides_chosen(
                    *p,
                    *inp,
                    between,
                    self.spell_table.cooldowns@,
                    heal_override,
                    attack_override,
                );
            assert(old(self).overrides_chosen(
                *p,
                *inp,
                between,
                self.spell_table.cooldowns@,
                heal_override,
                attack_override,
            ));
            if let Some(t) = self.fsm.timing {
                gauss_ticks_bound(
                    t.heal_cd_mean_us as int,
                    if t.heal_cd_std_us < 0 { 0 } else { t.heal_cd_std_us as int },
                    t.fps as int,
                    ctx.heal_z as int,
                );
                gauss_ticks_bound(
                    t.attack_cd_mean_us as int,
                    if t.attack_cd_std_us < 0 { 0 } else { t.attack_cd_std_us as int },
                    t.fps as int,
                    ctx.attack_z as int,
                );
            }
        }
        let action = self.fsm.decide(&ctx);
        self.prev_was_interrupting = self.fsm.is_interrupting_waypoints();
        let state_changed = self.fsm.state != self.told_state || !same_reason(
            &self.pause.reason,
            &self.told_reason.reason,
        );
        self.told_state = self.fsm.state;
        self.told_reason = PauseState { reason: copy_text(&self.pause.reason) };
        Thought {
            action,
            tick_override: key_of_hook(&inp.on_tick),
            heal_override,
            attack_override,
            state_changed,
            force_refill,
            session_ended,
        }
    }
}

/// Whatever a safety rule pauses the bot for, the state machine pauses and
/// nothing of its own goes out.
pub proof fn safety_pause_stops_the_bot(
    b: BotLoop,
    p: Perception,
    inp: ThinkInputs,
    heal: Option<u8>,
    attack: Option<u8>,
)
    requires
        b.next_reason(p, inp) is Some,
    ensures
        ({
            let ctx = b.decide_context(p, inp, heal, attack);
            &&& b.fsm.next(ctx).state == FsmState::Paused
            &&& b.fsm.action(ctx) == crate::fsm::BotAction::Idle
        }),
{
}

/// With a human pace, critical health is no emergency before the reaction to
/// it is due, unless mana is critical too.
pub proof fn reaction_waits_for_health(
    b: BotLoop,
    p: Perception,
    inp: ThinkInputs,
    heal: Option<u8>,
    attack: Option<u8>,
)
    requires
        b.settings.humanize_timing,
        hp_critical(p),
        !gate_after(b.hp_gate, true, inp.tick, inp.draws.hp_gate_z as int).opened(inp.tick),
        p.mana() matches Some(m) ==> m >= crate::fsm::MANA_CRITICAL_RATIO,
    ensures
        b.fsm.next(b.decide_context(p, inp, heal, attack)).state != FsmState::Emergency,
{
}

/// With a human pace, enemies are not fought before the reaction to them is
/// due, as long as health is not critical.
pub proof fn reaction_waits_for_enemies(
    b: BotLoop,
    p: Perception,
    inp: ThinkInputs,
    heal: Option<u8>,
    attack: Option<u8>,
)
    requires
        b.settings.humanize_timing,
        !hp_critical(p),
        p.battle.has_enemies,
        !gate_after(b.enemy_gate, true, inp.tick, inp.draws.enemy_gate_z as int).opened(inp.tick),
    ensures
        b.fsm.next(b.decide_context(p, inp, heal, attack)).state != FsmState::Fighting,
{
}

/// A session that ends pauses the bot on the same tick, and the limit strikes
/// only once.
pub proof fn session_end_pauses_once(b: BotLoop, p: Perception, inp: ThinkInputs)
    requires
        b.session_over(inp.tick),
    ensures
        b.next_reason(p, inp) == Some("session:max_duration_reached"@),
        b.next_session(inp.tick) is None,
{
}

/// Without a human pace the state machine sees the bars, the enemies and the target as they were
/// read. With one, critical health is shown as nearly full until the reaction to it is due;
/// otherwise enemies are not shown until the reaction to them is. Nothing else is hidden.
pub proof fn the_machine_sees_what_it_may_react_to(b: BotLoop, p: Perception, inp: ThinkInputs)
    ensures
        !b.settings.humanize_timing ==> {
            &&& p.vitals.hp matches Some(bar) ==> b.masked_sight(p, inp).hp == Some(bar.ratio)
            &&& p.vitals.hp is None ==> b.masked_sight(p, inp).hp is None
            &&& b.masked_sight(p, inp).has_enemies == p.battle.has_enemies
        },
        p.vitals.mana matches Some(bar) ==> b.masked_sight(p, inp).mana == Some(bar.ratio),
        p.vitals.mana is None ==> b.masked_sight(p, inp).mana is None,
        b.masked_sight(p, inp).target_active == p.target_active,
        b.settings.humanize_timing && (p.vitals.hp matches Some(bar) && bar.ratio < 300_000)
            && !gate_after(b.hp_gate, true, inp.tick, inp.draws.hp_gate_z as int).opened(inp.tick)
            ==> b.masked_sight(p, inp).hp == Some(990_000u32) && b.masked_sight(p, inp).has_enemies
            == p.battle.has_enemies,
        b.settings.humanize_timing && (p.vitals.hp matches Some(bar) && bar.ratio < 300_000)
            && gate_after(b.hp_gate, true, inp.tick, inp.draws.hp_gate_z as int).opened(inp.tick)
            ==> b.masked_sight(p, inp).hp == Some(p.vitals.hp->0.ratio),
        b.settings.humanize_timing && (p.vitals.hp matches Some(bar) ==> bar.ratio >= 300_000)
            && p.battle.has_enemies ==> b.masked_sight(p, inp).has_enemies == gate_after(
            b.enemy_gate,
            true,
            inp.tick,
            inp.draws.enemy_gate_z as int,
        ).opened(inp.tick),
        (p.vitals.hp matches Some(bar) && bar.ratio >= 300_000) ==> b.masked_sight(p, inp).hp
            == Some(p.vitals.hp->0.ratio),
        !p.battle.has_enemies ==> !b.masked_sight(p, inp).has_enemies,
{
}

/// The state machine decides on the tick's own inputs: its number, whether the operator paused
/// the bot, the fixed cooldowns and keys, the tick's draws, the route's hint, the override keys
/// and what health lets through. A safety rule's reason asks it to pause.
pub proof fn the_machine_decides_on_the_inputs(
    b: BotLoop,
    p: Perception,
    inp: ThinkInputs,
    heal: Option<u8>,
    attack: Option<u8>,
)
    ensures
        ({
            let ctx = b.decide_context(p, inp, heal, attack);
            &&& ctx.tick == inp.tick
            &&& ctx.is_paused == inp.game_paused
            &&& (ctx.event == BotEvent::PauseRequested) == (b.next_reason(p, inp) is Some)
            &&& (ctx.event == BotEvent::Tick) == (b.next_reason(p, inp) is None)
            &&& ctx.hotkeys == b.hotkeys
            &&& ctx.cd_heal == b.settings.cd_heal
            &&& ctx.cd_attack == b.settings.cd_attack
            &&& ctx.heal_z == inp.draws.heal_z
            &&& ctx.attack_z == inp.draws.attack_z
            &&& ctx.waypoint_hint == inp.hint
            &&& ctx.heal_override == heal
            &&& ctx.attack_override == attack
            &&& ctx.health_gate == inp.health_gate
        }),
{
}

/// A later safety rule overrules an earlier one: the end of the session all, a lost window all but
/// that, a break that starts outside combat a prompt. A prompt stays where no other rule speaks.
pub proof fn later_rules_overrule_earlier_ones(
    b: BotLoop,
    p: Perception,
    inp: ThinkInputs,
    kind: BreakKind,
)
    ensures
        (b.session_limit matches Some(sl) && sl.max_ticks > 0 && inp.tick >= sl.start_tick
            + sl.max_ticks) ==> b.next_reason(p, inp) == Some("session:max_duration_reached"@),
        b.session_limit is None && inp.focus_lost ==> b.next_reason(p, inp) == Some(
            "focus:tibia_not_foreground"@,
        ),
        b.session_limit is None && !inp.focus_lost && b.breaks is None
            && b.settings.prompt_detection_enabled && (inp.prompt matches PromptReading::Seen(text)
            && text@ != "focus:tibia_not_foreground"@) ==> b.next_reason(p, inp) == Some(
            inp.prompt->Seen_0@,
        ),
        b.session_limit is None && !inp.focus_lost && !p.battle.has_enemies && (b.breaks matches Some(
            sched,
        ) && sched.status(inp.now, inp.draws.breaks@) == BreakStatus::Started(kind))
            ==> b.next_reason(p, inp) == Some(match kind {
            BreakKind::Micro => "break:micro"@,
            BreakKind::Medium => "break:medium"@,
            BreakKind::Long => "break:long"@,
        }),
        b.session_limit is None && !inp.focus_lost && b.breaks is None
            && inp.prompt is Pending && b.pause@ != Some("focus:tibia_not_foreground"@)
            ==> b.next_reason(p, inp) == b.pause@,
{
    reveal_strlit("focus:tibia_not_foreground");
    reveal_strlit("break:micro");
    reveal_strlit("break:medium");
    reveal_strlit("break:long");
    assert("focus:tibia_not_foreground"@[0] == 'f');
    assert("break:micro"@[0] == 'b' && "break:medium"@[0] == 'b' && "break:long"@[0] == 'b');
}

/// The session is over, and its limit gone, from its last tick on; the warning comes once, on the
/// first tick within its margin.
pub proof fn the_session_is_watched(b: BotLoop, tick: u64)
    requires
        b.session_limit matches Some(sl) ==> sl.wf() && sl.max_ticks > 0,
    ensures
        b.session_over(tick) == (b.session_limit matches Some(sl) && tick >= sl.start_tick
            + sl.max_ticks),
        b.next_session(tick) == (if b.session_over(tick) {
            None
        } else {
            b.session_limit
        }),
        b.session_warning_active ==> !b.warns_now(tick),
        b.warns_now(tick) ==> (b.session_limit matches Some(sl) && sl.warning_margin_ticks > 0),
        !b.session_warning_active && (b.session_limit matches Some(sl) && sl.warning_margin_ticks
            > 0 && tick + sl.warning_margin_ticks >= sl.start_tick + sl.max_ticks && tick
            >= sl.start_tick) ==> b.warns_now(tick),
{
}

/// In need of health the key of the script's hook heals, and no spell goes on cooldown for it.
/// Where the hook names none, or health is not critical, spells are tried if there are any; a bot
/// without spells and without variation heals with no key but its own. A bar that was not read
/// counts as half full.
pub proof fn the_heal_key_comes_from_where_it_may(
    b: BotLoop,
    p: Perception,
    inp: ThinkInputs,
    between: Map<u8, u64>,
    after: Map<u8, u64>,
    heal: Option<u8>,
    attack: Option<u8>,
)
    requires
        b.overrides_chosen(p, inp, between, after, heal, attack),
    ensures
        (p.vitals.hp matches Some(bar) && bar.ratio < 300_000) && inp.on_low_hp is Hotkey ==> heal
            == Some(inp.on_low_hp->Hotkey_0) && between == b.spell_table.cooldowns@,
        !b.settings.has_spells && !b.settings.heal_variation && ((p.vitals.hp matches Some(bar)
            ==> bar.ratio >= 300_000) || !(inp.on_low_hp is Hotkey)) ==> heal is None && between
            == b.spell_table.cooldowns@,
        b.settings.has_spells && ((p.vitals.hp matches Some(bar) ==> bar.ratio >= 300_000) || !(
        inp.on_low_hp is Hotkey)) ==> crate::spell_table::picked(
            b.spell_table.heals@,
            b.spell_table.jitter,
            SpellContext {
                hp: match p.vitals.hp {
                    Some(bar) => bar.ratio,
                    None => 500_000,
                },
                mana: match p.vitals.mana {
                    Some(bar) => bar.ratio,
                    None => 500_000,
                },
                enemies: p.battle.enemy_count,
                tick: inp.tick,
            },
            inp.draws.spell_heal_z as int,
            b.spell_table.cooldowns@,
            between,
            heal,
        ),
        crate::spell_table::picked(
            b.spell_table.attacks@,
            b.spell_table.jitter,
            SpellContext {
                hp: match p.vitals.hp {
                    Some(bar) => bar.ratio,
                    None => 500_000,
                },
                mana: match p.vitals.mana {
                    Some(bar) => bar.ratio,
                    None => 500_000,
                },
                enemies: p.battle.enemy_count,
                tick: inp.tick,
            },
            inp.draws.spell_attack_z as int,
            between,
            after,
            attack,
        ),
{
}

/// A bot without spells but with variation heals with one of its weighted keys, unless a script
/// names one or no key has weight.
pub proof fn variation_draws_between_the_weighted_keys(
    b: BotLoop,
    p: Perception,
    inp: ThinkInputs,
    between: Map<u8, u64>,
    after: Map<u8, u64>,
    heal: Option<u8>,
    attack: Option<u8>,
)
    requires
        b.overrides_chosen(p, inp, between, after, heal, attack),
        b.wf(),
        !b.settings.has_spells,
        b.settings.heal_variation,
        p.vitals.hp matches Some(bar) ==> bar.ratio >= 300_000,
    ensures
        between == b.spell_table.cooldowns@,
        heal matches Some(k) ==> exists|i: int|
            0 <= i < b.heal_choice.choices@.len() && (#[trigger] b.heal_choice.choices@[i]).0 == k
                && b.heal_choice.choices@[i].1 > 0,
        heal is None ==> crate::safety::variation::total_weight(b.heal_choice.choices@) == 0,
{
    if heal is Some {
        let roll = choose|roll: nat|
            roll < b.heal_choice.total && heal == #[trigger] crate::safety::variation::owner(
                b.heal_choice.choices@,
                roll,
            );
        crate::safety::variation::only_weight_is_chosen(b.heal_choice.choices@, roll);
    }
}

/// A hook asks for a key exactly if it returned one.
pub proof fn a_hook_asks_for_the_key_it_returns(r: ScriptResult)
    ensures
        r matches ScriptResult::Hotkey(k) ==> hook_key(r) == Some(k),
        !(r is Hotkey) ==> hook_key(r) is None,
{
}

/// A gate after a tick: armed with its delay where the condition is new, as before while it lasts,
/// disarmed without it.
pub proof fn a_gate_follows_its_condition(g: ReactionGate, is_true: bool, tick: u64, z: int)
    requires
        tick + g.delay(z) <= u64::MAX,
    ensures
        gate_after(g, is_true, tick, z).was_true == is_true,
        !is_true ==> gate_after(g, is_true, tick, z).open_at is None,
        is_true && g.was_true ==> gate_after(g, is_true, tick, z).open_at == g.open_at,
        is_true && !g.was_true ==> gate_after(g, is_true, tick, z).open_at == Some(
            (tick + g.delay(z)) as u64,
        ),
        gate_after(g, is_true, tick, z).mean_us == g.mean_us,
        gate_after(g, is_true, tick, z).stddev_us == g.stddev_us,
        gate_after(g, is_true, tick, z).fps == g.fps,
{
}

/// From what is read to what goes out: unless the bot is paused or in safe mode, health below
/// three tenths that may be reacted to presses the heal key, or the one chosen in its place, as
/// soon as the last answer has cooled down; with health read above that, mana below a fifth
/// presses the mana key, whatever was chosen.
pub proof fn need_is_answered_from_end_to_end(
    b: BotLoop,
    p: Perception,
    inp: ThinkInputs,
    heal: Option<u8>,
    attack: Option<u8>,
)
    requires
        b.next_reason(p, inp) is None,
        !inp.game_paused,
        !b.settings.humanize_timing,
        inp.health_gate.allow_emergency,
        b.fsm.cooldowns.next_heal_tick matches Some(t) ==> t <= inp.tick,
    ensures
        (p.vitals.hp matches Some(bar) && bar.ratio < 300_000) ==> b.fsm.action(
            b.decide_context(p, inp, heal, attack),
        ) == (crate::fsm::BotAction::UseHotkey {
            hidcode: match heal {
                Some(k) => k,
                None => b.hotkeys.heal_spell,
            },
        }),
        (p.vitals.hp matches Some(bar) ==> bar.ratio >= 300_000) && (p.vitals.mana matches Some(bar)
            && bar.ratio < 200_000) ==> b.fsm.action(b.decide_context(p, inp, heal, attack)) == (
        crate::fsm::BotAction::UseHotkey { hidcode: b.hotkeys.mana_spell }),
{
}

/// From what is read to what goes out: with neither bar in need, enemies in sight of a machine that
/// fought none before are attacked with the attack key, or the one chosen in its place; without
/// enemies the route goes on.
pub proof fn enemies_are_attacked_from_end_to_end(
    b: BotLoop,
    p: Perception,
    inp: ThinkInputs,
    heal: Option<u8>,
    attack: Option<u8>,
)
    requires
        b.next_reason(p, inp) is None,
        !inp.game_paused,
        !b.settings.humanize_timing,
        inp.health_gate.allow_emergency,
        inp.health_gate.allow_normal,
        p.vitals.hp matches Some(bar) ==> bar.ratio >= 300_000,
        p.vitals.mana matches Some(bar) ==> bar.ratio >= 200_000,
    ensures
        p.battle.has_enemies && p.target_active != Some(true) && b.fsm.prev_target_active is None
            && (b.fsm.cooldowns.next_attack_tick matches Some(t) ==> t <= inp.tick)
            ==> b.fsm.action(b.decide_context(p, inp, heal, attack)) == (
        crate::fsm::BotAction::UseHotkey {
            hidcode: match attack {
                Some(k) => k,
                None => b.hotkeys.attack_default,
            },
        }),
        p.battle.has_enemies && p.target_active == Some(true) ==> b.fsm.action(
            b.decide_context(p, inp, heal, attack),
        ) == crate::fsm::BotAction::Idle,
        !p.battle.has_enemies && inp.hint is Inactive ==> b.fsm.action(
            b.decide_context(p, inp, heal, attack),
        ) == crate::fsm::BotAction::Idle,
{
}

} // verus!
