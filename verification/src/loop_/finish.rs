//! What a tick leaves behind in the shared state.

use vstd::prelude::*;
use vstd::std_specs::vecdeque::*;
use crate::fsm::FsmState;
use crate::loop_::act::ActReport;
use crate::loop_::bot_loop::{BotLoop, TICK_LIMIT};
use crate::loop_::dispatch::{
    action_text, describe_emissions, key_count, one_more, record_emissions, stats_after, Emission,
};
use crate::loop_::pause::copy_text;
use crate::loop_::schedule::rolling_avg;
use crate::perception::{MatcherStats, Perception};
use crate::state::{
    text_of, CavebotSnapshot, CombatEvent, GameState, Metrics, ScriptStatus, TargetDebug,
    WaypointStatus, COMBAT_EVENTS_CAP,
};
use crate::units::Nanos;

verus! {

/// Samples that the mean processing time is taken over.
pub const PROC_SAMPLES: u32 = 30;

/// What a loaded waypoint list says of itself.
#[derive(Debug)]
pub struct WaypointListInfo {
    pub total_steps: usize,
    /// Index and label of the current step; `None` once the list is done.
    pub current: Option<(usize, String)>,
    pub loop_: bool,
}

/// What the other parts of the bot say of themselves at the end of a tick.
#[derive(Debug)]
pub struct TickSnapshots {
    pub waypoints: Option<WaypointListInfo>,
    pub cavebot: CavebotSnapshot,
    pub scripts: ScriptStatus,
    pub matcher: MatcherStats,
}

/// When a tick started, how long it took, and the wall clock at its end.
#[derive(Clone, Copy, Debug, PartialEq, Eq, Structural)]
pub struct TickTimes {
    pub started_at: Nanos,
    pub elapsed: Nanos,
    /// Milliseconds since the epoch.
    pub now_ms: u64,
}

/// Why keys went out, in a word.
pub open spec fn event_reason(p: Perception) -> Seq<char> {
    if !p.battle.has_enemies {
        "idle"@
    } else {
        match p.target_active {
            Some(true) => "combat+target"@,
            Some(false) => "combat+no_target"@,
            None => "combat"@,
        }
    }
}

/// A combat event tells of the given tick.
pub open spec fn tells(
    e: CombatEvent,
    tick: u64,
    now_ms: u64,
    state: FsmState,
    emissions: Seq<Emission>,
    p: Perception,
) -> bool {
    &&& e.tick == tick
    &&& e.ts_ms == now_ms
    &&& e.fsm_state@ == state.name_spec()
    &&& e.action@ == action_text(emissions)
    &&& e.reason@ == event_reason(p)
    &&& e.hp_ratio == p.hp()
    &&& e.target_active == p.target_active
    &&& e.enemy_count == p.battle.enemy_count
}

/// The kept events after a new one: the oldest gives way once there are too
/// many.
pub open spec fn kept_with(events: Seq<CombatEvent>, e: CombatEvent) -> Seq<CombatEvent> {
    if events.len() >= COMBAT_EVENTS_CAP {
        events.push(e).drop_first()
    } else {
        events.push(e)
    }
}

/// The counters and latencies after a tick.
pub open spec fn metrics_after(m: Metrics, elapsed: Nanos, budget: Nanos) -> Metrics {
    Metrics {
        ticks_total: one_more(m.ticks_total),
        ticks_overrun: if elapsed > budget { one_more(m.ticks_overrun) } else { m.ticks_overrun },
        bot_proc: ((m.bot_proc * 29 + elapsed) / 30) as u64,
        ..m
    }
}

/// A waypoint list's status tells of the list and of the switch.
pub open spec fn waypoint_status_tells(
    s: WaypointStatus,
    list: Option<WaypointListInfo>,
    enabled: bool,
) -> bool {
    match list {
        None => s.is_blank(),
        Some(l) => {
            &&& s.loaded
            &&& s.enabled == enabled
            &&& s.total_steps == l.total_steps
            &&& s.current_index == match l.current {
                Some((i, _)) => Some(i),
                None => None,
            }
            &&& text_of(s.current_label) == match l.current {
                Some((_, label)) => Some(label@),
                None => None,
            }
            &&& s.loop_ == l.loop_
        },
    }
}

fn reason_of(p: &Perception) -> (r: String)
    ensures
        r@ == event_reason(*p),
{
    if !p.battle.has_enemies {
        "idle".to_owned()
    } else {
        match p.target_active {
            Some(true) => "combat+target".to_owned(),
            Some(false) => "combat+no_target".to_owned(),
            None => "combat".to_owned(),
        }
    }
}

fn keep_event(game: &mut GameState, event: CombatEvent)
    requires
        old(game).wf(),
    ensures
        final(game).wf(),
        final(game).combat_events@ == kept_with(old(game).combat_events@, event),
        *final(game) == (GameState { combat_events: final(game).combat_events, ..*old(game) }),
{
    game.combat_events.push_back(event);
    if game.combat_events.len() > COMBAT_EVENTS_CAP {
        let _ = game.combat_events.pop_front();
    }
    assert(game.combat_events@ =~= kept_with(old(game).combat_events@, event));
}

impl BotLoop {
    /// The waypoint list, as operators see it.
    pub fn snapshot_waypoint_status(&self, list: Option<WaypointListInfo>) -> (r: WaypointStatus)
        ensures
            waypoint_status_tells(r, list, self.routes.waypoints_enabled),
    {
        match list {
            None => WaypointStatus::default(),
            Some(l) => {
                let (current_index, current_label) = match l.current {
                    Some((i, label)) => (Some(i), Some(label)),
                    None => (None, None),
                };
                WaypointStatus {
                    loaded: true,
                    enabled: self.routes.waypoints_enabled,
                    total_steps: l.total_steps,
                    current_index,
                    current_label,
                    loop_: l.loop_,
                }
            },
        }
    }

    /// Ends a tick: publishes what happened, counts the keys that went out, and
    /// keeps a combat event where there were any.
    pub fn finish_tick(
        &self,
        game: &mut GameState,
        p: Perception,
        report: &ActReport,
        snaps: TickSnapshots,
        times: TickTimes,
    )
        requires
            old(game).wf(),
            old(game).tick <= TICK_LIMIT,
        ensures
            final(game).wf(),
            final(game).tick == old(game).tick + 1,
            final(game).last_tick_at == Some(times.started_at),
            final(game).fsm_state == self.fsm.state,
            waypoint_status_tells(
                final(game).waypoint_status,
                snaps.waypoints,
                self.routes.waypoints_enabled,
            ),
            final(game).cavebot_status == snaps.cavebot,
            final(game).script_status == snaps.scripts,
            final(game).matcher_stats == Some(snaps.matcher),
            text_of(final(game).safety_pause_reason) == self.pause@,
            final(game).safety_rate_dropped == self.rate_limiter.dropped,
            final(game).fsm_debug.state@ == self.fsm.state.name_spec(),
            final(game).fsm_debug.next_heal_tick == self.fsm.cooldowns.next_heal_tick,
            final(game).fsm_debug.next_attack_tick == self.fsm.cooldowns.next_attack_tick,
            final(game).fsm_debug.attack_keepalive_tick
                == self.fsm.cooldowns.attack_keepalive_tick,
            final(game).fsm_debug.prev_target_active == self.fsm.prev_target_active,
            final(game).target_debug == (TargetDebug {
                configured: self.settings.target_configured,
                active: p.target_active,
                hits: p.target_hits,
                threshold_used: 0,
            }),
            final(game).dispatch_stats == stats_after(
                old(game).dispatch_stats,
                report.emissions@,
                self.hotkeys,
                times.now_ms,
            ),
            key_count(report.emissions@) == 0 ==> final(game).combat_events@ == old(
                game,
            ).combat_events@,
            key_count(report.emissions@) > 0 ==> final(game).combat_events@.len() > 0 && tells(
                final(game).combat_events@.last(),
                final(game).tick,
                times.now_ms,
                self.fsm.state,
                report.emissions@,
                p,
            ) && final(game).combat_events@ == kept_with(
                old(game).combat_events@,
                final(game).combat_events@.last(),
            ),
            final(game).last_perception == Some(p),
            final(game).metrics == metrics_after(
                old(game).metrics,
                times.elapsed,
                self.settings.tick_budget,
            ),
            // The rest stays.
            final(game).char_status == old(game).char_status,
            final(game).waypoint_mode == old(game).waypoint_mode,
            final(game).is_paused == old(game).is_paused,
            final(game).dataset_active == old(game).dataset_active,
            final(game).dataset_crops_total == old(game).dataset_crops_total,
            final(game).dataset_dir == old(game).dataset_dir,
    {
        let (action, keys) = describe_emissions(&report.emissions);
        game.tick = game.tick + 1;
        game.last_tick_at = Some(times.started_at);
        game.fsm_state = self.fsm.state;
        game.waypoint_status = self.snapshot_waypoint_status(snaps.waypoints);
        game.cavebot_status = snaps.cavebot;
        game.script_status = snaps.scripts;
        game.matcher_stats = Some(snaps.matcher);
        game.safety_pause_reason = copy_text(&self.pause.reason);
        game.safety_rate_dropped = self.rate_limiter.dropped_count();
        game.fsm_debug = self.fsm.debug_snapshot();
        game.target_debug = TargetDebug {
            configured: self.settings.target_configured,
            active: p.target_active,
            hits: p.target_hits,
            threshold_used: 0,
        };
        record_emissions(
            &mut game.dispatch_stats,
            &report.emissions,
            &self.hotkeys,
            times.now_ms,
        );
        if keys > 0 {
            let event = CombatEvent {
                tick: game.tick,
                ts_ms: times.now_ms,
                fsm_state: self.fsm.state.name().to_owned(),
                action,
                reason: reason_of(&p),
                hp_ratio: p.hp_ratio(),
                target_active: p.target_active,
                enemy_count: p.battle.enemy_count,
            };
            keep_event(game, event);
        }
        game.last_perception = Some(p);
        game.metrics.ticks_total = game.metrics.ticks_total.saturating_add(1);
        game.metrics.bot_proc =
        rolling_avg(game.metrics.bot_proc, times.elapsed, PROC_SAMPLES);
        if times.elapsed > self.settings.tick_budget {
            game.metrics.ticks_overrun = game.metrics.ticks_overrun.saturating_add(1);
        }
    }
}

/// However many events come, the kept ones are the latest and no more than the
/// cap, oldest first.
pub proof fn latest_events_are_kept(events: Seq<CombatEvent>, e: CombatEvent)
    requires
        events.len() <= COMBAT_EVENTS_CAP,
    ensures
        kept_with(events, e).len() <= COMBAT_EVENTS_CAP,
        events.len() < 200 ==> kept_with(events, e) == events.push(e),
        events.len() == 200 ==> kept_with(events, e) == events.push(e).drop_first(),
        kept_with(events, e).last() == e,
        forall|i: int|
            0 <= i < kept_with(events, e).len() - 1 ==> #[trigger] kept_with(events, e)[i]
                == events[i + events.len() + 1 - kept_with(events, e).len()],
{
}

/// A tick counts once, and as an overrun exactly if it took longer than its budget. The mean
/// processing time moves one thirtieth of the way to the tick's, rounded down.
pub proof fn a_tick_is_counted_once(m: Metrics, elapsed: Nanos, budget: Nanos)
    requires
        m.ticks_total < u64::MAX,
        m.ticks_overrun < u64::MAX,
    ensures
        metrics_after(m, elapsed, budget).ticks_total == m.ticks_total + 1,
        elapsed > budget ==> metrics_after(m, elapsed, budget).ticks_overrun == m.ticks_overrun + 1,
        elapsed <= budget ==> metrics_after(m, elapsed, budget).ticks_overrun == m.ticks_overrun,
        30 * metrics_after(m, elapsed, budget).bot_proc <= 29 * m.bot_proc + elapsed < 30
            * metrics_after(m, elapsed, budget).bot_proc + 30,
        metrics_after(m, elapsed, budget).ndi_latency == m.ndi_latency,
        metrics_after(m, elapsed, budget).pico_latency == m.pico_latency,
{
}

/// The word that an event gives for its reason: idle without enemies, and else combat, with whether
/// there is a target where that can be seen.
pub proof fn an_event_says_what_was_seen(p: Perception)
    ensures
        !p.battle.has_enemies ==> event_reason(p) == "idle"@,
        p.battle.has_enemies && p.target_active == Some(true) ==> event_reason(p)
            == "combat+target"@,
        p.battle.has_enemies && p.target_active == Some(false) ==> event_reason(p)
            == "combat+no_target"@,
        p.battle.has_enemies && p.target_active is None ==> event_reason(p) == "combat"@,
{
    match p.target_active {
        Some(true) => {},
        Some(false) => {},
        None => {},
    }
}

/// A combat event tells of its tick: its number and time, the state, the keys and why they went
/// out, and the health, the target and the enemies that were seen.
pub proof fn an_event_tells_of_its_tick(
    e: CombatEvent,
    tick: u64,
    now_ms: u64,
    state: FsmState,
    emissions: Seq<Emission>,
    p: Perception,
)
    requires
        tells(e, tick, now_ms, state, emissions, p),
    ensures
        e.tick == tick,
        e.ts_ms == now_ms,
        state == FsmState::Fighting ==> e.fsm_state@ == "Fighting"@,
        state == FsmState::Emergency ==> e.fsm_state@ == "Emergency"@,
        state == FsmState::Walking ==> e.fsm_state@ == "Walking"@,
        state == FsmState::Idle ==> e.fsm_state@ == "Idle"@,
        state == FsmState::Paused ==> e.fsm_state@ == "Paused"@,
        p.vitals.hp matches Some(bar) ==> e.hp_ratio == Some(bar.ratio),
        p.vitals.hp is None ==> e.hp_ratio is None,
        e.target_active == p.target_active,
        e.enemy_count == p.battle.enemy_count,
        !p.battle.has_enemies ==> e.reason@ == "idle"@,
{
}

/// A waypoint list shows its own length, place and label, and whether it runs and repeats; without
/// one nothing is shown.
pub proof fn a_list_shows_its_own_place(
    s: WaypointStatus,
    total_steps: usize,
    i: usize,
    label: String,
    loop_: bool,
    enabled: bool,
)
    ensures
        waypoint_status_tells(
            s,
            Some(WaypointListInfo { total_steps, current: Some((i, label)), loop_ }),
            enabled,
        ) ==> s.loaded && s.enabled == enabled && s.total_steps == total_steps && s.current_index
            == Some(i) && s.current_label is Some && s.current_label->0@ == label@ && s.loop_
            == loop_,
        waypoint_status_tells(
            s,
            Some(WaypointListInfo { total_steps, current: None, loop_ }),
            enabled,
        ) ==> s.loaded && s.enabled == enabled && s.total_steps == total_steps
            && s.current_index is None && s.current_label is None && s.loop_ == loop_,
        waypoint_status_tells(s, None, enabled) ==> !s.loaded && !s.enabled && s.total_steps == 0
            && s.current_index is None,
{
}

} // verus!
