//! The state that the loop publishes and operators read.

use std::collections::VecDeque;
use vstd::prelude::*;
use vstd::std_specs::vecdeque::*;
use crate::fsm::FsmState;
use crate::perception::{MatcherStats, Perception};
use crate::units::{Nanos, Ppm};

verus! {

/// How many combat events are kept.
pub const COMBAT_EVENTS_CAP: usize = 200;

/// The character's figures, as far as vision has read them.
#[derive(Clone, Copy, Debug)]
pub struct CharStatus {
    /// Current and greatest health.
    pub hp: Option<(u32, u32)>,
    /// Current and greatest mana.
    pub mana: Option<(u32, u32)>,
    pub stamina: Option<u32>,
    pub level: Option<u32>,
    pub in_battle: bool,
}

/// What the waypoint system is used for.
#[derive(Debug)]
pub enum WaypointMode {
    Idle,
    Hunting,
    Returning,
    Custom(String),
}

/// Counters and latencies of the loop.
#[derive(Clone, Copy, Debug, PartialEq, Eq, Structural)]
pub struct Metrics {
    /// Ticks processed.
    pub ticks_total: u64,
    /// Ticks that took longer than their budget.
    pub ticks_overrun: u64,
    /// Rolling mean of the capture latency.
    pub ndi_latency: Nanos,
    /// Rolling mean of the time from a command to its answer.
    pub pico_latency: Nanos,
    /// Rolling mean of the processing time of a tick.
    pub bot_proc: Nanos,
}

/// The waypoint list, as operators see it.
#[derive(Debug)]
pub struct WaypointStatus {
    pub loaded: bool,
    pub enabled: bool,
    pub total_steps: usize,
    pub current_index: Option<usize>,
    pub current_label: Option<String>,
    pub loop_: bool,
}

/// The script engine, as operators see it.
#[derive(Debug)]
pub struct ScriptStatus {
    pub enabled: bool,
    pub loaded_files: Vec<String>,
    pub last_errors: Vec<String>,
}

/// The internal state of the state machine, as operators see it.
#[derive(Debug)]
pub struct FsmDebugSnapshot {
    pub state: String,
    pub next_heal_tick: Option<u64>,
    pub next_attack_tick: Option<u64>,
    pub attack_keepalive_tick: Option<u64>,
    pub prev_target_active: Option<bool>,
}

/// A moment at which keys went out.
#[derive(Debug)]
pub struct CombatEvent {
    pub tick: u64,
    /// Milliseconds since the epoch.
    pub ts_ms: u64,
    pub fsm_state: String,
    /// The keys, with what asked for each.
    pub action: String,
    pub reason: String,
    pub hp_ratio: Option<Ppm>,
    pub target_active: Option<bool>,
    pub enemy_count: u32,
}

/// Keys sent, by what they were for.
#[derive(Clone, Copy, Debug, PartialEq, Eq, Structural)]
pub struct DispatchStats {
    pub attacks_total: u64,
    pub heals_total: u64,
    pub mana_total: u64,
    pub other_total: u64,
    /// Milliseconds since the epoch of the last attack.
    pub last_attack_ms: Option<u64>,
    pub last_heal_ms: Option<u64>,
    pub last_mana_ms: Option<u64>,
}

/// The target reader, as operators see it.
#[derive(Clone, Copy, Debug, PartialEq, Eq, Structural)]
pub struct TargetDebug {
    pub configured: bool,
    pub active: Option<bool>,
    pub hits: u32,
    pub threshold_used: u32,
}

/// The cavebot, as operators see it.
#[derive(Debug)]
pub struct CavebotSnapshot {
    pub loaded: bool,
    pub enabled: bool,
    pub total_steps: usize,
    pub current_index: Option<usize>,
    pub current_label: Option<String>,
    pub current_kind: String,
    pub loop_: bool,
    pub hunt_profile: Option<String>,
    /// The current step waits for its effect to show.
    pub verifying: bool,
    pub expected_xp_per_hour: Option<u64>,
    pub expected_kills_per_hour: Option<u64>,
    pub expected_loot_gp_per_hour: Option<u64>,
    pub expected_cycle_min: Option<u32>,
}

/// The state shared between the loop and the operators' interface.
pub struct GameState {
    pub char_status: CharStatus,
    pub waypoint_mode: WaypointMode,
    /// The operator, or a safety rule, paused the bot.
    pub is_paused: bool,
    /// When the last tick started.
    pub last_tick_at: Option<Nanos>,
    /// The number of the current tick.
    pub tick: u64,
    pub metrics: Metrics,
    pub last_perception: Option<Perception>,
    pub fsm_state: FsmState,
    pub waypoint_status: WaypointStatus,
    pub script_status: ScriptStatus,
    /// Why a safety rule paused the bot.
    pub safety_pause_reason: Option<String>,
    /// Actions that the rate limiter dropped.
    pub safety_rate_dropped: u64,
    pub fsm_debug: FsmDebugSnapshot,
    /// The latest combat events, oldest first.
    pub combat_events: VecDeque<CombatEvent>,
    pub dispatch_stats: DispatchStats,
    pub target_debug: TargetDebug,
    pub cavebot_status: CavebotSnapshot,
    pub matcher_stats: Option<MatcherStats>,
    pub dataset_active: bool,
    pub dataset_crops_total: u64,
    pub dataset_dir: String,
}

/// The characters of an optional text.
pub open spec fn text_of(s: Option<String>) -> Option<Seq<char>> {
    match s {
        Some(t) => Some(t@),
        None => None,
    }
}

impl Default for CharStatus {
    fn default() -> (r: Self)
        ensures
            r == (CharStatus { hp: None, mana: None, stamina: None, level: None, in_battle: false }),
    {
        CharStatus { hp: None, mana: None, stamina: None, level: None, in_battle: false }
    }
}

impl Default for WaypointMode {
    fn default() -> (r: Self)
        ensures
            r is Idle,
    {
        WaypointMode::Idle
    }
}

impl Default for Metrics {
    fn default() -> (r: Self)
        ensures
            r == (Metrics {
                ticks_total: 0,
                ticks_overrun: 0,
                ndi_latency: 0,
                pico_latency: 0,
                bot_proc: 0,
            }),
    {
        Metrics { ticks_total: 0, ticks_overrun: 0, ndi_latency: 0, pico_latency: 0, bot_proc: 0 }
    }
}

impl WaypointStatus {
    /// No list is loaded.
    pub open spec fn is_blank(self) -> bool {
        &&& !self.loaded
        &&& !self.enabled
        &&& self.total_steps == 0
        &&& self.current_index is None
        &&& self.current_label is None
        &&& !self.loop_
    }
}

impl Default for WaypointStatus {
    fn default() -> (r: Self)
        ensures
            r.is_blank(),
    {
        WaypointStatus {
            loaded: false,
            enabled: false,
            total_steps: 0,
            current_index: None,
            current_label: None,
            loop_: false,
        }
    }
}

impl ScriptStatus {
    /// No engine runs.
    pub open spec fn is_blank(self) -> bool {
        &&& !self.enabled
        &&& self.loaded_files@.len() == 0
        &&& self.last_errors@.len() == 0
    }
}

impl Default for ScriptStatus {
    fn default() -> (r: Self)
        ensures
            r.is_blank(),
    {
        ScriptStatus { enabled: false, loaded_files: Vec::new(), last_errors: Vec::new() }
    }
}

impl Default for FsmDebugSnapshot {
    fn default() -> (r: Self)
        ensures
            r.state@ == Seq::<char>::empty(),
            r.next_heal_tick is None,
            r.next_attack_tick is None,
            r.attack_keepalive_tick is None,
            r.prev_target_active is None,
    {
        FsmDebugSnapshot {
            state: String::new(),
            next_heal_tick: None,
            next_attack_tick: None,
            attack_keepalive_tick: None,
            prev_target_active: None,
        }
    }
}

impl Default for DispatchStats {
    fn default() -> (r: Self)
        ensures
            r == (DispatchStats {
                attacks_total: 0,
                heals_total: 0,
                mana_total: 0,
                other_total: 0,
                last_attack_ms: None,
                last_heal_ms: None,
                last_mana_ms: None,
            }),
    {
        DispatchStats {
            attacks_total: 0,
            heals_total: 0,
            mana_total: 0,
            other_total: 0,
            last_attack_ms: None,
            last_heal_ms: None,
            last_mana_ms: None,
        }
    }
}

impl Default for TargetDebug {
    fn default() -> (r: Self)
        ensures
            r == (TargetDebug { configured: false, active: None, hits: 0, threshold_used: 0 }),
    {
        TargetDebug { configured: false, active: None, hits: 0, threshold_used: 0 }
    }
}

impl CavebotSnapshot {
    /// No cavebot is loaded.
    pub open spec fn is_blank(self) -> bool {
        &&& !self.loaded
        &&& !self.enabled
        &&& self.total_steps == 0
        &&& self.current_index is None
        &&& self.current_label is None
        &&& self.current_kind@ == Seq::<char>::empty()
        &&& !self.loop_
        &&& self.hunt_profile is None
        &&& !self.verifying
        &&& self.expected_xp_per_hour is None
        &&& self.expected_kills_per_hour is None
        &&& self.expected_loot_gp_per_hour is None
        &&& self.expected_cycle_min is None
    }
}

impl Default for CavebotSnapshot {
    fn default() -> (r: Self)
        ensures
            r.is_blank(),
    {
        CavebotSnapshot {
            loaded: false,
            enabled: false,
            total_steps: 0,
            current_index: None,
            current_label: None,
            current_kind: String::new(),
            loop_: false,
            hunt_profile: None,
            verifying: false,
            expected_xp_per_hour: None,
            expected_kills_per_hour: None,
            expected_loot_gp_per_hour: None,
            expected_cycle_min: None,
        }
    }
}

impl GameState {
    /// No more combat events are kept than the cap allows.
    pub open spec fn wf(self) -> bool {
        self.combat_events@.len() <= COMBAT_EVENTS_CAP
    }
}

impl Default for GameState {
    fn default() -> (r: Self)
        ensures
            r.wf(),
            r.tick == 0,
            !r.is_paused,
            r.fsm_state == FsmState::Idle,
            r.safety_pause_reason is None,
            r.safety_rate_dropped == 0,
            r.last_tick_at is None,
            r.last_perception is None,
            r.matcher_stats is None,
            r.combat_events@ == Seq::<CombatEvent>::empty(),
            r.waypoint_mode is Idle,
            r.waypoint_status.is_blank(),
            r.script_status.is_blank(),
            r.cavebot_status.is_blank(),
            r.metrics == (Metrics {
                ticks_total: 0,
                ticks_overrun: 0,
                ndi_latency: 0,
                pico_latency: 0,
                bot_proc: 0,
            }),
            r.dispatch_stats == (DispatchStats {
                attacks_total: 0,
                heals_total: 0,
                mana_total: 0,
                other_total: 0,
                last_attack_ms: None,
                last_heal_ms: None,
                last_mana_ms: None,
            }),
            !r.dataset_active,
            r.dataset_crops_total == 0,
            r.dataset_dir@ == Seq::<char>::empty(),
    {
        GameState {
            char_status: CharStatus::default(),
            waypoint_mode: WaypointMode::default(),
            is_paused: false,
            last_tick_at: None,
            tick: 0,
            metrics: Metrics::default(),
            last_perception: None,
            fsm_state: FsmState::Idle,
            waypoint_status: WaypointStatus::default(),
            script_status: ScriptStatus::default(),
            safety_pause_reason: None,
            safety_rate_dropped: 0,
            fsm_debug: FsmDebugSnapshot::default(),
            combat_events: VecDeque::new(),
            dispatch_stats: DispatchStats::default(),
            target_debug: TargetDebug::default(),
            cavebot_status: CavebotSnapshot::default(),
            matcher_stats: None,
            dataset_active: false,
            dataset_crops_total: 0,
            dataset_dir: String::new(),
        }
    }
}

} // verus!
