//! The state of the bot, as operators and monitors read it.

use vstd::prelude::*;
use vstd::string::*;

use crate::instrumentation::registry::MetricsRegistry;
use crate::loop_::pause::copy_text;
use crate::perception::Perception;
use crate::remote::access::HealthDetails;
use crate::remote::requests::{total_count, total_of};
use crate::scripting::engine::ScriptEngine;
use crate::state::{text_of, GameState, ScriptStatus};
use crate::text::{is_blank, texts};
use crate::units::Ppm;

verus! {

/// A ratio in tenths of a percent, rounded to the nearest.
pub fn percent_tenths(ratio: Ppm) -> (r: u32)
    ensures
        r == (ratio + 500) / 1000,
        -500 <= 1000 * r - ratio <= 500,
{
    ((ratio as u64 + 500) / 1000) as u32
}

/// What a liveness check looks at, where the latest frame has the given age.
pub fn health_details(g: &GameState, frame_age_ms: Option<u64>) -> (r: HealthDetails)
    ensures
        r.has_frame == (frame_age_ms is Some),
        r.frame_age_ms == frame_age_ms,
        r.is_paused == g.is_paused,
        text_of(r.safety_pause_reason) == text_of(g.safety_pause_reason),
        r.ticks_total == g.metrics.ticks_total,
        r.ticks_overrun == g.metrics.ticks_overrun,
        r.ndi_latency == g.metrics.ndi_latency,
        r.pico_latency == g.metrics.pico_latency,
        r.bot_proc == g.metrics.bot_proc,
        r.fsm_state@ == g.fsm_state.name_spec(),
{
    HealthDetails {
        has_frame: frame_age_ms.is_some(),
        frame_age_ms,
        is_paused: g.is_paused,
        safety_pause_reason: copy_text(&g.safety_pause_reason),
        ticks_total: g.metrics.ticks_total,
        ticks_overrun: g.metrics.ticks_overrun,
        ndi_latency: g.metrics.ndi_latency,
        pico_latency: g.metrics.pico_latency,
        bot_proc: g.metrics.bot_proc,
        fsm_state: g.fsm_state.name().to_owned(),
    }
}

/// Whether the vision system reads the health bar.
pub fn is_calibrated(seen: &Option<Perception>) -> (r: bool)
    ensures
        r == (seen matches Some(p) && p.vitals.hp is Some),
{
    match seen {
        Some(p) => p.vitals.hp.is_some(),
        None => false,
    }
}

/// What the loot reader sees, and whether looting is switched on.
#[derive(Clone, Copy, Debug, PartialEq, Eq, Structural)]
pub struct LootStatus {
    pub sparkles: u32,
    pub threshold: u32,
    pub loot_available: bool,
    pub auto_loot_enabled: bool,
}

/// The sparkles of a perception; none without one.
pub open spec fn sparkles_of(seen: Option<Perception>) -> u32 {
    match seen {
        Some(p) => p.loot_sparkles,
        None => 0,
    }
}

/// What the loot reader sees, and whether looting is switched on.
pub fn loot_status(seen: &Option<Perception>, threshold: u32, loot_hotkey: &str) -> (r: LootStatus)
    ensures
        r == (LootStatus {
            sparkles: sparkles_of(*seen),
            threshold,
            loot_available: sparkles_of(*seen) >= threshold,
            auto_loot_enabled: loot_hotkey@.len() > 0,
        }),
{
    let sparkles: u32 = match seen {
        Some(p) => p.loot_sparkles,
        None => 0,
    };
    LootStatus {
        sparkles,
        threshold,
        loot_available: sparkles >= threshold,
        auto_loot_enabled: !is_blank(loot_hotkey),
    }
}

/// The counters of a session.
#[derive(Clone, Copy, Debug, PartialEq, Eq, Structural)]
pub struct CountersSummary {
    pub ticks_total: u64,
    pub ticks_overrun: u64,
    pub frame_seq_gaps: u64,
    pub actions_emitted_total: u64,
    pub actions_acked_total: u64,
    pub actions_failed_total: u64,
}

/// The counters of a session, those of the actions added up over their kinds.
pub fn counters(r: &MetricsRegistry) -> (c: CountersSummary)
    ensures
        c == (CountersSummary {
            ticks_total: r.ticks_total,
            ticks_overrun: r.ticks_overrun,
            frame_seq_gaps: r.frame_seq_gaps,
            actions_emitted_total: total_of(r.actions_emitted@) as u64,
            actions_acked_total: total_of(r.actions_acked@) as u64,
            actions_failed_total: total_of(r.actions_failed@) as u64,
        }),
{
    CountersSummary {
        ticks_total: r.ticks_total,
        ticks_overrun: r.ticks_overrun,
        frame_seq_gaps: r.frame_seq_gaps,
        actions_emitted_total: total_count(&r.actions_emitted),
        actions_acked_total: total_count(&r.actions_acked),
        actions_failed_total: total_count(&r.actions_failed),
    }
}

fn copy_texts(list: &Vec<String>) -> (r: Vec<String>)
    ensures
        texts(r@) == texts(list@),
{
    let mut r: Vec<String> = Vec::new();
    let mut i: usize = 0;
    while i < list.len()
        invariant
            i <= list@.len(),
            texts(r@) == texts(list@).take(i as int),
        decreases list.len() - i,
    {
        let ghost before = r@;
        r.push(list[i].as_str().to_owned());
        i += 1;
        assert(texts(r@) =~= texts(before).push(list@[i - 1]@));
        assert(texts(list@).take(i as int) =~= texts(list@).take(i - 1).push(list@[i - 1]@));
    }
    assert(texts(list@).take(i as int) =~= texts(list@));
    r
}

/// The script engine, as operators see it; switched off where there is none.
pub fn snapshot_script_status(engine: Option<&ScriptEngine>) -> (r: ScriptStatus)
    ensures
        r.enabled == (engine is Some),
        engine matches Some(e) ==> texts(r.loaded_files@) == texts(e.record.loaded_files@)
            && texts(r.last_errors@) == texts(e.record.last_errors@),
        engine is None ==> r.loaded_files@.len() == 0 && r.last_errors@.len() == 0,
{
    match engine {
        Some(e) => ScriptStatus {
            enabled: true,
            loaded_files: copy_texts(e.loaded_files()),
            last_errors: copy_texts(e.last_errors()),
        },
        None => ScriptStatus { enabled: false, loaded_files: Vec::new(), last_errors: Vec::new() },
    }
}

} // verus!
