//! What the operator is told of the state of the bot.

use tibia_bot::boot::{apply_geometry, screen_trouble, Geometry, WindowRect};
use tibia_bot::config::CoordsConfig;
use tibia_bot::instrumentation::registry::MetricsRegistry;
use tibia_bot::instrumentation::tick::{ActionKindTag, TickMetrics};
use tibia_bot::perception::{Perception, VitalBar};
use tibia_bot::remote::access::determine_health;
use tibia_bot::remote::requests::{ack_jump, ack_recording};
use tibia_bot::remote::status::{
    counters, health_details, is_calibrated, loot_status, percent_tenths, snapshot_script_status,
    LootStatus,
};
use tibia_bot::scripting::engine::{DirListing, ScriptEngine};
use tibia_bot::scripting::files::ScriptFile;
use tibia_bot::state::GameState;

#[test]
fn ratios_are_shown_in_tenths_of_a_percent() {
    assert_eq!(percent_tenths(0), 0);
    assert_eq!(percent_tenths(499), 0);
    assert_eq!(percent_tenths(500), 1);
    assert_eq!(percent_tenths(876_543), 877);
    assert_eq!(percent_tenths(1_000_000), 1000);
}

#[test]
fn liveness_is_told_from_the_published_state() {
    let mut g = GameState::default();
    g.metrics.ticks_total = 7;
    let d = health_details(&g, Some(100));
    assert!(d.has_frame);
    assert_eq!(d.fsm_state, "Idle");
    assert_eq!(determine_health(&d), (true, "ok"));

    g.is_paused = true;
    g.safety_pause_reason = Some("prompt:login".to_string());
    assert_eq!(determine_health(&health_details(&g, Some(100))), (false, "paused_login"));
    assert_eq!(determine_health(&health_details(&g, None)), (false, "no_frame"));
}

#[test]
fn a_health_bar_in_sight_means_calibrated() {
    let mut p = Perception::blind(3);
    assert!(!is_calibrated(&None));
    assert!(!is_calibrated(&Some(p.clone())));
    p.vitals.hp = Some(VitalBar { ratio: 500_000, filled_px: 50, total_px: 100 });
    assert!(is_calibrated(&Some(p)));
}

#[test]
fn loot_is_there_from_the_threshold_on() {
    let mut p = Perception::blind(3);
    p.loot_sparkles = 40;
    let told = loot_status(&Some(p), 40, "F12");
    let expected = LootStatus {
        sparkles: 40,
        threshold: 40,
        loot_available: true,
        auto_loot_enabled: true,
    };
    assert_eq!(told, expected);
    let told = loot_status(&None, 40, "");
    assert_eq!((told.sparkles, told.loot_available, told.auto_loot_enabled), (0, false, false));
}

#[test]
fn counters_add_up_over_the_kinds_of_actions() {
    let mut r = MetricsRegistry::new();
    r.record_tick(TickMetrics { last_action_kind: ActionKindTag::Heal, ..TickMetrics::default() });
    r.record_action_ack(ActionKindTag::Heal, 900, true);
    r.record_action_ack(ActionKindTag::Attack, 900, true);
    r.record_action_ack(ActionKindTag::Attack, 900, false);
    let c = counters(&r);
    assert_eq!(c.ticks_total, 1);
    assert_eq!(c.actions_acked_total, 2);
    assert_eq!(c.actions_failed_total, 1);
}

#[test]
fn the_script_status_lists_files_and_errors() {
    let none = snapshot_script_status(None);
    assert!(!none.enabled);
    assert!(none.loaded_files.is_empty() && none.last_errors.is_empty());

    let mut engine = ScriptEngine::new(5_000).unwrap();
    let file = |name: &str, source: &str| ScriptFile {
        path: format!("scripts/{name}"),
        name: name.to_string(),
        source: Ok(source.to_string()),
    };
    let files = vec![file("b.lua", "this is not lua"), file("a.lua", "x = 1")];
    engine.load_dir(DirListing::Files(files)).unwrap();
    let told = snapshot_script_status(Some(&engine));
    assert!(told.enabled);
    assert_eq!(told.loaded_files, vec!["scripts/a.lua".to_string()]);
    assert_eq!(told.last_errors.len(), 1);
}

fn on_screen(x: i32, y: i32, tibia: Option<WindowRect>) -> Geometry {
    Geometry { vscreen_x: x, vscreen_y: y, vscreen_w: 1920, vscreen_h: 1080, tibia }
}

#[test]
fn a_window_off_the_screen_is_reported() {
    let inside = WindowRect { x: 100, y: 100, w: 800, h: 600 };
    let outside = WindowRect { x: 1920, y: 0, w: 800, h: 600 };
    assert_eq!(screen_trouble(on_screen(0, 0, Some(inside))), None);
    assert_eq!(screen_trouble(on_screen(0, 0, None)), None);
    let trouble = screen_trouble(on_screen(0, 0, Some(outside))).unwrap();
    assert!(trouble.starts_with(
        "tibia_off_mapped_screen: center=(2320,300) vscreen=[0..1920,0..1080]."
    ));
}

#[test]
fn the_measured_geometry_replaces_the_configured_one() {
    let window = WindowRect { x: -5, y: 7, w: 0, h: 600 };
    let c = apply_geometry(CoordsConfig::default(), on_screen(-1920, 0, Some(window)));
    assert_eq!((c.vscreen_origin_x, c.vscreen_origin_y), (-1920, 0));
    assert_eq!((c.desktop_total_w, c.desktop_total_h), (1920, 1080));
    assert_eq!((c.tibia_window_x, c.tibia_window_y), (-5, 7));
    assert_eq!((c.tibia_window_w, c.tibia_window_h), (1, 600));
}

#[test]
fn jumps_and_recordings_are_acknowledged() {
    assert_eq!(ack_jump("refill", None).message, "queued JumpToCavebotLabel label='refill'");
    let failed = ack_jump("refill", Some("closed".to_string()));
    assert!(!failed.ok);
    assert_eq!(failed.message, "send error: closed");
    assert_eq!(ack_recording(None, None).message, "queued StartRecording path='session.jsonl'");
}
