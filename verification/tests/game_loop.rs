//! The loop: configuration, commands, pauses, typing, looting and whole ticks.

use tibia_bot::boot::{apply_geometry, screen_trouble, Geometry, WindowRect};
use tibia_bot::config::{
    ActionsConfig, CavebotConfig, Config, CoordsConfig, GameCoordsConfig, HttpConfig, LoopConfig,
    NdiConfig, PicoConfig, RecordingConfig, SafetyConfig, ScriptingConfig, WaypointsConfig,
};
use tibia_bot::fsm::{BotAction, FsmState, HealthGateDecision, WaypointEmit, WaypointHint};
use tibia_bot::keycode::{KeyMap, KeyName};
use tibia_bot::loop_::act::ActInputs;
use tibia_bot::loop_::bot_loop::{BotLoop, ThinkDraws, ThinkInputs};
use tibia_bot::loop_::commands::{
    CavebotAction, CommandWork, LoopCommand, RouteRequest, Routes, WaypointOutcome,
};
use tibia_bot::loop_::dispatch::{categorize_hotkey, EmitCategory, EmitSource};
use tibia_bot::loop_::finish::{TickSnapshots, TickTimes};
use tibia_bot::loop_::kills::KillCounter;
use tibia_bot::loop_::loot::LootTracker;
use tibia_bot::loop_::pause::{PauseState, PromptReading};
use tibia_bot::loop_::schedule::{NoFrameStep, NO_FRAME_PAUSE_TICKS};
use tibia_bot::loop_::setup::{initial_recording, parse_keys, tick_budget, BootFacts};
use tibia_bot::loop_::typing::TypingBuffer;
use tibia_bot::perception::{BattleList, CharVitals, MatcherStats, Perception, VitalBar};
use tibia_bot::remote::requests::request_test_heal;
use tibia_bot::safety::breaks::{BreakKind, BreakStatus};
use tibia_bot::scripting::ScriptResult;
use tibia_bot::state::{CavebotSnapshot, GameState, ScriptStatus};

const SEC: u64 = 1_000_000_000;

fn keys() -> KeyMap {
    let names = [("F1", 0x3A), ("F2", 0x3B), ("F3", 0x3C), ("Space", 0x2C), ("F9", 0x42)];
    KeyMap {
        names: names.iter().map(|(n, c)| KeyName { name: n.to_string(), code: *c }).collect(),
        chars: vec![('h', 0x0B), ('i', 0x0C)],
    }
}

fn config() -> Config {
    let mut safety = SafetyConfig::default();
    safety.humanize_timing = false;
    safety.breaks_enabled = false;
    safety.human_noise_enabled = false;
    safety.heal_variation = false;
    safety.prompt_detection_enabled = true;
    safety.max_session_hours = 0;
    Config {
        ndi: NdiConfig { source_name: "game".to_string(), retry_interval_ms: 2_000 },
        pico: PicoConfig {
            bridge_addr: "127.0.0.1:9000".to_string(),
            connect_timeout_ms: 3_000,
            command_timeout_ms: 100,
            max_backoff_secs: 5,
        },
        http: HttpConfig {
            listen_addr: "127.0.0.1:8080".to_string(),
            auth_token: None,
            stealth_mode: false,
        },
        coords: CoordsConfig::default(),
        loop_config: LoopConfig::default(),
        actions: ActionsConfig::default(),
        waypoints: WaypointsConfig::default(),
        scripting: ScriptingConfig::default(),
        safety,
        cavebot: CavebotConfig::default(),
        game_coords: GameCoordsConfig::default(),
        recording: RecordingConfig::default(),
        spells: vec![],
    }
}

fn boot() -> BootFacts {
    BootFacts {
        waypoints_loaded: false,
        cavebot_loaded: false,
        recording: false,
        loot_sparkle_threshold: 10,
        target_configured: true,
        now: SEC,
        start_tick: 0,
        micro_z: 0,
        medium_z: 0,
        long_z: 0,
        noise_z: 0,
    }
}

fn bot_loop() -> BotLoop {
    let cfg = config();
    assert!(cfg.is_within_limits());
    let hotkeys = cfg.hotkeys(&keys()).unwrap();
    BotLoop::new(&cfg, hotkeys, keys(), &boot())
}

fn sight(hp: u32, enemies: u32) -> Perception {
    let bar = |ratio: u32| VitalBar { ratio, filled_px: ratio / 10_000, total_px: 100 };
    Perception {
        frame_tick: 0,
        vitals: CharVitals { hp: Some(bar(hp)), mana: Some(bar(1_000_000)) },
        battle: BattleList { entries: vec![], has_enemies: enemies > 0, enemy_count: enemies },
        target_active: None,
        target_hits: 0,
        loot_sparkles: 0,
        inventory_counts: vec![],
    }
}

fn think_inputs(tick: u64, hint: WaypointHint) -> ThinkInputs {
    ThinkInputs {
        tick,
        now: SEC + tick * 33_000_000,
        game_paused: false,
        hint,
        on_tick: ScriptResult::Noop,
        on_low_hp: ScriptResult::Noop,
        prompt: PromptReading::Pending,
        focus_lost: false,
        health_gate: HealthGateDecision::permissive(),
        draws: ThinkDraws {
            heal_z: 0,
            attack_z: 0,
            hp_gate_z: 0,
            enemy_gate_z: 0,
            spell_heal_z: 0,
            spell_attack_z: 0,
            breaks: vec![],
        },
    }
}

fn act_inputs(tick: u64, says: Vec<String>) -> ActInputs {
    ActInputs { tick, now: SEC + tick * 33_000_000, says, noise_z: 0 }
}

#[test]
fn hotkeys_come_from_known_names() {
    let mut cfg = config();
    let hotkeys = cfg.hotkeys(&keys()).unwrap();
    assert_eq!(hotkeys.heal_spell, 0x3A);
    cfg.actions.mana_spell = "F77".to_string();
    assert_eq!(cfg.hotkeys(&keys()).unwrap_err().setting(), "actions.mana_spell");
}

#[test]
fn paces_without_end_are_out_of_limits() {
    let mut cfg = config();
    assert!(cfg.is_within_limits());
    cfg.loop_config.target_fps = 0;
    assert!(!cfg.is_within_limits());
}

#[test]
fn budgets_and_recordings_follow_the_configuration() {
    assert_eq!(tick_budget(30), 33_333_333);
    assert_eq!(tick_budget(3), 333_333_333);
    let mut rec = RecordingConfig::default();
    rec.enabled = false;
    assert!(initial_recording(&rec).is_none());
    rec.enabled = true;
    rec.path = String::new();
    rec.interval_ticks = None;
    assert_eq!(initial_recording(&rec), Some(("session.jsonl".to_string(), 1)));
    let names = vec!["F9".to_string(), "nothing".to_string(), "F1".to_string()];
    assert_eq!(parse_keys(&names, &keys()), vec![0x42, 0x3A]);
}

#[test]
fn an_emergency_is_answered_with_the_heal_key() {
    let mut bot = bot_loop();
    let p = sight(200_000, 0);
    let t = bot.think(&p, &think_inputs(10, WaypointHint::Inactive));
    assert_eq!(t.action, BotAction::UseHotkey { hidcode: 0x3A });
    assert_eq!(bot.fsm.state, FsmState::Emergency);
    let r = bot.act(&p, &act_inputs(10, vec![]), &t);
    assert_eq!(r.emissions.len(), 1);
    assert_eq!(r.emissions[0].action, BotAction::UseHotkey { hidcode: 0x3A });
    assert!(r.noise.is_none());
}

#[test]
fn a_script_chooses_the_heal_key_only_in_need() {
    let mut bot = bot_loop();
    let mut inp = think_inputs(10, WaypointHint::Inactive);
    inp.on_low_hp = ScriptResult::Hotkey(0x3B);
    let t = bot.think(&sight(200_000, 0), &inp);
    assert_eq!(t.heal_override, Some(0x3B));
    assert_eq!(t.action, BotAction::UseHotkey { hidcode: 0x3B });
    let mut calm = bot_loop();
    let t = calm.think(&sight(900_000, 0), &inp);
    assert_eq!(t.heal_override, None);
    assert_eq!(t.action, BotAction::Idle);
}

#[test]
fn missing_frames_pause_the_bot_until_they_are_back() {
    let mut bot = bot_loop();
    let mut game = GameState::default();
    for _ in 0..NO_FRAME_PAUSE_TICKS {
        bot.begin_tick(&mut game, false);
    }
    assert!(game.is_paused);
    assert_eq!(game.safety_pause_reason.as_deref(), Some("vision:no_frame"));
    assert!(bot.pause.is_paused());
    bot.begin_tick(&mut game, true);
    assert!(game.is_paused);
    assert_eq!(game.safety_pause_reason, None);
    assert!(!bot.pause.is_paused());
}

#[test]
fn a_prompt_pauses_and_a_clear_screen_resumes() {
    let mut bot = bot_loop();
    let p = sight(100_000, 1);
    let mut inp = think_inputs(5, WaypointHint::Inactive);
    inp.prompt = PromptReading::Seen("prompt:login".to_string());
    let t = bot.think(&p, &inp);
    assert_eq!(t.action, BotAction::Idle);
    assert!(t.state_changed);
    assert_eq!(bot.fsm.state, FsmState::Paused);
    let mut inp = think_inputs(6, WaypointHint::Inactive);
    inp.prompt = PromptReading::Clear;
    let t = bot.think(&p, &inp);
    assert!(matches!(t.action, BotAction::UseHotkey { hidcode: 0x3A }));
}

#[test]
fn messages_are_typed_key_by_key() {
    let mut bot = bot_loop();
    let p = sight(1_000_000, 0);
    let t = bot.think(&p, &think_inputs(1, WaypointHint::Inactive));
    let r = bot.act(&p, &act_inputs(1, vec!["hi!".to_string()]), &t);
    assert_eq!(r.emissions.len(), 1);
    assert_eq!(r.emissions[0].action, BotAction::UseHotkey { hidcode: 0x28 });
    let rest: Vec<u8> = bot.typing.queue.iter().copied().collect();
    assert_eq!(rest, vec![0x0B, 0x0C, 0x28]);
    assert!(bot.typing.next_tick >= 4 && bot.typing.next_tick <= 9);
    let r = bot.act(&p, &act_inputs(2, vec![]), &t);
    assert!(r.emissions.is_empty());
}

#[test]
fn a_finished_tick_is_published() {
    let mut bot = bot_loop();
    let mut game = GameState::default();
    let p = sight(200_000, 0);
    let t = bot.think(&p, &think_inputs(0, WaypointHint::Inactive));
    let report = bot.act(&p, &act_inputs(0, vec![]), &t);
    let snaps = TickSnapshots {
        waypoints: None,
        cavebot: CavebotSnapshot::default(),
        scripts: ScriptStatus::default(),
        matcher: MatcherStats {
            narrow_searches: 0,
            full_searches: 0,
            misses: 0,
            last_duration_us: 0,
            last_score_micros: 0,
            sectors_loaded: 0,
        },
    };
    let times = TickTimes { started_at: SEC, elapsed: 5_000_000, now_ms: 77 };
    bot.finish_tick(&mut game, p, &report, snaps, times);
    assert_eq!(game.tick, 1);
    assert_eq!(game.fsm_state, FsmState::Emergency);
    assert_eq!(game.metrics.ticks_total, 1);
    assert_eq!(game.metrics.ticks_overrun, 0);
    assert_eq!(game.combat_events.len(), 1);
    assert_eq!(game.combat_events[0].ts_ms, 77);
    assert_eq!(game.dispatch_stats.heals_total, 1);
}

#[test]
fn routes_are_asked_in_turn() {
    let mut bot = bot_loop();
    let mut game = GameState::default();
    assert_eq!(bot.route_request(false, false), RouteRequest::Inactive);
    bot.routes.cavebot_loaded = true;
    bot.routes.cavebot_enabled = true;
    assert_eq!(bot.route_request(true, true), RouteRequest::TickCavebot);
    let hint = bot.cavebot_answer(&mut game, &CavebotAction::KeyTap(0x60));
    assert_eq!(hint, WaypointHint::Active { emit: Some(WaypointEmit::KeyTap(0x60)) });
    let t = bot.think(&sight(1_000_000, 0), &think_inputs(1, hint));
    assert_eq!(t.action, BotAction::UseHotkey { hidcode: 0x60 });
    let stop = CavebotAction::SafetyPause { reason: "lost".to_string() };
    assert_eq!(bot.cavebot_answer(&mut game, &stop), WaypointHint::Inactive);
    assert!(!bot.routes.cavebot_enabled);
    let hint = bot.waypoint_answer(WaypointOutcome::Step(None));
    assert_eq!(hint, WaypointHint::Active { emit: None });
    assert_eq!(bot.waypoint_answer(WaypointOutcome::Stuck), WaypointHint::Inactive);
}

#[test]
fn commands_change_the_routes_once_they_are_done() {
    let mut routes: Routes = bot_loop().routes;
    let load = LoopCommand::LoadWaypoints { path: "a.toml".to_string(), enabled: true };
    assert_eq!(routes.handle_command(&load, false), CommandWork::LoadWaypoints);
    assert!(!routes.waypoints_loaded);
    routes.command_done(&load, true);
    assert!(routes.waypoints_loaded && routes.waypoints_enabled);
    routes.handle_command(&LoopCommand::PauseWaypoints, false);
    assert!(routes.waypoints_loaded && !routes.waypoints_enabled);
    let none = LoopCommand::ReloadScripts { path: None };
    routes.script_dir = None;
    assert_ne!(routes.handle_command(&none, false), CommandWork::ReloadScripts);
    assert_eq!(routes.reload_dir(&Some("s".to_string())), Some("s".to_string()));
}

#[test]
fn pauses_give_their_reason() {
    let mut pause = PauseState::new();
    assert!(!pause.is_paused());
    pause.on_break(Some(BreakStatus::Started(BreakKind::Micro)), true);
    assert!(!pause.is_paused());
    pause.on_break(Some(BreakStatus::Started(BreakKind::Micro)), false);
    assert_eq!(pause.reason.as_deref(), Some("break:micro"));
    pause.on_break(Some(BreakStatus::Ended(BreakKind::Micro)), false);
    assert!(!pause.is_paused());
    pause.on_watchdog(NoFrameStep::TriggerPause);
    assert_eq!(pause.reason.as_deref(), Some("vision:no_frame"));
}

#[test]
fn kills_are_counted_when_the_target_is_gone() {
    let mut kills = KillCounter::new();
    let mut p = sight(1_000_000, 2);
    p.target_active = Some(true);
    kills.observe(1, &p);
    p = sight(1_000_000, 1);
    p.target_active = Some(false);
    kills.observe(2, &p);
    assert_eq!(kills.kills_total, 1);
}

#[test]
fn loot_is_pressed_for_after_a_kill_near_sparkles() {
    let mut loot = LootTracker::new();
    loot.observe(0, 1);
    loot.observe(50, 0);
    assert!(loot.is_due(1, 10));
    assert!(!loot.is_due(1, 60));
    loot.pressed(1);
    assert!(!loot.is_due(2, 10));
    assert_eq!(loot.next_tick, 91);
}

#[test]
fn keys_fall_into_categories() {
    let hotkeys = config().hotkeys(&keys()).unwrap();
    assert_eq!(categorize_hotkey(hotkeys.attack_default, &hotkeys), EmitCategory::Attack);
    assert_eq!(categorize_hotkey(hotkeys.heal_potion, &hotkeys), EmitCategory::Heal);
    assert_eq!(categorize_hotkey(hotkeys.mana_spell, &hotkeys), EmitCategory::Mana);
    assert_eq!(categorize_hotkey(0x01, &hotkeys), EmitCategory::Other);
    assert_eq!(EmitSource::ScriptTickOverride.name(), "script_tick_override");
}

#[test]
fn characters_that_cannot_be_typed_are_left_out() {
    let mut typing = TypingBuffer::new();
    typing.enqueue("hñi", &keys());
    let queue: Vec<u8> = typing.queue.iter().copied().collect();
    assert_eq!(queue, vec![0x28, 0x0B, 0x0C, 0x28]);
    assert_eq!(typing.take(7, 3), 0x28);
    assert_eq!(typing.next_tick, 10);
}

#[test]
fn the_reported_geometry_is_taken_over() {
    let cfg = CoordsConfig::default();
    let win = WindowRect { x: 100, y: 50, w: 800, h: 600 };
    let geom = Geometry {
        vscreen_x: -1920,
        vscreen_y: 0,
        vscreen_w: 3840,
        vscreen_h: 0,
        tibia: Some(win),
    };
    let placed = apply_geometry(cfg, geom);
    assert_eq!(placed.vscreen_origin_x, -1920);
    assert_eq!(placed.desktop_total_w, 3840);
    assert_eq!(placed.desktop_total_h, 1);
    assert_eq!((placed.tibia_window_x, placed.tibia_window_w), (100, 800));
    assert_eq!(placed.game_viewport_w, cfg.game_viewport_w);
    let text = screen_trouble(geom).unwrap();
    assert!(text.starts_with(
        "tibia_off_mapped_screen: center=(500,350) vscreen=[-1920..1920,0..0]. Con mode=serial"
    ));
    assert!(screen_trouble(Geometry { vscreen_h: 1080, ..geom }).is_none());
    assert!(screen_trouble(Geometry { tibia: None, ..geom }).is_none());
}

#[test]
fn a_bot_without_spells_falls_back_to_its_keys() {
    let mut cfg = config();
    cfg.safety.breaks_enabled = true;
    cfg.safety.human_noise_enabled = true;
    cfg.safety.human_noise_keys = vec!["F9".to_string(), "?".to_string()];
    let facts = BootFacts { micro_z: 1_000_000, medium_z: 0, long_z: -1_000_000, ..boot() };
    let hotkeys = cfg.hotkeys(&keys()).unwrap();
    let bot = BotLoop::new(&cfg, hotkeys, keys(), &facts);
    let heals = &bot.spell_table.heals;
    assert_eq!((heals[0].hidcode, heals[0].priority, heals[0].max_hp), (0x3A, 1, 300_000));
    assert_eq!((heals[1].hidcode, heals[1].priority, heals[1].max_mana), (0x3C, 2, 200_000));
    assert_eq!(bot.spell_table.attacks[0].min_enemies, 1);
    let levels = bot.breaks.unwrap().levels;
    let starts: Vec<u64> = levels.iter().map(|l| (l.next_at - SEC) / SEC).collect();
    assert_eq!(starts, vec![420, 1_800, 7_200]);
    let noise = bot.human_noise.unwrap();
    assert_eq!((noise.keys, noise.next_at), (vec![0x42], SEC + 180 * SEC));
}

#[test]
fn a_heal_test_says_which_key_is_unknown() {
    let mut cfg = config();
    assert_eq!(request_test_heal(true, &cfg, &keys()), Ok(0x3A));
    cfg.actions.mana_spell = "Q".to_string();
    assert_eq!(
        request_test_heal(true, &cfg, &keys()),
        Err("hotkeys inv\u{e1}lidas: actions.mana_spell: unknown key".to_string())
    );
    assert_eq!(
        request_test_heal(false, &cfg, &keys()),
        Err("bot must be paused to use /test/heal".to_string())
    );
}
