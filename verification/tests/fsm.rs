//! The state machine: emergencies, fights, walks and pauses.

use tibia_bot::config::Hotkeys;
use tibia_bot::fsm::{
    BotAction, BotEvent, DecideContext, Fsm, FsmState, FsmTiming, HealthGateDecision, WaypointEmit,
    WaypointHint,
};
use tibia_bot::perception::{
    BattleEntry, BattleList, CharVitals, EntryKind, Perception, VitalBar,
};

fn test_hotkeys() -> Hotkeys {
    Hotkeys {
        heal_spell: 0x3A,
        heal_potion: 0x3B,
        mana_spell: 0x3C,
        attack_default: 0x2C,
        loot_hotkey: None,
    }
}

struct Game {
    tick: u64,
    is_paused: bool,
}

fn game_at_tick(tick: u64) -> Game {
    Game { tick, is_paused: false }
}

fn ctx(game: &Game, event: BotEvent, perception: &Perception, hint: WaypointHint) -> DecideContext {
    DecideContext {
        tick: game.tick,
        is_paused: game.is_paused,
        event,
        sight: perception.sight(),
        hotkeys: test_hotkeys(),
        cd_heal: 10,
        cd_attack: 30,
        heal_z: 0,
        attack_z: 0,
        waypoint_hint: hint,
        heal_override: None,
        attack_override: None,
        health_gate: HealthGateDecision::default(),
    }
}

fn bar(r: f64) -> VitalBar {
    VitalBar {
        ratio: (r * 1_000_000.0).round() as u32,
        filled_px: (r * 100.0) as u32,
        total_px: 100,
    }
}

fn perception(
    hp: Option<f64>,
    mana: Option<f64>,
    entries: Vec<BattleEntry>,
    target_active: Option<bool>,
) -> Perception {
    let enemies = entries.len() as u32;
    Perception {
        frame_tick: 0,
        vitals: CharVitals { hp: hp.map(bar), mana: mana.map(bar) },
        battle: BattleList { entries, has_enemies: enemies > 0, enemy_count: enemies },
        target_active,
        target_hits: 0,
        loot_sparkles: 0,
        inventory_counts: vec![],
    }
}

fn perception_vitals(hp: Option<f64>, mana: Option<f64>) -> Perception {
    perception(hp, mana, vec![], None)
}

fn perception_with_enemy() -> Perception {
    perception_with_enemy_target(None)
}

fn perception_with_enemy_target(target_active: Option<bool>) -> Perception {
    let monster = BattleEntry {
        kind: EntryKind::Monster,
        row: 0,
        hp_ratio: Some(1_000_000),
        is_being_attacked: false,
    };
    perception(Some(1.0), Some(1.0), vec![monster], target_active)
}

struct Step {
    label: &'static str,
    hidcode: u8,
    duration_ms: u64,
    interval_ms: u64,
}

/// Steps that are walked one after the other, at thirty ticks per second.
struct WaypointList {
    steps: Vec<Step>,
    current: usize,
    entered: Option<u64>,
    last_tap: Option<u64>,
}

impl WaypointList {
    fn new(steps: Vec<Step>) -> WaypointList {
        WaypointList { steps, current: 0, entered: None, last_tap: None }
    }

    fn is_running(&self) -> bool {
        self.current < self.steps.len()
    }

    fn restart_current_step(&mut self, tick: u64) {
        self.entered = Some(tick);
        self.last_tap = None;
    }

    fn current_label(&self) -> Option<(usize, &'static str)> {
        self.steps.get(self.current).map(|s| (self.current, s.label))
    }

    fn tick_action(&mut self, tick: u64) -> Option<u8> {
        let entered = *self.entered.get_or_insert(tick);
        if tick - entered >= self.steps[self.current].duration_ms * 30 / 1000 {
            self.current += 1;
            self.restart_current_step(tick);
        }
        let step = self.steps.get(self.current)?;
        let due = match self.last_tap {
            None => true,
            Some(last) => {
                step.interval_ms > 0 && tick - last >= step.interval_ms * 30 / 1000
            }
        };
        if due {
            self.last_tap = Some(tick);
            Some(step.hidcode)
        } else {
            None
        }
    }
}

#[test]
fn idle_when_everything_nominal() {
    let mut fsm = Fsm::new();
    let game = game_at_tick(0);
    let perception = perception_vitals(Some(1.0), Some(1.0));

    let action = fsm.decide(&ctx(&game, BotEvent::Tick, &perception, WaypointHint::Inactive));
    assert_eq!(action, BotAction::Idle);
    assert_eq!(fsm.state, FsmState::Idle);
}

#[test]
fn emergency_hp_critical_emits_heal_spell() {
    let mut fsm = Fsm::new();
    let game = game_at_tick(100);
    let perception = perception_vitals(Some(0.20), Some(1.0));

    let action = fsm.decide(&ctx(&game, BotEvent::Tick, &perception, WaypointHint::Inactive));
    assert_eq!(action, BotAction::UseHotkey { hidcode: 0x3A });
    assert_eq!(fsm.state, FsmState::Emergency);
}

#[test]
fn emergency_mana_critical_emits_mana_spell_when_hp_ok() {
    let mut fsm = Fsm::new();
    let game = game_at_tick(100);
    let perception = perception_vitals(Some(1.0), Some(0.10));

    let action = fsm.decide(&ctx(&game, BotEvent::Tick, &perception, WaypointHint::Inactive));
    assert_eq!(action, BotAction::UseHotkey { hidcode: 0x3C });
    assert_eq!(fsm.state, FsmState::Emergency);
}

#[test]
fn emergency_hp_takes_priority_over_mana() {
    let mut fsm = Fsm::new();
    let game = game_at_tick(100);
    let perception = perception_vitals(Some(0.10), Some(0.10));

    let action = fsm.decide(&ctx(&game, BotEvent::Tick, &perception, WaypointHint::Inactive));
    assert_eq!(action, BotAction::UseHotkey { hidcode: 0x3A });
}

#[test]
fn heal_cooldown_prevents_spam() {
    let mut fsm = Fsm::new();
    let perception = perception_vitals(Some(0.15), Some(1.0));

    let a1 = fsm.decide(&ctx(&game_at_tick(100), BotEvent::Tick, &perception, WaypointHint::Inactive));
    assert_eq!(a1, BotAction::UseHotkey { hidcode: 0x3A });

    let a2 = fsm.decide(&ctx(&game_at_tick(105), BotEvent::Tick, &perception, WaypointHint::Inactive));
    assert_eq!(a2, BotAction::Idle);
    assert_eq!(fsm.state, FsmState::Emergency, "sigue en Emergency aunque no emita");

    let a3 = fsm.decide(&ctx(&game_at_tick(110), BotEvent::Tick, &perception, WaypointHint::Inactive));
    assert_eq!(a3, BotAction::UseHotkey { hidcode: 0x3A });
}

#[test]
fn fighting_emits_attack_hotkey() {
    let mut fsm = Fsm::new();
    let action = fsm.decide(&ctx(&game_at_tick(100), BotEvent::Tick, &perception_with_enemy(), WaypointHint::Inactive));
    assert_eq!(action, BotAction::UseHotkey { hidcode: 0x2C });
    assert_eq!(fsm.state, FsmState::Fighting);
}

#[test]
fn fighting_stable_enemy_count_does_not_respam() {
    let mut fsm = Fsm::new();
    let p = perception_with_enemy();

    let a1 = fsm.decide(&ctx(&game_at_tick(100), BotEvent::Tick, &p, WaypointHint::Inactive));
    assert_eq!(a1, BotAction::UseHotkey { hidcode: 0x2C });
    assert_eq!(fsm.state, FsmState::Fighting);

    for t in 101..200 {
        let a = fsm.decide(&ctx(&game_at_tick(t), BotEvent::Tick, &p, WaypointHint::Inactive));
        assert_eq!(a, BotAction::Idle, "tick {}: esperaba Idle con enemy estable", t);
        assert_eq!(fsm.state, FsmState::Fighting);
    }
}

#[test]
fn fighting_no_target_emits_pgdown() {
    let mut fsm = Fsm::new();
    let p = perception_with_enemy_target(Some(false));

    let a = fsm.decide(&ctx(&game_at_tick(0), BotEvent::Tick, &p, WaypointHint::Inactive));
    assert_eq!(a, BotAction::UseHotkey { hidcode: 0x2C },
        "sin target y hay combat, debe emit PgDown");
    assert_eq!(fsm.state, FsmState::Fighting);
}

#[test]
fn fighting_target_active_does_not_emit() {
    let mut fsm = Fsm::new();
    let p = perception_with_enemy_target(Some(true));

    let a = fsm.decide(&ctx(&game_at_tick(0), BotEvent::Tick, &p, WaypointHint::Inactive));
    assert_eq!(a, BotAction::Idle,
        "con target activo no debe emit (evita rotar targets)");
    assert_eq!(fsm.state, FsmState::Fighting);
}

#[test]
fn fighting_target_lost_triggers_retarget() {
    let mut fsm = Fsm::new();
    let p_with    = perception_with_enemy_target(Some(true));
    let p_without = perception_with_enemy_target(Some(false));

    let a = fsm.decide(&ctx(&game_at_tick(0), BotEvent::Tick, &p_with, WaypointHint::Inactive));
    assert_eq!(a, BotAction::Idle);

    let a = fsm.decide(&ctx(&game_at_tick(100), BotEvent::Tick, &p_without, WaypointHint::Inactive));
    assert_eq!(a, BotAction::UseHotkey { hidcode: 0x2C },
        "flanco target_active true→false debe disparar retarget");
}

#[test]
fn fighting_target_flicker_does_not_spam() {
    let mut fsm = Fsm::new();
    let p = perception_with_enemy_target(Some(true));

    for t in 0..500 {
        let a = fsm.decide(&ctx(&game_at_tick(t), BotEvent::Tick, &p, WaypointHint::Inactive));
        assert_eq!(a, BotAction::Idle,
            "tick {}: target activo, nunca debe emit por flanco", t);
    }
}

#[test]
fn fighting_target_active_resets_keepalive() {
    let mut fsm = Fsm::new();
    let p = perception_with_enemy_target(Some(true));

    for t in 0..1000 {
        let a = fsm.decide(&ctx(&game_at_tick(t), BotEvent::Tick, &p, WaypointHint::Inactive));
        assert_eq!(a, BotAction::Idle,
            "tick {}: keepalive NO debe expirar mientras target activo", t);
    }
}

#[test]
fn fighting_keepalive_emits_after_150_ticks_in_fallback() {
    let mut fsm = Fsm::new();
    let p = perception_with_enemy();

    let a = fsm.decide(&ctx(&game_at_tick(0), BotEvent::Tick, &p, WaypointHint::Inactive));
    assert_eq!(a, BotAction::UseHotkey { hidcode: 0x2C });

    for t in 1..150 {
        let a = fsm.decide(&ctx(&game_at_tick(t), BotEvent::Tick, &p, WaypointHint::Inactive));
        assert_eq!(a, BotAction::Idle, "tick {}: esperaba Idle antes del keepalive", t);
    }

    let a = fsm.decide(&ctx(&game_at_tick(150), BotEvent::Tick, &p, WaypointHint::Inactive));
    assert_eq!(a, BotAction::UseHotkey { hidcode: 0x2C },
        "tick 150: keepalive debió disparar PgDown");
}

#[test]
fn fighting_reappearance_after_zero_retriggers() {
    let mut fsm = Fsm::new();
    let p_enemy = perception_with_enemy();
    let p_empty = perception_vitals(Some(1.0), Some(1.0));

    let a = fsm.decide(&ctx(&game_at_tick(0), BotEvent::Tick, &p_enemy, WaypointHint::Inactive));
    assert_eq!(a, BotAction::UseHotkey { hidcode: 0x2C });

    let a = fsm.decide(&ctx(&game_at_tick(50), BotEvent::Tick, &p_empty, WaypointHint::Inactive));
    assert_eq!(a, BotAction::Idle);
    assert_eq!(fsm.state, FsmState::Idle);

    let a = fsm.decide(&ctx(&game_at_tick(100), BotEvent::Tick, &p_enemy, WaypointHint::Inactive));
    assert_eq!(a, BotAction::UseHotkey { hidcode: 0x2C });
}

#[test]
fn emergency_beats_fighting() {
    let mut fsm = Fsm::new();
    let mut p = perception_with_enemy();
    p.vitals.hp = Some(bar(0.10));

    let action = fsm.decide(&ctx(&game_at_tick(0), BotEvent::Tick, &p, WaypointHint::Inactive));
    assert_eq!(action, BotAction::UseHotkey { hidcode: 0x3A });
    assert_eq!(fsm.state, FsmState::Emergency);
}

#[test]
fn paused_resets_combat_state_then_reengages_cleanly() {
    let mut fsm = Fsm::new();
    let p_enemy_no_target = perception_with_enemy_target(Some(false));
    let p_enemy_with_target = perception_with_enemy_target(Some(true));
    let p_empty = perception_vitals(Some(1.0), Some(1.0));

    fsm.decide(&ctx(&game_at_tick(0), BotEvent::Tick, &p_enemy_with_target, WaypointHint::Inactive));
    assert_eq!(fsm.prev_target_active, Some(true));

    fsm.decide(&ctx(&game_at_tick(10), BotEvent::PauseRequested, &p_enemy_with_target, WaypointHint::Inactive));
    assert_eq!(fsm.state, FsmState::Paused);
    assert_eq!(fsm.prev_target_active, None,
        "combat state debe resetearse al entrar en Paused");

    fsm.decide(&ctx(&game_at_tick(20), BotEvent::ResumeRequested, &p_empty, WaypointHint::Inactive));
    assert_eq!(fsm.state, FsmState::Idle);
    assert_eq!(fsm.prev_target_active, None,
        "prev_target_active debe seguir None tras resume sin combat");

    let a = fsm.decide(&ctx(&game_at_tick(30), BotEvent::Tick, &p_enemy_no_target, WaypointHint::Inactive));
    assert_eq!(a, BotAction::UseHotkey { hidcode: 0x2C },
        "tras resume, nuevo enemy sin target debe disparar emit limpio");
}

#[test]
fn pause_event_forces_paused_state() {
    let mut fsm = Fsm::new();
    let action = fsm.decide(&ctx(&game_at_tick(0), BotEvent::PauseRequested, &perception_with_enemy(), WaypointHint::Inactive));
    assert_eq!(action, BotAction::Idle);
    assert_eq!(fsm.state, FsmState::Paused);
}

#[test]
fn paused_game_state_blocks_actions() {
    let mut fsm = Fsm::new();
    let mut game = game_at_tick(100);
    game.is_paused = true;

    let action = fsm.decide(&ctx(&game, BotEvent::Tick, &perception_vitals(Some(0.05), Some(1.0)), WaypointHint::Inactive));
    assert_eq!(action, BotAction::Idle);
    assert_eq!(fsm.state, FsmState::Paused);
}

#[test]
fn resume_event_clears_paused_state() {
    let mut fsm = Fsm::new();
    fsm.state = FsmState::Paused;
    let action = fsm.decide(&ctx(&game_at_tick(0), BotEvent::ResumeRequested, &perception_vitals(Some(1.0), Some(1.0)), WaypointHint::Inactive));
    assert_eq!(action, BotAction::Idle);
    assert_eq!(fsm.state, FsmState::Idle);
}

#[test]
fn walking_emits_waypoint_hint_when_idle() {
    let mut fsm = Fsm::new();
    let action = fsm.decide(&ctx(&game_at_tick(0), BotEvent::Tick, &perception_vitals(Some(1.0), Some(1.0)), WaypointHint::Active { emit: Some(WaypointEmit::KeyTap(0x60)) }));
    assert_eq!(action, BotAction::UseHotkey { hidcode: 0x60 });
    assert_eq!(fsm.state, FsmState::Walking);
}

#[test]
fn walking_state_persists_on_silent_tick_with_active_list() {
    let mut fsm = Fsm::new();
    let action = fsm.decide(&ctx(&game_at_tick(0), BotEvent::Tick, &perception_vitals(Some(1.0), Some(1.0)), WaypointHint::Active { emit: None }));
    assert_eq!(action, BotAction::Idle);
    assert_eq!(fsm.state, FsmState::Walking);
}

#[test]
fn emergency_overrides_waypoint_hint() {
    let mut fsm = Fsm::new();
    let action = fsm.decide(&ctx(&game_at_tick(0), BotEvent::Tick, &perception_vitals(Some(0.10), Some(1.0)), WaypointHint::Active { emit: Some(WaypointEmit::KeyTap(0x60)) }));
    assert_eq!(action, BotAction::UseHotkey { hidcode: 0x3A });
    assert_eq!(fsm.state, FsmState::Emergency);
}

#[test]
fn fighting_overrides_waypoint_hint() {
    let mut fsm = Fsm::new();
    let action = fsm.decide(&ctx(&game_at_tick(0), BotEvent::Tick, &perception_with_enemy(), WaypointHint::Active { emit: Some(WaypointEmit::KeyTap(0x60)) }));
    assert_eq!(action, BotAction::UseHotkey { hidcode: 0x2C });
    assert_eq!(fsm.state, FsmState::Fighting);
}

#[test]
fn no_waypoint_hint_stays_idle() {
    let mut fsm = Fsm::new();
    let action = fsm.decide(&ctx(&game_at_tick(0), BotEvent::Tick, &perception_vitals(Some(1.0), Some(1.0)), WaypointHint::Inactive));
    assert_eq!(action, BotAction::Idle);
    assert_eq!(fsm.state, FsmState::Idle);
}

#[test]
fn is_interrupting_waypoints_matches_state() {
    let mut fsm = Fsm::new();
    assert!(!fsm.is_interrupting_waypoints());
    fsm.state = FsmState::Walking;
    assert!(!fsm.is_interrupting_waypoints());
    fsm.state = FsmState::Fighting;
    assert!(fsm.is_interrupting_waypoints());
    fsm.state = FsmState::Emergency;
    assert!(fsm.is_interrupting_waypoints());
    fsm.state = FsmState::Paused;
    assert!(!fsm.is_interrupting_waypoints());
}

fn simulate_tick(
    fsm: &mut Fsm,
    wl: &mut WaypointList,
    tick: u64,
    perception: &Perception,
    prev_was_interrupting: bool,
) -> (BotAction, FsmState, bool) {
    if prev_was_interrupting {
        wl.restart_current_step(tick);
    }
    let hint = if wl.is_running() {
        WaypointHint::Active { emit: wl.tick_action(tick).map(WaypointEmit::KeyTap) }
    } else {
        WaypointHint::Inactive
    };
    let game = game_at_tick(tick);
    let action = fsm.decide(&ctx(&game, BotEvent::Tick, &perception, hint));
    let interrupting = fsm.is_interrupting_waypoints();
    (action, fsm.state, interrupting)
}

#[test]
fn integration_walking_to_fighting_restarts_step_on_return() {
    let steps = vec![Step {
        label: "walk_north",
        hidcode: 0x60,
        duration_ms: 2000,
        interval_ms: 300,
    }];
    let mut wl  = WaypointList::new(steps);
    let mut fsm = Fsm::new();
    let nominal = perception_vitals(Some(1.0), Some(1.0));
    let combat  = perception_with_enemy();
    let mut interrupt_flag = false;

    let (a0, s0, i0) = simulate_tick(&mut fsm, &mut wl, 0, &nominal, interrupt_flag);
    assert_eq!(a0, BotAction::UseHotkey { hidcode: 0x60 });
    assert_eq!(s0, FsmState::Walking);
    assert!(!i0);
    interrupt_flag = i0;

    let (a1, s1, i1) = simulate_tick(&mut fsm, &mut wl, 1, &nominal, interrupt_flag);
    assert_eq!(a1, BotAction::Idle);
    assert_eq!(s1, FsmState::Walking);
    interrupt_flag = i1;

    let (a2, s2, i2) = simulate_tick(&mut fsm, &mut wl, 2, &combat, interrupt_flag);
    assert_eq!(a2, BotAction::UseHotkey { hidcode: 0x2C });
    assert_eq!(s2, FsmState::Fighting);
    assert!(i2, "Fighting debe marcar interrupting");
    interrupt_flag = i2;

    let (a3, s3, i3) = simulate_tick(&mut fsm, &mut wl, 3, &combat, interrupt_flag);
    assert_eq!(a3, BotAction::Idle);
    assert_eq!(s3, FsmState::Fighting);
    assert!(i3);
    interrupt_flag = i3;

    let (a40, s40, i40) = simulate_tick(&mut fsm, &mut wl, 40, &nominal, interrupt_flag);
    assert_eq!(a40, BotAction::UseHotkey { hidcode: 0x60 },
        "tras salir de combat el step reinicia y emite primer tap");
    assert_eq!(s40, FsmState::Walking);
    assert!(!i40);
}

#[test]
fn integration_walking_to_emergency_restarts_step_on_return() {
    let steps = vec![Step {
        label: "walk_north",
        hidcode: 0x60,
        duration_ms: 2000,
        interval_ms: 300,
    }];
    let mut wl  = WaypointList::new(steps);
    let mut fsm = Fsm::new();
    let nominal = perception_vitals(Some(1.0), Some(1.0));
    let low_hp  = perception_vitals(Some(0.10), Some(1.0));
    let mut interrupt_flag = false;

    let (_, s0, i0) = simulate_tick(&mut fsm, &mut wl, 0, &nominal, interrupt_flag);
    assert_eq!(s0, FsmState::Walking);
    interrupt_flag = i0;

    let (a1, s1, i1) = simulate_tick(&mut fsm, &mut wl, 1, &low_hp, interrupt_flag);
    assert_eq!(a1, BotAction::UseHotkey { hidcode: 0x3A });
    assert_eq!(s1, FsmState::Emergency);
    assert!(i1);
    interrupt_flag = i1;

    let (a100, s100, _) = simulate_tick(&mut fsm, &mut wl, 100, &nominal, interrupt_flag);
    assert_eq!(a100, BotAction::UseHotkey { hidcode: 0x60 });
    assert_eq!(s100, FsmState::Walking);
}

#[test]
fn integration_combat_does_not_advance_step_timer() {
    let steps = vec![
        Step {
            label: "walk_north",
            hidcode: 0x60,
            duration_ms: 2000,
            interval_ms: 0,
        },
        Step {
            label: "walk_south",
            hidcode: 0x5A,
            duration_ms: 1000,
            interval_ms: 0,
        },
    ];
    let mut wl  = WaypointList::new(steps);
    let mut fsm = Fsm::new();
    let nominal = perception_vitals(Some(1.0), Some(1.0));
    let combat  = perception_with_enemy();
    let mut interrupt_flag = false;

    let (a, _, i) = simulate_tick(&mut fsm, &mut wl, 0, &nominal, interrupt_flag);
    assert_eq!(a, BotAction::UseHotkey { hidcode: 0x60 });
    interrupt_flag = i;

    for t in 1..=50 {
        let (_, state, flag) = simulate_tick(&mut fsm, &mut wl, t, &combat, interrupt_flag);
        assert_eq!(state, FsmState::Fighting);
        interrupt_flag = flag;
    }
    assert_eq!(wl.current_label().unwrap().0, 0, "el step no debe haber avanzado durante el combate");

    let (a51, _, i51) = simulate_tick(&mut fsm, &mut wl, 51, &nominal, interrupt_flag);
    assert_eq!(a51, BotAction::UseHotkey { hidcode: 0x60 });
    interrupt_flag = i51;

    for t in 52..111 {
        let (_, _, flag) = simulate_tick(&mut fsm, &mut wl, t, &nominal, interrupt_flag);
        interrupt_flag = flag;
        assert_eq!(wl.current_label().unwrap().0, 0, "tick {}: sigue en walk_north", t);
    }
    let (a111, _, _) = simulate_tick(&mut fsm, &mut wl, 111, &nominal, interrupt_flag);
    assert_eq!(a111, BotAction::UseHotkey { hidcode: 0x5A });
    assert_eq!(wl.current_label().unwrap().1, "walk_south");
}

fn decide(
    fsm: &mut Fsm,
    game: &Game,
    perception: &Perception,
    event: BotEvent,
) -> BotAction {
    fsm.decide(&ctx(game, event, perception, WaypointHint::Inactive))
}

#[test]
fn idle_to_emergency_to_idle_sequence() {
    let mut fsm = Fsm::new();

    let game = game_at_tick(0);
    let p_full = perception_vitals(Some(1.0), Some(1.0));
    assert_eq!(decide(&mut fsm, &game, &p_full, BotEvent::Tick), BotAction::Idle);
    assert_eq!(fsm.state, FsmState::Idle);

    let game = game_at_tick(100);
    let p_low = perception_vitals(Some(0.20), Some(1.0));
    let action = decide(&mut fsm, &game, &p_low, BotEvent::Tick);
    assert_eq!(action, BotAction::UseHotkey { hidcode: 0x3A });
    assert_eq!(fsm.state, FsmState::Emergency);

    let game = game_at_tick(200);
    let p_recovered = perception_vitals(Some(1.0), Some(1.0));
    assert_eq!(decide(&mut fsm, &game, &p_recovered, BotEvent::Tick), BotAction::Idle);
    assert_eq!(fsm.state, FsmState::Idle);
}

#[test]
fn fighting_emits_attack_and_stays_in_state() {
    let mut fsm = Fsm::new();
    let game = game_at_tick(50);
    let p_combat = perception_with_enemy_target(Some(false));

    let action = decide(&mut fsm, &game, &p_combat, BotEvent::Tick);
    assert!(matches!(action, BotAction::UseHotkey { .. }),
        "esperaba UseHotkey, got {:?}", action);
    assert_eq!(fsm.state, FsmState::Fighting);
}

#[test]
fn safety_pause_event_forces_idle() {
    let mut fsm = Fsm::new();
    let game = game_at_tick(100);
    let p_critical = perception_vitals(Some(0.10), Some(0.10));
    let action = decide(&mut fsm, &game, &p_critical, BotEvent::PauseRequested);
    assert_eq!(action, BotAction::Idle);
    assert_eq!(fsm.state, FsmState::Paused);
}

#[test]
fn multi_tick_fsm_remains_consistent() {
    let mut fsm = Fsm::new();
    let p_nominal = perception_vitals(Some(1.0), Some(1.0));

    for tick in 0..30 {
        let game = game_at_tick(tick);
        let action = decide(&mut fsm, &game, &p_nominal, BotEvent::Tick);
        assert_eq!(action, BotAction::Idle, "tick {} non-idle", tick);
        assert_eq!(fsm.state, FsmState::Idle, "tick {} state drift", tick);
    }
}

#[test]
fn emergency_priority_over_combat_when_both_active() {
    let mut fsm = Fsm::new();
    let game = game_at_tick(50);

    let critical_hp = bar(0.15);
    let mut p = perception_with_enemy_target(Some(true));
    p.vitals.hp = Some(critical_hp);

    let action = decide(&mut fsm, &game, &p, BotEvent::Tick);
    assert_eq!(action, BotAction::UseHotkey { hidcode: 0x3A });
    assert_eq!(fsm.state, FsmState::Emergency);
}

#[test]
fn a_heavy_level_lets_only_emergencies_through() {
    let mut fsm = Fsm::new();
    let mut c = ctx(
        &game_at_tick(0),
        BotEvent::Tick,
        &perception_with_enemy(),
        WaypointHint::Inactive,
    );
    c.health_gate = HealthGateDecision::heavy();
    assert_eq!(fsm.decide(&c), BotAction::Idle);
    let mut c = ctx(
        &game_at_tick(1),
        BotEvent::Tick,
        &perception_vitals(Some(0.10), Some(1.0)),
        WaypointHint::Inactive,
    );
    c.health_gate = HealthGateDecision::heavy();
    assert_eq!(fsm.decide(&c), BotAction::UseHotkey { hidcode: 0x3A });
    let mut fsm = Fsm::new();
    c.health_gate = HealthGateDecision::safe_mode();
    assert_eq!(fsm.decide(&c), BotAction::Idle);
}

#[test]
fn overrides_take_the_place_of_the_configured_keys() {
    let mut fsm = Fsm::new();
    let mut c = ctx(
        &game_at_tick(0),
        BotEvent::Tick,
        &perception_vitals(Some(0.10), Some(1.0)),
        WaypointHint::Inactive,
    );
    c.heal_override = Some(0x3B);
    assert_eq!(fsm.decide(&c), BotAction::UseHotkey { hidcode: 0x3B });
    let mut c = ctx(
        &game_at_tick(100),
        BotEvent::Tick,
        &perception_with_enemy(),
        WaypointHint::Inactive,
    );
    c.attack_override = Some(0x3D);
    assert_eq!(fsm.decide(&c), BotAction::UseHotkey { hidcode: 0x3D });
}

#[test]
fn jittered_cooldowns_follow_the_draw() {
    let mut fsm = Fsm::with_timing(FsmTiming {
        heal_cd_mean_us: 1_000_000,
        heal_cd_std_us: 100_000,
        attack_cd_mean_us: 1_000_000,
        attack_cd_std_us: 100_000,
        fps: 30,
    });
    let low = perception_vitals(Some(0.10), Some(1.0));
    let mut c = ctx(&game_at_tick(0), BotEvent::Tick, &low, WaypointHint::Inactive);
    c.heal_z = 1_000_000;
    assert_eq!(fsm.decide(&c), BotAction::UseHotkey { hidcode: 0x3A });
    assert_eq!(fsm.cooldowns.next_heal_tick, Some(33));
    c.tick = 32;
    assert_eq!(fsm.decide(&c), BotAction::Idle);
    c.tick = 33;
    assert_eq!(fsm.decide(&c), BotAction::UseHotkey { hidcode: 0x3A });
}

#[test]
fn the_first_emergency_is_answered_on_any_tick() {
    for (at, before) in [(0, 0), (1, 1), (40, 40)] {
        let mut fsm = Fsm::new();
        for t in 0..before {
            let calm = perception_vitals(Some(1.0), Some(1.0));
            let event = if t % 3 == 0 { BotEvent::PauseRequested } else { BotEvent::Tick };
            fsm.decide(&ctx(&game_at_tick(t), event, &calm, WaypointHint::Inactive));
        }
        let low = perception_vitals(Some(0.1), Some(1.0));
        let action =
            fsm.decide(&ctx(&game_at_tick(at), BotEvent::Tick, &low, WaypointHint::Inactive));
        assert_eq!(action, BotAction::UseHotkey { hidcode: 0x3A });
    }
}

#[test]
fn the_health_gate_holds_back_the_action_alone() {
    let low = perception_vitals(Some(0.1), Some(1.0));
    let fight = perception_with_enemy();
    let gates = [
        (HealthGateDecision::permissive(), true, true),
        (HealthGateDecision::heavy(), true, false),
        (HealthGateDecision::safe_mode(), false, false),
    ];
    for (gate, heals, attacks) in gates {
        for (seen, passes, code) in [(&low, heals, 0x3A), (&fight, attacks, 0x2C)] {
            let free = ctx(&game_at_tick(5), BotEvent::Tick, seen, WaypointHint::Inactive);
            let gated = DecideContext { health_gate: gate, ..free };
            let (mut a, mut b) = (Fsm::new(), Fsm::new());
            assert_eq!(a.decide(&free), BotAction::UseHotkey { hidcode: code });
            let action = b.decide(&gated);
            if passes {
                assert_eq!(action, BotAction::UseHotkey { hidcode: code });
            } else {
                assert_eq!(action, BotAction::Idle);
            }
            assert_eq!(a.state, b.state);
            let (x, y) = (a.debug_snapshot(), b.debug_snapshot());
            assert_eq!(x.next_heal_tick, y.next_heal_tick);
            assert_eq!(x.next_attack_tick, y.next_attack_tick);
            assert_eq!(x.attack_keepalive_tick, y.attack_keepalive_tick);
        }
    }
}
