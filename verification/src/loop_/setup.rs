//! How the loop is set up from the configuration.

use vstd::prelude::*;
use crate::config::{Config, Hotkeys, RecordingConfig, SpellConfig};
use crate::fsm::{Fsm, FsmState, FsmTiming};
use crate::keycode::KeyMap;
use crate::loop_::bot_loop::{BotLoop, LoopSettings};
use crate::loop_::commands::{RouteModel, Routes};
use crate::loop_::kills::KillCounter;
use crate::loop_::loot::LootTracker;
use crate::loop_::pause::PauseState;
use crate::loop_::typing::TypingBuffer;
use crate::safety::breaks::{standard_levels, BreakScheduler};
use crate::safety::human_noise::{
    next_moment, HumanNoise, CLOCK_LIMIT, INTERVAL_LIMIT_US, MIN_INTERVAL_US,
};
use crate::safety::rate_limit::RateLimiter;
use crate::safety::reaction::ReactionGate;
use crate::safety::session_limit::{ticks_in, SessionLimit};
use crate::safety::timing::{DELAY_LIMIT_US, FPS_LIMIT};
use crate::safety::variation::WeightedChoice;
use crate::spell_table::{
    by_priority, entries_of, legacy_attacks, legacy_heals, SpellJitter, SpellTable, COOLDOWN_LIMIT_MS,
};
use crate::text::is_blank;
use crate::units::{Nanos, Ppm, NANOS_PER_SEC, ONE};

verus! {

/// Longest configured cooldown, in ticks.
pub const ACTION_COOLDOWN_LIMIT: u64 = 1_000_000_000;

/// Spread of a spell's cooldown as a share of its mean (25%).
pub const SPELL_JITTER: Ppm = 250_000;

/// What was loaded before the loop starts, and what vision knows.
#[derive(Clone, Copy, Debug, PartialEq, Eq, Structural)]
pub struct BootFacts {
    pub waypoints_loaded: bool,
    pub cavebot_loaded: bool,
    pub recording: bool,
    /// Sparkles that count as loot in sight.
    pub loot_sparkle_threshold: u32,
    /// The target reader is calibrated.
    pub target_configured: bool,
    pub now: Nanos,
    /// The tick at which the session begins.
    pub start_tick: u64,
    /// Standard scores of the first break of each kind.
    pub micro_z: i64,
    pub medium_z: i64,
    pub long_z: i64,
    /// Standard score of the first harmless tap.
    pub noise_z: i64,
}

impl Config {
    /// Paces, delays and cooldowns stay within what the loop can count.
    pub open spec fn within_limits(self) -> bool {
        let s = self.safety;
        &&& 1 <= self.loop_config.target_fps <= FPS_LIMIT
        &&& self.actions.heal_cooldown_ticks <= ACTION_COOLDOWN_LIMIT
        &&& self.actions.attack_cooldown_ticks <= ACTION_COOLDOWN_LIMIT
        &&& s.heal_cd_mean_us <= DELAY_LIMIT_US
        &&& s.heal_cd_std_us <= DELAY_LIMIT_US
        &&& s.attack_cd_mean_us <= DELAY_LIMIT_US
        &&& s.attack_cd_std_us <= DELAY_LIMIT_US
        &&& s.reaction_hp_mean_us <= DELAY_LIMIT_US
        &&& s.reaction_hp_std_us <= DELAY_LIMIT_US
        &&& s.reaction_enemy_mean_us <= DELAY_LIMIT_US
        &&& s.reaction_enemy_std_us <= DELAY_LIMIT_US
        &&& s.human_noise_interval_mean_us <= INTERVAL_LIMIT_US
        &&& s.human_noise_interval_std_us <= INTERVAL_LIMIT_US
        &&& forall|i: int|
            0 <= i < self.spells@.len() ==> (#[trigger] self.spells@[i]).cooldown_ms
                <= COOLDOWN_LIMIT_MS
    }

    /// Whether paces, delays and cooldowns stay within what the loop can count.
    pub fn is_within_limits(&self) -> (r: bool)
        ensures
            r == self.within_limits(),
    {
        let s = &self.safety;
        let plain = 1 <= self.loop_config.target_fps && self.loop_config.target_fps <= FPS_LIMIT
            && self.actions.heal_cooldown_ticks <= ACTION_COOLDOWN_LIMIT
            && self.actions.attack_cooldown_ticks <= ACTION_COOLDOWN_LIMIT && s.heal_cd_mean_us
            <= DELAY_LIMIT_US && s.heal_cd_std_us <= DELAY_LIMIT_US && s.attack_cd_mean_us
            <= DELAY_LIMIT_US && s.attack_cd_std_us <= DELAY_LIMIT_US && s.reaction_hp_mean_us
            <= DELAY_LIMIT_US && s.reaction_hp_std_us <= DELAY_LIMIT_US && s.reaction_enemy_mean_us
            <= DELAY_LIMIT_US && s.reaction_enemy_std_us <= DELAY_LIMIT_US
            && s.human_noise_interval_mean_us <= INTERVAL_LIMIT_US && s.human_noise_interval_std_us
            <= INTERVAL_LIMIT_US;
        if !plain {
            return false;
        }
        let mut i: usize = 0;
        while i < self.spells.len()
            invariant
                i <= self.spells@.len(),
                forall|j: int|
                    0 <= j < i ==> (#[trigger] self.spells@[j]).cooldown_ms <= COOLDOWN_LIMIT_MS,
            decreases self.spells@.len() - i,
        {
            if self.spells[i].cooldown_ms > COOLDOWN_LIMIT_MS {
                return false;
            }
            i += 1;
        }
        true
    }
}

/// The codes of the keys with a known name, in order.
pub open spec fn known_keys(names: Seq<String>, keys: KeyMap) -> Seq<u8>
    decreases names.len(),
{
    if names.len() == 0 {
        Seq::empty()
    } else {
        let before = known_keys(names.drop_last(), keys);
        match keys.code_of(names.last()@) {
            Some(code) => before.push(code),
            None => before,
        }
    }
}

/// The codes of the keys with a known name, in order.
pub fn parse_keys(names: &Vec<String>, keys: &KeyMap) -> (r: Vec<u8>)
    ensures
        r@ == known_keys(names@, *keys),
{
    let mut out: Vec<u8> = Vec::new();
    let mut i: usize = 0;
    assert(names@.take(0) =~= Seq::empty());
    while i < names.len()
        invariant
            i <= names.len(),
            out@ == known_keys(names@.take(i as int), *keys),
        decreases names.len() - i,
    {
        let ghost next = names@.take(i + 1);
        assert(next.drop_last() =~= names@.take(i as int));
        assert(next.last() == names@[i as int]);
        match keys.parse(names[i].as_str()) {
            Some(code) => {
                out.push(code);
            },
            None => {},
        }
        i += 1;
    }
    assert(names@.take(i as int) =~= names@);
    out
}

/// The file and the interval of the recording that the bot starts with; `None`
/// where it starts without one.
pub fn initial_recording(cfg: &RecordingConfig) -> (r: Option<(String, u32)>)
    ensures
        r is Some <==> cfg.enabled,
        r matches Some((path, interval)) ==> path@ == (if cfg.path@.len() == 0 {
            "session.jsonl"@
        } else {
            cfg.path@
        }) && interval == match cfg.interval_ticks {
            Some(n) => n,
            None => 1,
        },
{
    if !cfg.enabled {
        return None;
    }
    let path = if is_blank(cfg.path.as_str()) {
        "session.jsonl".to_owned()
    } else {
        cfg.path.as_str().to_owned()
    };
    let interval: u32 = match cfg.interval_ticks {
        Some(n) => n,
        None => 1,
    };
    Some((path, interval))
}

/// The time that a tick may take, rounded to the nearest nanosecond.
pub open spec fn tick_budget_spec(fps: int) -> int {
    (NANOS_PER_SEC + fps / 2) / fps
}

/// The time that a tick may take, at `fps` ticks per second.
pub fn tick_budget(fps: u32) -> (r: Nanos)
    requires
        fps >= 1,
    ensures
        r == tick_budget_spec(fps as int),
{
    (NANOS_PER_SEC + (fps / 2) as u64) / (fps as u64)
}

/// The milliseconds in a number of ticks, rounded down.
pub open spec fn ticks_to_ms(ticks: int, fps: int) -> int {
    ticks * 1_000 / fps
}

/// The session limit that the configuration asks for.
pub open spec fn session_limit_tells(
    r: Option<SessionLimit>,
    max_hours: int,
    warning_min: int,
    fps: int,
    start_tick: u64,
) -> bool {
    &&& r is None <==> max_hours <= 0
    &&& r matches Some(sl) ==> {
        let max = ticks_in(max_hours, 3600, fps);
        let margin = ticks_in(warning_min, 60, fps);
        &&& sl.max_ticks == max
        &&& sl.start_tick == start_tick
        &&& sl.warning_margin_ticks == if warning_min <= 0 {
            0
        } else if margin < max {
            margin
        } else {
            max
        }
    }
}

fn make_session_limit(max_hours: i64, warning_min: i64, fps: u32, start_tick: u64) -> (r: Option<
    SessionLimit,
>)
    ensures
        r matches Some(sl) ==> sl.wf(),
        session_limit_tells(r, max_hours as int, warning_min as int, fps as int, start_tick),
{
    match SessionLimit::new(max_hours, fps, start_tick) {
        Some(sl) => Some(sl.with_warning_min(warning_min, fps)),
        None => None,
    }
}

impl BotLoop {
    /// The loop at the start of a session: idle, with nothing pending. Timing
    /// is jittered and reactions are delayed where the configuration asks for a
    /// human pace; breaks, harmless taps and the session limit are there where
    /// it switches them on.
    pub fn new(cfg: &Config, hotkeys: Hotkeys, keys: KeyMap, boot: &BootFacts) -> (r: Self)
        requires
            cfg.within_limits(),
            boot.now <= CLOCK_LIMIT,
        ensures
            r.wf(),
            r.hotkeys == hotkeys,
            r.keys == keys,
            r.settings == (LoopSettings {
                target_fps: cfg.loop_config.target_fps,
                tick_budget: tick_budget_spec(cfg.loop_config.target_fps as int) as u64,
                cd_heal: cfg.actions.heal_cooldown_ticks,
                cd_attack: cfg.actions.attack_cooldown_ticks,
                humanize_timing: cfg.safety.humanize_timing,
                heal_variation: cfg.safety.heal_variation,
                prompt_detection_enabled: cfg.safety.prompt_detection_enabled,
                has_spells: cfg.spells@.len() > 0,
                loot_sparkle_threshold: boot.loot_sparkle_threshold,
                target_configured: boot.target_configured,
            }),
            r.fsm.state == FsmState::Idle,
            r.fsm.prev_target_active is None,
            r.fsm.cooldowns.next_heal_tick is None,
            r.fsm.cooldowns.next_attack_tick is None,
            r.fsm.cooldowns.attack_keepalive_tick is None,
            r.fsm.timing == if cfg.safety.humanize_timing {
                Some(
                    FsmTiming {
                        heal_cd_mean_us: cfg.safety.heal_cd_mean_us,
                        heal_cd_std_us: cfg.safety.heal_cd_std_us,
                        attack_cd_mean_us: cfg.safety.attack_cd_mean_us,
                        attack_cd_std_us: cfg.safety.attack_cd_std_us,
                        fps: cfg.loop_config.target_fps,
                    },
                )
            } else {
                None
            },
            r.hp_gate.name@ == "hp_critical"@,
            r.hp_gate.mean_us == if cfg.safety.humanize_timing {
                cfg.safety.reaction_hp_mean_us
            } else {
                0
            },
            r.hp_gate.stddev_us == if cfg.safety.humanize_timing {
                cfg.safety.reaction_hp_std_us
            } else {
                0
            },
            r.hp_gate.fps == cfg.loop_config.target_fps,
            r.hp_gate.open_at is None && !r.hp_gate.was_true,
            r.enemy_gate.name@ == "enemy_found"@,
            r.enemy_gate.mean_us == if cfg.safety.humanize_timing {
                cfg.safety.reaction_enemy_mean_us
            } else {
                0
            },
            r.enemy_gate.stddev_us == if cfg.safety.humanize_timing {
                cfg.safety.reaction_enemy_std_us
            } else {
                0
            },
            r.enemy_gate.fps == cfg.loop_config.target_fps,
            r.enemy_gate.open_at is None && !r.enemy_gate.was_true,
            r.rate_limiter.name@ == "global"@,
            r.rate_limiter.max_per_sec == cfg.safety.max_actions_per_sec,
            r.rate_limiter.window@ == Seq::<Nanos>::empty(),
            r.rate_limiter.dropped == 0,
            // Spells.
            r.spell_table.cooldowns@ == Map::<u8, u64>::empty(),
            cfg.spells@.len() > 0 ==> {
                &&& r.spell_table.heals@ == by_priority(entries_of(cfg.spells@, keys, false))
                &&& r.spell_table.attacks@ == by_priority(entries_of(cfg.spells@, keys, true))
                &&& r.spell_table.jitter == if cfg.safety.humanize_timing {
                    Some(
                        SpellJitter { std_factor: SPELL_JITTER, fps: cfg.loop_config.target_fps },
                    )
                } else {
                    None
                }
            },
            r.spell_table.jitter matches Some(j) ==> 4 * j.std_factor == ONE,
            cfg.spells@.len() == 0 ==> {
                &&& r.spell_table.jitter is None
                &&& r.spell_table.heals@ == legacy_heals(
                    hotkeys,
                    ticks_to_ms(
                        cfg.actions.heal_cooldown_ticks as int,
                        cfg.loop_config.target_fps as int,
                    ) as u64,
                )
                &&& r.spell_table.attacks@ == legacy_attacks(
                    hotkeys,
                    ticks_to_ms(
                        cfg.actions.attack_cooldown_ticks as int,
                        cfg.loop_config.target_fps as int,
                    ) as u64,
                )
            },
            r.heal_choice.choices@ == if cfg.spells@.len() == 0 && cfg.safety.heal_variation {
                seq![
                    (hotkeys.heal_spell, cfg.safety.heal_spell_weight),
                    (hotkeys.heal_potion, cfg.safety.heal_potion_weight),
                ]
            } else {
                Seq::empty()
            },
            // Pauses.
            r.breaks is Some <==> cfg.safety.breaks_enabled,
            r.breaks matches Some(b) ==> b.levels@ == standard_levels(
                boot.now,
                boot.micro_z as int,
                boot.medium_z as int,
                boot.long_z as int,
            ),
            session_limit_tells(
                r.session_limit,
                cfg.safety.max_session_hours as int,
                cfg.safety.session_warning_min as int,
                cfg.loop_config.target_fps as int,
                boot.start_tick,
            ),
            !r.session_warning_active,
            r.human_noise is Some <==> cfg.safety.human_noise_enabled && known_keys(
                cfg.safety.human_noise_keys@,
                keys,
            ).len() > 0,
            r.human_noise matches Some(h) ==> h.keys@ == known_keys(
                cfg.safety.human_noise_keys@,
                keys,
            ) && h.interval.mean == cfg.safety.human_noise_interval_mean_us && h.interval.stddev == (
            if cfg.safety.human_noise_interval_std_us < 0 {
                0
            } else {
                cfg.safety.human_noise_interval_std_us
            }) && h.next_at == next_moment(
                h.interval,
                MIN_INTERVAL_US as int,
                boot.now,
                boot.noise_z as int,
            ) && h.emitted == 0,
            // Nothing pending.
            r.routes@ == (RouteModel {
                waypoints_loaded: boot.waypoints_loaded,
                waypoints_enabled: boot.waypoints_loaded && cfg.waypoints.enabled,
                cavebot_loaded: boot.cavebot_loaded,
                cavebot_enabled: boot.cavebot_loaded && cfg.cavebot.enabled,
                recording: boot.recording,
                dataset: false,
                script_dir: if cfg.scripting.script_dir@.len() == 0 {
                    None
                } else {
                    Some(cfg.scripting.script_dir@)
                },
            }),
            r.pause@ is None,
            r.told_reason@ is None,
            r.told_state == FsmState::Idle,
            !r.prev_was_interrupting,
            r.kills == (KillCounter {
                kills_total: 0,
                prev_target_active: None,
                prev_enemy_count: 0,
                last_activity_tick: 0,
                last_hp: ONE,
            }),
            r.typing.queue@ == Seq::<u8>::empty(),
            r.typing.next_tick == 0,
            r.loot.kills_pending == 0,
            r.loot.next_tick == 0,
            r.loot.prev_enemy_count == 0,
            r.loot.sparkles@ == Seq::<u32>::empty(),
            r.no_frame_ticks == 0,
    {
        let s = &cfg.safety;
        let fps: u32 = cfg.loop_config.target_fps;
        let human = s.humanize_timing;
        let fsm = if human {
            Fsm::with_timing(
                FsmTiming {
                    heal_cd_mean_us: s.heal_cd_mean_us,
                    heal_cd_std_us: s.heal_cd_std_us,
                    attack_cd_mean_us: s.attack_cd_mean_us,
                    attack_cd_std_us: s.attack_cd_std_us,
                    fps,
                },
            )
        } else {
            Fsm::new()
        };
        let hp_gate = ReactionGate::new(
            "hp_critical",
            if human { s.reaction_hp_mean_us } else { 0 },
            if human { s.reaction_hp_std_us } else { 0 },
            fps,
        );
        let enemy_gate = ReactionGate::new(
            "enemy_found",
            if human { s.reaction_enemy_mean_us } else { 0 },
            if human { s.reaction_enemy_std_us } else { 0 },
            fps,
        );
        let rate_limiter = RateLimiter::new("global", s.max_actions_per_sec);
        let has_spells = cfg.spells.len() > 0;
        let cd_heal: u64 = cfg.actions.heal_cooldown_ticks;
        let cd_attack: u64 = cfg.actions.attack_cooldown_ticks;
        let spell_table = if has_spells {
            let jitter: Option<Ppm> = if human { Some(SPELL_JITTER) } else { None };
            SpellTable::from_configs(&cfg.spells, &keys, fps, jitter)
        } else {
            proof {
                ticks_to_ms_fits(cd_heal as int, fps as int);
                ticks_to_ms_fits(cd_attack as int, fps as int);
            }
            SpellTable::from_legacy(
                &hotkeys,
                cd_heal * 1_000 / (fps as u64),
                cd_attack * 1_000 / (fps as u64),
            )
        };
        let mut choices: Vec<(u8, u32)> = Vec::new();
        if !has_spells && s.heal_variation {
            choices.push((hotkeys.heal_spell, s.heal_spell_weight));
            choices.push((hotkeys.heal_potion, s.heal_potion_weight));
        }
        let heal_choice = WeightedChoice::new(choices);
        assert(heal_choice.choices@ =~= if !has_spells && s.heal_variation {
            seq![
                (hotkeys.heal_spell, s.heal_spell_weight),
                (hotkeys.heal_potion, s.heal_potion_weight),
            ]
        } else {
            Seq::empty()
        });
        let breaks = if s.breaks_enabled {
            Some(
                BreakScheduler::new_standard(
                    boot.now,
                    boot.micro_z,
                    boot.medium_z,
                    boot.long_z,
                ),
            )
        } else {
            None
        };
        let session_limit = make_session_limit(
            s.max_session_hours,
            s.session_warning_min,
            fps,
            boot.start_tick,
        );
        let hids = parse_keys(&s.human_noise_keys, &keys);
        let human_noise = if s.human_noise_enabled && hids.len() > 0 {
            Some(
                HumanNoise::new(
                    hids,
                    s.human_noise_interval_mean_us,
                    s.human_noise_interval_std_us,
                    boot.now,
                    boot.noise_z,
                ),
            )
        } else {
            None
        };
        let routes = Routes::new(
            boot.waypoints_loaded,
            cfg.waypoints.enabled,
            boot.cavebot_loaded,
            cfg.cavebot.enabled,
            boot.recording,
            cfg.scripting.script_dir.as_str(),
        );
        BotLoop {
            settings: LoopSettings {
                target_fps: fps,
                tick_budget: tick_budget(fps),
                cd_heal,
                cd_attack,
                humanize_timing: human,
                heal_variation: s.heal_variation,
                prompt_detection_enabled: s.prompt_detection_enabled,
                has_spells,
                loot_sparkle_threshold: boot.loot_sparkle_threshold,
                target_configured: boot.target_configured,
            },
            hotkeys,
            keys,
            fsm,
            hp_gate,
            enemy_gate,
            rate_limiter,
            spell_table,
            heal_choice,
            breaks,
            session_limit,
            session_warning_active: false,
            human_noise,
            routes,
            pause: PauseState::new(),
            prev_was_interrupting: false,
            told_state: FsmState::Idle,
            told_reason: PauseState::new(),
            kills: KillCounter::new(),
            typing: TypingBuffer::new(),
            loot: LootTracker::new(),
            no_frame_ticks: 0,
        }
    }
}

proof fn ticks_to_ms_fits(ticks: int, fps: int)
    requires
        0 <= ticks <= ACTION_COOLDOWN_LIMIT,
        fps >= 1,
    ensures
        0 <= ticks * 1_000 / fps <= COOLDOWN_LIMIT_MS,
{
    assert(0 <= ticks * 1_000 / fps <= ticks * 1_000) by (nonlinear_arith)
        requires
            0 <= ticks,
            fps >= 1,
    ;
}

/// The time of a tick is the nearest one to a second's share.
pub proof fn a_tick_is_a_share_of_a_second(fps: int)
    requires
        fps >= 1,
    ensures
        -fps <= 2 * (fps * tick_budget_spec(fps) - 1_000_000_000) <= fps,
{
    let n: int = 1_000_000_000 + fps / 2;
    let q: int = n / fps;
    vstd::arithmetic::div_mod::lemma_fundamental_div_mod(n, fps);
    let r: int = n % fps;
    assert(0 <= r < fps) by (nonlinear_arith)
        requires
            r == n % fps,
            fps >= 1,
    ;
}

/// A number of ticks is as many milliseconds as fit into it.
pub proof fn ticks_are_the_milliseconds_that_fit(ticks: int, fps: int)
    requires
        fps >= 1,
        ticks >= 0,
    ensures
        fps * ticks_to_ms(ticks, fps) <= 1_000 * ticks < fps * (ticks_to_ms(ticks, fps) + 1),
{
    let n: int = ticks * 1_000;
    vstd::arithmetic::div_mod::lemma_fundamental_div_mod(n, fps);
    let q: int = n / fps;
    let r: int = n % fps;
    assert(0 <= r < fps) by (nonlinear_arith)
        requires
            r == n % fps,
            fps >= 1,
    ;
    assert(fps * (q + 1) == fps * q + fps) by (nonlinear_arith);
}

/// Names of keys become their codes in order, and an unknown name is left out.
pub proof fn known_names_become_codes(a: Seq<String>, b: Seq<String>, name: String, keys: KeyMap)
    ensures
        known_keys(a + b, keys) == known_keys(a, keys) + known_keys(b, keys),
        keys.code_of(name@) matches Some(code) ==> known_keys(seq![name], keys) == seq![code],
        keys.code_of(name@) is None ==> known_keys(seq![name], keys) == Seq::<u8>::empty(),
    decreases b.len(),
{
    reveal_with_fuel(known_keys, 2);
    assert(seq![name].drop_last() =~= Seq::<String>::empty());
    assert(seq![name].last() == name);
    if let Some(code) = keys.code_of(name@) {
        assert(known_keys(seq![name], keys) =~= seq![code]);
    }
    if b.len() == 0 {
        assert(a + b =~= a);
        assert(known_keys(a, keys) + known_keys(b, keys) =~= known_keys(a, keys));
    } else {
        known_names_become_codes(a, b.drop_last(), name, keys);
        assert((a + b).drop_last() =~= a + b.drop_last());
        assert((a + b).last() == b.last());
        assert(known_keys(a + b, keys) =~= known_keys(a, keys) + known_keys(b, keys));
    }
}

/// A session lasts its hours, in millionths of an hour, and warns its minutes before, but not
/// before it starts; without hours there is no limit, and without minutes no warning.
pub proof fn a_session_lasts_its_hours(
    r: Option<SessionLimit>,
    max_hours: int,
    warning_min: int,
    fps: int,
    start_tick: u64,
)
    requires
        session_limit_tells(r, max_hours, warning_min, fps, start_tick),
        1 <= fps,
        max_hours * 3600 * fps < 1_000_000 * u64::MAX,
        warning_min * 60 * fps < 1_000_000 * u64::MAX,
    ensures
        (r is Some) == (max_hours > 0),
        r matches Some(sl) ==> sl.start_tick == start_tick && 1_000_000 * sl.max_ticks <= max_hours
            * 3600 * fps < 1_000_000 * (sl.max_ticks + 1),
        r matches Some(sl) ==> (warning_min <= 0 ==> sl.warning_margin_ticks == 0),
        r matches Some(sl) ==> (0 < warning_min && sl.warning_margin_ticks < sl.max_ticks
            ==> 1_000_000 * sl.warning_margin_ticks <= warning_min * 60 * fps < 1_000_000 * (
        sl.warning_margin_ticks + 1)),
        r matches Some(sl) ==> sl.warning_margin_ticks <= sl.max_ticks,
{
    if max_hours > 0 {
        assert(max_hours * 3600 * fps >= 0) by (nonlinear_arith)
            requires
                max_hours > 0,
                fps >= 1,
        ;
    }
    if warning_min > 0 {
        assert(warning_min * 60 * fps >= 0) by (nonlinear_arith)
            requires
                warning_min > 0,
                fps >= 1,
        ;
    }
}

} // verus!
