//! Settings of the bot.
//!
//! Ratios are in parts per million and durations in microseconds unless a name
//! says otherwise.

use vstd::prelude::*;
use crate::keycode::KeyMap;
use crate::text::is_blank;
use crate::units::{Ppm, ONE};

verus! {

/// All settings.
#[derive(Clone, Debug)]
pub struct Config {
    pub ndi: NdiConfig,
    pub pico: PicoConfig,
    pub http: HttpConfig,
    pub coords: CoordsConfig,
    pub loop_config: LoopConfig,
    pub actions: ActionsConfig,
    pub waypoints: WaypointsConfig,
    pub scripting: ScriptingConfig,
    pub safety: SafetyConfig,
    pub cavebot: CavebotConfig,
    pub game_coords: GameCoordsConfig,
    pub recording: RecordingConfig,
    /// The spells; where there are none, the keys of `actions` are used.
    pub spells: Vec<SpellConfig>,
}

/// The video source.
#[derive(Clone, Debug)]
pub struct NdiConfig {
    pub source_name: String,
    /// Time between attempts to find the source.
    pub retry_interval_ms: u64,
}

/// Default time between attempts to find the video source.
pub fn default_ndi_retry() -> (r: u64)
    ensures
        r == 2_000,
{
    2_000
}

/// The bridge that taps keys.
#[derive(Clone, Debug)]
pub struct PicoConfig {
    pub bridge_addr: String,
    pub connect_timeout_ms: u64,
    /// Time within which a command is answered.
    pub command_timeout_ms: u64,
    /// Longest time between attempts to connect.
    pub max_backoff_secs: u64,
}

/// Default time to wait for a connection.
pub fn default_connect_timeout() -> (r: u64)
    ensures
        r == 3_000,
{
    3_000
}

/// Default time to wait for the answer to a command.
pub fn default_cmd_timeout() -> (r: u64)
    ensures
        r == 100,
{
    100
}

/// Default longest time between attempts to connect.
pub fn default_max_backoff() -> (r: u64)
    ensures
        r == 5,
{
    5
}

/// The operators' interface.
#[derive(Clone, Debug)]
pub struct HttpConfig {
    pub listen_addr: String,
    /// Token that requests must carry; none is asked for where it is missing
    /// or empty.
    pub auth_token: Option<String>,
    /// Hide the pages that show what the bot sees.
    pub stealth_mode: bool,
}

/// Default address of the operators' interface.
pub fn default_http_addr() -> (r: String)
    ensures
        r@ == "0.0.0.0:8080"@,
{
    "0.0.0.0:8080".to_owned()
}

/// The pace of the loop.
#[derive(Clone, Copy, Debug, PartialEq, Eq, Structural)]
pub struct LoopConfig {
    /// Ticks per second.
    pub target_fps: u32,
}

impl Default for LoopConfig {
    fn default() -> (r: Self)
        ensures
            r.target_fps == 30,
    {
        LoopConfig { target_fps: 30 }
    }
}

/// Where the game window lies on the desktop.
#[derive(Clone, Copy, Debug, PartialEq, Eq, Structural)]
pub struct CoordsConfig {
    /// Origin of the virtual desktop; negative with a monitor to the left of
    /// the primary one.
    pub vscreen_origin_x: i32,
    pub vscreen_origin_y: i32,
    pub desktop_total_w: u32,
    pub desktop_total_h: u32,
    pub tibia_window_x: i32,
    pub tibia_window_y: i32,
    pub tibia_window_w: u32,
    pub tibia_window_h: u32,
    pub game_viewport_offset_x: i32,
    pub game_viewport_offset_y: i32,
    pub game_viewport_w: u32,
    pub game_viewport_h: u32,
}

impl Default for CoordsConfig {
    fn default() -> (r: Self)
        ensures
            r == (CoordsConfig {
                vscreen_origin_x: 0,
                vscreen_origin_y: 0,
                desktop_total_w: 1920,
                desktop_total_h: 1080,
                tibia_window_x: 0,
                tibia_window_y: 0,
                tibia_window_w: 1920,
                tibia_window_h: 1080,
                game_viewport_offset_x: 0,
                game_viewport_offset_y: 0,
                game_viewport_w: 1920,
                game_viewport_h: 1080,
            }),
    {
        CoordsConfig {
            vscreen_origin_x: 0,
            vscreen_origin_y: 0,
            desktop_total_w: 1920,
            desktop_total_h: 1080,
            tibia_window_x: 0,
            tibia_window_y: 0,
            tibia_window_w: 1920,
            tibia_window_h: 1080,
            game_viewport_offset_x: 0,
            game_viewport_offset_y: 0,
            game_viewport_w: 1920,
            game_viewport_h: 1080,
        }
    }
}

/// The keys of the bot, by name, and the ticks between their uses.
#[derive(Clone, Debug)]
pub struct ActionsConfig {
    pub heal_spell: String,
    pub heal_potion: String,
    pub mana_spell: String,
    pub attack_default: String,
    /// Empty where looting is switched off.
    pub loot_hotkey: String,
    pub heal_cooldown_ticks: u64,
    pub attack_cooldown_ticks: u64,
}

impl Default for ActionsConfig {
    fn default() -> (r: Self)
        ensures
            r.heal_spell@ == "F1"@,
            r.heal_potion@ == "F2"@,
            r.mana_spell@ == "F3"@,
            r.attack_default@ == "Space"@,
            r.loot_hotkey@ == Seq::<char>::empty(),
            r.heal_cooldown_ticks == 10,
            r.attack_cooldown_ticks == 30,
    {
        ActionsConfig {
            heal_spell: "F1".to_owned(),
            heal_potion: "F2".to_owned(),
            mana_spell: "F3".to_owned(),
            attack_default: "Space".to_owned(),
            loot_hotkey: String::new(),
            heal_cooldown_ticks: 10,
            attack_cooldown_ticks: 30,
        }
    }
}

/// The HID codes of the configured keys.
#[derive(Clone, Copy, Debug, PartialEq, Eq, Structural)]
pub struct Hotkeys {
    pub heal_spell: u8,
    pub heal_potion: u8,
    pub mana_spell: u8,
    pub attack_default: u8,
    /// `None` where looting is switched off.
    pub loot_hotkey: Option<u8>,
}

/// The setting whose key is unknown.
#[derive(Clone, Copy, Debug, PartialEq, Eq, Structural)]
pub enum HotkeyError {
    LootHotkey,
    HealSpell,
    HealPotion,
    ManaSpell,
    AttackDefault,
}

impl HotkeyError {
    /// The name of the setting.
    pub open spec fn setting_spec(self) -> Seq<char> {
        match self {
            HotkeyError::LootHotkey => "actions.loot_hotkey"@,
            HotkeyError::HealSpell => "actions.heal_spell"@,
            HotkeyError::HealPotion => "actions.heal_potion"@,
            HotkeyError::ManaSpell => "actions.mana_spell"@,
            HotkeyError::AttackDefault => "actions.attack_default"@,
        }
    }

    /// The setting, and what is wrong with it.
    pub open spec fn told(self) -> Seq<char> {
        self.setting_spec() + ": unknown key"@
    }

    /// The setting, and what is wrong with it.
    pub fn text(&self) -> (r: String)
        ensures
            r@ == self.told(),
    {
        let mut s = self.setting().to_owned();
        s.append(": unknown key");
        s
    }

    /// The name of the setting.
    pub fn setting(&self) -> (r: &'static str)
        ensures
            r@ == self.setting_spec(),
    {
        match self {
            HotkeyError::LootHotkey => "actions.loot_hotkey",
            HotkeyError::HealSpell => "actions.heal_spell",
            HotkeyError::HealPotion => "actions.heal_potion",
            HotkeyError::ManaSpell => "actions.mana_spell",
            HotkeyError::AttackDefault => "actions.attack_default",
        }
    }
}

/// The waypoint list to start with.
#[derive(Clone, Debug)]
pub struct WaypointsConfig {
    /// Empty where none is to be loaded.
    pub path: String,
    pub enabled: bool,
    /// Ticks without progress after which the list is stopped; 0 for never.
    pub stuck_threshold_ticks: u64,
}

impl Default for WaypointsConfig {
    fn default() -> (r: Self)
        ensures
            r.path@ == Seq::<char>::empty(),
            !r.enabled,
            r.stuck_threshold_ticks == 1800,
    {
        WaypointsConfig { path: String::new(), enabled: false, stuck_threshold_ticks: 1800 }
    }
}

/// The cavebot to start with, and how it walks.
#[derive(Clone, Debug)]
pub struct CavebotConfig {
    /// Empty where none is to be loaded.
    pub path: String,
    pub enabled: bool,
    pub pixels_per_tile: Option<i32>,
    pub displacement_tolerance: Option<i32>,
    pub arrived_idle_ticks: Option<u32>,
    pub reclick_idle_ticks: Option<u32>,
    pub max_reclicks: Option<u8>,
    pub timeout_ticks: Option<u64>,
}

impl Default for CavebotConfig {
    fn default() -> (r: Self)
        ensures
            r.path@ == Seq::<char>::empty(),
            !r.enabled,
            r.pixels_per_tile is None,
            r.displacement_tolerance is None,
            r.arrived_idle_ticks is None,
            r.reclick_idle_ticks is None,
            r.max_reclicks is None,
            r.timeout_ticks is None,
    {
        CavebotConfig {
            path: String::new(),
            enabled: false,
            pixels_per_tile: None,
            displacement_tolerance: None,
            arrived_idle_ticks: None,
            reclick_idle_ticks: None,
            max_reclicks: None,
            timeout_ticks: None,
        }
    }
}

/// How the position on the map is found.
#[derive(Clone, Debug)]
pub struct GameCoordsConfig {
    /// Empty where the index is not used.
    pub map_index_path: String,
    pub detect_interval: Option<u32>,
    /// Pixels per tile of the minimap.
    pub ndi_tile_scale: u32,
    /// Empty where the matcher is not used.
    pub minimap_dir: String,
    /// Largest score that counts as a match; 0 for the matcher's own.
    pub matcher_threshold: Ppm,
    pub matcher_floors: Option<String>,
}

impl Default for GameCoordsConfig {
    fn default() -> (r: Self)
        ensures
            r.map_index_path@ == Seq::<char>::empty(),
            r.detect_interval is None,
            r.ndi_tile_scale == 5,
            r.minimap_dir@ == Seq::<char>::empty(),
            r.matcher_threshold == 0,
            r.matcher_floors is None,
    {
        GameCoordsConfig {
            map_index_path: String::new(),
            detect_interval: None,
            ndi_tile_scale: 5,
            minimap_dir: String::new(),
            matcher_threshold: 0,
            matcher_floors: None,
        }
    }
}

/// The recording to start with.
#[derive(Clone, Debug)]
pub struct RecordingConfig {
    pub enabled: bool,
    /// Empty for the usual file.
    pub path: String,
    /// Ticks between two records.
    pub interval_ticks: Option<u32>,
}

impl Default for RecordingConfig {
    fn default() -> (r: Self)
        ensures
            !r.enabled,
            r.path@ == Seq::<char>::empty(),
            r.interval_ticks is None,
    {
        RecordingConfig { enabled: false, path: String::new(), interval_ticks: None }
    }
}

/// What a spell is for.
#[derive(Clone, Copy, Debug, PartialEq, Eq, Structural)]
pub enum SpellKind {
    Heal,
    Attack,
    Support,
}

/// Default upper bound of a spell's health and mana conditions.
pub fn default_one() -> (r: Ppm)
    ensures
        r == ONE,
{
    ONE
}

/// Default cooldown of a spell.
pub fn default_spell_cd() -> (r: u64)
    ensures
        r == 1000,
{
    1000
}

/// Default priority of a spell.
pub fn default_priority() -> (r: u32)
    ensures
        r == 1,
{
    1
}

/// A spell with the conditions under which it is cast.
#[derive(Clone, Debug)]
pub struct SpellConfig {
    /// Name of the key.
    pub key: String,
    pub kind: SpellKind,
    /// Spells with a smaller number are tried first.
    pub priority: u32,
    pub min_hp: Ppm,
    pub max_hp: Ppm,
    pub min_mana: Ppm,
    pub max_mana: Ppm,
    /// Least number of enemies in sight.
    pub min_enemies: u32,
    pub cooldown_ms: u64,
}

/// The script engine.
#[derive(Clone, Debug)]
pub struct ScriptingConfig {
    /// Empty where there are no scripts.
    pub script_dir: String,
    /// Time that a hook may take; 0 for no limit.
    pub tick_budget_us: u64,
}

impl Default for ScriptingConfig {
    fn default() -> (r: Self)
        ensures
            r.script_dir@ == Seq::<char>::empty(),
            r.tick_budget_us == 5_000,
    {
        ScriptingConfig { script_dir: String::new(), tick_budget_us: 5_000 }
    }
}

/// Pace and pauses.
#[derive(Clone, Debug)]
pub struct SafetyConfig {
    /// Draw cooldowns at random and wait before reacting.
    pub humanize_timing: bool,
    pub heal_cd_mean_us: i64,
    pub heal_cd_std_us: i64,
    pub attack_cd_mean_us: i64,
    pub attack_cd_std_us: i64,
    /// Delay before a key is sent.
    pub presend_jitter_mean_us: i64,
    pub presend_jitter_std_us: i64,
    /// Delay before the first reaction to critical health.
    pub reaction_hp_mean_us: i64,
    pub reaction_hp_std_us: i64,
    /// Delay before the first reaction to an enemy.
    pub reaction_enemy_mean_us: i64,
    pub reaction_enemy_std_us: i64,
    pub max_actions_per_sec: u32,
    /// Choose at random between the heal spell and the heal potion.
    pub heal_variation: bool,
    pub heal_spell_weight: u32,
    pub heal_potion_weight: u32,
    pub breaks_enabled: bool,
    pub human_noise_enabled: bool,
    /// Names of the keys that are harmless to tap.
    pub human_noise_keys: Vec<String>,
    pub human_noise_interval_mean_us: i64,
    pub human_noise_interval_std_us: i64,
    /// Pause while a prompt is on the screen.
    pub prompt_detection_enabled: bool,
    /// Longest session, in millionths of an hour; not positive for no limit.
    pub max_session_hours: i64,
    /// Warning before the end of a session, in millionths of a minute.
    pub session_warning_min: i64,
}

impl Default for SafetyConfig {
    fn default() -> (r: Self)
        ensures
            r.humanize_timing,
            r.heal_cd_mean_us == 333_000,
            r.heal_cd_std_us == 83_000,
            r.attack_cd_mean_us == 1_000_000,
            r.attack_cd_std_us == 200_000,
            r.presend_jitter_mean_us == 45_000,
            r.presend_jitter_std_us == 15_000,
            r.reaction_hp_mean_us == 180_000,
            r.reaction_hp_std_us == 40_000,
            r.reaction_enemy_mean_us == 250_000,
            r.reaction_enemy_std_us == 60_000,
            r.max_actions_per_sec == 8,
            r.heal_variation,
            r.heal_spell_weight == 70,
            r.heal_potion_weight == 30,
            !r.breaks_enabled,
            !r.human_noise_enabled,
            r.human_noise_keys@.len() == 0,
            r.human_noise_interval_mean_us == 180_000_000,
            r.human_noise_interval_std_us == 60_000_000,
            r.prompt_detection_enabled,
            r.max_session_hours == 0,
            r.session_warning_min == 0,
    {
        SafetyConfig {
            humanize_timing: true,
            heal_cd_mean_us: 333_000,
            heal_cd_std_us: 83_000,
            attack_cd_mean_us: 1_000_000,
            attack_cd_std_us: 200_000,
            presend_jitter_mean_us: 45_000,
            presend_jitter_std_us: 15_000,
            reaction_hp_mean_us: 180_000,
            reaction_hp_std_us: 40_000,
            reaction_enemy_mean_us: 250_000,
            reaction_enemy_std_us: 60_000,
            max_actions_per_sec: 8,
            heal_variation: true,
            heal_spell_weight: 70,
            heal_potion_weight: 30,
            breaks_enabled: false,
            human_noise_enabled: false,
            human_noise_keys: Vec::new(),
            human_noise_interval_mean_us: 180_000_000,
            human_noise_interval_std_us: 60_000_000,
            prompt_detection_enabled: true,
            max_session_hours: 0,
            session_warning_min: 0,
        }
    }
}

impl Config {
    /// The codes of the keys that `actions` names, or the first setting, from
    /// the loot key on, whose key is unknown.
    pub open spec fn hotkeys_spec(self, keys: KeyMap) -> Result<Hotkeys, HotkeyError> {
        let a = self.actions;
        let loot = keys.code_of(a.loot_hotkey@);
        let heal = keys.code_of(a.heal_spell@);
        let potion = keys.code_of(a.heal_potion@);
        let mana = keys.code_of(a.mana_spell@);
        let attack = keys.code_of(a.attack_default@);
        if a.loot_hotkey@.len() > 0 && loot is None {
            Err(HotkeyError::LootHotkey)
        } else if heal is None {
            Err(HotkeyError::HealSpell)
        } else if potion is None {
            Err(HotkeyError::HealPotion)
        } else if mana is None {
            Err(HotkeyError::ManaSpell)
        } else if attack is None {
            Err(HotkeyError::AttackDefault)
        } else {
            Ok(
                Hotkeys {
                    heal_spell: heal->0,
                    heal_potion: potion->0,
                    mana_spell: mana->0,
                    attack_default: attack->0,
                    loot_hotkey: if a.loot_hotkey@.len() > 0 { loot } else { None },
                },
            )
        }
    }

    /// The codes of the keys that `actions` names. A loot key is optional; any
    /// other unknown name is an error.
    pub fn hotkeys(&self, keys: &KeyMap) -> (r: Result<Hotkeys, HotkeyError>)
        ensures
            r == self.hotkeys_spec(*keys),
    {
        let a = &self.actions;
        let loot_hotkey = if is_blank(a.loot_hotkey.as_str()) {
            None
        } else {
            match keys.parse(a.loot_hotkey.as_str()) {
                Some(c) => Some(c),
                None => {
                    return Err(HotkeyError::LootHotkey);
                },
            }
        };
        let heal_spell: u8 = match keys.parse(a.heal_spell.as_str()) {
            Some(c) => c,
            None => {
                return Err(HotkeyError::HealSpell);
            },
        };
        let heal_potion: u8 = match keys.parse(a.heal_potion.as_str()) {
            Some(c) => c,
            None => {
                return Err(HotkeyError::HealPotion);
            },
        };
        let mana_spell: u8 = match keys.parse(a.mana_spell.as_str()) {
            Some(c) => c,
            None => {
                return Err(HotkeyError::ManaSpell);
            },
        };
        let attack_default: u8 = match keys.parse(a.attack_default.as_str()) {
            Some(c) => c,
            None => {
                return Err(HotkeyError::AttackDefault);
            },
        };
        Ok(Hotkeys { heal_spell, heal_potion, mana_spell, attack_default, loot_hotkey })
    }
}

/// The configured keys are known exactly if each of the four names is, and that of the loot key
/// where one is given. Each key is then the one that its own setting names, and without a name
/// for it there is no loot key.
pub proof fn each_setting_names_its_own_key(c: Config, keys: KeyMap)
    ensures
        (c.hotkeys_spec(keys) is Ok) == (keys.code_of(c.actions.heal_spell@) is Some && keys.code_of(
            c.actions.heal_potion@,
        ) is Some && keys.code_of(c.actions.mana_spell@) is Some && keys.code_of(
            c.actions.attack_default@,
        ) is Some && (c.actions.loot_hotkey@.len() == 0 || keys.code_of(
            c.actions.loot_hotkey@,
        ) is Some)),
        c.hotkeys_spec(keys) matches Ok(h) ==> {
            &&& keys.code_of(c.actions.heal_spell@) == Some(h.heal_spell)
            &&& keys.code_of(c.actions.heal_potion@) == Some(h.heal_potion)
            &&& keys.code_of(c.actions.mana_spell@) == Some(h.mana_spell)
            &&& keys.code_of(c.actions.attack_default@) == Some(h.attack_default)
            &&& c.actions.loot_hotkey@.len() > 0 ==> keys.code_of(c.actions.loot_hotkey@)
                == h.loot_hotkey
            &&& c.actions.loot_hotkey@.len() == 0 ==> h.loot_hotkey is None
        },
        c.hotkeys_spec(keys) matches Err(e) ==> match e {
            HotkeyError::LootHotkey => c.actions.loot_hotkey@.len() > 0 && keys.code_of(
                c.actions.loot_hotkey@,
            ) is None,
            HotkeyError::HealSpell => keys.code_of(c.actions.heal_spell@) is None,
            HotkeyError::HealPotion => keys.code_of(c.actions.heal_potion@) is None,
            HotkeyError::ManaSpell => keys.code_of(c.actions.mana_spell@) is None,
            HotkeyError::AttackDefault => keys.code_of(c.actions.attack_default@) is None,
        },
{
}

/// An unknown key is told by the setting that names it.
pub proof fn an_unknown_key_is_told_by_its_setting(e: HotkeyError)
    ensures
        e == HotkeyError::LootHotkey ==> e.told() == "actions.loot_hotkey"@ + ": unknown key"@,
        e == HotkeyError::HealSpell ==> e.told() == "actions.heal_spell"@ + ": unknown key"@,
        e == HotkeyError::HealPotion ==> e.told() == "actions.heal_potion"@ + ": unknown key"@,
        e == HotkeyError::ManaSpell ==> e.told() == "actions.mana_spell"@ + ": unknown key"@,
        e == HotkeyError::AttackDefault ==> e.told() == "actions.attack_default"@
            + ": unknown key"@,
{
}

} // verus!
