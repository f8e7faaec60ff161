//! The spell table: priorities, conditions and cooldowns.

use tibia_bot::config::{Hotkeys, SpellConfig, SpellKind};
use tibia_bot::keycode::{KeyMap, KeyName};
use tibia_bot::spell_table::{SpellContext, SpellTable};

fn keys() -> KeyMap {
    let names = [("F1", 0x3A), ("F2", 0x3B), ("F3", 0x3C), ("PageDown", 0x4E)];
    KeyMap {
        names: names.iter().map(|(n, c)| KeyName { name: n.to_string(), code: *c }).collect(),
        chars: vec![],
    }
}

fn ppm(r: f64) -> u32 {
    (r * 1_000_000.0).round() as u32
}

fn ctx(hp: f64, mana: f64, enemies: u32, tick: u64) -> SpellContext {
    SpellContext { hp: ppm(hp), mana: ppm(mana), enemies, tick }
}

fn spell(key: &str, kind: SpellKind, priority: u32, max_hp: f64, max_mana: f64) -> SpellConfig {
    SpellConfig {
        key: key.to_string(),
        kind,
        priority,
        min_hp: 0,
        max_hp: ppm(max_hp),
        min_mana: 0,
        max_mana: ppm(max_mana),
        min_enemies: 0,
        cooldown_ms: 300,
    }
}

#[test]
fn pick_heal_by_priority() {
    let configs = vec![
        spell("F1", SpellKind::Heal, 1, 0.30, 1.0),
        spell("F2", SpellKind::Heal, 2, 0.60, 1.0),
    ];
    let mut table = SpellTable::from_configs(&configs, &keys(), 30, None);
    let f1 = keys().parse("F1").unwrap();
    let f2 = keys().parse("F2").unwrap();
    assert_eq!(table.pick_heal(&ctx(0.25, 1.0, 0, 0), 0), Some(f1));
    assert_eq!(table.pick_heal(&ctx(0.50, 1.0, 0, 100), 0), Some(f2));
    assert_eq!(table.pick_heal(&ctx(0.80, 1.0, 0, 200), 0), None);
}

#[test]
fn cooldown_blocks_same_spell() {
    let configs = vec![spell("F1", SpellKind::Heal, 1, 1.0, 1.0)];
    let mut table = SpellTable::from_configs(&configs, &keys(), 30, None);
    let f1 = keys().parse("F1").unwrap();
    assert_eq!(table.pick_heal(&ctx(0.20, 1.0, 0, 0), 0), Some(f1));
    assert_eq!(table.pick_heal(&ctx(0.20, 1.0, 0, 5), 0), None);
    assert_eq!(table.pick_heal(&ctx(0.20, 1.0, 0, 9), 0), Some(f1));
}

#[test]
fn mana_condition_filters() {
    let configs = vec![spell("F3", SpellKind::Heal, 1, 1.0, 0.40)];
    let mut table = SpellTable::from_configs(&configs, &keys(), 30, None);
    let f3 = keys().parse("F3").unwrap();
    assert_eq!(table.pick_heal(&ctx(0.50, 0.30, 0, 0), 0), Some(f3));
    assert_eq!(table.pick_heal(&ctx(0.50, 0.60, 0, 100), 0), None);
}

#[test]
fn attack_requires_enemies() {
    let mut attack = spell("PageDown", SpellKind::Attack, 1, 1.0, 1.0);
    attack.min_enemies = 1;
    attack.cooldown_ms = 1000;
    let mut table = SpellTable::from_configs(&vec![attack], &keys(), 30, None);
    let pd = keys().parse("PageDown").unwrap();
    assert_eq!(table.pick_attack(&ctx(1.0, 1.0, 0, 0), 0), None);
    assert_eq!(table.pick_attack(&ctx(1.0, 1.0, 1, 0), 0), Some(pd));
}

#[test]
fn legacy_fallback_works() {
    let hotkeys = Hotkeys {
        heal_spell: 0x3A,
        heal_potion: 0x3B,
        mana_spell: 0x3C,
        attack_default: 0x4E,
        loot_hotkey: None,
    };
    let mut table = SpellTable::from_legacy(&hotkeys, 333, 1000);
    assert_eq!(table.pick_heal(&ctx(0.20, 1.0, 0, 0), 0), Some(0x3A));
    assert_eq!(table.pick_heal(&ctx(1.0, 0.15, 0, 100), 0), Some(0x3C));
    assert_eq!(table.pick_attack(&ctx(1.0, 1.0, 1, 0), 0), Some(0x4E));
}

#[test]
fn spells_are_sorted_and_unknown_keys_left_out() {
    let configs = vec![
        spell("F2", SpellKind::Heal, 5, 1.0, 1.0),
        spell("F9", SpellKind::Heal, 1, 1.0, 1.0),
        spell("F3", SpellKind::Support, 2, 1.0, 1.0),
        spell("F1", SpellKind::Heal, 5, 1.0, 1.0),
    ];
    let table = SpellTable::from_configs(&configs, &keys(), 30, None);
    let order: Vec<u8> = table.heals.iter().map(|e| e.hidcode).collect();
    assert_eq!(order, vec![0x3C, 0x3B, 0x3A]);
    assert!(table.has_heals());
    assert!(!table.has_attacks());
}
