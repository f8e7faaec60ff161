//! Spells by priority, each with conditions and a cooldown of its own.

use std::collections::HashMap;
use vstd::prelude::*;
use crate::config::{Hotkeys, SpellConfig, SpellKind};
use crate::keycode::KeyMap;
use crate::safety::timing::{gauss_ticks, sample_gauss_ticks};
use crate::units::{Ppm, ONE};

verus! {

broadcast use vstd::std_specs::hash::group_hash_axioms;

/// Longest cooldown of a spell, in milliseconds.
pub const COOLDOWN_LIMIT_MS: u64 = 0x0100_0000_0000;

/// Ticks per second that fixed cooldowns are counted in.
pub const FIXED_FPS: u64 = 30;

/// A spell of the table.
#[derive(Clone, Copy, Debug, PartialEq, Eq, Structural)]
pub struct SpellEntry {
    pub hidcode: u8,
    pub priority: u32,
    pub min_hp: Ppm,
    pub max_hp: Ppm,
    pub min_mana: Ppm,
    pub max_mana: Ppm,
    pub min_enemies: u32,
    pub cooldown_ms: u64,
}

/// What a spell's conditions are held against.
#[derive(Clone, Copy, Debug, PartialEq, Eq, Structural)]
pub struct SpellContext {
    pub hp: Ppm,
    pub mana: Ppm,
    pub enemies: u32,
    pub tick: u64,
}

/// Jitter of the cooldowns.
#[derive(Clone, Copy, Debug, PartialEq, Eq, Structural)]
pub struct SpellJitter {
    /// Spread of a cooldown as a share of its mean.
    pub std_factor: Ppm,
    pub fps: u32,
}

/// The spells by priority, and the ticks from which each key may be used again.
pub struct SpellTable {
    pub heals: Vec<SpellEntry>,
    pub attacks: Vec<SpellEntry>,
    pub cooldowns: HashMap<u8, u64>,
    /// Present where cooldowns are drawn at random.
    pub jitter: Option<SpellJitter>,
}

/// `sorted` with `e` put behind the last entry of no larger priority number.
pub open spec fn insert_entry(sorted: Seq<SpellEntry>, e: SpellEntry) -> Seq<SpellEntry>
    decreases sorted.len(),
{
    if sorted.len() == 0 || sorted.last().priority <= e.priority {
        sorted.push(e)
    } else {
        insert_entry(sorted.drop_last(), e).push(sorted.last())
    }
}

/// The entries by ascending priority number; those of one number keep their
/// order.
pub open spec fn by_priority(entries: Seq<SpellEntry>) -> Seq<SpellEntry>
    decreases entries.len(),
{
    if entries.len() == 0 {
        Seq::empty()
    } else {
        insert_entry(by_priority(entries.drop_last()), entries.last())
    }
}

/// The table entry of a configured spell under the key `hidcode`.
pub open spec fn entry_of(cfg: SpellConfig, hidcode: u8) -> SpellEntry {
    SpellEntry {
        hidcode,
        priority: cfg.priority,
        min_hp: cfg.min_hp,
        max_hp: cfg.max_hp,
        min_mana: cfg.min_mana,
        max_mana: cfg.max_mana,
        min_enemies: cfg.min_enemies,
        cooldown_ms: cfg.cooldown_ms,
    }
}

/// The entries of the configured spells that attack, or of those that do not,
/// in order. A spell whose key is unknown is left out.
pub open spec fn entries_of(
    configs: Seq<SpellConfig>,
    keys: KeyMap,
    attack: bool,
) -> Seq<SpellEntry>
    decreases configs.len(),
{
    if configs.len() == 0 {
        Seq::empty()
    } else {
        let before = entries_of(configs.drop_last(), keys, attack);
        let cfg = configs.last();
        match keys.code_of(cfg.key@) {
            Some(code) if (cfg.kind == SpellKind::Attack) == attack => before.push(
                entry_of(cfg, code),
            ),
            _ => before,
        }
    }
}

impl SpellEntry {
    /// The conditions of the spell are met.
    pub open spec fn conditions(self, ctx: SpellContext) -> bool {
        &&& self.min_hp <= ctx.hp <= self.max_hp
        &&& self.min_mana <= ctx.mana <= self.max_mana
        &&& self.min_enemies <= ctx.enemies
    }

    /// The spell may be cast: its conditions are met and its key is not on
    /// cooldown.
    pub open spec fn eligible(self, ctx: SpellContext, cooldowns: Map<u8, u64>) -> bool {
        &&& self.conditions(ctx)
        &&& cooldowns.dom().contains(self.hidcode) ==> ctx.tick >= cooldowns[self.hidcode]
    }
}

/// The cooldown of a spell in ticks: jittered by the draw `z`, or rounded up
/// from its milliseconds.
pub open spec fn cd_ticks(jitter: Option<SpellJitter>, cooldown_ms: u64, z: int) -> int {
    match jitter {
        Some(j) => gauss_ticks(
            cooldown_ms * 1_000,
            cooldown_ms * 1_000 * j.std_factor / 1_000_000,
            j.fps as int,
            z,
        ),
        None => (cooldown_ms * FIXED_FPS + 999) / 1_000,
    }
}

/// The entry at `i` is the first one that may be cast.
pub open spec fn first_eligible(
    entries: Seq<SpellEntry>,
    ctx: SpellContext,
    cooldowns: Map<u8, u64>,
    i: int,
) -> bool {
    &&& 0 <= i < entries.len()
    &&& entries[i].eligible(ctx, cooldowns)
    &&& forall|j: int| 0 <= j < i ==> !(#[trigger] entries[j]).eligible(ctx, cooldowns)
}

/// No entry may be cast.
pub open spec fn none_eligible(
    entries: Seq<SpellEntry>,
    ctx: SpellContext,
    cooldowns: Map<u8, u64>,
) -> bool {
    forall|j: int| 0 <= j < entries.len() ==> !(#[trigger] entries[j]).eligible(ctx, cooldowns)
}

/// What a pick returns and does to the cooldowns: the first entry that may be
/// cast gives its key, which goes on cooldown; where there is none, nothing
/// happens.
pub open spec fn picked(
    entries: Seq<SpellEntry>,
    jitter: Option<SpellJitter>,
    ctx: SpellContext,
    z: int,
    before: Map<u8, u64>,
    after: Map<u8, u64>,
    r: Option<u8>,
) -> bool {
    match r {
        Some(key) => exists|i: int| #[trigger]
            first_eligible(entries, ctx, before, i) && key == entries[i].hidcode && after
                == before.insert(
                key,
                (ctx.tick + cd_ticks(jitter, entries[i].cooldown_ms, z)) as u64,
            ),
        None => none_eligible(entries, ctx, before) && after == before,
    }
}

/// No cooldown of the entries leads past the last tick.
pub open spec fn cooldowns_fit(
    entries: Seq<SpellEntry>,
    jitter: Option<SpellJitter>,
    tick: u64,
    z: int,
) -> bool {
    forall|i: int|
        0 <= i < entries.len() ==> tick + cd_ticks(
            jitter,
            (#[trigger] entries[i]).cooldown_ms,
            z,
        ) <= u64::MAX
}

/// No cooldown of the entries is longer than the limit.
pub open spec fn within_limit(entries: Seq<SpellEntry>) -> bool {
    forall|i: int| 0 <= i < entries.len() ==> (#[trigger] entries[i]).cooldown_ms <= COOLDOWN_LIMIT_MS
}

fn insert_sorted(sorted: &mut Vec<SpellEntry>, e: SpellEntry)
    requires
        within_limit(old(sorted)@),
        e.cooldown_ms <= COOLDOWN_LIMIT_MS,
    ensures
        final(sorted)@ == insert_entry(old(sorted)@, e),
        within_limit(final(sorted)@),
{
    let n: usize = sorted.len();
    let mut i: usize = n;
    let ghost s = sorted@;
    assert(s.take(n as int) =~= s);
    assert(s.skip(n as int) =~= Seq::empty());
    assert(insert_entry(s.take(n as int), e) + s.skip(n as int) =~= insert_entry(s, e));
    while i > 0 && sorted[i - 1].priority > e.priority
        invariant
            i <= n,
            n == s.len(),
            sorted@ == s,
            insert_entry(s, e) == insert_entry(s.take(i as int), e) + s.skip(i as int),
        decreases i,
    {
        assert(s.take(i as int).drop_last() =~= s.take(i - 1));
        assert(s.take(i as int).last() == s[i - 1]);
        assert(insert_entry(s.take(i as int), e) == insert_entry(s.take(i - 1), e).push(s[i - 1]));
        assert(insert_entry(s.take(i - 1), e).push(s[i - 1]) + s.skip(i as int) =~= insert_entry(
            s.take(i - 1),
            e,
        ) + s.skip(i - 1));
        i -= 1;
    }
    proof {
        if i > 0 {
            assert(s.take(i as int).last() == s[i - 1]);
        }
        assert(insert_entry(s.take(i as int), e) == s.take(i as int).push(e));
        assert(s.take(i as int).push(e) + s.skip(i as int) =~= s.insert(i as int, e));
    }
    sorted.insert(i, e);
}

/// The heals of a bot without configured spells: the heal key below 30% health, then the mana key
/// below 20% mana.
pub open spec fn legacy_heals(hotkeys: Hotkeys, cd_ms: u64) -> Seq<SpellEntry> {
    seq![
        SpellEntry {
            hidcode: hotkeys.heal_spell,
            priority: 1,
            min_hp: 0,
            max_hp: 300_000,
            min_mana: 0,
            max_mana: ONE,
            min_enemies: 0,
            cooldown_ms: cd_ms,
        },
        SpellEntry {
            hidcode: hotkeys.mana_spell,
            priority: 2,
            min_hp: 0,
            max_hp: ONE,
            min_mana: 0,
            max_mana: 200_000,
            min_enemies: 0,
            cooldown_ms: cd_ms,
        },
    ]
}

/// The attacks of a bot without configured spells: the attack key against any enemy.
pub open spec fn legacy_attacks(hotkeys: Hotkeys, cd_ms: u64) -> Seq<SpellEntry> {
    seq![
        SpellEntry {
            hidcode: hotkeys.attack_default,
            priority: 1,
            min_hp: 0,
            max_hp: ONE,
            min_mana: 0,
            max_mana: ONE,
            min_enemies: 1,
            cooldown_ms: cd_ms,
        },
    ]
}

impl SpellTable {
    /// No cooldown is longer than the limit.
    pub open spec fn wf(self) -> bool {
        within_limit(self.heals@) && within_limit(self.attacks@)
    }

    /// The table of the configured spells. Support spells count as heals.
    pub fn from_configs(
        configs: &Vec<SpellConfig>,
        keys: &KeyMap,
        fps: u32,
        jitter_std_factor: Option<Ppm>,
    ) -> (r: Self)
        requires
            forall|i: int|
                0 <= i < configs@.len() ==> (#[trigger] configs@[i]).cooldown_ms <= COOLDOWN_LIMIT_MS,
        ensures
            r.wf(),
            r.heals@ == by_priority(entries_of(configs@, *keys, false)),
            r.attacks@ == by_priority(entries_of(configs@, *keys, true)),
            r.cooldowns@ == Map::<u8, u64>::empty(),
            r.jitter == match jitter_std_factor {
                Some(f) => Some(SpellJitter { std_factor: f, fps }),
                None => None,
            },
    {
        let mut heals: Vec<SpellEntry> = Vec::new();
        let mut attacks: Vec<SpellEntry> = Vec::new();
        let mut i: usize = 0;
        assert(configs@.take(0) =~= Seq::empty());
        while i < configs.len()
            invariant
                i <= configs.len(),
                forall|j: int|
                    0 <= j < configs@.len() ==> (#[trigger] configs@[j]).cooldown_ms
                        <= COOLDOWN_LIMIT_MS,
                within_limit(heals@),
                within_limit(attacks@),
                heals@ == by_priority(entries_of(configs@.take(i as int), *keys, false)),
                attacks@ == by_priority(entries_of(configs@.take(i as int), *keys, true)),
            decreases configs.len() - i,
        {
            let cfg = &configs[i];
            let ghost next = configs@.take(i + 1);
            assert(next.drop_last() =~= configs@.take(i as int));
            assert(next.last() == configs@[i as int]);
            let ghost h = entries_of(configs@.take(i as int), *keys, false);
            let ghost a = entries_of(configs@.take(i as int), *keys, true);
            i += 1;
            match keys.parse(cfg.key.as_str()) {
                None => {},
                Some(hidcode) => {
                    let entry = SpellEntry {
                        hidcode,
                        priority: cfg.priority,
                        min_hp: cfg.min_hp,
                        max_hp: cfg.max_hp,
                        min_mana: cfg.min_mana,
                        max_mana: cfg.max_mana,
                        min_enemies: cfg.min_enemies,
                        cooldown_ms: cfg.cooldown_ms,
                    };
                    assert(h.push(entry).drop_last() =~= h);
                    assert(a.push(entry).drop_last() =~= a);
                    match cfg.kind {
                        SpellKind::Attack => insert_sorted(&mut attacks, entry),
                        SpellKind::Heal => insert_sorted(&mut heals, entry),
                        SpellKind::Support => insert_sorted(&mut heals, entry),
                    }
                },
            }
        }
        assert(configs@.take(i as int) =~= configs@);
        let jitter = match jitter_std_factor {
            Some(f) => Some(SpellJitter { std_factor: f, fps }),
            None => None,
        };
        SpellTable { heals, attacks, cooldowns: HashMap::new(), jitter }
    }

    /// The table of a bot without configured spells: the heal key below 30%
    /// health, then the mana key below 20% mana, and the attack key against
    /// any enemy.
    pub fn from_legacy(hotkeys: &Hotkeys, cd_heal_ms: u64, cd_attack_ms: u64) -> (r: Self)
        requires
            cd_heal_ms <= COOLDOWN_LIMIT_MS,
            cd_attack_ms <= COOLDOWN_LIMIT_MS,
        ensures
            r.wf(),
            r.heals@ == legacy_heals(*hotkeys, cd_heal_ms),
            r.attacks@ == legacy_attacks(*hotkeys, cd_attack_ms),
            r.cooldowns@ == Map::<u8, u64>::empty(),
            r.jitter == None::<SpellJitter>,
    {
        let mut heals: Vec<SpellEntry> = Vec::new();
        heals.push(
            SpellEntry {
                hidcode: hotkeys.heal_spell,
                priority: 1,
                min_hp: 0,
                max_hp: 300_000,
                min_mana: 0,
                max_mana: ONE,
                min_enemies: 0,
                cooldown_ms: cd_heal_ms,
            },
        );
        heals.push(
            SpellEntry {
                hidcode: hotkeys.mana_spell,
                priority: 2,
                min_hp: 0,
                max_hp: ONE,
                min_mana: 0,
                max_mana: 200_000,
                min_enemies: 0,
                cooldown_ms: cd_heal_ms,
            },
        );
        let mut attacks: Vec<SpellEntry> = Vec::new();
        attacks.push(
            SpellEntry {
                hidcode: hotkeys.attack_default,
                priority: 1,
                min_hp: 0,
                max_hp: ONE,
                min_mana: 0,
                max_mana: ONE,
                min_enemies: 1,
                cooldown_ms: cd_attack_ms,
            },
        );
        SpellTable { heals, attacks, cooldowns: HashMap::new(), jitter: None }
    }

    /// The key of the first heal that may be cast, which goes on cooldown.
    pub fn pick_heal(&mut self, ctx: &SpellContext, z: i64) -> (r: Option<u8>)
        requires
            old(self).wf(),
            cooldowns_fit(old(self).heals@, old(self).jitter, ctx.tick, z as int),
        ensures
            final(self).wf(),
            final(self).heals == old(self).heals,
            final(self).attacks == old(self).attacks,
            final(self).jitter == old(self).jitter,
            picked(
                old(self).heals@,
                old(self).jitter,
                *ctx,
                z as int,
                old(self).cooldowns@,
                final(self).cooldowns@,
                r,
            ),
    {
        pick(&self.heals, &mut self.cooldowns, self.jitter, ctx, z)
    }

    /// The key of the first attack that may be cast, which goes on cooldown.
    pub fn pick_attack(&mut self, ctx: &SpellContext, z: i64) -> (r: Option<u8>)
        requires
            old(self).wf(),
            cooldowns_fit(old(self).attacks@, old(self).jitter, ctx.tick, z as int),
        ensures
            final(self).wf(),
            final(self).heals == old(self).heals,
            final(self).attacks == old(self).attacks,
            final(self).jitter == old(self).jitter,
            picked(
                old(self).attacks@,
                old(self).jitter,
                *ctx,
                z as int,
                old(self).cooldowns@,
                final(self).cooldowns@,
                r,
            ),
    {
        pick(&self.attacks, &mut self.cooldowns, self.jitter, ctx, z)
    }

    /// Whether the table holds a heal.
    pub fn has_heals(&self) -> (r: bool)
        ensures
            r == (self.heals@.len() > 0),
    {
        self.heals.len() > 0
    }

    /// Whether the table holds an attack.
    pub fn has_attacks(&self) -> (r: bool)
        ensures
            r == (self.attacks@.len() > 0),
    {
        self.attacks.len() > 0
    }
}

fn pick(
    entries: &Vec<SpellEntry>,
    cooldowns: &mut HashMap<u8, u64>,
    jitter: Option<SpellJitter>,
    ctx: &SpellContext,
    z: i64,
) -> (r: Option<u8>)
    requires
        within_limit(entries@),
        cooldowns_fit(entries@, jitter, ctx.tick, z as int),
    ensures
        picked(entries@, jitter, *ctx, z as int, old(cooldowns)@, final(cooldowns)@, r),
{
    let mut i: usize = 0;
    while i < entries.len()
        invariant
            i <= entries.len(),
            within_limit(entries@),
            cooldowns_fit(entries@, jitter, ctx.tick, z as int),
            cooldowns@ == old(cooldowns)@,
            forall|j: int|
                0 <= j < i ==> !(#[trigger] entries@[j]).eligible(*ctx, old(cooldowns)@),
        decreases entries.len() - i,
    {
        let entry = entries[i];
        assert(entry == entries@[i as int]);
        let met = entry.min_hp <= ctx.hp && ctx.hp <= entry.max_hp && entry.min_mana <= ctx.mana
            && ctx.mana <= entry.max_mana && entry.min_enemies <= ctx.enemies;
        if met {
            let ready = match cooldowns.get(&entry.hidcode) {
                Some(next_tick) => ctx.tick >= *next_tick,
                None => true,
            };
            if ready {
                let cd: u64 = compute_cd_ticks(jitter, entry.cooldown_ms, z);
                assert(first_eligible(entries@, *ctx, old(cooldowns)@, i as int));
                cooldowns.insert(entry.hidcode, ctx.tick + cd);
                return Some(entry.hidcode);
            }
        }
        i += 1;
    }
    None
}

fn compute_cd_ticks(jitter: Option<SpellJitter>, cooldown_ms: u64, z: i64) -> (r: u64)
    requires
        cooldown_ms <= COOLDOWN_LIMIT_MS,
    ensures
        r == cd_ticks(jitter, cooldown_ms, z as int),
{
    match jitter {
        Some(j) => {
            let mean_us: i64 = (cooldown_ms * 1_000) as i64;
            let wide: u128 = mean_us as u128;
            let f: u128 = j.std_factor as u128;
            assert(0 <= wide * f <= 0x0004_0000_0000_0000 * 0x1_0000_0000) by (nonlinear_arith)
                requires
                    0 <= wide <= 0x0004_0000_0000_0000,
                    0 <= f <= 0x1_0000_0000,
            ;
            let std_us: u128 = wide * f / 1_000_000;
            assert(std_us <= i64::MAX);
            sample_gauss_ticks(mean_us, std_us as i64, j.fps, z)
        },
        None => (cooldown_ms * FIXED_FPS + 999) / 1_000,
    }
}

/// The entries stand by ascending priority number.
pub open spec fn is_ascending(entries: Seq<SpellEntry>) -> bool {
    forall|i: int, j: int|
        0 <= i <= j < entries.len() ==> (#[trigger] entries[i]).priority <= (
        #[trigger] entries[j]).priority
}

proof fn insertion_keeps_order(sorted: Seq<SpellEntry>, e: SpellEntry)
    requires
        is_ascending(sorted),
    ensures
        is_ascending(insert_entry(sorted, e)),
        insert_entry(sorted, e).to_multiset() == sorted.to_multiset().insert(e),
        insert_entry(sorted, e).len() == sorted.len() + 1,
        forall|i: int|
            0 <= i < insert_entry(sorted, e).len() ==> (#[trigger] insert_entry(sorted, e)[i] == e
                || sorted.contains(insert_entry(sorted, e)[i])),
    decreases sorted.len(),
{
    let after = insert_entry(sorted, e);
    if sorted.len() == 0 || sorted.last().priority <= e.priority {
        vstd::seq_lib::to_multiset_build(sorted, e);
        assert forall|i: int| 0 <= i < after.len() implies #[trigger] after[i] == e
            || sorted.contains(after[i]) by {
            if i < sorted.len() {
                assert(after[i] == sorted[i]);
            }
        }
        assert forall|i: int, j: int| 0 <= i <= j < after.len() implies (
        #[trigger] after[i]).priority <= (#[trigger] after[j]).priority by {
            if i < sorted.len() {
                assert(sorted[i].priority <= sorted[sorted.len() - 1].priority);
            }
        }
    } else {
        let rest = sorted.drop_last();
        let last = sorted.last();
        insertion_keeps_order(rest, e);
        let inner = insert_entry(rest, e);
        vstd::seq_lib::to_multiset_build(inner, last);
        vstd::seq_lib::to_multiset_build(rest, last);
        assert(sorted =~= rest.push(last));
        assert(after.to_multiset() =~= sorted.to_multiset().insert(e));
        assert forall|i: int| 0 <= i < after.len() implies #[trigger] after[i] == e
            || sorted.contains(after[i]) by {
            if i < inner.len() {
                assert(after[i] == inner[i]);
                if inner[i] != e {
                    let k = choose|k: int| 0 <= k < rest.len() && rest[k] == inner[i];
                    assert(sorted[k] == inner[i]);
                }
            } else {
                assert(after[i] == sorted[sorted.len() - 1]);
            }
        }
        assert forall|i: int, j: int| 0 <= i <= j < after.len() implies (
        #[trigger] after[i]).priority <= (#[trigger] after[j]).priority by {
            if i < inner.len() {
                assert(after[i] == inner[i]);
                if inner[i] != e {
                    let k = choose|k: int| 0 <= k < rest.len() && rest[k] == inner[i];
                    assert(sorted[k].priority <= sorted[sorted.len() - 1].priority);
                }
                if j < inner.len() {
                    assert(after[j] == inner[j]);
                }
            }
        }
    }
}

/// Sorting by priority puts the entries in ascending order and neither loses nor adds one.
pub proof fn sorting_keeps_the_entries(entries: Seq<SpellEntry>)
    ensures
        is_ascending(by_priority(entries)),
        by_priority(entries).to_multiset() == entries.to_multiset(),
    decreases entries.len(),
{
    if entries.len() == 0 {
        assert(by_priority(entries) =~= entries);
    } else {
        let rest = entries.drop_last();
        sorting_keeps_the_entries(rest);
        insertion_keeps_order(by_priority(rest), entries.last());
        vstd::seq_lib::to_multiset_build(rest, entries.last());
        assert(entries =~= rest.push(entries.last()));
    }
}

/// Of the spells of a table that may be cast, one of the least priority number is picked.
pub proof fn the_most_urgent_spell_is_picked(
    configs: Seq<SpellEntry>,
    jitter: Option<SpellJitter>,
    ctx: SpellContext,
    z: int,
    before: Map<u8, u64>,
    after: Map<u8, u64>,
    key: u8,
)
    requires
        picked(by_priority(configs), jitter, ctx, z, before, after, Some(key)),
    ensures
        exists|i: int|
            0 <= i < by_priority(configs).len() && (#[trigger] by_priority(configs)[i]).hidcode
                == key && by_priority(configs)[i].eligible(ctx, before) && forall|j: int|
                0 <= j < by_priority(configs).len() && (#[trigger] by_priority(
                    configs,
                )[j]).eligible(ctx, before) ==> by_priority(configs)[i].priority
                    <= by_priority(configs)[j].priority,
{
    sorting_keeps_the_entries(configs);
    let entries = by_priority(configs);
    let i = choose|i: int| #[trigger]
        first_eligible(entries, ctx, before, i) && key == entries[i].hidcode;
    assert(entries[i].hidcode == key);
    assert forall|j: int| 0 <= j < entries.len() && (#[trigger] entries[j]).eligible(
        ctx,
        before,
    ) implies entries[i].priority <= entries[j].priority by {
        assert(i <= j);
    }
}

/// A key that was picked is not picked again, whatever for, before its cooldown has run out.
pub proof fn a_picked_key_rests(
    entries: Seq<SpellEntry>,
    others: Seq<SpellEntry>,
    jitter: Option<SpellJitter>,
    ctx: SpellContext,
    later: SpellContext,
    z: int,
    z_later: int,
    before: Map<u8, u64>,
    between: Map<u8, u64>,
    after: Map<u8, u64>,
    key: u8,
    r: Option<u8>,
)
    requires
        picked(entries, jitter, ctx, z, before, between, Some(key)),
        picked(others, jitter, later, z_later, between, after, r),
        later.tick < between[key],
    ensures
        r != Some(key),
{
    let i = choose|i: int| #[trigger]
        first_eligible(entries, ctx, before, i) && key == entries[i].hidcode && between
            == before.insert(
            key,
            (ctx.tick + cd_ticks(jitter, entries[i].cooldown_ms, z)) as u64,
        );
    assert(between.dom().contains(key));
    if r == Some(key) {
        let k = choose|k: int| #[trigger]
            first_eligible(others, later, between, k) && key == others[k].hidcode;
        assert(others[k].eligible(later, between));
    }
}

/// A key that is picked belongs to a spell whose every bound holds: health and mana lie between its
/// least and its most, there are enough enemies, and the key is not on cooldown. No spell that
/// stands before it in the table could be cast.
pub proof fn a_picked_spell_meets_its_bounds(
    entries: Seq<SpellEntry>,
    jitter: Option<SpellJitter>,
    ctx: SpellContext,
    z: int,
    before: Map<u8, u64>,
    after: Map<u8, u64>,
    key: u8,
)
    requires
        picked(entries, jitter, ctx, z, before, after, Some(key)),
    ensures
        exists|i: int| #![trigger entries[i]]
            {
                &&& 0 <= i < entries.len()
                &&& entries[i].hidcode == key
                &&& entries[i].min_hp <= ctx.hp
                &&& ctx.hp <= entries[i].max_hp
                &&& entries[i].min_mana <= ctx.mana
                &&& ctx.mana <= entries[i].max_mana
                &&& entries[i].min_enemies <= ctx.enemies
                &&& forall|j: int| #![trigger entries[j]]
                    0 <= j < i ==> {
                        ||| ctx.hp < entries[j].min_hp
                        ||| ctx.hp > entries[j].max_hp
                        ||| ctx.mana < entries[j].min_mana
                        ||| ctx.mana > entries[j].max_mana
                        ||| ctx.enemies < entries[j].min_enemies
                        ||| (before.dom().contains(entries[j].hidcode) && ctx.tick
                            < before[entries[j].hidcode])
                    }
            },
        before.dom().contains(key) ==> before[key] <= ctx.tick,
{
    let i = choose|i: int| #[trigger]
        first_eligible(entries, ctx, before, i) && key == entries[i].hidcode;
    assert(entries[i].hidcode == key);
    assert forall|j: int| #![trigger entries[j]] 0 <= j < i implies {
        ||| ctx.hp < entries[j].min_hp
        ||| ctx.hp > entries[j].max_hp
        ||| ctx.mana < entries[j].min_mana
        ||| ctx.mana > entries[j].max_mana
        ||| ctx.enemies < entries[j].min_enemies
        ||| (before.dom().contains(entries[j].hidcode) && ctx.tick < before[entries[j].hidcode])
    } by {
        assert(!entries[j].eligible(ctx, before));
    }
}

/// Some key is picked wherever a spell's bounds hold and its key is not on cooldown.
pub proof fn a_spell_in_its_bounds_is_not_passed_over(
    entries: Seq<SpellEntry>,
    jitter: Option<SpellJitter>,
    ctx: SpellContext,
    z: int,
    before: Map<u8, u64>,
    after: Map<u8, u64>,
    r: Option<u8>,
    i: int,
)
    requires
        picked(entries, jitter, ctx, z, before, after, r),
        0 <= i < entries.len(),
        entries[i].min_hp <= ctx.hp,
        ctx.hp <= entries[i].max_hp,
        entries[i].min_mana <= ctx.mana,
        ctx.mana <= entries[i].max_mana,
        entries[i].min_enemies <= ctx.enemies,
        before.dom().contains(entries[i].hidcode) ==> before[entries[i].hidcode] <= ctx.tick,
    ensures
        r is Some,
{
    assert(entries[i].eligible(ctx, before));
}

/// Nothing is picked, and nothing goes on cooldown, where one and the same bound fails of every
/// spell: too little or too much health or mana, or too few enemies.
pub proof fn no_spell_out_of_bounds_is_picked(
    entries: Seq<SpellEntry>,
    jitter: Option<SpellJitter>,
    ctx: SpellContext,
    z: int,
    before: Map<u8, u64>,
    after: Map<u8, u64>,
    r: Option<u8>,
)
    requires
        picked(entries, jitter, ctx, z, before, after, r),
    ensures
        (forall|i: int| 0 <= i < entries.len() ==> ctx.mana < (#[trigger] entries[i]).min_mana)
            ==> r is None && after == before,
        (forall|i: int| 0 <= i < entries.len() ==> ctx.mana > (#[trigger] entries[i]).max_mana)
            ==> r is None && after == before,
        (forall|i: int| 0 <= i < entries.len() ==> ctx.hp < (#[trigger] entries[i]).min_hp)
            ==> r is None && after == before,
        (forall|i: int| 0 <= i < entries.len() ==> ctx.hp > (#[trigger] entries[i]).max_hp)
            ==> r is None && after == before,
        (forall|i: int| 0 <= i < entries.len() ==> ctx.enemies < (#[trigger] entries[i]).min_enemies)
            ==> r is None && after == before,
{
    if let Some(key) = r {
        a_picked_spell_meets_its_bounds(entries, jitter, ctx, z, before, after, key);
    }
}

/// Without jitter a key that is picked rests for its spell's milliseconds, rounded up to full ticks
/// of a thirtieth of a second; no other key is touched.
pub proof fn a_fixed_cooldown_covers_its_milliseconds(
    entries: Seq<SpellEntry>,
    ctx: SpellContext,
    z: int,
    before: Map<u8, u64>,
    after: Map<u8, u64>,
    key: u8,
)
    requires
        picked(entries, None, ctx, z, before, after, Some(key)),
        cooldowns_fit(entries, None, ctx.tick, z),
    ensures
        after.dom() == before.dom().insert(key),
        forall|k: u8| k != key && before.dom().contains(k) ==> #[trigger] after[k] == before[k],
        exists|i: int| #![trigger entries[i]]
            0 <= i < entries.len() && entries[i].hidcode == key && 30 * entries[i].cooldown_ms
                <= 1_000 * (after[key] - ctx.tick) < 30 * entries[i].cooldown_ms + 1_000,
{
    let i = choose|i: int| #[trigger]
        first_eligible(entries, ctx, before, i) && key == entries[i].hidcode && after
            == before.insert(key, (ctx.tick + cd_ticks(None, entries[i].cooldown_ms, z)) as u64);
    assert(entries[i].hidcode == key);
    assert(after.dom() =~= before.dom().insert(key));
}

/// The table holds a spell for each configured one whose key is known: under that key, with the
/// same priority, bounds and cooldown. Attacks stand among the attacks, heals and support spells
/// among the heals.
pub proof fn a_configured_spell_keeps_its_numbers(
    configs: Seq<SpellConfig>,
    keys: KeyMap,
    attack: bool,
    e: SpellEntry,
)
    ensures
        entries_of(configs, keys, attack).contains(e) == exists|i: int| #![trigger configs[i]]
            {
                &&& 0 <= i < configs.len()
                &&& attack == (configs[i].kind == SpellKind::Attack)
                &&& keys.code_of(configs[i].key@) == Some(e.hidcode)
                &&& configs[i].priority == e.priority
                &&& configs[i].min_hp == e.min_hp
                &&& configs[i].max_hp == e.max_hp
                &&& configs[i].min_mana == e.min_mana
                &&& configs[i].max_mana == e.max_mana
                &&& configs[i].min_enemies == e.min_enemies
                &&& configs[i].cooldown_ms == e.cooldown_ms
            },
    decreases configs.len(),
{
    if configs.len() > 0 {
        let rest = configs.drop_last();
        let last = configs.last();
        a_configured_spell_keeps_its_numbers(rest, keys, attack, e);
        let before = entries_of(rest, keys, attack);
        let all = entries_of(configs, keys, attack);
        assert forall|i: int| 0 <= i < rest.len() implies #[trigger] rest[i] == configs[i] by {}
        if before.contains(e) {
            let k = choose|k: int| 0 <= k < before.len() && before[k] == e;
            assert(all[k] == e);
            let i = choose|i: int| #![trigger rest[i]]
                {
                    &&& 0 <= i < rest.len()
                    &&& attack == (rest[i].kind == SpellKind::Attack)
                    &&& keys.code_of(rest[i].key@) == Some(e.hidcode)
                    &&& rest[i].priority == e.priority
                    &&& rest[i].min_hp == e.min_hp
                    &&& rest[i].max_hp == e.max_hp
                    &&& rest[i].min_mana == e.min_mana
                    &&& rest[i].max_mana == e.max_mana
                    &&& rest[i].min_enemies == e.min_enemies
                    &&& rest[i].cooldown_ms == e.cooldown_ms
                };
            assert(configs[i] == rest[i]);
        } else {
            match keys.code_of(last.key@) {
                Some(code) => {
                    if (last.kind == SpellKind::Attack) == attack {
                        let mine = entry_of(last, code);
                        if mine == e {
                            assert(all[before.len() as int] == e);
                            assert(configs[configs.len() - 1] == last);
                        } else if all.contains(e) {
                            let k = choose|k: int| 0 <= k < all.len() && all[k] == e;
                            assert(before[k] == e);
                        }
                    }
                },
                None => {},
            }
            if exists|i: int| #![trigger configs[i]]
                {
                    &&& 0 <= i < configs.len()
                    &&& attack == (configs[i].kind == SpellKind::Attack)
                    &&& keys.code_of(configs[i].key@) == Some(e.hidcode)
                    &&& configs[i].priority == e.priority
                    &&& configs[i].min_hp == e.min_hp
                    &&& configs[i].max_hp == e.max_hp
                    &&& configs[i].min_mana == e.min_mana
                    &&& configs[i].max_mana == e.max_mana
                    &&& configs[i].min_enemies == e.min_enemies
                    &&& configs[i].cooldown_ms == e.cooldown_ms
                } {
                let i = choose|i: int| #![trigger configs[i]]
                    {
                        &&& 0 <= i < configs.len()
                        &&& attack == (configs[i].kind == SpellKind::Attack)
                        &&& keys.code_of(configs[i].key@) == Some(e.hidcode)
                        &&& configs[i].priority == e.priority
                        &&& configs[i].min_hp == e.min_hp
                        &&& configs[i].max_hp == e.max_hp
                        &&& configs[i].min_mana == e.min_mana
                        &&& configs[i].max_mana == e.max_mana
                        &&& configs[i].min_enemies == e.min_enemies
                        &&& configs[i].cooldown_ms == e.cooldown_ms
                    };
                if i < rest.len() {
                    assert(rest[i] == configs[i]);
                }
            }
        }
    } else {
        assert(entries_of(configs, keys, attack).len() == 0);
    }
}

proof fn insertion_is_stable(sorted: Seq<SpellEntry>, e: SpellEntry, p: u32)
    requires
        is_ascending(sorted),
    ensures
        insert_entry(sorted, e).filter(|x: SpellEntry| x.priority == p) == if e.priority == p {
            sorted.filter(|x: SpellEntry| x.priority == p).push(e)
        } else {
            sorted.filter(|x: SpellEntry| x.priority == p)
        },
    decreases sorted.len(),
{
    reveal(Seq::filter);
    let f = |x: SpellEntry| x.priority == p;
    if sorted.len() == 0 || sorted.last().priority <= e.priority {
        assert(sorted.push(e).drop_last() =~= sorted);
    } else {
        let rest = sorted.drop_last();
        insertion_is_stable(rest, e, p);
        let inner = insert_entry(rest, e);
        assert(inner.push(sorted.last()).drop_last() =~= inner);
        if e.priority == p {
            assert(sorted.last().priority != p);
        }
    }
}

/// Spells of one priority number stand in the table in the order in which they are configured.
pub proof fn sorting_is_stable(entries: Seq<SpellEntry>, p: u32)
    ensures
        by_priority(entries).filter(|x: SpellEntry| x.priority == p) == entries.filter(
            |x: SpellEntry| x.priority == p,
        ),
    decreases entries.len(),
{
    reveal(Seq::filter);
    if entries.len() > 0 {
        sorting_is_stable(entries.drop_last(), p);
        sorting_keeps_the_entries(entries.drop_last());
        insertion_is_stable(by_priority(entries.drop_last()), entries.last(), p);
    }
}

/// A bot without configured spells heals at three tenths of health or less, restores mana at a
/// fifth or less where health is above that, and attacks where there is an enemy.
pub proof fn plain_hotkeys_answer_plain_needs(
    hotkeys: Hotkeys,
    cd_ms: u64,
    ctx: SpellContext,
    z: int,
    after: Map<u8, u64>,
    r: Option<u8>,
)
    requires
        ctx.hp <= ONE,
        ctx.mana <= ONE,
    ensures
        picked(legacy_heals(hotkeys, cd_ms), None, ctx, z, Map::empty(), after, r) ==> r == (
        if ctx.hp <= 300_000 {
            Some(hotkeys.heal_spell)
        } else if ctx.mana <= 200_000 {
            Some(hotkeys.mana_spell)
        } else {
            None
        }),
        picked(legacy_attacks(hotkeys, cd_ms), None, ctx, z, Map::empty(), after, r) ==> r == (
        if ctx.enemies > 0 {
            Some(hotkeys.attack_default)
        } else {
            None
        }),
{
    let none = Map::<u8, u64>::empty();
    let heals = legacy_heals(hotkeys, cd_ms);
    if picked(heals, None, ctx, z, none, after, r) {
        if ctx.hp <= 300_000 {
            assert(heals[0].eligible(ctx, none));
        } else if ctx.mana <= 200_000 {
            assert(!heals[0].eligible(ctx, none));
            assert(heals[1].eligible(ctx, none));
        }
    }
    let attacks = legacy_attacks(hotkeys, cd_ms);
    if picked(attacks, None, ctx, z, none, after, r) {
        if ctx.enemies > 0 {
            assert(attacks[0].eligible(ctx, none));
        }
    }
}

/// With jitter a key that is picked rests for a drawn time: around its spell's milliseconds, with
/// the jitter's share of them for a deviation, in ticks of the jitter's own pace.
pub proof fn a_jittered_cooldown_is_drawn_round_its_milliseconds(
    entries: Seq<SpellEntry>,
    jitter: SpellJitter,
    ctx: SpellContext,
    z: int,
    before: Map<u8, u64>,
    after: Map<u8, u64>,
    key: u8,
)
    requires
        picked(entries, Some(jitter), ctx, z, before, after, Some(key)),
        cooldowns_fit(entries, Some(jitter), ctx.tick, z),
    ensures
        exists|i: int| #![trigger entries[i]]
            0 <= i < entries.len() && entries[i].hidcode == key && after[key] == ctx.tick
                + gauss_ticks(
                1_000 * entries[i].cooldown_ms,
                1_000 * entries[i].cooldown_ms * jitter.std_factor / 1_000_000,
                jitter.fps as int,
                z,
            ),
        forall|k: u8| k != key && before.dom().contains(k) ==> #[trigger] after[k] == before[k],
{
    let i = choose|i: int| #[trigger]
        first_eligible(entries, ctx, before, i) && key == entries[i].hidcode && after
            == before.insert(
            key,
            (ctx.tick + cd_ticks(Some(jitter), entries[i].cooldown_ms, z)) as u64,
        );
    assert(entries[i].hidcode == key);
    let ms = entries[i].cooldown_ms;
    assert(cd_ticks(Some(jitter), ms, z) <= u64::MAX - ctx.tick);
    assert(ms * 1_000 * jitter.std_factor >= 0) by (nonlinear_arith);
    crate::safety::timing::gauss_ticks_positive(
        ms * 1_000,
        ms * 1_000 * jitter.std_factor / 1_000_000,
        jitter.fps as int,
        z,
    );
}

} // verus!
