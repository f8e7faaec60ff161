//! Keys that go out on a tick, and how they are accounted for.

use vstd::prelude::*;
use vstd::string::*;
use crate::config::Hotkeys;
use crate::fsm::BotAction;
use crate::state::DispatchStats;
use crate::text::{hex_byte, push_hex_byte};

verus! {

/// What asked for an action.
#[derive(Clone, Copy, Debug, PartialEq, Eq, Structural)]
pub enum EmitSource {
    HumanNoise,
    ScriptTickOverride,
    Typing,
    AutoLoot,
    Fsm,
}

impl EmitSource {
    /// The name of the source in combat events.
    pub open spec fn name_spec(self) -> Seq<char> {
        match self {
            EmitSource::HumanNoise => "human_noise"@,
            EmitSource::ScriptTickOverride => "script_tick_override"@,
            EmitSource::Typing => "typing"@,
            EmitSource::AutoLoot => "auto_loot"@,
            EmitSource::Fsm => "fsm"@,
        }
    }

    /// The name of the source in combat events.
    pub fn name(&self) -> (r: &'static str)
        ensures
            r@ == self.name_spec(),
    {
        match self {
            EmitSource::HumanNoise => "human_noise",
            EmitSource::ScriptTickOverride => "script_tick_override",
            EmitSource::Typing => "typing",
            EmitSource::AutoLoot => "auto_loot",
            EmitSource::Fsm => "fsm",
        }
    }
}

/// An action that goes out.
#[derive(Clone, Copy, Debug, PartialEq, Eq, Structural)]
pub struct Emission {
    pub action: BotAction,
    pub source: EmitSource,
}

/// The key that an emission taps, if it taps one.
pub open spec fn key_of(e: Emission) -> Option<u8> {
    match e.action {
        BotAction::UseHotkey { hidcode } => Some(hidcode),
        _ => None,
    }
}

/// What a key is for.
#[derive(Clone, Copy, Debug, PartialEq, Eq, Structural)]
pub enum EmitCategory {
    Attack,
    Heal,
    Mana,
    Other,
}

/// What a key is for. Where several purposes share a key, attacking comes
/// before healing, and that before mana.
pub open spec fn category_of(hid: u8, hotkeys: Hotkeys) -> EmitCategory {
    if hid == hotkeys.attack_default {
        EmitCategory::Attack
    } else if hid == hotkeys.heal_spell || hid == hotkeys.heal_potion {
        EmitCategory::Heal
    } else if hid == hotkeys.mana_spell {
        EmitCategory::Mana
    } else {
        EmitCategory::Other
    }
}

/// What a key is for.
pub fn categorize_hotkey(hid: u8, hotkeys: &Hotkeys) -> (r: EmitCategory)
    ensures
        r == category_of(hid, *hotkeys),
{
    if hid == hotkeys.attack_default {
        EmitCategory::Attack
    } else if hid == hotkeys.heal_spell || hid == hotkeys.heal_potion {
        EmitCategory::Heal
    } else if hid == hotkeys.mana_spell {
        EmitCategory::Mana
    } else {
        EmitCategory::Other
    }
}

/// A count after one more event; it stops at the largest one that can be held.
pub open spec fn one_more(n: u64) -> u64 {
    if n == u64::MAX {
        u64::MAX
    } else {
        (n + 1) as u64
    }
}

/// The statistics after a key of the given category.
pub open spec fn stats_with(s: DispatchStats, cat: EmitCategory, now_ms: u64) -> DispatchStats {
    match cat {
        EmitCategory::Attack => DispatchStats {
            attacks_total: one_more(s.attacks_total),
            last_attack_ms: Some(now_ms),
            ..s
        },
        EmitCategory::Heal => DispatchStats {
            heals_total: one_more(s.heals_total),
            last_heal_ms: Some(now_ms),
            ..s
        },
        EmitCategory::Mana => DispatchStats {
            mana_total: one_more(s.mana_total),
            last_mana_ms: Some(now_ms),
            ..s
        },
        EmitCategory::Other => DispatchStats { other_total: one_more(s.other_total), ..s },
    }
}

/// The statistics after the keys of some emissions.
pub open spec fn stats_after(
    s: DispatchStats,
    emissions: Seq<Emission>,
    hotkeys: Hotkeys,
    now_ms: u64,
) -> DispatchStats
    decreases emissions.len(),
{
    if emissions.len() == 0 {
        s
    } else {
        let before = stats_after(s, emissions.drop_last(), hotkeys, now_ms);
        match key_of(emissions.last()) {
            Some(hid) => stats_with(before, category_of(hid, hotkeys), now_ms),
            None => before,
        }
    }
}

/// Counts the keys of some emissions.
pub fn record_emissions(
    stats: &mut DispatchStats,
    emissions: &Vec<Emission>,
    hotkeys: &Hotkeys,
    now_ms: u64,
)
    ensures
        *final(stats) == stats_after(*old(stats), emissions@, *hotkeys, now_ms),
{
    let mut i: usize = 0;
    assert(emissions@.take(0) =~= Seq::empty());
    while i < emissions.len()
        invariant
            i <= emissions.len(),
            *stats == stats_after(*old(stats), emissions@.take(i as int), *hotkeys, now_ms),
        decreases emissions.len() - i,
    {
        let ghost next = emissions@.take(i + 1);
        assert(next.drop_last() =~= emissions@.take(i as int));
        assert(next.last() == emissions@[i as int]);
        match emissions[i].action {
            BotAction::UseHotkey { hidcode } => match categorize_hotkey(hidcode, hotkeys) {
                EmitCategory::Attack => {
                    stats.attacks_total = stats.attacks_total.saturating_add(1);
                    stats.last_attack_ms = Some(now_ms);
                },
                EmitCategory::Heal => {
                    stats.heals_total = stats.heals_total.saturating_add(1);
                    stats.last_heal_ms = Some(now_ms);
                },
                EmitCategory::Mana => {
                    stats.mana_total = stats.mana_total.saturating_add(1);
                    stats.last_mana_ms = Some(now_ms);
                },
                EmitCategory::Other => {
                    stats.other_total = stats.other_total.saturating_add(1);
                },
            },
            _ => {},
        }
        i += 1;
    }
    assert(emissions@.take(i as int) =~= emissions@);
}

/// How many keys some emissions tap.
pub open spec fn key_count(emissions: Seq<Emission>) -> int
    decreases emissions.len(),
{
    if emissions.len() == 0 {
        0
    } else {
        key_count(emissions.drop_last()) + if key_of(emissions.last()) is Some { 1int } else { 0 }
    }
}

/// The text of a key in a combat event, such as `0x3A(fsm)`.
pub open spec fn key_text(hid: u8, source: EmitSource) -> Seq<char> {
    "0x"@ + hex_byte(hid) + "("@ + source.name_spec() + ")"@
}

/// The texts of the keys of some emissions, joined by `+`.
pub open spec fn action_text(emissions: Seq<Emission>) -> Seq<char>
    decreases emissions.len(),
{
    if emissions.len() == 0 {
        Seq::empty()
    } else {
        let before = action_text(emissions.drop_last());
        match key_of(emissions.last()) {
            Some(hid) => if key_count(emissions.drop_last()) == 0 {
                key_text(hid, emissions.last().source)
            } else {
                before + "+"@ + key_text(hid, emissions.last().source)
            },
            None => before,
        }
    }
}

/// Writes the texts of the keys of some emissions and counts the keys.
pub fn describe_emissions(emissions: &Vec<Emission>) -> (r: (String, usize))
    ensures
        r.0@ == action_text(emissions@),
        r.1 == key_count(emissions@),
{
    let mut out = String::new();
    let mut n: usize = 0;
    let mut i: usize = 0;
    assert(emissions@.take(0) =~= Seq::empty());
    assert(out@ =~= Seq::empty());
    while i < emissions.len()
        invariant
            i <= emissions.len(),
            n <= i,
            out@ == action_text(emissions@.take(i as int)),
            n == key_count(emissions@.take(i as int)),
            n == 0 ==> out@ == Seq::<char>::empty(),
        decreases emissions.len() - i,
    {
        let ghost next = emissions@.take(i + 1);
        assert(next.drop_last() =~= emissions@.take(i as int));
        assert(next.last() == emissions@[i as int]);
        match emissions[i].action {
            BotAction::UseHotkey { hidcode } => {
                let ghost before = out@;
                if n > 0 {
                    out.append("+");
                }
                out.append("0x");
                push_hex_byte(&mut out, hidcode);
                out.append("(");
                out.append(emissions[i].source.name());
                out.append(")");
                n += 1;
                assert(out@ =~= action_text(next));
            },
            _ => {},
        }
        i += 1;
    }
    assert(emissions@.take(i as int) =~= emissions@);
    (out, n)
}

/// Each key that goes out is counted exactly once, under one category, as long
/// as the counters can hold it.
pub proof fn every_key_counted_once(
    s: DispatchStats,
    emissions: Seq<Emission>,
    hotkeys: Hotkeys,
    now_ms: u64,
)
    requires
        s.attacks_total + emissions.len() <= u64::MAX,
        s.heals_total + emissions.len() <= u64::MAX,
        s.mana_total + emissions.len() <= u64::MAX,
        s.other_total + emissions.len() <= u64::MAX,
    ensures
        ({
            let t = stats_after(s, emissions, hotkeys, now_ms);
            &&& t.attacks_total + t.heals_total + t.mana_total + t.other_total == s.attacks_total
                + s.heals_total + s.mana_total + s.other_total + key_count(emissions)
            &&& s.attacks_total <= t.attacks_total <= s.attacks_total + emissions.len()
            &&& s.heals_total <= t.heals_total <= s.heals_total + emissions.len()
            &&& s.mana_total <= t.mana_total <= s.mana_total + emissions.len()
            &&& s.other_total <= t.other_total <= s.other_total + emissions.len()
        }),
    decreases emissions.len(),
{
    if emissions.len() > 0 {
        every_key_counted_once(s, emissions.drop_last(), hotkeys, now_ms);
    }
}

/// A count of events after one more.
pub open spec fn counted(before: u64, after: u64) -> bool {
    if before < u64::MAX {
        after == before + 1
    } else {
        after == u64::MAX
    }
}

/// Each key counts for what it is for: as an attack if it is the attack key, else as a heal if it
/// is one of the two heal keys, else as mana if it is the mana key, and else as another. It is
/// the latest of its kind, and nothing else changes. What taps no key counts for nothing.
pub proof fn a_key_counts_for_what_it_is_for(
    s: DispatchStats,
    emissions: Seq<Emission>,
    e: Emission,
    hotkeys: Hotkeys,
    now_ms: u64,
)
    ensures
        !(e.action is UseHotkey) ==> stats_after(s, emissions.push(e), hotkeys, now_ms)
            == stats_after(s, emissions, hotkeys, now_ms),
        e.action matches BotAction::UseHotkey { hidcode: k } ==> ({
            let t = stats_after(s, emissions, hotkeys, now_ms);
            let u = stats_after(s, emissions.push(e), hotkeys, now_ms);
            if k == hotkeys.attack_default {
                &&& counted(t.attacks_total, u.attacks_total)
                &&& u.last_attack_ms == Some(now_ms)
                &&& u == (DispatchStats {
                    attacks_total: u.attacks_total,
                    last_attack_ms: u.last_attack_ms,
                    ..t
                })
            } else if k == hotkeys.heal_spell || k == hotkeys.heal_potion {
                &&& counted(t.heals_total, u.heals_total)
                &&& u.last_heal_ms == Some(now_ms)
                &&& u == (DispatchStats {
                    heals_total: u.heals_total,
                    last_heal_ms: u.last_heal_ms,
                    ..t
                })
            } else if k == hotkeys.mana_spell {
                &&& counted(t.mana_total, u.mana_total)
                &&& u.last_mana_ms == Some(now_ms)
                &&& u == (DispatchStats {
                    mana_total: u.mana_total,
                    last_mana_ms: u.last_mana_ms,
                    ..t
                })
            } else {
                &&& counted(t.other_total, u.other_total)
                &&& u == (DispatchStats { other_total: u.other_total, ..t })
            }
        }),
        stats_after(s, Seq::empty(), hotkeys, now_ms) == s,
{
    assert(emissions.push(e).drop_last() =~= emissions);
}

/// One more key adds its code in two hexadecimal digits, with its source in brackets, after a plus
/// sign unless it is the first; what taps no key adds nothing.
pub proof fn a_key_is_written_behind_the_others(emissions: Seq<Emission>, e: Emission)
    ensures
        !(e.action is UseHotkey) ==> action_text(emissions.push(e)) == action_text(emissions)
            && key_count(emissions.push(e)) == key_count(emissions),
        e.action matches BotAction::UseHotkey { hidcode: k } ==> key_count(emissions.push(e))
            == key_count(emissions) + 1 && action_text(emissions.push(e)) == (if key_count(
            emissions,
        ) == 0 {
            Seq::empty()
        } else {
            action_text(emissions) + "+"@
        }) + ("0x"@ + hex_byte(k) + "("@ + (match e.source {
            EmitSource::HumanNoise => "human_noise"@,
            EmitSource::ScriptTickOverride => "script_tick_override"@,
            EmitSource::Typing => "typing"@,
            EmitSource::AutoLoot => "auto_loot"@,
            EmitSource::Fsm => "fsm"@,
        }) + ")"@),
        action_text(Seq::empty()) == Seq::<char>::empty(),
        key_count(Seq::empty()) == 0,
{
    assert(emissions.push(e).drop_last() =~= emissions);
    if let BotAction::UseHotkey { hidcode } = e.action {
        let t = key_text(hidcode, e.source);
        assert(Seq::<char>::empty() + t =~= t);
    }
}

} // verus!
