//! What the vision system reports of one frame, as far as decisions read it.

use vstd::prelude::*;
use crate::units::Ppm;

verus! {

/// A health or mana bar.
#[derive(Clone, Copy, Debug, PartialEq, Eq, Structural)]
pub struct VitalBar {
    /// Filled share of the bar.
    pub ratio: Ppm,
    pub filled_px: u32,
    pub total_px: u32,
}

impl VitalBar {
    /// Whether the bar is below a threshold.
    pub fn is_critical(&self, threshold: Ppm) -> (r: bool)
        ensures
            r == (self.ratio < threshold),
    {
        self.ratio < threshold
    }
}

/// The two bars of the character; `None` where the reader saw no bar.
#[derive(Clone, Copy, Debug, PartialEq, Eq, Structural)]
pub struct CharVitals {
    pub hp: Option<VitalBar>,
    pub mana: Option<VitalBar>,
}

/// What a row of the battle list shows.
#[derive(Clone, Copy, Debug, PartialEq, Eq, Structural)]
pub enum EntryKind {
    Monster,
    Player,
    Npc,
    Unknown,
}

/// One row of the battle list.
#[derive(Clone, Copy, Debug, PartialEq, Eq, Structural)]
pub struct BattleEntry {
    pub kind: EntryKind,
    pub row: u8,
    pub hp_ratio: Option<Ppm>,
    pub is_being_attacked: bool,
}

/// The battle list with the enemy figures that the reader derived from it.
#[derive(Clone, Debug)]
pub struct BattleList {
    pub entries: Vec<BattleEntry>,
    /// Whether any enemy is in sight.
    pub has_enemies: bool,
    /// How many enemies the reader counts.
    pub enemy_count: u32,
}

/// Counters of the minimap matcher.
#[derive(Clone, Copy, Debug, PartialEq, Eq, Structural)]
pub struct MatcherStats {
    pub narrow_searches: u64,
    pub full_searches: u64,
    pub misses: u64,
    /// Duration of the last detection, in microseconds.
    pub last_duration_us: u64,
    /// Score of the last detection, in millionths.
    pub last_score_micros: u64,
    pub sectors_loaded: u64,
}

/// An inventory item with the number of slots that show it.
#[derive(Clone, Debug)]
pub struct ItemCount {
    pub name: String,
    pub count: u32,
}

/// The perception of one tick.
#[derive(Clone, Debug)]
pub struct Perception {
    pub frame_tick: u64,
    pub vitals: CharVitals,
    pub battle: BattleList,
    /// Whether the character has a target; `None` where the reader cannot tell.
    pub target_active: Option<bool>,
    /// Pixels that the target reader counted.
    pub target_hits: u32,
    /// Bright pixels around the character that hint at loot.
    pub loot_sparkles: u32,
    /// Item counts, in the order in which the reader lists them.
    pub inventory_counts: Vec<ItemCount>,
}

/// The part of a perception that the state machine decides on.
#[derive(Clone, Copy, Debug, PartialEq, Eq, Structural)]
pub struct Sight {
    pub hp: Option<Ppm>,
    pub mana: Option<Ppm>,
    pub has_enemies: bool,
    pub target_active: Option<bool>,
}

impl Perception {
    /// What the state machine sees of this perception.
    pub open spec fn sight_spec(self) -> Sight {
        Sight {
            hp: self.hp(),
            mana: self.mana(),
            has_enemies: self.battle.has_enemies,
            target_active: self.target_active,
        }
    }

    /// What the state machine sees of this perception.
    pub fn sight(&self) -> (r: Sight)
        ensures
            r == self.sight_spec(),
    {
        Sight {
            hp: self.hp_ratio(),
            mana: self.mana_ratio(),
            has_enemies: self.battle.has_enemies,
            target_active: self.target_active,
        }
    }

    /// The health ratio, where a health bar was seen.
    pub open spec fn hp(self) -> Option<Ppm> {
        match self.vitals.hp {
            Some(b) => Some(b.ratio),
            None => None,
        }
    }

    /// The mana ratio, where a mana bar was seen.
    pub open spec fn mana(self) -> Option<Ppm> {
        match self.vitals.mana {
            Some(b) => Some(b.ratio),
            None => None,
        }
    }

    /// The health ratio, where a health bar was seen.
    pub fn hp_ratio(&self) -> (r: Option<Ppm>)
        ensures
            r == self.hp(),
    {
        match self.vitals.hp {
            Some(b) => Some(b.ratio),
            None => None,
        }
    }

    /// The mana ratio, where a mana bar was seen.
    pub fn mana_ratio(&self) -> (r: Option<Ppm>)
        ensures
            r == self.mana(),
    {
        match self.vitals.mana {
            Some(b) => Some(b.ratio),
            None => None,
        }
    }

    /// The perception of a tick without a frame.
    pub fn blind(frame_tick: u64) -> (p: Perception)
        ensures
            p.frame_tick == frame_tick,
            p.hp() == None::<Ppm>,
            p.mana() == None::<Ppm>,
            p.battle.entries@ == Seq::<BattleEntry>::empty(),
            !p.battle.has_enemies,
            p.battle.enemy_count == 0,
            p.target_active == None::<bool>,
            p.target_hits == 0,
            p.loot_sparkles == 0,
            p.inventory_counts@ == Seq::<ItemCount>::empty(),
    {
        Perception {
            frame_tick,
            vitals: CharVitals { hp: None, mana: None },
            battle: BattleList { entries: Vec::new(), has_enemies: false, enemy_count: 0 },
            target_active: None,
            target_hits: 0,
            loot_sparkles: 0,
            inventory_counts: Vec::new(),
        }
    }
}

} // verus!
