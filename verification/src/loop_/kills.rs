//! Kills and activity, as far as the battle list shows them.

use vstd::prelude::*;
use crate::perception::Perception;
use crate::units::{Ppm, ONE};

verus! {

/// A change of health by more than this counts as activity (1%).
pub const ACTIVITY_HP_DELTA: Ppm = 10_000;

/// Counts kills and remembers when something last happened.
#[derive(Clone, Copy, Debug, PartialEq, Eq, Structural)]
pub struct KillCounter {
    pub kills_total: u64,
    /// The last reading of the target, if there was one.
    pub prev_target_active: Option<bool>,
    pub prev_enemy_count: u64,
    /// The last tick with enemies or a change of health.
    pub last_activity_tick: u64,
    pub last_hp: Ppm,
}

/// The distance between two ratios.
pub open spec fn distance(a: Ppm, b: Ppm) -> int {
    if a >= b {
        a - b
    } else {
        b - a
    }
}

impl KillCounter {
    /// The target that was there is gone while enemies are still in sight.
    pub open spec fn target_fell(self, p: Perception) -> bool {
        p.target_active == Some(false) && self.prev_target_active == Some(true)
            && p.battle.has_enemies
    }

    /// The kills that a tick shows: as many as enemies left the battle list,
    /// and at least one where the target fell.
    pub open spec fn kills_seen(self, p: Perception) -> int {
        let dropped = if p.battle.enemy_count < self.prev_enemy_count {
            self.prev_enemy_count - p.battle.enemy_count
        } else {
            0
        };
        if self.target_fell(p) && dropped < 1 {
            1
        } else {
            dropped
        }
    }

    /// Something happens on this tick.
    pub open spec fn active(self, p: Perception) -> bool {
        p.battle.has_enemies || (p.hp() matches Some(r) && distance(r, self.last_hp)
            > ACTIVITY_HP_DELTA)
    }

    /// The counter after a tick.
    pub open spec fn next(self, tick: u64, p: Perception) -> KillCounter {
        KillCounter {
            kills_total: if self.kills_total + self.kills_seen(p) > u64::MAX {
                u64::MAX
            } else {
                (self.kills_total + self.kills_seen(p)) as u64
            },
            prev_target_active: if p.target_active is Some {
                p.target_active
            } else {
                self.prev_target_active
            },
            prev_enemy_count: p.battle.enemy_count as u64,
            last_activity_tick: if self.active(p) { tick } else { self.last_activity_tick },
            last_hp: match p.hp() {
                Some(r) => r,
                None => self.last_hp,
            },
        }
    }

    /// A counter at the start of a session.
    pub fn new() -> (r: Self)
        ensures
            r == (KillCounter {
                kills_total: 0,
                prev_target_active: None,
                prev_enemy_count: 0,
                last_activity_tick: 0,
                last_hp: ONE,
            }),
    {
        KillCounter {
            kills_total: 0,
            prev_target_active: None,
            prev_enemy_count: 0,
            last_activity_tick: 0,
            last_hp: ONE,
        }
    }

    /// Takes in the perception of a tick.
    pub fn observe(&mut self, tick: u64, p: &Perception)
        ensures
            *final(self) == old(self).next(tick, *p),
    {
        let mut kills: u64 = 0;
        match p.target_active {
            Some(target_active) => {
                let was_active = match self.prev_target_active {
                    Some(b) => b,
                    None => false,
                };
                if was_active && !target_active && p.battle.has_enemies {
                    kills = 1;
                }
                self.prev_target_active = Some(target_active);
            },
            None => {},
        }
        let current: u64 = p.battle.enemy_count as u64;
        if current < self.prev_enemy_count {
            let delta: u64 = self.prev_enemy_count - current;
            if delta > kills {
                kills = delta;
            }
        }
        self.prev_enemy_count = current;
        self.kills_total = self.kills_total.saturating_add(kills);
        let hp_moved = match p.hp_ratio() {
            Some(r) => {
                let d: u32 = if r >= self.last_hp {
                    r - self.last_hp
                } else {
                    self.last_hp - r
                };
                d > ACTIVITY_HP_DELTA
            },
            None => false,
        };
        if p.battle.has_enemies || hp_moved {
            self.last_activity_tick = tick;
        }
        match p.hp_ratio() {
            Some(r) => {
                self.last_hp = r;
            },
            None => {},
        }
    }
}

/// Kills are never taken back, and no tick counts a drop of the battle list
/// and the fall of the target twice.
pub proof fn kills_only_grow(k: KillCounter, tick: u64, p: Perception)
    ensures
        k.next(tick, p).kills_total >= k.kills_total,
        k.kills_seen(p) >= 0,
        p.battle.enemy_count < k.prev_enemy_count ==> k.kills_seen(p) == k.prev_enemy_count
            - p.battle.enemy_count,
        p.battle.enemy_count >= k.prev_enemy_count ==> k.kills_seen(p) <= 1,
{
}

/// What a tick adds to the kills. Enemies that left the battle list count one each. Where none
/// left, a target that was there and is gone, with enemies still in sight, counts one; anything
/// else counts none.
pub proof fn kills_are_counted_by_what_left(k: KillCounter, tick: u64, p: Perception)
    requires
        k.kills_total + k.prev_enemy_count + 1 <= u64::MAX,
    ensures
        p.battle.enemy_count < k.prev_enemy_count ==> k.next(tick, p).kills_total == k.kills_total
            + k.prev_enemy_count - p.battle.enemy_count,
        p.battle.enemy_count >= k.prev_enemy_count && k.prev_target_active == Some(true)
            && p.target_active == Some(false) && p.battle.has_enemies ==> k.next(
            tick,
            p,
        ).kills_total == k.kills_total + 1,
        p.battle.enemy_count >= k.prev_enemy_count && !(k.prev_target_active == Some(true)
            && p.target_active == Some(false) && p.battle.has_enemies) ==> k.next(
            tick,
            p,
        ).kills_total == k.kills_total,
{
}

/// What is remembered after a tick: its enemy count; its target and its health, where they were
/// seen; and the tick itself, where there were enemies or health moved by more than a hundredth.
pub proof fn the_last_reading_is_remembered(k: KillCounter, tick: u64, p: Perception)
    ensures
        k.next(tick, p).prev_enemy_count == p.battle.enemy_count,
        p.target_active is Some ==> k.next(tick, p).prev_target_active == p.target_active,
        p.target_active is None ==> k.next(tick, p).prev_target_active == k.prev_target_active,
        p.vitals.hp matches Some(b) ==> k.next(tick, p).last_hp == b.ratio,
        p.vitals.hp is None ==> k.next(tick, p).last_hp == k.last_hp,
        p.battle.has_enemies ==> k.next(tick, p).last_activity_tick == tick,
        p.vitals.hp matches Some(b) && (b.ratio > k.last_hp + 10_000 || b.ratio + 10_000
            < k.last_hp) ==> k.next(tick, p).last_activity_tick == tick,
        !p.battle.has_enemies && (p.vitals.hp matches Some(b) ==> k.last_hp - 10_000 <= b.ratio
            <= k.last_hp + 10_000) ==> k.next(tick, p).last_activity_tick == k.last_activity_tick,
{
}

} // verus!
