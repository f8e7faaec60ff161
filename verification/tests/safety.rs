//! Limits, delays, breaks and random keys.

use std::collections::{HashMap, HashSet};

use rand::Rng;
use rand_distr::StandardNormal;

use tibia_bot::safety::breaks::{BreakKind, BreakPlan, BreakScheduler, BreakStatus};
use tibia_bot::safety::human_noise::HumanNoise;
use tibia_bot::safety::rate_limit::RateLimiter;
use tibia_bot::safety::reaction::ReactionGate;
use tibia_bot::safety::session_limit::SessionLimit;
use tibia_bot::safety::timing::{sample_gauss_ms, sample_gauss_ticks, GaussSampler};
use tibia_bot::safety::variation::WeightedChoice;

const MS: u64 = 1_000_000;
const SEC: u64 = 1_000_000_000;
const NOW: u64 = 77 * SEC;
const HOUR: i64 = 1_000_000;
const MINUTE: i64 = 1_000_000;

fn normal() -> i64 {
    let z: f64 = rand::thread_rng().sample(StandardNormal);
    (z * 1_000_000.0) as i64
}

#[test]
fn allows_up_to_max_per_sec() {
    let mut rl = RateLimiter::new("test", 5);
    for _ in 0..5 {
        assert!(rl.allow(NOW));
    }
    assert!(!rl.allow(NOW));
    assert_eq!(rl.dropped_count(), 1);
}

#[test]
fn expired_entries_are_cleaned() {
    let mut rl = RateLimiter::new("test", 3);
    assert!(rl.allow(NOW));
    assert!(rl.allow(NOW));
    assert!(rl.allow(NOW));
    assert!(!rl.allow(NOW));
    let t1 = NOW + 1100 * MS;
    assert!(rl.allow(t1));
    assert!(rl.allow(t1));
    assert!(rl.allow(t1));
    assert!(!rl.allow(t1));
}

#[test]
fn partial_window_expiry() {
    let mut rl = RateLimiter::new("test", 3);
    rl.allow(NOW);
    rl.allow(NOW + 300 * MS);
    rl.allow(NOW + 600 * MS);
    let t_partial = NOW + 1100 * MS;
    assert!(rl.allow(t_partial));
    assert!(!rl.allow(t_partial));
}

#[test]
fn current_rate_reports_window_size() {
    let mut rl = RateLimiter::new("test", 10);
    assert_eq!(rl.current_rate(), 0);
    rl.allow(NOW);
    rl.allow(NOW);
    assert_eq!(rl.current_rate(), 2);
}

fn deterministic_gate() -> ReactionGate {
    ReactionGate::new("test", 200_000, 0, 30)
}

#[test]
fn fresh_gate_is_closed() {
    let g = deterministic_gate();
    assert!(!g.is_open(0));
    assert!(!g.is_armed(0));
}

#[test]
fn rising_edge_arms_the_gate() {
    let mut g = deterministic_gate();
    g.update(true, 100, normal());
    assert!(g.is_armed(100));
    assert!(!g.is_open(100));
}

#[test]
fn gate_opens_after_reaction_delay() {
    let mut g = deterministic_gate();
    g.update(true, 100, normal());
    assert!(!g.is_open(105));
    assert!(g.is_open(106));
    assert!(g.is_open(200));
}

#[test]
fn falling_edge_resets_gate() {
    let mut g = deterministic_gate();
    g.update(true, 100, 0);
    g.update(true, 106, 0);
    assert!(g.is_open(106));
    g.update(false, 110, 0);
    assert!(!g.is_open(110));
    assert!(!g.is_armed(110));
    g.update(true, 200, 0);
    assert!(!g.is_open(200));
    assert!(g.is_open(206));
}

#[test]
fn continuously_true_keeps_gate_open_once_delayed() {
    let mut g = deterministic_gate();
    g.update(true, 0, 0);
    for t in 1..=5 {
        g.update(true, t, 0);
        assert!(!g.is_open(t));
    }
    g.update(true, 6, 0);
    assert!(g.is_open(6));
    for t in 7..30 {
        g.update(true, t, 0);
        assert!(g.is_open(t));
    }
}

#[test]
fn manual_reset_clears_state() {
    let mut g = deterministic_gate();
    g.update(true, 10, 0);
    g.update(true, 20, 0);
    assert!(g.is_open(20));
    g.reset();
    assert!(!g.is_open(20));
    assert!(!g.is_armed(20));
}

#[test]
fn disabled_when_max_hours_zero() {
    assert!(SessionLimit::new(0, 30, 0).is_none());
}

#[test]
fn disabled_when_max_hours_negative() {
    assert!(SessionLimit::new(-HOUR, 30, 0).is_none());
}

#[test]
fn computes_max_ticks_from_hours_and_fps() {
    let sl = SessionLimit::new(6 * HOUR, 30, 0).expect("enabled");
    assert_eq!(sl.max_ticks, 648_000);
    assert_eq!(sl.start_tick, 0);
}

#[test]
fn not_expired_before_threshold() {
    let sl = SessionLimit::new(6 * HOUR, 30, 0).unwrap();
    assert!(!sl.is_expired(0));
    assert!(!sl.is_expired(1));
    assert!(!sl.is_expired(647_999));
}

#[test]
fn expired_at_and_after_threshold() {
    let sl = SessionLimit::new(6 * HOUR, 30, 0).unwrap();
    assert!(sl.is_expired(648_000));
    assert!(sl.is_expired(648_001));
    assert!(sl.is_expired(u64::MAX));
}

#[test]
fn elapsed_hours_reports_correctly() {
    let sl = SessionLimit::new(6 * HOUR, 30, 0).unwrap();
    assert_eq!(sl.elapsed_hours(648_000, 30), 6_000_000);
    assert_eq!(sl.elapsed_hours(324_000, 30), 3_000_000);
    assert_eq!(sl.elapsed_hours(0, 30), 0);
}

#[test]
fn respects_nonzero_start_tick() {
    let sl = SessionLimit::new(6 * HOUR, 30, 1_000).unwrap();
    assert!(!sl.is_expired(1_000));
    assert!(!sl.is_expired(648_999));
    assert!(sl.is_expired(649_000));
}

#[test]
fn saturating_sub_protects_against_reverse_time() {
    let sl = SessionLimit::new(6 * HOUR, 30, 1_000).unwrap();
    assert!(!sl.is_expired(0));
    assert_eq!(sl.elapsed_hours(0, 30), 0);
}

#[test]
fn warning_disabled_by_default_backward_compat() {
    let sl = SessionLimit::new(6 * HOUR, 30, 0).unwrap();
    assert!(!sl.is_warning(0));
    assert!(!sl.is_warning(100));
    assert!(!sl.is_warning(647_999));
    assert!(!sl.is_warning(648_000));
    assert!(!sl.is_warning(u64::MAX));
}

#[test]
fn warning_disabled_when_margin_zero() {
    let sl = SessionLimit::new(6 * HOUR, 30, 0).unwrap().with_warning_min(0, 30);
    assert!(!sl.is_warning(647_999));
}

#[test]
fn warning_disabled_when_margin_negative() {
    let sl = SessionLimit::new(6 * HOUR, 30, 0).unwrap().with_warning_min(-5 * MINUTE, 30);
    assert!(!sl.is_warning(647_999));
}

#[test]
fn warning_fires_inside_margin_window() {
    let sl = SessionLimit::new(6 * HOUR, 30, 0).unwrap().with_warning_min(5 * MINUTE, 30);
    assert!(!sl.is_warning(630_000));
    assert!(!sl.is_warning(638_999));
    assert!(sl.is_warning(639_000));
    assert!(sl.is_warning(647_999));
    assert!(sl.is_warning(648_000));
}

#[test]
fn warning_caps_margin_at_max_ticks() {
    let sl = SessionLimit::new(HOUR, 30, 0).unwrap().with_warning_min(120 * MINUTE, 30);
    assert!(sl.is_warning(0));
    assert!(sl.is_warning(1));
}

#[test]
fn warning_respects_nonzero_start_tick() {
    let sl = SessionLimit::new(6 * HOUR, 30, 1_000).unwrap().with_warning_min(5 * MINUTE, 30);
    assert!(!sl.is_warning(1_000));
    assert!(!sl.is_warning(639_999));
    assert!(sl.is_warning(640_000));
    assert!(sl.is_warning(649_000));
}

#[test]
fn sample_mean_of_many_is_close_to_mean() {
    let sampler = GaussSampler::new(100_000, 20_000);
    let n = 10_000;
    let sum: i128 = (0..n).map(|_| sampler.sample_clamped(normal(), 0)).sum();
    let avg = sum as f64 / n as f64 / 1000.0;
    assert!((avg - 100.0).abs() < 2.0, "avg={}", avg);
}

#[test]
fn sample_respects_3sigma_clamp() {
    let sampler = GaussSampler::new(50, 10);
    for _ in 0..1000 {
        let v = sampler.sample_clamped(normal(), 0);
        assert!(v >= 20 && v <= 80, "v={}", v);
    }
    assert_eq!(sampler.sample_clamped(i64::MAX, 0), 80);
    assert_eq!(sampler.sample_clamped(i64::MIN, 0), 20);
}

#[test]
fn sample_respects_min_floor() {
    let sampler = GaussSampler::new(1, 5);
    for _ in 0..1000 {
        let v = sampler.sample_clamped(normal(), 1);
        assert!(v >= 1, "v={}", v);
    }
}

#[test]
fn zero_stddev_is_deterministic() {
    let sampler = GaussSampler::new(42, 0);
    for _ in 0..100 {
        assert_eq!(sampler.sample_clamped(normal(), 0), 42);
    }
}

#[test]
fn sample_gauss_ms_returns_reasonable_values() {
    for _ in 0..100 {
        let v = sample_gauss_ms(50_000, 10_000, normal());
        assert!((1..=80).contains(&v), "v={}", v);
    }
}

#[test]
fn sample_gauss_ticks_converts_ms_to_ticks_at_fps() {
    let mut total = 0u64;
    let n = 1000u64;
    for _ in 0..n {
        total += sample_gauss_ticks(1_000_000, 0, 30, normal());
    }
    let avg = total as f64 / n as f64;
    assert!((avg - 30.0).abs() < 0.01, "avg={}", avg);
}

#[test]
fn negative_stddev_is_coerced_to_zero() {
    let sampler = GaussSampler::new(10, -5);
    assert_eq!(sampler.stddev(), 0);
    assert_eq!(sampler.mean(), 10);
    assert_eq!(sampler.sample_clamped(normal(), 0), 10);
}

#[test]
fn empty_choice_returns_none() {
    let c = WeightedChoice::new(vec![]);
    assert!(c.is_empty());
    assert_eq!(c.pick(), None);
}

#[test]
fn zero_weights_are_excluded() {
    let c = WeightedChoice::new(vec![(0x3A, 0), (0x3B, 0)]);
    assert!(c.is_empty());
    assert_eq!(c.pick(), None);
}

#[test]
fn single_option_always_picked() {
    let c = WeightedChoice::new(vec![(0x3A, 1)]);
    for _ in 0..100 {
        assert_eq!(c.pick(), Some(0x3A));
    }
}

#[test]
fn distribution_approximates_weights() {
    let c = WeightedChoice::new(vec![(0x3A, 70), (0x3B, 30)]);
    let mut counts: HashMap<u8, u32> = HashMap::new();
    for _ in 0..10_000 {
        let pick = c.pick().unwrap();
        *counts.entry(pick).or_insert(0) += 1;
    }
    let a = counts[&0x3A] as f64;
    let b = counts[&0x3B] as f64;
    assert!((a - 7000.0).abs() < 500.0, "a={}", a);
    assert!((b - 3000.0).abs() < 500.0, "b={}", b);
}

#[test]
fn three_options_all_reachable() {
    let c = WeightedChoice::new(vec![(0x01, 33), (0x02, 33), (0x03, 34)]);
    let mut seen: HashMap<u8, u32> = HashMap::new();
    for _ in 0..1000 {
        *seen.entry(c.pick().unwrap()).or_insert(0) += 1;
    }
    assert_eq!(seen.len(), 3);
    for (_, count) in seen {
        assert!(count > 100);
    }
}

#[test]
fn a_roll_falls_on_the_key_whose_share_it_lies_in() {
    let c = WeightedChoice::new(vec![(0x01, 2), (0x02, 0), (0x03, 3)]);
    assert_eq!(c.pick_with(0), Some(0x01));
    assert_eq!(c.pick_with(1), Some(0x01));
    assert_eq!(c.pick_with(2), Some(0x03));
    assert_eq!(c.pick_with(4), Some(0x03));
}

fn micro() -> Vec<BreakPlan> {
    vec![BreakPlan {
        kind: BreakKind::Micro,
        interval_mean_us: 10_000_000,
        interval_std_us: 0,
        duration_mean_us: 2_000_000,
        duration_std_us: 0,
    }]
}

#[test]
fn no_break_before_interval() {
    let mut sched = BreakScheduler::with_levels(micro(), NOW, 0);
    assert_eq!(sched.tick(NOW, &vec![]), BreakStatus::Quiet);
    assert_eq!(sched.tick(NOW + 5 * SEC, &vec![]), BreakStatus::Quiet);
}

#[test]
fn started_then_active_then_ended() {
    let mut sched = BreakScheduler::with_levels(micro(), NOW, 0);
    assert_eq!(sched.tick(NOW + 10 * SEC, &vec![]), BreakStatus::Started(BreakKind::Micro));
    assert_eq!(sched.tick(NOW + 11 * SEC, &vec![]), BreakStatus::Active(BreakKind::Micro));
    assert_eq!(sched.tick(NOW + 12 * SEC, &vec![]), BreakStatus::Ended(BreakKind::Micro));
    assert_eq!(sched.tick(NOW + 12 * SEC, &vec![]), BreakStatus::Quiet);
}

#[test]
fn next_break_scheduled_after_ended() {
    let mut sched = BreakScheduler::with_levels(micro(), NOW, 0);
    sched.tick(NOW + 10 * SEC, &vec![]);
    sched.tick(NOW + 12 * SEC, &vec![]);
    assert_eq!(sched.tick(NOW + 21 * SEC, &vec![]), BreakStatus::Quiet);
    assert_eq!(sched.tick(NOW + 22 * SEC, &vec![]), BreakStatus::Started(BreakKind::Micro));
}

#[test]
fn break_kind_strings_are_stable() {
    assert_eq!(BreakKind::Micro.as_str(), "break:micro");
    assert_eq!(BreakKind::Medium.as_str(), "break:medium");
    assert_eq!(BreakKind::Long.as_str(), "break:long");
}

#[test]
fn empty_keys_never_emits() {
    let mut n = HumanNoise::new(vec![], 10_000_000, 0, NOW, 0);
    assert_eq!(n.tick(NOW + 1000 * SEC, 0), None);
    assert_eq!(n.emitted_count(), 0);
}

#[test]
fn no_emit_before_interval() {
    let mut n = HumanNoise::new(vec![0x3A], 10_000_000, 0, NOW, 0);
    assert_eq!(n.tick(NOW + SEC, 0), None);
    assert_eq!(n.tick(NOW + 9 * SEC, 0), None);
}

#[test]
fn emits_at_scheduled_time() {
    let mut n = HumanNoise::new(vec![0x3A], 10_000_000, 0, NOW, 0);
    assert_eq!(n.tick(NOW + 10 * SEC, 0), Some(0x3A));
    assert_eq!(n.emitted_count(), 1);
}

#[test]
fn reschedules_after_emit() {
    let mut n = HumanNoise::new(vec![0x3A], 10_000_000, 0, NOW, 0);
    n.tick(NOW + 10 * SEC, 0);
    assert_eq!(n.tick(NOW + 15 * SEC, 0), None);
    assert_eq!(n.tick(NOW + 20 * SEC, 0), Some(0x3A));
}

#[test]
fn picks_varying_keys_over_time() {
    let mut n = HumanNoise::new(vec![0x3A, 0x3B, 0x3C, 0x3D], 1_000_000, 0, NOW, 0);
    let mut seen = HashSet::new();
    let mut t = NOW;
    for _ in 0..1000 {
        t += SEC;
        if let Some(k) = n.tick(t, 0) {
            seen.insert(k);
        }
    }
    assert_eq!(seen.len(), 4);
    assert_eq!(n.emitted_count(), 200);
}

#[test]
fn the_longest_of_simultaneous_breaks_is_reported() {
    let mut plans = micro();
    plans.insert(0, BreakPlan { kind: BreakKind::Long, ..plans[0] });
    let mut sched = BreakScheduler::with_levels(plans, NOW, 0);
    assert_eq!(sched.tick(NOW + 10 * SEC, &vec![]), BreakStatus::Started(BreakKind::Long));
    assert_eq!(sched.tick(NOW + 11 * SEC, &vec![]), BreakStatus::Active(BreakKind::Long));
    assert_eq!(sched.tick(NOW + 12 * SEC, &vec![]), BreakStatus::Ended(BreakKind::Long));
}

#[test]
fn weights_may_be_as_large_as_they_like() {
    let c = WeightedChoice::new(vec![(0x3A, u32::MAX), (0x3B, 1)]);
    assert!(!c.is_empty());
    assert_eq!(c.pick_with(u32::MAX as u128 - 1), Some(0x3A));
    assert_eq!(c.pick_with(u32::MAX as u128), Some(0x3B));
    assert_eq!(c.pick_with(u32::MAX as u128 + 1), None);
    assert!(c.pick().is_some());
}

#[test]
fn no_second_holds_more_than_the_cap() {
    let mut rl = RateLimiter::new("test", 4);
    let mut granted: Vec<u64> = Vec::new();
    for i in 0..400u64 {
        let t = NOW + SEC + i * 37 * MS;
        if rl.allow(t) {
            granted.push(t);
        }
        assert!(rl.current_rate() <= 4);
    }
    for from in granted.iter().copied() {
        let within = granted.iter().filter(|t| **t >= from && **t <= from + SEC).count();
        assert!(within <= 4, "{}", within);
    }
    assert!(granted.len() > 40);
}
