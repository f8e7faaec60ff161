//! Severities, degradation levels, and the system that finds what is wrong.

use tibia_bot::health::gate::HealthGate;
use tibia_bot::health::system::{build_summary, drift_status_from_flags, ExtraInputs, HealthSystem};
use tibia_bot::health::{
    DegradationLevel, DriftStatus, HealthConfig, HealthIssue, HealthStatus, Severity,
};
use tibia_bot::instrumentation::registry::MetricsRegistry;
use tibia_bot::instrumentation::tick::{TickFlags, TickMetrics};

fn status_with(degraded: Option<DegradationLevel>) -> HealthStatus {
    HealthStatus {
        overall: if degraded.is_some() { Severity::Warning } else { Severity::Healthy },
        score:   if degraded.is_some() { 1 } else { 0 },
        degraded,
        issues:  vec![],
        summary: String::new(),
        tick: 0, frame_seq: 0, generated_at_ms: 0,
    }
}

#[test]
fn ok_state_allows_everything() {
    let s = status_with(None);
    let g = HealthGate::new(&s);
    assert!(g.allow_normal());
    assert!(g.allow_emergency());
    assert!(g.allow_slow_reader());
    assert_eq!(g.cadence_multiplier(), 1);
}

#[test]
fn light_blocks_slow_but_allows_actions() {
    let s = status_with(Some(DegradationLevel::Light));
    let g = HealthGate::new(&s);
    assert!(g.allow_normal());
    assert!(g.allow_emergency());
    assert!(!g.allow_slow_reader());
    assert_eq!(g.cadence_multiplier(), 2);
}

#[test]
fn heavy_blocks_normal_actions_but_allows_emergency() {
    let s = status_with(Some(DegradationLevel::Heavy));
    let g = HealthGate::new(&s);
    assert!(!g.allow_normal());
    assert!(g.allow_emergency());
    assert!(!g.allow_slow_reader());
    assert_eq!(g.cadence_multiplier(), 4);
}

#[test]
fn safe_mode_blocks_everything() {
    let s = status_with(Some(DegradationLevel::SafeMode));
    let g = HealthGate::new(&s);
    assert!(!g.allow_normal());
    assert!(!g.allow_emergency());
    assert!(!g.allow_slow_reader());
    assert_eq!(g.cadence_multiplier(), u32::MAX);
}


#[test]
fn severity_ordering_max_works() {
    assert!(Severity::Critical > Severity::Warning);
    assert!(Severity::Warning > Severity::Healthy);
    assert_eq!(
        *[Severity::Healthy, Severity::Warning, Severity::Critical].iter().max().unwrap(),
        Severity::Critical
    );
}

#[test]
fn severity_weights_match_design() {
    assert_eq!(Severity::Healthy.weight(), 0);
    assert_eq!(Severity::Warning.weight(), 1);
    assert_eq!(Severity::Critical.weight(), 4);
}


#[test]
fn degradation_level_ordering() {
    assert!(DegradationLevel::SafeMode > DegradationLevel::Heavy);
    assert!(DegradationLevel::Heavy > DegradationLevel::Light);
}

#[test]
fn degradation_slow_reader_multiplier() {
    assert_eq!(DegradationLevel::Light.slow_reader_multiplier(), 2);
    assert_eq!(DegradationLevel::Heavy.slow_reader_multiplier(), 4);
    assert_eq!(DegradationLevel::SafeMode.slow_reader_multiplier(), u32::MAX);
}

#[test]
fn issue_severity_passthrough() {
    let i = HealthIssue::FrameStale {
        age_ms: 250, threshold_ms: 200, severity: Severity::Critical,
    };
    assert_eq!(i.severity(), Severity::Critical);
}

#[test]
fn issue_label_distinguishes_kinds() {
    let frame = HealthIssue::FrameStale { age_ms: 0, threshold_ms: 0, severity: Severity::Healthy };
    let vision = HealthIssue::VisionSlow { vision_ms: 0, threshold_ms: 0, severity: Severity::Healthy };
    assert_eq!(frame.label(), "frame_stale");
    assert_eq!(vision.label(), "vision_slow");
}

#[test]
fn composite_issue_uses_name_as_label() {
    let c = HealthIssue::Composite {
        name: "compute_saturation".to_string(),
        causes: vec!["vision_slow".into(), "high_jitter".into()],
        severity: Severity::Critical,
    };
    assert_eq!(c.label(), "compute_saturation");
}


#[test]
fn health_status_default_is_ok_no_issues() {
    let s = HealthStatus::default();
    assert_eq!(s.overall, Severity::Healthy);
    assert_eq!(s.score, 0);
    assert!(s.degraded.is_none());
    assert!(s.issues.is_empty());
}

#[test]
fn config_default_thresholds_are_sensible() {
    let c = HealthConfig::default();
    assert!(c.frame_age_warning_ms < c.frame_age_critical_ms);
    assert!(c.tick_warning_ms < c.tick_critical_ms);
    assert!(c.vision_warning_ms < c.vision_critical_ms);
    assert!(c.jitter_warning_us < c.jitter_critical_us);
    assert!(c.bridge_rtt_warning_ms < c.bridge_rtt_critical_ms);
    assert!(c.vitals_conf_warning > c.vitals_conf_critical);
    assert!(c.action_rate_warning > c.action_rate_critical);
    assert!(c.light_score_threshold < c.heavy_score_threshold);
    assert!(c.heavy_score_threshold < c.safe_score_threshold);
    assert!(c.recovery_streak > c.promote_streak);
}


fn cfg_with_short_hysteresis() -> HealthConfig {
    HealthConfig {
        promote_streak: 2,
        recovery_streak: 3,
        ..Default::default()
    }
}

fn empty_tick() -> TickMetrics { TickMetrics::default() }

fn dummy_registry() -> MetricsRegistry { MetricsRegistry::new() }

fn no_extras() -> ExtraInputs { ExtraInputs::default() }


#[test]
fn target_none_when_score_zero() {
    let s = HealthSystem::new(HealthConfig::default());
    assert!(s.target_degradation(0).is_none());
}

#[test]
fn target_light_at_warning_score() {
    let s = HealthSystem::new(HealthConfig::default());
    assert_eq!(s.target_degradation(1), Some(DegradationLevel::Light));
    assert_eq!(s.target_degradation(3), Some(DegradationLevel::Light));
}

#[test]
fn target_heavy_at_critical_score() {
    let s = HealthSystem::new(HealthConfig::default());
    assert_eq!(s.target_degradation(4), Some(DegradationLevel::Heavy));
    assert_eq!(s.target_degradation(7), Some(DegradationLevel::Heavy));
}

#[test]
fn target_safe_at_high_score() {
    let s = HealthSystem::new(HealthConfig::default());
    assert_eq!(s.target_degradation(8), Some(DegradationLevel::SafeMode));
    assert_eq!(s.target_degradation(20), Some(DegradationLevel::SafeMode));
}


#[test]
fn hysteresis_promote_requires_streak() {
    let mut s = HealthSystem::new(cfg_with_short_hysteresis());
    let r1 = s.apply_hysteresis(Some(DegradationLevel::Light));
    assert!(r1.is_none());
    assert_eq!(s.promote_streak, 1);
    let r2 = s.apply_hysteresis(Some(DegradationLevel::Light));
    assert_eq!(r2, Some(DegradationLevel::Light));
}

#[test]
fn hysteresis_promote_steps_one_level_at_a_time() {
    let mut s = HealthSystem::new(cfg_with_short_hysteresis());
    let r = s.apply_hysteresis(Some(DegradationLevel::SafeMode));
    assert!(r.is_none());
    let r = s.apply_hysteresis(Some(DegradationLevel::SafeMode));
    assert_eq!(r, Some(DegradationLevel::Light));
    s.current_degradation = Some(DegradationLevel::Light);

    let r = s.apply_hysteresis(Some(DegradationLevel::SafeMode));
    assert!(r.is_some());
    assert_eq!(r, Some(DegradationLevel::Light));
    let r = s.apply_hysteresis(Some(DegradationLevel::SafeMode));
    assert_eq!(r, Some(DegradationLevel::Heavy));
}

#[test]
fn hysteresis_recovery_requires_streak() {
    let mut s = HealthSystem::new(cfg_with_short_hysteresis());
    s.current_degradation = Some(DegradationLevel::Light);
    for _ in 0..2 {
        let r = s.apply_hysteresis(None);
        assert_eq!(r, Some(DegradationLevel::Light));
    }
    let r = s.apply_hysteresis(None);
    assert!(r.is_none());
}

#[test]
fn hysteresis_promote_streak_resets_when_target_changes() {
    let mut s = HealthSystem::new(cfg_with_short_hysteresis());
    s.apply_hysteresis(Some(DegradationLevel::Light));
    assert_eq!(s.promote_streak, 1);
    s.apply_hysteresis(Some(DegradationLevel::Heavy));
    assert_eq!(s.promote_streak, 1);
}

#[test]
fn hysteresis_stable_state_resets_streaks() {
    let mut s = HealthSystem::new(cfg_with_short_hysteresis());
    s.current_degradation = Some(DegradationLevel::Light);
    s.promote_streak = 1;
    s.recovery_streak = 1;
    s.apply_hysteresis(Some(DegradationLevel::Light));
    assert_eq!(s.promote_streak, 0);
    assert_eq!(s.recovery_streak, 0);
}


#[test]
fn detects_frame_stale_at_warning() {
    let s = HealthSystem::new(HealthConfig::default());
    let mut m = empty_tick();
    m.frame_age_us = 150_000;
    m.vitals_confidence_bp = 10_000;
    let issues = s.detect_primary_issues(&m, &dummy_registry(), no_extras());
    let frame_stale = issues.iter().find(|i| matches!(i, HealthIssue::FrameStale { .. }));
    assert!(frame_stale.is_some());
    assert_eq!(frame_stale.unwrap().severity(), Severity::Warning);
}

#[test]
fn detects_frame_stale_at_critical() {
    let s = HealthSystem::new(HealthConfig::default());
    let mut m = empty_tick();
    m.frame_age_us = 250_000;
    m.vitals_confidence_bp = 10_000;
    let issues = s.detect_primary_issues(&m, &dummy_registry(), no_extras());
    let frame_stale = issues.iter().find(|i| matches!(i, HealthIssue::FrameStale { .. }));
    assert_eq!(frame_stale.unwrap().severity(), Severity::Critical);
}

#[test]
fn no_frame_stale_below_threshold() {
    let s = HealthSystem::new(HealthConfig::default());
    let mut m = empty_tick();
    m.frame_age_us = 50_000;
    m.vitals_confidence_bp = 10_000;
    let issues = s.detect_primary_issues(&m, &dummy_registry(), no_extras());
    assert!(!issues.iter().any(|i| matches!(i, HealthIssue::FrameStale { .. })));
}

#[test]
fn anchor_drift_requires_streak_min() {
    let s = HealthSystem::new(HealthConfig::default());
    let mut m = empty_tick();
    m.flags = TickFlags::anchor_drift_warn();
    m.vitals_confidence_bp = 10_000;
    let issues = s.detect_primary_issues(&m, &dummy_registry(),
        ExtraInputs { anchor_drift_streak: 3, ..Default::default() });
    assert!(!issues.iter().any(|i| matches!(i, HealthIssue::AnchorDrift { .. })));
    let issues = s.detect_primary_issues(&m, &dummy_registry(),
        ExtraInputs { anchor_drift_streak: 5, ..Default::default() });
    let drift = issues.iter().find(|i| matches!(i, HealthIssue::AnchorDrift { .. }));
    assert_eq!(drift.unwrap().severity(), Severity::Warning);
}

#[test]
fn anchor_lost_is_critical() {
    let s = HealthSystem::new(HealthConfig::default());
    let mut m = empty_tick();
    m.flags = TickFlags::anchor_lost();
    m.vitals_confidence_bp = 10_000;
    let issues = s.detect_primary_issues(&m, &dummy_registry(),
        ExtraInputs { anchor_drift_streak: 10, ..Default::default() });
    let drift = issues.iter().find(|i| matches!(i, HealthIssue::AnchorDrift { .. }));
    assert_eq!(drift.unwrap().severity(), Severity::Critical);
}

#[test]
fn vitals_low_confidence_emits_issue() {
    let s = HealthSystem::new(HealthConfig::default());
    let mut m = empty_tick();
    m.vitals_confidence_bp = 1500;
    let issues = s.detect_primary_issues(&m, &dummy_registry(), no_extras());
    let vit = issues.iter().find(|i| matches!(i, HealthIssue::LowDetectionConfidence { .. }));
    assert_eq!(vit.unwrap().severity(), Severity::Critical);
}


#[test]
fn blind_mode_when_anchor_critical_and_frame_stale() {
    let s = HealthSystem::new(HealthConfig::default());
    let mut issues = vec![
        HealthIssue::AnchorDrift {
            status: DriftStatus::AllLost, valid: 0, total: 2,
            severity: Severity::Critical,
        },
        HealthIssue::FrameStale {
            age_ms: 250, threshold_ms: 200, severity: Severity::Critical,
        },
    ];
    s.apply_combination_rules(&mut issues);
    let comp = issues.iter().find(|i| matches!(i, HealthIssue::Composite { name, .. } if name == "blind_mode"));
    assert!(comp.is_some());
}

#[test]
fn compute_saturation_when_vision_slow_plus_jitter() {
    let s = HealthSystem::new(HealthConfig::default());
    let mut issues = vec![
        HealthIssue::VisionSlow {
            vision_ms: 25, threshold_ms: 20, severity: Severity::Warning,
        },
        HealthIssue::HighJitter {
            stddev_us: 4000, threshold_us: 3000, severity: Severity::Warning,
        },
    ];
    s.apply_combination_rules(&mut issues);
    let comp = issues.iter().find(|i| matches!(i, HealthIssue::Composite { name, .. } if name == "compute_saturation"));
    assert!(comp.is_some());
}

#[test]
fn no_composite_when_only_one_cause() {
    let s = HealthSystem::new(HealthConfig::default());
    let mut issues = vec![HealthIssue::VisionSlow {
        vision_ms: 25, threshold_ms: 20, severity: Severity::Warning,
    }];
    s.apply_combination_rules(&mut issues);
    assert!(!issues.iter().any(|i| matches!(i, HealthIssue::Composite { .. })));
}


#[test]
fn evaluate_tick_publishes_status() {
    let mut s = HealthSystem::new(HealthConfig::default());
    let mut m = empty_tick();
    m.tick = 42;
    m.frame_seq = 42;
    m.vitals_confidence_bp = 10_000;
    let registry = dummy_registry();
    let status = s.evaluate_tick(&m, &registry, no_extras(), 1_700_000_000_000);
    assert_eq!(status.tick, 42);
    let snap = s.last_status();
    assert_eq!(snap.tick, 42);
}

#[test]
fn evaluate_tick_ok_status_when_clean() {
    let mut s = HealthSystem::new(HealthConfig::default());
    let mut m = empty_tick();
    m.vitals_confidence_bp = 10_000;
    m.frame_age_us = 50_000;
    m.tick_total_us = 15_000;
    m.vision_total_us = 10_000;
    let status = s.evaluate_tick(&m, &dummy_registry(), no_extras(), 1_700_000_000_000);
    assert_eq!(status.overall, Severity::Healthy);
    assert_eq!(status.score, 0);
    assert!(status.degraded.is_none());
}

#[test]
fn evaluate_tick_promotes_after_streak() {
    let mut s = HealthSystem::new(cfg_with_short_hysteresis());
    let mut m = empty_tick();
    m.vitals_confidence_bp = 10_000;
    m.frame_age_us = 150_000;
    let st = s.evaluate_tick(&m, &dummy_registry(), no_extras(), 1_700_000_000_000);
    assert!(st.degraded.is_none());
    let st = s.evaluate_tick(&m, &dummy_registry(), no_extras(), 1_700_000_000_000);
    assert_eq!(st.degraded, Some(DegradationLevel::Light));
}

#[test]
fn build_summary_lists_active_issues() {
    let issues = vec![
        HealthIssue::TickOverrun { tick_ms: 50, budget_ms: 33, severity: Severity::Warning },
        HealthIssue::FrameStale { age_ms: 150, threshold_ms: 100, severity: Severity::Warning },
    ];
    let s = build_summary(Severity::Warning, 2, &issues, Some(DegradationLevel::Light));
    assert!(s.contains("warning"));
    assert!(s.contains("score=2"));
    assert!(s.contains("light"));
    assert!(s.contains("tick_overrun"));
    assert!(s.contains("frame_stale"));
}

#[test]
fn build_summary_ok_when_no_issues() {
    let s = build_summary(Severity::Healthy, 0, &[], None);
    assert!(s.contains("ok"));
}

#[test]
fn severities_have_names() {
    assert_eq!(Severity::Healthy.label(), "ok");
    assert_eq!(Severity::Warning.label(), "warning");
    assert_eq!(Severity::Critical.label(), "critical");
    assert_eq!(Severity::Warning.worse(Severity::Critical), Severity::Critical);
    assert_eq!(DegradationLevel::SafeMode.label(), "safe_mode");
}

#[test]
fn flags_tell_how_far_the_anchors_drifted() {
    assert_eq!(drift_status_from_flags(TickFlags::none()), DriftStatus::Aligned);
    assert_eq!(
        drift_status_from_flags(TickFlags::anchor_drift_warn()),
        DriftStatus::Inconsistent
    );
    let both = TickFlags::anchor_drift_warn() | TickFlags::anchor_lost();
    assert_eq!(drift_status_from_flags(both), DriftStatus::AllLost);
}

#[test]
fn a_bridge_that_does_not_answer_is_an_issue() {
    let s = HealthSystem::new(HealthConfig::default());
    let mut m = empty_tick();
    m.vitals_confidence_bp = 10_000;
    m.tick = 1_000;
    let late = ExtraInputs { bridge_last_pong_ms_ago: 6_000, ..Default::default() };
    let issues = s.detect_primary_issues(&m, &dummy_registry(), late);
    let found = issues.iter().find(|i| i.label() == "bridge_unreachable");
    assert_eq!(found.unwrap().severity(), Severity::Critical);
}

#[test]
fn failing_actions_are_an_issue_by_their_rate() {
    let s = HealthSystem::new(HealthConfig::default());
    assert!(s.action_failure_issue("heal", 1_000_000).is_none());
    let bad = s.action_failure_issue("heal", 0).unwrap();
    assert_eq!(bad.severity(), Severity::Critical);
    assert_eq!(bad.label(), "action_failure_rate");
}
