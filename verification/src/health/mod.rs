//! What is wrong with the bot, and how far it holds itself back.

pub mod gate;
pub mod laws;
pub mod system;

use vstd::prelude::*;

use crate::text::texts;
use crate::units::Ppm;

verus! {

/// How bad an issue is.
#[derive(Clone, Copy, Debug, PartialEq, Eq, PartialOrd, Ord, Structural)]
pub enum Severity {
    Healthy,
    Warning,
    Critical,
}

impl Severity {
    /// The place of the severity among all, from harmless up.
    pub open spec fn rank(self) -> int {
        match self {
            Severity::Healthy => 0,
            Severity::Warning => 1,
            Severity::Critical => 2,
        }
    }

    /// See `weight`.
    pub open spec fn points(self) -> int {
        match self {
            Severity::Healthy => 0,
            Severity::Warning => 1,
            Severity::Critical => 4,
        }
    }

    /// The name of the severity.
    pub open spec fn name(self) -> Seq<char> {
        match self {
            Severity::Healthy => "ok"@,
            Severity::Warning => "warning"@,
            Severity::Critical => "critical"@,
        }
    }

    /// What an issue of this severity adds to the score.
    pub fn weight(self) -> (r: u32)
        ensures
            r == self.points(),
    {
        match self {
            Severity::Healthy => 0,
            Severity::Warning => 1,
            Severity::Critical => 4,
        }
    }

    /// The name, in lower case.
    pub fn label(self) -> (r: &'static str)
        ensures
            r@ == self.name(),
    {
        match self {
            Severity::Healthy => "ok",
            Severity::Warning => "warning",
            Severity::Critical => "critical",
        }
    }

    /// The worse of two.
    pub fn worse(self, other: Severity) -> (r: Severity)
        ensures
            r == worst(self, other),
    {
        match (self, other) {
            (Severity::Critical, _) => Severity::Critical,
            (_, Severity::Critical) => Severity::Critical,
            (Severity::Warning, _) => Severity::Warning,
            (_, Severity::Warning) => Severity::Warning,
            _ => Severity::Healthy,
        }
    }
}

/// The worse of two severities.
pub open spec fn worst(a: Severity, b: Severity) -> Severity {
    if a.rank() >= b.rank() {
        a
    } else {
        b
    }
}

impl Default for Severity {
    fn default() -> (r: Severity)
        ensures
            r == Severity::Healthy,
    {
        Severity::Healthy
    }
}

/// How far the bot holds itself back.
#[derive(Clone, Copy, Debug, PartialEq, Eq, PartialOrd, Ord, Structural)]
pub enum DegradationLevel {
    /// Slow readers run less often.
    Light,
    /// Only emergency actions pass.
    Heavy,
    /// Nothing passes.
    SafeMode,
}

impl DegradationLevel {
    /// The name of the level.
    pub open spec fn name(self) -> Seq<char> {
        match self {
            DegradationLevel::Light => "light"@,
            DegradationLevel::Heavy => "heavy"@,
            DegradationLevel::SafeMode => "safe_mode"@,
        }
    }

    /// See `slow_reader_multiplier`.
    pub open spec fn slowdown(self) -> u32 {
        match self {
            DegradationLevel::Light => 2,
            DegradationLevel::Heavy => 4,
            DegradationLevel::SafeMode => u32::MAX,
        }
    }

    /// The name, in lower case.
    pub fn label(self) -> (r: &'static str)
        ensures
            r@ == self.name(),
    {
        match self {
            DegradationLevel::Light => "light",
            DegradationLevel::Heavy => "heavy",
            DegradationLevel::SafeMode => "safe_mode",
        }
    }

    /// By how much the period of the slow readers grows.
    pub fn slow_reader_multiplier(self) -> (r: u32)
        ensures
            r == self.slowdown(),
    {
        match self {
            DegradationLevel::Light => 2,
            DegradationLevel::Heavy => 4,
            DegradationLevel::SafeMode => u32::MAX,
        }
    }
}

/// How well the anchors of the screen agree.
#[derive(Clone, Copy, Debug, PartialEq, Eq, Structural)]
pub enum DriftStatus {
    Aligned,
    Inconsistent,
    AllLost,
}

/// Something that is wrong, with the numbers that show it.
#[derive(Clone, Debug)]
pub enum HealthIssue {
    FrameStale { age_ms: u32, threshold_ms: u32, severity: Severity },
    TickOverrun { tick_ms: u32, budget_ms: u32, severity: Severity },
    VisionSlow { vision_ms: u32, threshold_ms: u32, severity: Severity },
    AnchorDrift { status: DriftStatus, valid: u8, total: u8, severity: Severity },
    LowDetectionConfidence { field: String, confidence: Ppm, threshold: Ppm, severity: Severity },
    BridgeRttHigh { rtt_ms: u32, threshold_ms: u32, severity: Severity },
    BridgeUnreachable { last_pong_ms_ago: u32, severity: Severity },
    ActionFailureRate { action_kind: String, success_rate: u64, threshold: Ppm, severity: Severity },
    HighJitter { stddev_us: u32, threshold_us: u32, severity: Severity },
    FrameSeqGap { gaps_total: u64, severity: Severity },
    /// Several issues that together mean more than each alone.
    Composite { name: String, causes: Vec<String>, severity: Severity },
}

/// What a `HealthIssue` says.
pub enum IssueView {
    FrameStale { age_ms: u32, threshold_ms: u32, severity: Severity },
    TickOverrun { tick_ms: u32, budget_ms: u32, severity: Severity },
    VisionSlow { vision_ms: u32, threshold_ms: u32, severity: Severity },
    AnchorDrift { status: DriftStatus, valid: u8, total: u8, severity: Severity },
    LowDetectionConfidence {
        field: Seq<char>,
        confidence: Ppm,
        threshold: Ppm,
        severity: Severity,
    },
    BridgeRttHigh { rtt_ms: u32, threshold_ms: u32, severity: Severity },
    BridgeUnreachable { last_pong_ms_ago: u32, severity: Severity },
    ActionFailureRate {
        action_kind: Seq<char>,
        success_rate: u64,
        threshold: Ppm,
        severity: Severity,
    },
    HighJitter { stddev_us: u32, threshold_us: u32, severity: Severity },
    FrameSeqGap { gaps_total: u64, severity: Severity },
    Composite { name: Seq<char>, causes: Seq<Seq<char>>, severity: Severity },
}

impl View for HealthIssue {
    type V = IssueView;

    open spec fn view(&self) -> IssueView {
        match *self {
            HealthIssue::FrameStale { age_ms, threshold_ms, severity } => IssueView::FrameStale {
                age_ms,
                threshold_ms,
                severity,
            },
            HealthIssue::TickOverrun { tick_ms, budget_ms, severity } => IssueView::TickOverrun {
                tick_ms,
                budget_ms,
                severity,
            },
            HealthIssue::VisionSlow { vision_ms, threshold_ms, severity } => {
                IssueView::VisionSlow { vision_ms, threshold_ms, severity }
            },
            HealthIssue::AnchorDrift { status, valid, total, severity } => {
                IssueView::AnchorDrift { status, valid, total, severity }
            },
            HealthIssue::LowDetectionConfidence { field, confidence, threshold, severity } => {
                IssueView::LowDetectionConfidence {
                    field: field@,
                    confidence,
                    threshold,
                    severity,
                }
            },
            HealthIssue::BridgeRttHigh { rtt_ms, threshold_ms, severity } => {
                IssueView::BridgeRttHigh { rtt_ms, threshold_ms, severity }
            },
            HealthIssue::BridgeUnreachable { last_pong_ms_ago, severity } => {
                IssueView::BridgeUnreachable { last_pong_ms_ago, severity }
            },
            HealthIssue::ActionFailureRate { action_kind, success_rate, threshold, severity } => {
                IssueView::ActionFailureRate {
                    action_kind: action_kind@,
                    success_rate,
                    threshold,
                    severity,
                }
            },
            HealthIssue::HighJitter { stddev_us, threshold_us, severity } => {
                IssueView::HighJitter { stddev_us, threshold_us, severity }
            },
            HealthIssue::FrameSeqGap { gaps_total, severity } => IssueView::FrameSeqGap {
                gaps_total,
                severity,
            },
            HealthIssue::Composite { name, causes, severity } => IssueView::Composite {
                name: name@,
                causes: texts(causes@),
                severity,
            },
        }
    }
}

impl IssueView {
    pub open spec fn severity(self) -> Severity {
        match self {
            IssueView::FrameStale { severity, .. } => severity,
            IssueView::TickOverrun { severity, .. } => severity,
            IssueView::VisionSlow { severity, .. } => severity,
            IssueView::AnchorDrift { severity, .. } => severity,
            IssueView::LowDetectionConfidence { severity, .. } => severity,
            IssueView::BridgeRttHigh { severity, .. } => severity,
            IssueView::BridgeUnreachable { severity, .. } => severity,
            IssueView::ActionFailureRate { severity, .. } => severity,
            IssueView::HighJitter { severity, .. } => severity,
            IssueView::FrameSeqGap { severity, .. } => severity,
            IssueView::Composite { severity, .. } => severity,
        }
    }

    pub open spec fn name(self) -> Seq<char> {
        match self {
            IssueView::FrameStale { .. } => "frame_stale"@,
            IssueView::TickOverrun { .. } => "tick_overrun"@,
            IssueView::VisionSlow { .. } => "vision_slow"@,
            IssueView::AnchorDrift { .. } => "anchor_drift"@,
            IssueView::LowDetectionConfidence { .. } => "low_detection_confidence"@,
            IssueView::BridgeRttHigh { .. } => "bridge_rtt_high"@,
            IssueView::BridgeUnreachable { .. } => "bridge_unreachable"@,
            IssueView::ActionFailureRate { .. } => "action_failure_rate"@,
            IssueView::HighJitter { .. } => "high_jitter"@,
            IssueView::FrameSeqGap { .. } => "frame_seq_gap"@,
            IssueView::Composite { name, .. } => name,
        }
    }
}

impl HealthIssue {
    /// How bad it is.
    pub fn severity(&self) -> (r: Severity)
        ensures
            r == self@.severity(),
    {
        match self {
            HealthIssue::FrameStale { severity, .. } => *severity,
            HealthIssue::TickOverrun { severity, .. } => *severity,
            HealthIssue::VisionSlow { severity, .. } => *severity,
            HealthIssue::AnchorDrift { severity, .. } => *severity,
            HealthIssue::LowDetectionConfidence { severity, .. } => *severity,
            HealthIssue::BridgeRttHigh { severity, .. } => *severity,
            HealthIssue::BridgeUnreachable { severity, .. } => *severity,
            HealthIssue::ActionFailureRate { severity, .. } => *severity,
            HealthIssue::HighJitter { severity, .. } => *severity,
            HealthIssue::FrameSeqGap { severity, .. } => *severity,
            HealthIssue::Composite { severity, .. } => *severity,
        }
    }

    /// The name of the kind; of a composite issue, its own.
    pub fn label(&self) -> (r: &str)
        ensures
            r@ == self@.name(),
    {
        match self {
            HealthIssue::FrameStale { .. } => "frame_stale",
            HealthIssue::TickOverrun { .. } => "tick_overrun",
            HealthIssue::VisionSlow { .. } => "vision_slow",
            HealthIssue::AnchorDrift { .. } => "anchor_drift",
            HealthIssue::LowDetectionConfidence { .. } => "low_detection_confidence",
            HealthIssue::BridgeRttHigh { .. } => "bridge_rtt_high",
            HealthIssue::BridgeUnreachable { .. } => "bridge_unreachable",
            HealthIssue::ActionFailureRate { .. } => "action_failure_rate",
            HealthIssue::HighJitter { .. } => "high_jitter",
            HealthIssue::FrameSeqGap { .. } => "frame_seq_gap",
            HealthIssue::Composite { name, .. } => name.as_str(),
        }
    }
}

/// The health of the bot after a tick.
#[derive(Clone, Debug)]
pub struct HealthStatus {
    pub overall: Severity,
    pub score: u32,
    pub degraded: Option<DegradationLevel>,
    pub issues: Vec<HealthIssue>,
    pub summary: String,
    pub tick: u64,
    pub frame_seq: u64,
    pub generated_at_ms: u64,
}

impl Default for HealthStatus {
    fn default() -> (r: HealthStatus)
        ensures
            r.overall == Severity::Healthy,
            r.score == 0,
            r.degraded is None,
            r.issues@.len() == 0,
            r.summary@.len() == 0,
            r.tick == 0,
            r.frame_seq == 0,
            r.generated_at_ms == 0,
    {
        HealthStatus {
            overall: Severity::Healthy,
            score: 0,
            degraded: None,
            issues: Vec::new(),
            summary: String::new(),
            tick: 0,
            frame_seq: 0,
            generated_at_ms: 0,
        }
    }
}

/// The limits beyond which something is an issue, the scores that lead to each level, and
/// how long a level has to be called for.
#[derive(Clone, Copy, Debug, PartialEq, Eq, Structural)]
pub struct HealthConfig {
    pub frame_age_warning_ms: u32,
    pub frame_age_critical_ms: u32,
    pub tick_warning_ms: u32,
    pub tick_critical_ms: u32,
    pub vision_warning_ms: u32,
    pub vision_critical_ms: u32,
    pub jitter_warning_us: u32,
    pub jitter_critical_us: u32,
    pub bridge_rtt_warning_ms: u32,
    pub bridge_rtt_critical_ms: u32,
    pub bridge_pong_warning_ms: u32,
    pub bridge_pong_critical_ms: u32,
    pub vitals_conf_warning: Ppm,
    pub vitals_conf_critical: Ppm,
    pub action_rate_warning: Ppm,
    pub action_rate_critical: Ppm,
    pub frame_seq_gap_warning: u64,
    pub frame_seq_gap_critical: u64,
    pub light_score_threshold: u32,
    pub heavy_score_threshold: u32,
    pub safe_score_threshold: u32,
    pub promote_streak: u32,
    pub recovery_streak: u32,
    pub anchor_drift_streak_min: u32,
}

impl Default for HealthConfig {
    fn default() -> (r: HealthConfig)
        ensures
            r == (HealthConfig {
                frame_age_warning_ms: 100,
                frame_age_critical_ms: 200,
                tick_warning_ms: 33,
                tick_critical_ms: 50,
                vision_warning_ms: 20,
                vision_critical_ms: 28,
                jitter_warning_us: 3_000,
                jitter_critical_us: 7_000,
                bridge_rtt_warning_ms: 30,
                bridge_rtt_critical_ms: 80,
                bridge_pong_warning_ms: 3_000,
                bridge_pong_critical_ms: 5_000,
                vitals_conf_warning: 500_000,
                vitals_conf_critical: 200_000,
                action_rate_warning: 800_000,
                action_rate_critical: 500_000,
                frame_seq_gap_warning: 3,
                frame_seq_gap_critical: 10,
                light_score_threshold: 1,
                heavy_score_threshold: 4,
                safe_score_threshold: 8,
                promote_streak: 5,
                recovery_streak: 60,
                anchor_drift_streak_min: 5,
            }),
    {
        HealthConfig {
            frame_age_warning_ms: 100,
            frame_age_critical_ms: 200,
            tick_warning_ms: 33,
            tick_critical_ms: 50,
            vision_warning_ms: 20,
            vision_critical_ms: 28,
            jitter_warning_us: 3_000,
            jitter_critical_us: 7_000,
            bridge_rtt_warning_ms: 30,
            bridge_rtt_critical_ms: 80,
            bridge_pong_warning_ms: 3_000,
            bridge_pong_critical_ms: 5_000,
            vitals_conf_warning: 500_000,
            vitals_conf_critical: 200_000,
            action_rate_warning: 800_000,
            action_rate_critical: 500_000,
            frame_seq_gap_warning: 3,
            frame_seq_gap_critical: 10,
            light_score_threshold: 1,
            heavy_score_threshold: 4,
            safe_score_threshold: 8,
            promote_streak: 5,
            recovery_streak: 60,
            anchor_drift_streak_min: 5,
        }
    }
}

} // verus!
