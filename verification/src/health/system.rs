//! The judgement of each tick.

use vstd::prelude::*;
use vstd::string::*;

use crate::health::{
    worst, DegradationLevel, DriftStatus, HealthConfig, HealthIssue, HealthStatus, IssueView,
    Severity,
};
use crate::instrumentation::registry::{deviates, MetricsRegistry};
use crate::instrumentation::tick::{ActionKindTag, TickFlags, TickMetrics};
use crate::instrumentation::window::{is_root, variance_of};
use crate::text::{decimal, push_decimal};
use crate::units::Ppm;

verus! {

/// The tick up to which a silent bridge is not held against it.
pub const BOOT_TICKS: u64 = 300;

/// What the judgement needs beside the metrics of the tick.
#[derive(Clone, Copy, Debug, PartialEq, Eq)]
pub struct ExtraInputs {
    pub anchor_drift_streak: u32,
    /// The last round trip to the bridge, if there was one.
    pub bridge_rtt_ms: Option<u32>,
    /// How long the last answer of the bridge is ago; `u32::MAX` if there was none.
    pub bridge_last_pong_ms_ago: u32,
}

impl Default for ExtraInputs {
    fn default() -> (r: ExtraInputs)
        ensures
            r == (ExtraInputs {
                anchor_drift_streak: 0,
                bridge_rtt_ms: None,
                bridge_last_pong_ms_ago: 0,
            }),
    {
        ExtraInputs { anchor_drift_streak: 0, bridge_rtt_ms: None, bridge_last_pong_ms_ago: 0 }
    }
}

/// How bad a value is that should stay below two limits, and the limit that it reached.
pub open spec fn reached(v: int, warning: int, critical: int) -> Option<Severity> {
    if v >= critical {
        Some(Severity::Critical)
    } else if v >= warning {
        Some(Severity::Warning)
    } else {
        None
    }
}

/// How bad a value is that should not fall below two limits.
pub open spec fn fallen(v: int, warning: int, critical: int) -> Option<Severity> {
    if v < critical {
        Some(Severity::Critical)
    } else if v < warning {
        Some(Severity::Warning)
    } else {
        None
    }
}

/// The limit that goes with a severity.
pub open spec fn limit(severity: Severity, warning: u32, critical: u32) -> u32 {
    if severity == Severity::Critical {
        critical
    } else {
        warning
    }
}

pub open spec fn frame_issue(c: HealthConfig, m: TickMetrics) -> Option<IssueView> {
    let age_ms = m.frame_age_us / 1000;
    match reached(age_ms as int, c.frame_age_warning_ms as int, c.frame_age_critical_ms as int) {
        Some(severity) => Some(
            IssueView::FrameStale {
                age_ms,
                threshold_ms: limit(severity, c.frame_age_warning_ms, c.frame_age_critical_ms),
                severity,
            },
        ),
        None => None,
    }
}

pub open spec fn tick_issue(c: HealthConfig, m: TickMetrics) -> Option<IssueView> {
    let tick_ms = m.tick_total_us / 1000;
    match reached(tick_ms as int, c.tick_warning_ms as int, c.tick_critical_ms as int) {
        Some(severity) => Some(
            IssueView::TickOverrun {
                tick_ms,
                budget_ms: limit(severity, c.tick_warning_ms, c.tick_critical_ms),
                severity,
            },
        ),
        None => None,
    }
}

pub open spec fn vision_issue(c: HealthConfig, m: TickMetrics) -> Option<IssueView> {
    let vision_ms = m.vision_total_us / 1000;
    match reached(vision_ms as int, c.vision_warning_ms as int, c.vision_critical_ms as int) {
        Some(severity) => Some(
            IssueView::VisionSlow {
                vision_ms,
                threshold_ms: limit(severity, c.vision_warning_ms, c.vision_critical_ms),
                severity,
            },
        ),
        None => None,
    }
}

/// What the flags of a tick say of the anchors.
pub open spec fn drift_of(flags: TickFlags) -> DriftStatus {
    if flags.contains(TickFlags::anchor_lost()) {
        DriftStatus::AllLost
    } else if flags.contains(TickFlags::anchor_drift_warn()) {
        DriftStatus::Inconsistent
    } else {
        DriftStatus::Aligned
    }
}

pub open spec fn anchor_issue(c: HealthConfig, m: TickMetrics, x: ExtraInputs) -> Option<IssueView> {
    let status = drift_of(m.flags);
    if x.anchor_drift_streak < c.anchor_drift_streak_min || status == DriftStatus::Aligned {
        None
    } else {
        Some(
            IssueView::AnchorDrift {
                status,
                valid: m.valid_anchors,
                total: m.total_anchors,
                severity: if status == DriftStatus::AllLost {
                    Severity::Critical
                } else {
                    Severity::Warning
                },
            },
        )
    }
}

pub open spec fn vitals_issue(c: HealthConfig, m: TickMetrics) -> Option<IssueView> {
    let confidence = (m.vitals_confidence_bp * 100) as u32;
    match fallen(confidence as int, c.vitals_conf_warning as int, c.vitals_conf_critical as int) {
        Some(severity) => Some(
            IssueView::LowDetectionConfidence {
                field: "vitals"@,
                confidence,
                threshold: limit(severity, c.vitals_conf_warning, c.vitals_conf_critical),
                severity,
            },
        ),
        None => None,
    }
}

pub open spec fn rtt_issue(c: HealthConfig, x: ExtraInputs) -> Option<IssueView> {
    match x.bridge_rtt_ms {
        Some(rtt_ms) => match reached(
            rtt_ms as int,
            c.bridge_rtt_warning_ms as int,
            c.bridge_rtt_critical_ms as int,
        ) {
            Some(severity) => Some(
                IssueView::BridgeRttHigh {
                    rtt_ms,
                    threshold_ms: limit(severity, c.bridge_rtt_warning_ms, c.bridge_rtt_critical_ms),
                    severity,
                },
            ),
            None => None,
        },
        None => None,
    }
}

pub open spec fn pong_issue(c: HealthConfig, m: TickMetrics, x: ExtraInputs) -> Option<IssueView> {
    let ago = x.bridge_last_pong_ms_ago;
    if ago == u32::MAX || m.tick <= BOOT_TICKS {
        None
    } else {
        match reached(
            ago as int,
            c.bridge_pong_warning_ms as int,
            c.bridge_pong_critical_ms as int,
        ) {
            Some(severity) => Some(
                IssueView::BridgeUnreachable { last_pong_ms_ago: ago, severity },
            ),
            None => None,
        }
    }
}

pub open spec fn failure_issue(c: HealthConfig, kind: Seq<char>, rate: u64) -> Option<IssueView> {
    match fallen(rate as int, c.action_rate_warning as int, c.action_rate_critical as int) {
        Some(severity) => Some(
            IssueView::ActionFailureRate {
                action_kind: kind,
                success_rate: rate,
                threshold: limit(severity, c.action_rate_warning, c.action_rate_critical),
                severity,
            },
        ),
        None => None,
    }
}

pub open spec fn heal_issue(c: HealthConfig, rate: Option<u64>) -> Option<IssueView> {
    match rate {
        Some(rate) => failure_issue(c, "heal"@, rate),
        None => None,
    }
}

pub open spec fn jitter_issue(c: HealthConfig, jitter_us: u32) -> Option<IssueView> {
    match reached(jitter_us as int, c.jitter_warning_us as int, c.jitter_critical_us as int) {
        Some(severity) => Some(
            IssueView::HighJitter {
                stddev_us: jitter_us,
                threshold_us: limit(severity, c.jitter_warning_us, c.jitter_critical_us),
                severity,
            },
        ),
        None => None,
    }
}

pub open spec fn gap_issue(c: HealthConfig, gaps: u64) -> Option<IssueView> {
    match reached(gaps as int, c.frame_seq_gap_warning as int, c.frame_seq_gap_critical as int) {
        Some(severity) => Some(IssueView::FrameSeqGap { gaps_total: gaps, severity }),
        None => None,
    }
}

/// The issue, if there is one.
pub open spec fn listed(issue: Option<IssueView>) -> Seq<IssueView> {
    match issue {
        Some(i) => seq![i],
        None => Seq::empty(),
    }
}

/// What the issues say.
pub open spec fn views(issues: Seq<HealthIssue>) -> Seq<IssueView> {
    Seq::new(issues.len(), |i: int| issues[i]@)
}

/// The issues that single signals give, in the order of the checks.
pub open spec fn primary(
    c: HealthConfig,
    m: TickMetrics,
    heal_rate: Option<u64>,
    jitter_us: u32,
    gaps: u64,
    x: ExtraInputs,
) -> Seq<IssueView> {
    listed(frame_issue(c, m)) + listed(tick_issue(c, m)) + listed(vision_issue(c, m)) + listed(
        anchor_issue(c, m, x),
    ) + listed(vitals_issue(c, m)) + listed(rtt_issue(c, x)) + listed(pong_issue(c, m, x)) + listed(
        heal_issue(c, heal_rate),
    ) + listed(jitter_issue(c, jitter_us)) + listed(gap_issue(c, gaps))
}

/// Whether the issues are those that single signals give, the jitter being the deviation of
/// the latest ticks.
pub open spec fn is_primary(
    c: HealthConfig,
    m: TickMetrics,
    registry: &MetricsRegistry,
    x: ExtraInputs,
    issues: Seq<IssueView>,
) -> bool {
    exists|jitter: u32| #[trigger]
        deviates(jitter, registry.tick_jitter.samples()) && issues == primary(
            c,
            m,
            registry.success_rate(ActionKindTag::Heal),
            jitter,
            registry.frame_seq_gaps,
            x,
        )
}

/// What an issue says, if there is one.
pub open spec fn said(issue: Option<HealthIssue>) -> Option<IssueView> {
    match issue {
        Some(i) => Some(i@),
        None => None,
    }
}

fn push_issue(out: &mut Vec<HealthIssue>, issue: Option<HealthIssue>)
    ensures
        views(final(out)@) == views(old(out)@) + listed(said(issue)),
        final(out)@.len() <= old(out)@.len() + 1,
{
    match issue {
        Some(i) => {
            out.push(i);
            assert(views(out@) =~= views(old(out)@) + seq![i@]);
        },
        None => {
            assert(views(out@) =~= views(old(out)@) + Seq::<IssueView>::empty());
        },
    }
}

/// See `reached`.
fn grade_reached(v: u64, warning: u64, critical: u64) -> (r: Option<Severity>)
    ensures
        r == reached(v as int, warning as int, critical as int),
{
    if v >= critical {
        Some(Severity::Critical)
    } else if v >= warning {
        Some(Severity::Warning)
    } else {
        None
    }
}

/// See `fallen`.
fn grade_fallen(v: u64, warning: u64, critical: u64) -> (r: Option<Severity>)
    ensures
        r == fallen(v as int, warning as int, critical as int),
{
    if v < critical {
        Some(Severity::Critical)
    } else if v < warning {
        Some(Severity::Warning)
    } else {
        None
    }
}

/// See `limit`.
fn limit_of(severity: Severity, warning: u32, critical: u32) -> (r: u32)
    ensures
        r == limit(severity, warning, critical),
{
    if severity == Severity::Critical {
        critical
    } else {
        warning
    }
}

/// What the flags of a tick say of the anchors.
pub fn drift_status_from_flags(flags: TickFlags) -> (r: DriftStatus)
    ensures
        r == drift_of(flags),
{
    if flags.contains(TickFlags::anchor_lost()) {
        DriftStatus::AllLost
    } else if flags.contains(TickFlags::anchor_drift_warn()) {
        DriftStatus::Inconsistent
    } else {
        DriftStatus::Aligned
    }
}

/// The place of a level among all, from none up.
pub open spec fn level(d: Option<DegradationLevel>) -> int {
    match d {
        None => 0,
        Some(DegradationLevel::Light) => 1,
        Some(DegradationLevel::Heavy) => 2,
        Some(DegradationLevel::SafeMode) => 3,
    }
}

/// The level one above.
pub open spec fn above(d: Option<DegradationLevel>) -> Option<DegradationLevel> {
    match d {
        None => Some(DegradationLevel::Light),
        Some(DegradationLevel::Light) => Some(DegradationLevel::Heavy),
        Some(DegradationLevel::Heavy) => Some(DegradationLevel::SafeMode),
        Some(DegradationLevel::SafeMode) => Some(DegradationLevel::SafeMode),
    }
}

/// The level one below.
pub open spec fn below(d: Option<DegradationLevel>) -> Option<DegradationLevel> {
    match d {
        None => None,
        Some(DegradationLevel::Light) => None,
        Some(DegradationLevel::Heavy) => Some(DegradationLevel::Light),
        Some(DegradationLevel::SafeMode) => Some(DegradationLevel::Heavy),
    }
}

/// The place of a level among all, from none up.
pub fn cmp_level(d: Option<DegradationLevel>) -> (r: u8)
    ensures
        r == level(d),
{
    match d {
        None => 0,
        Some(DegradationLevel::Light) => 1,
        Some(DegradationLevel::Heavy) => 2,
        Some(DegradationLevel::SafeMode) => 3,
    }
}

/// The level one above.
pub fn step_up(curr: Option<DegradationLevel>) -> (r: Option<DegradationLevel>)
    ensures
        r == above(curr),
{
    match curr {
        None => Some(DegradationLevel::Light),
        Some(DegradationLevel::Light) => Some(DegradationLevel::Heavy),
        Some(DegradationLevel::Heavy) => Some(DegradationLevel::SafeMode),
        Some(DegradationLevel::SafeMode) => Some(DegradationLevel::SafeMode),
    }
}

/// The level one below.
pub fn step_down(curr: Option<DegradationLevel>) -> (r: Option<DegradationLevel>)
    ensures
        r == below(curr),
{
    match curr {
        None => None,
        Some(DegradationLevel::Light) => None,
        Some(DegradationLevel::Heavy) => Some(DegradationLevel::Light),
        Some(DegradationLevel::SafeMode) => Some(DegradationLevel::Heavy),
    }
}

/// The level that a score calls for.
pub open spec fn called_for(c: HealthConfig, score: u32) -> Option<DegradationLevel> {
    if score >= c.safe_score_threshold {
        Some(DegradationLevel::SafeMode)
    } else if score >= c.heavy_score_threshold {
        Some(DegradationLevel::Heavy)
    } else if score >= c.light_score_threshold {
        Some(DegradationLevel::Light)
    } else {
        None
    }
}

/// The judge of the ticks.
#[derive(Debug)]
pub struct HealthSystem {
    pub config: HealthConfig,
    pub status: HealthStatus,
    pub current_degradation: Option<DegradationLevel>,
    pub promote_target: Option<DegradationLevel>,
    pub promote_streak: u32,
    pub recovery_streak: u32,
    pub last_anchor_drift_streak: u32,
}

/// What the levels depend on from tick to tick.
pub struct Streaks {
    pub current: Option<DegradationLevel>,
    pub target: Option<DegradationLevel>,
    pub promote: int,
    pub recovery: int,
}

/// The streaks after a tick that called for `target`, and the level that follows.
pub open spec fn advanced(c: HealthConfig, s: Streaks, target: Option<DegradationLevel>) -> (
    Streaks,
    Option<DegradationLevel>,
) {
    if level(target) == level(s.current) {
        (Streaks { target: None, promote: 0, recovery: 0, ..s }, s.current)
    } else if level(target) > level(s.current) {
        let streak = if level(s.target) == level(target) {
            s.promote + 1
        } else {
            1
        };
        if streak >= c.promote_streak {
            (Streaks { target: None, promote: 0, recovery: 0, ..s }, above(s.current))
        } else {
            (Streaks { target, promote: streak, recovery: 0, ..s }, s.current)
        }
    } else {
        if s.recovery + 1 >= c.recovery_streak {
            (Streaks { target: None, promote: 0, recovery: 0, ..s }, below(s.current))
        } else {
            (Streaks { target: None, promote: 0, recovery: s.recovery + 1, ..s }, s.current)
        }
    }
}

impl HealthSystem {
    /// The streaks.
    pub open spec fn streaks(&self) -> Streaks {
        Streaks {
            current: self.current_degradation,
            target: self.promote_target,
            promote: self.promote_streak as int,
            recovery: self.recovery_streak as int,
        }
    }

    /// Every streak that goes on is shorter than what it takes to change the level.
    pub open spec fn wf(&self) -> bool {
        &&& self.promote_streak == 0 || self.promote_streak < self.config.promote_streak
        &&& self.recovery_streak == 0 || self.recovery_streak < self.config.recovery_streak
    }

    /// A system that has seen no tick.
    pub fn new(config: HealthConfig) -> (r: HealthSystem)
        ensures
            r.wf(),
            r.config == config,
            r.streaks() == (Streaks { current: None, target: None, promote: 0, recovery: 0 }),
            r.last_anchor_drift_streak == 0,
            r.status.overall == Severity::Healthy,
            r.status.score == 0,
            r.status.degraded is None,
            r.status.issues@.len() == 0,
    {
        HealthSystem {
            config,
            status: HealthStatus::default(),
            current_degradation: None,
            promote_target: None,
            promote_streak: 0,
            recovery_streak: 0,
            last_anchor_drift_streak: 0,
        }
    }

    /// The status after the latest tick.
    pub fn last_status(&self) -> (r: &HealthStatus)
        ensures
            *r == self.status,
    {
        &self.status
    }

    /// The level that a score calls for.
    pub fn target_degradation(&self, score: u32) -> (r: Option<DegradationLevel>)
        ensures
            r == called_for(self.config, score),
    {
        if score >= self.config.safe_score_threshold {
            Some(DegradationLevel::SafeMode)
        } else if score >= self.config.heavy_score_threshold {
            Some(DegradationLevel::Heavy)
        } else if score >= self.config.light_score_threshold {
            Some(DegradationLevel::Light)
        } else {
            None
        }
    }

    /// Lengthens or ends the streaks, and gives the level that follows.
    pub fn apply_hysteresis(&mut self, target: Option<DegradationLevel>) -> (r: Option<
        DegradationLevel,
    >)
        requires
            old(self).wf(),
        ensures
            final(self).wf(),
            (final(self).streaks(), r) == advanced(old(self).config, old(self).streaks(), target),
            *final(self) == (HealthSystem {
                promote_target: final(self).promote_target,
                promote_streak: final(self).promote_streak,
                recovery_streak: final(self).recovery_streak,
                ..*old(self)
            }),
    {
        let curr = self.current_degradation;
        if cmp_level(target) == cmp_level(curr) {
            self.promote_streak = 0;
            self.recovery_streak = 0;
            self.promote_target = None;
            curr
        } else if cmp_level(target) > cmp_level(curr) {
            if cmp_level(self.promote_target) != cmp_level(target) {
                self.promote_target = target;
                self.promote_streak = 0;
            }
            self.promote_streak = self.promote_streak + 1;
            self.recovery_streak = 0;
            if self.promote_streak >= self.config.promote_streak {
                self.promote_streak = 0;
                self.promote_target = None;
                step_up(curr)
            } else {
                curr
            }
        } else {
            self.recovery_streak = self.recovery_streak + 1;
            self.promote_streak = 0;
            self.promote_target = None;
            if self.recovery_streak >= self.config.recovery_streak {
                self.recovery_streak = 0;
                step_down(curr)
            } else {
                curr
            }
        }
    }

    /// For how many ticks in a row a worse level has been called for.
    pub fn promote_streak(&self) -> (r: u32)
        ensures
            r == self.promote_streak,
    {
        self.promote_streak
    }

    /// For how many ticks in a row a better level has been called for.
    pub fn recovery_streak(&self) -> (r: u32)
        ensures
            r == self.recovery_streak,
    {
        self.recovery_streak
    }

    /// The level that is in force.
    pub fn current_degradation(&self) -> (r: Option<DegradationLevel>)
        ensures
            r == self.current_degradation,
    {
        self.current_degradation
    }
}

/// Whether any of the issues is of the kind.
pub open spec fn any_anchor_lost(issues: Seq<IssueView>) -> bool {
    exists|i: int|
        0 <= i < issues.len() && #[trigger] issues[i] is AnchorDrift && issues[i].severity()
            == Severity::Critical
}

pub open spec fn any_frame_stale(issues: Seq<IssueView>) -> bool {
    exists|i: int| 0 <= i < issues.len() && #[trigger] issues[i] is FrameStale
}

pub open spec fn any_vision_slow(issues: Seq<IssueView>) -> bool {
    exists|i: int| 0 <= i < issues.len() && #[trigger] issues[i] is VisionSlow
}

pub open spec fn any_jitter(issues: Seq<IssueView>) -> bool {
    exists|i: int| 0 <= i < issues.len() && #[trigger] issues[i] is HighJitter
}

pub open spec fn any_rtt(issues: Seq<IssueView>) -> bool {
    exists|i: int| 0 <= i < issues.len() && #[trigger] issues[i] is BridgeRttHigh
}

pub open spec fn any_failure(issues: Seq<IssueView>) -> bool {
    exists|i: int| 0 <= i < issues.len() && #[trigger] issues[i] is ActionFailureRate
}

/// A critical issue made of two others, where both are there.
pub open spec fn combined(
    both: bool,
    name: Seq<char>,
    first: Seq<char>,
    second: Seq<char>,
) -> Option<IssueView> {
    if both {
        Some(
            IssueView::Composite { name, causes: seq![first, second], severity: Severity::Critical },
        )
    } else {
        None
    }
}

/// The issues with those that follow from several of them together.
pub open spec fn with_combined(issues: Seq<IssueView>) -> Seq<IssueView> {
    issues + listed(
        combined(
            any_anchor_lost(issues) && any_frame_stale(issues),
            "blind_mode"@,
            "anchor_drift"@,
            "frame_stale"@,
        ),
    ) + listed(
        combined(
            any_vision_slow(issues) && any_jitter(issues),
            "compute_saturation"@,
            "vision_slow"@,
            "high_jitter"@,
        ),
    ) + listed(
        combined(
            any_rtt(issues) && any_failure(issues),
            "io_unreliable"@,
            "bridge_rtt_high"@,
            "action_failure_rate"@,
        ),
    )
}

/// The sum of the weights of the issues.
pub open spec fn score(issues: Seq<IssueView>) -> int
    decreases issues.len(),
{
    if issues.len() == 0 {
        0
    } else {
        score(issues.drop_last()) + issues.last().severity().points()
    }
}

/// The worst of the issues.
pub open spec fn overall(issues: Seq<IssueView>) -> Severity
    decreases issues.len(),
{
    if issues.len() == 0 {
        Severity::Healthy
    } else {
        worst(overall(issues.drop_last()), issues.last().severity())
    }
}

/// The names of the issues, with commas between them.
pub open spec fn names(issues: Seq<IssueView>) -> Seq<char>
    decreases issues.len(),
{
    if issues.len() == 0 {
        Seq::empty()
    } else if issues.len() == 1 {
        issues[0].name()
    } else {
        names(issues.drop_last()) + ","@ + issues.last().name()
    }
}

/// The name of a level, and of having none.
pub open spec fn level_name(d: Option<DegradationLevel>) -> Seq<char> {
    match d {
        Some(d) => d.name(),
        None => "none"@,
    }
}

/// The health in one line.
pub open spec fn summary(
    overall: Severity,
    score: u32,
    issues: Seq<IssueView>,
    degradation: Option<DegradationLevel>,
) -> Seq<char> {
    if issues.len() == 0 {
        "ok (score=0)"@
    } else {
        overall.name() + " (score="@ + decimal(score as nat) + ", degraded="@ + level_name(
            degradation,
        ) + ", issues=["@ + names(issues) + "])"@
    }
}

/// The health in one line.
pub fn build_summary(
    overall: Severity,
    score: u32,
    issues: &[HealthIssue],
    degradation: Option<DegradationLevel>,
) -> (r: String)
    ensures
        r@ == summary(overall, score, views(issues@), degradation),
{
    if issues.len() == 0 {
        return "ok (score=0)".to_owned();
    }
    let mut s = overall.label().to_owned();
    s.append(" (score=");
    push_decimal(&mut s, score as u64);
    s.append(", degraded=");
    match degradation {
        Some(d) => s.append(d.label()),
        None => s.append("none"),
    }
    s.append(", issues=[");
    push_names(&mut s, issues);
    s.append("])");
    s
}

fn push_names(s: &mut String, issues: &[HealthIssue])
    requires
        issues@.len() > 0,
    ensures
        final(s)@ == old(s)@ + names(views(issues@)),
{
    let ghost all = views(issues@);
    s.append(issues[0].label());
    let mut i: usize = 1;
    assert(all.take(1)[0] == issues@[0]@);
    assert(names(all.take(1)) == all[0].name());
    while i < issues.len()
        invariant
            1 <= i <= issues@.len(),
            all == views(issues@),
            s@ == old(s)@ + names(all.take(i as int)),
        decreases issues@.len() - i,
    {
        s.append(",");
        s.append(issues[i].label());
        assert(all.take(i + 1).drop_last() =~= all.take(i as int));
        assert(s@ =~= old(s)@ + names(all.take(i + 1)));
        i = i + 1;
    }
    assert(all.take(i as int) =~= all);
}

/// The sum of the weights of the issues.
fn score_of(issues: &[HealthIssue]) -> (r: u32)
    requires
        issues@.len() <= 1000,
    ensures
        r == score(views(issues@)),
{
    let ghost all = views(issues@);
    let mut sum: u32 = 0;
    let mut i: usize = 0;
    while i < issues.len()
        invariant
            i <= issues@.len() <= 1000,
            all == views(issues@),
            sum == score(all.take(i as int)),
            sum <= 4 * i,
        decreases issues@.len() - i,
    {
        sum = sum + issues[i].severity().weight();
        assert(all.take(i + 1).drop_last() =~= all.take(i as int));
        i = i + 1;
    }
    assert(all.take(i as int) =~= all);
    sum
}

/// The worst of the issues.
fn overall_of(issues: &[HealthIssue]) -> (r: Severity)
    ensures
        r == overall(views(issues@)),
{
    let ghost all = views(issues@);
    let mut worst_yet = Severity::Healthy;
    let mut i: usize = 0;
    while i < issues.len()
        invariant
            i <= issues@.len(),
            all == views(issues@),
            worst_yet == overall(all.take(i as int)),
        decreases issues@.len() - i,
    {
        worst_yet = worst_yet.worse(issues[i].severity());
        assert(all.take(i + 1).drop_last() =~= all.take(i as int));
        i = i + 1;
    }
    assert(all.take(i as int) =~= all);
    worst_yet
}

/// A critical issue made of two others, where both are there.
fn combine(both: bool, name: &str, first: &str, second: &str) -> (r: Option<HealthIssue>)
    ensures
        said(r) == combined(both, name@, first@, second@),
{
    if both {
        let mut causes: Vec<String> = Vec::new();
        causes.push(first.to_owned());
        causes.push(second.to_owned());
        assert(crate::text::texts(causes@) =~= seq![first@, second@]);
        Some(
            HealthIssue::Composite { name: name.to_owned(), causes, severity: Severity::Critical },
        )
    } else {
        None
    }
}

impl HealthSystem {
    /// The issue of actions of a kind that fail too often.
    pub fn action_failure_issue(&self, kind: &str, rate: u64) -> (r: Option<HealthIssue>)
        ensures
            said(r) == failure_issue(self.config, kind@, rate),
    {
        let c = &self.config;
        match grade_fallen(rate, c.action_rate_warning as u64, c.action_rate_critical as u64) {
            Some(severity) => Some(
                HealthIssue::ActionFailureRate {
                    action_kind: kind.to_owned(),
                    success_rate: rate,
                    threshold: limit_of(severity, c.action_rate_warning, c.action_rate_critical),
                    severity,
                },
            ),
            None => None,
        }
    }

    fn frame_check(&self, m: &TickMetrics) -> (r: Option<HealthIssue>)
        ensures
            said(r) == frame_issue(self.config, *m),
    {
        let c = &self.config;
        let age_ms: u32 = m.frame_age_us / 1000;
        match grade_reached(
            age_ms as u64,
            c.frame_age_warning_ms as u64,
            c.frame_age_critical_ms as u64,
        ) {
            Some(severity) => Some(
                HealthIssue::FrameStale {
                    age_ms,
                    threshold_ms: limit_of(
                        severity,
                        c.frame_age_warning_ms,
                        c.frame_age_critical_ms,
                    ),
                    severity,
                },
            ),
            None => None,
        }
    }

    fn tick_check(&self, m: &TickMetrics) -> (r: Option<HealthIssue>)
        ensures
            said(r) == tick_issue(self.config, *m),
    {
        let c = &self.config;
        let tick_ms: u32 = m.tick_total_us / 1000;
        match grade_reached(tick_ms as u64, c.tick_warning_ms as u64, c.tick_critical_ms as u64) {
            Some(severity) => Some(
                HealthIssue::TickOverrun {
                    tick_ms,
                    budget_ms: limit_of(severity, c.tick_warning_ms, c.tick_critical_ms),
                    severity,
                },
            ),
            None => None,
        }
    }

    fn vision_check(&self, m: &TickMetrics) -> (r: Option<HealthIssue>)
        ensures
            said(r) == vision_issue(self.config, *m),
    {
        let c = &self.config;
        let vision_ms: u32 = m.vision_total_us / 1000;
        match grade_reached(
            vision_ms as u64,
            c.vision_warning_ms as u64,
            c.vision_critical_ms as u64,
        ) {
            Some(severity) => Some(
                HealthIssue::VisionSlow {
                    vision_ms,
                    threshold_ms: limit_of(severity, c.vision_warning_ms, c.vision_critical_ms),
                    severity,
                },
            ),
            None => None,
        }
    }

    fn anchor_check(&self, m: &TickMetrics, extras: &ExtraInputs) -> (r: Option<HealthIssue>)
        ensures
            said(r) == anchor_issue(self.config, *m, *extras),
    {
        if extras.anchor_drift_streak < self.config.anchor_drift_streak_min {
            return None;
        }
        let status = drift_status_from_flags(m.flags);
        let severity = match status {
            DriftStatus::AllLost => Severity::Critical,
            DriftStatus::Inconsistent => Severity::Warning,
            DriftStatus::Aligned => {
                return None;
            },
        };
        Some(
            HealthIssue::AnchorDrift {
                status,
                valid: m.valid_anchors,
                total: m.total_anchors,
                severity,
            },
        )
    }

    fn vitals_check(&self, m: &TickMetrics) -> (r: Option<HealthIssue>)
        ensures
            said(r) == vitals_issue(self.config, *m),
    {
        let c = &self.config;
        let confidence: Ppm = m.vitals_confidence_bp as u32 * 100;
        match grade_fallen(
            confidence as u64,
            c.vitals_conf_warning as u64,
            c.vitals_conf_critical as u64,
        ) {
            Some(severity) => Some(
                HealthIssue::LowDetectionConfidence {
                    field: "vitals".to_owned(),
                    confidence,
                    threshold: limit_of(severity, c.vitals_conf_warning, c.vitals_conf_critical),
                    severity,
                },
            ),
            None => None,
        }
    }

    fn rtt_check(&self, extras: &ExtraInputs) -> (r: Option<HealthIssue>)
        ensures
            said(r) == rtt_issue(self.config, *extras),
    {
        let c = &self.config;
        match extras.bridge_rtt_ms {
            Some(rtt_ms) => match grade_reached(
                rtt_ms as u64,
                c.bridge_rtt_warning_ms as u64,
                c.bridge_rtt_critical_ms as u64,
            ) {
                Some(severity) => Some(
                    HealthIssue::BridgeRttHigh {
                        rtt_ms,
                        threshold_ms: limit_of(
                            severity,
                            c.bridge_rtt_warning_ms,
                            c.bridge_rtt_critical_ms,
                        ),
                        severity,
                    },
                ),
                None => None,
            },
            None => None,
        }
    }

    fn pong_check(&self, m: &TickMetrics, extras: &ExtraInputs) -> (r: Option<HealthIssue>)
        ensures
            said(r) == pong_issue(self.config, *m, *extras),
    {
        let c = &self.config;
        let ago: u32 = extras.bridge_last_pong_ms_ago;
        if ago == u32::MAX || m.tick <= BOOT_TICKS {
            return None;
        }
        match grade_reached(
            ago as u64,
            c.bridge_pong_warning_ms as u64,
            c.bridge_pong_critical_ms as u64,
        ) {
            Some(severity) => Some(
                HealthIssue::BridgeUnreachable { last_pong_ms_ago: ago, severity },
            ),
            None => None,
        }
    }

    fn jitter_check(&self, jitter_us: u32) -> (r: Option<HealthIssue>)
        ensures
            said(r) == jitter_issue(self.config, jitter_us),
    {
        let c = &self.config;
        match grade_reached(
            jitter_us as u64,
            c.jitter_warning_us as u64,
            c.jitter_critical_us as u64,
        ) {
            Some(severity) => Some(
                HealthIssue::HighJitter {
                    stddev_us: jitter_us,
                    threshold_us: limit_of(severity, c.jitter_warning_us, c.jitter_critical_us),
                    severity,
                },
            ),
            None => None,
        }
    }

    fn gap_check(&self, gaps: u64) -> (r: Option<HealthIssue>)
        ensures
            said(r) == gap_issue(self.config, gaps),
    {
        match grade_reached(
            gaps,
            self.config.frame_seq_gap_warning,
            self.config.frame_seq_gap_critical,
        ) {
            Some(severity) => Some(HealthIssue::FrameSeqGap { gaps_total: gaps, severity }),
            None => None,
        }
    }

    /// The issues that single signals give.
    pub fn detect_primary_issues(
        &self,
        m: &TickMetrics,
        registry: &MetricsRegistry,
        extras: ExtraInputs,
    ) -> (r: Vec<HealthIssue>)
        requires
            registry.wf(),
        ensures
            is_primary(self.config, *m, registry, extras, views(r@)),
            r@.len() <= 10,
    {
        let mut out: Vec<HealthIssue> = Vec::new();
        assert(views(out@) =~= Seq::<IssueView>::empty());
        push_issue(&mut out, self.frame_check(m));
        push_issue(&mut out, self.tick_check(m));
        push_issue(&mut out, self.vision_check(m));
        push_issue(&mut out, self.anchor_check(m, &extras));
        push_issue(&mut out, self.vitals_check(m));
        push_issue(&mut out, self.rtt_check(&extras));
        push_issue(&mut out, self.pong_check(m, &extras));
        let failing = match registry.action_success_rate(ActionKindTag::Heal) {
            Some(rate) => self.action_failure_issue("heal", rate),
            None => None,
        };
        push_issue(&mut out, failing);
        let jitter: u32 = registry.windows_snapshot().jitter_us;
        push_issue(&mut out, self.jitter_check(jitter));
        push_issue(&mut out, self.gap_check(registry.frame_seq_gaps));
        assert(deviates(jitter, registry.tick_jitter.samples()));
        assert(views(out@) =~= primary(
            self.config,
            *m,
            registry.success_rate(ActionKindTag::Heal),
            jitter,
            registry.frame_seq_gaps,
            extras,
        ));
        out
    }

    /// Adds the issues that follow from several others together.
    pub fn apply_combination_rules(&self, issues: &mut Vec<HealthIssue>)
        ensures
            views(final(issues)@) == with_combined(views(old(issues)@)),
            final(issues)@.len() <= old(issues)@.len() + 3,
    {
        let n: usize = issues.len();
        let ghost all = views(issues@);
        let mut anchor_lost = false;
        let mut frame_stale = false;
        let mut vision_slow = false;
        let mut jitter = false;
        let mut rtt = false;
        let mut failure = false;
        let mut i: usize = 0;
        while i < n
            invariant
                i <= n,
                n == issues@.len(),
                *issues == *old(issues),
                all == views(issues@),
                anchor_lost == any_anchor_lost(all.take(i as int)),
                frame_stale == any_frame_stale(all.take(i as int)),
                vision_slow == any_vision_slow(all.take(i as int)),
                jitter == any_jitter(all.take(i as int)),
                rtt == any_rtt(all.take(i as int)),
                failure == any_failure(all.take(i as int)),
            decreases n - i,
        {
            let ghost seen = all.take(i as int);
            let ghost more = all.take(i + 1);
            proof {
                assert(more =~= seen.push(all[i as int]));
                assert forall|j: int| 0 <= j < i implies #[trigger] more[j] == seen[j] by {}
                any_with_one_more(seen, all[i as int]);
            }
            match &issues[i] {
                HealthIssue::AnchorDrift { severity, .. } => {
                    if *severity == Severity::Critical {
                        anchor_lost = true;
                    }
                },
                HealthIssue::FrameStale { .. } => {
                    frame_stale = true;
                },
                HealthIssue::VisionSlow { .. } => {
                    vision_slow = true;
                },
                HealthIssue::HighJitter { .. } => {
                    jitter = true;
                },
                HealthIssue::BridgeRttHigh { .. } => {
                    rtt = true;
                },
                HealthIssue::ActionFailureRate { .. } => {
                    failure = true;
                },
                _ => {},
            }
            i = i + 1;
        }
        assert(all.take(i as int) =~= all);
        push_issue(
            issues,
            combine(anchor_lost && frame_stale, "blind_mode", "anchor_drift", "frame_stale"),
        );
        push_issue(
            issues,
            combine(vision_slow && jitter, "compute_saturation", "vision_slow", "high_jitter"),
        );
        push_issue(
            issues,
            combine(rtt && failure, "io_unreliable", "bridge_rtt_high", "action_failure_rate"),
        );
    }
}

proof fn any_with_one_more(seen: Seq<IssueView>, one: IssueView)
    ensures
        any_anchor_lost(seen.push(one)) == (any_anchor_lost(seen) || (one is AnchorDrift
            && one.severity() == Severity::Critical)),
        any_frame_stale(seen.push(one)) == (any_frame_stale(seen) || one is FrameStale),
        any_vision_slow(seen.push(one)) == (any_vision_slow(seen) || one is VisionSlow),
        any_jitter(seen.push(one)) == (any_jitter(seen) || one is HighJitter),
        any_rtt(seen.push(one)) == (any_rtt(seen) || one is BridgeRttHigh),
        any_failure(seen.push(one)) == (any_failure(seen) || one is ActionFailureRate),
{
    let more = seen.push(one);
    let n = seen.len() as int;
    assert(more[n] == one);
    assert forall|i: int| 0 <= i < n implies #[trigger] seen[i] == more[i] by {}
}

/// A number has one root.
proof fn root_is_one(a: int, b: int, v: int)
    requires
        is_root(a, v),
        is_root(b, v),
    ensures
        a == b,
{
    if a < b {
        assert((a + 1) * (a + 1) <= b * b) by (nonlinear_arith)
            requires
                0 <= a < b,
        ;
    } else if b < a {
        assert((b + 1) * (b + 1) <= a * a) by (nonlinear_arith)
            requires
                0 <= b < a,
        ;
    }
}

/// The issues that single signals give are determined by the signals.
pub proof fn signals_determine_issues(
    c: HealthConfig,
    m: TickMetrics,
    registry: &MetricsRegistry,
    x: ExtraInputs,
    a: Seq<IssueView>,
    b: Seq<IssueView>,
)
    requires
        is_primary(c, m, registry, x, a),
        is_primary(c, m, registry, x, b),
    ensures
        a == b,
{
    let values = registry.tick_jitter.samples();
    let rate = registry.success_rate(ActionKindTag::Heal);
    let gaps = registry.frame_seq_gaps;
    let i = choose|jitter: u32| #[trigger]
        deviates(jitter, values) && a == primary(c, m, rate, jitter, gaps, x);
    let j = choose|jitter: u32| #[trigger]
        deviates(jitter, values) && b == primary(c, m, rate, jitter, gaps, x);
    if values.len() >= 2 {
        root_is_one(i as int, j as int, variance_of(values));
    }
}

impl HealthSystem {
    /// Judges a tick.
    pub fn evaluate_tick(
        &mut self,
        m: &TickMetrics,
        registry: &MetricsRegistry,
        extras: ExtraInputs,
        now_ms: u64,
    ) -> (r: &HealthStatus)
        requires
            old(self).wf(),
            registry.wf(),
        ensures
            *r == final(self).status,
            judged(old(self), *m, registry, extras, now_ms, final(self)),
            final(self).wf(),
    {
        let mut issues = self.detect_primary_issues(m, registry, extras);
        let ghost found = views(issues@);
        self.apply_combination_rules(&mut issues);
        let score: u32 = score_of(issues.as_slice());
        let overall = overall_of(issues.as_slice());
        let target = self.target_degradation(score);
        let degradation = self.apply_hysteresis(target);
        let summary = build_summary(overall, score, issues.as_slice(), degradation);
        self.last_anchor_drift_streak = extras.anchor_drift_streak;
        self.current_degradation = degradation;
        self.status = HealthStatus {
            overall,
            score,
            degraded: degradation,
            issues,
            summary,
            tick: m.tick,
            frame_seq: m.frame_seq,
            generated_at_ms: now_ms,
        };
        assert(is_primary(self.config, *m, registry, extras, found));
        assert(views(self.status.issues@) == with_combined(found));
        &self.status
    }
}

/// Whether `next` is `now` after it judged the tick `m`.
pub open spec fn judged(
    now: &HealthSystem,
    m: TickMetrics,
    registry: &MetricsRegistry,
    x: ExtraInputs,
    now_ms: u64,
    next: &HealthSystem,
) -> bool {
    let issues = views(next.status.issues@);
    let step = advanced(now.config, now.streaks(), called_for(now.config, next.status.score));
    &&& exists|found: Seq<IssueView>| #[trigger]
        is_primary(now.config, m, registry, x, found) && issues == with_combined(found)
    &&& next.status.score == score(issues)
    &&& next.status.overall == overall(issues)
    &&& next.status.degraded == step.1
    &&& next.status.summary@ == summary(
        overall(issues),
        next.status.score,
        issues,
        next.status.degraded,
    )
    &&& next.status.tick == m.tick
    &&& next.status.frame_seq == m.frame_seq
    &&& next.status.generated_at_ms == now_ms
    &&& next.config == now.config
    &&& next.last_anchor_drift_streak == x.anchor_drift_streak
    &&& next.streaks() == (Streaks { current: step.1, ..step.0 })
}

} // verus!
