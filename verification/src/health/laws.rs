//! What holds of the judgement over several ticks.

use vstd::prelude::*;

use crate::health::gate::{cadence, passes_emergency, passes_normal, passes_slow_reader};
use crate::health::system::{
    above, advanced, anchor_issue, any_anchor_lost, any_failure, any_frame_stale, any_jitter,
    any_rtt, any_vision_slow, below, called_for, combined, frame_issue, gap_issue, heal_issue,
    is_primary, jitter_issue, judged, level, listed, names, overall, pong_issue, primary, rtt_issue,
    score, tick_issue, views, vision_issue, vitals_issue, with_combined, ExtraInputs,
    HealthSystem, Streaks,
};
use crate::health::{
    DegradationLevel, DriftStatus, HealthConfig, HealthIssue, HealthStatus, IssueView, Severity,
};
use crate::instrumentation::registry::{deviates, MetricsRegistry};
use crate::instrumentation::tick::{ActionKindTag, TickFlags, TickMetrics};
use crate::text::decimal;

verus! {

/// A tick changes the level by one at most.
pub proof fn one_level_at_a_time(
    now: HealthSystem,
    m: TickMetrics,
    registry: &MetricsRegistry,
    x: ExtraInputs,
    now_ms: u64,
    next: HealthSystem,
)
    requires
        judged(&now, m, registry, x, now_ms, &next),
    ensures
        level(now.current_degradation) - 1 <= level(next.current_degradation) <= level(
            now.current_degradation,
        ) + 1,
        next.status.degraded == next.current_degradation,
{
    assert(next.streaks().current == next.current_degradation);
}

/// The streaks after `n` ticks that all called for `target`.
pub open spec fn after_ticks(
    c: HealthConfig,
    s: Streaks,
    target: Option<DegradationLevel>,
    n: nat,
) -> Streaks
    decreases n,
{
    if n == 0 {
        s
    } else {
        let step = advanced(c, after_ticks(c, s, target, (n - 1) as nat), target);
        Streaks { current: step.1, ..step.0 }
    }
}

/// The level rises only once a higher one was called for `promote_streak` ticks in a row, and
/// then by one.
pub proof fn rises_after_a_streak(
    c: HealthConfig,
    s: Streaks,
    target: Option<DegradationLevel>,
    n: nat,
)
    requires
        level(target) > level(s.current),
        s.promote == 0,
        0 < n <= c.promote_streak,
    ensures
        n < c.promote_streak ==> after_ticks(c, s, target, n).current == s.current,
        n == c.promote_streak ==> after_ticks(c, s, target, n).current == above(s.current),
{
    climbing(c, s, target, n);
}

proof fn climbing(c: HealthConfig, s: Streaks, target: Option<DegradationLevel>, n: nat)
    requires
        level(target) > level(s.current),
        s.promote == 0,
        0 < n <= c.promote_streak,
    ensures
        n < c.promote_streak ==> {
            let t = after_ticks(c, s, target, n);
            t.current == s.current && level(t.target) == level(target) && t.promote == n
        },
        n == c.promote_streak ==> after_ticks(c, s, target, n).current == above(s.current),
    decreases n,
{
    reveal_with_fuel(after_ticks, 2);
    if n > 1 {
        climbing(c, s, target, (n - 1) as nat);
    }
}

/// The level falls only once a lower one was called for `recovery_streak` ticks in a row, and
/// then by one.
pub proof fn falls_after_a_streak(
    c: HealthConfig,
    s: Streaks,
    target: Option<DegradationLevel>,
    n: nat,
)
    requires
        level(target) < level(s.current),
        s.recovery == 0,
        0 < n <= c.recovery_streak,
    ensures
        n < c.recovery_streak ==> after_ticks(c, s, target, n).current == s.current,
        n == c.recovery_streak ==> after_ticks(c, s, target, n).current == below(s.current),
{
    descending(c, s, target, n);
}

proof fn descending(c: HealthConfig, s: Streaks, target: Option<DegradationLevel>, n: nat)
    requires
        level(target) < level(s.current),
        s.recovery == 0,
        0 < n <= c.recovery_streak,
    ensures
        n < c.recovery_streak ==> {
            let t = after_ticks(c, s, target, n);
            t.current == s.current && t.recovery == n
        },
        n == c.recovery_streak ==> after_ticks(c, s, target, n).current == below(s.current),
    decreases n,
{
    reveal_with_fuel(after_ticks, 2);
    if n > 1 {
        descending(c, s, target, (n - 1) as nat);
    }
}

/// A tick that calls for the level that is there ends every streak.
pub proof fn a_steady_tick_ends_streaks(
    c: HealthConfig,
    s: Streaks,
    target: Option<DegradationLevel>,
)
    requires
        level(target) == level(s.current),
    ensures
        advanced(c, s, target).1 == s.current,
        advanced(c, s, target).0.promote == 0,
        advanced(c, s, target).0.recovery == 0,
{
}

/// A higher score never calls for a lower level.
pub proof fn more_score_calls_for_more(c: HealthConfig, a: u32, b: u32)
    requires
        a <= b,
    ensures
        level(called_for(c, a)) <= level(called_for(c, b)),
{
}

/// A higher level never lets through what a lower one holds back, and emergency actions pass
/// wherever ordinary ones do.
pub proof fn higher_levels_let_less_through(
    a: Option<DegradationLevel>,
    b: Option<DegradationLevel>,
)
    requires
        level(a) <= level(b),
    ensures
        passes_normal(b) ==> passes_normal(a),
        passes_emergency(b) ==> passes_emergency(a),
        passes_slow_reader(b) ==> passes_slow_reader(a),
        cadence(a) <= cadence(b),
        passes_normal(a) ==> passes_emergency(a),
        passes_slow_reader(a) ==> passes_normal(a),
{
}

/// Whether every issue is at least a warning.
spec fn all_count(issues: Seq<IssueView>) -> bool {
    forall|i: int| 0 <= i < issues.len() ==> (#[trigger] issues[i]).severity() != Severity::Healthy
}

proof fn counting(issues: Seq<IssueView>)
    requires
        all_count(issues),
    ensures
        score(issues) >= issues.len(),
        issues.len() > 0 ==> overall(issues) != Severity::Healthy,
    decreases issues.len(),
{
    if issues.len() > 0 {
        assert forall|i: int| 0 <= i < issues.drop_last().len() implies (
        #[trigger] issues.drop_last()[i]).severity() != Severity::Healthy by {
            assert(issues.drop_last()[i] == issues[i]);
        }
        assert(issues.last() == issues[issues.len() - 1]);
        counting(issues.drop_last());
    }
}

proof fn joined_count(a: Seq<IssueView>, b: Option<IssueView>)
    requires
        all_count(a),
        b matches Some(i) ==> i.severity() != Severity::Healthy,
    ensures
        all_count(a + listed(b)),
{
    assert forall|i: int| 0 <= i < (a + listed(b)).len() implies (
    #[trigger] (a + listed(b))[i]).severity() != Severity::Healthy by {
        if i < a.len() {
            assert((a + listed(b))[i] == a[i]);
        }
    }
}

proof fn primary_counts(
    c: HealthConfig,
    m: TickMetrics,
    rate: Option<u64>,
    jitter: u32,
    gaps: u64,
    x: ExtraInputs,
)
    ensures
        all_count(primary(c, m, rate, jitter, gaps, x)),
{
    let a = listed(frame_issue(c, m));
    let b = a + listed(tick_issue(c, m));
    let d = b + listed(vision_issue(c, m));
    let e = d + listed(anchor_issue(c, m, x));
    let f = e + listed(vitals_issue(c, m));
    let g = f + listed(rtt_issue(c, x));
    let h = g + listed(pong_issue(c, m, x));
    let i = h + listed(heal_issue(c, rate));
    let j = i + listed(jitter_issue(c, jitter));
    assert(all_count(a));
    joined_count(a, tick_issue(c, m));
    joined_count(b, vision_issue(c, m));
    joined_count(d, anchor_issue(c, m, x));
    joined_count(e, vitals_issue(c, m));
    joined_count(f, rtt_issue(c, x));
    joined_count(g, pong_issue(c, m, x));
    joined_count(h, heal_issue(c, rate));
    joined_count(i, jitter_issue(c, jitter));
    joined_count(j, gap_issue(c, gaps));
}

proof fn found_count(
    c: HealthConfig,
    m: TickMetrics,
    registry: &MetricsRegistry,
    x: ExtraInputs,
    found: Seq<IssueView>,
)
    requires
        is_primary(c, m, registry, x, found),
    ensures
        all_count(found),
{
    let rate = registry.success_rate(ActionKindTag::Heal);
    let gaps = registry.frame_seq_gaps;
    let jitter = choose|jitter: u32| #[trigger]
        deviates(jitter, registry.tick_jitter.samples()) && found == primary(
            c,
            m,
            rate,
            jitter,
            gaps,
            x,
        );
    primary_counts(c, m, rate, jitter, gaps, x);
}

proof fn combined_count(found: Seq<IssueView>)
    requires
        all_count(found),
    ensures
        all_count(with_combined(found)),
{
    let one = combined(
        any_anchor_lost(found) && any_frame_stale(found),
        "blind_mode"@,
        "anchor_drift"@,
        "frame_stale"@,
    );
    let two = combined(
        any_vision_slow(found) && any_jitter(found),
        "compute_saturation"@,
        "vision_slow"@,
        "high_jitter"@,
    );
    let three = combined(
        any_rtt(found) && any_failure(found),
        "io_unreliable"@,
        "bridge_rtt_high"@,
        "action_failure_rate"@,
    );
    joined_count(found, one);
    joined_count(found + listed(one), two);
    joined_count(found + listed(one) + listed(two), three);
}

/// The bot counts as healthy, with a score of zero, exactly if there is no issue.
pub proof fn healthy_means_no_issue(
    now: HealthSystem,
    m: TickMetrics,
    registry: &MetricsRegistry,
    x: ExtraInputs,
    now_ms: u64,
    next: HealthSystem,
)
    requires
        judged(&now, m, registry, x, now_ms, &next),
    ensures
        (next.status.score == 0) == (next.status.issues@.len() == 0),
        (next.status.overall == Severity::Healthy) == (next.status.issues@.len() == 0),
{
    let issues = views(next.status.issues@);
    assert forall|found: Seq<IssueView>| #[trigger]
        is_primary(now.config, m, registry, x, found) && issues == with_combined(
            found,
        ) implies all_count(issues) by {
        found_count(now.config, m, registry, x, found);
        combined_count(found);
    }
    counting(issues);
}

/// Whether an issue is of a severity.
pub open spec fn graded(issue: HealthIssue, s: Severity) -> bool {
    match issue {
        HealthIssue::FrameStale { severity, .. } => severity == s,
        HealthIssue::TickOverrun { severity, .. } => severity == s,
        HealthIssue::VisionSlow { severity, .. } => severity == s,
        HealthIssue::AnchorDrift { severity, .. } => severity == s,
        HealthIssue::LowDetectionConfidence { severity, .. } => severity == s,
        HealthIssue::BridgeRttHigh { severity, .. } => severity == s,
        HealthIssue::BridgeUnreachable { severity, .. } => severity == s,
        HealthIssue::ActionFailureRate { severity, .. } => severity == s,
        HealthIssue::HighJitter { severity, .. } => severity == s,
        HealthIssue::FrameSeqGap { severity, .. } => severity == s,
        HealthIssue::Composite { severity, .. } => severity == s,
    }
}

/// How many of the issues are of a severity.
pub open spec fn count_of(issues: Seq<HealthIssue>, s: Severity) -> nat {
    issues.filter(|i: HealthIssue| graded(i, s)).len()
}

proof fn weighing(issues: Seq<HealthIssue>)
    ensures
        score(views(issues)) == count_of(issues, Severity::Warning) + 4 * count_of(
            issues,
            Severity::Critical,
        ),
        (overall(views(issues)) == Severity::Critical) == (count_of(issues, Severity::Critical)
            > 0),
        (overall(views(issues)) == Severity::Healthy) == (count_of(issues, Severity::Critical) == 0
            && count_of(issues, Severity::Warning) == 0),
    decreases issues.len(),
{
    reveal(Seq::filter);
    if issues.len() > 0 {
        weighing(issues.drop_last());
        assert(views(issues).drop_last() =~= views(issues.drop_last()));
        assert(views(issues).last() == issues.last()@);
    }
}

/// The score of a tick is one for each of its warnings and four for each of its critical issues.
/// The tick is critical exactly if one of its issues is, and fine exactly if it has no issue.
pub proof fn the_score_weighs_the_issues(
    now: HealthSystem,
    m: TickMetrics,
    registry: &MetricsRegistry,
    x: ExtraInputs,
    now_ms: u64,
    next: HealthSystem,
)
    requires
        judged(&now, m, registry, x, now_ms, &next),
    ensures
        next.status.score == count_of(next.status.issues@, Severity::Warning) + 4 * count_of(
            next.status.issues@,
            Severity::Critical,
        ),
        (next.status.overall == Severity::Critical) == (count_of(
            next.status.issues@,
            Severity::Critical,
        ) > 0),
        (next.status.overall == Severity::Healthy) == (count_of(
            next.status.issues@,
            Severity::Critical,
        ) == 0 && count_of(next.status.issues@, Severity::Warning) == 0),
{
    weighing(next.status.issues@);
}

proof fn one_is_counted(issues: Seq<HealthIssue>, i: int, s: Severity)
    requires
        0 <= i < issues.len(),
        graded(issues[i], s),
    ensures
        count_of(issues, s) > 0,
    decreases issues.len(),
{
    reveal(Seq::filter);
    if i < issues.len() - 1 {
        one_is_counted(issues.drop_last(), i, s);
    }
}

/// Where four points call for the heavy level, as they do by default, a tick with a critical issue
/// never lowers the bot below it: it ends every recovery, a heavy or worse level stays or rises,
/// and a lower one stays or rises.
pub proof fn a_critical_issue_calls_for_the_heavy_level(
    now: HealthSystem,
    m: TickMetrics,
    registry: &MetricsRegistry,
    x: ExtraInputs,
    now_ms: u64,
    next: HealthSystem,
    i: int,
)
    requires
        judged(&now, m, registry, x, now_ms, &next),
        now.config.heavy_score_threshold <= 4,
        0 <= i < next.status.issues@.len(),
        graded(next.status.issues@[i], Severity::Critical),
    ensures
        next.status.score >= 4,
        called_for(now.config, next.status.score) == Some(DegradationLevel::Heavy) || called_for(
            now.config,
            next.status.score,
        ) == Some(DegradationLevel::SafeMode),
        now.current_degradation == Some(DegradationLevel::Heavy) ==> next.current_degradation
            == Some(DegradationLevel::Heavy) || next.current_degradation == Some(
            DegradationLevel::SafeMode,
        ),
        now.current_degradation is None ==> next.current_degradation is None
            || next.current_degradation == Some(DegradationLevel::Light),
        now.current_degradation == Some(DegradationLevel::Light) ==> next.current_degradation
            == Some(DegradationLevel::Light) || next.current_degradation == Some(
            DegradationLevel::Heavy,
        ),
        now.current_degradation != Some(DegradationLevel::SafeMode) ==> next.recovery_streak == 0,
        now.current_degradation is None && now.config.promote_streak <= 1
            ==> next.current_degradation == Some(DegradationLevel::Light),
{
    weighing(next.status.issues@);
    one_is_counted(next.status.issues@, i, Severity::Critical);
    assert(next.streaks().current == next.current_degradation);
    assert(next.streaks().recovery == next.recovery_streak);
}

/// The level that a tick calls for, by its score: safe mode from its threshold on, below it heavy
/// from its own, below that light, and none below all three. The level in force takes one step
/// towards it at most: up once the same higher level has been called for often enough in a row,
/// down once lower ones have been.
pub proof fn the_level_follows_the_score(
    now: HealthSystem,
    m: TickMetrics,
    registry: &MetricsRegistry,
    x: ExtraInputs,
    now_ms: u64,
    next: HealthSystem,
)
    requires
        judged(&now, m, registry, x, now_ms, &next),
        now.config.light_score_threshold <= now.config.heavy_score_threshold,
        now.config.heavy_score_threshold <= now.config.safe_score_threshold,
    ensures
        now.current_degradation is None && next.status.score < now.config.light_score_threshold
            ==> next.current_degradation is None && next.promote_streak == 0
            && next.recovery_streak == 0,
        now.current_degradation is None && next.status.score >= now.config.light_score_threshold
            && now.config.promote_streak <= now.promote_streak + 1 && now.promote_target == (
        if next.status.score >= now.config.safe_score_threshold {
            Some(DegradationLevel::SafeMode)
        } else if next.status.score >= now.config.heavy_score_threshold {
            Some(DegradationLevel::Heavy)
        } else {
            Some(DegradationLevel::Light)
        }) ==> next.current_degradation == Some(DegradationLevel::Light) && next.promote_streak
            == 0,
        now.current_degradation == Some(DegradationLevel::Light) && next.status.score
            >= now.config.safe_score_threshold && now.promote_target == Some(
            DegradationLevel::SafeMode,
        ) ==> if now.promote_streak + 1 >= now.config.promote_streak {
            next.current_degradation == Some(DegradationLevel::Heavy) && next.promote_streak == 0
        } else {
            next.current_degradation == Some(DegradationLevel::Light) && next.promote_streak
                == now.promote_streak + 1
        },
        now.current_degradation == Some(DegradationLevel::Heavy) && next.status.score
            >= now.config.safe_score_threshold && now.promote_target == Some(
            DegradationLevel::SafeMode,
        ) ==> if now.promote_streak + 1 >= now.config.promote_streak {
            next.current_degradation == Some(DegradationLevel::SafeMode)
        } else {
            next.current_degradation == Some(DegradationLevel::Heavy) && next.promote_streak
                == now.promote_streak + 1
        },
        now.current_degradation == Some(DegradationLevel::SafeMode) && next.status.score
            < now.config.safe_score_threshold ==> if now.recovery_streak + 1
            >= now.config.recovery_streak {
            next.current_degradation == Some(DegradationLevel::Heavy) && next.recovery_streak == 0
        } else {
            next.current_degradation == Some(DegradationLevel::SafeMode) && next.recovery_streak
                == now.recovery_streak + 1
        },
        now.current_degradation == Some(DegradationLevel::Heavy) && next.status.score
            < now.config.heavy_score_threshold ==> if now.recovery_streak + 1
            >= now.config.recovery_streak {
            next.current_degradation == Some(DegradationLevel::Light) && next.recovery_streak == 0
        } else {
            next.current_degradation == Some(DegradationLevel::Heavy) && next.recovery_streak
                == now.recovery_streak + 1
        },
        now.current_degradation == Some(DegradationLevel::Light) && next.status.score
            < now.config.light_score_threshold ==> if now.recovery_streak + 1
            >= now.config.recovery_streak {
            next.current_degradation is None && next.recovery_streak == 0
        } else {
            next.current_degradation == Some(DegradationLevel::Light) && next.recovery_streak
                == now.recovery_streak + 1
        },
        next.status.degraded == next.current_degradation,
{
    assert(next.streaks().current == next.current_degradation);
    assert(next.streaks().recovery == next.recovery_streak);
    assert(next.streaks().promote == next.promote_streak);
}

/// What each level lets through: everything where there is none; at the light level the slow
/// readers pause and run half as often; at the heavy one only emergencies pass; in safe mode
/// nothing does.
pub proof fn what_each_level_lets_through(d: Option<DegradationLevel>)
    ensures
        passes_normal(d) == !(d == Some(DegradationLevel::Heavy) || d == Some(
            DegradationLevel::SafeMode,
        )),
        passes_emergency(d) == !(d == Some(DegradationLevel::SafeMode)),
        passes_slow_reader(d) == (d is None),
        d is None ==> cadence(d) == 1,
        d == Some(DegradationLevel::Light) ==> cadence(d) == 2,
        d == Some(DegradationLevel::Heavy) ==> cadence(d) == 4,
        d == Some(DegradationLevel::SafeMode) ==> cadence(d) == 0xFFFF_FFFFu32,
{
    match d {
        None => {},
        Some(DegradationLevel::Light) => {},
        Some(DegradationLevel::Heavy) => {},
        Some(DegradationLevel::SafeMode) => {},
    }
}

proof fn with_one_more(a: Seq<IssueView>, b: Option<IssueView>, v: IssueView)
    ensures
        (a + listed(b)).contains(v) == (a.contains(v) || b == Some(v)),
{
    let s = a + listed(b);
    if s.contains(v) {
        let i = choose|i: int| 0 <= i < s.len() && s[i] == v;
        if i < a.len() {
            assert(a[i] == v);
        }
    }
    if a.contains(v) {
        let i = choose|i: int| 0 <= i < a.len() && a[i] == v;
        assert(s[i] == v);
    }
    if b == Some(v) {
        assert(s[a.len() as int] == v);
    }
}

proof fn found_issue(
    c: HealthConfig,
    m: TickMetrics,
    rate: Option<u64>,
    jitter: u32,
    gaps: u64,
    x: ExtraInputs,
    v: IssueView,
)
    ensures
        primary(c, m, rate, jitter, gaps, x).contains(v) == (frame_issue(c, m) == Some(v)
            || tick_issue(c, m) == Some(v) || vision_issue(c, m) == Some(v) || anchor_issue(
            c,
            m,
            x,
        ) == Some(v) || vitals_issue(c, m) == Some(v) || rtt_issue(c, x) == Some(v) || pong_issue(
            c,
            m,
            x,
        ) == Some(v) || heal_issue(c, rate) == Some(v) || jitter_issue(c, jitter) == Some(v)
            || gap_issue(c, gaps) == Some(v)),
{
    let z = Seq::<IssueView>::empty();
    let a = listed(frame_issue(c, m));
    assert(z + a =~= a);
    let b = a + listed(tick_issue(c, m));
    let d = b + listed(vision_issue(c, m));
    let e = d + listed(anchor_issue(c, m, x));
    let f = e + listed(vitals_issue(c, m));
    let g = f + listed(rtt_issue(c, x));
    let h = g + listed(pong_issue(c, m, x));
    let i = h + listed(heal_issue(c, rate));
    let j = i + listed(jitter_issue(c, jitter));
    with_one_more(z, frame_issue(c, m), v);
    with_one_more(a, tick_issue(c, m), v);
    with_one_more(b, vision_issue(c, m), v);
    with_one_more(d, anchor_issue(c, m, x), v);
    with_one_more(e, vitals_issue(c, m), v);
    with_one_more(f, rtt_issue(c, x), v);
    with_one_more(g, pong_issue(c, m, x), v);
    with_one_more(h, heal_issue(c, rate), v);
    with_one_more(i, jitter_issue(c, jitter), v);
    with_one_more(j, gap_issue(c, gaps), v);
}

proof fn any_issue(found: Seq<IssueView>, v: IssueView)
    ensures
        !(v is Composite) ==> with_combined(found).contains(v) == found.contains(v),
        v is Composite && with_combined(found).contains(v) ==> found.contains(v) || (
        any_anchor_lost(found) && any_frame_stale(found)) || (any_vision_slow(found) && any_jitter(
            found,
        )) || (any_rtt(found) && any_failure(found)),
{
    let one = combined(
        any_anchor_lost(found) && any_frame_stale(found),
        "blind_mode"@,
        "anchor_drift"@,
        "frame_stale"@,
    );
    let two = combined(
        any_vision_slow(found) && any_jitter(found),
        "compute_saturation"@,
        "vision_slow"@,
        "high_jitter"@,
    );
    let three = combined(
        any_rtt(found) && any_failure(found),
        "io_unreliable"@,
        "bridge_rtt_high"@,
        "action_failure_rate"@,
    );
    with_one_more(found, one, v);
    with_one_more(found + listed(one), two, v);
    with_one_more(found + listed(one) + listed(two), three, v);
}

/// Whether a status lists an issue.
pub open spec fn lists(s: HealthStatus, v: IssueView) -> bool {
    exists|i: int| 0 <= i < s.issues@.len() && (#[trigger] s.issues@[i])@ == v
}

proof fn listed_issue(
    now: HealthSystem,
    m: TickMetrics,
    registry: &MetricsRegistry,
    x: ExtraInputs,
    now_ms: u64,
    next: HealthSystem,
    v: IssueView,
) -> (jitter: u32)
    requires
        judged(&now, m, registry, x, now_ms, &next),
    ensures
        deviates(jitter, registry.tick_jitter.samples()),
        !(v is Composite) ==> lists(next.status, v) == (frame_issue(now.config, m) == Some(v)
            || tick_issue(now.config, m) == Some(v) || vision_issue(now.config, m) == Some(v)
            || anchor_issue(now.config, m, x) == Some(v) || vitals_issue(now.config, m) == Some(v)
            || rtt_issue(now.config, x) == Some(v) || pong_issue(now.config, m, x) == Some(v)
            || heal_issue(now.config, registry.success_rate(ActionKindTag::Heal)) == Some(v)
            || jitter_issue(now.config, jitter) == Some(v) || gap_issue(
            now.config,
            registry.frame_seq_gaps,
        ) == Some(v)),
{
    let issues = views(next.status.issues@);
    let found = choose|found: Seq<IssueView>| #[trigger]
        is_primary(now.config, m, registry, x, found) && issues == with_combined(found);
    let rate = registry.success_rate(ActionKindTag::Heal);
    let gaps = registry.frame_seq_gaps;
    let jitter = choose|jitter: u32| #[trigger]
        deviates(jitter, registry.tick_jitter.samples()) && found == primary(
            now.config,
            m,
            rate,
            jitter,
            gaps,
            x,
        );
    any_issue(found, v);
    found_issue(now.config, m, rate, jitter, gaps, x, v);
    if lists(next.status, v) {
        let i = choose|i: int|
            0 <= i < next.status.issues@.len() && (#[trigger] next.status.issues@[i])@ == v;
        assert(issues[i] == v);
    }
    if issues.contains(v) {
        let i = choose|i: int| 0 <= i < issues.len() && issues[i] == v;
        assert(next.status.issues@[i]@ == v);
    }
    jitter
}

/// A stale frame is listed exactly if the frame is as old as one of its limits, in full
/// milliseconds: as critical from the critical one on, with that limit, and as a warning between
/// the two.
pub proof fn a_frame_is_stale_by_its_age(
    now: HealthSystem,
    m: TickMetrics,
    registry: &MetricsRegistry,
    x: ExtraInputs,
    now_ms: u64,
    next: HealthSystem,
    v: IssueView,
)
    requires
        judged(&now, m, registry, x, now_ms, &next),
        v is FrameStale,
    ensures
        lists(next.status, v) == (if m.frame_age_us >= 1_000 * now.config.frame_age_critical_ms {
            v == (IssueView::FrameStale {
                age_ms: m.frame_age_us / 1_000,
                threshold_ms: now.config.frame_age_critical_ms,
                severity: Severity::Critical,
            })
        } else {
            m.frame_age_us >= 1_000 * now.config.frame_age_warning_ms && v == (
            IssueView::FrameStale {
                age_ms: m.frame_age_us / 1_000,
                threshold_ms: now.config.frame_age_warning_ms,
                severity: Severity::Warning,
            })
        }),
{
    let _ = listed_issue(now, m, registry, x, now_ms, next, v);
}

/// An overrun is listed exactly if the tick took as long as one of its limits.
pub proof fn a_tick_overruns_by_its_length(
    now: HealthSystem,
    m: TickMetrics,
    registry: &MetricsRegistry,
    x: ExtraInputs,
    now_ms: u64,
    next: HealthSystem,
    v: IssueView,
)
    requires
        judged(&now, m, registry, x, now_ms, &next),
        v is TickOverrun,
    ensures
        lists(next.status, v) == (if m.tick_total_us >= 1_000 * now.config.tick_critical_ms {
            v == (IssueView::TickOverrun {
                tick_ms: m.tick_total_us / 1_000,
                budget_ms: now.config.tick_critical_ms,
                severity: Severity::Critical,
            })
        } else {
            m.tick_total_us >= 1_000 * now.config.tick_warning_ms && v == (IssueView::TickOverrun {
                tick_ms: m.tick_total_us / 1_000,
                budget_ms: now.config.tick_warning_ms,
                severity: Severity::Warning,
            })
        }),
{
    let _ = listed_issue(now, m, registry, x, now_ms, next, v);
}

/// Slow vision is listed exactly if reading took as long as one of its limits.
pub proof fn vision_is_slow_by_its_length(
    now: HealthSystem,
    m: TickMetrics,
    registry: &MetricsRegistry,
    x: ExtraInputs,
    now_ms: u64,
    next: HealthSystem,
    v: IssueView,
)
    requires
        judged(&now, m, registry, x, now_ms, &next),
        v is VisionSlow,
    ensures
        lists(next.status, v) == (if m.vision_total_us >= 1_000 * now.config.vision_critical_ms {
            v == (IssueView::VisionSlow {
                vision_ms: m.vision_total_us / 1_000,
                threshold_ms: now.config.vision_critical_ms,
                severity: Severity::Critical,
            })
        } else {
            m.vision_total_us >= 1_000 * now.config.vision_warning_ms && v == (
            IssueView::VisionSlow {
                vision_ms: m.vision_total_us / 1_000,
                threshold_ms: now.config.vision_warning_ms,
                severity: Severity::Warning,
            })
        }),
{
    let _ = listed_issue(now, m, registry, x, now_ms, next, v);
}

/// Drifting anchors are listed only after as many such ticks in a row as the limit asks for: as
/// critical where the tick lost all of them, as a warning where it found them at odds.
pub proof fn anchors_drift_by_their_flags(
    now: HealthSystem,
    m: TickMetrics,
    registry: &MetricsRegistry,
    x: ExtraInputs,
    now_ms: u64,
    next: HealthSystem,
    v: IssueView,
)
    requires
        judged(&now, m, registry, x, now_ms, &next),
        v is AnchorDrift,
    ensures
        x.anchor_drift_streak < now.config.anchor_drift_streak_min ==> !lists(next.status, v),
        x.anchor_drift_streak >= now.config.anchor_drift_streak_min ==> lists(next.status, v) == (
        if m.flags.contains(TickFlags::anchor_lost()) {
            v == (IssueView::AnchorDrift {
                status: DriftStatus::AllLost,
                valid: m.valid_anchors,
                total: m.total_anchors,
                severity: Severity::Critical,
            })
        } else {
            m.flags.contains(TickFlags::anchor_drift_warn()) && v == (IssueView::AnchorDrift {
                status: DriftStatus::Inconsistent,
                valid: m.valid_anchors,
                total: m.total_anchors,
                severity: Severity::Warning,
            })
        }),
{
    let _ = listed_issue(now, m, registry, x, now_ms, next, v);
}

/// Doubtful vitals are listed exactly if the confidence of the tick, in basis points, is below one
/// of its limits.
pub proof fn vitals_are_doubted_by_their_confidence(
    now: HealthSystem,
    m: TickMetrics,
    registry: &MetricsRegistry,
    x: ExtraInputs,
    now_ms: u64,
    next: HealthSystem,
    v: IssueView,
)
    requires
        judged(&now, m, registry, x, now_ms, &next),
        v is LowDetectionConfidence,
    ensures
        lists(next.status, v) == (if 100 * m.vitals_confidence_bp
            < now.config.vitals_conf_critical {
            v == (IssueView::LowDetectionConfidence {
                field: "vitals"@,
                confidence: (100 * m.vitals_confidence_bp) as u32,
                threshold: now.config.vitals_conf_critical,
                severity: Severity::Critical,
            })
        } else {
            100 * m.vitals_confidence_bp < now.config.vitals_conf_warning && v == (
            IssueView::LowDetectionConfidence {
                field: "vitals"@,
                confidence: (100 * m.vitals_confidence_bp) as u32,
                threshold: now.config.vitals_conf_warning,
                severity: Severity::Warning,
            })
        }),
{
    let _ = listed_issue(now, m, registry, x, now_ms, next, v);
}

/// A slow bridge is listed exactly if its last round trip took as long as one of its limits; none
/// where there was no round trip.
pub proof fn the_bridge_is_slow_by_its_round_trip(
    now: HealthSystem,
    m: TickMetrics,
    registry: &MetricsRegistry,
    x: ExtraInputs,
    now_ms: u64,
    next: HealthSystem,
    v: IssueView,
)
    requires
        judged(&now, m, registry, x, now_ms, &next),
        v is BridgeRttHigh,
    ensures
        x.bridge_rtt_ms is None ==> !lists(next.status, v),
        x.bridge_rtt_ms matches Some(rtt_ms) ==> lists(next.status, v) == (if rtt_ms
            >= now.config.bridge_rtt_critical_ms {
            v == (IssueView::BridgeRttHigh {
                rtt_ms,
                threshold_ms: now.config.bridge_rtt_critical_ms,
                severity: Severity::Critical,
            })
        } else {
            rtt_ms >= now.config.bridge_rtt_warning_ms && v == (IssueView::BridgeRttHigh {
                rtt_ms,
                threshold_ms: now.config.bridge_rtt_warning_ms,
                severity: Severity::Warning,
            })
        }),
{
    let _ = listed_issue(now, m, registry, x, now_ms, next, v);
}

/// A silent bridge is listed exactly if its last answer is as long ago as one of its limits, after
/// the first ten seconds of thirty ticks, and unless it never answered.
pub proof fn the_bridge_is_lost_by_its_silence(
    now: HealthSystem,
    m: TickMetrics,
    registry: &MetricsRegistry,
    x: ExtraInputs,
    now_ms: u64,
    next: HealthSystem,
    v: IssueView,
)
    requires
        judged(&now, m, registry, x, now_ms, &next),
        v is BridgeUnreachable,
    ensures
        m.tick <= 300 || x.bridge_last_pong_ms_ago == u32::MAX ==> !lists(next.status, v),
        m.tick > 300 && x.bridge_last_pong_ms_ago != u32::MAX ==> lists(next.status, v) == (
        if x.bridge_last_pong_ms_ago >= now.config.bridge_pong_critical_ms {
            v == (IssueView::BridgeUnreachable {
                last_pong_ms_ago: x.bridge_last_pong_ms_ago,
                severity: Severity::Critical,
            })
        } else {
            x.bridge_last_pong_ms_ago >= now.config.bridge_pong_warning_ms && v == (
            IssueView::BridgeUnreachable {
                last_pong_ms_ago: x.bridge_last_pong_ms_ago,
                severity: Severity::Warning,
            })
        }),
{
    let _ = listed_issue(now, m, registry, x, now_ms, next, v);
}

/// Failing heals are listed exactly if their rate of success is below one of its limits; none where
/// no heal has ended. No other kind of action is listed.
pub proof fn heals_fail_by_their_rate(
    now: HealthSystem,
    m: TickMetrics,
    registry: &MetricsRegistry,
    x: ExtraInputs,
    now_ms: u64,
    next: HealthSystem,
    v: IssueView,
)
    requires
        judged(&now, m, registry, x, now_ms, &next),
        v is ActionFailureRate,
    ensures
        registry.success_rate(ActionKindTag::Heal) is None ==> !lists(next.status, v),
        registry.success_rate(ActionKindTag::Heal) matches Some(rate) ==> lists(next.status, v)
            == (if rate < now.config.action_rate_critical {
            v == (IssueView::ActionFailureRate {
                action_kind: "heal"@,
                success_rate: rate,
                threshold: now.config.action_rate_critical,
                severity: Severity::Critical,
            })
        } else {
            rate < now.config.action_rate_warning && v == (IssueView::ActionFailureRate {
                action_kind: "heal"@,
                success_rate: rate,
                threshold: now.config.action_rate_warning,
                severity: Severity::Warning,
            })
        }),
{
    let _ = listed_issue(now, m, registry, x, now_ms, next, v);
}

/// Jitter that is listed is the deviation of the latest ticks, and at least as large as the limit
/// that is listed with it; where every deviation of theirs is below both limits, none is listed.
pub proof fn ticks_jitter_by_their_deviation(
    now: HealthSystem,
    m: TickMetrics,
    registry: &MetricsRegistry,
    x: ExtraInputs,
    now_ms: u64,
    next: HealthSystem,
    v: IssueView,
)
    requires
        judged(&now, m, registry, x, now_ms, &next),
        v is HighJitter,
    ensures
        exists|us: u32| #[trigger]
            deviates(us, registry.tick_jitter.samples()) && lists(next.status, v) == (if us
                >= now.config.jitter_critical_us {
                v == (IssueView::HighJitter {
                    stddev_us: us,
                    threshold_us: now.config.jitter_critical_us,
                    severity: Severity::Critical,
                })
            } else {
                us >= now.config.jitter_warning_us && v == (IssueView::HighJitter {
                    stddev_us: us,
                    threshold_us: now.config.jitter_warning_us,
                    severity: Severity::Warning,
                })
            }),
{
    let us: u32 = listed_issue(now, m, registry, x, now_ms, next, v);
    assert(deviates(us, registry.tick_jitter.samples()));
}

/// Gaps between frames are listed exactly if there were as many as one of their limits.
pub proof fn frames_are_missed_by_their_gaps(
    now: HealthSystem,
    m: TickMetrics,
    registry: &MetricsRegistry,
    x: ExtraInputs,
    now_ms: u64,
    next: HealthSystem,
    v: IssueView,
)
    requires
        judged(&now, m, registry, x, now_ms, &next),
        v is FrameSeqGap,
    ensures
        lists(next.status, v) == (if registry.frame_seq_gaps
            >= now.config.frame_seq_gap_critical {
            v == (IssueView::FrameSeqGap {
                gaps_total: registry.frame_seq_gaps,
                severity: Severity::Critical,
            })
        } else {
            registry.frame_seq_gaps >= now.config.frame_seq_gap_warning && v == (
            IssueView::FrameSeqGap {
                gaps_total: registry.frame_seq_gaps,
                severity: Severity::Warning,
            })
        }),
{
    let _ = listed_issue(now, m, registry, x, now_ms, next, v);
}

/// Whether a status lists an issue of a kind.
pub open spec fn shows(s: HealthStatus, of_kind: spec_fn(HealthIssue) -> bool) -> bool {
    exists|i: int| 0 <= i < s.issues@.len() && #[trigger] of_kind(s.issues@[i])
}

proof fn place_of(found: Seq<IssueView>, i: int)
    requires
        0 <= i < with_combined(found).len(),
    ensures
        i < found.len() ==> with_combined(found)[i] == found[i],
        i >= found.len() ==> with_combined(found)[i] is Composite,
        found.len() <= with_combined(found).len(),
{
    let one = listed(
        combined(
            any_anchor_lost(found) && any_frame_stale(found),
            "blind_mode"@,
            "anchor_drift"@,
            "frame_stale"@,
        ),
    );
    let two = listed(
        combined(
            any_vision_slow(found) && any_jitter(found),
            "compute_saturation"@,
            "vision_slow"@,
            "high_jitter"@,
        ),
    );
    let three = listed(
        combined(
            any_rtt(found) && any_failure(found),
            "io_unreliable"@,
            "bridge_rtt_high"@,
            "action_failure_rate"@,
        ),
    );
    assert(with_combined(found) == found + one + two + three);
    if i >= found.len() + one.len() + two.len() {
        assert(with_combined(found)[i] == three[i - found.len() - one.len() - two.len()]);
    } else if i >= found.len() + one.len() {
        assert(with_combined(found)[i] == two[i - found.len() - one.len()]);
    } else if i >= found.len() {
        assert(with_combined(found)[i] == one[i - found.len()]);
    }
}

proof fn shown_kind(
    s: HealthStatus,
    found: Seq<IssueView>,
    f: spec_fn(HealthIssue) -> bool,
    g: spec_fn(IssueView) -> bool,
)
    requires
        views(s.issues@) == with_combined(found),
        forall|i: HealthIssue| #[trigger] f(i) == g(i@),
        forall|v: IssueView| v is Composite ==> !#[trigger] g(v),
    ensures
        shows(s, f) == exists|k: int| 0 <= k < found.len() && g(#[trigger] found[k]),
{
    let all = views(s.issues@);
    if shows(s, f) {
        let i = choose|i: int| 0 <= i < s.issues@.len() && #[trigger] f(s.issues@[i]);
        place_of(found, i);
        assert(all[i] == s.issues@[i]@);
        assert(g(all[i]));
        assert(g(found[i]));
    }
    if exists|k: int| 0 <= k < found.len() && g(#[trigger] found[k]) {
        let k = choose|k: int| 0 <= k < found.len() && g(#[trigger] found[k]);
        assert(found.len() <= all.len());
        place_of(found, k);
        assert(all[k] == s.issues@[k]@);
        assert(f(s.issues@[k]));
    }
}

proof fn shown_is_found(s: HealthStatus, found: Seq<IssueView>)
    requires
        views(s.issues@) == with_combined(found),
    ensures
        shows(s, |i: HealthIssue| i is AnchorDrift && graded(i, Severity::Critical))
            == any_anchor_lost(found),
        shows(s, |i: HealthIssue| i is FrameStale) == any_frame_stale(found),
        shows(s, |i: HealthIssue| i is VisionSlow) == any_vision_slow(found),
        shows(s, |i: HealthIssue| i is HighJitter) == any_jitter(found),
        shows(s, |i: HealthIssue| i is BridgeRttHigh) == any_rtt(found),
        shows(s, |i: HealthIssue| i is ActionFailureRate) == any_failure(found),
{
    shown_kind(
        s,
        found,
        |i: HealthIssue| i is AnchorDrift && graded(i, Severity::Critical),
        |v: IssueView| v is AnchorDrift && v.severity() == Severity::Critical,
    );
    shown_kind(s, found, |i: HealthIssue| i is FrameStale, |v: IssueView| v is FrameStale);
    shown_kind(s, found, |i: HealthIssue| i is VisionSlow, |v: IssueView| v is VisionSlow);
    shown_kind(s, found, |i: HealthIssue| i is HighJitter, |v: IssueView| v is HighJitter);
    shown_kind(s, found, |i: HealthIssue| i is BridgeRttHigh, |v: IssueView| v is BridgeRttHigh);
    shown_kind(
        s,
        found,
        |i: HealthIssue| i is ActionFailureRate,
        |v: IssueView| v is ActionFailureRate,
    );
}

/// Lost anchors on a stale frame are blindness, slow vision with jitter is a saturated machine,
/// and a slow bridge with failing heals is unreliable input and output. Each of the three is
/// listed as a critical issue exactly if both of its causes are, and no other composite issue is.
pub proof fn two_causes_make_a_composite(
    now: HealthSystem,
    m: TickMetrics,
    registry: &MetricsRegistry,
    x: ExtraInputs,
    now_ms: u64,
    next: HealthSystem,
    v: IssueView,
)
    requires
        judged(&now, m, registry, x, now_ms, &next),
        v is Composite,
    ensures
        lists(next.status, v) == ({
            ||| v == (IssueView::Composite {
                name: "blind_mode"@,
                causes: seq!["anchor_drift"@, "frame_stale"@],
                severity: Severity::Critical,
            }) && shows(
                next.status,
                |i: HealthIssue| i is AnchorDrift && graded(i, Severity::Critical),
            ) && shows(next.status, |i: HealthIssue| i is FrameStale)
            ||| v == (IssueView::Composite {
                name: "compute_saturation"@,
                causes: seq!["vision_slow"@, "high_jitter"@],
                severity: Severity::Critical,
            }) && shows(next.status, |i: HealthIssue| i is VisionSlow) && shows(
                next.status,
                |i: HealthIssue| i is HighJitter,
            )
            ||| v == (IssueView::Composite {
                name: "io_unreliable"@,
                causes: seq!["bridge_rtt_high"@, "action_failure_rate"@],
                severity: Severity::Critical,
            }) && shows(next.status, |i: HealthIssue| i is BridgeRttHigh) && shows(
                next.status,
                |i: HealthIssue| i is ActionFailureRate,
            )
        }),
{
    let issues = views(next.status.issues@);
    let found = choose|found: Seq<IssueView>| #[trigger]
        is_primary(now.config, m, registry, x, found) && issues == with_combined(found);
    let rate = registry.success_rate(ActionKindTag::Heal);
    let gaps = registry.frame_seq_gaps;
    let jitter = choose|jitter: u32| #[trigger]
        deviates(jitter, registry.tick_jitter.samples()) && found == primary(
            now.config,
            m,
            rate,
            jitter,
            gaps,
            x,
        );
    found_issue(now.config, m, rate, jitter, gaps, x, v);
    assert(!found.contains(v));
    shown_is_found(next.status, found);
    let one = combined(
        any_anchor_lost(found) && any_frame_stale(found),
        "blind_mode"@,
        "anchor_drift"@,
        "frame_stale"@,
    );
    let two = combined(
        any_vision_slow(found) && any_jitter(found),
        "compute_saturation"@,
        "vision_slow"@,
        "high_jitter"@,
    );
    let three = combined(
        any_rtt(found) && any_failure(found),
        "io_unreliable"@,
        "bridge_rtt_high"@,
        "action_failure_rate"@,
    );
    with_one_more(found, one, v);
    with_one_more(found + listed(one), two, v);
    with_one_more(found + listed(one) + listed(two), three, v);
    if lists(next.status, v) {
        let i = choose|i: int|
            0 <= i < next.status.issues@.len() && (#[trigger] next.status.issues@[i])@ == v;
        assert(issues[i] == v);
    }
    if issues.contains(v) {
        let i = choose|i: int| 0 <= i < issues.len() && issues[i] == v;
        assert(next.status.issues@[i]@ == v);
    }
}

/// The summary of a tick without issues says so. That of any other begins with how bad it is, then
/// gives the score and the level in force, and then names every issue, each after a comma but the
/// first.
pub proof fn the_summary_names_the_issues(
    now: HealthSystem,
    m: TickMetrics,
    registry: &MetricsRegistry,
    x: ExtraInputs,
    now_ms: u64,
    next: HealthSystem,
)
    requires
        judged(&now, m, registry, x, now_ms, &next),
    ensures
        next.status.issues@.len() == 0 ==> next.status.summary@ == "ok (score=0)"@,
        next.status.issues@.len() > 0 && next.status.overall == Severity::Warning
            ==> next.status.summary@ == "warning"@ + " (score="@ + decimal(
            next.status.score as nat,
        ) + ", degraded="@ + (match next.status.degraded {
            None => "none"@,
            Some(DegradationLevel::Light) => "light"@,
            Some(DegradationLevel::Heavy) => "heavy"@,
            Some(DegradationLevel::SafeMode) => "safe_mode"@,
        }) + ", issues=["@ + names(views(next.status.issues@)) + "])"@,
        next.status.issues@.len() > 0 && next.status.overall == Severity::Critical
            ==> next.status.summary@ == "critical"@ + " (score="@ + decimal(
            next.status.score as nat,
        ) + ", degraded="@ + (match next.status.degraded {
            None => "none"@,
            Some(DegradationLevel::Light) => "light"@,
            Some(DegradationLevel::Heavy) => "heavy"@,
            Some(DegradationLevel::SafeMode) => "safe_mode"@,
        }) + ", issues=["@ + names(views(next.status.issues@)) + "])"@,
        next.status.tick == m.tick,
        next.status.frame_seq == m.frame_seq,
        next.status.generated_at_ms == now_ms,
        next.last_anchor_drift_streak == x.anchor_drift_streak,
        next.config == now.config,
{
}

/// The names of two lists of issues, one after the other, are those of the first and those of the
/// second with a comma between them; one issue is named by its kind, a composite one by its own
/// name.
pub proof fn names_are_joined_by_commas(a: Seq<IssueView>, b: Seq<IssueView>)
    requires
        a.len() > 0,
        b.len() > 0,
    ensures
        names(a + b) == names(a) + ","@ + names(b),
        b.len() == 1 ==> names(b) == (match b[0] {
            IssueView::FrameStale { .. } => "frame_stale"@,
            IssueView::TickOverrun { .. } => "tick_overrun"@,
            IssueView::VisionSlow { .. } => "vision_slow"@,
            IssueView::AnchorDrift { .. } => "anchor_drift"@,
            IssueView::LowDetectionConfidence { .. } => "low_detection_confidence"@,
            IssueView::BridgeRttHigh { .. } => "bridge_rtt_high"@,
            IssueView::BridgeUnreachable { .. } => "bridge_unreachable"@,
            IssueView::ActionFailureRate { .. } => "action_failure_rate"@,
            IssueView::HighJitter { .. } => "high_jitter"@,
            IssueView::FrameSeqGap { .. } => "frame_seq_gap"@,
            IssueView::Composite { name, .. } => name,
        }),
    decreases b.len(),
{
    let all = a + b;
    if b.len() == 1 {
        assert(all.drop_last() =~= a);
        assert(all.last() == b[0]);
    } else {
        assert(all.drop_last() =~= a + b.drop_last());
        assert(all.last() == b.last());
        names_are_joined_by_commas(a, b.drop_last());
        assert(names(all) =~= names(a) + ","@ + names(b));
    }
}

/// The place of an issue's kind in the order of the checks.
pub open spec fn place_of_kind(v: IssueView) -> int {
    match v {
        IssueView::FrameStale { .. } => 0,
        IssueView::TickOverrun { .. } => 1,
        IssueView::VisionSlow { .. } => 2,
        IssueView::AnchorDrift { .. } => 3,
        IssueView::LowDetectionConfidence { .. } => 4,
        IssueView::BridgeRttHigh { .. } => 5,
        IssueView::BridgeUnreachable { .. } => 6,
        IssueView::ActionFailureRate { .. } => 7,
        IssueView::HighJitter { .. } => 8,
        IssueView::FrameSeqGap { .. } => 9,
        IssueView::Composite { .. } => 10,
    }
}

/// Whether issues stand in the order of the checks, with no kind twice before the composite ones.
pub open spec fn in_order(issues: Seq<IssueView>) -> bool {
    forall|i: int, j: int|
        0 <= i < j < issues.len() ==> place_of_kind(#[trigger] issues[i]) < place_of_kind(
            #[trigger] issues[j],
        ) || (issues[i] is Composite && issues[j] is Composite)
}

spec fn ends_before(issues: Seq<IssueView>, place: int) -> bool {
    in_order(issues) && forall|i: int|
        0 <= i < issues.len() ==> place_of_kind(#[trigger] issues[i]) < place
}

proof fn one_more_in_order(a: Seq<IssueView>, b: Option<IssueView>, place: int)
    requires
        ends_before(a, place),
        b matches Some(v) ==> place_of_kind(v) == place,
    ensures
        ends_before(a + listed(b), place + 1),
{
    let s = a + listed(b);
    assert forall|i: int| 0 <= i < s.len() implies place_of_kind(#[trigger] s[i]) < place + 1 by {
        if i < a.len() {
            assert(s[i] == a[i]);
        }
    }
    assert forall|i: int, j: int| 0 <= i < j < s.len() implies place_of_kind(#[trigger] s[i])
        < place_of_kind(#[trigger] s[j]) || (s[i] is Composite && s[j] is Composite) by {
        assert(s[i] == a[i]);
        if j < a.len() {
            assert(s[j] == a[j]);
        }
    }
}

proof fn found_in_order(
    c: HealthConfig,
    m: TickMetrics,
    rate: Option<u64>,
    jitter: u32,
    gaps: u64,
    x: ExtraInputs,
)
    ensures
        ends_before(primary(c, m, rate, jitter, gaps, x), 10),
{
    let z = Seq::<IssueView>::empty();
    let a = listed(frame_issue(c, m));
    assert(z + a =~= a);
    let b = a + listed(tick_issue(c, m));
    let d = b + listed(vision_issue(c, m));
    let e = d + listed(anchor_issue(c, m, x));
    let f = e + listed(vitals_issue(c, m));
    let g = f + listed(rtt_issue(c, x));
    let h = g + listed(pong_issue(c, m, x));
    let i = h + listed(heal_issue(c, rate));
    let j = i + listed(jitter_issue(c, jitter));
    one_more_in_order(z, frame_issue(c, m), 0);
    one_more_in_order(a, tick_issue(c, m), 1);
    one_more_in_order(b, vision_issue(c, m), 2);
    one_more_in_order(d, anchor_issue(c, m, x), 3);
    one_more_in_order(e, vitals_issue(c, m), 4);
    one_more_in_order(f, rtt_issue(c, x), 5);
    one_more_in_order(g, pong_issue(c, m, x), 6);
    one_more_in_order(h, heal_issue(c, rate), 7);
    one_more_in_order(i, jitter_issue(c, jitter), 8);
    one_more_in_order(j, gap_issue(c, gaps), 9);
}

proof fn combined_in_order(found: Seq<IssueView>)
    requires
        ends_before(found, 10),
    ensures
        in_order(with_combined(found)),
{
    let issues = with_combined(found);
    assert forall|p: int, q: int| 0 <= p < q < issues.len() implies place_of_kind(
        #[trigger] issues[p],
    ) < place_of_kind(#[trigger] issues[q]) || (issues[p] is Composite && issues[q] is Composite) by {
        place_of(found, p);
        place_of(found, q);
        if q < found.len() {
            assert(place_of_kind(found[p]) < place_of_kind(found[q]));
        } else if p < found.len() {
            assert(place_of_kind(found[p]) < 10);
        }
    }
}

/// The issues of a tick stand in the order of the checks: those of single signals first, each kind
/// once at most, and then those that are made of others.
pub proof fn issues_stand_in_the_order_of_the_checks(
    now: HealthSystem,
    m: TickMetrics,
    registry: &MetricsRegistry,
    x: ExtraInputs,
    now_ms: u64,
    next: HealthSystem,
)
    requires
        judged(&now, m, registry, x, now_ms, &next),
    ensures
        in_order(views(next.status.issues@)),
{
    let c = now.config;
    let found = choose|found: Seq<IssueView>| #[trigger]
        is_primary(c, m, registry, x, found) && views(next.status.issues@) == with_combined(found);
    let rate = registry.success_rate(ActionKindTag::Heal);
    let gaps = registry.frame_seq_gaps;
    let jitter = choose|jitter: u32| #[trigger]
        deviates(jitter, registry.tick_jitter.samples()) && found == primary(
            c,
            m,
            rate,
            jitter,
            gaps,
            x,
        );
    found_in_order(c, m, rate, jitter, gaps, x);
    combined_in_order(found);
}

/// A tick that calls for a higher level than the ones before it starts a streak of its own, and
/// any tick that calls for a higher level ends a recovery; one that calls for a lower level ends
/// a climb.
pub proof fn a_new_target_starts_its_own_streak(
    c: HealthConfig,
    s: Streaks,
    target: Option<DegradationLevel>,
)
    requires
        c.promote_streak > 1,
        c.recovery_streak > 1,
        s.recovery >= 0,
        s.promote >= 0,
    ensures
        target == Some(DegradationLevel::SafeMode) && s.current is None && s.target == Some(
            DegradationLevel::Light,
        ) ==> advanced(c, s, target).1 is None && advanced(c, s, target).0.promote == 1 && advanced(
            c,
            s,
            target,
        ).0.target == target && advanced(c, s, target).0.recovery == 0,
        target == Some(DegradationLevel::SafeMode) && s.current is None && s.target == target
            && s.promote + 1 < c.promote_streak ==> advanced(c, s, target).0.promote == s.promote + 1
            && advanced(c, s, target).1 is None,
        target is None && s.current == Some(DegradationLevel::Heavy) ==> advanced(
            c,
            s,
            target,
        ).0.promote == 0 && advanced(c, s, target).0.target is None,
        target is None && s.current == Some(DegradationLevel::Heavy) && s.recovery + 1
            < c.recovery_streak ==> advanced(c, s, target).0.recovery == s.recovery + 1 && advanced(
            c,
            s,
            target,
        ).1 == s.current,
        target is None && s.current == Some(DegradationLevel::Heavy) && s.recovery + 1
            >= c.recovery_streak ==> advanced(c, s, target).1 == Some(DegradationLevel::Light),
        target == s.current ==> advanced(c, s, target).1 == s.current && advanced(
            c,
            s,
            target,
        ).0.promote == 0 && advanced(c, s, target).0.recovery == 0,
{
}

} // verus!
