//! The metrics as text, in the format that monitoring systems scrape.

use vstd::prelude::*;
use vstd::string::*;

use crate::fsm::FsmState;
use crate::health::system::{cmp_level, level};
use crate::health::{HealthIssue, HealthStatus, Severity};
use crate::instrumentation::registry::MetricsRegistry;
use crate::perception::{ItemCount, MatcherStats, Perception};
use crate::state::{CavebotSnapshot, GameState, Metrics};
use crate::text::{
    alphanumeric, ascii_alphanumeric, chars_of, decimal, hundredths, millionths, nearest,
    nearest_of, push_decimal, push_hundredths, push_millionths, push_thousandths, same, thousandths,
};
use crate::units::Ppm;

verus! {

/// The description of a metric.
pub open spec fn heading(name: Seq<char>, help: Seq<char>, kind: Seq<char>) -> Seq<char> {
    "# HELP "@ + name + " "@ + help + "\n# TYPE "@ + name + " "@ + kind + "\n"@
}

/// One value of a metric.
pub open spec fn sample(name: Seq<char>, value: Seq<char>) -> Seq<char> {
    name + " "@ + value + "\n"@
}

/// One value of a metric, under a label.
pub open spec fn labelled(
    name: Seq<char>,
    key: Seq<char>,
    label: Seq<char>,
    value: Seq<char>,
) -> Seq<char> {
    name + "{"@ + key + "=\""@ + label + "\"} "@ + value + "\n"@
}

/// A metric with one value.
pub open spec fn single(
    name: Seq<char>,
    help: Seq<char>,
    kind: Seq<char>,
    value: Seq<char>,
) -> Seq<char> {
    heading(name, help, kind) + sample(name, value)
}

/// The number of a condition: 1 if it holds.
pub open spec fn flag(b: bool) -> nat {
    if b {
        1
    } else {
        0
    }
}

/// A character as it stands in a label: letters, digits and underscores stay, and colons where
/// they may; every other character becomes an underscore.
pub open spec fn label_char(c: char, colons: bool) -> char {
    if alphanumeric(c) || c == '_' || (colons && c == ':') {
        c
    } else {
        '_'
    }
}

/// A text as it stands in a label.
pub open spec fn label_text(s: Seq<char>, colons: bool) -> Seq<char> {
    Seq::new(s.len(), |i: int| label_char(s[i], colons))
}

fn push_heading(out: &mut String, name: &str, help: &str, kind: &str)
    ensures
        final(out)@ == old(out)@ + heading(name@, help@, kind@),
{
    out.append("# HELP ");
    out.append(name);
    out.append(" ");
    out.append(help);
    out.append("\n# TYPE ");
    out.append(name);
    out.append(" ");
    out.append(kind);
    out.append("\n");
    assert(out@ =~= old(out)@ + heading(name@, help@, kind@));
}

fn push_sample(out: &mut String, name: &str, value: u64)
    ensures
        final(out)@ == old(out)@ + sample(name@, decimal(value as nat)),
{
    out.append(name);
    out.append(" ");
    push_decimal(out, value);
    out.append("\n");
    assert(out@ =~= old(out)@ + sample(name@, decimal(value as nat)));
}

fn push_single(out: &mut String, name: &str, help: &str, kind: &str, value: u64)
    ensures
        final(out)@ == old(out)@ + single(name@, help@, kind@, decimal(value as nat)),
{
    push_heading(out, name, help, kind);
    push_sample(out, name, value);
    assert(out@ =~= old(out)@ + single(name@, help@, kind@, decimal(value as nat)));
}

fn push_labelled(out: &mut String, name: &str, key: &str, label: &str, value: u64)
    ensures
        final(out)@ == old(out)@ + labelled(name@, key@, label@, decimal(value as nat)),
{
    out.append(name);
    out.append("{");
    out.append(key);
    out.append("=\"");
    out.append(label);
    out.append("\"} ");
    push_decimal(out, value);
    out.append("\n");
    assert(out@ =~= old(out)@ + labelled(name@, key@, label@, decimal(value as nat)));
}

/// A time of the loop in milliseconds.
pub open spec fn millis_text(nanos: u64) -> Seq<char> {
    hundredths(nearest(nanos as int, 10_000) as nat)
}

fn push_millis(out: &mut String, name: &str, help: &str, nanos: u64)
    ensures
        final(out)@ == old(out)@ + single(name@, help@, "gauge"@, millis_text(nanos)),
{
    push_heading(out, name, help, "gauge");
    out.append(name);
    out.append(" ");
    push_hundredths(out, nearest_of(nanos, 10_000));
    out.append("\n");
    assert(out@ =~= old(out)@ + single(name@, help@, "gauge"@, millis_text(nanos)));
}

/// A ratio with three decimals.
pub open spec fn ratio_text(ratio: Ppm) -> Seq<char> {
    thousandths(nearest(ratio as int, 1_000) as nat)
}

fn push_ratio(out: &mut String, name: &str, help: &str, ratio: Ppm)
    ensures
        final(out)@ == old(out)@ + single(name@, help@, "gauge"@, ratio_text(ratio)),
{
    push_heading(out, name, help, "gauge");
    out.append(name);
    out.append(" ");
    push_thousandths(out, nearest_of(ratio as u64, 1_000));
    out.append("\n");
    assert(out@ =~= old(out)@ + single(name@, help@, "gauge"@, ratio_text(ratio)));
}

/// A number of thousandths, as a gauge.
fn push_thousandths_gauge(out: &mut String, name: &str, help: &str, n: u64)
    ensures
        final(out)@ == old(out)@ + single(name@, help@, "gauge"@, thousandths(n as nat)),
{
    push_heading(out, name, help, "gauge");
    out.append(name);
    out.append(" ");
    push_thousandths(out, n);
    out.append("\n");
    assert(out@ =~= old(out)@ + single(name@, help@, "gauge"@, thousandths(n as nat)));
}

/// A number of millionths, as a gauge.
fn push_millionths_gauge(out: &mut String, name: &str, help: &str, n: u64)
    ensures
        final(out)@ == old(out)@ + single(name@, help@, "gauge"@, millionths(n as nat)),
{
    push_heading(out, name, help, "gauge");
    out.append(name);
    out.append(" ");
    push_millionths(out, n);
    out.append("\n");
    assert(out@ =~= old(out)@ + single(name@, help@, "gauge"@, millionths(n as nat)));
}

/// Whether an ASCII character can stand in a label.
pub open spec fn is_safe(c: char, colons: bool) -> bool {
    (c as u32) < 128 ==> ascii_alphanumeric(c) || c == '_' || (colons && c == ':')
}

/// A text as it stands in a label. Nothing that would end the label survives.
pub fn sanitize_label(s: &str, colons: bool) -> (r: String)
    ensures
        r@ == label_text(s@, colons),
        forall|i: int| 0 <= i < r@.len() ==> is_safe(#[trigger] r@[i], colons),
{
    let v: Vec<char> = chars_of(s);
    let mut r = String::new();
    let mut i: usize = 0;
    while i < v.len()
        invariant
            i <= v@.len(),
            v@ == s@,
            r@ == label_text(s@, colons).take(i as int),
            forall|j: int| 0 <= j < i ==> is_safe(#[trigger] r@[j], colons),
        decreases v@.len() - i,
    {
        let c: char = v[i];
        if c.is_alphanumeric() || c == '_' || (colons && c == ':') {
            r.push(c);
        } else {
            r.push('_');
        }
        i = i + 1;
        assert(r@ =~= label_text(s@, colons).take(i as int));
    }
    assert(label_text(s@, colons).take(i as int) =~= label_text(s@, colons));
    r
}

fn number(b: bool) -> (r: u64)
    ensures
        r == flag(b),
{
    if b {
        1
    } else {
        0
    }
}

/// The metrics of the loop.
pub open spec fn loop_text(m: Metrics) -> Seq<char> {
    single(
        "tibia_bot_ticks_total"@,
        "Total ticks processed"@,
        "counter"@,
        decimal(m.ticks_total as nat),
    )
        + single(
            "tibia_bot_ticks_overrun_total"@,
            "Ticks that exceeded budget"@,
            "counter"@,
            decimal(m.ticks_overrun as nat),
        )
        + single(
            "tibia_bot_ndi_latency_ms"@,
            "NDI capture latency (rolling avg)"@,
            "gauge"@,
            millis_text(m.ndi_latency),
        )
        + single(
            "tibia_bot_pico_latency_ms"@,
            "Pico command round-trip latency"@,
            "gauge"@,
            millis_text(m.pico_latency),
        )
        + single(
            "tibia_bot_proc_ms"@,
            "Bot processing time per tick (rolling avg)"@,
            "gauge"@,
            millis_text(m.bot_proc),
        )
}

fn push_loop_text(out: &mut String, m: &Metrics)
    ensures
        final(out)@ == old(out)@ + loop_text(*m),
{
    push_single(out, "tibia_bot_ticks_total", "Total ticks processed", "counter", m.ticks_total);
    push_single(
        out,
        "tibia_bot_ticks_overrun_total",
        "Ticks that exceeded budget",
        "counter",
        m.ticks_overrun,
    );
    push_millis(
        out,
        "tibia_bot_ndi_latency_ms",
        "NDI capture latency (rolling avg)",
        m.ndi_latency,
    );
    push_millis(
        out,
        "tibia_bot_pico_latency_ms",
        "Pico command round-trip latency",
        m.pico_latency,
    );
    push_millis(out, "tibia_bot_proc_ms", "Bot processing time per tick (rolling avg)", m.bot_proc);
    assert(out@ =~= old(out)@ + loop_text(*m));
}

/// Whether the bot sees, whether it is paused, and what it does.
pub open spec fn state_text(has_frame: bool, paused: bool, state: FsmState) -> Seq<char> {
    single(
        "tibia_bot_has_frame"@,
        "1 if NDI frame available, 0 otherwise"@,
        "gauge"@,
        decimal(flag(has_frame)),
    )
        + single(
            "tibia_bot_is_paused"@,
            "1 if bot paused, 0 otherwise"@,
            "gauge"@,
            decimal(flag(paused)),
        )
        + heading("tibia_bot_fsm_state"@, "Current FSM state (info)"@, "gauge"@)
        + labelled("tibia_bot_fsm_state"@, "state"@, state.name_spec(), decimal(1))
}

fn push_state_text(out: &mut String, has_frame: bool, paused: bool, state: FsmState)
    ensures
        final(out)@ == old(out)@ + state_text(has_frame, paused, state),
{
    push_single(
        out,
        "tibia_bot_has_frame",
        "1 if NDI frame available, 0 otherwise",
        "gauge",
        number(has_frame),
    );
    push_single(
        out,
        "tibia_bot_is_paused",
        "1 if bot paused, 0 otherwise",
        "gauge",
        number(paused),
    );
    push_heading(out, "tibia_bot_fsm_state", "Current FSM state (info)", "gauge");
    push_labelled(out, "tibia_bot_fsm_state", "state", state.name(), 1);
    assert(out@ =~= old(out)@ + state_text(has_frame, paused, state));
}

/// The number of each item seen.
pub open spec fn items_text(items: Seq<ItemCount>) -> Seq<char>
    decreases items.len(),
{
    if items.len() == 0 {
        Seq::empty()
    } else {
        items_text(items.drop_last()) + labelled(
            "tibia_bot_inventory_slots"@,
            "item"@,
            label_text(items.last().name@, false),
            decimal(items.last().count as nat),
        )
    }
}

/// The vital bars, where they are seen.
pub open spec fn vitals_text(hp: Option<Ppm>, mana: Option<Ppm>) -> Seq<char> {
    (match hp {
        Some(ratio) => single(
            "tibia_bot_hp_ratio"@,
            "Character HP ratio [0..1]"@,
            "gauge"@,
            ratio_text(ratio),
        ),
        None => Seq::empty(),
    }) + (match mana {
        Some(ratio) => single(
            "tibia_bot_mana_ratio"@,
            "Character mana ratio [0..1]"@,
            "gauge"@,
            ratio_text(ratio),
        ),
        None => Seq::empty(),
    })
}

/// What is seen on the screen.
pub open spec fn perception_text(p: Perception) -> Seq<char> {
    vitals_text(p.hp(), p.mana()) + single(
        "tibia_bot_enemy_count"@,
        "Enemies in battle list"@,
        "gauge"@,
        decimal(p.battle.entries@.len()),
    ) + if p.inventory_counts@.len() == 0 {
        Seq::empty()
    } else {
        heading("tibia_bot_inventory_slots"@, "Slots matching each item"@, "gauge"@) + items_text(
            p.inventory_counts@,
        )
    }
}

fn push_items(out: &mut String, items: &Vec<ItemCount>)
    ensures
        final(out)@ == old(out)@ + items_text(items@),
{
    let mut i: usize = 0;
    assert(items@.take(0) =~= Seq::<ItemCount>::empty());
    while i < items.len()
        invariant
            i <= items@.len(),
            out@ == old(out)@ + items_text(items@.take(i as int)),
        decreases items@.len() - i,
    {
        let name = sanitize_label(items[i].name.as_str(), false);
        push_labelled(
            out,
            "tibia_bot_inventory_slots",
            "item",
            name.as_str(),
            items[i].count as u64,
        );
        assert(items@.take(i + 1).drop_last() =~= items@.take(i as int));
        assert(out@ =~= old(out)@ + items_text(items@.take(i + 1)));
        i = i + 1;
    }
    assert(items@.take(i as int) =~= items@);
}

fn push_vitals(out: &mut String, hp: Option<Ppm>, mana: Option<Ppm>)
    ensures
        final(out)@ == old(out)@ + vitals_text(hp, mana),
{
    if let Some(ratio) = hp {
        push_ratio(out, "tibia_bot_hp_ratio", "Character HP ratio [0..1]", ratio);
    }
    if let Some(ratio) = mana {
        push_ratio(out, "tibia_bot_mana_ratio", "Character mana ratio [0..1]", ratio);
    }
    assert(out@ =~= old(out)@ + vitals_text(hp, mana));
}

fn push_perception(out: &mut String, p: &Perception)
    ensures
        final(out)@ == old(out)@ + perception_text(*p),
{
    push_vitals(out, p.hp_ratio(), p.mana_ratio());
    push_single(
        out,
        "tibia_bot_enemy_count",
        "Enemies in battle list",
        "gauge",
        p.battle.entries.len() as u64,
    );
    if p.inventory_counts.len() > 0 {
        push_heading(out, "tibia_bot_inventory_slots", "Slots matching each item", "gauge");
        push_items(out, &p.inventory_counts);
    }
    assert(out@ =~= old(out)@ + perception_text(*p));
}

/// Why the bot paused itself, if it did.
pub open spec fn pause_text(reason: Option<String>) -> Seq<char> {
    match reason {
        Some(reason) => heading(
            "tibia_bot_safety_pause"@,
            "Active safety pause reason"@,
            "gauge"@,
        ) + labelled(
            "tibia_bot_safety_pause"@,
            "reason"@,
            label_text(reason@, true),
            decimal(1),
        ),
        None => Seq::empty(),
    }
}

fn push_pause(out: &mut String, reason: &Option<String>)
    ensures
        final(out)@ == old(out)@ + pause_text(*reason),
{
    if let Some(reason) = reason {
        let safe = sanitize_label(reason.as_str(), true);
        push_heading(out, "tibia_bot_safety_pause", "Active safety pause reason", "gauge");
        push_labelled(out, "tibia_bot_safety_pause", "reason", safe.as_str(), 1);
    }
    assert(out@ =~= old(out)@ + pause_text(*reason));
}

/// A gauge, where there is a value for it.
pub open spec fn gauge_text(name: Seq<char>, help: Seq<char>, value: Option<u64>) -> Seq<char> {
    match value {
        Some(v) => single(name, help, "gauge"@, decimal(v as nat)),
        None => Seq::empty(),
    }
}

fn push_gauge(out: &mut String, name: &str, help: &str, value: Option<u64>)
    ensures
        final(out)@ == old(out)@ + gauge_text(name@, help@, value),
{
    if let Some(v) = value {
        push_single(out, name, help, "gauge", v);
    }
    assert(out@ =~= old(out)@ + gauge_text(name@, help@, value));
}

/// A number, widened.
pub open spec fn widened(v: Option<u32>) -> Option<u64> {
    match v {
        Some(v) => Some(v as u64),
        None => None,
    }
}

/// What the route expects of the hunt, where it names a profile.
pub open spec fn hunt_text(c: CavebotSnapshot) -> Seq<char> {
    match c.hunt_profile {
        Some(profile) => heading(
            "tibia_hunt_profile_loaded"@,
            "Hunt profile declared by cavebot TOML (info)"@,
            "gauge"@,
        ) + labelled(
            "tibia_hunt_profile_loaded"@,
            "profile"@,
            label_text(profile@, false),
            decimal(1),
        ) + gauge_text(
            "tibia_hunt_expected_xp_per_hour"@,
            "Baseline XP/hour del profile [metrics]"@,
            c.expected_xp_per_hour,
        ) + gauge_text(
            "tibia_hunt_expected_kills_per_hour"@,
            "Baseline kills/hour"@,
            c.expected_kills_per_hour,
        ) + gauge_text(
            "tibia_hunt_expected_loot_gp_per_hour"@,
            "Baseline loot value GP/hour"@,
            c.expected_loot_gp_per_hour,
        ) + gauge_text(
            "tibia_hunt_expected_cycle_min"@,
            "Baseline ciclo depot\u{2192}hunt\u{2192}depot en minutos"@,
            widened(c.expected_cycle_min),
        ),
        None => Seq::empty(),
    }
}

fn push_hunt(out: &mut String, c: &CavebotSnapshot)
    ensures
        final(out)@ == old(out)@ + hunt_text(*c),
{
    if let Some(profile) = &c.hunt_profile {
        let safe = sanitize_label(profile.as_str(), false);
        let cycle: Option<u64> = match c.expected_cycle_min {
            Some(v) => Some(v as u64),
            None => None,
        };
        push_heading(
            out,
            "tibia_hunt_profile_loaded",
            "Hunt profile declared by cavebot TOML (info)",
            "gauge",
        );
        push_labelled(out, "tibia_hunt_profile_loaded", "profile", safe.as_str(), 1);
        push_gauge(
            out,
            "tibia_hunt_expected_xp_per_hour",
            "Baseline XP/hour del profile [metrics]",
            c.expected_xp_per_hour,
        );
        push_gauge(
            out,
            "tibia_hunt_expected_kills_per_hour",
            "Baseline kills/hour",
            c.expected_kills_per_hour,
        );
        push_gauge(
            out,
            "tibia_hunt_expected_loot_gp_per_hour",
            "Baseline loot value GP/hour",
            c.expected_loot_gp_per_hour,
        );
        push_gauge(
            out,
            "tibia_hunt_expected_cycle_min",
            "Baseline ciclo depot\u{2192}hunt\u{2192}depot en minutos",
            cycle,
        );
    }
    assert(out@ =~= old(out)@ + hunt_text(*c));
}

/// The statistics of the map matcher.
pub open spec fn matcher_text(m: MatcherStats) -> Seq<char> {
    heading("tibia_matcher_detects_total"@, "Total MinimapMatcher detect calls"@, "counter"@)
        + labelled(
            "tibia_matcher_detects_total"@,
            "mode"@,
            "narrow"@,
            decimal(m.narrow_searches as nat),
        )
        + labelled(
            "tibia_matcher_detects_total"@,
            "mode"@,
            "full"@,
            decimal(m.full_searches as nat),
        )
        + single(
            "tibia_matcher_misses_total"@,
            "Detects that returned None (score above threshold)"@,
            "counter"@,
            decimal(m.misses as nat),
        )
        + single(
            "tibia_matcher_last_duration_ms"@,
            "Last detect duration (milliseconds)"@,
            "gauge"@,
            thousandths(m.last_duration_us as nat),
        )
        + single(
            "tibia_matcher_last_score"@,
            "Last SSD match score (lower=better)"@,
            "gauge"@,
            millionths(m.last_score_micros as nat),
        )
        + single(
            "tibia_matcher_sectors_loaded"@,
            "Reference sectors in RAM"@,
            "gauge"@,
            decimal(m.sectors_loaded as nat),
        )
}

fn push_matcher_text(out: &mut String, m: &MatcherStats)
    ensures
        final(out)@ == old(out)@ + matcher_text(*m),
{
    push_heading(
        out,
        "tibia_matcher_detects_total",
        "Total MinimapMatcher detect calls",
        "counter",
    );
    push_labelled(out, "tibia_matcher_detects_total", "mode", "narrow", m.narrow_searches);
    push_labelled(out, "tibia_matcher_detects_total", "mode", "full", m.full_searches);
    push_single(
        out,
        "tibia_matcher_misses_total",
        "Detects that returned None (score above threshold)",
        "counter",
        m.misses,
    );
    push_thousandths_gauge(
        out,
        "tibia_matcher_last_duration_ms",
        "Last detect duration (milliseconds)",
        m.last_duration_us,
    );
    push_millionths_gauge(
        out,
        "tibia_matcher_last_score",
        "Last SSD match score (lower=better)",
        m.last_score_micros,
    );
    push_single(
        out,
        "tibia_matcher_sectors_loaded",
        "Reference sectors in RAM",
        "gauge",
        m.sectors_loaded,
    );
    assert(out@ =~= old(out)@ + matcher_text(*m));
}

/// Whether one of the issues has the given name.
pub open spec fn any_named(issues: Seq<HealthIssue>, name: Seq<char>) -> bool {
    exists|i: int| 0 <= i < issues.len() && (#[trigger] issues[i])@.name() == name
}

fn is_any_named(issues: &Vec<HealthIssue>, name: &str) -> (r: bool)
    ensures
        r == any_named(issues@, name@),
{
    let mut i: usize = 0;
    while i < issues.len()
        invariant
            i <= issues@.len(),
            forall|j: int| 0 <= j < i ==> (#[trigger] issues@[j])@.name() != name@,
        decreases issues@.len() - i,
    {
        if same(issues[i].label(), name) {
            assert(issues@[i as int]@.name() == name@);
            return true;
        }
        i = i + 1;
    }
    false
}

/// Whether an issue of a kind is there.
pub open spec fn issue_text(issues: Seq<HealthIssue>, kind: Seq<char>) -> Seq<char> {
    labelled(
        "tibia_health_issue_active"@,
        "kind"@,
        kind,
        decimal(flag(any_named(issues, kind))),
    )
}

fn push_issue(out: &mut String, issues: &Vec<HealthIssue>, kind: &str)
    ensures
        final(out)@ == old(out)@ + issue_text(issues@, kind@),
{
    push_labelled(
        out,
        "tibia_health_issue_active",
        "kind",
        kind,
        number(is_any_named(issues, kind)),
    );
}

/// The number of a severity.
fn severity_number(s: Severity) -> (r: u64)
    ensures
        r == s.rank(),
{
    match s {
        Severity::Healthy => 0,
        Severity::Warning => 1,
        Severity::Critical => 2,
    }
}

/// The number of the level of a status.
fn level_number(h: &HealthStatus) -> (r: u8)
    ensures
        r == level(h.degraded),
{
    cmp_level(h.degraded)
}

/// Which kinds of issues are there.
pub open spec fn issues_text(issues: Seq<HealthIssue>) -> Seq<char> {
    issue_text(issues, "frame_stale"@)
        + issue_text(issues, "tick_overrun"@)
        + issue_text(issues, "vision_slow"@)
        + issue_text(issues, "anchor_drift"@)
        + issue_text(issues, "low_detection_confidence"@)
        + issue_text(issues, "bridge_rtt_high"@)
        + issue_text(issues, "bridge_unreachable"@)
        + issue_text(issues, "action_failure_rate"@)
        + issue_text(issues, "high_jitter"@)
        + issue_text(issues, "frame_seq_gap"@)
        + issue_text(issues, "blind_mode"@)
        + issue_text(issues, "compute_saturation"@)
        + issue_text(issues, "io_unreliable"@)
}

fn push_issues(out: &mut String, issues: &Vec<HealthIssue>)
    ensures
        final(out)@ == old(out)@ + issues_text(issues@),
{
    push_issue(out, issues, "frame_stale");
    push_issue(out, issues, "tick_overrun");
    push_issue(out, issues, "vision_slow");
    push_issue(out, issues, "anchor_drift");
    push_issue(out, issues, "low_detection_confidence");
    push_issue(out, issues, "bridge_rtt_high");
    push_issue(out, issues, "bridge_unreachable");
    push_issue(out, issues, "action_failure_rate");
    push_issue(out, issues, "high_jitter");
    push_issue(out, issues, "frame_seq_gap");
    push_issue(out, issues, "blind_mode");
    push_issue(out, issues, "compute_saturation");
    push_issue(out, issues, "io_unreliable");
    assert(out@ =~= old(out)@ + issues_text(issues@));
}

/// The health of the bot.
pub open spec fn health_text(h: HealthStatus) -> Seq<char> {
    single(
        "tibia_health_overall"@,
        "0=ok 1=warning 2=critical"@,
        "gauge"@,
        decimal(h.overall.rank() as nat),
    )
        + single(
            "tibia_health_score"@,
            "Aggregate issue weight (ok=0, warning=1, critical=4)"@,
            "gauge"@,
            decimal(h.score as nat),
        )
        + single(
            "tibia_health_degradation"@,
            "0=none 1=light 2=heavy 3=safe_mode"@,
            "gauge"@,
            decimal(level(h.degraded) as nat),
        )
        + heading("tibia_health_issue_active"@, "1 if issue type is currently emitted"@, "gauge"@)
        + issues_text(h.issues@)
}

fn push_health_text(out: &mut String, h: &HealthStatus)
    ensures
        final(out)@ == old(out)@ + health_text(*h),
{
    push_single(
        out,
        "tibia_health_overall",
        "0=ok 1=warning 2=critical",
        "gauge",
        severity_number(h.overall),
    );
    push_single(
        out,
        "tibia_health_score",
        "Aggregate issue weight (ok=0, warning=1, critical=4)",
        "gauge",
        h.score as u64,
    );
    push_single(
        out,
        "tibia_health_degradation",
        "0=none 1=light 2=heavy 3=safe_mode",
        "gauge",
        level_number(h) as u64,
    );
    push_heading(out, "tibia_health_issue_active", "1 if issue type is currently emitted", "gauge");
    push_issues(out, &h.issues);
    assert(out@ =~= old(out)@ + health_text(*h));
}

/// The readings of the inventory slots.
pub open spec fn slots_text(r: MetricsRegistry) -> Seq<char> {
    single(
        "tibia_inventory_slots_observed_total"@,
        "Total slot observations ingested"@,
        "counter"@,
        decimal(r.inventory_slots_observed as nat),
    )
        + heading(
            "tibia_inventory_slots_by_stage"@,
            "Slot observations grouped by stage"@,
            "counter"@,
        )
        + labelled(
            "tibia_inventory_slots_by_stage"@,
            "stage"@,
            "empty"@,
            decimal(r.inventory_slots_empty as nat),
        )
        + labelled(
            "tibia_inventory_slots_by_stage"@,
            "stage"@,
            "matched"@,
            decimal(r.inventory_slots_matched as nat),
        )
        + labelled(
            "tibia_inventory_slots_by_stage"@,
            "stage"@,
            "unmatched"@,
            decimal(r.inventory_slots_unmatched as nat),
        )
        + single(
            "tibia_inventory_slots_with_stable_total"@,
            "Slots with stable_item populated by filter"@,
            "counter"@,
            decimal(r.inventory_slots_with_stable as nat),
        )
}

fn push_slots_text(out: &mut String, r: &MetricsRegistry)
    ensures
        final(out)@ == old(out)@ + slots_text(*r),
{
    push_single(
        out,
        "tibia_inventory_slots_observed_total",
        "Total slot observations ingested",
        "counter",
        r.inventory_slots_observed,
    );
    push_heading(
        out,
        "tibia_inventory_slots_by_stage",
        "Slot observations grouped by stage",
        "counter",
    );
    push_labelled(out, "tibia_inventory_slots_by_stage", "stage", "empty", r.inventory_slots_empty);
    push_labelled(
        out,
        "tibia_inventory_slots_by_stage",
        "stage",
        "matched",
        r.inventory_slots_matched,
    );
    push_labelled(
        out,
        "tibia_inventory_slots_by_stage",
        "stage",
        "unmatched",
        r.inventory_slots_unmatched,
    );
    push_single(
        out,
        "tibia_inventory_slots_with_stable_total",
        "Slots with stable_item populated by filter",
        "counter",
        r.inventory_slots_with_stable,
    );
    assert(out@ =~= old(out)@ + slots_text(*r));
}

/// How sure the readings of the inventory slots were.
pub open spec fn confidence_text(r: MetricsRegistry) -> Seq<char> {
    heading(
        "tibia_inventory_slot_confidence_bp"@,
        "Per-slot confidence distribution (basis points, 0..10000)"@,
        "gauge"@,
    )
        + labelled(
            "tibia_inventory_slot_confidence_bp"@,
            "quantile"@,
            "0.50"@,
            decimal(r.inventory_slot_confidence.at_share(500_000) as nat),
        )
        + labelled(
            "tibia_inventory_slot_confidence_bp"@,
            "quantile"@,
            "0.95"@,
            decimal(r.inventory_slot_confidence.at_share(950_000) as nat),
        )
        + labelled(
            "tibia_inventory_slot_confidence_bp"@,
            "quantile"@,
            "0.99"@,
            decimal(r.inventory_slot_confidence.at_share(990_000) as nat),
        )
        + sample(
            "tibia_inventory_slot_confidence_samples"@,
            decimal(r.inventory_slot_confidence.samples() as nat),
        )
}

fn push_confidence_text(out: &mut String, r: &MetricsRegistry)
    ensures
        final(out)@ == old(out)@ + confidence_text(*r),
{
    push_heading(
        out,
        "tibia_inventory_slot_confidence_bp",
        "Per-slot confidence distribution (basis points, 0..10000)",
        "gauge",
    );
    push_labelled(
        out,
        "tibia_inventory_slot_confidence_bp",
        "quantile",
        "0.50",
        r.inventory_slot_confidence.percentile(500_000) as u64,
    );
    push_labelled(
        out,
        "tibia_inventory_slot_confidence_bp",
        "quantile",
        "0.95",
        r.inventory_slot_confidence.percentile(950_000) as u64,
    );
    push_labelled(
        out,
        "tibia_inventory_slot_confidence_bp",
        "quantile",
        "0.99",
        r.inventory_slot_confidence.percentile(990_000) as u64,
    );
    push_sample(
        out,
        "tibia_inventory_slot_confidence_samples",
        r.inventory_slot_confidence.count(),
    );
    assert(out@ =~= old(out)@ + confidence_text(*r));
}

/// Whether the route is verifying a step.
pub open spec fn verifying_text(verifying: bool) -> Seq<char> {
    single(
        "tibia_cavebot_verifying"@,
        "1 si el step actual est\u{e1} en verify poll"@,
        "gauge"@,
        decimal(flag(verifying)),
    )
}

fn push_verifying(out: &mut String, verifying: bool)
    ensures
        final(out)@ == old(out)@ + verifying_text(verifying),
{
    push_single(
        out,
        "tibia_cavebot_verifying",
        "1 si el step actual est\u{e1} en verify poll",
        "gauge",
        number(verifying),
    );
}

/// The statistics of the map matcher, if there are any.
pub open spec fn matched_text(stats: Option<MatcherStats>) -> Seq<char> {
    match stats {
        Some(m) => matcher_text(m),
        None => Seq::empty(),
    }
}

fn push_matcher(out: &mut String, stats: &Option<MatcherStats>)
    ensures
        final(out)@ == old(out)@ + matched_text(*stats),
{
    match stats {
        Some(m) => push_matcher_text(out, m),
        None => {
            assert(out@ =~= old(out)@ + Seq::<char>::empty());
        },
    }
}

proof fn joined(base: Seq<char>, a: Seq<char>, b: Seq<char>, c: Seq<char>)
    ensures
        base + a + b + c == base + (a + b + c),
{
    assert(base + a + b + c =~= base + (a + b + c));
}

/// The route, what it expects, and where it takes the bot to be.
pub open spec fn route_text(g: GameState) -> Seq<char> {
    hunt_text(g.cavebot_status) + verifying_text(g.cavebot_status.verifying) + matched_text(
        g.matcher_stats,
    )
}

fn push_route(out: &mut String, g: &GameState)
    ensures
        final(out)@ == old(out)@ + route_text(*g),
{
    push_hunt(out, &g.cavebot_status);
    push_verifying(out, g.cavebot_status.verifying);
    push_matcher(out, &g.matcher_stats);
    proof {
        joined(
            old(out)@,
            hunt_text(g.cavebot_status),
            verifying_text(g.cavebot_status.verifying),
            matched_text(g.matcher_stats),
        );
    }
}

/// What the loop saw last, if it saw anything.
pub open spec fn sight_text(p: Option<Perception>) -> Seq<char> {
    match p {
        Some(p) => perception_text(p),
        None => Seq::empty(),
    }
}

fn push_sight(out: &mut String, p: &Option<Perception>)
    ensures
        final(out)@ == old(out)@ + sight_text(*p),
{
    match p {
        Some(p) => push_perception(out, p),
        None => {
            assert(out@ =~= old(out)@ + Seq::<char>::empty());
        },
    }
}

/// All metrics as text.
pub open spec fn metrics_text(
    g: GameState,
    has_frame: bool,
    h: HealthStatus,
    r: MetricsRegistry,
) -> Seq<char> {
    loop_text(g.metrics) + state_text(has_frame, g.is_paused, g.fsm_state) + sight_text(
        g.last_perception,
    ) + pause_text(g.safety_pause_reason) + route_text(g) + health_text(h) + slots_text(r)
        + confidence_text(r)
}

/// All metrics as text.
pub fn render_metrics(g: &GameState, has_frame: bool, h: &HealthStatus, r: &MetricsRegistry) -> (s:
    String)
    ensures
        s@ == metrics_text(*g, has_frame, *h, *r),
{
    let mut out = String::new();
    assert(out@ + loop_text(g.metrics) =~= loop_text(g.metrics));
    push_loop_text(&mut out, &g.metrics);
    push_state_text(&mut out, has_frame, g.is_paused, g.fsm_state);
    push_sight(&mut out, &g.last_perception);
    push_pause(&mut out, &g.safety_pause_reason);
    push_route(&mut out, g);
    push_health_text(&mut out, h);
    push_slots_text(&mut out, r);
    push_confidence_text(&mut out, r);
    out
}

} // verus!
