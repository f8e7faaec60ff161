//! What holds of the metrics as text.

use vstd::prelude::*;

use crate::fsm::FsmState;
use crate::health::system::level;
use crate::health::{DegradationLevel, HealthIssue, HealthStatus, Severity};
use crate::instrumentation::registry::MetricsRegistry;
use crate::perception::{CharVitals, ItemCount, Perception};
use crate::remote::exposition::{
    any_named, confidence_text, flag, heading, health_text, issue_text, issues_text, items_text,
    label_text, labelled, loop_text, metrics_text, millis_text, pause_text, perception_text,
    ratio_text, route_text, sample, sight_text, single, slots_text, state_text, verifying_text,
};
use crate::state::GameState;
use crate::text::{
    alphanumeric, decimal, hundredths, millionths, nearest, padded, rounding_goes_to_the_nearest,
    thousandths,
};
use crate::units::Ppm;

verus! {

/// A number of thousandths is as near to a ratio as any.
pub open spec fn is_near(ratio: Ppm, n: nat) -> bool {
    -1_000 <= 2 * (ratio - 1_000 * n) <= 1_000
}

/// The lines of the mana bar: its description, then its name and its ratio to three decimals.
pub open spec fn mana_lines(n: nat) -> Seq<char> {
    "# HELP "@ + "tibia_bot_mana_ratio"@ + " "@ + "Character mana ratio [0..1]"@ + "\n# TYPE "@
        + "tibia_bot_mana_ratio"@ + " "@ + "gauge"@ + "\n"@ + "tibia_bot_mana_ratio"@ + " "@
        + decimal(n / 1_000) + "."@ + padded(n % 1_000, 3) + "\n"@
}

/// The lines of the health bar.
pub open spec fn hp_lines(n: nat) -> Seq<char> {
    "# HELP "@ + "tibia_bot_hp_ratio"@ + " "@ + "Character HP ratio [0..1]"@ + "\n# TYPE "@
        + "tibia_bot_hp_ratio"@ + " "@ + "gauge"@ + "\n"@ + "tibia_bot_hp_ratio"@ + " "@ + decimal(
        n / 1_000,
    ) + "."@ + padded(n % 1_000, 3) + "\n"@
}

/// Whether two games are the same but for the bars that were read last.
pub open spec fn same_but_for_vitals(a: GameState, b: GameState) -> bool {
    &&& a.last_perception is Some
    &&& b.last_perception is Some
    &&& b == (GameState { last_perception: b.last_perception, ..a })
    &&& b.last_perception->0 == (Perception {
        vitals: b.last_perception->0.vitals,
        ..a.last_perception->0
    })
}

/// What stands before the bars.
pub open spec fn before_vitals(g: GameState, has_frame: bool) -> Seq<char> {
    loop_text(g.metrics) + state_text(has_frame, g.is_paused, g.fsm_state)
}

/// What stands behind the bars.
pub open spec fn behind_vitals(
    g: GameState,
    p: Perception,
    h: HealthStatus,
    r: MetricsRegistry,
) -> Seq<char> {
    below_vitals(p) + pause_text(g.safety_pause_reason) + route_text(g) + health_text(h)
        + slots_text(r) + confidence_text(r)
}

proof fn regrouped(
    a: Seq<char>,
    x: Seq<char>,
    y: Seq<char>,
    e: Seq<char>,
    p: Seq<char>,
    r: Seq<char>,
    h: Seq<char>,
    s: Seq<char>,
    c: Seq<char>,
)
    ensures
        reads(a + (x + y + e) + p + r + h + s + c, a + x + y + (e + p + r + h + s + c)),
{
    assert(a + (x + y + e) + p + r + h + s + c =~= a + x + y + (e + p + r + h + s + c));
}

proof fn single_regrouped(
    a: Seq<char>,
    name: Seq<char>,
    sp: Seq<char>,
    help: Seq<char>,
    b: Seq<char>,
    kind: Seq<char>,
    nl: Seq<char>,
    d: Seq<char>,
    dot: Seq<char>,
    f: Seq<char>,
)
    ensures
        (a + name + sp + help + b + name + sp + kind + nl) + (name + sp + (d + dot + f) + nl) == a
            + name + sp + help + b + name + sp + kind + nl + name + sp + d + dot + f + nl,
{
    assert((a + name + sp + help + b + name + sp + kind + nl) + (name + sp + (d + dot + f) + nl)
        =~= a + name + sp + help + b + name + sp + kind + nl + name + sp + d + dot + f + nl);
}

proof fn end_of(x: Seq<char>, y: Seq<char>, end: Seq<char>, rest: Seq<char>)
    ensures
        ends_with(x + y + end + rest, end + rest),
{
    let s = x + y + end + rest;
    assert(s.skip(s.len() - (end + rest).len()) =~= end + rest);
}

/// Whether a text reads as another.
pub open spec fn reads(s: Seq<char>, t: Seq<char>) -> bool {
    s == t
}

/// The lines of the enemies and of the inventory.
pub open spec fn below_vitals(p: Perception) -> Seq<char> {
    single(
        "tibia_bot_enemy_count"@,
        "Enemies in battle list"@,
        "gauge"@,
        decimal(p.battle.entries@.len()),
    ) + (if p.inventory_counts@.len() == 0 {
        Seq::empty()
    } else {
        heading("tibia_bot_inventory_slots"@, "Slots matching each item"@, "gauge"@) + items_text(
            p.inventory_counts@,
        )
    })
}

/// The lines of the health bar, where one was read.
pub open spec fn hp_part(v: CharVitals) -> Seq<char> {
    match v.hp {
        Some(b) => hp_lines(nearest(b.ratio as int, 1_000) as nat),
        None => Seq::empty(),
    }
}

/// The lines of the mana bar, where one was read.
pub open spec fn mana_part(v: CharVitals) -> Seq<char> {
    match v.mana {
        Some(b) => mana_lines(nearest(b.ratio as int, 1_000) as nat),
        None => Seq::empty(),
    }
}

proof fn hp_text(ratio: Ppm)
    ensures
        reads(
            single(
                "tibia_bot_hp_ratio"@,
                "Character HP ratio [0..1]"@,
                "gauge"@,
                ratio_text(ratio),
            ),
            hp_lines(nearest(ratio as int, 1_000) as nat),
        ),
{
    let n = nearest(ratio as int, 1_000) as nat;
    single_regrouped(
        "# HELP "@,
        "tibia_bot_hp_ratio"@,
        " "@,
        "Character HP ratio [0..1]"@,
        "\n# TYPE "@,
        "gauge"@,
        "\n"@,
        decimal(n / 1_000),
        "."@,
        padded(n % 1_000, 3),
    );
}

proof fn mana_text(ratio: Ppm)
    ensures
        reads(
            single(
                "tibia_bot_mana_ratio"@,
                "Character mana ratio [0..1]"@,
                "gauge"@,
                ratio_text(ratio),
            ),
            mana_lines(nearest(ratio as int, 1_000) as nat),
        ),
{
    let n = nearest(ratio as int, 1_000) as nat;
    single_regrouped(
        "# HELP "@,
        "tibia_bot_mana_ratio"@,
        " "@,
        "Character mana ratio [0..1]"@,
        "\n# TYPE "@,
        "gauge"@,
        "\n"@,
        decimal(n / 1_000),
        "."@,
        padded(n % 1_000, 3),
    );
}

proof fn regrouped_below(x: Seq<char>, y: Seq<char>, e: Seq<char>, i: Seq<char>)
    ensures
        reads(x + y + e + i, x + y + (e + i)),
{
    assert(x + y + e + i =~= x + y + (e + i));
}

proof fn sight_lines(p: Perception)
    ensures
        reads(perception_text(p), hp_part(p.vitals) + mana_part(p.vitals) + below_vitals(p)),
{
    if let Some(b) = p.vitals.hp {
        hp_text(b.ratio);
    }
    if let Some(b) = p.vitals.mana {
        mana_text(b.ratio);
    }
    regrouped_below(
        hp_part(p.vitals),
        mana_part(p.vitals),
        single(
            "tibia_bot_enemy_count"@,
            "Enemies in battle list"@,
            "gauge"@,
            decimal(p.battle.entries@.len()),
        ),
        if p.inventory_counts@.len() == 0 {
            Seq::empty()
        } else {
            heading("tibia_bot_inventory_slots"@, "Slots matching each item"@, "gauge"@)
                + items_text(p.inventory_counts@)
        },
    );
}

/// Each bar's lines show its own ratio, to the nearest thousandth, and are there exactly if the bar
/// was read.
pub proof fn a_bar_is_shown_to_three_decimals(v: CharVitals)
    ensures
        v.hp is None ==> hp_part(v) == Seq::<char>::empty(),
        v.hp matches Some(b) ==> exists|n: nat|
            is_near(b.ratio, n) && hp_part(v) == #[trigger] hp_lines(n),
        v.mana is None ==> mana_part(v) == Seq::<char>::empty(),
        v.mana matches Some(b) ==> exists|n: nat|
            is_near(b.ratio, n) && mana_part(v) == #[trigger] mana_lines(n),
{
    if let Some(b) = v.hp {
        rounding_goes_to_the_nearest(b.ratio as int, 1_000);
        let n = nearest(b.ratio as int, 1_000) as nat;
        assert(is_near(b.ratio, n) && reads(hp_part(v), hp_lines(n)));
    }
    if let Some(b) = v.mana {
        rounding_goes_to_the_nearest(b.ratio as int, 1_000);
        let n = nearest(b.ratio as int, 1_000) as nat;
        assert(is_near(b.ratio, n) && reads(mana_part(v), mana_lines(n)));
    }
}

/// The text between what stands before the bars and what stands behind them is that of the bars:
/// the health bar's lines, then the mana bar's. Another game that differs in its bars alone has the
/// same text around its own.
pub proof fn each_bar_has_its_own_lines(
    g: GameState,
    other: GameState,
    has_frame: bool,
    h: HealthStatus,
    r: MetricsRegistry,
)
    requires
        same_but_for_vitals(g, other),
    ensures
        reads(
            metrics_text(g, has_frame, h, r),
            before_vitals(other, has_frame) + hp_part(g.last_perception->0.vitals) + mana_part(
                g.last_perception->0.vitals,
            ) + behind_vitals(other, other.last_perception->0, h, r),
        ),
{
    let p = g.last_perception->0;
    sight_lines(p);
    regrouped(
        before_vitals(g, has_frame),
        hp_part(p.vitals),
        mana_part(p.vitals),
        below_vitals(p),
        pause_text(g.safety_pause_reason),
        route_text(g),
        health_text(h),
        slots_text(r),
        confidence_text(r),
    );
}

/// Whether a text ends with another.
pub open spec fn ends_with(s: Seq<char>, end: Seq<char>) -> bool {
    end.len() <= s.len() && s.skip(s.len() - end.len()) == end
}

/// Two games that differ in the health bar alone have the same mana lines, and the same text
/// behind them.
pub proof fn the_mana_lines_do_not_depend_on_health(
    a: GameState,
    b: GameState,
    has_frame: bool,
    h: HealthStatus,
    r: MetricsRegistry,
)
    requires
        same_but_for_vitals(a, b),
        a.last_perception->0.vitals.mana == b.last_perception->0.vitals.mana,
    ensures
        ends_with(
            metrics_text(a, has_frame, h, r),
            mana_part(a.last_perception->0.vitals) + behind_vitals(a, a.last_perception->0, h, r),
        ),
        ends_with(
            metrics_text(b, has_frame, h, r),
            mana_part(a.last_perception->0.vitals) + behind_vitals(a, a.last_perception->0, h, r),
        ),
{
    let pa = a.last_perception->0;
    let pb = b.last_perception->0;
    each_bar_has_its_own_lines(a, a, has_frame, h, r);
    each_bar_has_its_own_lines(b, a, has_frame, h, r);
    let rest = behind_vitals(a, pa, h, r);
    end_of(before_vitals(a, has_frame), hp_part(pa.vitals), mana_part(pa.vitals), rest);
    end_of(before_vitals(a, has_frame), hp_part(pb.vitals), mana_part(pa.vitals), rest);
}

/// Whether a text stands somewhere in another.
pub open spec fn holds(s: Seq<char>, piece: Seq<char>) -> bool {
    exists|i: int| 0 <= i && i + piece.len() <= s.len() && #[trigger] s.subrange(
        i,
        i + piece.len(),
    ) == piece
}

broadcast proof fn a_sum_holds_what_its_parts_hold(a: Seq<char>, b: Seq<char>, piece: Seq<char>)
    requires
        holds(a, piece) || holds(b, piece),
    ensures
        #[trigger] holds(a + b, piece),
{
    let s = a + b;
    let n = piece.len() as int;
    if holds(a, piece) {
        let i = choose|i: int|
            0 <= i && i + n <= a.len() && #[trigger] a.subrange(i, i + n) == piece;
        assert(s.subrange(i, i + n) =~= a.subrange(i, i + n));
    } else {
        let i = choose|i: int|
            0 <= i && i + n <= b.len() && #[trigger] b.subrange(i, i + n) == piece;
        let k = i + a.len();
        assert(s.subrange(k, k + n) =~= b.subrange(i, i + n));
    }
}

proof fn a_text_holds_itself(s: Seq<char>)
    ensures
        holds(s, s),
{
    let i: int = 0;
    assert(s.subrange(i, i + s.len()) =~= s);
}

/// A line with a metric's name and its value.
pub open spec fn line(name: Seq<char>, value: Seq<char>) -> Seq<char> {
    name + " "@ + value + "\n"@
}

/// A line with a metric's name, a label in braces and its value.
pub open spec fn label_line(
    name: Seq<char>,
    key: Seq<char>,
    label: Seq<char>,
    value: Seq<char>,
) -> Seq<char> {
    name + "{"@ + key + "=\""@ + label + "\"} "@ + value + "\n"@
}

proof fn line_of_single(name: Seq<char>, help: Seq<char>, kind: Seq<char>, value: Seq<char>)
    ensures
        holds(single(name, help, kind, value), line(name, value)),
{
    a_text_holds_itself(line(name, value));
    a_sum_holds_what_its_parts_hold(
        heading(name, help, kind),
        sample(name, value),
        line(name, value),
    );
}

proof fn in_metrics(
    g: GameState,
    has_frame: bool,
    h: HealthStatus,
    r: MetricsRegistry,
    piece: Seq<char>,
)
    requires
        holds(loop_text(g.metrics), piece) || holds(
            state_text(has_frame, g.is_paused, g.fsm_state),
            piece,
        ) || holds(sight_text(g.last_perception), piece) || holds(
            pause_text(g.safety_pause_reason),
            piece,
        ) || holds(route_text(g), piece) || holds(health_text(h), piece) || holds(
            slots_text(r),
            piece,
        ) || holds(confidence_text(r), piece),
    ensures
        holds(metrics_text(g, has_frame, h, r), piece),
{
    let a = loop_text(g.metrics);
    let b = state_text(has_frame, g.is_paused, g.fsm_state);
    let c = sight_text(g.last_perception);
    let d = pause_text(g.safety_pause_reason);
    let e = route_text(g);
    let f = health_text(h);
    let i = slots_text(r);
    let j = confidence_text(r);
    if holds(a, piece) || holds(b, piece) {
        a_sum_holds_what_its_parts_hold(a, b, piece);
    }
    if holds(a + b, piece) || holds(c, piece) {
        a_sum_holds_what_its_parts_hold(a + b, c, piece);
    }
    if holds(a + b + c, piece) || holds(d, piece) {
        a_sum_holds_what_its_parts_hold(a + b + c, d, piece);
    }
    if holds(a + b + c + d, piece) || holds(e, piece) {
        a_sum_holds_what_its_parts_hold(a + b + c + d, e, piece);
    }
    if holds(a + b + c + d + e, piece) || holds(f, piece) {
        a_sum_holds_what_its_parts_hold(a + b + c + d + e, f, piece);
    }
    if holds(a + b + c + d + e + f, piece) || holds(i, piece) {
        a_sum_holds_what_its_parts_hold(a + b + c + d + e + f, i, piece);
    }
    a_sum_holds_what_its_parts_hold(a + b + c + d + e + f + i, j, piece);
}

/// The counters of the loop stand under their own names, and its times in milliseconds to two
/// decimals.
pub proof fn the_loop_shows_its_numbers(
    g: GameState,
    has_frame: bool,
    h: HealthStatus,
    r: MetricsRegistry,
)
    ensures
        holds(
            metrics_text(g, has_frame, h, r),
            line("tibia_bot_ticks_total"@, decimal(g.metrics.ticks_total as nat)),
        ),
        holds(
            metrics_text(g, has_frame, h, r),
            line("tibia_bot_ticks_overrun_total"@, decimal(g.metrics.ticks_overrun as nat)),
        ),
        holds(
            metrics_text(g, has_frame, h, r),
            line(
                "tibia_bot_ndi_latency_ms"@,
                hundredths(nearest(g.metrics.ndi_latency as int, 10_000) as nat),
            ),
        ),
        holds(
            metrics_text(g, has_frame, h, r),
            line(
                "tibia_bot_pico_latency_ms"@,
                hundredths(nearest(g.metrics.pico_latency as int, 10_000) as nat),
            ),
        ),
        holds(
            metrics_text(g, has_frame, h, r),
            line(
                "tibia_bot_proc_ms"@,
                hundredths(nearest(g.metrics.bot_proc as int, 10_000) as nat),
            ),
        ),
{
    broadcast use a_sum_holds_what_its_parts_hold;

    let m = g.metrics;
    line_of_single(
        "tibia_bot_ticks_total"@,
        "Total ticks processed"@,
        "counter"@,
        decimal(m.ticks_total as nat),
    );
    in_metrics(
        g,
        has_frame,
        h,
        r,
        line("tibia_bot_ticks_total"@, decimal(m.ticks_total as nat)),
    );
    line_of_single(
        "tibia_bot_ticks_overrun_total"@,
        "Ticks that exceeded budget"@,
        "counter"@,
        decimal(m.ticks_overrun as nat),
    );
    in_metrics(
        g,
        has_frame,
        h,
        r,
        line("tibia_bot_ticks_overrun_total"@, decimal(m.ticks_overrun as nat)),
    );
    line_of_single(
        "tibia_bot_ndi_latency_ms"@,
        "NDI capture latency (rolling avg)"@,
        "gauge"@,
        millis_text(m.ndi_latency),
    );
    in_metrics(
        g,
        has_frame,
        h,
        r,
        line("tibia_bot_ndi_latency_ms"@, millis_text(m.ndi_latency)),
    );
    line_of_single(
        "tibia_bot_pico_latency_ms"@,
        "Pico command round-trip latency"@,
        "gauge"@,
        millis_text(m.pico_latency),
    );
    in_metrics(
        g,
        has_frame,
        h,
        r,
        line("tibia_bot_pico_latency_ms"@, millis_text(m.pico_latency)),
    );
    line_of_single(
        "tibia_bot_proc_ms"@,
        "Bot processing time per tick (rolling avg)"@,
        "gauge"@,
        millis_text(m.bot_proc),
    );
    in_metrics(g, has_frame, h, r, line("tibia_bot_proc_ms"@, millis_text(m.bot_proc)));
}

proof fn numerals_of_flags()
    ensures
        decimal(0) == "0"@,
        decimal(1) == "1"@,
        decimal(2) == "2"@,
        decimal(3) == "3"@,
{
    reveal_strlit("0");
    reveal_strlit("1");
    reveal_strlit("2");
    reveal_strlit("3");
    assert(decimal(0) =~= "0"@);
    assert(decimal(1) =~= "1"@);
    assert(decimal(2) =~= "2"@);
    assert(decimal(3) =~= "3"@);
}

/// Whether there is a frame and whether the bot is paused stand as 1 or 0 under their own names,
/// and the state of the machine as a label.
pub proof fn the_state_is_shown(
    g: GameState,
    has_frame: bool,
    h: HealthStatus,
    r: MetricsRegistry,
)
    ensures
        holds(
            metrics_text(g, has_frame, h, r),
            line("tibia_bot_has_frame"@, if has_frame { "1"@ } else { "0"@ }),
        ),
        holds(
            metrics_text(g, has_frame, h, r),
            line("tibia_bot_is_paused"@, if g.is_paused { "1"@ } else { "0"@ }),
        ),
        holds(
            metrics_text(g, has_frame, h, r),
            label_line(
                "tibia_bot_fsm_state"@,
                "state"@,
                match g.fsm_state {
                    FsmState::Idle => "Idle"@,
                    FsmState::Paused => "Paused"@,
                    FsmState::Walking => "Walking"@,
                    FsmState::Fighting => "Fighting"@,
                    FsmState::Emergency => "Emergency"@,
                    FsmState::Refilling => "Refilling"@,
                },
                "1"@,
            ),
        ),
{
    broadcast use a_sum_holds_what_its_parts_hold;

    numerals_of_flags();
    line_of_single(
        "tibia_bot_has_frame"@,
        "1 if NDI frame available, 0 otherwise"@,
        "gauge"@,
        decimal(flag(has_frame)),
    );
    in_metrics(
        g,
        has_frame,
        h,
        r,
        line("tibia_bot_has_frame"@, if has_frame { "1"@ } else { "0"@ }),
    );
    line_of_single(
        "tibia_bot_is_paused"@,
        "1 if bot paused, 0 otherwise"@,
        "gauge"@,
        decimal(flag(g.is_paused)),
    );
    in_metrics(
        g,
        has_frame,
        h,
        r,
        line("tibia_bot_is_paused"@, if g.is_paused { "1"@ } else { "0"@ }),
    );
    a_text_holds_itself(
        label_line(
            "tibia_bot_fsm_state"@,
            "state"@,
            match g.fsm_state {
                FsmState::Idle => "Idle"@,
                FsmState::Paused => "Paused"@,
                FsmState::Walking => "Walking"@,
                FsmState::Fighting => "Fighting"@,
                FsmState::Emergency => "Emergency"@,
                FsmState::Refilling => "Refilling"@,
            },
            "1"@,
        ),
    );
    in_metrics(
        g,
        has_frame,
        h,
        r,
        label_line(
            "tibia_bot_fsm_state"@,
            "state"@,
            match g.fsm_state {
                FsmState::Idle => "Idle"@,
                FsmState::Paused => "Paused"@,
                FsmState::Walking => "Walking"@,
                FsmState::Fighting => "Fighting"@,
                FsmState::Emergency => "Emergency"@,
                FsmState::Refilling => "Refilling"@,
            },
            "1"@,
        ),
    );
}

/// The number of rows of the battle list that was read last is shown.
pub proof fn the_enemies_are_shown(
    g: GameState,
    has_frame: bool,
    h: HealthStatus,
    r: MetricsRegistry,
)
    ensures
        g.last_perception is Some ==> holds(
            metrics_text(g, has_frame, h, r),
            line("tibia_bot_enemy_count"@, decimal(g.last_perception->0.battle.entries@.len())),
        ),
{
    broadcast use a_sum_holds_what_its_parts_hold;

    if g.last_perception is Some {
        line_of_single(
            "tibia_bot_enemy_count"@,
            "Enemies in battle list"@,
            "gauge"@,
            decimal(g.last_perception->0.battle.entries@.len()),
        );
        in_metrics(
            g,
            has_frame,
            h,
            r,
            line("tibia_bot_enemy_count"@, decimal(g.last_perception->0.battle.entries@.len())),
        );
    }
}

/// The reason of a safety pause stands as a label, where there is one.
pub proof fn the_pause_reason_is_shown(
    g: GameState,
    has_frame: bool,
    h: HealthStatus,
    r: MetricsRegistry,
)
    ensures
        g.safety_pause_reason is Some ==> holds(
            metrics_text(g, has_frame, h, r),
            label_line(
                "tibia_bot_safety_pause"@,
                "reason"@,
                label_text(g.safety_pause_reason->0@, true),
                "1"@,
            ),
        ),
{
    broadcast use a_sum_holds_what_its_parts_hold;

    numerals_of_flags();
    if g.safety_pause_reason is Some {
        a_text_holds_itself(
            label_line(
                "tibia_bot_safety_pause"@,
                "reason"@,
                label_text(g.safety_pause_reason->0@, true),
                "1"@,
            ),
        );
        in_metrics(
            g,
            has_frame,
            h,
            r,
            label_line(
                "tibia_bot_safety_pause"@,
                "reason"@,
                label_text(g.safety_pause_reason->0@, true),
                "1"@,
            ),
        );
    }
}

/// What the route expects of the hunt stands under its own names, where it names a profile, and
/// whether a step is being verified stands as 1 or 0.
pub proof fn the_route_shows_its_numbers(
    g: GameState,
    has_frame: bool,
    h: HealthStatus,
    r: MetricsRegistry,
)
    ensures
        g.cavebot_status.hunt_profile is Some ==> holds(
            metrics_text(g, has_frame, h, r),
            label_line(
                "tibia_hunt_profile_loaded"@,
                "profile"@,
                label_text(g.cavebot_status.hunt_profile->0@, false),
                "1"@,
            ),
        ),
        g.cavebot_status.hunt_profile is Some && g.cavebot_status.expected_xp_per_hour is Some
            ==> holds(
            metrics_text(g, has_frame, h, r),
            line(
                "tibia_hunt_expected_xp_per_hour"@,
                decimal(g.cavebot_status.expected_xp_per_hour->0 as nat),
            ),
        ),
        g.cavebot_status.hunt_profile is Some && g.cavebot_status.expected_kills_per_hour is Some
            ==> holds(
            metrics_text(g, has_frame, h, r),
            line(
                "tibia_hunt_expected_kills_per_hour"@,
                decimal(g.cavebot_status.expected_kills_per_hour->0 as nat),
            ),
        ),
        g.cavebot_status.hunt_profile is Some && g.cavebot_status.expected_loot_gp_per_hour is Some
            ==> holds(
            metrics_text(g, has_frame, h, r),
            line(
                "tibia_hunt_expected_loot_gp_per_hour"@,
                decimal(g.cavebot_status.expected_loot_gp_per_hour->0 as nat),
            ),
        ),
        g.cavebot_status.hunt_profile is Some && g.cavebot_status.expected_cycle_min is Some
            ==> holds(
            metrics_text(g, has_frame, h, r),
            line(
                "tibia_hunt_expected_cycle_min"@,
                decimal(g.cavebot_status.expected_cycle_min->0 as nat),
            ),
        ),
        holds(
            metrics_text(g, has_frame, h, r),
            line("tibia_cavebot_verifying"@, if g.cavebot_status.verifying { "1"@ } else { "0"@ }),
        ),
{
    broadcast use a_sum_holds_what_its_parts_hold;

    numerals_of_flags();
    if g.cavebot_status.hunt_profile is Some {
        a_text_holds_itself(
            label_line(
                "tibia_hunt_profile_loaded"@,
                "profile"@,
                label_text(g.cavebot_status.hunt_profile->0@, false),
                "1"@,
            ),
        );
        in_metrics(
            g,
            has_frame,
            h,
            r,
            label_line(
                "tibia_hunt_profile_loaded"@,
                "profile"@,
                label_text(g.cavebot_status.hunt_profile->0@, false),
                "1"@,
            ),
        );
    }
    if g.cavebot_status.hunt_profile is Some && g.cavebot_status.expected_xp_per_hour is Some {
        line_of_single(
            "tibia_hunt_expected_xp_per_hour"@,
            "Baseline XP/hour del profile [metrics]"@,
            "gauge"@,
            decimal(g.cavebot_status.expected_xp_per_hour->0 as nat),
        );
        in_metrics(
            g,
            has_frame,
            h,
            r,
            line(
                "tibia_hunt_expected_xp_per_hour"@,
                decimal(g.cavebot_status.expected_xp_per_hour->0 as nat),
            ),
        );
    }
    if g.cavebot_status.hunt_profile is Some && g.cavebot_status.expected_kills_per_hour is Some {
        line_of_single(
            "tibia_hunt_expected_kills_per_hour"@,
            "Baseline kills/hour"@,
            "gauge"@,
            decimal(g.cavebot_status.expected_kills_per_hour->0 as nat),
        );
        in_metrics(
            g,
            has_frame,
            h,
            r,
            line(
                "tibia_hunt_expected_kills_per_hour"@,
                decimal(g.cavebot_status.expected_kills_per_hour->0 as nat),
            ),
        );
    }
    if g.cavebot_status.hunt_profile is Some && g.cavebot_status.expected_loot_gp_per_hour is Some {
        line_of_single(
            "tibia_hunt_expected_loot_gp_per_hour"@,
            "Baseline loot value GP/hour"@,
            "gauge"@,
            decimal(g.cavebot_status.expected_loot_gp_per_hour->0 as nat),
        );
        in_metrics(
            g,
            has_frame,
            h,
            r,
            line(
                "tibia_hunt_expected_loot_gp_per_hour"@,
                decimal(g.cavebot_status.expected_loot_gp_per_hour->0 as nat),
            ),
        );
    }
    if g.cavebot_status.hunt_profile is Some && g.cavebot_status.expected_cycle_min is Some {
        line_of_single(
            "tibia_hunt_expected_cycle_min"@,
            "Baseline ciclo depot\u{2192}hunt\u{2192}depot en minutos"@,
            "gauge"@,
            decimal(g.cavebot_status.expected_cycle_min->0 as nat),
        );
        in_metrics(
            g,
            has_frame,
            h,
            r,
            line(
                "tibia_hunt_expected_cycle_min"@,
                decimal(g.cavebot_status.expected_cycle_min->0 as nat),
            ),
        );
    }
    line_of_single(
        "tibia_cavebot_verifying"@,
        "1 si el step actual est\u{e1} en verify poll"@,
        "gauge"@,
        decimal(flag(g.cavebot_status.verifying)),
    );
    in_metrics(
        g,
        has_frame,
        h,
        r,
        line("tibia_cavebot_verifying"@, if g.cavebot_status.verifying { "1"@ } else { "0"@ }),
    );
}

/// The statistics of the map matcher stand under their own names, where there are any.
pub proof fn the_matcher_shows_its_numbers(
    g: GameState,
    has_frame: bool,
    h: HealthStatus,
    r: MetricsRegistry,
)
    ensures
        g.matcher_stats is Some ==> holds(
            metrics_text(g, has_frame, h, r),
            label_line(
                "tibia_matcher_detects_total"@,
                "mode"@,
                "narrow"@,
                decimal(g.matcher_stats->0.narrow_searches as nat),
            ),
        ),
        g.matcher_stats is Some ==> holds(
            metrics_text(g, has_frame, h, r),
            label_line(
                "tibia_matcher_detects_total"@,
                "mode"@,
                "full"@,
                decimal(g.matcher_stats->0.full_searches as nat),
            ),
        ),
        g.matcher_stats is Some ==> holds(
            metrics_text(g, has_frame, h, r),
            line("tibia_matcher_misses_total"@, decimal(g.matcher_stats->0.misses as nat)),
        ),
        g.matcher_stats is Some ==> holds(
            metrics_text(g, has_frame, h, r),
            line(
                "tibia_matcher_last_duration_ms"@,
                thousandths(g.matcher_stats->0.last_duration_us as nat),
            ),
        ),
        g.matcher_stats is Some ==> holds(
            metrics_text(g, has_frame, h, r),
            line(
                "tibia_matcher_last_score"@,
                millionths(g.matcher_stats->0.last_score_micros as nat),
            ),
        ),
        g.matcher_stats is Some ==> holds(
            metrics_text(g, has_frame, h, r),
            line(
                "tibia_matcher_sectors_loaded"@,
                decimal(g.matcher_stats->0.sectors_loaded as nat),
            ),
        ),
{
    broadcast use a_sum_holds_what_its_parts_hold;

    if g.matcher_stats is Some {
        a_text_holds_itself(
            label_line(
                "tibia_matcher_detects_total"@,
                "mode"@,
                "narrow"@,
                decimal(g.matcher_stats->0.narrow_searches as nat),
            ),
        );
        in_metrics(
            g,
            has_frame,
            h,
            r,
            label_line(
                "tibia_matcher_detects_total"@,
                "mode"@,
                "narrow"@,
                decimal(g.matcher_stats->0.narrow_searches as nat),
            ),
        );
    }
    if g.matcher_stats is Some {
        a_text_holds_itself(
            label_line(
                "tibia_matcher_detects_total"@,
                "mode"@,
                "full"@,
                decimal(g.matcher_stats->0.full_searches as nat),
            ),
        );
        in_metrics(
            g,
            has_frame,
            h,
            r,
            label_line(
                "tibia_matcher_detects_total"@,
                "mode"@,
                "full"@,
                decimal(g.matcher_stats->0.full_searches as nat),
            ),
        );
    }
    if g.matcher_stats is Some {
        line_of_single(
            "tibia_matcher_misses_total"@,
            "Detects that returned None (score above threshold)"@,
            "counter"@,
            decimal(g.matcher_stats->0.misses as nat),
        );
        in_metrics(
            g,
            has_frame,
            h,
            r,
            line("tibia_matcher_misses_total"@, decimal(g.matcher_stats->0.misses as nat)),
        );
    }
    if g.matcher_stats is Some {
        line_of_single(
            "tibia_matcher_last_duration_ms"@,
            "Last detect duration (milliseconds)"@,
            "gauge"@,
            thousandths(g.matcher_stats->0.last_duration_us as nat),
        );
        in_metrics(
            g,
            has_frame,
            h,
            r,
            line(
                "tibia_matcher_last_duration_ms"@,
                thousandths(g.matcher_stats->0.last_duration_us as nat),
            ),
        );
    }
    if g.matcher_stats is Some {
        line_of_single(
            "tibia_matcher_last_score"@,
            "Last SSD match score (lower=better)"@,
            "gauge"@,
            millionths(g.matcher_stats->0.last_score_micros as nat),
        );
        in_metrics(
            g,
            has_frame,
            h,
            r,
            line(
                "tibia_matcher_last_score"@,
                millionths(g.matcher_stats->0.last_score_micros as nat),
            ),
        );
    }
    if g.matcher_stats is Some {
        line_of_single(
            "tibia_matcher_sectors_loaded"@,
            "Reference sectors in RAM"@,
            "gauge"@,
            decimal(g.matcher_stats->0.sectors_loaded as nat),
        );
        in_metrics(
            g,
            has_frame,
            h,
            r,
            line(
                "tibia_matcher_sectors_loaded"@,
                decimal(g.matcher_stats->0.sectors_loaded as nat),
            ),
        );
    }
}

/// The health stands under its own names: how bad it is and how far the bot holds itself back as
/// numbers from 0 up, and the score.
pub proof fn the_health_shows_its_numbers(
    g: GameState,
    has_frame: bool,
    h: HealthStatus,
    r: MetricsRegistry,
)
    ensures
        holds(
            metrics_text(g, has_frame, h, r),
            line(
                "tibia_health_overall"@,
                match h.overall {
                    Severity::Healthy => "0"@,
                    Severity::Warning => "1"@,
                    Severity::Critical => "2"@,
                },
            ),
        ),
        holds(
            metrics_text(g, has_frame, h, r),
            line("tibia_health_score"@, decimal(h.score as nat)),
        ),
        holds(
            metrics_text(g, has_frame, h, r),
            line(
                "tibia_health_degradation"@,
                match h.degraded {
                    None => "0"@,
                    Some(DegradationLevel::Light) => "1"@,
                    Some(DegradationLevel::Heavy) => "2"@,
                    Some(DegradationLevel::SafeMode) => "3"@,
                },
            ),
        ),
{
    broadcast use a_sum_holds_what_its_parts_hold;

    numerals_of_flags();
    line_of_single(
        "tibia_health_overall"@,
        "0=ok 1=warning 2=critical"@,
        "gauge"@,
        decimal(h.overall.rank() as nat),
    );
    in_metrics(
        g,
        has_frame,
        h,
        r,
        line(
            "tibia_health_overall"@,
            match h.overall {
                Severity::Healthy => "0"@,
                Severity::Warning => "1"@,
                Severity::Critical => "2"@,
            },
        ),
    );
    line_of_single(
        "tibia_health_score"@,
        "Aggregate issue weight (ok=0, warning=1, critical=4)"@,
        "gauge"@,
        decimal(h.score as nat),
    );
    in_metrics(g, has_frame, h, r, line("tibia_health_score"@, decimal(h.score as nat)));
    line_of_single(
        "tibia_health_degradation"@,
        "0=none 1=light 2=heavy 3=safe_mode"@,
        "gauge"@,
        decimal(level(h.degraded) as nat),
    );
    in_metrics(
        g,
        has_frame,
        h,
        r,
        line(
            "tibia_health_degradation"@,
            match h.degraded {
                None => "0"@,
                Some(DegradationLevel::Light) => "1"@,
                Some(DegradationLevel::Heavy) => "2"@,
                Some(DegradationLevel::SafeMode) => "3"@,
            },
        ),
    );
}

/// Every kind of issue has a line, with 1 exactly if one of that kind is there: those of the frames
/// and the screen.
pub proof fn the_screen_issues_are_shown(
    g: GameState,
    has_frame: bool,
    h: HealthStatus,
    r: MetricsRegistry,
)
    ensures
        holds(
            metrics_text(g, has_frame, h, r),
            label_line(
                "tibia_health_issue_active"@,
                "kind"@,
                "frame_stale"@,
                if any_named(h.issues@, "frame_stale"@) {
                    "1"@
                } else {
                    "0"@
                },
            ),
        ),
        holds(
            metrics_text(g, has_frame, h, r),
            label_line(
                "tibia_health_issue_active"@,
                "kind"@,
                "tick_overrun"@,
                if any_named(h.issues@, "tick_overrun"@) {
                    "1"@
                } else {
                    "0"@
                },
            ),
        ),
        holds(
            metrics_text(g, has_frame, h, r),
            label_line(
                "tibia_health_issue_active"@,
                "kind"@,
                "vision_slow"@,
                if any_named(h.issues@, "vision_slow"@) {
                    "1"@
                } else {
                    "0"@
                },
            ),
        ),
        holds(
            metrics_text(g, has_frame, h, r),
            label_line(
                "tibia_health_issue_active"@,
                "kind"@,
                "anchor_drift"@,
                if any_named(h.issues@, "anchor_drift"@) {
                    "1"@
                } else {
                    "0"@
                },
            ),
        ),
        holds(
            metrics_text(g, has_frame, h, r),
            label_line(
                "tibia_health_issue_active"@,
                "kind"@,
                "low_detection_confidence"@,
                if any_named(h.issues@, "low_detection_confidence"@) {
                    "1"@
                } else {
                    "0"@
                },
            ),
        ),
{
    broadcast use a_sum_holds_what_its_parts_hold;

    numerals_of_flags();
    a_text_holds_itself(
        label_line(
            "tibia_health_issue_active"@,
            "kind"@,
            "frame_stale"@,
            if any_named(h.issues@, "frame_stale"@) {
                "1"@
            } else {
                "0"@
            },
        ),
    );
    assert(holds(
        issue_text(h.issues@, "frame_stale"@),
        label_line(
            "tibia_health_issue_active"@,
            "kind"@,
            "frame_stale"@,
            if any_named(h.issues@, "frame_stale"@) {
                "1"@
            } else {
                "0"@
            },
        ),
    ));
    assert(holds(
        issues_text(h.issues@),
        label_line(
            "tibia_health_issue_active"@,
            "kind"@,
            "frame_stale"@,
            if any_named(h.issues@, "frame_stale"@) {
                "1"@
            } else {
                "0"@
            },
        ),
    ));
    in_metrics(
        g,
        has_frame,
        h,
        r,
        label_line(
            "tibia_health_issue_active"@,
            "kind"@,
            "frame_stale"@,
            if any_named(h.issues@, "frame_stale"@) {
                "1"@
            } else {
                "0"@
            },
        ),
    );
    a_text_holds_itself(
        label_line(
            "tibia_health_issue_active"@,
            "kind"@,
            "tick_overrun"@,
            if any_named(h.issues@, "tick_overrun"@) {
                "1"@
            } else {
                "0"@
            },
        ),
    );
    assert(holds(
        issue_text(h.issues@, "tick_overrun"@),
        label_line(
            "tibia_health_issue_active"@,
            "kind"@,
            "tick_overrun"@,
            if any_named(h.issues@, "tick_overrun"@) {
                "1"@
            } else {
                "0"@
            },
        ),
    ));
    assert(holds(
        issues_text(h.issues@),
        label_line(
            "tibia_health_issue_active"@,
            "kind"@,
            "tick_overrun"@,
            if any_named(h.issues@, "tick_overrun"@) {
                "1"@
            } else {
                "0"@
            },
        ),
    ));
    in_metrics(
        g,
        has_frame,
        h,
        r,
        label_line(
            "tibia_health_issue_active"@,
            "kind"@,
            "tick_overrun"@,
            if any_named(h.issues@, "tick_overrun"@) {
                "1"@
            } else {
                "0"@
            },
        ),
    );
    a_text_holds_itself(
        label_line(
            "tibia_health_issue_active"@,
            "kind"@,
            "vision_slow"@,
            if any_named(h.issues@, "vision_slow"@) {
                "1"@
            } else {
                "0"@
            },
        ),
    );
    assert(holds(
        issue_text(h.issues@, "vision_slow"@),
        label_line(
            "tibia_health_issue_active"@,
            "kind"@,
            "vision_slow"@,
            if any_named(h.issues@, "vision_slow"@) {
                "1"@
            } else {
                "0"@
            },
        ),
    ));
    assert(holds(
        issues_text(h.issues@),
        label_line(
            "tibia_health_issue_active"@,
            "kind"@,
            "vision_slow"@,
            if any_named(h.issues@, "vision_slow"@) {
                "1"@
            } else {
                "0"@
            },
        ),
    ));
    in_metrics(
        g,
        has_frame,
        h,
        r,
        label_line(
            "tibia_health_issue_active"@,
            "kind"@,
            "vision_slow"@,
            if any_named(h.issues@, "vision_slow"@) {
                "1"@
            } else {
                "0"@
            },
        ),
    );
    a_text_holds_itself(
        label_line(
            "tibia_health_issue_active"@,
            "kind"@,
            "anchor_drift"@,
            if any_named(h.issues@, "anchor_drift"@) {
                "1"@
            } else {
                "0"@
            },
        ),
    );
    assert(holds(
        issue_text(h.issues@, "anchor_drift"@),
        label_line(
            "tibia_health_issue_active"@,
            "kind"@,
            "anchor_drift"@,
            if any_named(h.issues@, "anchor_drift"@) {
                "1"@
            } else {
                "0"@
            },
        ),
    ));
    assert(holds(
        issues_text(h.issues@),
        label_line(
            "tibia_health_issue_active"@,
            "kind"@,
            "anchor_drift"@,
            if any_named(h.issues@, "anchor_drift"@) {
                "1"@
            } else {
                "0"@
            },
        ),
    ));
    in_metrics(
        g,
        has_frame,
        h,
        r,
        label_line(
            "tibia_health_issue_active"@,
            "kind"@,
            "anchor_drift"@,
            if any_named(h.issues@, "anchor_drift"@) {
                "1"@
            } else {
                "0"@
            },
        ),
    );
    a_text_holds_itself(
        label_line(
            "tibia_health_issue_active"@,
            "kind"@,
            "low_detection_confidence"@,
            if any_named(h.issues@, "low_detection_confidence"@) {
                "1"@
            } else {
                "0"@
            },
        ),
    );
    assert(holds(
        issue_text(h.issues@, "low_detection_confidence"@),
        label_line(
            "tibia_health_issue_active"@,
            "kind"@,
            "low_detection_confidence"@,
            if any_named(h.issues@, "low_detection_confidence"@) {
                "1"@
            } else {
                "0"@
            },
        ),
    ));
    assert(holds(
        issues_text(h.issues@),
        label_line(
            "tibia_health_issue_active"@,
            "kind"@,
            "low_detection_confidence"@,
            if any_named(h.issues@, "low_detection_confidence"@) {
                "1"@
            } else {
                "0"@
            },
        ),
    ));
    in_metrics(
        g,
        has_frame,
        h,
        r,
        label_line(
            "tibia_health_issue_active"@,
            "kind"@,
            "low_detection_confidence"@,
            if any_named(h.issues@, "low_detection_confidence"@) {
                "1"@
            } else {
                "0"@
            },
        ),
    );
}

/// The same of those of the bridge and of the actions.
pub proof fn the_bridge_issues_are_shown(
    g: GameState,
    has_frame: bool,
    h: HealthStatus,
    r: MetricsRegistry,
)
    ensures
        holds(
            metrics_text(g, has_frame, h, r),
            label_line(
                "tibia_health_issue_active"@,
                "kind"@,
                "bridge_rtt_high"@,
                if any_named(h.issues@, "bridge_rtt_high"@) {
                    "1"@
                } else {
                    "0"@
                },
            ),
        ),
        holds(
            metrics_text(g, has_frame, h, r),
            label_line(
                "tibia_health_issue_active"@,
                "kind"@,
                "bridge_unreachable"@,
                if any_named(h.issues@, "bridge_unreachable"@) {
                    "1"@
                } else {
                    "0"@
                },
            ),
        ),
        holds(
            metrics_text(g, has_frame, h, r),
            label_line(
                "tibia_health_issue_active"@,
                "kind"@,
                "action_failure_rate"@,
                if any_named(h.issues@, "action_failure_rate"@) {
                    "1"@
                } else {
                    "0"@
                },
            ),
        ),
        holds(
            metrics_text(g, has_frame, h, r),
            label_line(
                "tibia_health_issue_active"@,
                "kind"@,
                "high_jitter"@,
                if any_named(h.issues@, "high_jitter"@) {
                    "1"@
                } else {
                    "0"@
                },
            ),
        ),
        holds(
            metrics_text(g, has_frame, h, r),
            label_line(
                "tibia_health_issue_active"@,
                "kind"@,
                "frame_seq_gap"@,
                if any_named(h.issues@, "frame_seq_gap"@) {
                    "1"@
                } else {
                    "0"@
                },
            ),
        ),
{
    broadcast use a_sum_holds_what_its_parts_hold;

    numerals_of_flags();
    a_text_holds_itself(
        label_line(
            "tibia_health_issue_active"@,
            "kind"@,
            "bridge_rtt_high"@,
            if any_named(h.issues@, "bridge_rtt_high"@) {
                "1"@
            } else {
                "0"@
            },
        ),
    );
    assert(holds(
        issue_text(h.issues@, "bridge_rtt_high"@),
        label_line(
            "tibia_health_issue_active"@,
            "kind"@,
            "bridge_rtt_high"@,
            if any_named(h.issues@, "bridge_rtt_high"@) {
                "1"@
            } else {
                "0"@
            },
        ),
    ));
    assert(holds(
        issues_text(h.issues@),
        label_line(
            "tibia_health_issue_active"@,
            "kind"@,
            "bridge_rtt_high"@,
            if any_named(h.issues@, "bridge_rtt_high"@) {
                "1"@
            } else {
                "0"@
            },
        ),
    ));
    in_metrics(
        g,
        has_frame,
        h,
        r,
        label_line(
            "tibia_health_issue_active"@,
            "kind"@,
            "bridge_rtt_high"@,
            if any_named(h.issues@, "bridge_rtt_high"@) {
                "1"@
            } else {
                "0"@
            },
        ),
    );
    a_text_holds_itself(
        label_line(
            "tibia_health_issue_active"@,
            "kind"@,
            "bridge_unreachable"@,
            if any_named(h.issues@, "bridge_unreachable"@) {
                "1"@
            } else {
                "0"@
            },
        ),
    );
    assert(holds(
        issue_text(h.issues@, "bridge_unreachable"@),
        label_line(
            "tibia_health_issue_active"@,
            "kind"@,
            "bridge_unreachable"@,
            if any_named(h.issues@, "bridge_unreachable"@) {
                "1"@
            } else {
                "0"@
            },
        ),
    ));
    assert(holds(
        issues_text(h.issues@),
        label_line(
            "tibia_health_issue_active"@,
            "kind"@,
            "bridge_unreachable"@,
            if any_named(h.issues@, "bridge_unreachable"@) {
                "1"@
            } else {
                "0"@
            },
        ),
    ));
    in_metrics(
        g,
        has_frame,
        h,
        r,
        label_line(
            "tibia_health_issue_active"@,
            "kind"@,
            "bridge_unreachable"@,
            if any_named(h.issues@, "bridge_unreachable"@) {
                "1"@
            } else {
                "0"@
            },
        ),
    );
    a_text_holds_itself(
        label_line(
            "tibia_health_issue_active"@,
            "kind"@,
            "action_failure_rate"@,
            if any_named(h.issues@, "action_failure_rate"@) {
                "1"@
            } else {
                "0"@
            },
        ),
    );
    assert(holds(
        issue_text(h.issues@, "action_failure_rate"@),
        label_line(
            "tibia_health_issue_active"@,
            "kind"@,
            "action_failure_rate"@,
            if any_named(h.issues@, "action_failure_rate"@) {
                "1"@
            } else {
                "0"@
            },
        ),
    ));
    assert(holds(
        issues_text(h.issues@),
        label_line(
            "tibia_health_issue_active"@,
            "kind"@,
            "action_failure_rate"@,
            if any_named(h.issues@, "action_failure_rate"@) {
                "1"@
            } else {
                "0"@
            },
        ),
    ));
    in_metrics(
        g,
        has_frame,
        h,
        r,
        label_line(
            "tibia_health_issue_active"@,
            "kind"@,
            "action_failure_rate"@,
            if any_named(h.issues@, "action_failure_rate"@) {
                "1"@
            } else {
                "0"@
            },
        ),
    );
    a_text_holds_itself(
        label_line(
            "tibia_health_issue_active"@,
            "kind"@,
            "high_jitter"@,
            if any_named(h.issues@, "high_jitter"@) {
                "1"@
            } else {
                "0"@
            },
        ),
    );
    assert(holds(
        issue_text(h.issues@, "high_jitter"@),
        label_line(
            "tibia_health_issue_active"@,
            "kind"@,
            "high_jitter"@,
            if any_named(h.issues@, "high_jitter"@) {
                "1"@
            } else {
                "0"@
            },
        ),
    ));
    assert(holds(
        issues_text(h.issues@),
        label_line(
            "tibia_health_issue_active"@,
            "kind"@,
            "high_jitter"@,
            if any_named(h.issues@, "high_jitter"@) {
                "1"@
            } else {
                "0"@
            },
        ),
    ));
    in_metrics(
        g,
        has_frame,
        h,
        r,
        label_line(
            "tibia_health_issue_active"@,
            "kind"@,
            "high_jitter"@,
            if any_named(h.issues@, "high_jitter"@) {
                "1"@
            } else {
                "0"@
            },
        ),
    );
    a_text_holds_itself(
        label_line(
            "tibia_health_issue_active"@,
            "kind"@,
            "frame_seq_gap"@,
            if any_named(h.issues@, "frame_seq_gap"@) {
                "1"@
            } else {
                "0"@
            },
        ),
    );
    assert(holds(
        issue_text(h.issues@, "frame_seq_gap"@),
        label_line(
            "tibia_health_issue_active"@,
            "kind"@,
            "frame_seq_gap"@,
            if any_named(h.issues@, "frame_seq_gap"@) {
                "1"@
            } else {
                "0"@
            },
        ),
    ));
    assert(holds(
        issues_text(h.issues@),
        label_line(
            "tibia_health_issue_active"@,
            "kind"@,
            "frame_seq_gap"@,
            if any_named(h.issues@, "frame_seq_gap"@) {
                "1"@
            } else {
                "0"@
            },
        ),
    ));
    in_metrics(
        g,
        has_frame,
        h,
        r,
        label_line(
            "tibia_health_issue_active"@,
            "kind"@,
            "frame_seq_gap"@,
            if any_named(h.issues@, "frame_seq_gap"@) {
                "1"@
            } else {
                "0"@
            },
        ),
    );
}

/// The same of those that are made of others.
pub proof fn the_composite_issues_are_shown(
    g: GameState,
    has_frame: bool,
    h: HealthStatus,
    r: MetricsRegistry,
)
    ensures
        holds(
            metrics_text(g, has_frame, h, r),
            label_line(
                "tibia_health_issue_active"@,
                "kind"@,
                "blind_mode"@,
                if any_named(h.issues@, "blind_mode"@) {
                    "1"@
                } else {
                    "0"@
                },
            ),
        ),
        holds(
            metrics_text(g, has_frame, h, r),
            label_line(
                "tibia_health_issue_active"@,
                "kind"@,
                "compute_saturation"@,
                if any_named(h.issues@, "compute_saturation"@) {
                    "1"@
                } else {
                    "0"@
                },
            ),
        ),
        holds(
            metrics_text(g, has_frame, h, r),
            label_line(
                "tibia_health_issue_active"@,
                "kind"@,
                "io_unreliable"@,
                if any_named(h.issues@, "io_unreliable"@) {
                    "1"@
                } else {
                    "0"@
                },
            ),
        ),
{
    broadcast use a_sum_holds_what_its_parts_hold;

    numerals_of_flags();
    a_text_holds_itself(
        label_line(
            "tibia_health_issue_active"@,
            "kind"@,
            "blind_mode"@,
            if any_named(h.issues@, "blind_mode"@) {
                "1"@
            } else {
                "0"@
            },
        ),
    );
    assert(holds(
        issue_text(h.issues@, "blind_mode"@),
        label_line(
            "tibia_health_issue_active"@,
            "kind"@,
            "blind_mode"@,
            if any_named(h.issues@, "blind_mode"@) {
                "1"@
            } else {
                "0"@
            },
        ),
    ));
    assert(holds(
        issues_text(h.issues@),
        label_line(
            "tibia_health_issue_active"@,
            "kind"@,
            "blind_mode"@,
            if any_named(h.issues@, "blind_mode"@) {
                "1"@
            } else {
                "0"@
            },
        ),
    ));
    in_metrics(
        g,
        has_frame,
        h,
        r,
        label_line(
            "tibia_health_issue_active"@,
            "kind"@,
            "blind_mode"@,
            if any_named(h.issues@, "blind_mode"@) {
                "1"@
            } else {
                "0"@
            },
        ),
    );
    a_text_holds_itself(
        label_line(
            "tibia_health_issue_active"@,
            "kind"@,
            "compute_saturation"@,
            if any_named(h.issues@, "compute_saturation"@) {
                "1"@
            } else {
                "0"@
            },
        ),
    );
    assert(holds(
        issue_text(h.issues@, "compute_saturation"@),
        label_line(
            "tibia_health_issue_active"@,
            "kind"@,
            "compute_saturation"@,
            if any_named(h.issues@, "compute_saturation"@) {
                "1"@
            } else {
                "0"@
            },
        ),
    ));
    assert(holds(
        issues_text(h.issues@),
        label_line(
            "tibia_health_issue_active"@,
            "kind"@,
            "compute_saturation"@,
            if any_named(h.issues@, "compute_saturation"@) {
                "1"@
            } else {
                "0"@
            },
        ),
    ));
    in_metrics(
        g,
        has_frame,
        h,
        r,
        label_line(
            "tibia_health_issue_active"@,
            "kind"@,
            "compute_saturation"@,
            if any_named(h.issues@, "compute_saturation"@) {
                "1"@
            } else {
                "0"@
            },
        ),
    );
    a_text_holds_itself(
        label_line(
            "tibia_health_issue_active"@,
            "kind"@,
            "io_unreliable"@,
            if any_named(h.issues@, "io_unreliable"@) {
                "1"@
            } else {
                "0"@
            },
        ),
    );
    assert(holds(
        issue_text(h.issues@, "io_unreliable"@),
        label_line(
            "tibia_health_issue_active"@,
            "kind"@,
            "io_unreliable"@,
            if any_named(h.issues@, "io_unreliable"@) {
                "1"@
            } else {
                "0"@
            },
        ),
    ));
    assert(holds(
        issues_text(h.issues@),
        label_line(
            "tibia_health_issue_active"@,
            "kind"@,
            "io_unreliable"@,
            if any_named(h.issues@, "io_unreliable"@) {
                "1"@
            } else {
                "0"@
            },
        ),
    ));
    in_metrics(
        g,
        has_frame,
        h,
        r,
        label_line(
            "tibia_health_issue_active"@,
            "kind"@,
            "io_unreliable"@,
            if any_named(h.issues@, "io_unreliable"@) {
                "1"@
            } else {
                "0"@
            },
        ),
    );
}

/// The readings of the inventory slots stand under their own names.
pub proof fn the_slots_show_their_numbers(
    g: GameState,
    has_frame: bool,
    h: HealthStatus,
    r: MetricsRegistry,
)
    ensures
        holds(
            metrics_text(g, has_frame, h, r),
            line(
                "tibia_inventory_slots_observed_total"@,
                decimal(r.inventory_slots_observed as nat),
            ),
        ),
        holds(
            metrics_text(g, has_frame, h, r),
            label_line(
                "tibia_inventory_slots_by_stage"@,
                "stage"@,
                "empty"@,
                decimal(r.inventory_slots_empty as nat),
            ),
        ),
        holds(
            metrics_text(g, has_frame, h, r),
            label_line(
                "tibia_inventory_slots_by_stage"@,
                "stage"@,
                "matched"@,
                decimal(r.inventory_slots_matched as nat),
            ),
        ),
        holds(
            metrics_text(g, has_frame, h, r),
            label_line(
                "tibia_inventory_slots_by_stage"@,
                "stage"@,
                "unmatched"@,
                decimal(r.inventory_slots_unmatched as nat),
            ),
        ),
        holds(
            metrics_text(g, has_frame, h, r),
            line(
                "tibia_inventory_slots_with_stable_total"@,
                decimal(r.inventory_slots_with_stable as nat),
            ),
        ),
{
    broadcast use a_sum_holds_what_its_parts_hold;

    line_of_single(
        "tibia_inventory_slots_observed_total"@,
        "Total slot observations ingested"@,
        "counter"@,
        decimal(r.inventory_slots_observed as nat),
    );
    in_metrics(
        g,
        has_frame,
        h,
        r,
        line("tibia_inventory_slots_observed_total"@, decimal(r.inventory_slots_observed as nat)),
    );
    a_text_holds_itself(
        label_line(
            "tibia_inventory_slots_by_stage"@,
            "stage"@,
            "empty"@,
            decimal(r.inventory_slots_empty as nat),
        ),
    );
    in_metrics(
        g,
        has_frame,
        h,
        r,
        label_line(
            "tibia_inventory_slots_by_stage"@,
            "stage"@,
            "empty"@,
            decimal(r.inventory_slots_empty as nat),
        ),
    );
    a_text_holds_itself(
        label_line(
            "tibia_inventory_slots_by_stage"@,
            "stage"@,
            "matched"@,
            decimal(r.inventory_slots_matched as nat),
        ),
    );
    in_metrics(
        g,
        has_frame,
        h,
        r,
        label_line(
            "tibia_inventory_slots_by_stage"@,
            "stage"@,
            "matched"@,
            decimal(r.inventory_slots_matched as nat),
        ),
    );
    a_text_holds_itself(
        label_line(
            "tibia_inventory_slots_by_stage"@,
            "stage"@,
            "unmatched"@,
            decimal(r.inventory_slots_unmatched as nat),
        ),
    );
    in_metrics(
        g,
        has_frame,
        h,
        r,
        label_line(
            "tibia_inventory_slots_by_stage"@,
            "stage"@,
            "unmatched"@,
            decimal(r.inventory_slots_unmatched as nat),
        ),
    );
    line_of_single(
        "tibia_inventory_slots_with_stable_total"@,
        "Slots with stable_item populated by filter"@,
        "counter"@,
        decimal(r.inventory_slots_with_stable as nat),
    );
    in_metrics(
        g,
        has_frame,
        h,
        r,
        line(
            "tibia_inventory_slots_with_stable_total"@,
            decimal(r.inventory_slots_with_stable as nat),
        ),
    );
}

/// How sure the readings of the slots were stands at the middle, at nineteen twentieths and at
/// ninety-nine hundredths, with their number.
pub proof fn the_confidence_is_shown(
    g: GameState,
    has_frame: bool,
    h: HealthStatus,
    r: MetricsRegistry,
)
    ensures
        holds(
            metrics_text(g, has_frame, h, r),
            label_line(
                "tibia_inventory_slot_confidence_bp"@,
                "quantile"@,
                "0.50"@,
                decimal(r.inventory_slot_confidence.at_share(500_000) as nat),
            ),
        ),
        holds(
            metrics_text(g, has_frame, h, r),
            label_line(
                "tibia_inventory_slot_confidence_bp"@,
                "quantile"@,
                "0.95"@,
                decimal(r.inventory_slot_confidence.at_share(950_000) as nat),
            ),
        ),
        holds(
            metrics_text(g, has_frame, h, r),
            label_line(
                "tibia_inventory_slot_confidence_bp"@,
                "quantile"@,
                "0.99"@,
                decimal(r.inventory_slot_confidence.at_share(990_000) as nat),
            ),
        ),
        holds(
            metrics_text(g, has_frame, h, r),
            line(
                "tibia_inventory_slot_confidence_samples"@,
                decimal(r.inventory_slot_confidence.samples() as nat),
            ),
        ),
{
    broadcast use a_sum_holds_what_its_parts_hold;

    a_text_holds_itself(
        label_line(
            "tibia_inventory_slot_confidence_bp"@,
            "quantile"@,
            "0.50"@,
            decimal(r.inventory_slot_confidence.at_share(500_000) as nat),
        ),
    );
    in_metrics(
        g,
        has_frame,
        h,
        r,
        label_line(
            "tibia_inventory_slot_confidence_bp"@,
            "quantile"@,
            "0.50"@,
            decimal(r.inventory_slot_confidence.at_share(500_000) as nat),
        ),
    );
    a_text_holds_itself(
        label_line(
            "tibia_inventory_slot_confidence_bp"@,
            "quantile"@,
            "0.95"@,
            decimal(r.inventory_slot_confidence.at_share(950_000) as nat),
        ),
    );
    in_metrics(
        g,
        has_frame,
        h,
        r,
        label_line(
            "tibia_inventory_slot_confidence_bp"@,
            "quantile"@,
            "0.95"@,
            decimal(r.inventory_slot_confidence.at_share(950_000) as nat),
        ),
    );
    a_text_holds_itself(
        label_line(
            "tibia_inventory_slot_confidence_bp"@,
            "quantile"@,
            "0.99"@,
            decimal(r.inventory_slot_confidence.at_share(990_000) as nat),
        ),
    );
    in_metrics(
        g,
        has_frame,
        h,
        r,
        label_line(
            "tibia_inventory_slot_confidence_bp"@,
            "quantile"@,
            "0.99"@,
            decimal(r.inventory_slot_confidence.at_share(990_000) as nat),
        ),
    );
    a_text_holds_itself(
        line(
            "tibia_inventory_slot_confidence_samples"@,
            decimal(r.inventory_slot_confidence.samples() as nat),
        ),
    );
    in_metrics(
        g,
        has_frame,
        h,
        r,
        line(
            "tibia_inventory_slot_confidence_samples"@,
            decimal(r.inventory_slot_confidence.samples() as nat),
        ),
    );
}

proof fn item_is_shown(items: Seq<ItemCount>, i: int)
    requires
        0 <= i < items.len(),
    ensures
        holds(
            items_text(items),
            label_line(
                "tibia_bot_inventory_slots"@,
                "item"@,
                label_text(items[i].name@, false),
                decimal(items[i].count as nat),
            ),
        ),
    decreases items.len(),
{
    let piece = label_line(
        "tibia_bot_inventory_slots"@,
        "item"@,
        label_text(items[i].name@, false),
        decimal(items[i].count as nat),
    );
    let last = labelled(
        "tibia_bot_inventory_slots"@,
        "item"@,
        label_text(items.last().name@, false),
        decimal(items.last().count as nat),
    );
    if i == items.len() - 1 {
        a_text_holds_itself(last);
    } else {
        item_is_shown(items.drop_last(), i);
    }
    a_sum_holds_what_its_parts_hold(items_text(items.drop_last()), last, piece);
}

/// Every item of the inventory that was read last has a line with its name as a label and its own
/// count.
pub proof fn every_item_shows_its_count(
    g: GameState,
    has_frame: bool,
    h: HealthStatus,
    r: MetricsRegistry,
    i: int,
)
    requires
        g.last_perception is Some,
        0 <= i < g.last_perception->0.inventory_counts@.len(),
    ensures
        holds(
            metrics_text(g, has_frame, h, r),
            label_line(
                "tibia_bot_inventory_slots"@,
                "item"@,
                label_text(g.last_perception->0.inventory_counts@[i].name@, false),
                decimal(g.last_perception->0.inventory_counts@[i].count as nat),
            ),
        ),
{
    broadcast use a_sum_holds_what_its_parts_hold;

    let items = g.last_perception->0.inventory_counts@;
    item_is_shown(items, i);
    in_metrics(
        g,
        has_frame,
        h,
        r,
        label_line(
            "tibia_bot_inventory_slots"@,
            "item"@,
            label_text(items[i].name@, false),
            decimal(items[i].count as nat),
        ),
    );
}

/// A label is as long as the text it is made of. Letters, digits and underscores stay, and colons
/// where they may; every other character becomes an underscore.
pub proof fn a_label_keeps_letters_and_digits(s: Seq<char>, colons: bool, i: int)
    requires
        0 <= i < s.len(),
    ensures
        label_text(s, colons).len() == s.len(),
        alphanumeric(s[i]) ==> label_text(s, colons)[i] == s[i],
        s[i] == '_' ==> label_text(s, colons)[i] == '_',
        s[i] == ':' && colons ==> label_text(s, colons)[i] == ':',
        !alphanumeric(s[i]) && !(s[i] == ':' && colons) ==> label_text(s, colons)[i] == '_',
{
}

/// Whether an issue is named `name`: each kind has its own name, and a composite issue the one that
/// it was given.
pub open spec fn bears(issue: HealthIssue, name: Seq<char>) -> bool {
    match issue {
        HealthIssue::FrameStale { .. } => name == "frame_stale"@,
        HealthIssue::TickOverrun { .. } => name == "tick_overrun"@,
        HealthIssue::VisionSlow { .. } => name == "vision_slow"@,
        HealthIssue::AnchorDrift { .. } => name == "anchor_drift"@,
        HealthIssue::LowDetectionConfidence { .. } => name == "low_detection_confidence"@,
        HealthIssue::BridgeRttHigh { .. } => name == "bridge_rtt_high"@,
        HealthIssue::BridgeUnreachable { .. } => name == "bridge_unreachable"@,
        HealthIssue::ActionFailureRate { .. } => name == "action_failure_rate"@,
        HealthIssue::HighJitter { .. } => name == "high_jitter"@,
        HealthIssue::FrameSeqGap { .. } => name == "frame_seq_gap"@,
        HealthIssue::Composite { name: own, .. } => name == own@,
    }
}

/// A kind of issue is shown as there exactly if one of the issues bears its name.
pub proof fn a_kind_is_there_by_its_name(issues: Seq<HealthIssue>, name: Seq<char>)
    ensures
        any_named(issues, name) == exists|i: int|
            0 <= i < issues.len() && bears(#[trigger] issues[i], name),
{
    if any_named(issues, name) {
        let i = choose|i: int| 0 <= i < issues.len() && (#[trigger] issues[i])@.name() == name;
        assert(bears(issues[i], name));
    }
    if exists|i: int| 0 <= i < issues.len() && bears(#[trigger] issues[i], name) {
        let i = choose|i: int| 0 <= i < issues.len() && bears(#[trigger] issues[i], name);
        assert(issues[i]@.name() == name);
    }
}

/// The lines of a safety pause.
pub open spec fn pause_part(reason: Option<String>) -> Seq<char> {
    match reason {
        Some(r) => heading(
            "tibia_bot_safety_pause"@,
            "Active safety pause reason"@,
            "gauge"@,
        ) + label_line("tibia_bot_safety_pause"@, "reason"@, label_text(r@, true), "1"@),
        None => Seq::empty(),
    }
}

proof fn split_in_three(
    a: Seq<char>,
    p: Seq<char>,
    e: Seq<char>,
    f: Seq<char>,
    i: Seq<char>,
    j: Seq<char>,
)
    ensures
        reads(a + p + e + f + i + j, a + p + (e + f + i + j)),
{
    assert(a + p + e + f + i + j =~= a + p + (e + f + i + j));
}

/// The lines of a safety pause are there exactly if there is a reason, and nothing else depends on
/// it: two games that differ in the reason alone have the same text before and behind its lines.
pub proof fn a_pause_shows_where_there_is_a_reason(
    g: GameState,
    other: GameState,
    has_frame: bool,
    h: HealthStatus,
    r: MetricsRegistry,
)
    requires
        other == (GameState { safety_pause_reason: other.safety_pause_reason, ..g }),
    ensures
        reads(
            metrics_text(other, has_frame, h, r),
            (loop_text(g.metrics) + state_text(has_frame, g.is_paused, g.fsm_state) + sight_text(
                g.last_perception,
            )) + pause_part(other.safety_pause_reason) + (route_text(g) + health_text(h)
                + slots_text(r) + confidence_text(r)),
        ),
{
    numerals_of_flags();
    split_in_three(
        loop_text(g.metrics) + state_text(has_frame, g.is_paused, g.fsm_state) + sight_text(
            g.last_perception,
        ),
        pause_part(other.safety_pause_reason),
        route_text(g),
        health_text(h),
        slots_text(r),
        confidence_text(r),
    );
    assert(reads(pause_text(other.safety_pause_reason), pause_part(other.safety_pause_reason)));
}

/// Where nothing was seen nothing of it is shown, where no profile is named nothing of the hunt is,
/// and where there is no matcher nothing of it is.
pub proof fn what_is_not_there_is_not_shown(
    g: GameState,
    has_frame: bool,
    h: HealthStatus,
    r: MetricsRegistry,
)
    requires
        g.last_perception is None,
        g.safety_pause_reason is None,
        g.cavebot_status.hunt_profile is None,
        g.matcher_stats is None,
    ensures
        reads(
            metrics_text(g, has_frame, h, r),
            loop_text(g.metrics) + state_text(has_frame, g.is_paused, g.fsm_state) + single(
                "tibia_cavebot_verifying"@,
                "1 si el step actual est\u{e1} en verify poll"@,
                "gauge"@,
                if g.cavebot_status.verifying {
                    "1"@
                } else {
                    "0"@
                },
            ) + health_text(h) + slots_text(r) + confidence_text(r),
        ),
{
    numerals_of_flags();
    let v = verifying_text(g.cavebot_status.verifying);
    let a = loop_text(g.metrics) + state_text(has_frame, g.is_paused, g.fsm_state);
    nothing_added(a);
    nothing_before(v);
    nothing_added(v);
    assert(reads(route_text(g), v));
}

proof fn nothing_added(s: Seq<char>)
    ensures
        s + Seq::<char>::empty() == s,
{
    assert(s + Seq::<char>::empty() =~= s);
}

proof fn nothing_before(s: Seq<char>)
    ensures
        Seq::<char>::empty() + s == s,
{
    assert(Seq::<char>::empty() + s =~= s);
}

/// The description of a metric names it twice: once with what it is, once with its kind.
pub proof fn a_metric_is_described(
    name: Seq<char>,
    help: Seq<char>,
    kind: Seq<char>,
    value: Seq<char>,
)
    ensures
        heading(name, help, kind) == "# HELP "@ + name + " "@ + help + "\n# TYPE "@ + name + " "@
            + kind + "\n"@,
        single(name, help, kind, value) == heading(name, help, kind) + line(name, value),
{
}

} // verus!
