//! Who may ask for what, and what the answer to a liveness check is.

use vstd::prelude::*;
use vstd::string::*;

use crate::text::{
    ascii_alphanumeric, chars_of, from_chars, has_prefix, is_blank, same, starts_with,
};
use crate::units::Nanos;

verus! {

/// The most bytes of a request.
pub const MAX_HTTP_BODY_BYTES: usize = 10_485_760;

/// The most requests that are served at a time.
pub const MAX_CONCURRENT_REQUESTS: usize = 32;

/// Whether a request may be served: the liveness check always, everything if no token is set,
/// and else only what carries the token.
pub open spec fn may_pass(path: Seq<char>, token: Option<Seq<char>>, header: Option<Seq<char>>) -> bool {
    ||| path == "/health"@
    ||| token is None
    ||| token->Some_0.len() == 0
    ||| header == Some("Bearer "@ + token->Some_0)
}

/// The text that is given, if it is.
pub open spec fn given(s: Option<&str>) -> Option<Seq<char>> {
    match s {
        Some(s) => Some(s@),
        None => None,
    }
}

fn code_point(c: char) -> (r: u32)
    ensures
        r as int == c as int,
{
    c as u32
}

/// Whether two texts are the same; looks at every character whatever it finds.
fn same_throughout(a: &Vec<char>, from: usize, b: &Vec<char>) -> (r: bool)
    requires
        from <= a@.len(),
    ensures
        r == (a@.skip(from as int) == b@),
{
    let ghost rest = a@.skip(from as int);
    if a.len() - from != b.len() {
        return false;
    }
    let n: usize = b.len();
    let mut differences: u32 = 0;
    let mut i: usize = 0;
    while i < n
        invariant
            i <= n,
            n == b@.len(),
            from + n == a@.len() <= usize::MAX,
            rest == a@.skip(from as int),
            (differences == 0) == (forall|j: int| 0 <= j < i ==> rest[j] == b@[j]),
        decreases n - i,
    {
        let x: u32 = code_point(a[from + i]);
        let y: u32 = code_point(b[i]);
        let so_far: u32 = differences;
        differences = so_far | (x ^ y);
        assert((so_far | (x ^ y)) == 0 <==> so_far == 0 && x == y) by (bit_vector);
        assert(rest[i as int] == a@[from + i]);
        assert((forall|j: int| 0 <= j < i + 1 ==> rest[j] == b@[j]) == ((forall|j: int|
            0 <= j < i ==> rest[j] == b@[j]) && rest[i as int] == b@[i as int]));
        i = i + 1;
    }
    proof {
        if differences == 0 {
            assert(rest =~= b@);
        }
    }
    differences == 0
}

/// Whether a request may be served.
pub fn is_authorized(path: &str, token: Option<&str>, header: Option<&str>) -> (r: bool)
    ensures
        r == may_pass(path@, given(token), given(header)),
{
    if same(path, "/health") {
        return true;
    }
    let expected: Vec<char> = match token {
        Some(t) => chars_of(t),
        None => {
            return true;
        },
    };
    if expected.len() == 0 {
        return true;
    }
    match header {
        Some(h) => {
            if !starts_with(h, "Bearer ") {
                proof {
                    let text = "Bearer "@ + expected@;
                    assert(text.subrange(0, "Bearer "@.len() as int) =~= "Bearer "@);
                }
                return false;
            }
            let v: Vec<char> = chars_of(h);
            proof {
                reveal_strlit("Bearer ");
                assert(v@.subrange(0, 7) == "Bearer "@);
                assert(v@ =~= v@.subrange(0, 7) + v@.skip(7));
                assert(("Bearer "@ + expected@).skip(7) =~= expected@);
            }
            same_throughout(&v, 7, &expected)
        },
        None => false,
    }
}

/// Whether a path shows the inner state of the bot.
pub open spec fn is_inner(path: Seq<char>) -> bool {
    ||| has_prefix(path, "/vision/"@)
    ||| path == "/fsm/debug"@
    ||| path == "/combat/events"@
    ||| path == "/dispatch/stats"@
    ||| path == "/test/grab"@
    ||| path == "/test/inject_frame"@
    ||| path == "/cavebot/status"@
    ||| path == "/waypoints/status"@
    ||| path == "/scripts/status"@
}

/// Whether a request is answered as if its path did not exist.
pub fn is_hidden(stealth_mode: bool, path: &str) -> (r: bool)
    ensures
        r == (stealth_mode && is_inner(path@)),
{
    stealth_mode && (starts_with(path, "/vision/") || same(path, "/fsm/debug") || same(
        path,
        "/combat/events",
    ) || same(path, "/dispatch/stats") || same(path, "/test/grab") || same(
        path,
        "/test/inject_frame",
    ) || same(path, "/cavebot/status") || same(path, "/waypoints/status") || same(
        path,
        "/scripts/status",
    ))
}

/// The age from which on a frame is too old, in milliseconds.
pub const HEALTH_MAX_FRAME_AGE_MS: u64 = 2000;

/// The processing time above which the loop is too slow.
pub const HEALTH_MAX_PROC: Nanos = 50_000_000;

/// What a liveness check looks at.
#[derive(Clone, Debug)]
pub struct HealthDetails {
    pub has_frame: bool,
    pub frame_age_ms: Option<u64>,
    pub is_paused: bool,
    pub safety_pause_reason: Option<String>,
    pub ticks_total: u64,
    pub ticks_overrun: u64,
    pub ndi_latency: Nanos,
    pub pico_latency: Nanos,
    pub bot_proc: Nanos,
    pub fsm_state: String,
}

/// What is said of a pause.
pub open spec fn pause_verdict(reason: Option<String>) -> Seq<char> {
    match reason {
        Some(r) => if has_prefix(r@, "prompt:login"@) {
            "paused_login"@
        } else if has_prefix(r@, "prompt:char_select"@) {
            "paused_char_select"@
        } else if has_prefix(r@, "prompt:npc_trade"@) {
            "paused_npc_trade"@
        } else {
            "paused_safety"@
        },
        None => "paused_manual"@,
    }
}

/// Whether the bot is in order, and what is said of it.
pub open spec fn verdict(d: HealthDetails) -> (bool, Seq<char>) {
    if !d.has_frame {
        (false, "no_frame"@)
    } else if d.frame_age_ms is Some && d.frame_age_ms->Some_0 > HEALTH_MAX_FRAME_AGE_MS {
        (false, "stale_frame"@)
    } else if d.is_paused {
        (false, pause_verdict(d.safety_pause_reason))
    } else if d.bot_proc > HEALTH_MAX_PROC {
        (false, "proc_slow"@)
    } else if d.ticks_total == 0 {
        (false, "not_started"@)
    } else {
        (true, "ok"@)
    }
}

/// Whether the bot is in order, and what is said of it.
pub fn determine_health(d: &HealthDetails) -> (r: (bool, &'static str))
    ensures
        (r.0, r.1@) == verdict(*d),
{
    if !d.has_frame {
        return (false, "no_frame");
    }
    if let Some(age) = d.frame_age_ms {
        if age > HEALTH_MAX_FRAME_AGE_MS {
            return (false, "stale_frame");
        }
    }
    if d.is_paused {
        return match &d.safety_pause_reason {
            Some(reason) => {
                let s = reason.as_str();
                if starts_with(s, "prompt:login") {
                    (false, "paused_login")
                } else if starts_with(s, "prompt:char_select") {
                    (false, "paused_char_select")
                } else if starts_with(s, "prompt:npc_trade") {
                    (false, "paused_npc_trade")
                } else {
                    (false, "paused_safety")
                }
            },
            None => (false, "paused_manual"),
        };
    }
    if d.bot_proc > HEALTH_MAX_PROC {
        return (false, "proc_slow");
    }
    if d.ticks_total == 0 {
        return (false, "not_started");
    }
    (true, "ok")
}

/// The longest path of a recording.
pub const RECORDING_PATH_LIMIT: usize = 256;

/// Whether a character may stand in the path of a recording.
pub open spec fn is_path_char(c: char) -> bool {
    ascii_alphanumeric(c) || c == '.' || c == '_' || c == '-' || c == '/' || c == '\\' || c == ':'
}

/// Whether a path may be recorded to.
pub open spec fn is_recording_path(p: Seq<char>) -> bool {
    0 < p.len() <= RECORDING_PATH_LIMIT && forall|i: int|
        0 <= i < p.len() ==> is_path_char(#[trigger] p[i])
}

fn is_plain(c: char) -> (r: bool)
    ensures
        r == ascii_alphanumeric(c),
{
    ('0' <= c && c <= '9') || ('A' <= c && c <= 'Z') || ('a' <= c && c <= 'z')
}

/// Whether a path may be recorded to.
pub fn is_safe_recording_path(p: &str) -> (r: bool)
    ensures
        r == is_recording_path(p@),
{
    let v: Vec<char> = chars_of(p);
    if v.len() == 0 || v.len() > RECORDING_PATH_LIMIT {
        return false;
    }
    let mut i: usize = 0;
    while i < v.len()
        invariant
            i <= v@.len(),
            0 < v@.len() <= RECORDING_PATH_LIMIT,
            v@ == p@,
            forall|j: int| 0 <= j < i ==> is_path_char(#[trigger] v@[j]),
        decreases v@.len() - i,
    {
        let c: char = v[i];
        if !(is_plain(c) || c == '.' || c == '_' || c == '-' || c == '/' || c == '\\' || c == ':') {
            assert(!is_path_char(v@[i as int]));
            return false;
        }
        i = i + 1;
    }
    true
}

/// The longest tag of a dataset.
pub const TAG_LIMIT: usize = 64;

/// Whether a character may stand in the tag of a dataset.
pub open spec fn is_tag_char(c: char) -> bool {
    ascii_alphanumeric(c) || c == '_' || c == '-' || c == '.'
}

/// The characters of a text that may stand in a tag.
pub open spec fn tag_chars(s: Seq<char>) -> Seq<char>
    decreases s.len(),
{
    if s.len() == 0 {
        Seq::empty()
    } else if is_tag_char(s.last()) {
        tag_chars(s.drop_last()).push(s.last())
    } else {
        tag_chars(s.drop_last())
    }
}

/// A text as a tag: what may stand in one, up to its longest.
pub open spec fn tag_of(s: Seq<char>) -> Seq<char> {
    let all = tag_chars(s);
    if all.len() <= TAG_LIMIT {
        all
    } else {
        all.take(TAG_LIMIT as int)
    }
}

proof fn tags_grow(s: Seq<char>, i: int)
    requires
        0 <= i <= s.len(),
    ensures
        tag_chars(s.take(i)).len() <= tag_chars(s).len(),
        tag_chars(s).take(tag_chars(s.take(i)).len() as int) == tag_chars(s.take(i)),
    decreases s.len(),
{
    if i == s.len() {
        assert(s.take(i) =~= s);
        assert(tag_chars(s).take(tag_chars(s).len() as int) =~= tag_chars(s));
    } else {
        tags_grow(s.drop_last(), i);
        assert(s.drop_last().take(i) =~= s.take(i));
        let n = tag_chars(s.take(i)).len() as int;
        assert(tag_chars(s).take(n) =~= tag_chars(s.drop_last()).take(n));
    }
}

/// A text as a tag.
pub fn sanitize_tag(s: &str) -> (r: String)
    ensures
        r@ == tag_of(s@),
{
    let v: Vec<char> = chars_of(s);
    let mut out: Vec<char> = Vec::new();
    let mut i: usize = 0;
    while i < v.len() && out.len() < TAG_LIMIT
        invariant
            i <= v@.len(),
            v@ == s@,
            out@ == tag_chars(v@.take(i as int)),
            out@.len() <= TAG_LIMIT,
        decreases v@.len() - i,
    {
        let c: char = v[i];
        assert(v@.take(i + 1).drop_last() =~= v@.take(i as int));
        if is_plain(c) || c == '_' || c == '-' || c == '.' {
            out.push(c);
        }
        i = i + 1;
    }
    proof {
        tags_grow(v@, i as int);
        if i == v@.len() {
            assert(v@.take(i as int) =~= v@);
        }
        assert(out@ =~= tag_of(s@));
    }
    from_chars(&out)
}

/// A tag holds nothing that would break a line of a table or of a log.
pub proof fn tags_are_plain(s: Seq<char>, i: int)
    requires
        0 <= i < tag_of(s).len(),
    ensures
        is_tag_char(tag_of(s)[i]),
        tag_of(s).len() <= TAG_LIMIT,
{
    plain_chars(s, i);
}

proof fn plain_chars(s: Seq<char>, i: int)
    requires
        0 <= i < tag_chars(s).len(),
    ensures
        is_tag_char(tag_chars(s)[i]),
    decreases s.len(),
{
    if i < tag_chars(s.drop_last()).len() {
        plain_chars(s.drop_last(), i);
    }
}

/// Where a token is set, a request passes only with that very token, except for the health check.
/// Without a token everyone passes.
pub proof fn only_the_token_opens(path: Seq<char>, token: Seq<char>, header: Seq<char>)
    ensures
        may_pass("/health"@, Some(token), None),
        may_pass(path, None, None),
        may_pass(path, Some(Seq::empty()), None),
        may_pass(path, Some(token), Some("Bearer "@ + token)),
        path != "/health"@ && token.len() > 0 ==> !may_pass(path, Some(token), None),
        path != "/health"@ && token.len() > 0 && header != "Bearer "@ + token ==> !may_pass(
            path,
            Some(token),
            Some(header),
        ),
{
}

/// The inner pages are those of vision, and eight others by name; no other page is one.
pub proof fn inner_pages_are_named(path: Seq<char>, rest: Seq<char>)
    ensures
        is_inner("/vision/"@ + rest),
        is_inner("/fsm/debug"@),
        is_inner("/combat/events"@),
        is_inner("/dispatch/stats"@),
        is_inner("/test/grab"@),
        is_inner("/test/inject_frame"@),
        is_inner("/cavebot/status"@),
        is_inner("/waypoints/status"@),
        is_inner("/scripts/status"@),
        is_inner(path) ==> (path.len() >= 8 && path.take(8) == "/vision/"@) || path == "/fsm/debug"@
            || path == "/combat/events"@ || path == "/dispatch/stats"@ || path == "/test/grab"@
            || path == "/test/inject_frame"@ || path == "/cavebot/status"@ || path
            == "/waypoints/status"@ || path == "/scripts/status"@,
{
    reveal_strlit("/vision/");
    assert("/vision/"@.len() == 8);
    let page = "/vision/"@ + rest;
    assert(page.subrange(0, 8) =~= "/vision/"@);
    if has_prefix(path, "/vision/"@) {
        assert(path.take(8) =~= path.subrange(0, 8));
    }
}

/// The bot is healthy exactly if there is a frame no older than two seconds, it is not paused, a
/// tick takes no more than fifty milliseconds on average, and there was one. Otherwise the first
/// of these that fails is named.
pub proof fn health_is_what_nothing_speaks_against(d: HealthDetails)
    ensures
        verdict(d).0 == (d.has_frame && (d.frame_age_ms matches Some(ms) ==> ms <= 2_000)
            && !d.is_paused && d.bot_proc <= 50_000_000 && d.ticks_total > 0),
        verdict(d).0 ==> verdict(d).1 == "ok"@,
        !d.has_frame ==> verdict(d).1 == "no_frame"@,
        d.has_frame && (d.frame_age_ms matches Some(ms) && ms > 2_000) ==> verdict(d).1
            == "stale_frame"@,
        d.has_frame && (d.frame_age_ms matches Some(ms) ==> ms <= 2_000) && d.is_paused
            && d.safety_pause_reason is None ==> verdict(d).1 == "paused_manual"@,
        d.has_frame && (d.frame_age_ms matches Some(ms) ==> ms <= 2_000) && d.is_paused ==> verdict(
            d,
        ).1 == pause_verdict(d.safety_pause_reason),
        d.has_frame && (d.frame_age_ms matches Some(ms) ==> ms <= 2_000) && !d.is_paused
            && d.bot_proc > 50_000_000 ==> verdict(d).1 == "proc_slow"@,
        d.has_frame && (d.frame_age_ms matches Some(ms) ==> ms <= 2_000) && !d.is_paused
            && d.bot_proc <= 50_000_000 && d.ticks_total == 0 ==> verdict(d).1 == "not_started"@,
{
}

/// A pause is told by its reason: the three prompts by name, other reasons as a matter of safety,
/// and none as the operator's.
pub proof fn a_pause_is_told_by_its_reason(reason: String)
    ensures
        pause_verdict(None) == "paused_manual"@,
        has_prefix(reason@, "prompt:login"@) ==> pause_verdict(Some(reason)) == "paused_login"@,
        has_prefix(reason@, "prompt:char_select"@) ==> pause_verdict(Some(reason))
            == "paused_char_select"@,
        has_prefix(reason@, "prompt:npc_trade"@) ==> pause_verdict(Some(reason))
            == "paused_npc_trade"@,
        !has_prefix(reason@, "prompt:"@) ==> pause_verdict(Some(reason)) == "paused_safety"@,
{
    reveal_strlit("prompt:login");
    reveal_strlit("prompt:char_select");
    reveal_strlit("prompt:npc_trade");
    reveal_strlit("prompt:");
    let s = reason@;
    if has_prefix(s, "prompt:login"@) {
        assert(s[7] == s.subrange(0, 12)[7]);
        assert(s[7] == 'l');
        assert(s.subrange(0, 7) =~= s.subrange(0, 12).subrange(0, 7));
        assert(s.subrange(0, 7) =~= "prompt:"@);
    }
    if has_prefix(s, "prompt:char_select"@) {
        assert(s[7] == s.subrange(0, 18)[7]);
        assert(s[7] == 'c');
        assert(s.subrange(0, 7) =~= s.subrange(0, 18).subrange(0, 7));
        assert(s.subrange(0, 7) =~= "prompt:"@);
    }
    if has_prefix(s, "prompt:npc_trade"@) {
        assert(s[7] == s.subrange(0, 16)[7]);
        assert(s[7] == 'n');
        assert(s.subrange(0, 7) =~= s.subrange(0, 16).subrange(0, 7));
        assert(s.subrange(0, 7) =~= "prompt:"@);
    }
}

/// A path for a recording has at least one and at most 256 characters, all of them letters or
/// digits of ASCII or among a few signs.
pub proof fn recording_paths_are_plain(p: Seq<char>, i: int)
    ensures
        is_recording_path(p) ==> 1 <= p.len() <= 256,
        is_recording_path(p) && 0 <= i < p.len() ==> ('0' <= p[i] <= '9') || ('A' <= p[i] <= 'Z')
            || ('a' <= p[i] <= 'z') || p[i] == '.' || p[i] == '_' || p[i] == '-' || p[i] == '/'
            || p[i] == '\\' || p[i] == ':',
        0 < p.len() <= 256 && (forall|k: int|
            0 <= k < p.len() ==> ('0' <= #[trigger] p[k] <= '9') || ('A' <= p[k] <= 'Z') || ('a'
                <= p[k] <= 'z') || p[k] == '.' || p[k] == '_' || p[k] == '-' || p[k] == '/' || p[k]
                == '\\' || p[k] == ':') ==> is_recording_path(p),
{
}

/// A tag is made of the letters, digits, underscores, hyphens and points of a text, in order, as
/// far as the first sixty-four of them; nothing else of the text is in it.
pub proof fn a_tag_keeps_plain_characters(a: Seq<char>, b: Seq<char>, c: char)
    ensures
        tag_chars(a + b) == tag_chars(a) + tag_chars(b),
        ('0' <= c <= '9') || ('A' <= c <= 'Z') || ('a' <= c <= 'z') || c == '_' || c == '-' || c
            == '.' ==> tag_chars(seq![c]) == seq![c],
        !(('0' <= c <= '9') || ('A' <= c <= 'Z') || ('a' <= c <= 'z') || c == '_' || c == '-' || c
            == '.') ==> tag_chars(seq![c]) == Seq::<char>::empty(),
        tag_chars(a).len() <= 64 ==> tag_of(a) == tag_chars(a),
        tag_chars(a).len() > 64 ==> tag_of(a) == tag_chars(a).take(64),
    decreases b.len(),
{
    reveal_with_fuel(tag_chars, 2);
    assert(seq![c].drop_last() =~= Seq::<char>::empty());
    assert(seq![c].last() == c);
    if is_tag_char(c) {
        assert(tag_chars(seq![c]) =~= seq![c]);
    }
    if b.len() == 0 {
        assert(a + b =~= a);
        assert(tag_chars(a) + tag_chars(b) =~= tag_chars(a));
    } else {
        a_tag_keeps_plain_characters(a, b.drop_last(), c);
        assert((a + b).drop_last() =~= a + b.drop_last());
        assert((a + b).last() == b.last());
        assert(tag_chars(a + b) =~= tag_chars(a) + tag_chars(b));
    }
}

} // verus!
