//! Requests of the operator: what they turn into, and how they are answered.

use vstd::prelude::*;
use vstd::string::*;

use crate::config::Config;
use crate::keycode::KeyMap;
use crate::loop_::commands::LoopCommand;
use crate::remote::access::{is_safe_recording_path, is_recording_path, sanitize_tag, tag_of};
use crate::remote::picture::Frame;
use crate::state::text_of;
use crate::text::{decimal, push_decimal, same, texts};

verus! {

/// The largest file that is loaded, in bytes.
pub const MAX_LOAD_FILE_BYTES: u64 = 1_048_576;

/// The answer to a command.
#[derive(Clone, Debug)]
pub struct CommandAck {
    pub ok: bool,
    pub message: String,
}

/// A path with links and dots resolved: as it is shown, its parts from the root on, and the
/// size of the file that it leads to, if it leads to one.
#[derive(Clone, Debug)]
pub struct ResolvedPath {
    pub shown: String,
    pub parts: Vec<String>,
    pub file_len: Option<u64>,
}

/// Whether a path lies in a directory or is that directory.
pub open spec fn is_inside(path: Seq<Seq<char>>, dir: Seq<Seq<char>>) -> bool {
    dir.len() <= path.len() && path.take(dir.len() as int) == dir
}

fn lies_inside(path: &Vec<String>, dir: &Vec<String>) -> (r: bool)
    ensures
        r == is_inside(texts(path@), texts(dir@)),
{
    let ghost p = texts(path@);
    let ghost d = texts(dir@);
    if dir.len() > path.len() {
        return false;
    }
    let mut i: usize = 0;
    while i < dir.len()
        invariant
            i <= dir@.len() <= path@.len(),
            p == texts(path@),
            d == texts(dir@),
            forall|j: int| 0 <= j < i ==> p[j] == d[j],
        decreases dir@.len() - i,
    {
        if !same(path[i].as_str(), dir[i].as_str()) {
            assert(p.take(d.len() as int)[i as int] != d[i as int]);
            return false;
        }
        i = i + 1;
    }
    assert(p.take(d.len() as int) =~= d);
    true
}

/// What is said of a path that cannot be resolved.
pub open spec fn unresolved_text(path: Seq<char>, reason: Seq<char>) -> Seq<char> {
    "path '"@ + path + "' no resolvable: "@ + reason
}

/// What is said of a path that leads out of the permitted directory.
pub open spec fn escape_text(path: Seq<char>, dir: Seq<char>) -> Seq<char> {
    "path '"@ + path + "' escapa del directorio permitido '"@ + dir + "'"@
}

/// What is said of a file that is too large.
pub open spec fn too_large_text(path: Seq<char>, len: u64) -> Seq<char> {
    "archivo '"@ + path + "' excede el l\u{ed}mite ("@ + decimal(len as nat) + " bytes > "@ + decimal(
        MAX_LOAD_FILE_BYTES as nat,
    ) + ")"@
}

/// The path to load from, or what is said of it.
pub open spec fn load_verdict(
    user_path: Seq<char>,
    resolved: Result<ResolvedPath, String>,
    dir: ResolvedPath,
) -> Result<Seq<char>, Seq<char>> {
    match resolved {
        Err(reason) => Err(unresolved_text(user_path, reason@)),
        Ok(path) => if !is_inside(texts(path.parts@), texts(dir.parts@)) {
            Err(escape_text(path.shown@, dir.shown@))
        } else if path.file_len is Some && path.file_len->Some_0 > MAX_LOAD_FILE_BYTES {
            Err(too_large_text(path.shown@, path.file_len->Some_0))
        } else {
            Ok(path.shown@)
        },
    }
}

/// Whether a result says what it should.
pub open spec fn says(r: Result<String, String>, v: Result<Seq<char>, Seq<char>>) -> bool {
    match r {
        Ok(s) => v == Ok::<Seq<char>, Seq<char>>(s@),
        Err(s) => v == Err::<Seq<char>, Seq<char>>(s@),
    }
}

/// Checks that a path leads into the permitted directory, and to no file that is too large.
pub fn validate_load_path(
    user_path: &str,
    resolved: Result<ResolvedPath, String>,
    dir: &ResolvedPath,
) -> (r: Result<String, String>)
    ensures
        says(r, load_verdict(user_path@, resolved, *dir)),
{
    match resolved {
        Err(reason) => {
            let mut s = "path '".to_owned();
            s.append(user_path);
            s.append("' no resolvable: ");
            s.append(reason.as_str());
            Err(s)
        },
        Ok(path) => {
            if !lies_inside(&path.parts, &dir.parts) {
                let mut s = "path '".to_owned();
                s.append(path.shown.as_str());
                s.append("' escapa del directorio permitido '");
                s.append(dir.shown.as_str());
                s.append("'");
                return Err(s);
            }
            if let Some(len) = path.file_len {
                if len > MAX_LOAD_FILE_BYTES {
                    let mut s = "archivo '".to_owned();
                    s.append(path.shown.as_str());
                    s.append("' excede el l\u{ed}mite (");
                    push_decimal(&mut s, len);
                    s.append(" bytes > ");
                    push_decimal(&mut s, MAX_LOAD_FILE_BYTES);
                    s.append(")");
                    return Err(s);
                }
            }
            Ok(path.shown)
        },
    }
}

/// Nothing is loaded from outside the permitted directory, and nothing that is too large.
pub proof fn only_permitted_files_are_loaded(
    user_path: Seq<char>,
    resolved: Result<ResolvedPath, String>,
    dir: ResolvedPath,
)
    requires
        load_verdict(user_path, resolved, dir) is Ok,
    ensures
        resolved is Ok,
        is_inside(texts(resolved->Ok_0.parts@), texts(dir.parts@)),
        resolved->Ok_0.file_len matches Some(len) ==> len <= MAX_LOAD_FILE_BYTES,
{
}

/// The answer that a command was queued, or why it was not.
pub open spec fn is_ack(
    r: CommandAck,
    queued: Seq<char>,
    trouble: Seq<char>,
    failure: Option<Seq<char>>,
) -> bool {
    match failure {
        None => r.ok && r.message@ == "queued "@ + queued,
        Some(reason) => !r.ok && r.message@ == trouble + reason,
    }
}

/// The answer that a command was queued, or why it was not.
pub fn acknowledge(queued: &str, trouble: &str, failure: Option<String>) -> (r: CommandAck)
    ensures
        is_ack(r, queued@, trouble@, text_of(failure)),
{
    match failure {
        None => {
            let mut message = "queued ".to_owned();
            message.append(queued);
            CommandAck { ok: true, message }
        },
        Some(reason) => {
            let mut message = trouble.to_owned();
            message.append(reason.as_str());
            CommandAck { ok: false, message }
        },
    }
}

/// The answer to a command without arguments.
pub fn send_cmd(name: &str, failure: Option<String>) -> (r: CommandAck)
    ensures
        is_ack(r, name@, "channel error: "@, text_of(failure)),
{
    acknowledge(name, "channel error: ", failure)
}

/// The answer that a path was refused.
pub open spec fn is_refusal(r: CommandAck, what: Seq<char>, reason: Seq<char>) -> bool {
    !r.ok && r.message@ == what + reason
}

fn refuse(what: &str, reason: &str) -> (r: CommandAck)
    ensures
        is_refusal(r, what@, reason@),
{
    let mut message = what.to_owned();
    message.append(reason);
    CommandAck { ok: false, message }
}

/// The word for a condition.
pub open spec fn bool_text(b: bool) -> Seq<char> {
    if b {
        "true"@
    } else {
        "false"@
    }
}

fn bool_word(b: bool) -> (r: &'static str)
    ensures
        r@ == bool_text(b),
{
    if b {
        "true"
    } else {
        "false"
    }
}

/// How the loading of a route is announced.
pub open spec fn load_text(name: Seq<char>, path: Seq<char>, enabled: bool) -> Seq<char> {
    name + " path='"@ + path + "' enabled="@ + bool_text(enabled)
}

/// The answer to the loading of a route.
pub fn ack_load(name: &str, path: &str, enabled: bool, failure: Option<String>) -> (r: CommandAck)
    ensures
        is_ack(r, load_text(name@, path@, enabled), "channel error: "@, text_of(failure)),
{
    let mut s = name.to_owned();
    s.append(" path='");
    s.append(path);
    s.append("' enabled=");
    s.append(bool_word(enabled));
    acknowledge(s.as_str(), "channel error: ", failure)
}

/// The command that loads waypoints from a path that was checked, or the refusal.
pub fn request_waypoints(checked: Result<String, String>, enabled: bool) -> (r: Result<
    LoopCommand,
    CommandAck,
>)
    ensures
        checked matches Ok(path) ==> r == Ok::<LoopCommand, CommandAck>(
            LoopCommand::LoadWaypoints { path, enabled },
        ),
        checked matches Err(reason) ==> r is Err && is_refusal(
            r->Err_0,
            "path rejected: "@,
            reason@,
        ),
{
    match checked {
        Ok(path) => Ok(LoopCommand::LoadWaypoints { path, enabled }),
        Err(reason) => Err(refuse("path rejected: ", reason.as_str())),
    }
}

/// The command that loads a cavebot from a path that was checked, or the refusal.
pub fn request_cavebot(checked: Result<String, String>, enabled: bool) -> (r: Result<
    LoopCommand,
    CommandAck,
>)
    ensures
        checked matches Ok(path) ==> r == Ok::<LoopCommand, CommandAck>(
            LoopCommand::LoadCavebot { path, enabled },
        ),
        checked matches Err(reason) ==> r is Err && is_refusal(
            r->Err_0,
            "path rejected: "@,
            reason@,
        ),
{
    match checked {
        Ok(path) => Ok(LoopCommand::LoadCavebot { path, enabled }),
        Err(reason) => Err(refuse("path rejected: ", reason.as_str())),
    }
}

/// The command that reloads the scripts, from a path that was checked if one was named, or the
/// refusal.
pub fn request_reload(checked: Option<Result<String, String>>) -> (r: Result<
    LoopCommand,
    CommandAck,
>)
    ensures
        checked is None ==> r == Ok::<LoopCommand, CommandAck>(
            LoopCommand::ReloadScripts { path: None },
        ),
        checked matches Some(Ok(path)) ==> r == Ok::<LoopCommand, CommandAck>(
            LoopCommand::ReloadScripts { path: Some(path) },
        ),
        checked matches Some(Err(reason)) ==> r is Err && is_refusal(
            r->Err_0,
            "path rejected: "@,
            reason@,
        ),
{
    match checked {
        None => Ok(LoopCommand::ReloadScripts { path: None }),
        Some(Ok(path)) => Ok(LoopCommand::ReloadScripts { path: Some(path) }),
        Some(Err(reason)) => Err(refuse("path rejected: ", reason.as_str())),
    }
}

/// The answer to the reloading of the scripts.
pub fn ack_reload(path: Option<String>, failure: Option<String>) -> (r: CommandAck)
    ensures
        is_ack(
            r,
            "ReloadScripts path="@ + match path {
                Some(p) => p@,
                None => "<config>"@,
            },
            "channel error: "@,
            text_of(failure),
        ),
{
    let mut s = "ReloadScripts path=".to_owned();
    match &path {
        Some(p) => s.append(p.as_str()),
        None => s.append("<config>"),
    }
    acknowledge(s.as_str(), "channel error: ", failure)
}

/// The answer to a jump of the cavebot.
pub fn ack_jump(label: &str, failure: Option<String>) -> (r: CommandAck)
    ensures
        is_ack(
            r,
            "JumpToCavebotLabel label='"@ + label@ + "'"@,
            "send error: "@,
            text_of(failure),
        ),
{
    let mut s = "JumpToCavebotLabel label='".to_owned();
    s.append(label);
    s.append("'");
    acknowledge(s.as_str(), "send error: ", failure)
}

/// The answer to the start of a recording of perceptions.
pub fn ack_recording(path: Option<&str>, failure: Option<String>) -> (r: CommandAck)
    ensures
        is_ack(
            r,
            "StartRecording path='"@ + match path {
                Some(p) => p@,
                None => "session.jsonl"@,
            } + "'"@,
            "channel error: "@,
            text_of(failure),
        ),
{
    let mut s = "StartRecording path='".to_owned();
    match path {
        Some(p) => s.append(p),
        None => s.append("session.jsonl"),
    }
    s.append("'");
    acknowledge(s.as_str(), "channel error: ", failure)
}

/// The interval of a dataset in ticks: at least 1, and 15 if none is named.
pub open spec fn dataset_interval(interval: Option<u32>) -> u32 {
    match interval {
        Some(0) => 1,
        Some(n) => n,
        None => 15,
    }
}

/// The tag of a dataset.
pub open spec fn dataset_tag(tag: Option<String>) -> Seq<char> {
    tag_of(
        match tag {
            Some(t) => t@,
            None => "untagged"@,
        },
    )
}

/// The command that starts a dataset, or the refusal: the directory that was checked is refused,
/// or nothing is left of the tag.
pub fn request_dataset(
    checked: Result<String, String>,
    interval: Option<u32>,
    tag: Option<String>,
) -> (r: Result<LoopCommand, CommandAck>)
    ensures
        checked matches Err(reason) ==> r is Err && is_refusal(
            r->Err_0,
            "dir rejected: "@,
            reason@,
        ),
        checked is Ok && dataset_tag(tag).len() == 0 ==> r is Err && is_refusal(
            r->Err_0,
            "tag rejected: "@,
            "vac\u{ed}o tras sanitizaci\u{f3}n (usar solo [a-zA-Z0-9_.-])"@,
        ),
        checked is Ok && dataset_tag(tag).len() > 0 ==> {
            &&& r is Ok
            &&& r->Ok_0 is StartDatasetCapture
            &&& r->Ok_0->StartDatasetCapture_dir == checked->Ok_0
            &&& r->Ok_0->StartDatasetCapture_interval == dataset_interval(interval)
            &&& r->Ok_0->StartDatasetCapture_tag@ == dataset_tag(tag)
        },
{
    let dir = match checked {
        Ok(dir) => dir,
        Err(reason) => {
            return Err(refuse("dir rejected: ", reason.as_str()));
        },
    };
    let interval: u32 = match interval {
        Some(n) => if n == 0 {
            1
        } else {
            n
        },
        None => 15,
    };
    let clean = match &tag {
        Some(t) => sanitize_tag(t.as_str()),
        None => sanitize_tag("untagged"),
    };
    if crate::text::is_blank(clean.as_str()) {
        return Err(
            refuse(
                "tag rejected: ",
                "vac\u{ed}o tras sanitizaci\u{f3}n (usar solo [a-zA-Z0-9_.-])",
            ),
        );
    }
    Ok(LoopCommand::StartDatasetCapture { dir, interval, tag: clean })
}

/// The answer to the start of a dataset.
pub fn ack_dataset(dir: &str, interval: u32, tag: &str, failure: Option<String>) -> (r: CommandAck)
    ensures
        is_ack(
            r,
            "StartDatasetCapture dir='"@ + dir@ + "' interval="@ + decimal(interval as nat)
                + " tag='"@ + tag@ + "'"@,
            "channel error: "@,
            text_of(failure),
        ),
{
    let mut s = "StartDatasetCapture dir='".to_owned();
    s.append(dir);
    s.append("' interval=");
    push_decimal(&mut s, interval as u64);
    s.append(" tag='");
    s.append(tag);
    s.append("'");
    acknowledge(s.as_str(), "channel error: ", failure)
}

/// Where the metrics are recorded to and how often they are pushed out, as asked for or as
/// usual; the last says whether the path may be used.
pub fn request_metrics_recording(path: Option<String>, flush_every: Option<u32>) -> (r: (
    String,
    u32,
    bool,
))
    ensures
        r.0@ == match path {
            Some(p) => p@,
            None => "session.metrics.jsonl"@,
        },
        r.1 == match flush_every {
            Some(0) => 1u32,
            Some(n) => n,
            None => 30,
        },
        r.2 == is_recording_path(r.0@),
{
    let path = match path {
        Some(p) => p,
        None => "session.metrics.jsonl".to_owned(),
    };
    let flush_every: u32 = match flush_every {
        Some(n) => if n == 0 {
            1
        } else {
            n
        },
        None => 30,
    };
    let usable = is_safe_recording_path(path.as_str());
    (path, flush_every, usable)
}

/// The key that a test of the actuator presses, or why it presses none.
pub fn request_test_key(is_paused: bool, code: &str, keys: &KeyMap) -> (r: Result<u8, String>)
    ensures
        !is_paused ==> r is Err && r->Err_0@ == "bot must be paused to use /test/key"@,
        is_paused && keys.code_of(code@) is Some ==> r == Ok::<u8, String>(
            keys.code_of(code@)->Some_0,
        ),
        is_paused && keys.code_of(code@) is None ==> r is Err && r->Err_0@
            == "keycode parse error: "@ + code@,
{
    if !is_paused {
        return Err("bot must be paused to use /test/key".to_owned());
    }
    match keys.parse(code) {
        Some(key) => Ok(key),
        None => {
            let mut s = "keycode parse error: ".to_owned();
            s.append(code);
            Err(s)
        },
    }
}

/// The key that a test of the healing spell presses, or why it presses none.
pub fn request_test_heal(is_paused: bool, config: &Config, keys: &KeyMap) -> (r: Result<u8, String>)
    ensures
        !is_paused ==> r is Err && r->Err_0@ == "bot must be paused to use /test/heal"@,
        is_paused ==> match config.hotkeys_spec(*keys) {
            Ok(hotkeys) => r == Ok::<u8, String>(hotkeys.heal_spell),
            Err(e) => r is Err && r->Err_0@ == "hotkeys inv\u{e1}lidas: "@ + e.told(),
        },
{
    if !is_paused {
        return Err("bot must be paused to use /test/heal".to_owned());
    }
    match config.hotkeys(keys) {
        Ok(hotkeys) => Ok(hotkeys.heal_spell),
        Err(e) => {
            let mut s = "hotkeys inv\u{e1}lidas: ".to_owned();
            s.append(e.text().as_str());
            Err(s)
        },
    }
}

/// What a picture file shows: its width, its height, and its pixels, row by row, each with its
/// red, green, blue and alpha; or why it cannot be read.
pub uninterp spec fn picture_pixels(file: Seq<u8>) -> Result<(u32, u32, Seq<u8>), Seq<char>>;

/// `image::load_from_memory`, then `DynamicImage::to_rgba8`: what the file shows, or why it
/// cannot be read. The format is told from the first bytes.
#[verifier::external_body]
fn read_picture(file: &[u8]) -> (r: Result<(u32, u32, Vec<u8>), String>)
    ensures
        (r is Ok) == (picture_pixels(file@) is Ok),
        r is Ok ==> (r->Ok_0.0, r->Ok_0.1, r->Ok_0.2@) == picture_pixels(file@)->Ok_0,
        r is Err ==> r->Err_0@ == picture_pixels(file@)->Err_0,
{
    match image::load_from_memory(file) {
        Ok(image) => {
            let rgba = image.to_rgba8();
            Ok((rgba.width(), rgba.height(), rgba.into_raw()))
        },
        Err(e) => Err(e.to_string()),
    }
}

/// A picture to be taken for the screen, or why there is none.
pub fn request_inject_frame(body: &[u8]) -> (r: Result<Frame, String>)
    ensures
        body@.len() == 0 ==> r is Err && r->Err_0@
            == "body vac\u{ed}o \u{2014} se esperaba un PNG"@,
        body@.len() > 0 && picture_pixels(body@) is Err ==> r is Err && r->Err_0@
            == "PNG inv\u{e1}lido: "@ + picture_pixels(body@)->Err_0,
        body@.len() > 0 && picture_pixels(body@) is Ok ==> {
            &&& r is Ok
            &&& picture_pixels(body@)->Ok_0 == (r->Ok_0.width, r->Ok_0.height, r->Ok_0.data@)
        },
{
    if body.len() == 0 {
        return Err("body vac\u{ed}o \u{2014} se esperaba un PNG".to_owned());
    }
    match read_picture(body) {
        Ok((width, height, data)) => Ok(Frame { width, height, data }),
        Err(reason) => {
            let mut s = "PNG inv\u{e1}lido: ".to_owned();
            s.append(reason.as_str());
            Err(s)
        },
    }
}

/// The sum of counts, held at the largest that can be written.
pub open spec fn total_of(counts: Seq<u64>) -> int
    decreases counts.len(),
{
    if counts.len() == 0 {
        0
    } else {
        let sum = total_of(counts.drop_last()) + counts.last();
        if sum > u64::MAX {
            u64::MAX as int
        } else {
            sum
        }
    }
}

/// The sum of counts.
pub fn total_count(counts: &Vec<u64>) -> (r: u64)
    ensures
        r == total_of(counts@),
{
    let mut sum: u64 = 0;
    let mut i: usize = 0;
    while i < counts.len()
        invariant
            i <= counts@.len(),
            sum == total_of(counts@.take(i as int)),
        decreases counts@.len() - i,
    {
        assert(counts@.take(i + 1).drop_last() =~= counts@.take(i as int));
        sum = sum.saturating_add(counts[i]);
        i = i + 1;
    }
    assert(counts@.take(i as int) =~= counts@);
    sum
}

/// A file may be loaded exactly if its path could be resolved, lies in the permitted directory, and
/// is no longer than a mebibyte as far as its length is known. It is then told by the path that it
/// was resolved to.
pub proof fn a_file_may_be_loaded_from_its_directory(
    user_path: Seq<char>,
    resolved: Result<ResolvedPath, String>,
    dir: ResolvedPath,
)
    ensures
        (load_verdict(user_path, resolved, dir) is Ok) == (resolved matches Ok(path) && is_inside(
            texts(path.parts@),
            texts(dir.parts@),
        ) && (path.file_len matches Some(len) ==> len <= 1_048_576)),
        load_verdict(user_path, resolved, dir) matches Ok(shown) ==> (resolved matches Ok(path)
            && shown == path.shown@),
        resolved matches Err(reason) ==> load_verdict(user_path, resolved, dir) == Err::<
            Seq<char>,
            Seq<char>,
        >("path '"@ + user_path + "' no resolvable: "@ + reason@),
        resolved matches Ok(path) ==> (!is_inside(texts(path.parts@), texts(dir.parts@))
            ==> load_verdict(user_path, resolved, dir) == Err::<Seq<char>, Seq<char>>(
            "path '"@ + path.shown@ + "' escapa del directorio permitido '"@ + dir.shown@ + "'"@,
        )),
{
}

/// A path lies in a directory exactly if its parts are those of the directory with some behind
/// them.
pub proof fn a_path_inside_continues_the_directory(path: Seq<Seq<char>>, dir: Seq<Seq<char>>)
    ensures
        is_inside(path, dir) == exists|rest: Seq<Seq<char>>| path == #[trigger] (dir + rest),
{
    if is_inside(path, dir) {
        let rest = path.skip(dir.len() as int);
        assert(path =~= dir + rest);
    }
    if exists|rest: Seq<Seq<char>>| path == #[trigger] (dir + rest) {
        let rest = choose|rest: Seq<Seq<char>>| path == #[trigger] (dir + rest);
        assert(path.take(dir.len() as int) =~= dir);
    }
}

/// A command that was queued is acknowledged with its name, and one that was not with what went
/// wrong.
pub proof fn an_answer_tells_what_became_of_it(
    r: CommandAck,
    queued: Seq<char>,
    trouble: Seq<char>,
    reason: Seq<char>,
)
    ensures
        is_ack(r, queued, trouble, None) ==> r.ok && r.message@ == "queued "@ + queued,
        is_ack(r, queued, trouble, Some(reason)) ==> !r.ok && r.message@ == trouble + reason,
        is_refusal(r, trouble, reason) ==> !r.ok && r.message@ == trouble + reason,
        load_text(queued, reason, true) == queued + " path='"@ + reason + "' enabled="@ + "true"@,
        load_text(queued, reason, false) == queued + " path='"@ + reason + "' enabled="@
            + "false"@,
{
}

/// A capture goes by the interval that was asked for, at least every tick, and by half a second of
/// thirty ticks where none was.
pub proof fn a_capture_has_an_interval(n: u32)
    ensures
        dataset_interval(None) == 15,
        n > 0 ==> dataset_interval(Some(n)) == n,
        dataset_interval(Some(0)) == 1,
{
}

/// A capture without a tag of its own is tagged as untagged; any other with the plain characters of
/// its tag.
pub proof fn a_capture_has_a_tag(t: String)
    ensures
        dataset_tag(None) == tag_of("untagged"@),
        dataset_tag(Some(t)) == tag_of(t@),
{
}

/// The plain sum of counts.
pub open spec fn plain_sum(counts: Seq<u64>) -> int
    decreases counts.len(),
{
    if counts.len() == 0 {
        0
    } else {
        counts[0] + plain_sum(counts.drop_first())
    }
}

proof fn sum_from_the_end(counts: Seq<u64>)
    requires
        counts.len() > 0,
    ensures
        plain_sum(counts) == plain_sum(counts.drop_last()) + counts.last(),
        plain_sum(counts.drop_last()) >= 0,
    decreases counts.len(),
{
    if counts.len() == 1 {
        assert(counts.drop_first() =~= Seq::<u64>::empty());
        assert(counts.drop_last() =~= Seq::<u64>::empty());
    } else {
        sum_from_the_end(counts.drop_first());
        assert(counts.drop_first().drop_last() =~= counts.drop_last().drop_first());
        assert(counts.drop_first().last() == counts.last());
        assert(counts.drop_last()[0] == counts[0]);
    }
}

/// The total of counts is their sum, up to the largest number.
pub proof fn a_total_is_the_sum(counts: Seq<u64>)
    ensures
        plain_sum(counts) <= u64::MAX ==> total_of(counts) == plain_sum(counts),
        plain_sum(counts) > u64::MAX ==> total_of(counts) == u64::MAX,
        plain_sum(counts) >= 0,
    decreases counts.len(),
{
    if counts.len() > 0 {
        a_total_is_the_sum(counts.drop_last());
        sum_from_the_end(counts);
    }
}

} // verus!
