//! The script engine: loads scripts, calls their hooks, and keeps what came of it.

use vstd::prelude::*;
use vstd::string::*;

use crate::fsm::HP_CRITICAL_RATIO;
use crate::keycode::KeyMap;
use crate::scripting::files::{in_load_order, is_load_order, scripts_of, ScriptFile};
use crate::scripting::vm::{
    call_function, can_answer, can_end, can_keep, can_lack_bot, can_lack_context, can_lack_function, can_queue, can_read, context_table,
    describes, get_function, globals_of, has_function, holds_table, install_bot, is_hooked, plain_globals, remove_global, run_chunk,
    take_output, HookArgs,
};
use crate::scripting::{HookOutcome, LogLine, ScriptOutput, ScriptResult, TickContext};
use crate::state::text_of;
use crate::text::{has_prefix, millionths, push_millionths, same, texts};
use crate::units::Ppm;

verus! {

/// What the engine has noted: the scripts that ran, the errors of the last round, and what
/// scripts asked to type and to log.
#[derive(Debug)]
pub struct ScriptRecord {
    pub loaded_files: Vec<String>,
    pub last_errors: Vec<String>,
    pub said: Vec<String>,
    pub logged: Vec<LogLine>,
}

/// An interpreter with the scripts that it has run.
pub struct ScriptEngine {
    pub lua: mlua::Lua,
    pub record: ScriptRecord,
    /// How long a hook may run, in microseconds; 0 for as long as it likes. The engine has no
    /// clock: whoever calls hooks has to tell the interpreter to look at
    /// [`check_budget`](crate::scripting::vm::check_budget) as it goes, and to fail the hook with
    /// what that says. Without it a hook that does not end is never stopped.
    pub tick_budget_us: u64,
}

/// What is in a script directory.
#[derive(Debug)]
pub enum DirListing {
    Missing,
    /// Why it could not be read.
    Unreadable(String),
    Files(Vec<ScriptFile>),
}

/// Why scripts were not loaded.
#[derive(Debug)]
pub enum LoadError {
    /// No clean interpreter could be had.
    Reset(String),
    Missing,
    Unreadable(String),
}

/// What the hooks of a tick asked for.
#[derive(Debug)]
pub struct TickHooks {
    pub on_tick: ScriptResult,
    pub on_low_hp: ScriptResult,
}

/// The texts in a [`ScriptResult`].
pub enum ResultModel {
    Noop,
    Hotkey(u8),
    Error(Seq<char>),
}

impl View for ScriptResult {
    type V = ResultModel;

    open spec fn view(&self) -> ResultModel {
        match *self {
            ScriptResult::Noop => ResultModel::Noop,
            ScriptResult::Hotkey(code) => ResultModel::Hotkey(code),
            ScriptResult::Error(text) => ResultModel::Error(text@),
        }
    }
}

/// Whether scripts must not see the global of this name.
pub open spec fn is_sandboxed(name: Seq<char>) -> bool {
    ||| name == "io"@
    ||| name == "os"@
    ||| name == "package"@
    ||| name == "require"@
    ||| name == "dofile"@
    ||| name == "loadfile"@
    ||| name == "debug"@
}

/// What scripts must not see, in the order in which it is taken away.
pub open spec fn sandbox_order() -> Seq<Seq<char>> {
    seq!["io"@, "os"@, "package"@, "require"@, "dofile"@, "loadfile"@, "debug"@]
}

/// Globals without the first `n` that scripts must not see.
pub open spec fn without_first(globals: Map<Seq<char>, bool>, n: int) -> Map<Seq<char>, bool> {
    globals.remove_keys(sandbox_order().take(n).to_set())
}

/// Whether one interpreter is the other without what scripts must not see; all else is there.
pub open spec fn is_sandbox_of(clean: mlua::Lua, lua: mlua::Lua) -> bool {
    plain_globals(clean) && globals_of(clean) == without_first(
        globals_of(lua),
        sandbox_order().len() as int,
    )
}

/// Whether the name at place `i` is the first that cannot be taken away, which fails with this
/// message once the names before it are gone.
pub open spec fn is_kept_at(lua: mlua::Lua, at: mlua::Lua, i: int, failure: Seq<char>) -> bool {
    &&& 0 <= i < sandbox_order().len()
    &&& plain_globals(at)
    &&& globals_of(at) == without_first(globals_of(lua), i)
    &&& can_keep(at, sandbox_order()[i], failure)
}

/// Whether taking away what scripts must not see can fail with this message.
pub open spec fn can_stay_open(lua: mlua::Lua, failure: Seq<char>) -> bool {
    exists|at: mlua::Lua, i: int| #[trigger] is_kept_at(lua, at, i, failure)
}

/// An interpreter as it is made: there is no hook.
pub open spec fn is_new(lua: mlua::Lua) -> bool {
    &&& plain_globals(lua)
    &&& forall|name: Seq<char>|
        has_prefix(name, "on_"@) ==> !(#[trigger] globals_of(lua).contains_key(name))
}

/// Whether a new interpreter can fail with this message to lose what scripts must not see.
pub open spec fn is_sandbox_failure(failure: Seq<char>) -> bool {
    exists|lua: mlua::Lua| #[trigger] is_new(lua) && can_stay_open(lua, failure)
}

/// Whether a new interpreter that has lost what scripts must not see can fail with this message
/// to get the table `bot`.
pub open spec fn is_api_failure(failure: Seq<char>) -> bool {
    exists|lua: mlua::Lua, clean: mlua::Lua|
        is_new(lua) && #[trigger] is_sandbox_of(clean, lua) && can_lack_bot(clean, failure)
}

/// An interpreter that no script has touched: what scripts must not see is gone, the table `bot`
/// is there, and there is no hook.
pub open spec fn is_fresh(lua: mlua::Lua) -> bool {
    &&& plain_globals(lua)
    &&& globals_of(lua).contains_key("bot"@) && !globals_of(lua)["bot"@]
    &&& forall|name: Seq<char>|
        is_sandboxed(name) || has_prefix(name, "on_"@) ==> !(#[trigger] globals_of(
            lua,
        ).contains_key(name))
}

/// What is wrong with the outcome of a hook, if anything is.
pub open spec fn hook_trouble(hook: Seq<char>, outcome: HookOutcome, keys: KeyMap) -> Option<
    Seq<char>,
> {
    match outcome {
        HookOutcome::NoContext(e) => Some("build ctx: "@ + e@),
        HookOutcome::NoFunction(e) => Some("get "@ + hook + ": "@ + e@),
        HookOutcome::Text(key) => if keys.code_of(key@) is Some {
            None
        } else {
            Some(hook + " returned invalid key '"@ + key@ + "': unknown key"@)
        },
        HookOutcome::NotUtf8(e) => Some(hook + " returned non-utf8 string: "@ + e@),
        HookOutcome::Other => if hook == "on_low_hp"@ {
            Some(hook + " returned neither nil nor a string"@)
        } else {
            None
        },
        HookOutcome::Failed(e) => Some(hook + " runtime error: "@ + e@),
        _ => None,
    }
}

/// What a hook asks for: a key where it named one, and nothing where it gave back `nil` or is not
/// there. A value of any other kind is an error of the hook for low health, whose answer counts,
/// and means nothing elsewhere.
pub open spec fn hook_result(
    hook: Seq<char>,
    outcome: HookOutcome,
    keys: KeyMap,
) -> ResultModel {
    match hook_trouble(hook, outcome, keys) {
        Some(text) => ResultModel::Error(text),
        None => match outcome {
            HookOutcome::Text(key) => ResultModel::Hotkey(keys.code_of(key@)->Some_0),
            _ => ResultModel::Noop,
        },
    }
}

/// Whether the trouble with an outcome is noted among the errors: it is where the hook ran.
pub open spec fn is_noted(outcome: HookOutcome) -> bool {
    !(outcome is NoContext || outcome is NoFunction)
}

/// The errors after a hook came to an outcome.
pub open spec fn errors_after(
    errors: Seq<Seq<char>>,
    hook: Seq<char>,
    outcome: HookOutcome,
    keys: KeyMap,
) -> Seq<Seq<char>> {
    match hook_trouble(hook, outcome, keys) {
        Some(text) => if is_noted(outcome) {
            errors.push(text)
        } else {
            errors
        },
        None => errors,
    }
}

/// What scripts ask for: texts to type and lines to log.
#[verifier::ext_equal]
pub struct Asked {
    pub said: Seq<String>,
    pub logged: Seq<LogLine>,
}

impl Asked {
    /// Nothing.
    pub open spec fn nothing() -> Asked {
        Asked { said: Seq::empty(), logged: Seq::empty() }
    }

    /// First this, then more.
    pub open spec fn and(self, more: Asked) -> Asked {
        Asked { said: self.said + more.said, logged: self.logged + more.logged }
    }
}

/// What is asked for by one script after the other.
pub open spec fn all_asked(asks: Seq<Asked>) -> Asked
    decreases asks.len(),
{
    if asks.len() == 0 {
        Asked::nothing()
    } else {
        all_asked(asks.drop_last()).and(asks.last())
    }
}

/// Whether taking out what scripts have queued in an interpreter can give just this, and leave the
/// interpreter in that state.
pub open spec fn can_ask(lua: mlua::Lua, asked: Asked, after: mlua::Lua) -> bool {
    exists|out: ScriptOutput| #[trigger]
        can_queue(lua, out, after) && asked == (Asked { said: out.said@, logged: out.logged@ })
}

/// Whether a script that is run under this name can come to this, ask for this, and leave the
/// interpreter in that state.
pub open spec fn can_run(
    lua: mlua::Lua,
    source: Seq<char>,
    name: Seq<char>,
    failure: Option<Seq<char>>,
    asked: Asked,
    after: mlua::Lua,
) -> bool {
    exists|middle: mlua::Lua| #[trigger]
        can_end(lua, source, name, failure, middle) && can_ask(middle, asked, after)
}

/// What loading some scripts leaves behind: the paths of those that ran, and the errors.
pub struct LoadModel {
    pub loaded: Seq<Seq<char>>,
    pub errors: Seq<Seq<char>>,
}

/// What one more script adds, given what running it came to: nothing, or an error.
pub open spec fn after_file(
    m: LoadModel,
    file: ScriptFile,
    outcome: Option<Seq<char>>,
) -> LoadModel {
    match (file.source, outcome) {
        (Err(e), _) => LoadModel {
            errors: m.errors.push("read '"@ + file.path@ + "': "@ + e@),
            ..m
        },
        (Ok(_), None) => LoadModel { loaded: m.loaded.push(file.path@), ..m },
        (Ok(_), Some(e)) => LoadModel {
            errors: m.errors.push("exec '"@ + file.path@ + "': "@ + e),
            ..m
        },
    }
}

/// What loading scripts one after the other leaves behind, given what each came to.
pub open spec fn after_files(files: Seq<ScriptFile>, outcomes: Seq<Option<Seq<char>>>) -> LoadModel
    decreases files.len(),
{
    if files.len() == 0 {
        LoadModel { loaded: Seq::empty(), errors: Seq::empty() }
    } else {
        after_file(
            after_files(files.drop_last(), outcomes.drop_last()),
            files.last(),
            outcomes.last(),
        )
    }
}

impl ScriptRecord {
    /// The scripts that ran and the errors.
    pub open spec fn load_model(self) -> LoadModel {
        LoadModel { loaded: texts(self.loaded_files@), errors: texts(self.last_errors@) }
    }

    /// What scripts have asked for.
    pub open spec fn asked(self) -> Asked {
        Asked { said: self.said@, logged: self.logged@ }
    }

    proof fn asks_nothing(self)
        ensures
            self.asked() == self.asked().and(Asked::nothing()),
    {
        assert(self.asked() =~= self.asked().and(Asked::nothing()));
    }

    /// Adds what scripts have asked for.
    pub fn take_in(&mut self, out: ScriptOutput)
        ensures
            final(self).said@ == old(self).said@ + out.said@,
            final(self).logged@ == old(self).logged@ + out.logged@,
            *final(self) == (ScriptRecord {
                said: final(self).said,
                logged: final(self).logged,
                ..*old(self)
            }),
    {
        let mut out = out;
        self.said.append(&mut out.said);
        self.logged.append(&mut out.logged);
    }

    fn note_error(&mut self, text: String)
        ensures
            texts(final(self).last_errors@) == texts(old(self).last_errors@).push(text@),
            *final(self) == (ScriptRecord { last_errors: final(self).last_errors, ..*old(self) }),
    {
        self.last_errors.push(text);
        assert(texts(self.last_errors@) =~= texts(old(self).last_errors@).push(text@));
    }

    /// Notes what running a script came to.
    pub fn note_file(&mut self, file: ScriptFile, outcome: Option<String>)
        ensures
            final(self).load_model() == after_file(
                old(self).load_model(),
                file,
                text_of(outcome),
            ),
            final(self).said == old(self).said,
            final(self).logged == old(self).logged,
    {
        match (&file.source, outcome) {
            (Err(e), _) => {
                let mut text = "read '".to_owned();
                text.append(file.path.as_str());
                text.append("': ");
                text.append(e.as_str());
                self.note_error(text);
            },
            (Ok(_), None) => {
                self.loaded_files.push(file.path);
                assert(texts(self.loaded_files@) =~= texts(old(self).loaded_files@).push(
                    file.path@,
                ));
            },
            (Ok(_), Some(e)) => {
                let mut text = "exec '".to_owned();
                text.append(file.path.as_str());
                text.append("': ");
                text.append(e.as_str());
                self.note_error(text);
            },
        }
    }

    /// Turns the outcome of a hook into what it asks for, and notes the error if it ran into one.
    pub fn finish_hook(&mut self, hook: &str, outcome: HookOutcome, keys: &KeyMap) -> (r:
        ScriptResult)
        ensures
            r@ == hook_result(hook@, outcome, *keys),
            texts(final(self).last_errors@) == errors_after(
                texts(old(self).last_errors@),
                hook@,
                outcome,
                *keys,
            ),
            *final(self) == (ScriptRecord { last_errors: final(self).last_errors, ..*old(self) }),
    {
        match outcome {
            HookOutcome::Missing => ScriptResult::Noop,
            HookOutcome::Nil => ScriptResult::Noop,
            HookOutcome::Other => {
                if same(hook, "on_low_hp") {
                    let mut text = hook.to_owned();
                    text.append(" returned neither nil nor a string");
                    self.note_error(text.clone());
                    ScriptResult::Error(text)
                } else {
                    ScriptResult::Noop
                }
            },
            HookOutcome::NoContext(e) => {
                let mut text = "build ctx: ".to_owned();
                text.append(e.as_str());
                ScriptResult::Error(text)
            },
            HookOutcome::NoFunction(e) => {
                let mut text = "get ".to_owned();
                text.append(hook);
                text.append(": ");
                text.append(e.as_str());
                ScriptResult::Error(text)
            },
            HookOutcome::Text(key) => {
                match keys.parse(key.as_str()) {
                    Some(code) => ScriptResult::Hotkey(code),
                    None => {
                        let mut text = hook.to_owned();
                        text.append(" returned invalid key '");
                        text.append(key.as_str());
                        text.append("': unknown key");
                        self.note_error(text.clone());
                        ScriptResult::Error(text)
                    },
                }
            },
            HookOutcome::NotUtf8(e) => {
                let mut text = hook.to_owned();
                text.append(" returned non-utf8 string: ");
                text.append(e.as_str());
                self.note_error(text.clone());
                ScriptResult::Error(text)
            },
            HookOutcome::Failed(e) => {
                let mut text = hook.to_owned();
                text.append(" runtime error: ");
                text.append(e.as_str());
                self.note_error(text.clone());
                ScriptResult::Error(text)
            },
        }
    }
}

/// Why a clean interpreter could not be had.
enum VmError {
    Sandbox(String),
    Api(String),
}

fn sandboxed_names() -> (r: Vec<&'static str>)
    ensures
        r@.len() == sandbox_order().len(),
        forall|i: int| 0 <= i < r@.len() ==> #[trigger] r@[i]@ == sandbox_order()[i],
{
    let names = vec!["io", "os", "package", "require", "dofile", "loadfile", "debug"];
    proof {
        assert(names@[0]@ == "io"@ && names@[1]@ == "os"@ && names@[2]@ == "package"@);
        assert(names@[3]@ == "require"@ && names@[4]@ == "dofile"@);
        assert(names@[5]@ == "loadfile"@ && names@[6]@ == "debug"@);
    }
    names
}

/// One name more is gone.
proof fn one_less(globals: Map<Seq<char>, bool>, n: int)
    requires
        0 <= n < sandbox_order().len(),
    ensures
        without_first(globals, n + 1) == without_first(globals, n).remove(sandbox_order()[n]),
{
    let order = sandbox_order();
    assert(order.take(n + 1) =~= order.take(n).push(order[n]));
    assert(order.take(n + 1).to_set() =~= order.take(n).to_set().insert(order[n])) by {
        let longer = order.take(n).push(order[n]);
        assert(longer[n] == order[n]);
        assert forall|name: Seq<char>| order.take(n).contains(name) implies longer.contains(
            name,
        ) by {
            let j = choose|j: int| 0 <= j < n && order.take(n)[j] == name;
            assert(longer[j] == name);
        }
    }
    assert(without_first(globals, n + 1) =~= without_first(globals, n).remove(order[n]));
}

/// The names that are gone are those that scripts must not see.
proof fn order_is_complete(name: Seq<char>)
    ensures
        sandbox_order().take(sandbox_order().len() as int).to_set().contains(name)
            == is_sandboxed(name),
{
    let order = sandbox_order();
    assert(order.take(order.len() as int) =~= order);
    assert(order[0] == "io"@ && order[1] == "os"@ && order[2] == "package"@);
    assert(order[3] == "require"@ && order[4] == "dofile"@ && order[5] == "loadfile"@);
    assert(order[6] == "debug"@);
}

/// Takes away what scripts must not see. Whatever else there is stays. Stops at the first name
/// that cannot be taken away, and returns why.
fn apply_sandbox(lua: &mut mlua::Lua) -> (r: Result<(), String>)
    requires
        plain_globals(*old(lua)),
    ensures
        r is Ok ==> is_sandbox_of(*final(lua), *old(lua)),
        r matches Err(e) ==> can_stay_open(*old(lua), e@),
{
    let names = sandboxed_names();
    let mut i: usize = 0;
    assert(without_first(globals_of(*lua), 0) =~= globals_of(*lua)) by {
        assert(sandbox_order().take(0) =~= Seq::<Seq<char>>::empty());
    }
    while i < names.len()
        invariant
            i <= names@.len(),
            names@.len() == sandbox_order().len(),
            forall|j: int| 0 <= j < names@.len() ==> #[trigger] names@[j]@ == sandbox_order()[j],
            plain_globals(*lua),
            globals_of(*lua) == without_first(globals_of(*old(lua)), i as int),
        decreases names.len() - i,
    {
        let ghost before = *lua;
        match remove_global(lua, names[i]) {
            Ok(()) => {},
            Err(e) => {
                assert(is_kept_at(*old(lua), before, i as int, e@));
                return Err(e);
            },
        }
        proof {
            one_less(globals_of(*old(lua)), i as int);
        }
        i += 1;
    }
    Ok(())
}

/// A new interpreter that scripts may be run in. Fails where a step of its making does, and says
/// which.
fn fresh_vm() -> (r: Result<mlua::Lua, VmError>)
    ensures
        r matches Ok(lua) ==> is_fresh(lua),
        r matches Err(VmError::Sandbox(e)) ==> is_sandbox_failure(e@),
        r matches Err(VmError::Api(e)) ==> is_api_failure(e@),
{
    let mut lua = mlua::Lua::new();
    let ghost made = lua;
    assert(is_new(made));
    match apply_sandbox(&mut lua) {
        Ok(()) => {},
        Err(e) => return Err(VmError::Sandbox(e)),
    }
    let ghost before = lua;
    match install_bot(&mut lua) {
        Ok(()) => {},
        Err(e) => {
            assert(is_sandbox_of(before, made));
            return Err(VmError::Api(e));
        },
    }
    proof {
        assert(!is_sandboxed("bot"@)) by {
            reveal_strlit("bot");
            reveal_strlit("io");
            reveal_strlit("os");
            reveal_strlit("package");
            reveal_strlit("require");
            reveal_strlit("dofile");
            reveal_strlit("loadfile");
            reveal_strlit("debug");
            assert("bot"@[0] == 'b' && "debug"@[0] == 'd');
        }
        assert(!has_prefix("bot"@, "on_"@)) by {
            reveal_strlit("bot");
            reveal_strlit("on_");
            if has_prefix("bot"@, "on_"@) {
                assert("bot"@.subrange(0, 3)[0] == "on_"@[0]);
            }
        }
        assert forall|name: Seq<char>| is_sandboxed(name) || has_prefix(name, "on_"@) implies !(
        #[trigger] globals_of(lua).contains_key(name)) by {
            order_is_complete(name);
            assert(!globals_of(before).contains_key(name)) by {
                let _ = globals_of(made).contains_key(name);
            }
        }
    }
    Ok(lua)
}

/// What a hook is told.
pub enum Told {
    /// The current tick.
    Tick(TickContext),
    /// A new state, and why the bot is paused, if it is.
    Change(Seq<char>, Option<Seq<char>>),
}

/// A ratio as a numeral.
pub open spec fn numeral(ratio: Option<Ppm>) -> Option<Seq<char>> {
    match ratio {
        Some(r) => Some(millionths(r as nat)),
        None => None,
    }
}

/// Whether arguments tell a hook just this.
pub open spec fn tells(args: HookArgs, told: Told) -> bool {
    match (args, told) {
        (HookArgs::Context(table), Told::Tick(ctx)) => describes(
            table,
            ctx.tick,
            numeral(ctx.hp_ratio),
            numeral(ctx.mana_ratio),
            ctx.enemy_count,
            ctx.fsm_state@,
            texts(ctx.ui_matches@),
        ),
        (HookArgs::Change(state, reason), Told::Change(new_state, why)) => state@ == new_state
            && text_of(reason) == why,
        _ => false,
    }
}

/// Whether this function, called with these arguments, is the hook of this name that is told
/// this, and can come to this outcome and leave the interpreter in that state.
pub open spec fn is_call(
    lua: mlua::Lua,
    hook: Seq<char>,
    told: Told,
    f: mlua::Function,
    args: HookArgs,
    outcome: HookOutcome,
    after: mlua::Lua,
) -> bool {
    can_read(lua, hook, f) && tells(args, told) && can_answer(lua, f, args, outcome, after)
}

/// Whether a hook that is told this can come to this outcome, ask for this, and leave the
/// interpreter in that state. Where the table of globals has no metatable, a hook that scripts
/// define is called, and only such a hook; the call fails to take place only where its argument
/// cannot be built. Without a call nothing is asked for and nothing changes.
pub open spec fn can_come_to(
    lua: mlua::Lua,
    hook: Seq<char>,
    told: Told,
    outcome: HookOutcome,
    asked: Asked,
    after: mlua::Lua,
) -> bool {
    &&& plain_globals(lua) ==> (outcome is Missing <==> !is_hooked(globals_of(lua), hook))
    &&& match outcome {
        HookOutcome::Missing => asked == Asked::nothing() && after == lua,
        HookOutcome::NoContext(e) => (told matches Told::Tick(ctx) && can_lack_context(
            lua,
            ctx.tick,
            numeral(ctx.hp_ratio),
            numeral(ctx.mana_ratio),
            ctx.enemy_count,
            ctx.fsm_state@,
            texts(ctx.ui_matches@),
            e@,
        )) && asked == Asked::nothing() && after == lua,
        HookOutcome::NoFunction(e) => !plain_globals(lua) && can_lack_function(lua, hook, e@)
            && asked == Asked::nothing() && after == lua,
        _ => exists|f: mlua::Function, args: HookArgs, middle: mlua::Lua|
            #[trigger] is_call(lua, hook, told, f, args, outcome, middle) && can_ask(
                middle,
                asked,
                after,
            ),
    }
}

/// What holds after a hook was told something and came to an outcome: the result and the errors
/// follow from the outcome, and what the hook asked for comes after what was asked for before.
pub open spec fn is_answered(
    before: ScriptEngine,
    after: ScriptEngine,
    hook: Seq<char>,
    told: Told,
    outcome: HookOutcome,
    keys: KeyMap,
    r: ScriptResult,
) -> bool {
    &&& exists|asked: Asked|
        #[trigger] can_come_to(before.lua, hook, told, outcome, asked, after.lua)
            && after.record.asked() == before.record.asked().and(asked)
    &&& r@ == hook_result(hook, outcome, keys)
    &&& texts(after.record.last_errors@) == errors_after(
        texts(before.record.last_errors@),
        hook,
        outcome,
        keys,
    )
    &&& after.record.loaded_files == before.record.loaded_files
    &&& after.tick_budget_us == before.tick_budget_us
}

/// Whether the hook for low health is called.
pub open spec fn is_low(ctx: TickContext) -> bool {
    ctx.hp_ratio matches Some(ratio) && ratio < HP_CRITICAL_RATIO
}

/// What the second hook of a tick does: it is asked below [`HP_CRITICAL_RATIO`], else nothing
/// happens.
pub open spec fn is_second_answer(
    before: ScriptEngine,
    after: ScriptEngine,
    ctx: TickContext,
    keys: KeyMap,
    r: ScriptResult,
) -> bool {
    if is_low(ctx) {
        exists|outcome: HookOutcome|
            #[trigger] is_answered(
                before,
                after,
                "on_low_hp"@,
                Told::Tick(ctx),
                outcome,
                keys,
                r,
            )
    } else {
        r is Noop && after == before
    }
}

/// What is said of scripts that were not loaded.
pub open spec fn load_error_text(e: LoadError, dir: Seq<char>) -> Seq<char> {
    match e {
        LoadError::Reset(why) => "reset Lua state antes de load_dir: "@ + why@,
        LoadError::Missing => "script_dir '"@ + dir + "' no existe"@,
        LoadError::Unreadable(why) => "No se pudo leer '"@ + dir + "': "@ + why@,
    }
}

impl LoadError {
    /// What is said of the scripts of `dir` that were not loaded.
    pub fn text(&self, dir: &str) -> (r: String)
        ensures
            r@ == load_error_text(*self, dir@),
    {
        match self {
            LoadError::Reset(why) => {
                let mut text = "reset Lua state antes de load_dir: ".to_owned();
                text.append(why.as_str());
                text
            },
            LoadError::Missing => {
                let mut text = "script_dir '".to_owned();
                text.append(dir);
                text.append("' no existe");
                text
            },
            LoadError::Unreadable(why) => {
                let mut text = "No se pudo leer '".to_owned();
                text.append(dir);
                text.append("': ");
                text.append(why.as_str());
                text
            },
        }
    }
}

/// Whether a text says why no interpreter could be had.
pub open spec fn is_start_trouble(text: Seq<char>) -> bool {
    ||| exists|why: Seq<char>| #[trigger]
        is_sandbox_failure(why) && text == "Error aplicando sandbox al runtime Lua: "@ + why
    ||| exists|why: Seq<char>| #[trigger]
        is_api_failure(why) && text == "Error instalando API `bot` en el runtime Lua: "@ + why
}

/// Whether a text says why the interpreter could not be replaced.
pub open spec fn is_reset_trouble(text: Seq<char>) -> bool {
    ||| exists|why: Seq<char>| #[trigger]
        is_sandbox_failure(why) && text == "reset: error aplicando sandbox: "@ + why
    ||| exists|why: Seq<char>| #[trigger]
        is_api_failure(why) && text == "reset: error instalando API bot: "@ + why
}

/// The message of a failure, if there was one.
pub open spec fn failure_of(r: Result<(), String>) -> Option<Seq<char>> {
    match r {
        Ok(_) => None,
        Err(e) => Some(e@),
    }
}

/// Whether scripts can be run one after the other, each in the interpreter as the ones before it
/// have left it, come to these outcomes and ask for these things. The last state is the one that
/// is left behind. A script that could not be read is not run.
pub open spec fn can_go(
    files: Seq<ScriptFile>,
    states: Seq<mlua::Lua>,
    outcomes: Seq<Option<Seq<char>>>,
    asks: Seq<Asked>,
) -> bool {
    &&& states.len() == files.len() + 1
    &&& outcomes.len() == files.len()
    &&& asks.len() == files.len()
    &&& forall|i: int|
        0 <= i < files.len() ==> match (#[trigger] files[i]).source {
            Ok(source) => can_run(
                states[i],
                source@,
                files[i].path@,
                outcomes[i],
                asks[i],
                states[i + 1],
            ),
            Err(_) => states[i + 1] == states[i] && asks[i] == Asked::nothing(),
        }
}

/// The text of a reason, if there is one.
pub open spec fn reason_text(reason: Option<&str>) -> Option<Seq<char>> {
    match reason {
        Some(text) => Some(text@),
        None => None,
    }
}

fn numeral_of(ratio: Option<Ppm>) -> (r: Option<String>)
    ensures
        text_of(r) == numeral(ratio),
{
    match ratio {
        Some(v) => {
            let mut text = String::new();
            push_millionths(&mut text, v as u64);
            assert(text@ =~= millionths(v as nat));
            Some(text)
        },
        None => None,
    }
}

impl ScriptEngine {
    /// Whether it is certain that scripts define no hook of this name.
    pub open spec fn lacks_hook(self, name: Seq<char>) -> bool {
        plain_globals(self.lua) && !is_hooked(globals_of(self.lua), name)
    }

    /// An engine that has run no script.
    ///
    /// Fails only where the interpreter does.
    pub fn new(tick_budget_us: u64) -> (r: Result<ScriptEngine, String>)
        ensures
            r matches Ok(e) ==> is_fresh(e.lua) && e.tick_budget_us == tick_budget_us
                && e.record.loaded_files@.len() == 0 && e.record.last_errors@.len() == 0
                && e.record.said@.len() == 0 && e.record.logged@.len() == 0,
            r matches Err(text) ==> is_start_trouble(text@),
    {
        match fresh_vm() {
            Ok(lua) => Ok(
                ScriptEngine {
                    lua,
                    record: ScriptRecord {
                        loaded_files: Vec::new(),
                        last_errors: Vec::new(),
                        said: Vec::new(),
                        logged: Vec::new(),
                    },
                    tick_budget_us,
                },
            ),
            Err(VmError::Sandbox(e)) => {
                let mut text = "Error aplicando sandbox al runtime Lua: ".to_owned();
                text.append(e.as_str());
                Err(text)
            },
            Err(VmError::Api(e)) => {
                let mut text = "Error instalando API `bot` en el runtime Lua: ".to_owned();
                text.append(e.as_str());
                Err(text)
            },
        }
    }

    /// Takes over what scripts have asked for.
    fn collect_output(&mut self)
        ensures
            exists|out: ScriptOutput| #[trigger]
                can_queue(old(self).lua, out, final(self).lua) && final(self).record.said@ == old(
                    self,
                ).record.said@ + out.said@ && final(self).record.logged@ == old(
                    self,
                ).record.logged@ + out.logged@,
            final(self).record.loaded_files == old(self).record.loaded_files,
            final(self).record.last_errors == old(self).record.last_errors,
            final(self).tick_budget_us == old(self).tick_budget_us,
            globals_of(final(self).lua) == globals_of(old(self).lua),
            plain_globals(final(self).lua) == plain_globals(old(self).lua),
    {
        let out = take_output(&mut self.lua);
        let ghost queued = out;
        self.record.take_in(out);
        assert(can_queue(old(self).lua, queued, self.lua));
    }

    /// The texts that scripts asked to type, in order; afterwards there are none.
    pub fn drain_say_queue(&mut self) -> (r: Vec<String>)
        ensures
            r == old(self).record.said,
            final(self).record.said@.len() == 0,
            final(self).record == (ScriptRecord {
                said: final(self).record.said,
                ..old(self).record
            }),
            final(self).tick_budget_us == old(self).tick_budget_us,
            final(self).lua == old(self).lua,
    {
        let mut taken: Vec<String> = Vec::new();
        std::mem::swap(&mut taken, &mut self.record.said);
        taken
    }

    /// The lines that scripts logged, in order; afterwards there are none.
    pub fn drain_log(&mut self) -> (r: Vec<LogLine>)
        ensures
            r == old(self).record.logged,
            final(self).record.logged@.len() == 0,
            final(self).record == (ScriptRecord {
                logged: final(self).record.logged,
                ..old(self).record
            }),
            final(self).tick_budget_us == old(self).tick_budget_us,
            final(self).lua == old(self).lua,
    {
        let mut taken: Vec<LogLine> = Vec::new();
        std::mem::swap(&mut taken, &mut self.record.logged);
        taken
    }

    /// Runs the text of a script under a name.
    ///
    /// What the script does, and whether it fails, is up to the script.
    pub fn run(&mut self, source: &str, name: &str) -> (r: Result<(), String>)
        ensures
            exists|asked: Asked|
                #[trigger] can_run(
                    old(self).lua,
                    source@,
                    name@,
                    failure_of(r),
                    asked,
                    final(self).lua,
                ) && final(self).record.asked() == old(self).record.asked().and(asked),
            final(self).record.loaded_files == old(self).record.loaded_files,
            final(self).record.last_errors == old(self).record.last_errors,
            final(self).tick_budget_us == old(self).tick_budget_us,
    {
        let r = run_chunk(&mut self.lua, source, name);
        let ghost middle = self.lua;
        self.collect_output();
        proof {
            let out = choose|out: ScriptOutput| #[trigger]
                can_queue(middle, out, self.lua) && self.record.said@ == old(self).record.said@
                    + out.said@ && self.record.logged@ == old(self).record.logged@ + out.logged@;
            let asked = Asked { said: out.said@, logged: out.logged@ };
            assert(can_ask(middle, asked, self.lua));
            assert(can_end(old(self).lua, source@, name@, failure_of(r), middle));
            assert(can_run(old(self).lua, source@, name@, failure_of(r), asked, self.lua));
        }
        r
    }

    /// Whether scripts define a hook of this name.
    pub fn has_hook(&self, name: &str) -> (r: bool)
        ensures
            plain_globals(self.lua) ==> r == is_hooked(globals_of(self.lua), name@),
    {
        has_function(&self.lua, name)
    }

    /// The files that the last load ran.
    pub fn loaded_files(&self) -> (r: &Vec<String>)
        ensures
            *r == self.record.loaded_files,
    {
        &self.record.loaded_files
    }

    /// The errors since they were last cleared.
    pub fn last_errors(&self) -> (r: &Vec<String>)
        ensures
            *r == self.record.last_errors,
    {
        &self.record.last_errors
    }

    /// Forgets the errors.
    pub fn clear_errors(&mut self)
        ensures
            final(self).record.last_errors@.len() == 0,
            final(self).record == (ScriptRecord {
                last_errors: final(self).record.last_errors,
                ..old(self).record
            }),
            final(self).tick_budget_us == old(self).tick_budget_us,
            final(self).lua == old(self).lua,
    {
        self.record.last_errors.clear();
    }

    /// Fetches a hook and calls it.
    fn call_hook(&mut self, hook: &str, args: HookArgs, told: Ghost<Told>) -> (r: HookOutcome)
        requires
            tells(args, told@),
            args matches HookArgs::Context(table) ==> holds_table(old(self).lua, table),
            plain_globals(old(self).lua) ==> is_hooked(globals_of(old(self).lua), hook@),
        ensures
            exists|asked: Asked|
                #[trigger] can_come_to(
                    old(self).lua,
                    hook@,
                    told@,
                    r,
                    asked,
                    final(self).lua,
                ) && final(self).record.asked() == old(self).record.asked().and(asked),
            final(self).record.loaded_files == old(self).record.loaded_files,
            final(self).record.last_errors == old(self).record.last_errors,
            final(self).tick_budget_us == old(self).tick_budget_us,
    {
        match get_function(&self.lua, hook) {
            Ok(f) => {
                let ghost before = self.lua;
                let outcome = call_function(&mut self.lua, f, args);
                let ghost middle = self.lua;
                self.collect_output();
                proof {
                    let out = choose|out: ScriptOutput| #[trigger]
                        can_queue(middle, out, self.lua) && self.record.said@ == old(
                            self,
                        ).record.said@ + out.said@ && self.record.logged@ == old(
                            self,
                        ).record.logged@ + out.logged@;
                    let asked = Asked { said: out.said@, logged: out.logged@ };
                    assert(can_ask(middle, asked, self.lua));
                    assert(is_call(before, hook@, told@, f, args, outcome, middle));
                    assert(can_come_to(before, hook@, told@, outcome, asked, self.lua));
                }
                outcome
            },
            Err(e) => {
                let outcome = HookOutcome::NoFunction(e);
                proof {
                    self.record.asks_nothing();
                    assert(can_come_to(
                        self.lua,
                        hook@,
                        told@,
                        outcome,
                        Asked::nothing(),
                        self.lua,
                    ));
                }
                outcome
            },
        }
    }

    /// Calls a hook that is told about the tick.
    fn fire_with_context(&mut self, hook: &str, ctx: &TickContext, keys: &KeyMap) -> (r:
        ScriptResult)
        ensures
            exists|outcome: HookOutcome|
                #[trigger] is_answered(
                    *old(self),
                    *final(self),
                    hook@,
                    Told::Tick(*ctx),
                    outcome,
                    *keys,
                    r,
                ),
            old(self).lacks_hook(hook@) ==> r is Noop && *final(self) == *old(self),
    {
        let ghost told = Told::Tick(*ctx);
        proof {
            self.record.asks_nothing();
        }
        if !self.has_hook(hook) {
            assert(can_come_to(
                self.lua,
                hook@,
                told,
                HookOutcome::Missing,
                Asked::nothing(),
                self.lua,
            ));
            assert(is_answered(
                *old(self),
                *self,
                hook@,
                told,
                HookOutcome::Missing,
                *keys,
                ScriptResult::Noop,
            ));
            return ScriptResult::Noop;
        }
        let hp = numeral_of(ctx.hp_ratio);
        let mana = numeral_of(ctx.mana_ratio);
        let outcome = match context_table(&self.lua, ctx, &hp, &mana) {
            Ok(table) => self.call_hook(hook, HookArgs::Context(table), Ghost(told)),
            Err(e) => {
                let outcome = HookOutcome::NoContext(e);
                assert(can_come_to(
                    self.lua,
                    hook@,
                    told,
                    outcome,
                    Asked::nothing(),
                    self.lua,
                ));
                outcome
            },
        };
        let ghost came = outcome;
        let ghost called = *self;
        let r = self.record.finish_hook(hook, outcome, keys);
        proof {
            let asked = choose|asked: Asked|
                #[trigger] can_come_to(old(self).lua, hook@, told, came, asked, called.lua)
                    && called.record.asked() == old(self).record.asked().and(asked);
            assert(can_come_to(old(self).lua, hook@, told, came, asked, self.lua));
            assert(self.record.asked() == called.record.asked());
        }
        assert(is_answered(*old(self), *self, hook@, told, came, *keys, r));
        r
    }

    /// Tells scripts about the tick.
    pub fn fire_on_tick(&mut self, ctx: &TickContext, keys: &KeyMap) -> (r: ScriptResult)
        ensures
            exists|outcome: HookOutcome|
                #[trigger] is_answered(
                    *old(self),
                    *final(self),
                    "on_tick"@,
                    Told::Tick(*ctx),
                    outcome,
                    *keys,
                    r,
                ),
            old(self).lacks_hook("on_tick"@) ==> r is Noop && *final(self) == *old(self),
    {
        self.fire_with_context("on_tick", ctx, keys)
    }

    /// Asks scripts what to heal with.
    pub fn fire_on_low_hp(&mut self, ctx: &TickContext, keys: &KeyMap) -> (r: ScriptResult)
        ensures
            exists|outcome: HookOutcome|
                #[trigger] is_answered(
                    *old(self),
                    *final(self),
                    "on_low_hp"@,
                    Told::Tick(*ctx),
                    outcome,
                    *keys,
                    r,
                ),
            old(self).lacks_hook("on_low_hp"@) ==> r is Noop && *final(self) == *old(self),
    {
        self.fire_with_context("on_low_hp", ctx, keys)
    }

    /// Tells scripts that the bot changed its state, or why it is paused.
    pub fn fire_on_fsm_state_change(
        &mut self,
        new_state: &str,
        reason: Option<&str>,
        keys: &KeyMap,
    ) -> (r: ScriptResult)
        ensures
            exists|outcome: HookOutcome|
                #[trigger] is_answered(
                    *old(self),
                    *final(self),
                    "on_fsm_state_change"@,
                    Told::Change(new_state@, reason_text(reason)),
                    outcome,
                    *keys,
                    r,
                ),
            old(self).lacks_hook("on_fsm_state_change"@) ==> r is Noop && *final(self)
                == *old(self),
    {
        let hook = "on_fsm_state_change";
        let ghost told = Told::Change(new_state@, reason_text(reason));
        proof {
            self.record.asks_nothing();
        }
        if !self.has_hook(hook) {
            assert(can_come_to(
                self.lua,
                hook@,
                told,
                HookOutcome::Missing,
                Asked::nothing(),
                self.lua,
            ));
            assert(is_answered(
                *old(self),
                *self,
                hook@,
                told,
                HookOutcome::Missing,
                *keys,
                ScriptResult::Noop,
            ));
            return ScriptResult::Noop;
        }
        let reason = match reason {
            Some(text) => Some(text.to_owned()),
            None => None,
        };
        let args = HookArgs::Change(new_state.to_owned(), reason);
        let outcome = self.call_hook(hook, args, Ghost(told));
        let ghost came = outcome;
        let ghost called = *self;
        let r = self.record.finish_hook(hook, outcome, keys);
        proof {
            let asked = choose|asked: Asked|
                #[trigger] can_come_to(old(self).lua, hook@, told, came, asked, called.lua)
                    && called.record.asked() == old(self).record.asked().and(asked);
            assert(can_come_to(old(self).lua, hook@, told, came, asked, self.lua));
            assert(self.record.asked() == called.record.asked());
        }
        assert(is_answered(*old(self), *self, hook@, told, came, *keys, r));
        r
    }

    /// Puts a new interpreter in place of the one that scripts have used.
    fn reset(&mut self) -> (r: Result<(), String>)
        ensures
            r is Ok ==> is_fresh(final(self).lua),
            r matches Err(text) ==> is_reset_trouble(text@) && final(self).lua == old(self).lua,
            final(self).record == old(self).record,
            final(self).tick_budget_us == old(self).tick_budget_us,
    {
        match fresh_vm() {
            Ok(lua) => {
                self.lua = lua;
                Ok(())
            },
            Err(VmError::Sandbox(e)) => {
                let mut text = "reset: error aplicando sandbox: ".to_owned();
                text.append(e.as_str());
                Err(text)
            },
            Err(VmError::Api(e)) => {
                let mut text = "reset: error instalando API bot: ".to_owned();
                text.append(e.as_str());
                Err(text)
            },
        }
    }

    /// Runs scripts one after the other; one that fails does not keep the others from running.
    fn run_files(&mut self, files: Vec<ScriptFile>)
        requires
            old(self).record.loaded_files@.len() == 0,
            old(self).record.last_errors@.len() == 0,
        ensures
            exists|
                states: Seq<mlua::Lua>,
                outcomes: Seq<Option<Seq<char>>>,
                asks: Seq<Asked>,
            |
                #[trigger] can_go(files@, states, outcomes, asks) && states[0] == old(self).lua
                    && states.last() == final(self).lua && final(self).record.load_model()
                    == after_files(files@, outcomes) && final(self).record.asked() == old(
                    self,
                ).record.asked().and(all_asked(asks)),
            final(self).tick_budget_us == old(self).tick_budget_us,
            files@.len() == 0 ==> final(self).lua == old(self).lua,
    {
        let mut rest = files;
        let ghost mut done: Seq<ScriptFile> = Seq::empty();
        let ghost mut states: Seq<mlua::Lua> = seq![self.lua];
        let ghost mut outcomes: Seq<Option<Seq<char>>> = Seq::empty();
        let ghost mut asks: Seq<Asked> = Seq::empty();
        proof {
            assert(texts(self.record.loaded_files@) =~= Seq::<Seq<char>>::empty());
            assert(texts(self.record.last_errors@) =~= Seq::<Seq<char>>::empty());
            assert(self.record.load_model() == after_files(done, outcomes));
            self.record.asks_nothing();
            assert(done + rest@ =~= files@);
        }
        while rest.len() > 0
            invariant
                done + rest@ == files@,
                can_go(done, states, outcomes, asks),
                states[0] == old(self).lua,
                states.last() == self.lua,
                self.record.load_model() == after_files(done, outcomes),
                self.record.asked() == old(self).record.asked().and(all_asked(asks)),
                self.tick_budget_us == old(self).tick_budget_us,
                files@.len() == 0 ==> self.lua == old(self).lua,
            decreases rest.len(),
        {
            let ghost waiting = rest@;
            let ghost before = self.record;
            let ghost state = self.lua;
            let file = rest.remove(0);
            let ghost mut asked = Asked::nothing();
            let outcome: Option<String> = match &file.source {
                Ok(source) => {
                    let r = self.run(source.as_str(), file.path.as_str());
                    proof {
                        asked = choose|asked: Asked|
                            #[trigger] can_run(
                                state,
                                source@,
                                file.path@,
                                failure_of(r),
                                asked,
                                self.lua,
                            ) && self.record.asked() == before.asked().and(asked);
                    }
                    match r {
                        Ok(()) => None,
                        Err(e) => Some(e),
                    }
                },
                Err(_) => {
                    proof {
                        before.asks_nothing();
                    }
                    None
                },
            };
            proof {
                assert(files@.len() == done.len() + waiting.len());
                let next = done.push(file);
                let came = outcomes.push(text_of(outcome));
                let more = asks.push(asked);
                assert(next + rest@ =~= files@) by {
                    assert(waiting =~= seq![file] + rest@);
                }
                assert(next.drop_last() =~= done);
                assert(came.drop_last() =~= outcomes);
                assert(more.drop_last() =~= asks);
                assert(self.record.load_model() == before.load_model());
                assert(self.record.asked() == before.asked().and(asked));
                assert(old(self).record.asked().and(all_asked(asks)).and(asked) =~= old(
                    self,
                ).record.asked().and(all_asked(asks).and(asked)));
                let held = states.push(self.lua);
                assert forall|i: int| 0 <= i < next.len() implies match (#[trigger] next[i]).source {
                    Ok(source) => can_run(
                        held[i],
                        source@,
                        next[i].path@,
                        came[i],
                        more[i],
                        held[i + 1],
                    ),
                    Err(_) => held[i + 1] == held[i] && more[i] == Asked::nothing(),
                } by {
                    if i < done.len() {
                        assert(done[i] == next[i]);
                    }
                }
                done = next;
                states = held;
                outcomes = came;
                asks = more;
            }
            self.record.note_file(file, outcome);
        }
        assert(done =~= files@);
    }

    /// Starts over with the scripts of a directory, in alphabetical order.
    ///
    /// The interpreter is replaced first, so that nothing of earlier scripts is left. A script
    /// that cannot be read or fails is noted among the errors, and the others still run.
    pub fn load_dir(&mut self, listing: DirListing) -> (r: Result<(), LoadError>)
        ensures
            final(self).tick_budget_us == old(self).tick_budget_us,
            r matches Ok(_) ==> listing is Files && exists|
                order: Seq<ScriptFile>,
                states: Seq<mlua::Lua>,
                outcomes: Seq<Option<Seq<char>>>,
                asks: Seq<Asked>,
            |
                is_load_order(listing->Files_0@, order) && #[trigger] can_go(
                    order,
                    states,
                    outcomes,
                    asks,
                ) && is_fresh(states[0]) && states.last() == final(self).lua
                    && final(self).record.load_model() == after_files(order, outcomes)
                    && final(self).record.asked() == old(self).record.asked().and(
                    all_asked(asks),
                ),
            r is Err ==> final(self).record.asked() == old(self).record.asked(),
            r matches Ok(_) ==> scripts_of(listing->Files_0@).len() == 0 ==> is_fresh(
                final(self).lua,
            ),
            r is Err ==> final(self).record.load_model() == after_files(
                Seq::empty(),
                Seq::empty(),
            ),
            r matches Err(e) ==> match listing {
                DirListing::Missing => e is Reset || e is Missing,
                DirListing::Unreadable(why) => e is Reset || e == LoadError::Unreadable(why),
                DirListing::Files(_) => e is Reset,
            },
            r matches Err(e) ==> match e {
                LoadError::Reset(why) => is_reset_trouble(why@) && final(self).lua == old(
                    self,
                ).lua,
                _ => is_fresh(final(self).lua),
            },
    {
        self.record.loaded_files.clear();
        self.record.last_errors.clear();
        proof {
            assert(texts(self.record.loaded_files@) =~= Seq::<Seq<char>>::empty());
            assert(texts(self.record.last_errors@) =~= Seq::<Seq<char>>::empty());
        }
        match self.reset() {
            Ok(()) => {},
            Err(e) => return Err(LoadError::Reset(e)),
        }
        match listing {
            DirListing::Missing => Err(LoadError::Missing),
            DirListing::Unreadable(why) => Err(LoadError::Unreadable(why)),
            DirListing::Files(files) => {
                let order = in_load_order(files);
                let ghost names = order@;
                self.run_files(order);
                proof {
                    vstd::seq_lib::to_multiset_len(names);
                    vstd::seq_lib::to_multiset_len(scripts_of(files@));
                }
                Ok(())
            },
        }
    }

    /// Calls the hooks of a tick: that for the tick itself, and below [`HP_CRITICAL_RATIO`] that for
    /// low health. The errors of the tick before are forgotten first.
    pub fn tick(&mut self, ctx: &TickContext, keys: &KeyMap) -> (r: TickHooks)
        ensures
            exists|cleared: ScriptEngine, middle: ScriptEngine, first: HookOutcome|
                {
                    &&& cleared.lua == old(self).lua
                    &&& cleared.record.last_errors@.len() == 0
                    &&& cleared.record.asked() == old(self).record.asked()
                    &&& #[trigger] is_answered(
                        cleared,
                        middle,
                        "on_tick"@,
                        Told::Tick(*ctx),
                        first,
                        *keys,
                        r.on_tick,
                    )
                    &&& is_second_answer(middle, *final(self), *ctx, *keys, r.on_low_hp)
                },
            final(self).record.loaded_files == old(self).record.loaded_files,
            final(self).tick_budget_us == old(self).tick_budget_us,
            old(self).lacks_hook("on_tick"@) ==> r.on_tick is Noop,
            old(self).lacks_hook("on_tick"@) && old(self).lacks_hook("on_low_hp"@)
                ==> r.on_low_hp is Noop,
    {
        self.clear_errors();
        let ghost cleared = *self;
        let on_tick = self.fire_on_tick(ctx, keys);
        let ghost middle = *self;
        let low = match ctx.hp_ratio {
            Some(ratio) => ratio < HP_CRITICAL_RATIO,
            None => false,
        };
        let on_low_hp = if low {
            self.fire_on_low_hp(ctx, keys)
        } else {
            ScriptResult::Noop
        };
        proof {
            assert(is_second_answer(middle, *self, *ctx, *keys, on_low_hp));
        }
        TickHooks { on_tick, on_low_hp }
    }
}

/// Scripts start from a clean table: after a load that ran no script, whatever ran before, no
/// hook answers and nothing that scripts must not see is there.
pub proof fn nothing_is_left_of_earlier_scripts(engine: ScriptEngine, name: Seq<char>)
    requires
        is_fresh(engine.lua),
        is_sandboxed(name) || has_prefix(name, "on_"@),
    ensures
        !globals_of(engine.lua).contains_key(name),
        engine.lacks_hook(name),
{
}

/// The hooks of a fresh engine are silent.
pub proof fn a_fresh_engine_has_no_hook(engine: ScriptEngine)
    requires
        is_fresh(engine.lua),
    ensures
        engine.lacks_hook("on_tick"@),
        engine.lacks_hook("on_low_hp"@),
        engine.lacks_hook("on_fsm_state_change"@),
{
    reveal_strlit("on_");
    reveal_strlit("on_tick");
    reveal_strlit("on_low_hp");
    reveal_strlit("on_fsm_state_change");
    assert("on_tick"@.subrange(0, 3) =~= "on_"@);
    assert("on_low_hp"@.subrange(0, 3) =~= "on_"@);
    assert("on_fsm_state_change"@.subrange(0, 3) =~= "on_"@);
}

/// A hook that fails never asks for a key, and a key that a hook names is always known.
pub proof fn only_known_keys_are_asked_for(hook: Seq<char>, outcome: HookOutcome, keys: KeyMap)
    ensures
        hook_result(hook, outcome, keys) matches ResultModel::Hotkey(code) ==> outcome is Text
            && keys.code_of(outcome->Text_0@) == Some(code),
        outcome is Failed ==> hook_result(hook, outcome, keys) is Error,
{
}

/// One broken script does not stop the others: every script is either among those that ran or
/// among the errors.
pub proof fn every_script_is_accounted_for(
    files: Seq<ScriptFile>,
    outcomes: Seq<Option<Seq<char>>>,
)
    ensures
        after_files(files, outcomes).loaded.len() + after_files(files, outcomes).errors.len()
            == files.len(),
    decreases files.len(),
{
    if files.len() > 0 {
        every_script_is_accounted_for(files.drop_last(), outcomes.drop_last());
    }
}

/// What comes of a hook, by what its call came to. A known key is asked for. No hook, nothing
/// returned, and anything but a text returned by a hook other than `on_low_hp` ask for nothing. An
/// unknown key, a text that cannot be read, a failure, and anything but a text returned by
/// `on_low_hp` are errors, each told with the hook's name.
pub proof fn a_hook_asks_for_a_known_key_or_fails(
    hook: Seq<char>,
    key: String,
    e: String,
    keys: KeyMap,
)
    ensures
        keys.code_of(key@) matches Some(code) ==> hook_result(hook, HookOutcome::Text(key), keys)
            == ResultModel::Hotkey(code),
        keys.code_of(key@) is None ==> hook_result(hook, HookOutcome::Text(key), keys)
            == ResultModel::Error(hook + " returned invalid key '"@ + key@ + "': unknown key"@),
        hook_result(hook, HookOutcome::Missing, keys) == ResultModel::Noop,
        hook_result(hook, HookOutcome::Nil, keys) == ResultModel::Noop,
        hook == "on_low_hp"@ ==> hook_result(hook, HookOutcome::Other, keys) == ResultModel::Error(
            hook + " returned neither nil nor a string"@,
        ),
        hook != "on_low_hp"@ ==> hook_result(hook, HookOutcome::Other, keys) == ResultModel::Noop,
        hook_result(hook, HookOutcome::NotUtf8(e), keys) == ResultModel::Error(
            hook + " returned non-utf8 string: "@ + e@,
        ),
        hook_result(hook, HookOutcome::Failed(e), keys) == ResultModel::Error(
            hook + " runtime error: "@ + e@,
        ),
        hook_result(hook, HookOutcome::NoContext(e), keys) == ResultModel::Error(
            "build ctx: "@ + e@,
        ),
        hook_result(hook, HookOutcome::NoFunction(e), keys) == ResultModel::Error(
            "get "@ + hook + ": "@ + e@,
        ),
{
}

/// An error of a hook that was called is noted behind the others, with the text that is returned.
/// One that kept it from being called is not, and what is no error adds nothing.
pub proof fn errors_of_called_hooks_are_noted(
    errors: Seq<Seq<char>>,
    hook: Seq<char>,
    outcome: HookOutcome,
    keys: KeyMap,
)
    ensures
        outcome is NoContext || outcome is NoFunction ==> errors_after(errors, hook, outcome, keys)
            == errors,
        !(outcome is NoContext || outcome is NoFunction) ==> match hook_result(
            hook,
            outcome,
            keys,
        ) {
            ResultModel::Error(text) => errors_after(errors, hook, outcome, keys) == errors.push(
                text,
            ),
            _ => errors_after(errors, hook, outcome, keys) == errors,
        },
{
}

/// A file that ran is listed as loaded. One that could not be read, and one that failed, leave an
/// error with their path and what went wrong, and are not.
pub proof fn a_file_is_loaded_or_leaves_an_error(
    m: LoadModel,
    path: String,
    name: String,
    source: String,
    e: String,
    why: Seq<char>,
    outcome: Option<Seq<char>>,
)
    ensures
        after_file(m, ScriptFile { path, name, source: Ok(source) }, None) == (LoadModel {
            loaded: m.loaded.push(path@),
            errors: m.errors,
        }),
        after_file(m, ScriptFile { path, name, source: Ok(source) }, Some(why)) == (LoadModel {
            loaded: m.loaded,
            errors: m.errors.push("exec '"@ + path@ + "': "@ + why),
        }),
        after_file(m, ScriptFile { path, name, source: Err(e) }, outcome) == (LoadModel {
            loaded: m.loaded,
            errors: m.errors.push("read '"@ + path@ + "': "@ + e@),
        }),
{
}

/// Files count in order, from nothing.
pub proof fn files_count_in_order(
    files: Seq<ScriptFile>,
    outcomes: Seq<Option<Seq<char>>>,
    file: ScriptFile,
    outcome: Option<Seq<char>>,
)
    ensures
        after_files(Seq::empty(), Seq::empty()) == (LoadModel {
            loaded: Seq::empty(),
            errors: Seq::empty(),
        }),
        after_files(files.push(file), outcomes.push(outcome)) == after_file(
            after_files(files, outcomes),
            file,
            outcome,
        ),
{
    assert(files.push(file).drop_last() =~= files);
    assert(outcomes.push(outcome).drop_last() =~= outcomes);
}

/// The globals that reach beyond a script are taken away, seven of them by name, and no other is.
pub proof fn seven_globals_are_taken_away(clean: mlua::Lua, lua: mlua::Lua, name: Seq<char>)
    requires
        is_sandbox_of(clean, lua),
    ensures
        name == "io"@ || name == "os"@ || name == "package"@ || name == "require"@ || name
            == "dofile"@ || name == "loadfile"@ || name == "debug"@ ==> !globals_of(
            clean,
        ).contains_key(name),
        !(name == "io"@ || name == "os"@ || name == "package"@ || name == "require"@ || name
            == "dofile"@ || name == "loadfile"@ || name == "debug"@) ==> globals_of(
            clean,
        ).contains_key(name) == globals_of(lua).contains_key(name),
{
    order_is_complete(name);
}

/// A script is asked what to heal with exactly if health was read and is below three tenths.
pub proof fn low_health_is_asked_about(ctx: TickContext)
    ensures
        is_low(ctx) == (ctx.hp_ratio matches Some(h) && h < 300_000),
{
}

/// A ratio is told with six decimals, and not at all where it was not read.
pub proof fn a_ratio_is_told_in_full(ratio: Ppm)
    ensures
        numeral(None) is None,
        numeral(Some(ratio)) == Some(
            crate::text::decimal(ratio as nat / 1_000_000) + "."@ + crate::text::padded(
                ratio as nat % 1_000_000,
                6,
            ),
        ),
{
}

/// What is asked for is added behind what was asked for before: messages behind messages, and lines
/// behind lines.
pub proof fn what_is_asked_adds_up(a: Asked, b: Asked, asks: Seq<Asked>)
    ensures
        a.and(b).said == a.said + b.said,
        a.and(b).logged == a.logged + b.logged,
        all_asked(Seq::empty()) == Asked::nothing(),
        all_asked(asks.push(b)) == all_asked(asks).and(b),
        Asked::nothing().said.len() == 0,
        Asked::nothing().logged.len() == 0,
{
    assert(asks.push(b).drop_last() =~= asks);
}

/// A failed load is told by what failed: the reset, the missing directory, or its reading.
pub proof fn a_failed_load_is_told(dir: Seq<char>, why: String)
    ensures
        load_error_text(LoadError::Missing, dir) == "script_dir '"@ + dir + "' no existe"@,
        load_error_text(LoadError::Unreadable(why), dir) == "No se pudo leer '"@ + dir + "': "@
            + why@,
        load_error_text(LoadError::Reset(why), dir) == "reset Lua state antes de load_dir: "@
            + why@,
{
}

/// A hook that was answered hands on what its call came to, and keeps what was loaded. What scripts
/// asked for before stands before what they ask for now.
pub proof fn an_answer_keeps_what_was_there(
    before: ScriptEngine,
    after: ScriptEngine,
    hook: Seq<char>,
    told: Told,
    outcome: HookOutcome,
    keys: KeyMap,
    r: ScriptResult,
)
    requires
        is_answered(before, after, hook, told, outcome, keys, r),
    ensures
        r@ == hook_result(hook, outcome, keys),
        after.record.loaded_files@ == before.record.loaded_files@,
        after.record.said@.len() >= before.record.said@.len(),
        after.record.said@.take(before.record.said@.len() as int) == before.record.said@,
        after.record.logged@.len() >= before.record.logged@.len(),
        after.record.logged@.take(before.record.logged@.len() as int) == before.record.logged@,
        texts(after.record.last_errors@).len() <= texts(before.record.last_errors@).len() + 1,
        after.tick_budget_us == before.tick_budget_us,
{
    let asked = choose|asked: Asked|
        #[trigger] can_come_to(before.lua, hook, told, outcome, asked, after.lua)
            && after.record.asked() == before.record.asked().and(asked);
    assert(after.record.asked().said == before.record.said@ + asked.said);
    assert(after.record.asked().logged == before.record.logged@ + asked.logged);
    assert(after.record.said@.take(before.record.said@.len() as int) =~= before.record.said@);
    assert(after.record.logged@.take(before.record.logged@.len() as int) =~= before.record.logged@);
}

/// Scripts are asked what to heal with only while health is below three tenths; otherwise nothing
/// is asked and nothing changes.
pub proof fn healthy_ticks_ask_no_second_hook(
    before: ScriptEngine,
    after: ScriptEngine,
    ctx: TickContext,
    keys: KeyMap,
    r: ScriptResult,
)
    requires
        is_second_answer(before, after, ctx, keys, r),
    ensures
        ctx.hp_ratio is None || (ctx.hp_ratio matches Some(h) && h >= 300_000) ==> r is Noop && after
            == before,
        ctx.hp_ratio matches Some(h) ==> (h < 300_000 ==> exists|outcome: HookOutcome|
            #[trigger] is_answered(
                before,
                after,
                "on_low_hp"@,
                Told::Tick(ctx),
                outcome,
                keys,
                r,
            )),
{
}

/// A fresh interpreter has the bot's own table, no hook of any name, and none of the seven globals
/// that reach beyond a script.
pub proof fn a_fresh_interpreter_is_closed(lua: mlua::Lua, rest: Seq<char>)
    requires
        is_fresh(lua),
    ensures
        globals_of(lua).contains_key("bot"@),
        !globals_of(lua).contains_key("io"@),
        !globals_of(lua).contains_key("os"@),
        !globals_of(lua).contains_key("package"@),
        !globals_of(lua).contains_key("require"@),
        !globals_of(lua).contains_key("dofile"@),
        !globals_of(lua).contains_key("loadfile"@),
        !globals_of(lua).contains_key("debug"@),
        !globals_of(lua).contains_key("on_"@ + rest),
{
    reveal_strlit("on_");
    let hook = "on_"@ + rest;
    assert(hook.subrange(0, 3) =~= "on_"@);
    assert(has_prefix(hook, "on_"@));
}

/// What a hook is told of a tick is what was read: its number, health and mana each with six
/// decimals where it was read, the enemies, the state and what was recognised on the screen. Of a
/// change it is told the new state and the reason.
pub proof fn hooks_are_told_what_was_read(
    args: HookArgs,
    ctx: TickContext,
    state: Seq<char>,
    why: Option<Seq<char>>,
)
    ensures
        tells(args, Told::Tick(ctx)) ==> args is Context && describes(
            args->Context_0,
            ctx.tick,
            match ctx.hp_ratio {
                Some(r) => Some(
                    crate::text::decimal(r as nat / 1_000_000) + "."@ + crate::text::padded(
                        r as nat % 1_000_000,
                        6,
                    ),
                ),
                None => None,
            },
            match ctx.mana_ratio {
                Some(r) => Some(
                    crate::text::decimal(r as nat / 1_000_000) + "."@ + crate::text::padded(
                        r as nat % 1_000_000,
                        6,
                    ),
                ),
                None => None,
            },
            ctx.enemy_count,
            ctx.fsm_state@,
            texts(ctx.ui_matches@),
        ),
        tells(args, Told::Change(state, why)) ==> args is Change && args->Change_0@ == state
            && text_of(args->Change_1) == why,
{
}

} // verus!
