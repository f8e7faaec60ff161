//! The Lua interpreter: what the engine asks of it, one call at a time.

use vstd::prelude::*;
use vstd::string::*;

use crate::scripting::{HookOutcome, ScriptOutput, TickContext};
use crate::state::text_of;
use crate::text::{has_prefix, texts};

verus! {

/// `mlua::Lua`: an interpreter with its global variables.
#[verifier::external_type_specification]
#[verifier::external_body]
pub struct ExLua(mlua::Lua);

/// `mlua::Table`: a handle to a Lua table.
#[verifier::external_type_specification]
#[verifier::external_body]
pub struct ExTable(mlua::Table);

/// `mlua::Function`: a handle to a Lua function.
#[verifier::external_type_specification]
#[verifier::external_body]
pub struct ExFunction(mlua::Function);

/// The global variables of an interpreter that are not `nil`, by name; each with whether it
/// holds a function.
pub uninterp spec fn globals_of(lua: mlua::Lua) -> Map<Seq<char>, bool>;

/// Whether nothing that a script did can run when a global is read or written: the table of
/// globals has no metatable, and no finalizer of a script is waiting.
pub uninterp spec fn plain_globals(lua: mlua::Lua) -> bool;

/// Whether a global of this name holds a function.
pub open spec fn is_hooked(globals: Map<Seq<char>, bool>, name: Seq<char>) -> bool {
    globals.contains_key(name) && globals[name]
}

/// Whether a table is the one that the interpreter makes of these values: under the keys `tick`,
/// `hp`, `mana`, `enemies` and `fsm` it holds the Lua values that stand for them, and under `ui` a
/// table with `true` for each of these names and nothing else. The texts `hp` and `mana` stand for
/// the numbers that they spell; where there is none, the key is not there. A tick that is too
/// large for a Lua integer stands there as the nearest number with a fraction.
pub uninterp spec fn describes(
    table: mlua::Table,
    tick: u64,
    hp: Option<Seq<char>>,
    mana: Option<Seq<char>>,
    enemies: u32,
    fsm: Seq<char>,
    ui: Seq<Seq<char>>,
) -> bool;

/// Whether making such a table can fail with this message in an interpreter in this state.
pub uninterp spec fn can_lack_context(
    lua: mlua::Lua,
    tick: u64,
    hp: Option<Seq<char>>,
    mana: Option<Seq<char>>,
    enemies: u32,
    fsm: Seq<char>,
    ui: Seq<Seq<char>>,
    failure: Seq<char>,
) -> bool;

/// Whether a table was made in an interpreter.
pub uninterp spec fn holds_table(lua: mlua::Lua, table: mlua::Table) -> bool;

/// Whether reading the global `name` of an interpreter in this state can give this function, which
/// is then one of that interpreter.
pub uninterp spec fn can_read(lua: mlua::Lua, name: Seq<char>, f: mlua::Function) -> bool;

/// Whether reading a function from the global `name` of an interpreter in this state can fail with
/// this message.
pub uninterp spec fn can_lack_function(
    lua: mlua::Lua,
    name: Seq<char>,
    failure: Seq<char>,
) -> bool;

/// Whether a call of this function in an interpreter in this state, with these arguments, can
/// come to this outcome and leave the interpreter in that state.
pub uninterp spec fn can_answer(
    lua: mlua::Lua,
    f: mlua::Function,
    args: HookArgs,
    outcome: HookOutcome,
    after: mlua::Lua,
) -> bool;

/// Whether a script with this text, run under this name in an interpreter in this state, can fail
/// with this message, or, where there is none, can run to its end, and leave the interpreter in
/// that state.
pub uninterp spec fn can_end(
    lua: mlua::Lua,
    source: Seq<char>,
    name: Seq<char>,
    failure: Option<Seq<char>>,
    after: mlua::Lua,
) -> bool;

/// Whether this can be what scripts have queued in an interpreter in this state, which is in that
/// state once it is taken out.
pub uninterp spec fn can_queue(lua: mlua::Lua, out: ScriptOutput, after: mlua::Lua) -> bool;

/// Whether taking away the global of this name can fail with this message in an interpreter in
/// this state.
pub uninterp spec fn can_keep(lua: mlua::Lua, name: Seq<char>, failure: Seq<char>) -> bool;

/// Whether defining the table `bot` can fail with this message in an interpreter in this state.
pub uninterp spec fn can_lack_bot(lua: mlua::Lua, failure: Seq<char>) -> bool;

/// The arguments of a hook.
pub enum HookArgs {
    /// The current tick.
    Context(mlua::Table),
    /// A new state, and why the bot is paused, if it is.
    Change(String, Option<String>),
}

/// `mlua::Lua::new`: an interpreter with the safe standard libraries.
///
/// The libraries give the table of globals no metatable, and none of the names that they
/// define begins with `on_`.
pub assume_specification[ mlua::Lua::new ]() -> (r: mlua::Lua)
    ensures
        plain_globals(r),
        forall|name: Seq<char>|
            has_prefix(name, "on_"@) ==> !(#[trigger] globals_of(r).contains_key(name)),
;

/// `mlua::Table::set` on the table of globals, with `nil`: afterwards the global is gone and
/// every other one is as it was. Fails only where the interpreter is out of memory, with a message
/// that [`can_keep`] admits; when that is so is left open.
#[verifier::external_body]
pub(crate) fn remove_global(lua: &mut mlua::Lua, name: &str) -> (r: Result<(), String>)
    requires
        plain_globals(*old(lua)),
    ensures
        r is Ok ==> plain_globals(*final(lua)),
        r is Ok ==> globals_of(*final(lua)) == globals_of(*old(lua)).remove(name@),
        r is Err ==> can_keep(*old(lua), name@, r->Err_0@),
{
    lua.globals().set(name, mlua::Value::Nil).map_err(|e| e.to_string())
}

/// `mlua::Lua::create_function`, `mlua::Lua::create_table_from` and `mlua::Table::set`:
/// defines the global table `bot`, through which scripts reach [`ScriptOutput::say`] and
/// [`ScriptOutput::log`] on the output that `mlua::Lua::set_app_data` keeps with the
/// interpreter. Every other global is as it was. Fails only where the interpreter is out of
/// memory, with a message that [`can_lack_bot`] admits; when that is so is left open.
#[verifier::external_body]
pub(crate) fn install_bot(lua: &mut mlua::Lua) -> (r: Result<(), String>)
    requires
        plain_globals(*old(lua)),
    ensures
        r is Ok ==> plain_globals(*final(lua)),
        r is Ok ==> globals_of(*final(lua)) == globals_of(*old(lua)).insert("bot"@, false),
        r is Err ==> can_lack_bot(*old(lua), r->Err_0@),
{
    lua.set_app_data(ScriptOutput::default());
    let say = lua.create_function(|lua, text: String| {
        lua.app_data_mut::<ScriptOutput>().map(|mut o| o.say(text));
        Ok(())
    });
    let log = lua.create_function(|lua, (level, text): (String, String)| {
        lua.app_data_mut::<ScriptOutput>().map(|mut o| o.log(level, text));
        Ok(())
    });
    say.and_then(|say| log.and_then(|log| lua.create_table_from([("say", say), ("log", log)])))
        .and_then(|bot| lua.globals().set("bot", bot))
        .map_err(|e| e.to_string())
}

/// Whether a call that has run for `elapsed_us` has used up its budget, and what is then said.
/// A budget of 0 is never used up.
pub fn check_budget(elapsed_us: u64, budget_us: u64) -> (r: Result<(), String>)
    ensures
        r is Ok <==> budget_us == 0 || elapsed_us < budget_us,
        r is Err ==> r->Err_0@ == "script hook budget exceeded"@,
{
    if budget_us > 0 && elapsed_us >= budget_us {
        Err("script hook budget exceeded".to_owned())
    } else {
        Ok(())
    }
}

/// `mlua::Chunk::exec` on the text of a script, under a name for its messages. What the script
/// does to the interpreter, and whether it fails, is up to the script; so is whether it ends.
#[verifier::external_body]
pub(crate) fn run_chunk(lua: &mut mlua::Lua, source: &str, name: &str) -> (r: Result<(), String>)
    ensures
        r is Ok ==> can_end(*old(lua), source@, name@, None, *final(lua)),
        r is Err ==> can_end(*old(lua), source@, name@, Some(r->Err_0@), *final(lua)),
{
    lua.load(source).set_name(name).exec().map_err(|e| e.to_string())
}

/// `mlua::Table::get` on the table of globals: whether the global holds a function. Nothing is
/// said where the table of globals has a metatable, which may answer as it likes.
#[verifier::external_body]
pub(crate) fn has_function(lua: &mlua::Lua, name: &str) -> (r: bool)
    ensures
        plain_globals(*lua) ==> r == is_hooked(globals_of(*lua), name@),
{
    matches!(lua.globals().get::<mlua::Value>(name), Ok(mlua::Value::Function(_)))
}

/// `mlua::Table::get` on the table of globals: the function that the global holds. Fails where
/// it holds none, with a message that [`can_lack_function`] admits. When it fails is not said where
/// the table of globals has a metatable.
#[verifier::external_body]
pub(crate) fn get_function(lua: &mlua::Lua, name: &str) -> (r: Result<mlua::Function, String>)
    ensures
        plain_globals(*lua) ==> (r is Ok) == is_hooked(globals_of(*lua), name@),
        r is Ok ==> can_read(*lua, name@, r->Ok_0),
        r is Err ==> can_lack_function(*lua, name@, r->Err_0@),
{
    lua.globals().get::<mlua::Function>(name).map_err(|e| e.to_string())
}

/// `mlua::Lua::create_table_from`, `mlua::Lua::coerce_number` and `mlua::Table::set`: a table
/// that tells a hook about the tick, made in this interpreter. `hp` and `mana` are numerals, which
/// become Lua numbers. Fails only where the interpreter is out of memory, with a message that
/// [`can_lack_context`] admits; when that is so is left open.
#[verifier::external_body]
pub(crate) fn context_table(
    lua: &mlua::Lua,
    ctx: &TickContext,
    hp: &Option<String>,
    mana: &Option<String>,
) -> (r: Result<mlua::Table, String>)
    ensures
        r is Ok ==> describes(
            r->Ok_0,
            ctx.tick,
            text_of(*hp),
            text_of(*mana),
            ctx.enemy_count,
            ctx.fsm_state@,
            texts(ctx.ui_matches@),
        ),
        r is Ok ==> holds_table(*lua, r->Ok_0),
        r is Err ==> can_lack_context(
            *lua,
            ctx.tick,
            text_of(*hp),
            text_of(*mana),
            ctx.enemy_count,
            ctx.fsm_state@,
            texts(ctx.ui_matches@),
            r->Err_0@,
        ),
{
    let number = |text: &Option<String>| lua.coerce_number(lua.pack(text.as_deref())?);
    let build = || {
        let ui = lua.create_table_from(ctx.ui_matches.iter().map(|n| (n.as_str(), true)))?;
        let t = lua.create_table_from([("hp", number(hp)?), ("mana", number(mana)?)])?;
        t.set("tick", ctx.tick)?;
        t.set("enemies", ctx.enemy_count)?;
        t.set("fsm", ctx.fsm_state.as_str())?;
        t.set("ui", ui)?;
        Ok(t)
    };
    build().map_err(|e: mlua::Error| e.to_string())
}

/// `mlua::Function::call`: calls a hook and tells its result apart by kind. The function and the
/// table must be of this interpreter: `mlua` panics on any other. What the hook does to the
/// interpreter and what it returns is up to the hook; so is whether it returns, unless the
/// interpreter was told to look at [`check_budget`] as it goes.
#[verifier::external_body]
pub(crate) fn call_function(lua: &mut mlua::Lua, f: mlua::Function, args: HookArgs) -> (r: HookOutcome)
    requires
        exists|name: Seq<char>| #[trigger] can_read(*old(lua), name, f),
        args matches HookArgs::Context(table) ==> holds_table(*old(lua), table),
    ensures
        !(r is Missing || r is NoContext || r is NoFunction),
        can_answer(*old(lua), f, args, r, *final(lua)),
{
    let result = match args {
        HookArgs::Context(t) => f.call::<mlua::Value>(t),
        HookArgs::Change(state, reason) => f.call::<mlua::Value>((state, reason)),
    };
    match result {
        Ok(mlua::Value::Nil) => HookOutcome::Nil,
        Ok(mlua::Value::String(s)) => match s.to_str() {
            Ok(text) => HookOutcome::Text(text.to_string()),
            Err(e) => HookOutcome::NotUtf8(e.to_string()),
        },
        Ok(_) => HookOutcome::Other,
        Err(e) => HookOutcome::Failed(e.to_string()),
    }
}

/// `mlua::Lua::app_data_mut`: takes out what scripts have queued since the last call. No global
/// changes; what was queued is up to the scripts.
#[verifier::external_body]
pub(crate) fn take_output(lua: &mut mlua::Lua) -> (r: ScriptOutput)
    ensures
        globals_of(*final(lua)) == globals_of(*old(lua)),
        plain_globals(*final(lua)) == plain_globals(*old(lua)),
        can_queue(*old(lua), r, *final(lua)),
{
    lua.app_data_mut::<ScriptOutput>().map(|mut o| std::mem::take(&mut *o)).unwrap_or_default()
}

} // verus!
