//! The script engine with a real interpreter.

use tibia_bot::keycode::{KeyMap, KeyName};
use tibia_bot::scripting::engine::{DirListing, LoadError, ScriptEngine};
use tibia_bot::scripting::files::{in_load_order, is_script, ScriptFile};
use tibia_bot::scripting::vm::check_budget;
use tibia_bot::scripting::{log_level, LogLevel, ScriptOutput, ScriptResult, TickContext};

fn keys() -> KeyMap {
    let names = [("F1", 0x3A), ("F2", 0x3B), ("F3", 0x3C)];
    KeyMap {
        names: names.iter().map(|(n, c)| KeyName { name: n.to_string(), code: *c }).collect(),
        chars: vec![],
    }
}

fn engine() -> ScriptEngine {
    ScriptEngine::new(5_000).expect("engine creation")
}

fn load_inline(e: &mut ScriptEngine, src: &str, name: &str) {
    e.run(src, name).expect("lua exec");
}

fn tick_ctx(hp: u32, mana: u32, fsm: &str) -> TickContext {
    TickContext {
        tick: 0,
        hp_ratio: Some(hp),
        mana_ratio: Some(mana),
        enemy_count: 0,
        fsm_state: fsm.to_string(),
        ui_matches: vec![],
    }
}

fn low_hp_ctx(hp: u32) -> TickContext {
    tick_ctx(hp, 1_000_000, "Emergency")
}

fn file(name: &str, source: &str) -> ScriptFile {
    ScriptFile {
        path: format!("scripts/{}", name),
        name: name.to_string(),
        source: Ok(source.to_string()),
    }
}

#[test]
fn new_engine_has_no_hooks() {
    let e = engine();
    assert!(!e.has_hook("on_tick"));
    assert!(!e.has_hook("on_low_hp"));
}

#[test]
fn sandbox_blocks_io_os_and_friends() {
    let mut e = engine();
    let code = r#"
        if io ~= nil then error("io was not nilled") end
        if os ~= nil then error("os was not nilled") end
        if package ~= nil then error("package was not nilled") end
        if require ~= nil then error("require was not nilled") end
        if dofile ~= nil then error("dofile was not nilled") end
        if loadfile ~= nil then error("loadfile was not nilled") end
        if debug ~= nil then error("debug was not nilled") end
    "#;
    load_inline(&mut e, code, "sandbox_check");
}

#[test]
fn bot_log_api_is_callable() {
    let mut e = engine();
    load_inline(&mut e, r#"bot.log("info", "hola desde lua")"#, "log_test");
    let lines = e.drain_log();
    assert_eq!(lines.len(), 1);
    assert_eq!(lines[0].level, LogLevel::Info);
    assert_eq!(lines[0].text, "hola desde lua");
    assert!(e.drain_log().is_empty());
}

#[test]
fn bot_say_api_queues_strings() {
    let mut e = engine();
    assert!(e.drain_say_queue().is_empty());
    load_inline(&mut e, r#"bot.say("hi")"#, "say_test_1");
    let drained = e.drain_say_queue();
    assert_eq!(drained, vec!["hi"]);
    assert!(e.drain_say_queue().is_empty());
    load_inline(
        &mut e,
        r#"
        bot.say("hi")
        bot.say("trade")
        bot.say("bye")
        "#,
        "say_test_2",
    );
    let drained = e.drain_say_queue();
    assert_eq!(drained, vec!["hi", "trade", "bye"]);
}

#[test]
fn bot_say_ignores_empty_strings() {
    let mut e = engine();
    load_inline(
        &mut e,
        r#"
        bot.say("")
        bot.say("hi")
        bot.say("")
        "#,
        "say_empty_test",
    );
    assert_eq!(e.drain_say_queue(), vec!["hi"]);
}

#[test]
fn fire_on_low_hp_with_no_hook_returns_noop() {
    let mut e = engine();
    assert_eq!(e.fire_on_low_hp(&low_hp_ctx(100_000), &keys()), ScriptResult::Noop);
}

#[test]
fn fire_on_low_hp_returns_hotkey_from_string() {
    let mut e = engine();
    load_inline(
        &mut e,
        r#"
        function on_low_hp(ctx)
            if ctx.hp < 0.15 then return "F2" end
            return nil
        end
        "#,
        "hp_hook",
    );
    assert_eq!(e.fire_on_low_hp(&low_hp_ctx(100_000), &keys()), ScriptResult::Hotkey(0x3B));
    assert_eq!(e.fire_on_low_hp(&low_hp_ctx(200_000), &keys()), ScriptResult::Noop);
}

#[test]
fn fire_on_low_hp_ctx_includes_mana() {
    let mut e = engine();
    load_inline(
        &mut e,
        r#"
        function on_low_hp(ctx)
            if ctx.mana < 0.20 then return "F2" end
            return "F3"
        end
        "#,
        "mana_aware_hook",
    );
    let ctx_low_mana = tick_ctx(250_000, 100_000, "Emergency");
    assert_eq!(e.fire_on_low_hp(&ctx_low_mana, &keys()), ScriptResult::Hotkey(0x3B));
    let ctx_high_mana = tick_ctx(250_000, 800_000, "Emergency");
    assert_eq!(e.fire_on_low_hp(&ctx_high_mana, &keys()), ScriptResult::Hotkey(0x3C));
}

#[test]
fn fire_on_low_hp_invalid_key_is_error() {
    let mut e = engine();
    load_inline(&mut e, r#"function on_low_hp(_) return "NotAKey" end"#, "bad_hook");
    match e.fire_on_low_hp(&low_hp_ctx(100_000), &keys()) {
        ScriptResult::Error(msg) => assert!(msg.contains("NotAKey"), "msg={}", msg),
        other => panic!("got {:?}", other),
    }
    assert!(!e.last_errors().is_empty());
    e.clear_errors();
    assert!(e.last_errors().is_empty());
}

#[test]
fn script_runtime_error_is_captured_not_crashed() {
    let mut e = engine();
    load_inline(&mut e, r#"function on_low_hp(_) error("explota") end"#, "crash_hook");
    match e.fire_on_low_hp(&low_hp_ctx(100_000), &keys()) {
        ScriptResult::Error(msg) => assert!(msg.contains("explota"), "msg={}", msg),
        other => panic!("got {:?}", other),
    }
}

#[test]
fn fire_on_tick_passes_context_table() {
    let mut e = engine();
    load_inline(
        &mut e,
        r#"
        seen = { tick = nil, hp = nil, enemies = nil, fsm = nil }
        function on_tick(ctx)
            seen.tick    = ctx.tick
            seen.hp      = ctx.hp
            seen.enemies = ctx.enemies
            seen.fsm     = ctx.fsm
            seen.chest   = ctx.ui["depot_chest"]
            seen.other   = ctx.ui["other"]
        end
        "#,
        "tick_hook",
    );
    let ctx = TickContext {
        tick: 42,
        hp_ratio: Some(750_000),
        mana_ratio: Some(500_000),
        enemy_count: 3,
        fsm_state: "Walking".to_string(),
        ui_matches: vec!["depot_chest".to_string()],
    };
    let r = e.fire_on_tick(&ctx, &keys());
    assert_eq!(r, ScriptResult::Noop);
    let seen: mlua::Table = e.lua.globals().get("seen").unwrap();
    let tick: u64 = seen.get("tick").unwrap();
    let hp: f32 = seen.get("hp").unwrap();
    let en: u32 = seen.get("enemies").unwrap();
    let fsm: String = seen.get("fsm").unwrap();
    assert_eq!(tick, 42);
    assert!((hp - 0.75).abs() < 1e-6);
    assert_eq!(en, 3);
    assert_eq!(fsm, "Walking");
    assert!(seen.get::<bool>("chest").unwrap());
    assert!(seen.get::<mlua::Value>("other").unwrap().is_nil());
}

#[test]
fn load_dir_reads_all_lua_files() {
    let files = vec![
        file("README.md", "not lua"),
        file("20_broken.lua", "function on_tick( -- syntax error"),
        file("10_ok.lua", "function on_low_hp(r) return \"F1\" end"),
    ];
    let mut e = engine();
    e.load_dir(DirListing::Files(files)).unwrap();
    assert_eq!(e.loaded_files().len(), 1);
    assert!(e.loaded_files()[0].ends_with("10_ok.lua"));
    assert_eq!(e.last_errors().len(), 1);
    assert!(e.last_errors()[0].contains("20_broken.lua"));
    assert_eq!(e.fire_on_low_hp(&low_hp_ctx(100_000), &keys()), ScriptResult::Hotkey(0x3A));
}

#[test]
fn hook_budget_allows_normal_execution() {
    let mut e = ScriptEngine::new(100_000).expect("engine");
    load_inline(&mut e, r#"function on_tick(ctx) return "F1" end"#, "normal_tick");
    let ctx = tick_ctx(1_000_000, 1_000_000, "Idle");
    assert_eq!(e.fire_on_tick(&ctx, &keys()), ScriptResult::Hotkey(0x3A));
}

#[test]
fn reload_replaces_old_function() {
    let v1 = r#"
        local COOLDOWN = 10
        local last = 0
        function on_low_hp(ctx)
            if ctx.tick - last >= COOLDOWN then
                last = ctx.tick
                return "F1"
            end
            return nil
        end
    "#;
    let mut e = engine();
    e.load_dir(DirListing::Files(vec![file("healer.lua", v1)])).expect("v1 load");
    let mut ctx = low_hp_ctx(100_000);
    ctx.tick = 100;
    assert_eq!(e.fire_on_low_hp(&ctx, &keys()), ScriptResult::Hotkey(0x3A));
    let v2 = r#"
        local COOLDOWN = 5
        local last = 0
        function on_low_hp(ctx)
            if ctx.tick - last >= COOLDOWN then
                last = ctx.tick
                return "F2"
            end
            return nil
        end
    "#;
    e.load_dir(DirListing::Files(vec![file("healer.lua", v2)])).expect("v2 reload");
    ctx.tick = 200;
    assert_eq!(e.fire_on_low_hp(&ctx, &keys()), ScriptResult::Hotkey(0x3B));
    e.load_dir(DirListing::Files(vec![])).expect("empty reload");
    assert!(!e.has_hook("on_low_hp"));
}

#[test]
fn fire_on_fsm_state_change_passes_args_to_hook() {
    let mut e = engine();
    load_inline(
        &mut e,
        r#"
        captured_state = nil
        captured_reason = nil
        function on_fsm_state_change(new_state, reason)
            captured_state = new_state
            captured_reason = reason
            if reason == "prompt:char_select" then
                bot.say("char_dead_alert")
            end
        end
        "#,
        "fsm_hook",
    );
    let r = e.fire_on_fsm_state_change("Paused", Some("prompt:char_select"), &keys());
    assert_eq!(r, ScriptResult::Noop);
    let state: String = e.lua.globals().get("captured_state").unwrap();
    let reason: String = e.lua.globals().get("captured_reason").unwrap();
    assert_eq!(state, "Paused");
    assert_eq!(reason, "prompt:char_select");
    assert_eq!(e.drain_say_queue(), vec!["char_dead_alert"]);
}

#[test]
fn fire_on_fsm_state_change_nil_reason_is_nil_in_lua() {
    let mut e = engine();
    load_inline(
        &mut e,
        r#"
        captured_was_nil = nil
        function on_fsm_state_change(new_state, reason)
            captured_was_nil = (reason == nil)
        end
        "#,
        "fsm_nil_reason",
    );
    let r = e.fire_on_fsm_state_change("Walking", None, &keys());
    assert_eq!(r, ScriptResult::Noop);
    let was_nil: bool = e.lua.globals().get("captured_was_nil").unwrap();
    assert!(was_nil);
}

#[test]
fn fire_on_fsm_state_change_no_hook_is_noop() {
    let mut e = engine();
    assert_eq!(e.fire_on_fsm_state_change("Idle", None, &keys()), ScriptResult::Noop);
    assert_eq!(
        e.fire_on_fsm_state_change("Paused", Some("prompt:char_select"), &keys()),
        ScriptResult::Noop
    );
}

#[test]
fn reload_preserves_bot_api() {
    let src = r#"
        function on_tick(ctx)
            bot.log("info", "hi from lua")
            bot.say("hello")
        end
    "#;
    let mut e = engine();
    let ctx = tick_ctx(1_000_000, 1_000_000, "Idle");
    for _ in 0..2 {
        e.load_dir(DirListing::Files(vec![file("uses_bot.lua", src)])).expect("load");
        assert_eq!(e.fire_on_tick(&ctx, &keys()), ScriptResult::Noop);
        assert_eq!(e.drain_say_queue(), vec!["hello"]);
    }
}

#[test]
fn a_directory_that_cannot_be_read_is_reported() {
    let mut e = engine();
    let missing = e.load_dir(DirListing::Missing).unwrap_err();
    assert!(matches!(missing, LoadError::Missing));
    assert_eq!(missing.text("scripts"), "script_dir 'scripts' no existe");
    let locked = e.load_dir(DirListing::Unreadable("denied".to_string())).unwrap_err();
    assert_eq!(locked.text("scripts"), "No se pudo leer 'scripts': denied");
    let reset = LoadError::Reset("why".to_string());
    assert_eq!(reset.text("x"), "reset Lua state antes de load_dir: why");
}

#[test]
fn a_file_that_cannot_be_read_is_noted() {
    let mut e = engine();
    let mut lost = file("a.lua", "");
    lost.source = Err("gone".to_string());
    e.load_dir(DirListing::Files(vec![lost, file("b.lua", "x = 1")])).unwrap();
    assert_eq!(e.last_errors()[..], ["read 'scripts/a.lua': gone".to_string()]);
    assert_eq!(e.loaded_files()[..], ["scripts/b.lua".to_string()]);
}

#[test]
fn scripts_run_in_alphabetical_order() {
    let names = ["b.lua", "B.lua", ".lua", "a.txt", "10.lua", "9.lua", "ba.lua"];
    let files = names.iter().map(|n| file(n, "")).collect();
    let order: Vec<String> = in_load_order(files).into_iter().map(|f| f.name).collect();
    assert_eq!(order, vec!["10.lua", "9.lua", "B.lua", "b.lua", "ba.lua"]);
    assert!(is_script("x.lua"));
    assert!(!is_script("x.luac"));
}

#[test]
fn hooks_of_a_tick_run_together() {
    let mut e = engine();
    load_inline(
        &mut e,
        r#"
        function on_tick(ctx) error("late") end
        function on_low_hp(ctx) return "F3" end
        "#,
        "both",
    );
    let calm = e.tick(&tick_ctx(300_000, 0, "Idle"), &keys());
    assert!(matches!(calm.on_tick, ScriptResult::Error(_)));
    assert_eq!(calm.on_low_hp, ScriptResult::Noop);
    let low = e.tick(&tick_ctx(299_999, 0, "Idle"), &keys());
    assert_eq!(low.on_low_hp, ScriptResult::Hotkey(0x3C));
    assert_eq!(e.last_errors().len(), 1);
}

#[test]
fn only_keys_and_nil_answer_a_call_for_help() {
    let mut e = engine();
    load_inline(&mut e, "function on_tick(ctx) return 7 end", "number");
    let ctx = TickContext::default();
    assert_eq!(e.fire_on_tick(&ctx, &keys()), ScriptResult::Noop);
    assert!(e.last_errors().is_empty());
    load_inline(&mut e, "function on_low_hp(ctx) return true end", "flag");
    match e.fire_on_low_hp(&ctx, &keys()) {
        ScriptResult::Error(msg) => {
            assert_eq!(msg, "on_low_hp returned neither nil nor a string");
        }
        other => panic!("got {:?}", other),
    }
    assert_eq!(e.last_errors().len(), 1);
    load_inline(&mut e, r#"function on_tick(ctx) return "\xff" end"#, "bytes");
    match e.fire_on_tick(&ctx, &keys()) {
        ScriptResult::Error(msg) => assert!(msg.starts_with("on_tick returned non-utf8 string")),
        other => panic!("got {:?}", other),
    }
}

#[test]
fn log_levels_ignore_case() {
    assert_eq!(log_level("ERROR"), LogLevel::Error);
    assert_eq!(log_level("Warn"), LogLevel::Warn);
    assert_eq!(log_level("debug"), LogLevel::Debug);
    assert_eq!(log_level("info"), LogLevel::Info);
    assert_eq!(log_level("loud"), LogLevel::Info);
    let mut out = ScriptOutput::default();
    out.say(String::new());
    out.say("hi".to_string());
    assert_eq!(out.said, vec!["hi"]);
}

#[test]
fn a_budget_is_used_up_at_its_end() {
    assert!(check_budget(4_999, 5_000).is_ok());
    assert!(check_budget(1_000_000, 0).is_ok());
    assert_eq!(check_budget(5_000, 5_000).unwrap_err(), "script hook budget exceeded");
}

#[test]
fn what_scripts_ask_for_while_loading_is_kept_in_order() {
    let mut e = engine();
    let listing = DirListing::Files(vec![
        file("b.lua", "bot.say('two') function on_tick() bot.say('three') return 'F1' end"),
        file("a.lua", "bot.say('one') bot.log('warn', 'first')"),
    ]);
    e.load_dir(listing).unwrap();
    assert!(e.has_hook("on_tick"));
    assert_eq!(e.fire_on_tick(&tick_ctx(1_000_000, 1_000_000, "Idle"), &keys()), ScriptResult::Hotkey(0x3A));
    assert_eq!(e.drain_say_queue(), vec!["one", "two", "three"]);
    let log = e.drain_log();
    assert_eq!(log.len(), 1);
    assert_eq!((log[0].level, log[0].text.as_str()), (LogLevel::Warn, "first"));
    assert!(e.drain_say_queue().is_empty());
}

#[test]
fn queued_output_comes_after_what_was_there() {
    let mut e = engine();
    let mut out = ScriptOutput::default();
    out.say("a".to_string());
    e.record.take_in(out);
    let mut out = ScriptOutput::default();
    out.say("b".to_string());
    out.log("debug".to_string(), "c".to_string());
    e.record.take_in(out);
    assert_eq!(e.record.said, vec!["a", "b"]);
    assert_eq!(e.record.logged.len(), 1);
}
