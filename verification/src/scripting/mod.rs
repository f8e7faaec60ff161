//! Scripts: what their hooks are given, what they give back, and the engine that runs them.

use vstd::prelude::*;
use vstd::string::*;

use crate::text::{chars_of, from_chars, is_blank, same};
use crate::units::Ppm;

pub mod engine;
pub mod files;
pub mod vm;

verus! {

/// What a hook asks for.
#[derive(Clone, Debug, PartialEq, Eq)]
pub enum ScriptResult {
    /// Nothing: the bot does what it would do anyway.
    Noop,
    /// Tap this key.
    Hotkey(u8),
    /// The hook failed; the bot goes on as if it had asked for nothing.
    Error(String),
}

/// What a call of a hook gave back.
#[derive(Debug)]
pub enum HookOutcome {
    /// There is no such hook.
    Missing,
    /// The argument could not be built, with the interpreter's message.
    NoContext(String),
    /// The hook could not be fetched, with the interpreter's message.
    NoFunction(String),
    /// `nil`.
    Nil,
    /// A text.
    Text(String),
    /// A text that is not valid UTF-8, with the decoder's message.
    NotUtf8(String),
    /// A value of any other kind.
    Other,
    /// The call failed, with the interpreter's message.
    Failed(String),
}

/// What a hook is told about the current tick.
#[derive(Clone, Debug)]
pub struct TickContext {
    pub tick: u64,
    pub hp_ratio: Option<Ppm>,
    pub mana_ratio: Option<Ppm>,
    pub enemy_count: u32,
    pub fsm_state: String,
    /// The interface elements that are visible.
    pub ui_matches: Vec<String>,
}

impl Default for TickContext {
    fn default() -> (r: Self)
        ensures
            r.tick == 0,
            r.hp_ratio is None,
            r.mana_ratio is None,
            r.enemy_count == 0,
            r.fsm_state@ == Seq::<char>::empty(),
            r.ui_matches@ == Seq::<String>::empty(),
    {
        TickContext {
            tick: 0,
            hp_ratio: None,
            mana_ratio: None,
            enemy_count: 0,
            fsm_state: String::new(),
            ui_matches: Vec::new(),
        }
    }
}

/// How much a line that a script logs matters.
#[derive(Clone, Copy, Debug, PartialEq, Eq, Structural)]
pub enum LogLevel {
    Error,
    Warn,
    Info,
    Debug,
}

/// A line that a script logged.
#[derive(Debug)]
pub struct LogLine {
    pub level: LogLevel,
    pub text: String,
}

/// What scripts have asked for since the last look: texts to type and lines to log.
#[derive(Debug, Default)]
pub struct ScriptOutput {
    pub said: Vec<String>,
    pub logged: Vec<LogLine>,
}

/// The lower case of an ASCII letter; any other character as it is.
pub open spec fn lower(c: char) -> char {
    if 'A' <= c <= 'Z' {
        ((c as u8 + 32) as u8) as char
    } else {
        c
    }
}

/// A text with its ASCII letters in lower case.
pub open spec fn lowered(s: Seq<char>) -> Seq<char> {
    Seq::new(s.len(), |i: int| lower(s[i]))
}

/// The level that a script's word stands for, in any mix of cases.
///
/// A word that names no level stands for [`LogLevel::Info`].
pub open spec fn level_named(word: Seq<char>) -> LogLevel {
    if lowered(word) == "error"@ {
        LogLevel::Error
    } else if lowered(word) == "warn"@ {
        LogLevel::Warn
    } else if lowered(word) == "debug"@ {
        LogLevel::Debug
    } else {
        LogLevel::Info
    }
}

fn to_lower(c: char) -> (r: char)
    ensures
        r == lower(c),
{
    if 'A' <= c && c <= 'Z' {
        let code: u8 = c as u8;
        (code + 32) as char
    } else {
        c
    }
}

/// The level that a word of a script names.
pub fn log_level(word: &str) -> (r: LogLevel)
    ensures
        r == level_named(word@),
{
    let chars = chars_of(word);
    let mut low: Vec<char> = Vec::new();
    let mut i: usize = 0;
    while i < chars.len()
        invariant
            i <= chars.len(),
            low@ == lowered(chars@).take(i as int),
        decreases chars.len() - i,
    {
        low.push(to_lower(chars[i]));
        i += 1;
        assert(lowered(chars@).take(i as int) =~= lowered(chars@).take(i - 1).push(
            lowered(chars@)[i - 1],
        ));
    }
    assert(low@ =~= lowered(word@));
    let low = from_chars(&low);
    if same(low.as_str(), "error") {
        LogLevel::Error
    } else if same(low.as_str(), "warn") {
        LogLevel::Warn
    } else if same(low.as_str(), "debug") {
        LogLevel::Debug
    } else {
        LogLevel::Info
    }
}

impl ScriptOutput {
    /// Queues a text for typing; a text with no characters is dropped.
    pub fn say(&mut self, text: String)
        ensures
            final(self).said@ == (if text@.len() == 0 {
                old(self).said@
            } else {
                old(self).said@.push(text)
            }),
            final(self).logged == old(self).logged,
    {
        if !is_blank(text.as_str()) {
            self.said.push(text);
        }
    }

    /// Queues a line for the log.
    pub fn log(&mut self, level: String, text: String)
        ensures
            final(self).said == old(self).said,
            final(self).logged@ == old(self).logged@.push(
                (LogLine { level: level_named(level@), text }),
            ),
    {
        let level = log_level(level.as_str());
        self.logged.push(LogLine { level, text });
    }
}

/// A level of the log is named in any mix of cases; a word that names none stands for the usual
/// one.
pub proof fn levels_are_named_in_any_case(word: Seq<char>, other: Seq<char>)
    ensures
        lowered(word) == lowered(other) ==> level_named(word) == level_named(other),
        lowered(word) == "error"@ ==> level_named(word) == LogLevel::Error,
        lowered(word) == "warn"@ ==> level_named(word) == LogLevel::Warn,
        lowered(word) == "debug"@ ==> level_named(word) == LogLevel::Debug,
        lowered(word) != "error"@ && lowered(word) != "warn"@ && lowered(word) != "debug"@
            ==> level_named(word) == LogLevel::Info,
{
    reveal_strlit("error");
    reveal_strlit("warn");
    reveal_strlit("debug");
    assert("error"@[0] == 'e' && "debug"@[0] == 'd');
}

/// A capital letter of ASCII becomes the small one as far from `a` as it is from `A`; every other
/// character stays, and a text keeps its length.
pub proof fn capitals_become_small(s: Seq<char>, i: int)
    requires
        0 <= i < s.len(),
    ensures
        lowered(s).len() == s.len(),
        'A' <= s[i] <= 'Z' ==> lowered(s)[i] as u32 - 'a' as u32 == s[i] as u32 - 'A' as u32,
        !('A' <= s[i] <= 'Z') ==> lowered(s)[i] == s[i],
{
}

} // verus!
