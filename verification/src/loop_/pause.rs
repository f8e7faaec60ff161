//! Why the bot is paused, and how each safety rule changes that.

use vstd::prelude::*;
use crate::loop_::schedule::NoFrameStep;
use crate::safety::breaks::BreakStatus;
use crate::state::text_of;
use crate::text::{has_prefix, same, starts_with};

verus! {

/// What the prompt detector says on a tick.
#[derive(Debug)]
pub enum PromptReading {
    /// Nothing new.
    Pending,
    /// No prompt is on the screen.
    Clear,
    /// A prompt is on the screen; the text is its pause reason.
    Seen(String),
}

/// The reason for a pause, if there is one.
pub struct PauseState {
    pub reason: Option<String>,
}

/// The reason after the watchdog's step.
pub open spec fn after_watchdog(r: Option<Seq<char>>, step: NoFrameStep) -> Option<Seq<char>> {
    match step {
        NoFrameStep::TriggerPause => Some("vision:no_frame"@),
        NoFrameStep::FrameOk => if r == Some("vision:no_frame"@) { None } else { r },
        NoFrameStep::Accumulating => r,
    }
}

/// The reason after the prompt detector's reading.
pub open spec fn after_prompt(
    r: Option<Seq<char>>,
    enabled: bool,
    reading: PromptReading,
) -> Option<Seq<char>> {
    match reading {
        PromptReading::Seen(text) if enabled => Some(text@),
        PromptReading::Clear if enabled && r is Some && has_prefix(r->0, "prompt:"@) => None,
        _ => r,
    }
}

/// The reason after the break scheduler's status. A break that would start in
/// combat is put off.
pub open spec fn after_break(
    r: Option<Seq<char>>,
    status: Option<BreakStatus>,
    in_combat: bool,
) -> Option<Seq<char>> {
    match status {
        Some(BreakStatus::Started(kind)) => if in_combat { r } else { Some(kind.reason()) },
        Some(BreakStatus::Ended(_)) => None,
        Some(BreakStatus::Quiet) =>
            if r is Some && has_prefix(r->0, "break:"@) { None } else { r },
        Some(BreakStatus::Active(_)) => r,
        None => r,
    }
}

/// The reason after the focus of the game window was looked at.
pub open spec fn after_focus(r: Option<Seq<char>>, focus_lost: bool) -> Option<Seq<char>> {
    if focus_lost {
        Some("focus:tibia_not_foreground"@)
    } else if r == Some("focus:tibia_not_foreground"@) {
        None
    } else {
        r
    }
}

/// The reason after the session limit was looked at.
pub open spec fn after_session(r: Option<Seq<char>>, expired: bool) -> Option<Seq<char>> {
    if expired {
        Some("session:max_duration_reached"@)
    } else {
        r
    }
}

/// Whether an optional text is the given one.
pub fn reason_is(reason: &Option<String>, text: &str) -> (r: bool)
    ensures
        r == (text_of(*reason) == Some(text@)),
{
    match reason {
        Some(s) => same(s.as_str(), text),
        None => false,
    }
}

/// Whether an optional text begins with the given one.
pub fn reason_starts_with(reason: &Option<String>, prefix: &str) -> (r: bool)
    ensures
        r == (text_of(*reason) is Some && has_prefix(text_of(*reason)->0, prefix@)),
{
    match reason {
        Some(s) => starts_with(s.as_str(), prefix),
        None => false,
    }
}

/// A copy of an optional text.
pub fn copy_text(t: &Option<String>) -> (r: Option<String>)
    ensures
        text_of(r) == text_of(*t),
{
    match t {
        Some(s) => Some(s.as_str().to_owned()),
        None => None,
    }
}

impl View for PauseState {
    type V = Option<Seq<char>>;

    open spec fn view(&self) -> Option<Seq<char>> {
        text_of(self.reason)
    }
}

impl PauseState {
    /// No pause.
    pub fn new() -> (r: Self)
        ensures
            r@ == None::<Seq<char>>,
    {
        PauseState { reason: None }
    }

    /// Whether there is a reason to pause.
    pub fn is_paused(&self) -> (r: bool)
        ensures
            r == (self@ is Some),
    {
        self.reason.is_some()
    }

    /// Pauses for the given reason.
    pub fn set(&mut self, reason: &str)
        ensures
            final(self)@ == Some(reason@),
    {
        self.reason = Some(reason.to_owned());
    }

    /// Takes in the watchdog's step.
    pub fn on_watchdog(&mut self, step: NoFrameStep)
        ensures
            final(self)@ == after_watchdog(old(self)@, step),
    {
        match step {
            NoFrameStep::TriggerPause => {
                self.set("vision:no_frame");
            },
            NoFrameStep::FrameOk => {
                if reason_is(&self.reason, "vision:no_frame") {
                    self.reason = None;
                }
            },
            NoFrameStep::Accumulating => {},
        }
    }

    /// Takes in the prompt detector's reading.
    pub fn on_prompt(&mut self, enabled: bool, reading: &PromptReading)
        ensures
            final(self)@ == after_prompt(old(self)@, enabled, *reading),
    {
        if enabled {
            match reading {
                PromptReading::Pending => {},
                PromptReading::Clear => {
                    if reason_starts_with(&self.reason, "prompt:") {
                        self.reason = None;
                    }
                },
                PromptReading::Seen(text) => {
                    self.set(text.as_str());
                },
            }
        }
    }

    /// Takes in the break scheduler's status.
    pub fn on_break(&mut self, status: Option<BreakStatus>, in_combat: bool)
        ensures
            final(self)@ == after_break(old(self)@, status, in_combat),
    {
        match status {
            Some(BreakStatus::Started(kind)) => {
                if !in_combat {
                    self.set(kind.as_str());
                }
            },
            Some(BreakStatus::Ended(_)) => {
                self.reason = None;
            },
            Some(BreakStatus::Quiet) => {
                if reason_starts_with(&self.reason, "break:") {
                    self.reason = None;
                }
            },
            Some(BreakStatus::Active(_)) => {},
            None => {},
        }
    }

    /// Takes in whether the game window lost the focus.
    pub fn on_focus(&mut self, focus_lost: bool)
        ensures
            final(self)@ == after_focus(old(self)@, focus_lost),
    {
        if focus_lost {
            if !reason_is(&self.reason, "focus:tibia_not_foreground") {
                self.set("focus:tibia_not_foreground");
            }
        } else if reason_is(&self.reason, "focus:tibia_not_foreground") {
            self.reason = None;
        }
    }

    /// Takes in whether the session is over.
    pub fn on_session(&mut self, expired: bool)
        ensures
            final(self)@ == after_session(old(self)@, expired),
    {
        if expired {
            self.set("session:max_duration_reached");
        }
    }
}

/// The pause for missing frames ends with the first frame, and no other rule's
/// reason is touched by it.
pub proof fn frame_clears_only_its_own_reason(r: Option<Seq<char>>)
    ensures
        after_watchdog(after_watchdog(r, NoFrameStep::TriggerPause), NoFrameStep::FrameOk) is None,
        r != Some("vision:no_frame"@) ==> after_watchdog(r, NoFrameStep::FrameOk) == r,
{
}

/// Losing and regaining the focus leaves no pause behind; a frame that finds
/// the focus in place keeps every other reason.
pub proof fn focus_clears_only_its_own_reason(r: Option<Seq<char>>)
    ensures
        after_focus(after_focus(r, true), false) is None,
        r != Some("focus:tibia_not_foreground"@) ==> after_focus(r, false) == r,
{
}

/// A detected prompt pauses, and goes with the first reading that finds none,
/// as long as its reason is marked as a prompt's; the readings of a detector
/// that is switched off change nothing.
pub proof fn prompt_clears_only_prompts(r: Option<Seq<char>>, text: String, reading: PromptReading)
    ensures
        after_prompt(r, true, PromptReading::Seen(text)) == Some(text@),
        has_prefix(text@, "prompt:"@) ==> after_prompt(
            Some(text@),
            true,
            PromptReading::Clear,
        ) is None,
        !(r is Some && has_prefix(r->0, "prompt:"@)) ==> after_prompt(r, true, PromptReading::Clear)
            == r,
        after_prompt(r, false, reading) == r,
{
}

/// No break starts in combat, and a break's end lifts any pause.
pub proof fn breaks_wait_for_combat(r: Option<Seq<char>>, kind: crate::safety::breaks::BreakKind)
    ensures
        after_break(r, Some(BreakStatus::Started(kind)), true) == r,
        after_break(r, Some(BreakStatus::Started(kind)), false) == Some(kind.reason()),
        after_break(r, Some(BreakStatus::Ended(kind)), true) is None,
        after_break(r, Some(BreakStatus::Ended(kind)), false) is None,
{
}

/// A pause begins with its own reason: missing frames, a lost window and the end of the session
/// each give theirs, whatever the reason was before. While frames are merely late, and as long as
/// the session lasts, the reason stays.
pub proof fn each_rule_gives_its_own_reason(r: Option<Seq<char>>)
    ensures
        after_watchdog(r, NoFrameStep::TriggerPause) == Some("vision:no_frame"@),
        after_watchdog(r, NoFrameStep::Accumulating) == r,
        after_focus(r, true) == Some("focus:tibia_not_foreground"@),
        after_session(r, true) == Some("session:max_duration_reached"@),
        after_session(r, false) == r,
{
}

/// A quiet break scheduler lifts a pause that a break began, and no other. One that is in the
/// middle of a break, or that is not there, changes nothing.
pub proof fn a_quiet_scheduler_lifts_its_own_pause(
    r: Option<Seq<char>>,
    kind: crate::safety::breaks::BreakKind,
    rest: Seq<char>,
    in_combat: bool,
)
    ensures
        after_break(Some("break:"@ + rest), Some(BreakStatus::Quiet), in_combat) is None,
        (r matches Some(t) ==> !(t.len() >= 6 && t.take(6) == "break:"@)) ==> after_break(
            r,
            Some(BreakStatus::Quiet),
            in_combat,
        ) == r,
        after_break(r, Some(BreakStatus::Active(kind)), in_combat) == r,
        after_break(r, None, in_combat) == r,
{
    reveal_strlit("break:");
    let t = "break:"@ + rest;
    assert(t.subrange(0, 6) =~= "break:"@);
    assert("break:"@.len() == 6);
    if let Some(u) = r {
        if has_prefix(u, "break:"@) {
            assert(u.take(6) =~= u.subrange(0, 6));
        }
    }
}

/// A prompt that is marked as one goes with the first reading that finds none, and nothing else
/// does.
pub proof fn a_clear_reading_lifts_a_prompt_alone(r: Option<Seq<char>>, rest: Seq<char>)
    ensures
        after_prompt(Some("prompt:"@ + rest), true, PromptReading::Clear) is None,
        (r matches Some(t) ==> !(t.len() >= 7 && t.take(7) == "prompt:"@)) ==> after_prompt(
            r,
            true,
            PromptReading::Clear,
        ) == r,
        after_prompt(r, true, PromptReading::Pending) == r,
{
    reveal_strlit("prompt:");
    let t = "prompt:"@ + rest;
    assert(t.subrange(0, 7) =~= "prompt:"@);
    assert("prompt:"@.len() == 7);
    if let Some(u) = r {
        if has_prefix(u, "prompt:"@) {
            assert(u.take(7) =~= u.subrange(0, 7));
        }
    }
}

} // verus!
