//! Commands from the operator, and the routes that they switch.

use vstd::prelude::*;
use crate::fsm::{WaypointEmit, WaypointHint};
use crate::loop_::pause::copy_text;
use crate::state::text_of;

verus! {

/// A command from the operator.
#[derive(Debug)]
pub enum LoopCommand {
    /// Load a waypoint list in place of the current one.
    LoadWaypoints { path: String, enabled: bool },
    PauseWaypoints,
    ResumeWaypoints,
    ClearWaypoints,
    /// Reload the scripts, from the given directory or from the current one.
    ReloadScripts { path: Option<String> },
    /// Load a cavebot in place of the current one.
    LoadCavebot { path: String, enabled: bool },
    PauseCavebot,
    ResumeCavebot,
    ClearCavebot,
    /// Move the cavebot to a label.
    JumpToCavebotLabel { label: String },
    /// Record perceptions, to the given file or to the usual one.
    StartRecording { path: Option<String> },
    StopRecording,
    /// Save crops of inventory slots.
    StartDatasetCapture { dir: String, interval: u32, tag: String },
    StopDatasetCapture,
}

/// What the caller is to do for a command. Where it loads something, it
/// reports the outcome with `Routes::command_done`.
#[derive(Clone, Copy, Debug, PartialEq, Eq, Structural)]
pub enum CommandWork {
    /// The command does not apply now.
    Ignored,
    /// Nothing more to do.
    Done,
    /// Load the waypoint list that the command names and start its stuck
    /// tracker at the current tick.
    LoadWaypoints,
    /// Restart the current waypoint step and the stuck tracker.
    RestartWaypoints,
    /// Drop the waypoint list.
    DropWaypoints,
    /// Load the cavebot that the command names and move it to the label at
    /// which the current one stands, if it has that label.
    LoadCavebot,
    /// Restart the current cavebot step.
    RestartCavebot,
    /// Drop the cavebot.
    DropCavebot,
    /// Move the cavebot to the label.
    JumpCavebot,
    /// Load the scripts from the directory that `Routes::reload_dir` gives.
    ReloadScripts,
    /// Open the recording that `recording_path` names.
    StartRecording,
    /// Close the recording.
    StopRecording,
    /// Start saving crops.
    StartDataset,
    /// Stop saving crops.
    StopDataset,
}

/// Which routes are loaded and which of them runs.
pub struct Routes {
    pub waypoints_loaded: bool,
    pub waypoints_enabled: bool,
    pub cavebot_loaded: bool,
    pub cavebot_enabled: bool,
    /// A recording is open.
    pub recording: bool,
    /// Crops are being saved.
    pub dataset: bool,
    /// The directory that scripts come from.
    pub script_dir: Option<String>,
}

/// The switches of the routes.
pub struct RouteModel {
    pub waypoints_loaded: bool,
    pub waypoints_enabled: bool,
    pub cavebot_loaded: bool,
    pub cavebot_enabled: bool,
    pub recording: bool,
    pub dataset: bool,
    pub script_dir: Option<Seq<char>>,
}

impl View for Routes {
    type V = RouteModel;

    open spec fn view(&self) -> RouteModel {
        RouteModel {
            waypoints_loaded: self.waypoints_loaded,
            waypoints_enabled: self.waypoints_enabled,
            cavebot_loaded: self.cavebot_loaded,
            cavebot_enabled: self.cavebot_enabled,
            recording: self.recording,
            dataset: self.dataset,
            script_dir: text_of(self.script_dir),
        }
    }
}

impl RouteModel {
    /// The directory that a reload takes its scripts from: the one that the
    /// command names, else the current one.
    pub open spec fn reload_dir(self, path: Option<Seq<char>>) -> Option<Seq<char>> {
        if path is Some {
            path
        } else {
            self.script_dir
        }
    }

    /// What the caller is to do for a command.
    pub open spec fn work(self, cmd: LoopCommand, cavebot_finished: bool) -> CommandWork {
        match cmd {
            LoopCommand::LoadWaypoints { .. } => CommandWork::LoadWaypoints,
            LoopCommand::PauseWaypoints => CommandWork::Done,
            LoopCommand::ResumeWaypoints => if self.waypoints_loaded && !self.cavebot_enabled {
                CommandWork::RestartWaypoints
            } else {
                CommandWork::Ignored
            },
            LoopCommand::ClearWaypoints => CommandWork::DropWaypoints,
            LoopCommand::ReloadScripts { path } => if self.reload_dir(text_of(path)) is Some {
                CommandWork::ReloadScripts
            } else {
                CommandWork::Ignored
            },
            LoopCommand::LoadCavebot { .. } => CommandWork::LoadCavebot,
            LoopCommand::PauseCavebot => CommandWork::Done,
            LoopCommand::ResumeCavebot => if self.cavebot_loaded && !cavebot_finished {
                CommandWork::RestartCavebot
            } else {
                CommandWork::Ignored
            },
            LoopCommand::ClearCavebot => CommandWork::DropCavebot,
            LoopCommand::JumpToCavebotLabel { .. } => if self.cavebot_loaded {
                CommandWork::JumpCavebot
            } else {
                CommandWork::Ignored
            },
            LoopCommand::StartRecording { .. } => CommandWork::StartRecording,
            LoopCommand::StopRecording => if self.recording {
                CommandWork::StopRecording
            } else {
                CommandWork::Ignored
            },
            LoopCommand::StartDatasetCapture { .. } => CommandWork::StartDataset,
            LoopCommand::StopDatasetCapture => if self.dataset {
                CommandWork::StopDataset
            } else {
                CommandWork::Ignored
            },
        }
    }

    /// The switches after a command was taken, before any loading.
    pub open spec fn taken(self, cmd: LoopCommand, cavebot_finished: bool) -> RouteModel {
        match cmd {
            LoopCommand::PauseWaypoints => RouteModel { waypoints_enabled: false, ..self },
            LoopCommand::ResumeWaypoints => if self.waypoints_loaded && !self.cavebot_enabled {
                RouteModel { waypoints_enabled: true, ..self }
            } else {
                self
            },
            LoopCommand::ClearWaypoints => RouteModel {
                waypoints_loaded: false,
                waypoints_enabled: false,
                ..self
            },
            LoopCommand::PauseCavebot => RouteModel { cavebot_enabled: false, ..self },
            LoopCommand::ResumeCavebot => if self.cavebot_loaded && !cavebot_finished {
                RouteModel { waypoints_enabled: false, cavebot_enabled: true, ..self }
            } else {
                self
            },
            LoopCommand::ClearCavebot => RouteModel {
                cavebot_loaded: false,
                cavebot_enabled: false,
                ..self
            },
            LoopCommand::StopRecording => RouteModel { recording: false, ..self },
            LoopCommand::StopDatasetCapture => RouteModel { dataset: false, ..self },
            _ => self,
        }
    }

    /// The switches after what a command asked to load was loaded.
    pub open spec fn loaded(self, cmd: LoopCommand) -> RouteModel {
        match cmd {
            LoopCommand::LoadWaypoints { path, enabled } => RouteModel {
                waypoints_loaded: true,
                waypoints_enabled: enabled,
                ..self
            },
            LoopCommand::LoadCavebot { path, enabled } => RouteModel {
                cavebot_loaded: true,
                cavebot_enabled: enabled,
                waypoints_enabled: false,
                ..self
            },
            LoopCommand::ReloadScripts { path } => RouteModel {
                script_dir: self.reload_dir(text_of(path)),
                ..self
            },
            LoopCommand::StartRecording { .. } => RouteModel { recording: true, ..self },
            LoopCommand::StartDatasetCapture { .. } => RouteModel { dataset: true, ..self },
            _ => self,
        }
    }

    /// What the route is asked on a tick. The cavebot comes before the waypoint
    /// list, and a safety pause freezes both.
    pub open spec fn request(
        self,
        safety_paused: bool,
        cavebot_running: bool,
        waypoints_running: bool,
    ) -> RouteRequest {
        if safety_paused {
            RouteRequest::Inactive
        } else if self.cavebot_enabled {
            if self.cavebot_loaded && cavebot_running {
                RouteRequest::TickCavebot
            } else {
                RouteRequest::Inactive
            }
        } else if self.waypoints_enabled && self.waypoints_loaded && waypoints_running {
            RouteRequest::TickWaypoints
        } else {
            RouteRequest::Inactive
        }
    }
}

/// The file that a recording goes to.
pub open spec fn recording_path_spec(path: Option<Seq<char>>) -> Seq<char> {
    match path {
        Some(p) => p,
        None => "session.jsonl"@,
    }
}

/// The file that a recording goes to: the given one, or `session.jsonl`.
pub fn recording_path(path: &Option<String>) -> (r: String)
    ensures
        r@ == recording_path_spec(text_of(*path)),
{
    match path {
        Some(p) => p.as_str().to_owned(),
        None => "session.jsonl".to_owned(),
    }
}

/// What the route is asked on a tick.
#[derive(Clone, Copy, Debug, PartialEq, Eq, Structural)]
pub enum RouteRequest {
    /// Nothing: no route runs.
    Inactive,
    /// The cavebot's next action.
    TickCavebot,
    /// The waypoint list's next key.
    TickWaypoints,
}

/// What the cavebot answers.
#[derive(Debug)]
pub enum CavebotAction {
    Idle,
    KeyTap(u8),
    Click { vx: i32, vy: i32 },
    RightClick { vx: i32, vy: i32 },
    /// Type a message.
    Say(String),
    /// The last step is done.
    Finished,
    /// Something is wrong: pause the bot.
    SafetyPause { reason: String },
}

/// What the waypoint list answers.
#[derive(Clone, Copy, Debug, PartialEq, Eq, Structural)]
pub enum WaypointOutcome {
    /// No progress for too long.
    Stuck,
    /// The key of this tick, if there is one.
    Step(Option<u8>),
}

/// The hint that a cavebot's answer gives.
pub open spec fn cavebot_hint(action: CavebotAction) -> WaypointHint {
    match action {
        CavebotAction::Idle => WaypointHint::Active { emit: None },
        CavebotAction::KeyTap(hid) => WaypointHint::Active { emit: Some(WaypointEmit::KeyTap(hid)) },
        CavebotAction::Click { vx, vy } => WaypointHint::Active {
            emit: Some(WaypointEmit::Click { vx, vy }),
        },
        CavebotAction::RightClick { vx, vy } => WaypointHint::Active {
            emit: Some(WaypointEmit::RightClick { vx, vy }),
        },
        CavebotAction::Say(_) => WaypointHint::Active { emit: None },
        CavebotAction::Finished => WaypointHint::Inactive,
        CavebotAction::SafetyPause { .. } => WaypointHint::Inactive,
    }
}

/// The hint that a waypoint list's answer gives.
pub open spec fn waypoint_hint(outcome: WaypointOutcome) -> WaypointHint {
    match outcome {
        WaypointOutcome::Stuck => WaypointHint::Inactive,
        WaypointOutcome::Step(Some(hid)) => WaypointHint::Active {
            emit: Some(WaypointEmit::KeyTap(hid)),
        },
        WaypointOutcome::Step(None) => WaypointHint::Active { emit: None },
    }
}

impl Routes {
    /// The routes at the start, after what the configuration names was loaded
    /// or not. A route that is not loaded does not run.
    pub fn new(
        waypoints_loaded: bool,
        waypoints_enabled: bool,
        cavebot_loaded: bool,
        cavebot_enabled: bool,
        recording: bool,
        script_dir: &str,
    ) -> (r: Self)
        ensures
            r@.waypoints_loaded == waypoints_loaded,
            r@.waypoints_enabled == (waypoints_loaded && waypoints_enabled),
            r@.cavebot_loaded == cavebot_loaded,
            r@.cavebot_enabled == (cavebot_loaded && cavebot_enabled),
            r@.recording == recording,
            !r@.dataset,
            r@.script_dir == if script_dir@.len() == 0 {
                None
            } else {
                Some(script_dir@)
            },
    {
        Routes {
            waypoints_loaded,
            waypoints_enabled: waypoints_loaded && waypoints_enabled,
            cavebot_loaded,
            cavebot_enabled: cavebot_loaded && cavebot_enabled,
            recording,
            dataset: false,
            script_dir: if crate::text::is_blank(script_dir) {
                None
            } else {
                Some(script_dir.to_owned())
            },
        }
    }

    /// Takes a command: changes the switches that it changes at once and says
    /// what the caller is to do for it.
    pub fn handle_command(&mut self, cmd: &LoopCommand, cavebot_finished: bool) -> (r: CommandWork)
        ensures
            final(self)@ == old(self)@.taken(*cmd, cavebot_finished),
            r == old(self)@.work(*cmd, cavebot_finished),
    {
        match cmd {
            LoopCommand::LoadWaypoints { .. } => CommandWork::LoadWaypoints,
            LoopCommand::PauseWaypoints => {
                self.waypoints_enabled = false;
                CommandWork::Done
            },
            LoopCommand::ResumeWaypoints => {
                if self.cavebot_enabled {
                    CommandWork::Ignored
                } else if self.waypoints_loaded {
                    self.waypoints_enabled = true;
                    CommandWork::RestartWaypoints
                } else {
                    CommandWork::Ignored
                }
            },
            LoopCommand::ClearWaypoints => {
                self.waypoints_loaded = false;
                self.waypoints_enabled = false;
                CommandWork::DropWaypoints
            },
            LoopCommand::ReloadScripts { path } => {
                if path.is_some() || self.script_dir.is_some() {
                    CommandWork::ReloadScripts
                } else {
                    CommandWork::Ignored
                }
            },
            LoopCommand::LoadCavebot { .. } => CommandWork::LoadCavebot,
            LoopCommand::PauseCavebot => {
                self.cavebot_enabled = false;
                CommandWork::Done
            },
            LoopCommand::ResumeCavebot => {
                if self.cavebot_loaded && !cavebot_finished {
                    self.waypoints_enabled = false;
                    self.cavebot_enabled = true;
                    CommandWork::RestartCavebot
                } else {
                    CommandWork::Ignored
                }
            },
            LoopCommand::ClearCavebot => {
                self.cavebot_loaded = false;
                self.cavebot_enabled = false;
                CommandWork::DropCavebot
            },
            LoopCommand::JumpToCavebotLabel { .. } => {
                if self.cavebot_loaded {
                    CommandWork::JumpCavebot
                } else {
                    CommandWork::Ignored
                }
            },
            LoopCommand::StartRecording { .. } => CommandWork::StartRecording,
            LoopCommand::StopRecording => {
                let was = self.recording;
                self.recording = false;
                if was {
                    CommandWork::StopRecording
                } else {
                    CommandWork::Ignored
                }
            },
            LoopCommand::StartDatasetCapture { .. } => CommandWork::StartDataset,
            LoopCommand::StopDatasetCapture => {
                let was = self.dataset;
                self.dataset = false;
                if was {
                    CommandWork::StopDataset
                } else {
                    CommandWork::Ignored
                }
            },
        }
    }

    /// Takes in whether what a command asked to load could be loaded. What
    /// could not be loaded changes nothing.
    pub fn command_done(&mut self, cmd: &LoopCommand, ok: bool)
        ensures
            ok ==> final(self)@ == old(self)@.loaded(*cmd),
            !ok ==> *final(self) == *old(self),
    {
        if ok {
            match cmd {
                LoopCommand::LoadWaypoints { path: _, enabled } => {
                    self.waypoints_loaded = true;
                    self.waypoints_enabled = *enabled;
                },
                LoopCommand::LoadCavebot { path: _, enabled } => {
                    self.cavebot_loaded = true;
                    self.cavebot_enabled = *enabled;
                    self.waypoints_enabled = false;
                },
                LoopCommand::ReloadScripts { path } => {
                    if path.is_some() {
                        self.script_dir = copy_text(path);
                    }
                },
                LoopCommand::StartRecording { .. } => {
                    self.recording = true;
                },
                LoopCommand::StartDatasetCapture { .. } => {
                    self.dataset = true;
                },
                _ => {},
            }
        }
    }

    /// The directory that a reload takes its scripts from.
    pub fn reload_dir(&self, path: &Option<String>) -> (r: Option<String>)
        ensures
            text_of(r) == self@.reload_dir(text_of(*path)),
    {
        if path.is_some() {
            copy_text(path)
        } else {
            copy_text(&self.script_dir)
        }
    }

    /// What the route is asked on a tick.
    pub fn request(
        &self,
        safety_paused: bool,
        cavebot_running: bool,
        waypoints_running: bool,
    ) -> (r: RouteRequest)
        ensures
            r == self@.request(safety_paused, cavebot_running, waypoints_running),
    {
        if safety_paused {
            RouteRequest::Inactive
        } else if self.cavebot_enabled {
            if self.cavebot_loaded && cavebot_running {
                RouteRequest::TickCavebot
            } else {
                RouteRequest::Inactive
            }
        } else if self.waypoints_enabled && self.waypoints_loaded && waypoints_running {
            RouteRequest::TickWaypoints
        } else {
            RouteRequest::Inactive
        }
    }
}

/// A load that fails leaves the routes as they were before the command.
pub proof fn failed_load_changes_nothing(m: RouteModel, cmd: LoopCommand, finished: bool)
    requires
        m.work(cmd, finished) == CommandWork::LoadWaypoints || m.work(cmd, finished)
            == CommandWork::LoadCavebot || m.work(cmd, finished) == CommandWork::ReloadScripts
            || m.work(cmd, finished) == CommandWork::StartRecording,
    ensures
        m.taken(cmd, finished) == m,
{
}

/// Whatever was on before, once the cavebot is loaded or resumed the waypoint
/// list is off, and no resume switches the list on while the cavebot runs.
pub proof fn cavebot_excludes_waypoints(m: RouteModel, cmd: LoopCommand, finished: bool)
    ensures
        cmd is LoadCavebot ==> !m.loaded(cmd).waypoints_enabled,
        cmd is ResumeCavebot && m.work(cmd, finished) == CommandWork::RestartCavebot ==> !m.taken(
            cmd,
            finished,
        ).waypoints_enabled && m.taken(cmd, finished).cavebot_enabled,
        cmd is ResumeWaypoints && m.cavebot_enabled ==> m.taken(cmd, finished) == m,
{
}

/// No route is asked during a safety pause, none runs that is switched off or
/// not loaded, and the waypoint list is never asked while the cavebot is on.
pub proof fn routes_ask_one_at_most(m: RouteModel, paused: bool, cavebot: bool, list: bool)
    ensures
        paused ==> m.request(paused, cavebot, list) == RouteRequest::Inactive,
        m.request(paused, cavebot, list) == RouteRequest::TickCavebot ==> m.cavebot_enabled
            && m.cavebot_loaded,
        m.request(paused, cavebot, list) == RouteRequest::TickWaypoints ==> m.waypoints_enabled
            && m.waypoints_loaded && !m.cavebot_enabled,
{
}

/// Which commands move which switch. Pausing or clearing the waypoint list switches it off, and
/// so does resuming the cavebot; resuming the list switches it on, unless it is not loaded or the
/// cavebot runs. Pausing or clearing the cavebot switches it off; resuming it switches it on,
/// unless it is not loaded or done. Clearing forgets what was loaded, and stopping ends a
/// recording or a capture. No command moves another switch before anything was loaded.
pub proof fn each_switch_has_its_own_commands(m: RouteModel, cmd: LoopCommand, finished: bool)
    ensures
        m.taken(cmd, finished).waypoints_enabled == (if cmd is PauseWaypoints
            || cmd is ClearWaypoints {
            false
        } else if cmd is ResumeWaypoints {
            m.waypoints_enabled || (m.waypoints_loaded && !m.cavebot_enabled)
        } else if cmd is ResumeCavebot {
            m.waypoints_enabled && (!m.cavebot_loaded || finished)
        } else {
            m.waypoints_enabled
        }),
        m.taken(cmd, finished).waypoints_loaded == (m.waypoints_loaded && !(cmd is ClearWaypoints)),
        m.taken(cmd, finished).cavebot_enabled == (if cmd is PauseCavebot || cmd is ClearCavebot {
            false
        } else if cmd is ResumeCavebot {
            m.cavebot_enabled || (m.cavebot_loaded && !finished)
        } else {
            m.cavebot_enabled
        }),
        m.taken(cmd, finished).cavebot_loaded == (m.cavebot_loaded && !(cmd is ClearCavebot)),
        m.taken(cmd, finished).recording == (m.recording && !(cmd is StopRecording)),
        m.taken(cmd, finished).dataset == (m.dataset && !(cmd is StopDatasetCapture)),
        m.taken(cmd, finished).script_dir == m.script_dir,
{
}

/// What a load that succeeded changes: a list or a cavebot is loaded and runs if the command says
/// so, and a cavebot stops the list; scripts come from the directory that was named, if one was; a
/// recording or a capture is on.
pub proof fn a_load_moves_its_own_switches(m: RouteModel, cmd: LoopCommand)
    ensures
        m.loaded(cmd).waypoints_loaded == (m.waypoints_loaded || cmd is LoadWaypoints),
        cmd matches LoopCommand::LoadWaypoints { path, enabled } ==> m.loaded(cmd).waypoints_enabled
            == enabled,
        cmd is LoadCavebot ==> !m.loaded(cmd).waypoints_enabled,
        !(cmd is LoadWaypoints) && !(cmd is LoadCavebot) ==> m.loaded(cmd).waypoints_enabled
            == m.waypoints_enabled,
        m.loaded(cmd).cavebot_loaded == (m.cavebot_loaded || cmd is LoadCavebot),
        cmd matches LoopCommand::LoadCavebot { path, enabled } ==> m.loaded(cmd).cavebot_enabled
            == enabled,
        !(cmd is LoadCavebot) ==> m.loaded(cmd).cavebot_enabled == m.cavebot_enabled,
        m.loaded(cmd).recording == (m.recording || cmd is StartRecording),
        m.loaded(cmd).dataset == (m.dataset || cmd is StartDatasetCapture),
        cmd matches LoopCommand::ReloadScripts { path: Some(p) } ==> m.loaded(cmd).script_dir
            == Some(p@),
        cmd matches LoopCommand::ReloadScripts { path: None } ==> m.loaded(cmd).script_dir
            == m.script_dir,
        !(cmd is ReloadScripts) ==> m.loaded(cmd).script_dir == m.script_dir,
{
}

/// Which commands are ignored: resuming or moving what is not loaded, resuming the list beside the
/// cavebot or a cavebot that is done, reloading scripts from nowhere, and stopping what is not on.
pub proof fn commands_that_cannot_apply_are_ignored(m: RouteModel, cmd: LoopCommand, finished: bool)
    ensures
        (m.work(cmd, finished) == CommandWork::Ignored) == ((cmd is ResumeWaypoints && (
        !m.waypoints_loaded || m.cavebot_enabled)) || (cmd is ResumeCavebot && (!m.cavebot_loaded
            || finished)) || (cmd is JumpToCavebotLabel && !m.cavebot_loaded) || (cmd matches
            LoopCommand::ReloadScripts { path: None } && m.script_dir is None) || (cmd is StopRecording
            && !m.recording) || (cmd is StopDatasetCapture && !m.dataset)),
        (m.work(cmd, finished) == CommandWork::Done) == (cmd is PauseWaypoints
            || cmd is PauseCavebot),
        (m.work(cmd, finished) == CommandWork::LoadWaypoints) == (cmd is LoadWaypoints),
        (m.work(cmd, finished) == CommandWork::LoadCavebot) == (cmd is LoadCavebot),
        (m.work(cmd, finished) == CommandWork::DropWaypoints) == (cmd is ClearWaypoints),
        (m.work(cmd, finished) == CommandWork::DropCavebot) == (cmd is ClearCavebot),
        (m.work(cmd, finished) == CommandWork::StartRecording) == (cmd is StartRecording),
        (m.work(cmd, finished) == CommandWork::StartDataset) == (cmd is StartDatasetCapture),
        m.work(cmd, finished) == CommandWork::RestartWaypoints ==> cmd is ResumeWaypoints,
        m.work(cmd, finished) == CommandWork::RestartCavebot ==> cmd is ResumeCavebot,
        m.work(cmd, finished) == CommandWork::JumpCavebot ==> cmd is JumpToCavebotLabel,
        m.work(cmd, finished) == CommandWork::ReloadScripts ==> cmd is ReloadScripts,
        m.work(cmd, finished) == CommandWork::StopRecording ==> cmd is StopRecording,
        m.work(cmd, finished) == CommandWork::StopDataset ==> cmd is StopDatasetCapture,
{
}

/// Unless the bot is paused, a loaded cavebot that is on and running is asked; a loaded list that
/// is on and running is asked where the cavebot is off.
pub proof fn a_running_route_is_asked(m: RouteModel, cavebot: bool, list: bool)
    ensures
        m.cavebot_enabled && m.cavebot_loaded && cavebot ==> m.request(false, cavebot, list)
            == RouteRequest::TickCavebot,
        !m.cavebot_enabled && m.waypoints_enabled && m.waypoints_loaded && list ==> m.request(
            false,
            cavebot,
            list,
        ) == RouteRequest::TickWaypoints,
        m.request(false, cavebot, list) == RouteRequest::TickCavebot ==> cavebot,
        m.request(false, cavebot, list) == RouteRequest::TickWaypoints ==> list,
{
}

/// A route hands on the key or the click that it asks for. While it waits or speaks it asks for
/// nothing but goes on; once it is done, stuck or stopped it does not.
pub proof fn a_route_hands_on_what_it_asks_for(action: CavebotAction, k: u8, x: i32, y: i32)
    ensures
        cavebot_hint(CavebotAction::KeyTap(k)) == (WaypointHint::Active {
            emit: Some(WaypointEmit::KeyTap(k)),
        }),
        cavebot_hint(CavebotAction::Click { vx: x, vy: y }) == (WaypointHint::Active {
            emit: Some(WaypointEmit::Click { vx: x, vy: y }),
        }),
        cavebot_hint(CavebotAction::RightClick { vx: x, vy: y }) == (WaypointHint::Active {
            emit: Some(WaypointEmit::RightClick { vx: x, vy: y }),
        }),
        action is Idle || action is Say ==> cavebot_hint(action) == (WaypointHint::Active {
            emit: None,
        }),
        action is Finished || action is SafetyPause ==> cavebot_hint(action)
            == WaypointHint::Inactive,
        waypoint_hint(WaypointOutcome::Stuck) == WaypointHint::Inactive,
        waypoint_hint(WaypointOutcome::Step(Some(k))) == (WaypointHint::Active {
            emit: Some(WaypointEmit::KeyTap(k)),
        }),
        waypoint_hint(WaypointOutcome::Step(None)) == (WaypointHint::Active { emit: None }),
{
}

/// A recording goes to the file that was named, and to the usual one where none was.
pub proof fn a_recording_goes_where_it_is_sent(p: Seq<char>)
    ensures
        recording_path_spec(Some(p)) == p,
        recording_path_spec(None) == "session.jsonl"@,
{
}

} // verus!
