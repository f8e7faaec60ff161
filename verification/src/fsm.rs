//! The priority state machine: it looks at one tick's inputs and returns the
//! action of highest priority.

use vstd::prelude::*;
use crate::config::Hotkeys;
use crate::perception::Sight;
use crate::safety::timing::{gauss_ticks, sample_gauss_ticks};
use crate::state::FsmDebugSnapshot;
use crate::units::Ppm;

verus! {

/// Health below this ratio is an emergency (30%).
pub const HP_CRITICAL_RATIO: Ppm = 300_000;

/// Mana below this ratio is an emergency (20%).
pub const MANA_CRITICAL_RATIO: Ppm = 200_000;

/// Ticks after which an attack is pressed again while no target shows up.
pub const ATTACK_KEEPALIVE_TICKS: u64 = 150;

/// What the bot is doing.
#[derive(Clone, Copy, Debug, PartialEq, Eq, Structural)]
pub enum FsmState {
    Idle,
    Paused,
    /// Heading for a waypoint.
    Walking,
    /// In combat.
    Fighting,
    /// Health or mana is critical.
    Emergency,
    /// Buying supplies.
    Refilling,
}

impl FsmState {
    /// The name of the state, as operators and scripts read it.
    pub open spec fn name_spec(self) -> Seq<char> {
        match self {
            FsmState::Idle => "Idle"@,
            FsmState::Paused => "Paused"@,
            FsmState::Walking => "Walking"@,
            FsmState::Fighting => "Fighting"@,
            FsmState::Emergency => "Emergency"@,
            FsmState::Refilling => "Refilling"@,
        }
    }

    /// The name of the state, as operators and scripts read it.
    pub fn name(&self) -> (r: &'static str)
        ensures
            r@ == self.name_spec(),
    {
        match self {
            FsmState::Idle => "Idle",
            FsmState::Paused => "Paused",
            FsmState::Walking => "Walking",
            FsmState::Fighting => "Fighting",
            FsmState::Emergency => "Emergency",
            FsmState::Refilling => "Refilling",
        }
    }
}

impl Default for FsmState {
    fn default() -> (r: Self)
        ensures
            r == FsmState::Idle,
    {
        FsmState::Idle
    }
}

/// What caused a decision.
#[derive(Clone, Copy, Debug, PartialEq, Eq, Structural)]
pub enum BotEvent {
    /// The next tick of the loop.
    Tick,
    /// The bot is to pause.
    PauseRequested,
    /// The bot is to resume.
    ResumeRequested,
}

/// What the loop does after a decision.
#[derive(Clone, Copy, Debug, PartialEq, Eq, Structural)]
pub enum BotAction {
    /// Nothing.
    Idle,
    /// Move the character towards a viewport position.
    MoveTo { vx: i32, vy: i32 },
    /// Tap a key.
    UseHotkey { hidcode: u8 },
    /// Click a viewport position.
    Click { vx: i32, vy: i32 },
    /// Right-click a viewport position.
    RightClick { vx: i32, vy: i32 },
}

/// What a route may ask for on a tick.
#[derive(Clone, Copy, Debug, PartialEq, Eq, Structural)]
pub enum WaypointEmit {
    KeyTap(u8),
    Click { vx: i32, vy: i32 },
    RightClick { vx: i32, vy: i32 },
}

/// What the route says of a tick.
#[derive(Clone, Copy, Debug, PartialEq, Eq, Structural)]
pub enum WaypointHint {
    /// No route is loaded, or it is not running.
    Inactive,
    /// A route is running; `emit` is its action on this tick, if it has one.
    Active { emit: Option<WaypointEmit> },
}

/// The verdict of the health gate on this tick.
#[derive(Clone, Copy, Debug, PartialEq, Eq, Structural)]
pub struct HealthGateDecision {
    /// Attacks, walking and looting may go out.
    pub allow_normal: bool,
    /// Emergency actions may go out.
    pub allow_emergency: bool,
}

impl HealthGateDecision {
    /// Everything passes.
    pub fn permissive() -> (r: Self)
        ensures
            r == (HealthGateDecision { allow_normal: true, allow_emergency: true }),
    {
        HealthGateDecision { allow_normal: true, allow_emergency: true }
    }

    /// Only emergency actions pass.
    pub fn heavy() -> (r: Self)
        ensures
            r == (HealthGateDecision { allow_normal: false, allow_emergency: true }),
    {
        HealthGateDecision { allow_normal: false, allow_emergency: true }
    }

    /// Nothing passes.
    pub fn safe_mode() -> (r: Self)
        ensures
            r == (HealthGateDecision { allow_normal: false, allow_emergency: false }),
    {
        HealthGateDecision { allow_normal: false, allow_emergency: false }
    }
}

impl Default for HealthGateDecision {
    /// Everything passes: a caller that sets no gate blocks nothing.
    fn default() -> (r: Self)
        ensures
            r == (HealthGateDecision { allow_normal: true, allow_emergency: true }),
    {
        HealthGateDecision::permissive()
    }
}

/// The inputs of one decision.
#[derive(Clone, Copy, Debug)]
pub struct DecideContext {
    /// The tick that is being decided.
    pub tick: u64,
    /// Whether the operator paused the bot.
    pub is_paused: bool,
    pub event: BotEvent,
    pub sight: Sight,
    pub hotkeys: Hotkeys,
    /// Ticks between two heals, where the machine has no jittered timing.
    pub cd_heal: u64,
    /// Ticks between two attacks, where the machine has no jittered timing.
    pub cd_attack: u64,
    /// Standard score of the next heal cooldown, read only by a machine with
    /// jittered timing.
    pub heal_z: i64,
    /// Standard score of the next attack cooldown, read only by a machine with
    /// jittered timing.
    pub attack_z: i64,
    pub waypoint_hint: WaypointHint,
    /// Key to heal with in place of the configured one.
    pub heal_override: Option<u8>,
    /// Key to attack with in place of the configured one.
    pub attack_override: Option<u8>,
    pub health_gate: HealthGateDecision,
}

/// The ticks from which actions may go out again; `None` before the first one.
#[derive(Clone, Copy, Debug, PartialEq, Eq, Structural)]
pub struct Cooldowns {
    pub next_heal_tick: Option<u64>,
    /// No attack before this tick.
    pub next_attack_tick: Option<u64>,
    /// From this tick on an attack is repeated while there is no target.
    pub attack_keepalive_tick: Option<u64>,
}

impl Cooldowns {
    /// Whether a cooldown has run out.
    pub open spec fn ready_spec(next: Option<u64>, tick: u64) -> bool {
        next matches Some(n) ==> tick >= n
    }

    /// Whether a cooldown has run out.
    pub fn ready(next: Option<u64>, tick: u64) -> (r: bool)
        ensures
            r == Cooldowns::ready_spec(next, tick),
    {
        match next {
            Some(n) => tick >= n,
            None => true,
        }
    }
}

impl Default for Cooldowns {
    fn default() -> (r: Self)
        ensures
            r == (Cooldowns {
                next_heal_tick: None,
                next_attack_tick: None,
                attack_keepalive_tick: None,
            }),
    {
        Cooldowns { next_heal_tick: None, next_attack_tick: None, attack_keepalive_tick: None }
    }
}

/// Mean and spread of jittered cooldowns, in microseconds.
#[derive(Clone, Copy, Debug, PartialEq, Eq, Structural)]
pub struct FsmTiming {
    pub heal_cd_mean_us: i64,
    pub heal_cd_std_us: i64,
    pub attack_cd_mean_us: i64,
    pub attack_cd_std_us: i64,
    pub fps: u32,
}

/// The state machine.
#[derive(Clone, Copy, Debug)]
pub struct Fsm {
    pub state: FsmState,
    pub cooldowns: Cooldowns,
    /// Present where cooldowns are drawn at random.
    pub timing: Option<FsmTiming>,
    /// Whether the character had a target on the previous combat tick; `None`
    /// where no combat tick precedes this one.
    pub prev_target_active: Option<bool>,
}

/// The level that decides a tick, from the highest priority to the lowest.
pub enum Tier {
    Paused,
    Emergency,
    Combat,
    Route,
    Nothing,
}

impl DecideContext {
    /// Health is critical.
    pub open spec fn hp_critical(self) -> bool {
        self.sight.hp matches Some(r) && r < HP_CRITICAL_RATIO
    }

    /// Mana is critical.
    pub open spec fn mana_critical(self) -> bool {
        self.sight.mana matches Some(r) && r < MANA_CRITICAL_RATIO
    }

    /// The level that decides: a pause before an emergency, that before
    /// combat, that before the route.
    pub open spec fn tier(self) -> Tier {
        if self.event == BotEvent::PauseRequested || self.is_paused {
            Tier::Paused
        } else if self.hp_critical() || self.mana_critical() {
            Tier::Emergency
        } else if self.sight.has_enemies {
            Tier::Combat
        } else if self.waypoint_hint is Active {
            Tier::Route
        } else {
            Tier::Nothing
        }
    }

    /// The key that answers an emergency: health before mana.
    pub open spec fn emergency_key(self) -> u8 {
        if self.hp_critical() {
            match self.heal_override {
                Some(k) => k,
                None => self.hotkeys.heal_spell,
            }
        } else {
            self.hotkeys.mana_spell
        }
    }

    /// The key that attacks.
    pub open spec fn attack_key(self) -> u8 {
        match self.attack_override {
            Some(k) => k,
            None => self.hotkeys.attack_default,
        }
    }

    /// The action that the route asks for.
    pub open spec fn route_action(self) -> BotAction {
        match self.waypoint_hint {
            WaypointHint::Active { emit: Some(WaypointEmit::KeyTap(hidcode)) } =>
                BotAction::UseHotkey { hidcode },
            WaypointHint::Active { emit: Some(WaypointEmit::Click { vx, vy }) } =>
                BotAction::Click { vx, vy },
            WaypointHint::Active { emit: Some(WaypointEmit::RightClick { vx, vy }) } =>
                BotAction::RightClick { vx, vy },
            _ => BotAction::Idle,
        }
    }
}

impl Fsm {
    /// A resume takes effect: the machine was paused and is asked to go on.
    pub open spec fn resumes(self, ctx: DecideContext) -> bool {
        ctx.event == BotEvent::ResumeRequested && self.state == FsmState::Paused
    }

    /// What is remembered of the target when the tick is decided.
    pub open spec fn known_target(self, ctx: DecideContext) -> Option<bool> {
        if self.resumes(ctx) {
            None
        } else {
            self.prev_target_active
        }
    }

    /// The cooldown that follows a heal.
    pub open spec fn heal_cd(self, ctx: DecideContext) -> int {
        match self.timing {
            Some(t) => gauss_ticks(
                t.heal_cd_mean_us as int,
                if t.heal_cd_std_us < 0 { 0 } else { t.heal_cd_std_us as int },
                t.fps as int,
                ctx.heal_z as int,
            ),
            None => ctx.cd_heal as int,
        }
    }

    /// The cooldown that follows an attack.
    pub open spec fn attack_cd(self, ctx: DecideContext) -> int {
        match self.timing {
            Some(t) => gauss_ticks(
                t.attack_cd_mean_us as int,
                if t.attack_cd_std_us < 0 { 0 } else { t.attack_cd_std_us as int },
                t.fps as int,
                ctx.attack_z as int,
            ),
            None => ctx.cd_attack as int,
        }
    }

    /// An emergency is answered on this tick.
    pub open spec fn heals(self, ctx: DecideContext) -> bool {
        ctx.tier() is Emergency && Cooldowns::ready_spec(self.cooldowns.next_heal_tick, ctx.tick)
    }

    /// An attack goes out on this tick: there is combat without a target, the
    /// floor between attacks has passed, and either the fight is new, the
    /// target was just lost (where it can be seen), or the keepalive ran out.
    pub open spec fn attacks(self, ctx: DecideContext) -> bool {
        let known = self.known_target(ctx);
        let fresh = match ctx.sight.target_active {
            Some(_) => known != Some(false),
            None => known is None,
        };
        &&& ctx.tier() is Combat
        &&& ctx.sight.target_active != Some(true)
        &&& Cooldowns::ready_spec(self.cooldowns.next_attack_tick, ctx.tick)
        &&& fresh || Cooldowns::ready_spec(self.cooldowns.attack_keepalive_tick, ctx.tick)
    }

    /// The state after the tick.
    pub open spec fn next_state(self, ctx: DecideContext) -> FsmState {
        match ctx.tier() {
            Tier::Paused => FsmState::Paused,
            Tier::Emergency => FsmState::Emergency,
            Tier::Combat => FsmState::Fighting,
            Tier::Route => FsmState::Walking,
            Tier::Nothing => FsmState::Idle,
        }
    }

    /// What is remembered of the target after the tick.
    pub open spec fn next_target(self, ctx: DecideContext) -> Option<bool> {
        match ctx.tier() {
            Tier::Paused =>
                if self.state == FsmState::Paused && ctx.event != BotEvent::ResumeRequested {
                    self.prev_target_active
                } else {
                    None
                },
            Tier::Emergency => self.known_target(ctx),
            Tier::Combat => match ctx.sight.target_active {
                Some(t) => Some(t),
                None => match self.known_target(ctx) {
                    Some(t) => Some(t),
                    None => Some(false),
                },
            },
            _ => None,
        }
    }

    /// The cooldowns after the tick.
    pub open spec fn next_cooldowns(self, ctx: DecideContext) -> Cooldowns {
        Cooldowns {
            next_heal_tick: if self.heals(ctx) {
                Some((ctx.tick + self.heal_cd(ctx)) as u64)
            } else {
                self.cooldowns.next_heal_tick
            },
            next_attack_tick: if self.attacks(ctx) {
                Some((ctx.tick + self.attack_cd(ctx)) as u64)
            } else {
                self.cooldowns.next_attack_tick
            },
            attack_keepalive_tick: if self.attacks(ctx) || (ctx.tier() is Combat
                && ctx.sight.target_active == Some(true)) {
                Some((ctx.tick + ATTACK_KEEPALIVE_TICKS) as u64)
            } else {
                self.cooldowns.attack_keepalive_tick
            },
        }
    }

    /// The action of the tick before the health gate sees it.
    pub open spec fn raw_action(self, ctx: DecideContext) -> BotAction {
        match ctx.tier() {
            Tier::Emergency =>
                if self.heals(ctx) {
                    BotAction::UseHotkey { hidcode: ctx.emergency_key() }
                } else {
                    BotAction::Idle
                },
            Tier::Combat =>
                if self.attacks(ctx) {
                    BotAction::UseHotkey { hidcode: ctx.attack_key() }
                } else {
                    BotAction::Idle
                },
            Tier::Route => ctx.route_action(),
            _ => BotAction::Idle,
        }
    }

    /// The action of the tick: what health lets through.
    pub open spec fn action(self, ctx: DecideContext) -> BotAction {
        if !ctx.health_gate.allow_emergency {
            BotAction::Idle
        } else if !ctx.health_gate.allow_normal && !(ctx.tier() is Emergency) {
            BotAction::Idle
        } else {
            self.raw_action(ctx)
        }
    }

    /// The machine after the tick.
    pub open spec fn next(self, ctx: DecideContext) -> Fsm {
        Fsm {
            state: self.next_state(ctx),
            cooldowns: self.next_cooldowns(ctx),
            timing: self.timing,
            prev_target_active: self.next_target(ctx),
        }
    }

    /// No tick that the machine computes leaves the range of ticks.
    pub open spec fn ticks_fit(self, ctx: DecideContext) -> bool {
        &&& self.heals(ctx) ==> ctx.tick + self.heal_cd(ctx) <= u64::MAX
        &&& self.attacks(ctx) ==> ctx.tick + self.attack_cd(ctx) <= u64::MAX
        &&& ctx.tier() is Combat ==> ctx.tick + ATTACK_KEEPALIVE_TICKS <= u64::MAX
    }

    /// An idle machine with fixed cooldowns.
    pub fn new() -> (r: Self)
        ensures
            r.state == FsmState::Idle,
            r.timing == None::<FsmTiming>,
            r.prev_target_active == None::<bool>,
            r.cooldowns.next_heal_tick == None::<u64>,
            r.cooldowns.next_attack_tick == None::<u64>,
            r.cooldowns.attack_keepalive_tick == None::<u64>,
    {
        Fsm {
            state: FsmState::Idle,
            cooldowns: Cooldowns::default(),
            timing: None,
            prev_target_active: None,
        }
    }

    /// An idle machine whose cooldowns are drawn at random.
    pub fn with_timing(timing: FsmTiming) -> (r: Self)
        ensures
            r.state == FsmState::Idle,
            r.timing == Some(timing),
            r.prev_target_active == None::<bool>,
            r.cooldowns.next_heal_tick == None::<u64>,
            r.cooldowns.next_attack_tick == None::<u64>,
            r.cooldowns.attack_keepalive_tick == None::<u64>,
    {
        Fsm {
            state: FsmState::Idle,
            cooldowns: Cooldowns::default(),
            timing: Some(timing),
            prev_target_active: None,
        }
    }

    /// The cooldown that follows a heal.
    fn sample_heal_cd(&self, ctx: &DecideContext) -> (r: u64)
        ensures
            r == self.heal_cd(*ctx),
    {
        match self.timing {
            Some(t) => sample_gauss_ticks(t.heal_cd_mean_us, t.heal_cd_std_us, t.fps, ctx.heal_z),
            None => ctx.cd_heal,
        }
    }

    /// The cooldown that follows an attack.
    fn sample_attack_cd(&self, ctx: &DecideContext) -> (r: u64)
        ensures
            r == self.attack_cd(*ctx),
    {
        match self.timing {
            Some(t) => sample_gauss_ticks(
                t.attack_cd_mean_us,
                t.attack_cd_std_us,
                t.fps,
                ctx.attack_z,
            ),
            None => ctx.cd_attack,
        }
    }

    /// Forgets the target; running cooldowns still count.
    fn reset_combat_state(&mut self)
        ensures
            *final(self) == (Fsm { prev_target_active: None, ..*old(self) }),
    {
        self.prev_target_active = None;
    }

    /// Decides one tick: moves the machine on and returns the action that the
    /// health gate lets through.
    pub fn decide(&mut self, ctx: &DecideContext) -> (action: BotAction)
        requires
            old(self).ticks_fit(*ctx),
        ensures
            *final(self) == old(self).next(*ctx),
            action == old(self).action(*ctx),
    {
        let action = self.decide_internal(ctx);
        if !ctx.health_gate.allow_emergency {
            return BotAction::Idle;
        }
        if !ctx.health_gate.allow_normal && self.state != FsmState::Emergency {
            return BotAction::Idle;
        }
        action
    }

    /// Decides one tick without the health gate.
    pub fn decide_internal(&mut self, ctx: &DecideContext) -> (action: BotAction)
        requires
            old(self).ticks_fit(*ctx),
        ensures
            *final(self) == old(self).next(*ctx),
            action == old(self).raw_action(*ctx),
    {
        match ctx.event {
            BotEvent::PauseRequested => {
                if self.state != FsmState::Paused {
                    self.reset_combat_state();
                }
                self.state = FsmState::Paused;
                return BotAction::Idle;
            },
            BotEvent::ResumeRequested => {
                if self.state == FsmState::Paused {
                    self.state = FsmState::Idle;
                    self.reset_combat_state();
                }
            },
            BotEvent::Tick => {},
        }

        if ctx.is_paused {
            if self.state != FsmState::Paused {
                self.reset_combat_state();
            }
            self.state = FsmState::Paused;
            return BotAction::Idle;
        }
        let tick: u64 = ctx.tick;
        let hp_critical = match ctx.sight.hp {
            Some(r) => r < HP_CRITICAL_RATIO,
            None => false,
        };
        let mana_critical = match ctx.sight.mana {
            Some(r) => r < MANA_CRITICAL_RATIO,
            None => false,
        };

        if hp_critical || mana_critical {
            self.state = FsmState::Emergency;
            if Cooldowns::ready(self.cooldowns.next_heal_tick, tick) {
                let cd: u64 = self.sample_heal_cd(ctx);
                self.cooldowns.next_heal_tick = Some(tick + cd);
                let hidcode: u8 = if hp_critical {
                    match ctx.heal_override {
                        Some(k) => k,
                        None => ctx.hotkeys.heal_spell,
                    }
                } else {
                    ctx.hotkeys.mana_spell
                };
                return BotAction::UseHotkey { hidcode };
            }
            return BotAction::Idle;
        }
        if ctx.sight.has_enemies {
            self.state = FsmState::Fighting;
            let floor_ok = Cooldowns::ready(self.cooldowns.next_attack_tick, tick);
            let keepalive_expired = Cooldowns::ready(self.cooldowns.attack_keepalive_tick, tick);
            let should_emit = match ctx.sight.target_active {
                Some(target_active) => {
                    let prev = self.prev_target_active;
                    self.prev_target_active = Some(target_active);
                    if target_active {
                        self.cooldowns.attack_keepalive_tick = Some(tick + ATTACK_KEEPALIVE_TICKS);
                        false
                    } else {
                        let fresh = match prev {
                            Some(was_active) => was_active,
                            None => true,
                        };
                        floor_ok && (fresh || keepalive_expired)
                    }
                },
                None => {
                    let first_combat = self.prev_target_active.is_none();
                    if first_combat {
                        self.prev_target_active = Some(false);
                    }
                    floor_ok && (first_combat || keepalive_expired)
                },
            };
            if should_emit {
                let cd: u64 = self.sample_attack_cd(ctx);
                self.cooldowns.next_attack_tick = Some(tick + cd);
                self.cooldowns.attack_keepalive_tick = Some(tick + ATTACK_KEEPALIVE_TICKS);
                let hidcode: u8 = match ctx.attack_override {
                    Some(k) => k,
                    None => ctx.hotkeys.attack_default,
                };
                return BotAction::UseHotkey { hidcode };
            }
            return BotAction::Idle;
        }
        self.prev_target_active = None;
        match ctx.waypoint_hint {
            WaypointHint::Active { emit } => {
                self.state = FsmState::Walking;
                match emit {
                    Some(WaypointEmit::KeyTap(hidcode)) => BotAction::UseHotkey { hidcode },
                    Some(WaypointEmit::Click { vx, vy }) => BotAction::Click { vx, vy },
                    Some(WaypointEmit::RightClick { vx, vy }) => BotAction::RightClick { vx, vy },
                    None => BotAction::Idle,
                }
            },
            WaypointHint::Inactive => {
                self.state = FsmState::Idle;
                BotAction::Idle
            },
        }
    }

    /// The state keeps a route from running, so that its step starts over.
    pub open spec fn interrupts(self) -> bool {
        self.state == FsmState::Emergency || self.state == FsmState::Fighting
    }

    /// Whether the state keeps a route from running.
    pub fn is_interrupting_waypoints(&self) -> (r: bool)
        ensures
            r == self.interrupts(),
    {
        self.state == FsmState::Emergency || self.state == FsmState::Fighting
    }

    /// The internal state, for operators.
    pub fn debug_snapshot(&self) -> (r: FsmDebugSnapshot)
        ensures
            r.state@ == self.state.name_spec(),
            r.next_heal_tick == self.cooldowns.next_heal_tick,
            r.next_attack_tick == self.cooldowns.next_attack_tick,
            r.attack_keepalive_tick == self.cooldowns.attack_keepalive_tick,
            r.prev_target_active == self.prev_target_active,
    {
        FsmDebugSnapshot {
            state: self.state.name().to_owned(),
            next_heal_tick: self.cooldowns.next_heal_tick,
            next_attack_tick: self.cooldowns.next_attack_tick,
            attack_keepalive_tick: self.cooldowns.attack_keepalive_tick,
            prev_target_active: self.prev_target_active,
        }
    }
}

impl Default for Fsm {
    fn default() -> (r: Self)
        ensures
            r.state == FsmState::Idle,
            r.timing == None::<FsmTiming>,
            r.prev_target_active == None::<bool>,
            r.cooldowns.next_heal_tick == None::<u64>,
            r.cooldowns.next_attack_tick == None::<u64>,
            r.cooldowns.attack_keepalive_tick == None::<u64>,
    {
        Fsm::new()
    }
}

/// The machine after a run of decisions.
pub open spec fn run(fsm: Fsm, ctxs: Seq<DecideContext>) -> Fsm
    decreases ctxs.len(),
{
    if ctxs.len() == 0 {
        fsm
    } else {
        run(fsm, ctxs.drop_last()).next(ctxs.last())
    }
}

/// The machine before decision `i` of a run.
pub open spec fn before(fsm: Fsm, ctxs: Seq<DecideContext>, i: int) -> Fsm {
    run(fsm, ctxs.take(i))
}

/// No tick that a run computes leaves the range of ticks.
pub open spec fn run_fits(fsm: Fsm, ctxs: Seq<DecideContext>) -> bool {
    forall|i: int| 0 <= i < ctxs.len() ==> (#[trigger] before(fsm, ctxs, i)).ticks_fit(ctxs[i])
}

proof fn run_step(fsm: Fsm, ctxs: Seq<DecideContext>, i: int)
    requires
        0 <= i < ctxs.len(),
    ensures
        before(fsm, ctxs, i + 1) == before(fsm, ctxs, i).next(ctxs[i]),
{
    assert(ctxs.take(i + 1).drop_last() =~= ctxs.take(i));
    assert(ctxs.take(i + 1).last() == ctxs[i]);
}

/// A cooldown runs at least until tick `t`.
pub open spec fn runs_until(next: Option<u64>, t: int) -> bool {
    next matches Some(n) && n >= t
}

proof fn cooldowns_hold(fsm: Fsm, ctxs: Seq<DecideContext>, i: int, j: int)
    requires
        0 <= i < j <= ctxs.len(),
        run_fits(fsm, ctxs),
    ensures
        before(fsm, ctxs, i).heals(ctxs[i]) ==> runs_until(
            before(fsm, ctxs, j).cooldowns.next_heal_tick,
            ctxs[i].tick + before(fsm, ctxs, i).heal_cd(ctxs[i]),
        ),
        before(fsm, ctxs, i).attacks(ctxs[i]) ==> runs_until(
            before(fsm, ctxs, j).cooldowns.next_attack_tick,
            ctxs[i].tick + before(fsm, ctxs, i).attack_cd(ctxs[i]),
        ),
    decreases j - i,
{
    run_step(fsm, ctxs, j - 1);
    assert(before(fsm, ctxs, j - 1).ticks_fit(ctxs[j - 1]));
    if j - 1 > i {
        cooldowns_hold(fsm, ctxs, i, j - 1);
    }
    let f = before(fsm, ctxs, j - 1);
    let c = ctxs[j - 1];
    if let Some(t) = f.timing {
        crate::safety::timing::gauss_ticks_positive(
            t.heal_cd_mean_us as int,
            if t.heal_cd_std_us < 0 { 0 } else { t.heal_cd_std_us as int },
            t.fps as int,
            c.heal_z as int,
        );
        crate::safety::timing::gauss_ticks_positive(
            t.attack_cd_mean_us as int,
            if t.attack_cd_std_us < 0 { 0 } else { t.attack_cd_std_us as int },
            t.fps as int,
            c.attack_z as int,
        );
    }
    assert(f.heal_cd(c) >= 0 && f.attack_cd(c) >= 0);
}

/// However the inputs of a run vary, two answers to an emergency are at least
/// the cooldown of the first apart.
pub proof fn heals_are_spaced(fsm: Fsm, ctxs: Seq<DecideContext>, i: int, j: int)
    requires
        0 <= i < j < ctxs.len(),
        run_fits(fsm, ctxs),
        before(fsm, ctxs, i).heals(ctxs[i]),
        before(fsm, ctxs, j).heals(ctxs[j]),
    ensures
        ctxs[j].tick >= ctxs[i].tick + before(fsm, ctxs, i).heal_cd(ctxs[i]),
{
    cooldowns_hold(fsm, ctxs, i, j);
}

/// However the inputs of a run vary, two attacks are at least the cooldown of
/// the first apart. Pauses in between do not shorten it.
pub proof fn attacks_are_spaced(fsm: Fsm, ctxs: Seq<DecideContext>, i: int, j: int)
    requires
        0 <= i < j < ctxs.len(),
        run_fits(fsm, ctxs),
        before(fsm, ctxs, i).attacks(ctxs[i]),
        before(fsm, ctxs, j).attacks(ctxs[j]),
    ensures
        ctxs[j].tick >= ctxs[i].tick + before(fsm, ctxs, i).attack_cd(ctxs[i]),
{
    cooldowns_hold(fsm, ctxs, i, j);
}

/// While the bot is paused nothing goes out, the state is `Paused`, and no
/// cooldown changes.
pub proof fn pause_is_silent(fsm: Fsm, ctx: DecideContext)
    requires
        ctx.event == BotEvent::PauseRequested || ctx.is_paused,
    ensures
        fsm.action(ctx) == BotAction::Idle,
        fsm.next(ctx).state == FsmState::Paused,
        fsm.next(ctx).cooldowns == fsm.cooldowns,
{
}

/// Unless the bot is paused, critical health or mana is an emergency whatever
/// else is in sight, and then neither the attack key nor the route acts.
pub proof fn emergency_comes_first(fsm: Fsm, ctx: DecideContext)
    requires
        ctx.event != BotEvent::PauseRequested,
        !ctx.is_paused,
        ctx.hp_critical() || ctx.mana_critical(),
    ensures
        fsm.next(ctx).state == FsmState::Emergency,
        fsm.action(ctx) == BotAction::Idle || fsm.action(ctx) == (BotAction::UseHotkey {
            hidcode: ctx.emergency_key(),
        }),
{
}

/// The route acts only when there is neither a pause, an emergency nor combat.
pub proof fn route_comes_last(fsm: Fsm, ctx: DecideContext)
    ensures
        fsm.next(ctx).state == FsmState::Walking ==> !ctx.is_paused && !ctx.hp_critical()
            && !ctx.mana_critical() && !ctx.sight.has_enemies && ctx.waypoint_hint is Active,
        fsm.next(ctx).state == FsmState::Walking && ctx.health_gate.allow_normal
            && ctx.health_gate.allow_emergency ==> fsm.action(ctx) == ctx.route_action(),
{
}

/// While the character has a target in sight no attack goes out, and the
/// keepalive starts anew.
pub proof fn no_attack_on_target(fsm: Fsm, ctx: DecideContext)
    requires
        ctx.tier() is Combat,
        ctx.sight.target_active == Some(true),
        fsm.ticks_fit(ctx),
    ensures
        fsm.action(ctx) == BotAction::Idle,
        fsm.next(ctx).cooldowns.attack_keepalive_tick == Some(
            (ctx.tick + ATTACK_KEEPALIVE_TICKS) as u64,
        ),
{
}

/// A permissive gate changes nothing, a heavy one lets only emergency answers
/// through, and safe mode lets nothing through.
pub proof fn gate_only_blocks(fsm: Fsm, ctx: DecideContext)
    ensures
        fsm.action(ctx) == fsm.raw_action(ctx) || fsm.action(ctx) == BotAction::Idle,
        ctx.health_gate.allow_normal && ctx.health_gate.allow_emergency ==> fsm.action(ctx)
            == fsm.raw_action(ctx),
        !ctx.health_gate.allow_normal && fsm.action(ctx) != BotAction::Idle ==> fsm.next(ctx).state
            == FsmState::Emergency,
        !ctx.health_gate.allow_emergency ==> fsm.action(ctx) == BotAction::Idle,
{
}

/// Of two ticks that differ in what health lets through alone, the machine comes out the same. What
/// it does is what it does if everything is let through, unless it is held back: safe mode holds
/// back everything, and where nothing ordinary passes, all but an emergency is held back.
pub proof fn gate_changes_the_action_alone(fsm: Fsm, free: DecideContext, gated: DecideContext)
    requires
        gated == (DecideContext { health_gate: gated.health_gate, ..free }),
        free.health_gate.allow_normal && free.health_gate.allow_emergency,
    ensures
        fsm.next(gated) == fsm.next(free),
        fsm.action(gated) == if !gated.health_gate.allow_emergency {
            BotAction::Idle
        } else if !gated.health_gate.allow_normal && fsm.next(gated).state != FsmState::Emergency {
            BotAction::Idle
        } else {
            fsm.action(free)
        },
{
}

/// Two answers to emergencies of a machine with fixed cooldowns are at least the cooldown of the
/// first apart, whatever happened in between.
pub proof fn emergency_answers_are_spaced(fsm: Fsm, ctxs: Seq<DecideContext>, i: int, j: int)
    requires
        0 <= i < j < ctxs.len(),
        run_fits(fsm, ctxs),
        fsm.timing is None,
        before(fsm, ctxs, i).raw_action(ctxs[i]) is UseHotkey,
        before(fsm, ctxs, i).next(ctxs[i]).state == FsmState::Emergency,
        before(fsm, ctxs, j).raw_action(ctxs[j]) is UseHotkey,
        before(fsm, ctxs, j).next(ctxs[j]).state == FsmState::Emergency,
    ensures
        ctxs[j].tick >= ctxs[i].tick + ctxs[i].cd_heal,
{
    timing_stays(fsm, ctxs, i);
    heals_are_spaced(fsm, ctxs, i, j);
}

proof fn timing_stays(fsm: Fsm, ctxs: Seq<DecideContext>, i: int)
    requires
        0 <= i < ctxs.len(),
    ensures
        before(fsm, ctxs, i).timing == fsm.timing,
    decreases i,
{
    if i > 0 {
        timing_stays(fsm, ctxs, i - 1);
        run_step(fsm, ctxs, i - 1);
    }
}

proof fn no_heal_without_emergency(fsm: Fsm, ctxs: Seq<DecideContext>, i: int)
    requires
        0 <= i < ctxs.len(),
        fsm.cooldowns.next_heal_tick is None,
        forall|j: int|
            0 <= j < i ==> (#[trigger] before(fsm, ctxs, j)).next(ctxs[j]).state
                != FsmState::Emergency,
    ensures
        before(fsm, ctxs, i).cooldowns.next_heal_tick is None,
    decreases i,
{
    if i > 0 {
        no_heal_without_emergency(fsm, ctxs, i - 1);
        run_step(fsm, ctxs, i - 1);
        assert(before(fsm, ctxs, i - 1).next(ctxs[i - 1]).state != FsmState::Emergency);
    }
}

/// The first emergency of a machine that has not healed yet is answered at once, on whatever tick
/// it comes and whatever came before it.
pub proof fn first_emergency_is_answered(fsm: Fsm, ctxs: Seq<DecideContext>, i: int)
    requires
        0 <= i < ctxs.len(),
        fsm.cooldowns.next_heal_tick is None,
        before(fsm, ctxs, i).next(ctxs[i]).state == FsmState::Emergency,
        forall|j: int|
            0 <= j < i ==> (#[trigger] before(fsm, ctxs, j)).next(ctxs[j]).state
                != FsmState::Emergency,
    ensures
        before(fsm, ctxs, i).raw_action(ctxs[i]) == (BotAction::UseHotkey {
            hidcode: ctxs[i].emergency_key(),
        }),
        ctxs[i].health_gate.allow_emergency ==> before(fsm, ctxs, i).action(ctxs[i]) == (
        BotAction::UseHotkey { hidcode: ctxs[i].emergency_key() }),
{
    no_heal_without_emergency(fsm, ctxs, i);
}

/// Mana below a fifth, with health at three tenths or more or not seen, is answered with the mana
/// key as soon as the last answer has cooled down, whatever keys stand in for the others.
pub proof fn low_mana_alone_presses_the_mana_key(fsm: Fsm, ctx: DecideContext)
    requires
        ctx.event != BotEvent::PauseRequested,
        !ctx.is_paused,
        ctx.sight.hp matches Some(h) ==> h >= 300_000,
        ctx.sight.mana matches Some(m) && m < 200_000,
        fsm.cooldowns.next_heal_tick matches Some(t) ==> t <= ctx.tick,
    ensures
        fsm.raw_action(ctx) == (BotAction::UseHotkey { hidcode: ctx.hotkeys.mana_spell }),
        ctx.health_gate.allow_emergency ==> fsm.action(ctx) == (BotAction::UseHotkey {
            hidcode: ctx.hotkeys.mana_spell,
        }),
{
}

/// Health below three tenths is answered with the key that stands in for the heal key, or with the
/// heal key where none does, however low mana is.
pub proof fn low_health_presses_the_heal_key(fsm: Fsm, ctx: DecideContext)
    requires
        ctx.event != BotEvent::PauseRequested,
        !ctx.is_paused,
        ctx.sight.hp matches Some(h) && h < 300_000,
        fsm.cooldowns.next_heal_tick matches Some(t) ==> t <= ctx.tick,
    ensures
        ctx.heal_override matches Some(k) ==> fsm.raw_action(ctx) == (BotAction::UseHotkey {
            hidcode: k,
        }),
        ctx.heal_override is None ==> fsm.raw_action(ctx) == (BotAction::UseHotkey {
            hidcode: ctx.hotkeys.heal_spell,
        }),
        ctx.health_gate.allow_emergency ==> fsm.action(ctx) == fsm.raw_action(ctx),
{
}

/// Two ticks that differ only in the key that stands in for the heal key go the same way, unless
/// health is below three tenths.
pub proof fn the_heal_override_counts_in_need_of_health_alone(
    fsm: Fsm,
    a: DecideContext,
    b: DecideContext,
)
    requires
        b == (DecideContext { heal_override: b.heal_override, ..a }),
    ensures
        fsm.next(a) == fsm.next(b),
        !(a.sight.hp matches Some(h) && h < 300_000) ==> fsm.raw_action(a) == fsm.raw_action(b)
            && fsm.action(a) == fsm.action(b),
{
}

/// Two ticks that differ only in the key that stands in for the attack key go the same way, unless
/// there are enemies in sight and neither health nor mana is in need.
pub proof fn the_attack_override_counts_in_combat_alone(
    fsm: Fsm,
    a: DecideContext,
    b: DecideContext,
)
    requires
        b == (DecideContext { attack_override: b.attack_override, ..a }),
    ensures
        fsm.next(a) == fsm.next(b),
        !a.sight.has_enemies || (a.sight.hp matches Some(h) && h < 300_000) || (
        a.sight.mana matches Some(m) && m < 200_000) ==> fsm.raw_action(a) == fsm.raw_action(b)
            && fsm.action(a) == fsm.action(b),
{
}

/// The state after a tick, from what was asked and seen: paused where a pause was asked for or is
/// on; in an emergency where a bar is seen below its limit, three tenths for health and a fifth for
/// mana; fighting where enemies are in sight; walking where a route runs; idle otherwise.
pub proof fn state_follows_from_the_inputs(fsm: Fsm, ctx: DecideContext)
    ensures
        (fsm.next(ctx).state == FsmState::Paused) == (ctx.event == BotEvent::PauseRequested
            || ctx.is_paused),
        fsm.next(ctx).state == FsmState::Emergency ==> (ctx.sight.hp matches Some(h)
            && h < 300_000) || (ctx.sight.mana matches Some(m) && m < 200_000),
        fsm.next(ctx).state != FsmState::Paused && (ctx.sight.hp matches Some(h) && h < 300_000)
            ==> fsm.next(ctx).state == FsmState::Emergency,
        fsm.next(ctx).state != FsmState::Paused && (ctx.sight.mana matches Some(m) && m < 200_000)
            ==> fsm.next(ctx).state == FsmState::Emergency,
        fsm.next(ctx).state == FsmState::Fighting ==> ctx.sight.has_enemies,
        ctx.sight.has_enemies ==> fsm.next(ctx).state == FsmState::Paused || fsm.next(ctx).state
            == FsmState::Emergency || fsm.next(ctx).state == FsmState::Fighting,
        fsm.next(ctx).state == FsmState::Walking ==> ctx.waypoint_hint is Active,
        fsm.next(ctx).state == FsmState::Idle ==> ctx.waypoint_hint is Inactive,
        fsm.next(ctx).state != FsmState::Refilling,
{
}

/// An answer to an emergency starts its cooldown: the next one may go out as many ticks later as
/// the tick says, and not before. A tick without an answer leaves it alone.
pub proof fn an_answer_starts_its_cooldown(fsm: Fsm, ctx: DecideContext, later: DecideContext)
    requires
        fsm.timing is None,
        ctx.tick + ctx.cd_heal <= u64::MAX,
    ensures
        fsm.next(ctx).state == FsmState::Emergency && fsm.raw_action(ctx) != BotAction::Idle
            ==> fsm.next(ctx).cooldowns.next_heal_tick == Some((ctx.tick + ctx.cd_heal) as u64),
        fsm.next(ctx).state != FsmState::Emergency || fsm.raw_action(ctx) == BotAction::Idle
            ==> fsm.next(ctx).cooldowns.next_heal_tick == fsm.cooldowns.next_heal_tick,
        fsm.next(ctx).state == FsmState::Emergency && fsm.raw_action(ctx) != BotAction::Idle
            && fsm.next(ctx).next(later).state == FsmState::Emergency ==> (later.tick < ctx.tick
            + ctx.cd_heal) == (fsm.next(ctx).raw_action(later) == BotAction::Idle),
{
}

/// An attack presses the key that stands in for the attack key, or the attack key where none does.
/// It starts both of its clocks: no other goes out before the cooldown is over, and five seconds
/// of thirty ticks later it is repeated.
pub proof fn an_attack_starts_its_cooldown(fsm: Fsm, ctx: DecideContext)
    requires
        fsm.timing is None,
        ctx.tick + ctx.cd_attack <= u64::MAX,
        ctx.tick + 150 <= u64::MAX,
        fsm.next(ctx).state == FsmState::Fighting,
    ensures
        fsm.raw_action(ctx) != BotAction::Idle ==> {
            &&& ctx.attack_override matches Some(k) ==> fsm.raw_action(ctx) == (
            BotAction::UseHotkey { hidcode: k })
            &&& ctx.attack_override is None ==> fsm.raw_action(ctx) == (BotAction::UseHotkey {
                hidcode: ctx.hotkeys.attack_default,
            })
            &&& fsm.next(ctx).cooldowns.next_attack_tick == Some((ctx.tick + ctx.cd_attack) as u64)
            &&& fsm.next(ctx).cooldowns.attack_keepalive_tick == Some((ctx.tick + 150) as u64)
        },
        fsm.raw_action(ctx) == BotAction::Idle ==> fsm.next(ctx).cooldowns.next_attack_tick
            == fsm.cooldowns.next_attack_tick,
        fsm.raw_action(ctx) == BotAction::Idle && ctx.sight.target_active != Some(true)
            ==> fsm.next(ctx).cooldowns.attack_keepalive_tick
            == fsm.cooldowns.attack_keepalive_tick,
        ctx.sight.target_active == Some(true) ==> fsm.raw_action(ctx) == BotAction::Idle
            && fsm.next(ctx).cooldowns.attack_keepalive_tick == Some((ctx.tick + 150) as u64),
        fsm.cooldowns.next_attack_tick matches Some(t) && ctx.tick < t ==> fsm.raw_action(ctx)
            == BotAction::Idle,
{
}

/// Outside combat neither clock of the attacks moves, and outside an emergency the heal clock does
/// not.
pub proof fn clocks_move_in_their_own_state_alone(fsm: Fsm, ctx: DecideContext)
    ensures
        fsm.next(ctx).state != FsmState::Fighting ==> fsm.next(ctx).cooldowns.next_attack_tick
            == fsm.cooldowns.next_attack_tick && fsm.next(ctx).cooldowns.attack_keepalive_tick
            == fsm.cooldowns.attack_keepalive_tick,
        fsm.next(ctx).state != FsmState::Emergency ==> fsm.next(ctx).cooldowns.next_heal_tick
            == fsm.cooldowns.next_heal_tick,
        fsm.next(ctx).timing == fsm.timing,
{
}

/// Where the floor between attacks has passed, a target that was just lost and a fight without a
/// target that has just begun are answered at once. A target that was missing before is only
/// answered once the repeat is due.
pub proof fn a_lost_target_is_attacked(fsm: Fsm, ctx: DecideContext)
    requires
        fsm.next(ctx).state == FsmState::Fighting,
        fsm.cooldowns.next_attack_tick matches Some(t) ==> t <= ctx.tick,
        ctx.event == BotEvent::Tick || fsm.state != FsmState::Paused,
    ensures
        ctx.sight.target_active == Some(false) && fsm.prev_target_active == Some(true)
            ==> fsm.raw_action(ctx) is UseHotkey,
        ctx.sight.target_active != Some(true) && fsm.prev_target_active is None
            ==> fsm.raw_action(ctx) is UseHotkey,
        ctx.sight.target_active == Some(false) && fsm.prev_target_active == Some(false) ==> (
        fsm.raw_action(ctx) is UseHotkey) == (fsm.cooldowns.attack_keepalive_tick matches Some(t)
            ==> t <= ctx.tick),
        ctx.sight.target_active is None && fsm.prev_target_active is Some ==> (fsm.raw_action(
            ctx,
        ) is UseHotkey) == (fsm.cooldowns.attack_keepalive_tick matches Some(t) ==> t <= ctx.tick),
{
}

/// A resumed machine takes the first fight for a new one.
pub proof fn a_resumed_machine_attacks_anew(fsm: Fsm, ctx: DecideContext)
    requires
        fsm.state == FsmState::Paused,
        ctx.event == BotEvent::ResumeRequested,
        fsm.next(ctx).state == FsmState::Fighting,
        ctx.sight.target_active != Some(true),
        fsm.cooldowns.next_attack_tick matches Some(t) ==> t <= ctx.tick,
    ensures
        fsm.raw_action(ctx) is UseHotkey,
{
}

/// What is remembered of the target: in combat what is seen, where it can be seen; a fight that
/// begins unseen counts as one without a target. Without combat nothing is remembered, and an
/// emergency changes nothing.
pub proof fn the_target_is_remembered_in_combat(fsm: Fsm, ctx: DecideContext)
    requires
        ctx.event == BotEvent::Tick,
    ensures
        fsm.next(ctx).state == FsmState::Fighting && ctx.sight.target_active is Some ==> fsm.next(
            ctx,
        ).prev_target_active == ctx.sight.target_active,
        fsm.next(ctx).state == FsmState::Fighting && ctx.sight.target_active is None
            && fsm.prev_target_active is None ==> fsm.next(ctx).prev_target_active == Some(false),
        fsm.next(ctx).state == FsmState::Fighting && ctx.sight.target_active is None
            && fsm.prev_target_active is Some ==> fsm.next(ctx).prev_target_active
            == fsm.prev_target_active,
        fsm.next(ctx).state == FsmState::Emergency ==> fsm.next(ctx).prev_target_active
            == fsm.prev_target_active,
        fsm.next(ctx).state == FsmState::Walking || fsm.next(ctx).state == FsmState::Idle
            ==> fsm.next(ctx).prev_target_active is None,
        fsm.next(ctx).state == FsmState::Paused && fsm.state != FsmState::Paused ==> fsm.next(
            ctx,
        ).prev_target_active is None,
        fsm.next(ctx).state == FsmState::Paused && fsm.state == FsmState::Paused ==> fsm.next(
            ctx,
        ).prev_target_active == fsm.prev_target_active,
{
}

/// Walking does what the route asks for: its key, its click or its right click, at the position
/// that it names; nothing where it asks for nothing.
pub proof fn walking_does_what_the_route_asks(fsm: Fsm, ctx: DecideContext)
    requires
        fsm.next(ctx).state == FsmState::Walking,
    ensures
        ctx.waypoint_hint matches WaypointHint::Active { emit: Some(WaypointEmit::KeyTap(k)) }
            ==> fsm.raw_action(ctx) == (BotAction::UseHotkey { hidcode: k }),
        ctx.waypoint_hint matches WaypointHint::Active {
            emit: Some(WaypointEmit::Click { vx, vy }),
        } ==> fsm.raw_action(ctx) == (BotAction::Click { vx, vy }),
        ctx.waypoint_hint matches WaypointHint::Active {
            emit: Some(WaypointEmit::RightClick { vx, vy }),
        } ==> fsm.raw_action(ctx) == (BotAction::RightClick { vx, vy }),
        ctx.waypoint_hint matches WaypointHint::Active { emit: None } ==> fsm.raw_action(ctx)
            == BotAction::Idle,
{
}

/// An idle or paused machine does nothing; one in an emergency or in combat presses a key or does
/// nothing.
pub proof fn only_a_route_clicks(fsm: Fsm, ctx: DecideContext)
    ensures
        fsm.next(ctx).state == FsmState::Idle || fsm.next(ctx).state == FsmState::Paused
            ==> fsm.raw_action(ctx) == BotAction::Idle,
        fsm.raw_action(ctx) is Click || fsm.raw_action(ctx) is RightClick ==> fsm.next(ctx).state
            == FsmState::Walking,
        !(fsm.raw_action(ctx) is MoveTo),
{
}

/// Emergencies and fights interrupt a route, and nothing else does.
pub proof fn danger_interrupts_a_route(fsm: Fsm, ctx: DecideContext)
    requires
        ctx.event != BotEvent::PauseRequested,
        !ctx.is_paused,
    ensures
        fsm.next(ctx).interrupts() == (ctx.sight.has_enemies || (ctx.sight.hp matches Some(h)
            && h < 300_000) || (ctx.sight.mana matches Some(m) && m < 200_000)),
{
}

/// The jittered cooldowns of a machine with timing are drawn around its own mean with its own
/// spread, heals by the heal draw and attacks by the attack draw.
pub proof fn jittered_clocks_follow_the_timing(fsm: Fsm, ctx: DecideContext, t: FsmTiming)
    requires
        fsm.timing == Some(t),
        fsm.ticks_fit(ctx),
        t.heal_cd_std_us >= 0,
        t.attack_cd_std_us >= 0,
    ensures
        fsm.next(ctx).state == FsmState::Emergency && fsm.raw_action(ctx) is UseHotkey ==> fsm.next(
            ctx,
        ).cooldowns.next_heal_tick == Some(
            (ctx.tick + gauss_ticks(
                t.heal_cd_mean_us as int,
                t.heal_cd_std_us as int,
                t.fps as int,
                ctx.heal_z as int,
            )) as u64,
        ),
        fsm.next(ctx).state == FsmState::Fighting && fsm.raw_action(ctx) is UseHotkey ==> fsm.next(
            ctx,
        ).cooldowns.next_attack_tick == Some(
            (ctx.tick + gauss_ticks(
                t.attack_cd_mean_us as int,
                t.attack_cd_std_us as int,
                t.fps as int,
                ctx.attack_z as int,
            )) as u64,
        ),
{
}

/// To a machine that is not paused a resume is an ordinary tick, and a pause that is asked for is
/// like one that is already on.
pub proof fn requests_count_where_they_apply(fsm: Fsm, tick: DecideContext, other: DecideContext)
    requires
        tick.event == BotEvent::Tick,
    ensures
        fsm.state != FsmState::Paused && other == (DecideContext {
            event: BotEvent::ResumeRequested,
            ..tick
        }) ==> fsm.next(other) == fsm.next(tick) && fsm.raw_action(other) == fsm.raw_action(tick)
            && fsm.action(other) == fsm.action(tick),
        tick.is_paused && other == (DecideContext { event: BotEvent::PauseRequested, ..tick })
            ==> fsm.next(other) == fsm.next(tick) && fsm.action(other) == fsm.action(tick),
        !tick.is_paused && other == (DecideContext { event: BotEvent::PauseRequested, ..tick })
            ==> fsm.next(other) == fsm.next(DecideContext { is_paused: true, ..tick }),
{
}

/// A resumed machine has forgotten the target that it had: through an emergency it remembers none,
/// and in combat what it sees now.
pub proof fn a_resumed_machine_forgets_the_target(fsm: Fsm, ctx: DecideContext)
    requires
        fsm.state == FsmState::Paused,
        ctx.event == BotEvent::ResumeRequested,
        !ctx.is_paused,
    ensures
        fsm.next(ctx).state != FsmState::Paused,
        fsm.next(ctx).state == FsmState::Emergency ==> fsm.next(ctx).prev_target_active is None,
        fsm.next(ctx).state == FsmState::Fighting && ctx.sight.target_active is Some ==> fsm.next(
            ctx,
        ).prev_target_active == ctx.sight.target_active,
        fsm.next(ctx).state == FsmState::Fighting && ctx.sight.target_active is None ==> fsm.next(
            ctx,
        ).prev_target_active == Some(false),
        fsm.next(ctx).state == FsmState::Walking || fsm.next(ctx).state == FsmState::Idle
            ==> fsm.next(ctx).prev_target_active is None,
{
}

/// A decision depends on the tick's own inputs alone: draws count only where there is jitter, and
/// the fixed cooldowns only where there is none.
pub proof fn draws_count_with_jitter_alone(fsm: Fsm, a: DecideContext, b: DecideContext)
    ensures
        fsm.timing is None && b == (DecideContext { heal_z: b.heal_z, attack_z: b.attack_z, ..a })
            ==> fsm.next(a) == fsm.next(b) && fsm.action(a) == fsm.action(b),
        fsm.timing is Some && b == (DecideContext {
            cd_heal: b.cd_heal,
            cd_attack: b.cd_attack,
            ..a
        }) ==> fsm.next(a) == fsm.next(b) && fsm.action(a) == fsm.action(b),
        b == (DecideContext { cd_heal: b.cd_heal, cd_attack: b.cd_attack, ..a }) ==> fsm.raw_action(
            a,
        ) == fsm.raw_action(b),
{
}

} // verus!
