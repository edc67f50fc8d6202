//! High-level operator commands consumed by the robot brain.

use vstd::prelude::*;

use crate::host::autonomy::{AutonomousTarget, AutonomyRunner};
use crate::host::config::SessionConfig;
use crate::host::input::{
    ControlState, ControllerInfo, ControllerInfoView, InputEvent, InputEventView, InputWarning, InputWarningView,
    spec_controller_kind_label, spec_event_views,
};
use crate::host::logging::LogLevel;
use crate::host::registry::{ControllerKey, spec_info_key, spec_info_views, spec_known_map, spec_unique_keys};
use crate::host::routing::RouterPolicy;
use crate::protocol::{Command, ServoCommand};
use crate::text::{push_str, string_push};
use crate::units::{Mode, ServoTicks};

verus! {

/// High-level operator intent produced by local or remote input devices.
#[derive(Clone, Debug, PartialEq, Eq)]
pub enum BrainCommand {
    Quit,
    Stop,
    Ping,
    SetMode(Mode),
    Chat(String),
    Servo { pan: u16, tilt: u16 },
}

/// A brain command with its text taken as characters.
pub enum BrainCommandView {
    Quit,
    Stop,
    Ping,
    SetMode(Mode),
    Chat(Seq<char>),
    Servo { pan: u16, tilt: u16 },
}

impl View for BrainCommand {
    type V = BrainCommandView;

    open spec fn view(&self) -> BrainCommandView {
        match self {
            BrainCommand::Quit => BrainCommandView::Quit,
            BrainCommand::Stop => BrainCommandView::Stop,
            BrainCommand::Ping => BrainCommandView::Ping,
            BrainCommand::SetMode(mode) => BrainCommandView::SetMode(*mode),
            BrainCommand::Chat(text) => BrainCommandView::Chat(text@),
            BrainCommand::Servo { pan, tilt } => BrainCommandView::Servo { pan: *pan, tilt: *tilt },
        }
    }
}


/// Interval between desired-state refreshes while the robot is asked to do something, in milliseconds.
pub const ACTIVE_DESIRED_STATE_INTERVAL_MS: u64 = 75;

/// How long the brain waits for input in one poll, in milliseconds.
pub const INPUT_POLL_INTERVAL_MS: u64 = 10;

/// How long a drive hold is extended after a blocking command roundtrip, in milliseconds.
pub const COMMAND_COMPLETION_HOLD_GRACE_MS: u64 = 750;

/// The smallest link timeout the brain configures, in milliseconds.
pub const MIN_LINK_TIMEOUT_MS: u64 = 250;

/// What the brain loop should do for a batch of input events, in order.
#[derive(Clone, Debug, PartialEq, Eq)]
pub enum BrainAction {
    /// Log a message.
    Log(LogLevel, String),
    /// Make this the current drive request.
    ApplyControl(ControlState),
    /// Stop all motion and return to the default mode.
    Stop,
    /// Switch the desired mode.
    SetMode(Mode),
    /// Move the servos.
    Servo { pan: u16, tilt: u16 },
    /// Send a chat prompt.
    Chat(String),
    /// Send a ping.
    Ping,
    /// Extend the operator's drive hold when a drive request is current.
    RefreshHold,
    /// Leave the loop.
    Quit,
}

/// A brain action as values.
pub enum ActionView {
    Log(LogLevel, Seq<char>),
    ApplyControl(ControlState),
    Stop,
    SetMode(Mode),
    Servo { pan: u16, tilt: u16 },
    Chat(Seq<char>),
    Ping,
    RefreshHold,
    Quit,
}

impl View for BrainAction {
    type V = ActionView;

    open spec fn view(&self) -> ActionView {
        match self {
            BrainAction::Log(level, m) => ActionView::Log(*level, m@),
            BrainAction::ApplyControl(c) => ActionView::ApplyControl(*c),
            BrainAction::Stop => ActionView::Stop,
            BrainAction::SetMode(m) => ActionView::SetMode(*m),
            BrainAction::Servo { pan, tilt } => ActionView::Servo { pan: *pan, tilt: *tilt },
            BrainAction::Chat(p) => ActionView::Chat(p@),
            BrainAction::Ping => ActionView::Ping,
            BrainAction::RefreshHold => ActionView::RefreshHold,
            BrainAction::Quit => ActionView::Quit,
        }
    }
}

/// The views of actions.
pub open spec fn spec_action_views(s: Seq<BrainAction>) -> Seq<ActionView> {
    s.map_values(|a: BrainAction| a@)
}

/// The text of a controller as the log names it: `kind:instance (name)`.
pub open spec fn spec_controller_text(info: ControllerInfoView) -> Seq<char> {
    spec_controller_kind_label(info.kind)@ + ":"@ + info.instance + " ("@ + info.display_name + ")"@
}

/// The text of an input warning.
pub open spec fn spec_warning_text(w: InputWarningView) -> Seq<char> {
    match w {
        InputWarningView::UnknownKeyboardCommand(c) => "unknown keyboard command: "@ + seq![c],
        InputWarningView::Status(text) => text,
    }
}

/// Progress through a batch of input events: the mode the batch has
/// switched to so far, the control waiting to be applied, the actions
/// planned, and whether the batch asked to quit.
pub struct BatchState {
    pub known: Map<ControllerKey, ControllerInfoView>,
    pub mode: Mode,
    pub pending: Option<ControlState>,
    pub actions: Seq<ActionView>,
    pub quit: bool,
}

/// The actions of a command, after the waiting control has been applied.
pub open spec fn spec_command_actions(command: BrainCommandView) -> Seq<ActionView> {
    match command {
        BrainCommandView::Quit => seq![ActionView::Quit],
        BrainCommandView::Stop => seq![ActionView::Stop, ActionView::RefreshHold],
        BrainCommandView::SetMode(m) => seq![ActionView::SetMode(m), ActionView::RefreshHold],
        BrainCommandView::Chat(p) => seq![ActionView::Chat(p)],
        BrainCommandView::Servo { pan, tilt } => seq![ActionView::Servo { pan, tilt }, ActionView::RefreshHold],
        BrainCommandView::Ping => seq![ActionView::Ping],
    }
}

/// A batch after one more event. Controls are only taken in teleop, and
/// only the latest before a command counts; a command first applies the
/// waiting control; quitting ends the batch.
pub open spec fn spec_batch_step(st: BatchState, e: InputEventView, default_mode: Mode) -> BatchState {
    if st.quit {
        st
    } else {
        match e {
            InputEventView::ControllerConnected(c) => BatchState {
                known: st.known.insert(spec_info_key(c), c),
                actions: st.actions.push(ActionView::Log(LogLevel::Info, "controller connected: "@ + spec_controller_text(c))),
                ..st
            },
            InputEventView::ControllerDisconnected(c) => BatchState {
                known: st.known.remove(spec_info_key(c)),
                actions: st.actions.push(ActionView::Log(LogLevel::Info, "controller disconnected: "@ + spec_controller_text(c))),
                ..st
            },
            InputEventView::Control(c) => if st.mode == Mode::Teleop {
                BatchState { pending: Some(c), ..st }
            } else {
                st
            },
            InputEventView::Warning(w) => BatchState {
                actions: st.actions.push(ActionView::Log(LogLevel::Info, spec_warning_text(w))),
                ..st
            },
            InputEventView::Prompt(_) => st,
            InputEventView::Command(command) => {
                let applied = match st.pending {
                    Some(c) => st.actions.push(ActionView::ApplyControl(c)),
                    None => st.actions,
                };
                BatchState {
                    known: st.known,
                    mode: match command {
                        BrainCommandView::Stop => default_mode,
                        BrainCommandView::SetMode(m) => m,
                        _ => st.mode,
                    },
                    pending: None,
                    actions: applied + spec_command_actions(command),
                    quit: command is Quit,
                }
            },
        }
    }
}

/// A batch after a sequence of events.
pub open spec fn spec_batch(st: BatchState, events: Seq<InputEventView>, default_mode: Mode) -> BatchState
    decreases events.len(),
{
    if events.len() == 0 {
        st
    } else {
        spec_batch_step(spec_batch(st, events.drop_last(), default_mode), events.last(), default_mode)
    }
}

/// The actions of a batch of events, starting in `mode`: those of every
/// event, then the waiting control unless the batch quit.
pub open spec fn spec_plan_batch(known: Map<ControllerKey, ControllerInfoView>, mode: Mode, events: Seq<InputEventView>, default_mode: Mode) -> Seq<ActionView> {
    let end = spec_batch(BatchState { known, mode, pending: None, actions: Seq::empty(), quit: false }, events, default_mode);
    match end.pending {
        Some(c) => if end.quit { end.actions } else { end.actions.push(ActionView::ApplyControl(c)) },
        None => end.actions,
    }
}

/// What a change of mode asks of the session output.
#[derive(Clone, Debug)]
pub struct ModeChange {
    /// A message to log, if any.
    pub log: Option<String>,
    /// Whether the current control changed and should be shown.
    pub control_changed: bool,
}

/// The host-side robot brain: what it wants the robot to do, and when it
/// last told it.
#[derive(Debug)]
pub struct RobotBrain {
    router: RouterPolicy,
    active_controllers: Vec<ControllerInfo>,
    autonomy: AutonomyRunner,
    desired_mode: Mode,
    desired_servo: ServoCommand,
    active_control_state: ControlState,
    health_check_interval_ms: u64,
    reconnect_interval_ms: u64,
    active_desired_state_interval_ms: u64,
    last_contact_at: u64,
    last_desired_state_at: Option<u64>,
    applied_link_timeout_ms: Option<u32>,
}

/// The centered servo target.
pub open spec fn spec_centered() -> ServoCommand {
    ServoCommand { pan: ServoTicks(0), tilt: ServoTicks(0) }
}

impl RobotBrain {
    /// The router policy.
    pub closed spec fn router(&self) -> RouterPolicy {
        self.router
    }

    /// The connected controllers by key.
    pub closed spec fn controllers(&self) -> Map<ControllerKey, ControllerInfoView> {
        spec_known_map(spec_info_views(self.active_controllers@))
    }

    /// No two connected controllers share a key.
    pub closed spec fn wf(&self) -> bool {
        spec_unique_keys(spec_info_views(self.active_controllers@))
    }

    /// The autonomy runner.
    pub closed spec fn runner(&self) -> AutonomyRunner {
        self.autonomy
    }

    /// The desired mode.
    pub closed spec fn mode(&self) -> Mode {
        self.desired_mode
    }

    /// The desired servo target.
    pub closed spec fn servo(&self) -> ServoCommand {
        self.desired_servo
    }

    /// The current drive request.
    pub closed spec fn control(&self) -> ControlState {
        self.active_control_state
    }

    /// Interval between refreshes of a default desired state.
    pub closed spec fn health_ms(&self) -> u64 {
        self.health_check_interval_ms
    }

    /// Interval between reconnection attempts.
    pub closed spec fn reconnect_ms(&self) -> u64 {
        self.reconnect_interval_ms
    }

    /// Interval between refreshes of any other desired state.
    pub closed spec fn active_ms(&self) -> u64 {
        self.active_desired_state_interval_ms
    }

    /// When the robot was last heard from.
    pub closed spec fn last_contact(&self) -> u64 {
        self.last_contact_at
    }

    /// When the desired state was last sent, if since the last change.
    pub closed spec fn last_sync(&self) -> Option<u64> {
        self.last_desired_state_at
    }

    /// The link timeout last configured on the controllers, if any.
    pub closed spec fn applied_timeout(&self) -> Option<u32> {
        self.applied_link_timeout_ms
    }

    /// Whether the robot is asked for nothing: default mode, no drive,
    /// servos centered.
    pub open spec fn spec_is_default(&self) -> bool {
        self.mode() == self.router().default_mode && self.control().drive is None && self.servo() == spec_centered()
    }

    /// The refresh interval of the desired state.
    pub open spec fn spec_sync_interval(&self) -> u64 {
        if self.spec_is_default() { self.health_ms() } else { self.active_ms() }
    }

    /// The link timeout to configure: twice the refresh interval, at least
    /// the minimum, at most what fits 32 bits.
    pub open spec fn spec_link_timeout(&self) -> u32 {
        let t = if self.spec_sync_interval() as int * 2 > MIN_LINK_TIMEOUT_MS {
            self.spec_sync_interval() as int * 2
        } else {
            MIN_LINK_TIMEOUT_MS as int
        };
        if t > u32::MAX { u32::MAX } else { t as u32 }
    }

    /// A brain for a router and session settings, at time `now`: default
    /// mode, centered servos, no drive, nothing sent yet.
    pub fn new(router: RouterPolicy, session: SessionConfig, now: u64) -> (brain: Self)
        ensures
            brain.router() == router,
            brain.mode() == router.default_mode,
            brain.servo() == spec_centered(),
            brain.control().drive is None,
            brain.health_ms() == (if session.health_check_interval_ms == 0 { 1 } else { session.health_check_interval_ms }),
            brain.reconnect_ms() == (if session.reconnect_interval_ms == 0 { 1 } else { session.reconnect_interval_ms }),
            brain.active_ms() == ACTIVE_DESIRED_STATE_INTERVAL_MS,
            brain.last_contact() == now,
            brain.last_sync() is None,
            brain.applied_timeout() is None,
            brain.runner().name() == "servo-scan",
            brain.runner().steps() == crate::host::autonomy::spec_servo_scan_steps(),
            brain.runner().index() == 0,
            brain.runner().started_at() is None,
            brain.wf(),
            brain.controllers() == Map::<ControllerKey, ControllerInfoView>::empty(),
    {
        assert(spec_known_map(spec_info_views(Seq::<ControllerInfo>::empty())) =~= Map::<ControllerKey, ControllerInfoView>::empty());
        assert(spec_info_views(Seq::<ControllerInfo>::empty()) =~= Seq::<ControllerInfoView>::empty());
        RobotBrain {
            router,
            active_controllers: Vec::new(),
            autonomy: AutonomyRunner::servo_scan(),
            desired_mode: router.default_mode,
            desired_servo: RouterPolicy::centered_servo(),
            active_control_state: ControlState { drive: None },
            health_check_interval_ms: if session.health_check_interval_ms == 0 { 1 } else { session.health_check_interval_ms },
            reconnect_interval_ms: if session.reconnect_interval_ms == 0 { 1 } else { session.reconnect_interval_ms },
            active_desired_state_interval_ms: ACTIVE_DESIRED_STATE_INTERVAL_MS,
            last_contact_at: now,
            last_desired_state_at: None,
            applied_link_timeout_ms: None,
        }
    }

    /// The desired mode.
    pub fn desired_mode(&self) -> (mode: Mode)
        ensures
            mode == self.mode(),
    {
        self.desired_mode
    }

    /// The current drive request.
    pub fn active_control_state(&self) -> (control: ControlState)
        ensures
            control == self.control(),
    {
        self.active_control_state
    }

    /// The desired servo target.
    pub fn desired_servo(&self) -> (servo: ServoCommand)
        ensures
            servo == self.servo(),
    {
        self.desired_servo
    }

    /// Interval between reconnection attempts, in milliseconds.
    pub fn reconnect_interval_ms(&self) -> (ms: u64)
        ensures
            ms == self.reconnect_ms(),
    {
        self.reconnect_interval_ms
    }

    /// How long one input poll waits, in milliseconds.
    pub fn input_poll_interval_ms(&self) -> (ms: u64)
        ensures
            ms == INPUT_POLL_INTERVAL_MS,
    {
        INPUT_POLL_INTERVAL_MS
    }

    /// Whether the robot is asked for nothing.
    pub fn is_default_desired_state(&self) -> (default: bool)
        ensures
            default == self.spec_is_default(),
    {
        self.desired_mode == self.router.default_mode && self.active_control_state.drive.is_none()
            && self.desired_servo == RouterPolicy::centered_servo()
    }

    /// The refresh interval of the desired state, in milliseconds.
    pub fn desired_state_sync_interval_ms(&self) -> (ms: u64)
        ensures
            ms == self.spec_sync_interval(),
    {
        if self.is_default_desired_state() {
            self.health_check_interval_ms
        } else {
            self.active_desired_state_interval_ms
        }
    }

    /// The link timeout to configure, in milliseconds.
    pub fn desired_state_link_timeout_ms(&self) -> (ms: u32)
        ensures
            ms == self.spec_link_timeout(),
    {
        let interval = self.desired_state_sync_interval_ms();
        let doubled: u64 = if interval > u64::MAX / 2 { u64::MAX } else { interval * 2 };
        let timeout = if doubled > MIN_LINK_TIMEOUT_MS { doubled } else { MIN_LINK_TIMEOUT_MS };
        if timeout > u32::MAX as u64 { u32::MAX } else { timeout as u32 }
    }

    /// The link timeout still to configure: none when it is already in place.
    pub fn link_timeout_to_apply(&self) -> (ms: Option<u32>)
        ensures
            ms == (if self.applied_timeout() == Some(self.spec_link_timeout()) { None } else { Some(self.spec_link_timeout()) }),
    {
        let ms = self.desired_state_link_timeout_ms();
        match self.applied_link_timeout_ms {
            Some(applied) => if applied == ms {
                None
            } else {
                Some(ms)
            },
            None => Some(ms),
        }
    }

    /// Record that the controllers took a link timeout at `now`.
    pub fn record_link_timeout(&mut self, milliseconds: u32, now: u64)
        ensures
            final(self).applied_timeout() == Some(milliseconds),
            final(self).last_contact() == now,
            final(self).mode() == old(self).mode(),
            final(self).servo() == old(self).servo(),
            final(self).control() == old(self).control(),
            final(self).last_sync() == old(self).last_sync(),
            final(self).router() == old(self).router(),
            final(self).runner() == old(self).runner(),
            final(self).health_ms() == old(self).health_ms(),
            final(self).active_ms() == old(self).active_ms(),
    {
        self.applied_link_timeout_ms = Some(milliseconds);
        self.last_contact_at = now;
    }

    /// Record that the desired state went out at `now`.
    pub fn record_desired_state_exchange(&mut self, now: u64)
        ensures
            final(self).last_sync() == Some(now),
            final(self).last_contact() == now,
            final(self).mode() == old(self).mode(),
            final(self).servo() == old(self).servo(),
            final(self).control() == old(self).control(),
            final(self).applied_timeout() == old(self).applied_timeout(),
            final(self).router() == old(self).router(),
            final(self).runner() == old(self).runner(),
            final(self).health_ms() == old(self).health_ms(),
            final(self).active_ms() == old(self).active_ms(),
    {
        self.last_contact_at = now;
        self.last_desired_state_at = Some(now);
    }

    /// Record that the robot answered at `now`.
    pub fn record_contact(&mut self, now: u64)
        ensures
            final(self).last_contact() == now,
            final(self).last_sync() == old(self).last_sync(),
            final(self).mode() == old(self).mode(),
            final(self).servo() == old(self).servo(),
            final(self).control() == old(self).control(),
            final(self).applied_timeout() == old(self).applied_timeout(),
            final(self).router() == old(self).router(),
            final(self).runner() == old(self).runner(),
    {
        self.last_contact_at = now;
    }

    /// Whether the desired state is due again at `now`: never sent since the
    /// last change, or its refresh interval has passed.
    pub fn should_refresh(&self, now: u64) -> (due: bool)
        ensures
            due == match self.last_sync() {
                None => true,
                Some(t) => (if now >= t { now - t } else { 0 }) >= self.spec_sync_interval(),
            },
    {
        match self.last_desired_state_at {
            None => true,
            Some(t) => now.saturating_sub(t) >= self.desired_state_sync_interval_ms(),
        }
    }

    /// The protocol command carrying the desired state.
    pub fn desired_state_command(&self) -> (command: Command)
        requires
            self.router().limits.max_drive_pwm.0 >= 0,
        ensures
            command == crate::host::routing::spec_desired_state(self.router(), self.mode(), self.control().drive, self.servo()),
    {
        self.router.desired_state_command(self.desired_mode, self.active_control_state.drive, self.desired_servo)
    }

    /// How long to extend the operator's hold after a blocking roundtrip:
    /// the grace period while a drive request is current, else nothing.
    pub fn hold_extension_ms(&self) -> (ms: Option<u64>)
        ensures
            ms == (if self.control().drive is Some { Some(COMMAND_COMPLETION_HOLD_GRACE_MS) } else { None }),
    {
        if self.active_control_state.drive.is_some() {
            Some(COMMAND_COMPLETION_HOLD_GRACE_MS)
        } else {
            None
        }
    }
}



/// The fields of a brain that a decision leaves alone unless it says otherwise.
pub open spec fn spec_same_settings(a: RobotBrain, b: RobotBrain) -> bool {
    &&& a.controllers() == b.controllers()
    &&& a.wf() == b.wf()
    &&& a.router() == b.router()
    &&& a.health_ms() == b.health_ms()
    &&& a.reconnect_ms() == b.reconnect_ms()
    &&& a.active_ms() == b.active_ms()
}

impl RobotBrain {
    /// After a (re)connection at `now`: the autonomy plan restarts, the
    /// drive request is dropped, nothing counts as sent; in autonomous mode
    /// the plan's first target becomes the request, in fault mode the servos
    /// center.
    pub fn restore_desired_state_after_connect(&mut self, now: u64)
        ensures
            spec_same_settings(*final(self), *old(self)),
            final(self).mode() == old(self).mode(),
            final(self).last_sync() is None,
            final(self).applied_timeout() is None,
            final(self).last_contact() == now,
            final(self).runner().steps() == old(self).runner().steps(),
            old(self).mode() == Mode::Autonomous ==> {
                &&& final(self).runner().index() == 0
                &&& final(self).runner().started_at() == Some(now)
                &&& final(self).control() == (ControlState { drive: old(self).runner().steps()[0].target.drive })
                &&& final(self).servo() == old(self).runner().steps()[0].target.servo
            },
            old(self).mode() == Mode::Teleop ==> final(self).control().drive is None && final(self).servo() == old(self).servo()
                && final(self).runner().index() == 0 && final(self).runner().started_at() is None,
            old(self).mode() == Mode::Fault ==> final(self).control().drive is None && final(self).servo() == spec_centered()
                && final(self).runner().index() == 0 && final(self).runner().started_at() is None,
    {
        self.autonomy.reset();
        self.active_control_state = ControlState { drive: None };
        self.last_desired_state_at = None;
        self.applied_link_timeout_ms = None;
        self.last_contact_at = now;
        match self.desired_mode {
            Mode::Autonomous => {
                let target = self.autonomy.target_at(now);
                self.active_control_state = ControlState { drive: target.drive };
                self.desired_servo = target.servo;
            },
            Mode::Teleop => {},
            Mode::Fault => {
                self.desired_servo = RouterPolicy::centered_servo();
            },
        }
    }

    /// Switch the desired mode at `now`. Autonomous restarts the plan and
    /// takes its first target; fault drops the drive and centers the servos;
    /// leaving autonomous drops the plan's drive. The state counts as unsent.
    pub fn apply_desired_mode(&mut self, mode: Mode, now: u64) -> (change: ModeChange)
        ensures
            spec_same_settings(*final(self), *old(self)),
            final(self).mode() == mode,
            final(self).last_sync() is None,
            final(self).applied_timeout() == old(self).applied_timeout(),
            final(self).last_contact() == old(self).last_contact(),
            final(self).runner().steps() == old(self).runner().steps(),
            mode == Mode::Autonomous ==> {
                &&& final(self).runner().index() == 0
                &&& final(self).runner().started_at() == Some(now)
                &&& final(self).control() == (ControlState { drive: old(self).runner().steps()[0].target.drive })
                &&& final(self).servo() == old(self).runner().steps()[0].target.servo
                &&& change.control_changed
                &&& change.log matches Some(m) && m@ == "autonomy plan active: "@ + old(self).runner().name()@
            },
            mode == Mode::Fault ==> {
                &&& final(self).control().drive is None
                &&& final(self).servo() == spec_centered()
                &&& change.control_changed
                &&& change.log is None
                &&& final(self).runner() == old(self).runner()
            },
            mode == Mode::Teleop ==> {
                &&& final(self).servo() == old(self).servo()
                &&& final(self).runner() == old(self).runner()
                &&& change.log is None
                &&& if old(self).mode() == Mode::Autonomous && old(self).control().drive is Some {
                    final(self).control().drive is None && change.control_changed
                } else {
                    final(self).control() == old(self).control() && !change.control_changed
                }
            },
    {
        let previous = self.desired_mode;
        self.desired_mode = mode;
        self.last_desired_state_at = None;
        match mode {
            Mode::Autonomous => {
                self.autonomy.reset();
                let mut message = String::new();
                push_str(&mut message, "autonomy plan active: ");
                push_str(&mut message, self.autonomy.plan_name());
                let target = self.autonomy.target_at(now);
                self.active_control_state = ControlState { drive: target.drive };
                self.desired_servo = target.servo;
                ModeChange { log: Some(message), control_changed: true }
            },
            Mode::Fault => {
                self.active_control_state = ControlState { drive: None };
                self.desired_servo = RouterPolicy::centered_servo();
                ModeChange { log: None, control_changed: true }
            },
            Mode::Teleop => {
                if previous == Mode::Autonomous && self.active_control_state.drive.is_some() {
                    self.active_control_state = ControlState { drive: None };
                    ModeChange { log: None, control_changed: true }
                } else {
                    ModeChange { log: None, control_changed: false }
                }
            },
        }
    }

    /// Point the servos at raw tick values; the state counts as unsent.
    pub fn apply_desired_servo(&mut self, pan: u16, tilt: u16)
        ensures
            spec_same_settings(*final(self), *old(self)),
            final(self).servo() == (ServoCommand { pan: ServoTicks(pan), tilt: ServoTicks(tilt) }),
            final(self).last_sync() is None,
            final(self).mode() == old(self).mode(),
            final(self).control() == old(self).control(),
            final(self).applied_timeout() == old(self).applied_timeout(),
            final(self).last_contact() == old(self).last_contact(),
            final(self).runner() == old(self).runner(),
    {
        self.desired_servo = ServoCommand { pan: ServoTicks(pan), tilt: ServoTicks(tilt) };
        self.last_desired_state_at = None;
    }

    /// Stop: default mode, no drive, centered servos; the state counts as unsent.
    pub fn stop_desired_motion(&mut self)
        ensures
            spec_same_settings(*final(self), *old(self)),
            final(self).mode() == old(self).router().default_mode,
            final(self).control().drive is None,
            final(self).servo() == spec_centered(),
            final(self).last_sync() is None,
            final(self).applied_timeout() == old(self).applied_timeout(),
            final(self).last_contact() == old(self).last_contact(),
            final(self).runner() == old(self).runner(),
    {
        self.desired_mode = self.router.default_mode;
        self.active_control_state = ControlState { drive: None };
        self.desired_servo = RouterPolicy::centered_servo();
        self.last_desired_state_at = None;
    }

    /// The autonomy plan's target at `now`.
    pub fn autonomous_target(&mut self, now: u64) -> (target: AutonomousTarget)
        ensures
            spec_same_settings(*final(self), *old(self)),
            final(self).mode() == old(self).mode(),
            final(self).servo() == old(self).servo(),
            final(self).control() == old(self).control(),
            final(self).last_sync() == old(self).last_sync(),
            final(self).applied_timeout() == old(self).applied_timeout(),
            final(self).last_contact() == old(self).last_contact(),
            final(self).runner().steps() == old(self).runner().steps(),
            final(self).runner().name() == old(self).runner().name(),
            0 <= final(self).runner().index() < final(self).runner().steps().len(),
            target == final(self).runner().steps()[final(self).runner().index()].target,
            old(self).runner().started_at() is None ==> final(self).runner().index() == old(self).runner().index()
                && final(self).runner().started_at() == Some(now),
            old(self).runner().started_at() matches Some(started) ==> final(self).runner().started_at() matches Some(s)
                && (final(self).runner().index(), s) == crate::host::autonomy::spec_advance(
                old(self).runner().steps(),
                old(self).runner().index(),
                started,
                now,
            ),
    {
        self.autonomy.target_at(now)
    }

    /// Follow an autonomy target; returns whether it changed the request
    /// (the state then counts as unsent).
    pub fn apply_autonomous_target(&mut self, target: AutonomousTarget) -> (changed: bool)
        ensures
            spec_same_settings(*final(self), *old(self)),
            changed == !(old(self).control() == (ControlState { drive: target.drive }) && old(self).servo() == target.servo),
            changed ==> final(self).control() == (ControlState { drive: target.drive }) && final(self).servo() == target.servo
                && final(self).last_sync() is None,
            !changed ==> final(self).control() == old(self).control() && final(self).servo() == old(self).servo()
                && final(self).last_sync() == old(self).last_sync(),
            final(self).mode() == old(self).mode(),
            final(self).applied_timeout() == old(self).applied_timeout(),
            final(self).last_contact() == old(self).last_contact(),
            final(self).runner() == old(self).runner(),
    {
        let control = ControlState { drive: target.drive };
        if self.active_control_state == control && self.desired_servo == target.servo {
            return false;
        }
        self.active_control_state = control;
        self.desired_servo = target.servo;
        self.last_desired_state_at = None;
        true
    }

    /// Make `control` the drive request; returns whether it changed (the
    /// state then counts as unsent).
    pub fn apply_control_state(&mut self, control: ControlState) -> (changed: bool)
        ensures
            spec_same_settings(*final(self), *old(self)),
            changed == (old(self).control() != control),
            final(self).control() == control,
            changed ==> final(self).last_sync() is None,
            !changed ==> final(self).last_sync() == old(self).last_sync(),
            final(self).mode() == old(self).mode(),
            final(self).servo() == old(self).servo(),
            final(self).applied_timeout() == old(self).applied_timeout(),
            final(self).last_contact() == old(self).last_contact(),
            final(self).runner() == old(self).runner(),
    {
        if self.active_control_state == control {
            return false;
        }
        self.active_control_state = control;
        self.last_desired_state_at = None;
        true
    }

    /// The link failed: the plan restarts later, the drive request is
    /// dropped, nothing counts as sent or configured.
    pub fn transport_failed(&mut self)
        ensures
            final(self).router() == old(self).router(),
            final(self).health_ms() == old(self).health_ms(),
            final(self).reconnect_ms() == old(self).reconnect_ms(),
            final(self).active_ms() == old(self).active_ms(),
            final(self).wf(),
            final(self).controllers() == Map::<ControllerKey, ControllerInfoView>::empty(),
            final(self).control().drive is None,
            final(self).last_sync() is None,
            final(self).applied_timeout() is None,
            final(self).mode() == old(self).mode(),
            final(self).servo() == old(self).servo(),
            final(self).runner().steps() == old(self).runner().steps(),
            final(self).runner().index() == 0,
            final(self).runner().started_at() is None,
    {
        self.autonomy.reset();
        self.active_controllers = Vec::new();
        self.active_control_state = ControlState { drive: None };
        self.last_desired_state_at = None;
        self.applied_link_timeout_ms = None;
        assert(spec_info_views(self.active_controllers@) =~= Seq::<ControllerInfoView>::empty());
        assert(self.controllers() =~= Map::<ControllerKey, ControllerInfoView>::empty());
    }

    /// A connection attempt failed: the drive request is dropped, nothing
    /// counts as sent or configured.
    pub fn connect_failed(&mut self)
        ensures
            spec_same_settings(*final(self), *old(self)),
            final(self).control().drive is None,
            final(self).last_sync() is None,
            final(self).applied_timeout() is None,
            final(self).mode() == old(self).mode(),
            final(self).servo() == old(self).servo(),
            final(self).runner() == old(self).runner(),
    {
        self.active_control_state = ControlState { drive: None };
        self.last_desired_state_at = None;
        self.applied_link_timeout_ms = None;
    }
}


/// What the session, the input and the transport are told after the link
/// failed, in order.
#[derive(Clone, Debug, PartialEq, Eq)]
pub enum FailureAction {
    /// Pause operator input until the link is back.
    SuspendInput,
    /// Show this connection status.
    ConnectionStatus(String),
    /// Show this desired mode.
    DesiredMode(Mode),
    /// Show this drive request.
    ControlState(ControlState),
    /// Forget the last distance shown.
    ClearDistance,
    /// Log a message.
    Log(LogLevel, String),
    /// Drop the link.
    DisconnectTransport,
}

/// The connection status shown while waiting `ms` milliseconds to reconnect.
pub open spec fn spec_retry_status(ms: u64) -> Seq<char> {
    "disconnected; retrying in "@ + crate::text::spec_decimal(ms as nat) + " ms"@
}

impl RobotBrain {
    /// The link failed with `message`: the brain forgets the link (as
    /// `transport_failed` says) and returns what to tell the input, the
    /// session and the transport: suspend input, show the retry status,
    /// the kept mode and an idle drive, clear the distance, log the message
    /// as a warning, and disconnect.
    pub fn handle_transport_failure(&mut self, message: String) -> (actions: Vec<FailureAction>)
        ensures
            final(self).router() == old(self).router(),
            final(self).health_ms() == old(self).health_ms(),
            final(self).reconnect_ms() == old(self).reconnect_ms(),
            final(self).active_ms() == old(self).active_ms(),
            final(self).wf(),
            final(self).controllers() == Map::<ControllerKey, ControllerInfoView>::empty(),
            final(self).control().drive is None,
            final(self).last_sync() is None,
            final(self).applied_timeout() is None,
            final(self).mode() == old(self).mode(),
            final(self).servo() == old(self).servo(),
            final(self).runner().steps() == old(self).runner().steps(),
            final(self).runner().index() == 0,
            final(self).runner().started_at() is None,
            actions@.len() == 7,
            actions@[0] == FailureAction::SuspendInput,
            actions@[1] matches FailureAction::ConnectionStatus(t) && t@ == spec_retry_status(old(self).reconnect_ms()),
            actions@[2] == FailureAction::DesiredMode(old(self).mode()),
            actions@[3] == FailureAction::ControlState(ControlState { drive: None }),
            actions@[4] == FailureAction::ClearDistance,
            actions@[5] matches FailureAction::Log(level, m) && level == LogLevel::Warn && m@ == message@,
            actions@[6] == FailureAction::DisconnectTransport,
    {
        let mut actions: Vec<FailureAction> = Vec::new();
        actions.push(FailureAction::SuspendInput);
        self.transport_failed();
        let mut status = String::new();
        push_str(&mut status, "disconnected; retrying in ");
        crate::text::push_chars(&mut status, crate::text::decimal_digits(self.reconnect_interval_ms).as_slice());
        push_str(&mut status, " ms");
        actions.push(FailureAction::ConnectionStatus(status));
        actions.push(FailureAction::DesiredMode(self.desired_mode));
        actions.push(FailureAction::ControlState(self.active_control_state));
        actions.push(FailureAction::ClearDistance);
        actions.push(FailureAction::Log(LogLevel::Warn, message));
        actions.push(FailureAction::DisconnectTransport);
        actions
    }
}

/// What the loop does after one operator command handled on its own.
#[derive(Clone, Copy, Debug, PartialEq, Eq)]
pub enum BrainStep {
    /// Configure this link timeout first when one is given, then exchange
    /// the desired state and go on.
    Continue { link_timeout_ms: Option<u32> },
    /// Leave the loop.
    Exit,
}

/// The error of a command that needs the session output.
pub open spec fn spec_needs_output_message(command: BrainCommandView) -> Seq<char> {
    match command {
        BrainCommandView::Chat(_) => "chat commands require session output"@,
        _ => "ping commands require session output"@,
    }
}

impl RobotBrain {
    /// Handle one operator command at `now` without a session output: the
    /// desired state changes as the command says and the returned step tells
    /// the loop what to send. Chat and ping need the session output and are
    /// refused.
    pub fn step(&mut self, command: BrainCommand, now: u64) -> (result: Result<BrainStep, String>)
        ensures
            spec_same_settings(*final(self), *old(self)),
            final(self).last_sync() == old(self).last_sync(),
            final(self).applied_timeout() == old(self).applied_timeout(),
            final(self).last_contact() == old(self).last_contact(),
            final(self).runner().steps() == old(self).runner().steps(),
            final(self).runner().name() == old(self).runner().name(),
            match command@ {
                BrainCommandView::Quit => result == Ok::<BrainStep, String>(BrainStep::Exit) && *final(self) == *old(self),
                BrainCommandView::Chat(_) | BrainCommandView::Ping => (result matches Err(m)
                    && m@ == spec_needs_output_message(command@)) && *final(self) == *old(self),
                BrainCommandView::Stop => {
                    &&& final(self).mode() == old(self).router().default_mode
                    &&& final(self).control().drive is None
                    &&& final(self).servo() == spec_centered()
                    &&& final(self).runner() == old(self).runner()
                },
                BrainCommandView::Servo { pan, tilt } => {
                    &&& final(self).servo() == (ServoCommand { pan: ServoTicks(pan), tilt: ServoTicks(tilt) })
                    &&& final(self).mode() == old(self).mode()
                    &&& final(self).control() == old(self).control()
                    &&& final(self).runner() == old(self).runner()
                },
                BrainCommandView::SetMode(mode) => {
                    &&& final(self).mode() == mode
                    &&& mode == Mode::Autonomous ==> {
                        &&& final(self).runner().index() == 0
                        &&& final(self).runner().started_at() == Some(now)
                        &&& final(self).control() == (ControlState { drive: old(self).runner().steps()[0].target.drive })
                        &&& final(self).servo() == old(self).runner().steps()[0].target.servo
                    }
                    &&& mode == Mode::Fault ==> {
                        &&& final(self).control().drive is None
                        &&& final(self).servo() == spec_centered()
                        &&& final(self).runner() == old(self).runner()
                    }
                    &&& mode == Mode::Teleop ==> {
                        &&& final(self).servo() == old(self).servo()
                        &&& final(self).runner() == old(self).runner()
                        &&& final(self).control() == (if old(self).mode() == Mode::Autonomous {
                            ControlState { drive: None }
                        } else {
                            old(self).control()
                        })
                    }
                },
            },
            match command@ {
                BrainCommandView::Stop | BrainCommandView::Servo { .. } | BrainCommandView::SetMode(_) => result
                    == Ok::<BrainStep, String>(BrainStep::Continue {
                    link_timeout_ms: if final(self).applied_timeout() == Some(final(self).spec_link_timeout()) {
                        None
                    } else {
                        Some(final(self).spec_link_timeout())
                    },
                }),
                _ => true,
            },
    {
        match command {
            BrainCommand::Quit => return Ok(BrainStep::Exit),
            BrainCommand::Chat(_) => {
                let mut message = String::new();
                push_str(&mut message, "chat commands require session output");
                return Err(message);
            },
            BrainCommand::Ping => {
                let mut message = String::new();
                push_str(&mut message, "ping commands require session output");
                return Err(message);
            },
            BrainCommand::Stop => {
                self.desired_mode = self.router.default_mode;
                self.active_control_state = ControlState { drive: None };
                self.desired_servo = RouterPolicy::centered_servo();
            },
            BrainCommand::SetMode(mode) => {
                let previous = self.desired_mode;
                self.desired_mode = mode;
                match mode {
                    Mode::Autonomous => {
                        self.autonomy.reset();
                        let target = self.autonomy.target_at(now);
                        self.active_control_state = ControlState { drive: target.drive };
                        self.desired_servo = target.servo;
                    },
                    Mode::Fault => {
                        self.active_control_state = ControlState { drive: None };
                        self.desired_servo = RouterPolicy::centered_servo();
                    },
                    Mode::Teleop => {
                        if previous == Mode::Autonomous {
                            self.active_control_state = ControlState { drive: None };
                        }
                    },
                }
            },
            BrainCommand::Servo { pan, tilt } => {
                self.desired_servo = ServoCommand { pan: ServoTicks(pan), tilt: ServoTicks(tilt) };
            },
        }
        Ok(BrainStep::Continue { link_timeout_ms: self.link_timeout_to_apply() })
    }
}

/// The log text of a warning.
fn warning_text(w: InputWarning) -> (text: String)
    ensures
        text@ == spec_warning_text(w@),
{
    match w {
        InputWarning::UnknownKeyboardCommand(c) => {
            let mut text = String::new();
            push_str(&mut text, "unknown keyboard command: ");
            string_push(&mut text, c);
            text
        },
        InputWarning::Status(text) => text,
    }
}

/// The log line of a controller event.
fn controller_line(head: &str, info: &ControllerInfo) -> (line: String)
    ensures
        line@ == head@ + spec_controller_text(info@),
{
    let mut line = String::new();
    push_str(&mut line, head);
    push_str(&mut line, info.id.kind.as_str());
    push_str(&mut line, ":");
    push_str(&mut line, info.id.instance.as_str());
    push_str(&mut line, " (");
    push_str(&mut line, info.display_name.as_str());
    push_str(&mut line, ")");
    line
}

/// The actions of a command.
fn command_actions(command: BrainCommand) -> (actions: Vec<BrainAction>)
    ensures
        spec_action_views(actions@) == spec_command_actions(command@),
{
    let mut actions: Vec<BrainAction> = Vec::new();
    match command {
        BrainCommand::Quit => actions.push(BrainAction::Quit),
        BrainCommand::Stop => {
            actions.push(BrainAction::Stop);
            actions.push(BrainAction::RefreshHold);
        },
        BrainCommand::SetMode(m) => {
            actions.push(BrainAction::SetMode(m));
            actions.push(BrainAction::RefreshHold);
        },
        BrainCommand::Chat(p) => actions.push(BrainAction::Chat(p)),
        BrainCommand::Servo { pan, tilt } => {
            actions.push(BrainAction::Servo { pan, tilt });
            actions.push(BrainAction::RefreshHold);
        },
        BrainCommand::Ping => actions.push(BrainAction::Ping),
    }
    assert(spec_action_views(actions@) =~= spec_command_actions(command@));
    actions
}

impl RobotBrain {
    fn connect_controller(&mut self, info: &ControllerInfo)
        requires
            old(self).wf(),
        ensures
            final(self).wf(),
            final(self).controllers() == old(self).controllers().insert(spec_info_key(info@), info@),
            final(self).mode() == old(self).mode(),
            final(self).servo() == old(self).servo(),
            final(self).control() == old(self).control(),
            final(self).last_sync() == old(self).last_sync(),
            final(self).applied_timeout() == old(self).applied_timeout(),
            final(self).last_contact() == old(self).last_contact(),
            final(self).router() == old(self).router(),
            final(self).runner() == old(self).runner(),
            final(self).health_ms() == old(self).health_ms(),
            final(self).reconnect_ms() == old(self).reconnect_ms(),
            final(self).active_ms() == old(self).active_ms(),
    {
        let ghost s = spec_info_views(self.active_controllers@);
        let ghost iv = info@;
        let copy = info.duplicate();
        match crate::host::registry::find_controller(&self.active_controllers, &info.id) {
            Some(i) => {
                proof {
                    crate::host::registry::lemma_known_update(s, i as int, iv);
                }
                self.active_controllers.set(i, copy);
                assert(spec_info_views(self.active_controllers@) =~= s.update(i as int, iv));
            },
            None => {
                proof {
                    assert forall|j: int| 0 <= j < s.len() implies spec_info_key(s[j]) != spec_info_key(iv) by {
                        assert(s[j] == self.active_controllers@[j]@);
                    }
                    crate::host::registry::lemma_known_push(s, iv);
                }
                self.active_controllers.push(copy);
                assert(spec_info_views(self.active_controllers@) =~= s.push(iv));
            },
        }
    }

    fn disconnect_controller(&mut self, info: &ControllerInfo)
        requires
            old(self).wf(),
        ensures
            final(self).wf(),
            final(self).controllers() == old(self).controllers().remove(spec_info_key(info@)),
            final(self).mode() == old(self).mode(),
            final(self).servo() == old(self).servo(),
            final(self).control() == old(self).control(),
            final(self).last_sync() == old(self).last_sync(),
            final(self).applied_timeout() == old(self).applied_timeout(),
            final(self).last_contact() == old(self).last_contact(),
            final(self).router() == old(self).router(),
            final(self).runner() == old(self).runner(),
            final(self).health_ms() == old(self).health_ms(),
            final(self).reconnect_ms() == old(self).reconnect_ms(),
            final(self).active_ms() == old(self).active_ms(),
    {
        let ghost s = spec_info_views(self.active_controllers@);
        match crate::host::registry::find_controller(&self.active_controllers, &info.id) {
            Some(i) => {
                proof {
                    crate::host::registry::lemma_known_remove(s, i as int);
                }
                self.active_controllers.remove(i);
                assert(spec_info_views(self.active_controllers@) =~= s.remove(i as int));
            },
            None => {
                proof {
                    assert forall|j: int| 0 <= j < s.len() implies spec_info_key(s[j]) != spec_info_key(info@) by {
                        assert(s[j] == self.active_controllers@[j]@);
                    }
                    assert(spec_known_map(s).remove(spec_info_key(info@)) =~= spec_known_map(s));
                }
            },
        }
    }

    /// Plan a batch of input events: the connected controllers are updated
    /// as the events say, and the returned actions are for the loop to
    /// carry out in order.
    pub fn plan_input_events(&mut self, events: Vec<InputEvent>) -> (actions: Vec<BrainAction>)
        requires
            old(self).wf(),
        ensures
            final(self).wf(),
            spec_action_views(actions@) == spec_plan_batch(
                old(self).controllers(),
                old(self).mode(),
                spec_event_views(events@),
                old(self).router().default_mode,
            ),
            final(self).controllers() == spec_batch(
                BatchState {
                    known: old(self).controllers(),
                    mode: old(self).mode(),
                    pending: None,
                    actions: Seq::empty(),
                    quit: false,
                },
                spec_event_views(events@),
                old(self).router().default_mode,
            ).known,
            final(self).mode() == old(self).mode(),
            final(self).servo() == old(self).servo(),
            final(self).control() == old(self).control(),
            final(self).last_sync() == old(self).last_sync(),
            final(self).applied_timeout() == old(self).applied_timeout(),
            final(self).router() == old(self).router(),
            final(self).runner() == old(self).runner(),
    {
        let ghost evs = spec_event_views(events@);
        let ghost default_mode = self.router.default_mode;
        let ghost init = BatchState {
            known: self.controllers(),
            mode: self.desired_mode,
            pending: None,
            actions: Seq::empty(),
            quit: false,
        };
        let mut remaining = events;
        let mut mode = self.desired_mode;
        let mut pending: Option<ControlState> = None;
        let mut actions: Vec<BrainAction> = Vec::new();
        let mut quit = false;
        let n = remaining.len();
        let mut i: usize = 0;
        assert(evs.take(0) =~= Seq::<InputEventView>::empty());
        assert(spec_action_views(actions@) =~= Seq::<ActionView>::empty());
        assert(spec_event_views(remaining@) =~= evs.skip(0));
        while i < n
            invariant
                i <= n,
                n == evs.len(),
                self.wf(),
                default_mode == self.router().default_mode,
                spec_event_views(remaining@) == evs.skip(i as int),
                spec_batch(init, evs.take(i as int), default_mode) == (BatchState {
                    known: self.controllers(),
                    mode,
                    pending,
                    actions: spec_action_views(actions@),
                    quit,
                }),
                self.mode() == init.mode,
                self.servo() == old(self).servo(),
                self.control() == old(self).control(),
                self.last_sync() == old(self).last_sync(),
                self.applied_timeout() == old(self).applied_timeout(),
                self.router() == old(self).router(),
                self.runner() == old(self).runner(),
            decreases n - i,
        {
            let ghost old_remaining = remaining@;
            assert(spec_event_views(old_remaining).len() == old_remaining.len());
            assert(evs.skip(i as int)[0] == evs[i as int]);
            assert(spec_event_views(old_remaining)[0] == old_remaining[0]@);
            let event = remaining.remove(0);
            let ghost e = event@;
            assert(e == evs[i as int]);
            assert(remaining@ == old_remaining.drop_first());
            assert(spec_event_views(remaining@) =~= spec_event_views(old_remaining).drop_first());
            assert(evs.skip(i + 1) =~= evs.skip(i as int).drop_first());
            assert(evs.take(i + 1).drop_last() =~= evs.take(i as int));
            assert(evs.take(i + 1).last() == e);
            assert(spec_batch(init, evs.take(i + 1), default_mode) == spec_batch_step(
                spec_batch(init, evs.take(i as int), default_mode),
                e,
                default_mode,
            ));
            let ghost before = spec_action_views(actions@);
            let ghost prev = spec_batch(init, evs.take(i as int), default_mode);
            if !quit {
                match event {
                    InputEvent::ControllerConnected(c) => {
                        self.connect_controller(&c);
                        actions.push(BrainAction::Log(LogLevel::Info, controller_line("controller connected: ", &c)));
                        assert(spec_action_views(actions@) =~= before.push(ActionView::Log(LogLevel::Info, "controller connected: "@ + spec_controller_text(c@))));
                        assert(spec_batch_step(prev, e, default_mode).known == self.controllers());
                        assert(spec_batch_step(prev, e, default_mode).actions == spec_action_views(actions@));
                    },
                    InputEvent::ControllerDisconnected(c) => {
                        self.disconnect_controller(&c);
                        actions.push(BrainAction::Log(LogLevel::Info, controller_line("controller disconnected: ", &c)));
                        assert(spec_action_views(actions@) =~= before.push(ActionView::Log(LogLevel::Info, "controller disconnected: "@ + spec_controller_text(c@))));
                    },
                    InputEvent::Control(c) => {
                        if mode == Mode::Teleop {
                            pending = Some(c);
                        }
                    },
                    InputEvent::Warning(w) => {
                        let ghost wv = w@;
                        actions.push(BrainAction::Log(LogLevel::Info, warning_text(w)));
                        assert(spec_action_views(actions@) =~= before.push(ActionView::Log(LogLevel::Info, spec_warning_text(wv))));
                    },
                    InputEvent::Prompt(_) => {},
                    InputEvent::Command(command) => {
                        let ghost cv = command@;
                        match pending {
                            Some(c) => {
                                actions.push(BrainAction::ApplyControl(c));
                            },
                            None => {},
                        }
                        let ghost applied = spec_action_views(actions@);
                        pending = None;
                        match &command {
                            BrainCommand::Stop => {
                                mode = self.router.default_mode;
                            },
                            BrainCommand::SetMode(m) => {
                                mode = *m;
                            },
                            BrainCommand::Quit => {
                                quit = true;
                            },
                            _ => {},
                        }
                        let mut more = command_actions(command);
                        let ghost more_views = spec_action_views(more@);
                        actions.append(&mut more);
                        assert(spec_action_views(actions@) =~= applied + more_views);
                        assert(applied == match prev.pending {
                            Some(c) => prev.actions.push(ActionView::ApplyControl(c)),
                            None => prev.actions,
                        });
                        assert(spec_batch_step(prev, e, default_mode).actions == spec_action_views(actions@));
                        assert(spec_batch_step(prev, e, default_mode).mode == mode);
                        assert(spec_batch_step(prev, e, default_mode).quit == quit);
                    },
                }
            }
            i += 1;
        }
        assert(evs.take(n as int) =~= evs);
        match pending {
            Some(c) => {
                if !quit {
                    actions.push(BrainAction::ApplyControl(c));
                }
            },
            None => {},
        }
        actions
    }
}


/// The configured link timeout is never below the minimum, and covers two
/// refresh intervals whenever that fits 32 bits.
pub proof fn lemma_link_timeout_covers_two_intervals(b: RobotBrain)
    ensures
        b.spec_link_timeout() >= MIN_LINK_TIMEOUT_MS,
        b.spec_sync_interval() as int * 2 <= u32::MAX ==> b.spec_link_timeout() >= b.spec_sync_interval() as int * 2,
{
}

/// A stopped brain asks for nothing, so it refreshes at the health-check pace.
pub proof fn lemma_stopped_state_is_default(b: RobotBrain)
    requires
        b.mode() == b.router().default_mode,
        b.control().drive is None,
        b.servo() == spec_centered(),
    ensures
        b.spec_is_default(),
        b.spec_sync_interval() == b.health_ms(),
{
}

/// Outside teleop, drive controls from operators are ignored.
pub proof fn lemma_controls_ignored_outside_teleop(st: BatchState, c: ControlState, default_mode: Mode)
    requires
        st.mode != Mode::Teleop,
    ensures
        spec_batch_step(st, InputEventView::Control(c), default_mode) == st,
{
}

/// Of several controls before a command only the latest is applied.
pub proof fn lemma_latest_control_before_command_wins(
    st: BatchState,
    first: ControlState,
    second: ControlState,
    command: BrainCommandView,
    default_mode: Mode,
)
    requires
        !st.quit,
        st.mode == Mode::Teleop,
    ensures
        ({
            let s1 = spec_batch_step(st, InputEventView::Control(first), default_mode);
            let s2 = spec_batch_step(s1, InputEventView::Control(second), default_mode);
            let s3 = spec_batch_step(s2, InputEventView::Command(command), default_mode);
            s3.actions == st.actions.push(ActionView::ApplyControl(second)) + spec_command_actions(command)
        }),
{
}

/// Once a batch asks to quit, no later event plans anything.
pub proof fn lemma_quit_ends_batch(st: BatchState, events: Seq<InputEventView>, default_mode: Mode)
    requires
        st.quit,
    ensures
        spec_batch(st, events, default_mode) == st,
    decreases events.len(),
{
    if events.len() > 0 {
        lemma_quit_ends_batch(st, events.drop_last(), default_mode);
    }
}

} // verus!
