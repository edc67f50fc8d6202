use mortimmy::host::brain::{BrainAction, BrainCommand, BrainStep, FailureAction, RobotBrain, COMMAND_COMPLETION_HOLD_GRACE_MS};
use mortimmy::host::config::SessionConfig;
use mortimmy::host::input::{ControlState, ControllerId, ControllerInfo, ControllerKind, DriveIntent, InputEvent, InputWarning};
use mortimmy::host::logging::LogLevel;
use mortimmy::host::routing::RouterPolicy;
use mortimmy::host::scripted::{CommandInputSource, ScriptedInput};
use mortimmy::protocol::ServoCommand;
use mortimmy::units::{Mode, ServoTicks};

fn brain() -> RobotBrain {
    RobotBrain::new(RouterPolicy::new(), SessionConfig::default(), 1_000)
}

fn drive(forward: i16) -> ControlState {
    ControlState { drive: Some(DriveIntent { forward, turn: 0, speed: 300 }) }
}

fn pad() -> ControllerInfo {
    ControllerInfo::new(ControllerId::new(ControllerKind::GamepadUsb, "usb-0".to_string()), "Pad".to_string())
}

#[test]
fn new_brain_starts_in_default_state() {
    let b = brain();
    assert_eq!(b.desired_mode(), Mode::Teleop);
    assert!(b.is_default_desired_state());
    assert_eq!(b.active_control_state(), ControlState { drive: None });
    assert_eq!(b.desired_servo(), ServoCommand { pan: ServoTicks(0), tilt: ServoTicks(0) });
    assert_eq!(b.reconnect_interval_ms(), 2_000);
    assert_eq!(b.input_poll_interval_ms(), 10);
    assert_eq!(b.desired_state_sync_interval_ms(), 5_000);
    assert_eq!(b.desired_state_link_timeout_ms(), 10_000);
    assert_eq!(b.link_timeout_to_apply(), Some(10_000));
    assert!(b.should_refresh(1_000));
    assert_eq!(b.hold_extension_ms(), None);
}

#[test]
fn zero_session_intervals_become_one_millisecond() {
    let session = SessionConfig { health_check_interval_ms: 0, reconnect_interval_ms: 0, response_timeout_ms: 0 };
    let b = RobotBrain::new(RouterPolicy::new(), session, 0);
    assert_eq!(b.reconnect_interval_ms(), 1);
    assert_eq!(b.desired_state_sync_interval_ms(), 1);
    assert_eq!(b.desired_state_link_timeout_ms(), 250);
}

#[test]
fn active_state_refreshes_faster_and_shortens_link_timeout() {
    let mut b = brain();
    assert!(b.apply_control_state(drive(500)));
    assert!(!b.apply_control_state(drive(500)));
    assert!(!b.is_default_desired_state());
    assert_eq!(b.desired_state_sync_interval_ms(), 75);
    assert_eq!(b.desired_state_link_timeout_ms(), 250);
    assert_eq!(b.hold_extension_ms(), Some(COMMAND_COMPLETION_HOLD_GRACE_MS));
}

#[test]
fn refresh_is_due_after_the_interval() {
    let mut b = brain();
    b.apply_control_state(drive(200));
    b.record_desired_state_exchange(2_000);
    assert!(!b.should_refresh(2_000));
    assert!(!b.should_refresh(2_074));
    assert!(b.should_refresh(2_075));
    assert!(!b.should_refresh(1_500));
}

#[test]
fn applied_link_timeout_is_not_applied_again() {
    let mut b = brain();
    b.record_link_timeout(10_000, 1_200);
    assert_eq!(b.link_timeout_to_apply(), None);
    b.apply_control_state(drive(100));
    assert_eq!(b.link_timeout_to_apply(), Some(250));
}

#[test]
fn autonomous_mode_takes_the_first_plan_target() {
    let mut b = brain();
    let change = b.apply_desired_mode(Mode::Autonomous, 5_000);
    assert_eq!(change.log, Some("autonomy plan active: servo-scan".to_string()));
    assert!(change.control_changed);
    assert_eq!(b.desired_mode(), Mode::Autonomous);
    assert_eq!(b.active_control_state().drive, None);
    assert_eq!(b.desired_servo(), ServoCommand { pan: ServoTicks(0), tilt: ServoTicks(0) });
    let target = b.autonomous_target(5_600);
    assert_eq!(target.servo, ServoCommand { pan: ServoTicks(48), tilt: ServoTicks(0) });
    assert!(b.apply_autonomous_target(target));
    assert!(!b.apply_autonomous_target(target));
}

#[test]
fn fault_mode_drops_drive_and_centers_servos() {
    let mut b = brain();
    b.apply_control_state(drive(400));
    b.apply_desired_servo(30, 40);
    let change = b.apply_desired_mode(Mode::Fault, 0);
    assert!(change.control_changed);
    assert_eq!(change.log, None);
    assert_eq!(b.active_control_state().drive, None);
    assert_eq!(b.desired_servo(), ServoCommand { pan: ServoTicks(0), tilt: ServoTicks(0) });
}

#[test]
fn teleop_keeps_operator_drive_unless_leaving_autonomy() {
    let mut b = brain();
    b.apply_control_state(drive(400));
    let change = b.apply_desired_mode(Mode::Teleop, 0);
    assert!(!change.control_changed);
    assert_eq!(b.active_control_state(), drive(400));
}

#[test]
fn stop_returns_to_the_default_state() {
    let mut b = brain();
    b.apply_desired_mode(Mode::Fault, 0);
    b.apply_desired_servo(10, 20);
    b.stop_desired_motion();
    assert!(b.is_default_desired_state());
}

#[test]
fn reconnect_in_fault_mode_centers_servos_and_forgets_what_was_sent() {
    let mut b = brain();
    b.apply_desired_mode(Mode::Fault, 0);
    b.apply_desired_servo(10, 20);
    b.record_link_timeout(250, 10);
    b.record_desired_state_exchange(20);
    b.restore_desired_state_after_connect(3_000);
    assert_eq!(b.desired_servo(), ServoCommand { pan: ServoTicks(0), tilt: ServoTicks(0) });
    assert!(b.should_refresh(3_000));
    assert!(b.link_timeout_to_apply().is_some());
}

#[test]
fn failures_drop_the_drive_request() {
    let mut b = brain();
    b.apply_control_state(drive(300));
    b.connect_failed();
    assert_eq!(b.active_control_state().drive, None);
    b.apply_control_state(drive(300));
    b.transport_failed();
    assert_eq!(b.active_control_state().drive, None);
    assert_eq!(b.link_timeout_to_apply(), Some(10_000));
}

#[test]
fn latest_control_before_a_command_is_applied_first() {
    let mut b = brain();
    let actions = b.plan_input_events(vec![
        InputEvent::Control(drive(100)),
        InputEvent::Control(drive(200)),
        InputEvent::Command(BrainCommand::Ping),
        InputEvent::Control(drive(300)),
    ]);
    assert_eq!(
        actions,
        vec![BrainAction::ApplyControl(drive(200)), BrainAction::Ping, BrainAction::ApplyControl(drive(300))]
    );
}

#[test]
fn controls_are_ignored_outside_teleop() {
    let mut b = brain();
    b.apply_desired_mode(Mode::Fault, 0);
    let actions = b.plan_input_events(vec![InputEvent::Control(drive(100))]);
    assert!(actions.is_empty());
}

#[test]
fn a_stop_in_the_batch_reenables_controls_in_the_default_mode() {
    let mut b = brain();
    b.apply_desired_mode(Mode::Fault, 0);
    let actions = b.plan_input_events(vec![
        InputEvent::Control(drive(100)),
        InputEvent::Command(BrainCommand::Stop),
        InputEvent::Control(drive(200)),
    ]);
    assert_eq!(
        actions,
        vec![BrainAction::Stop, BrainAction::RefreshHold, BrainAction::ApplyControl(drive(200))]
    );
}

#[test]
fn quit_ends_the_batch() {
    let mut b = brain();
    let actions = b.plan_input_events(vec![
        InputEvent::Control(drive(100)),
        InputEvent::Command(BrainCommand::Quit),
        InputEvent::Command(BrainCommand::Ping),
        InputEvent::Control(drive(200)),
    ]);
    assert_eq!(actions, vec![BrainAction::ApplyControl(drive(100)), BrainAction::Quit]);
}

#[test]
fn mode_servo_and_chat_commands_become_actions() {
    let mut b = brain();
    let actions = b.plan_input_events(vec![
        InputEvent::Command(BrainCommand::SetMode(Mode::Autonomous)),
        InputEvent::Command(BrainCommand::Servo { pan: 5, tilt: 6 }),
        InputEvent::Command(BrainCommand::Chat("hello".to_string())),
        InputEvent::Prompt(Some("draft".to_string())),
    ]);
    assert_eq!(
        actions,
        vec![
            BrainAction::SetMode(Mode::Autonomous),
            BrainAction::RefreshHold,
            BrainAction::Servo { pan: 5, tilt: 6 },
            BrainAction::RefreshHold,
            BrainAction::Chat("hello".to_string()),
        ]
    );
}

#[test]
fn controller_lifecycle_and_warnings_are_logged() {
    let mut b = brain();
    let actions = b.plan_input_events(vec![
        InputEvent::ControllerConnected(pad()),
        InputEvent::Warning(InputWarning::UnknownKeyboardCommand('x')),
        InputEvent::ControllerDisconnected(pad()),
    ]);
    assert_eq!(
        actions,
        vec![
            BrainAction::Log(LogLevel::Info, "controller connected: gamepad-usb:usb-0 (Pad)".to_string()),
            BrainAction::Log(LogLevel::Info, "unknown keyboard command: x".to_string()),
            BrainAction::Log(LogLevel::Info, "controller disconnected: gamepad-usb:usb-0 (Pad)".to_string()),
        ]
    );
}

#[test]
fn scripted_input_hands_out_events_in_order_then_runs_out() {
    let mut input = ScriptedInput::new(vec![InputEvent::Command(BrainCommand::Ping), InputEvent::Control(drive(1))]);
    assert_eq!(input.poll_event(0).unwrap(), Some(InputEvent::Command(BrainCommand::Ping)));
    assert_eq!(input.next_event().unwrap(), InputEvent::Control(drive(1)));
    assert_eq!(input.poll_event(5).unwrap(), None);
    assert_eq!(input.next_event().unwrap_err(), "scripted input exhausted");
    assert_eq!(input.instructions(), None);
    assert!(input.suspend().is_ok());
    assert!(input.resume().is_ok());
    assert!(input.extend_active_control(750).is_ok());
}

#[test]
fn default_script_is_empty() {
    let mut input = ScriptedInput::default();
    assert_eq!(input.poll_event(0).unwrap(), None);
}

#[test]
fn step_quit_exits_and_chat_needs_output() {
    let mut b = brain();
    assert_eq!(b.step(BrainCommand::Quit, 0), Ok(BrainStep::Exit));
    assert_eq!(b.step(BrainCommand::Chat("hi".to_string()), 0), Err("chat commands require session output".to_string()));
    assert_eq!(b.step(BrainCommand::Ping, 0), Err("ping commands require session output".to_string()));
}

#[test]
fn step_stop_resets_and_asks_for_the_link_timeout_once() {
    let mut b = brain();
    b.apply_control_state(drive(500));
    assert_eq!(b.step(BrainCommand::Stop, 0), Ok(BrainStep::Continue { link_timeout_ms: Some(10_000) }));
    assert!(b.is_default_desired_state());
    b.record_link_timeout(10_000, 0);
    assert_eq!(b.step(BrainCommand::Stop, 0), Ok(BrainStep::Continue { link_timeout_ms: None }));
}

#[test]
fn step_servo_and_mode_change_the_desired_state() {
    let mut b = brain();
    assert_eq!(b.step(BrainCommand::Servo { pan: 12, tilt: 34 }, 0), Ok(BrainStep::Continue { link_timeout_ms: Some(250) }));
    assert_eq!(b.desired_servo(), ServoCommand { pan: ServoTicks(12), tilt: ServoTicks(34) });
    assert_eq!(b.step(BrainCommand::SetMode(Mode::Autonomous), 100), Ok(BrainStep::Continue { link_timeout_ms: Some(250) }));
    assert_eq!(b.desired_servo(), ServoCommand { pan: ServoTicks(0), tilt: ServoTicks(0) });
    b.step(BrainCommand::SetMode(Mode::Teleop), 200).unwrap();
    assert_eq!(b.desired_mode(), Mode::Teleop);
    assert_eq!(b.active_control_state().drive, None);
}

#[test]
fn transport_failure_preserves_requested_teleop_mode_for_reconnect() {
    let mut b = brain();
    b.apply_desired_servo(12, 18);
    b.apply_control_state(drive(1000));
    let actions = b.handle_transport_failure("link lost".to_string());
    assert_eq!(
        actions,
        vec![
            FailureAction::SuspendInput,
            FailureAction::ConnectionStatus("disconnected; retrying in 2000 ms".to_string()),
            FailureAction::DesiredMode(Mode::Teleop),
            FailureAction::ControlState(ControlState::default()),
            FailureAction::ClearDistance,
            FailureAction::Log(LogLevel::Warn, "link lost".to_string()),
            FailureAction::DisconnectTransport,
        ]
    );
    assert_eq!(b.desired_mode(), Mode::Teleop);
    assert_eq!(b.desired_servo(), ServoCommand { pan: ServoTicks(12), tilt: ServoTicks(18) });
    assert_eq!(b.active_control_state(), ControlState::default());
}
