use mortimmy::host::autonomy::{AutonomousTarget, AutonomyCondition, AutonomyPlan, AutonomyRunner, AutonomyStep};
use mortimmy::host::gamepad::{
    axes_control, classify_transport, classify_transport_from_power_info, tank_axes, toggle_events, BusKind,
    GamepadDescriptor, GamepadDriveStyle, HidDeviceSnapshot, PowerKind, TrackedGamepad,
};
use mortimmy::host::input::{ControlState, ControllerId, ControllerInfo, ControllerKind, ControllerParseError, DriveIntent, InputEvent, InputWarning};
use mortimmy::host::registry::{
    ControllerLifecycleEvent, ControllerRegistry, ControllerSelection, RoutedInputEvent, SourcedInputEvent,
};
use mortimmy::host::routing::RouterPolicy;
use mortimmy::host::transport::{
    controller_accepts_control, controller_accepts_request, duplicate_controller_role, ConnectedController,
};
use mortimmy::protocol::{
    Command, ControllerCapabilities, ControllerRole, ControllerStatus, DesiredStateCommand, DriveCommand, ParameterKey,
    ParameterUpdate, RequestPayload, ServoCommand, CAPABILITY_AUDIO_OUTPUT, CAPABILITY_DRIVE, CAPABILITY_SERVO,
    CAPABILITY_TEXT_DISPLAY,
};
use mortimmy::units::{Mode, PwmTicks, ServoTicks};

const MAX: i16 = DriveIntent::AXIS_MAX;

fn controller(kind: ControllerKind, instance: &str, display_name: &str) -> ControllerInfo {
    ControllerInfo::new(ControllerId::new(kind, instance.to_string()), display_name.to_string())
}

fn drive_state(forward: i16, turn: i16) -> ControlState {
    ControlState { drive: Some(DriveIntent { forward, turn, speed: 300 }) }
}

fn control_from(info: &ControllerInfo, control: ControlState) -> SourcedInputEvent {
    SourcedInputEvent::new(info.id.clone(), RoutedInputEvent::Control(control))
}

#[test]
fn disconnecting_active_controller_clears_control_state() {
    let keyboard = controller(ControllerKind::Keyboard, "local", "Local Keyboard");
    let mut registry = ControllerRegistry::new(ControllerSelection::Any);

    registry.queue_lifecycle_event(ControllerLifecycleEvent::Connected(keyboard.clone()));
    assert_eq!(registry.pop_event(), Some(InputEvent::ControllerConnected(keyboard.clone())));

    registry.queue_routed_event(control_from(&keyboard, drive_state(MAX, 0)));
    assert_eq!(registry.pop_event(), Some(InputEvent::Control(drive_state(MAX, 0))));

    registry.queue_lifecycle_event(ControllerLifecycleEvent::Disconnected(keyboard.clone()));
    assert_eq!(registry.pop_event(), Some(InputEvent::ControllerDisconnected(keyboard)));
    assert_eq!(registry.pop_event(), Some(InputEvent::Control(ControlState::default())));
    assert_eq!(registry.pop_event(), None);
    assert!(registry.active_controllers().is_empty());
}

#[test]
fn locked_selection_filters_other_controllers() {
    let keyboard = controller(ControllerKind::Keyboard, "local", "Local Keyboard");
    let websocket = controller(ControllerKind::Websocket, "client-a", "Websocket Client");
    let locked = websocket.id.clone();
    let mut registry = ControllerRegistry::new(ControllerSelection::Locked(locked.clone()));

    registry.queue_lifecycle_event(ControllerLifecycleEvent::Connected(keyboard.clone()));
    registry.queue_lifecycle_event(ControllerLifecycleEvent::Connected(websocket.clone()));
    registry.queue_routed_event(control_from(&keyboard, drive_state(MAX, 0)));
    registry.queue_routed_event(control_from(&websocket, drive_state(0, MAX)));

    assert_eq!(registry.pop_event(), Some(InputEvent::ControllerConnected(keyboard)));
    assert_eq!(registry.pop_event(), Some(InputEvent::ControllerConnected(websocket.clone())));
    assert_eq!(registry.pop_event(), Some(InputEvent::Control(drive_state(0, MAX))));
    assert_eq!(registry.pop_event(), None);

    assert_eq!(registry.last_control_source(), Some(locked));
}

#[test]
fn any_selection_lets_latest_control_win() {
    let keyboard = controller(ControllerKind::Keyboard, "local", "Local Keyboard");
    let gamepad = controller(ControllerKind::GamepadUsb, "usb-0", "USB Gamepad");
    let mut registry = ControllerRegistry::new(ControllerSelection::Any);

    registry.queue_lifecycle_event(ControllerLifecycleEvent::Connected(keyboard.clone()));
    registry.queue_lifecycle_event(ControllerLifecycleEvent::Connected(gamepad.clone()));
    registry.queue_routed_event(control_from(&keyboard, drive_state(MAX, 0)));
    registry.queue_routed_event(control_from(&gamepad, drive_state(0, -MAX)));

    assert!(matches!(registry.pop_event(), Some(InputEvent::ControllerConnected(_))));
    assert!(matches!(registry.pop_event(), Some(InputEvent::ControllerConnected(_))));
    assert_eq!(registry.pop_event(), Some(InputEvent::Control(drive_state(MAX, 0))));
    assert_eq!(registry.pop_event(), Some(InputEvent::Control(drive_state(0, -MAX))));

    assert_eq!(registry.last_control_source(), Some(gamepad.id));
    assert_eq!(registry.active_control_state(), drive_state(0, -MAX));
}

#[test]
fn registry_lists_connected_controllers_once() {
    let keyboard = controller(ControllerKind::Keyboard, "local", "Local Keyboard");
    let renamed = controller(ControllerKind::Keyboard, "local", "Keyboard");
    let mut registry = ControllerRegistry::new(ControllerSelection::Any);

    registry.queue_lifecycle_event(ControllerLifecycleEvent::Connected(keyboard));
    registry.queue_lifecycle_event(ControllerLifecycleEvent::Connected(renamed.clone()));

    assert_eq!(registry.active_controllers(), vec![renamed]);
}

#[test]
fn clearing_the_session_forgets_controllers_and_events() {
    let keyboard = controller(ControllerKind::Keyboard, "local", "Local Keyboard");
    let mut registry = ControllerRegistry::new(ControllerSelection::Any);
    registry.queue_lifecycle_event(ControllerLifecycleEvent::Connected(keyboard.clone()));
    registry.queue_routed_event(control_from(&keyboard, drive_state(MAX, 0)));

    registry.clear_session();

    assert_eq!(registry.pop_event(), None);
    assert!(registry.active_controllers().is_empty());
    assert_eq!(registry.last_control_source(), None);
}

#[test]
fn locked_selection_allows_only_its_controller() {
    let keyboard = controller(ControllerKind::Keyboard, "local", "Local Keyboard");
    let websocket = controller(ControllerKind::Websocket, "client-a", "Websocket Client");
    let selection = ControllerSelection::Locked(websocket.id.clone());

    assert!(selection.allows(&websocket.id));
    assert!(!selection.allows(&keyboard.id));
    assert!(ControllerSelection::Any.allows(&keyboard.id));
}

fn descriptor(vendor: u16, product: u16, name: &str, power: PowerKind) -> GamepadDescriptor {
    GamepadDescriptor {
        id: 0,
        vendor_id: Some(vendor),
        product_id: Some(product),
        name: name.to_string(),
        os_name: name.to_string(),
        power_info: power,
    }
}

fn hid(vendor: u16, product: u16, name: &str, bus: BusKind) -> HidDeviceSnapshot {
    HidDeviceSnapshot { vendor_id: vendor, product_id: product, product_name: Some(name.to_string()), bus_type: bus }
}

#[test]
fn hid_bus_type_wins_when_match_is_unambiguous() {
    let descriptor = descriptor(0x054c, 0x0ce6, "DualSense Wireless Controller", PowerKind::Discharging(80));
    let devices = vec![hid(0x054c, 0x0ce6, "DualSense Wireless Controller", BusKind::Usb)];

    assert_eq!(classify_transport(&descriptor, &devices), ControllerKind::GamepadUsb);
}

#[test]
fn power_info_breaks_usb_bluetooth_ties() {
    let descriptor = descriptor(0x045e, 0x0b13, "Xbox Wireless Controller", PowerKind::Charging(55));
    let devices = vec![
        hid(0x045e, 0x0b13, "Xbox Wireless Controller", BusKind::Usb),
        hid(0x045e, 0x0b13, "Xbox Wireless Controller", BusKind::Bluetooth),
    ];

    assert_eq!(classify_transport(&descriptor, &devices), ControllerKind::GamepadBluetooth);
}

#[test]
fn power_info_fallback_maps_wired_to_usb() {
    assert_eq!(classify_transport_from_power_info(PowerKind::Wired), ControllerKind::GamepadUsb);
}

#[test]
fn power_info_fallback_maps_battery_to_bluetooth() {
    assert_eq!(classify_transport_from_power_info(PowerKind::Discharging(42)), ControllerKind::GamepadBluetooth);
}

#[test]
fn unmatched_gamepad_falls_back_to_power_report() {
    let descriptor = descriptor(0x1234, 0x0001, "Generic Pad", PowerKind::Wired);
    let devices = vec![hid(0x054c, 0x0ce6, "DualSense Wireless Controller", BusKind::Bluetooth)];

    assert_eq!(classify_transport(&descriptor, &devices), ControllerKind::GamepadUsb);
}

#[test]
fn tank_mode_maps_sticks_into_forward_motion() {
    let (forward, turn) = tank_axes(MAX, MAX);
    assert_eq!(axes_control(forward, turn), drive_state(MAX, 0));
}

#[test]
fn tank_mode_opposite_sticks_pivot_in_place() {
    let (forward, turn) = tank_axes(MAX, -MAX);
    assert_eq!(axes_control(forward, turn), drive_state(0, -MAX));
}

#[test]
fn tank_mix_rounds_toward_zero() {
    assert_eq!(tank_axes(-1, 0), (0, 0));
    assert_eq!(tank_axes(-3, 0), (-1, 1));
    assert_eq!(axes_control(0, 0), ControlState { drive: None });
}

#[test]
fn toggling_gamepad_drive_style_resets_active_control() {
    let controller_info = controller(ControllerKind::GamepadUsb, "usb-0", "USB gamepad: Example");
    let mut pad = TrackedGamepad::new(ControllerKind::GamepadUsb, controller_info.clone());
    pad.sync_control(drive_state(MAX, 0));

    let (drive_style, was_active) = pad.toggle_drive_style();

    assert!(was_active);
    assert_eq!(drive_style, GamepadDriveStyle::Tank);
    assert_eq!(pad.kind, ControllerKind::GamepadUsb);
    assert_eq!(pad.info, controller_info);
    assert_eq!(pad.control_state, ControlState::default());
}

#[test]
fn toggle_events_stop_then_announce() {
    let info = controller(ControllerKind::GamepadUsb, "usb-0", "USB gamepad: Example");
    let mut pad = TrackedGamepad::new(ControllerKind::GamepadUsb, info.clone());
    pad.sync_control(drive_state(MAX, 0));

    let events = toggle_events(&mut pad);

    assert_eq!(events.len(), 2);
    assert_eq!(events[0].event, RoutedInputEvent::Control(ControlState { drive: None }));
    assert_eq!(
        events[1].event,
        RoutedInputEvent::Warning(InputWarning::Status(
            "USB gamepad: Example drive style switched to tank".to_string()
        ))
    );
    assert_eq!(events[1].controller, info.id);
}

#[test]
fn unchanged_sticks_report_nothing() {
    let info = controller(ControllerKind::GamepadUsb, "usb-0", "USB gamepad: Example");
    let mut pad = TrackedGamepad::new(ControllerKind::GamepadUsb, info);

    assert!(pad.sync_control(ControlState { drive: None }).is_none());
    assert!(pad.sync_control(drive_state(MAX, 0)).is_some());
    assert!(pad.sync_control(drive_state(MAX, 0)).is_none());
}

fn connected(device_path: &str, role: ControllerRole, capabilities: u32) -> ConnectedController {
    ConnectedController {
        device_path: device_path.to_string(),
        status: ControllerStatus {
            mode: Mode::Teleop,
            controller_role: role,
            capabilities: ControllerCapabilities::from_bits(capabilities),
            uptime_ms: 0,
            link_quality: 100,
            error: None,
        },
    }
}

#[test]
fn desired_state_routes_only_to_motion_capabilities() {
    let motion = connected("/dev/ttyUSB0", ControllerRole::MotionController, CAPABILITY_DRIVE | CAPABILITY_SERVO);
    let audio = connected("/dev/ttyUSB1", ControllerRole::AudioController, CAPABILITY_AUDIO_OUTPUT);
    assert!(controller_accepts_control(motion.status));
    assert!(!controller_accepts_control(audio.status));
}

#[test]
fn capability_specific_parameters_route_to_matching_controller_only() {
    let motion = connected("/dev/ttyUSB0", ControllerRole::MotionController, CAPABILITY_DRIVE);
    let audio = connected("/dev/ttyUSB1", ControllerRole::AudioController, CAPABILITY_AUDIO_OUTPUT);
    let audio_param = RequestPayload::SetParam(ParameterUpdate { key: ParameterKey::AudioChunkSamples, value: 240 });
    let timeout_param = RequestPayload::SetParam(ParameterUpdate { key: ParameterKey::LinkTimeoutMs, value: 500 });

    assert!(!controller_accepts_request(motion.status, &audio_param));
    assert!(controller_accepts_request(audio.status, &audio_param));
    assert!(controller_accepts_request(motion.status, &timeout_param));
    assert!(controller_accepts_request(audio.status, &timeout_param));
}

#[test]
fn display_parameters_route_to_motion_controller_only() {
    let motion = connected("/dev/ttyUSB0", ControllerRole::MotionController, CAPABILITY_TEXT_DISPLAY);
    let audio = connected("/dev/ttyUSB1", ControllerRole::AudioController, CAPABILITY_AUDIO_OUTPUT);
    let display_param = RequestPayload::SetParam(ParameterUpdate { key: ParameterKey::TrellisBrightness, value: 32 });

    assert!(controller_accepts_request(motion.status, &display_param));
    assert!(!controller_accepts_request(audio.status, &display_param));
}

#[test]
fn duplicate_roles_are_detected() {
    let duplicates = vec![
        connected("/dev/ttyUSB0", ControllerRole::MotionController, CAPABILITY_DRIVE),
        connected("/dev/ttyUSB1", ControllerRole::MotionController, CAPABILITY_DRIVE),
    ];

    let duplicate = duplicate_controller_role(&duplicates).unwrap();

    assert_eq!(duplicate.0, ControllerRole::MotionController);
    assert_eq!(duplicate.1, vec!["/dev/ttyUSB0", "/dev/ttyUSB1"]);
}

#[test]
fn distinct_roles_are_not_duplicates() {
    let controllers = vec![
        connected("/dev/ttyUSB0", ControllerRole::MotionController, CAPABILITY_DRIVE),
        connected("/dev/ttyUSB1", ControllerRole::AudioController, CAPABILITY_AUDIO_OUTPUT),
    ];
    assert!(duplicate_controller_role(&controllers).is_none());
}

#[test]
fn servo_scan_plan_advances_after_elapsed_durations() {
    let mut runner = AutonomyRunner::servo_scan();
    let start: u64 = 1_000;

    let first = runner.target_at(start);
    let second = runner.target_at(start + 600);
    let third = runner.target_at(start + 1_200);

    assert_eq!(first.servo.pan.0, 0);
    assert_eq!(second.servo.pan.0, 48);
    assert_eq!(third.servo.tilt.0, 48);
}

#[test]
fn hold_position_plan_stays_stationary() {
    let plan = AutonomyPlan {
        name: "hold-position",
        steps: vec![AutonomyStep { target: AutonomousTarget::hold_position(), until: AutonomyCondition::After(60_000) }],
    };

    let mut runner = AutonomyRunner::new(plan);
    let start: u64 = 1_000;
    let current = runner.target_at(start + 5_000);

    assert!(current.drive.is_none());
    assert_eq!(current.servo.pan.0, 0);
    assert_eq!(current.servo.tilt.0, 0);
}

#[test]
fn clamps_drive_to_limits() {
    let router = RouterPolicy::default();
    let command = router.clamp_drive(2_000, -2_000);

    assert_eq!(command.left.0, 1_000);
    assert_eq!(command.right.0, -1_000);
}

#[test]
fn preserves_in_range_drive() {
    let router = RouterPolicy::default();
    let command = router.clamp_drive(250, -320);

    assert_eq!(command.left.0, 250);
    assert_eq!(command.right.0, -320);
}

#[test]
fn builds_control_messages() {
    assert_eq!(RouterPolicy::ping_command(), Command::Ping);
    assert_eq!(
        RouterPolicy::link_timeout_update(750),
        Command::SetParam(ParameterUpdate { key: ParameterKey::LinkTimeoutMs, value: 750 })
    );
}

#[test]
fn converts_drive_intent_into_differential_pwm() {
    let router = RouterPolicy::default();

    assert_eq!(
        router.drive_intent(DriveIntent { forward: MAX, turn: 0, speed: 300 }),
        DriveCommand { left: PwmTicks(300), right: PwmTicks(300) }
    );

    assert_eq!(
        router.desired_state_command(
            Mode::Teleop,
            Some(DriveIntent { forward: MAX, turn: 0, speed: 300 }),
            RouterPolicy::centered_servo(),
        ),
        Command::SetDesiredState(DesiredStateCommand::new(
            Mode::Teleop,
            DriveCommand { left: PwmTicks(300), right: PwmTicks(300) },
            ServoCommand { pan: ServoTicks(0), tilt: ServoTicks(0) },
        ))
    );

    assert_eq!(
        router.drive_intent(DriveIntent { forward: MAX, turn: -MAX, speed: 300 }),
        DriveCommand { left: PwmTicks(0), right: PwmTicks(300) }
    );
}

#[test]
fn controller_ids_parse_from_kind_and_instance() {
    let id = ControllerId::parse("gamepad-usb:usb-0").unwrap();
    assert_eq!(id.kind, ControllerKind::GamepadUsb);
    assert_eq!(id.instance, "usb-0");
    let id = ControllerId::parse("websocket:client:7").unwrap();
    assert_eq!(id.kind, ControllerKind::Websocket);
    assert_eq!(id.instance, "client:7");
    assert_eq!(ControllerId::parse("keyboard").unwrap_err(), ControllerParseError::MissingSeparator);
    assert_eq!(ControllerId::parse("keyboard:").unwrap_err(), ControllerParseError::EmptyInstance);
    assert_eq!(ControllerId::parse("joystick:1").unwrap_err(), ControllerParseError::UnknownKind);
}

#[test]
fn controller_id_text_reads_back() {
    let id = ControllerId::new(ControllerKind::GamepadBluetooth, "bt-3".to_string());
    assert_eq!(id.to_text(), "gamepad-bluetooth:bt-3");
    assert_eq!(ControllerId::parse(&id.to_text()).unwrap(), id);
}

#[test]
fn active_controllers_come_in_id_order() {
    let mut registry = ControllerRegistry::new(ControllerSelection::Any);
    let info = |kind: ControllerKind, instance: &str| {
        ControllerInfo::new(ControllerId::new(kind, instance.to_string()), instance.to_string())
    };
    registry.queue_lifecycle_event(ControllerLifecycleEvent::Connected(info(ControllerKind::Websocket, "b")));
    registry.queue_lifecycle_event(ControllerLifecycleEvent::Connected(info(ControllerKind::GamepadUsb, "usb-1")));
    registry.queue_lifecycle_event(ControllerLifecycleEvent::Connected(info(ControllerKind::Keyboard, "local")));
    registry.queue_lifecycle_event(ControllerLifecycleEvent::Connected(info(ControllerKind::GamepadUsb, "usb-0")));
    let ids: Vec<String> = registry.active_controllers().iter().map(|c| c.id.to_text()).collect();
    assert_eq!(ids, vec!["keyboard:local", "gamepad-usb:usb-0", "gamepad-usb:usb-1", "websocket:b"]);
}
