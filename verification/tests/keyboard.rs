use mortimmy::host::brain::BrainCommand;
use mortimmy::host::input::{ControlState, DriveIntent, InputEvent, InputWarning};
use mortimmy::host::keyboard::{
    KeyCode, KeyEvent, KeyEventKind, KeyModifiers, KeyboardDriveStyle, KeyboardInput, DRIVE_KEY_LEASE_MS,
    INITIAL_DRIVE_KEY_LEASE_MS, INTERLEAVED_KEY_LEASE_MS,
};
use mortimmy::units::Mode;

const NOW: u64 = 10_000;

fn press(code: KeyCode) -> KeyEvent {
    KeyEvent::new(code, KeyModifiers::none())
}

fn with_kind(code: KeyCode, kind: KeyEventKind) -> KeyEvent {
    KeyEvent { code, modifiers: KeyModifiers::none(), kind }
}

fn drain(input: &mut KeyboardInput) -> Vec<InputEvent> {
    input.take_pending_events()
}

fn enhanced_input() -> KeyboardInput {
    let mut input = KeyboardInput::new();
    input.set_release_tracking(true);
    input
}

fn tank_input() -> KeyboardInput {
    KeyboardInput::with_drive_style(KeyboardDriveStyle::Tank)
}

fn drive(forward: i16, turn: i16) -> Vec<InputEvent> {
    vec![InputEvent::Control(ControlState { drive: Some(DriveIntent { forward, turn, speed: 300 }) })]
}

fn stopped() -> Vec<InputEvent> {
    vec![InputEvent::Control(ControlState { drive: None })]
}

const MAX: i16 = DriveIntent::AXIS_MAX;

#[test]
fn maps_single_key_events_without_enter() {
    let mut input = KeyboardInput::new();

    input.handle_key_event_at(press(KeyCode::Char('p')), NOW);
    assert_eq!(drain(&mut input), vec![InputEvent::Command(BrainCommand::Ping)]);

    input.handle_key_event_at(press(KeyCode::Char('t')), NOW);
    assert_eq!(drain(&mut input), vec![InputEvent::Command(BrainCommand::SetMode(Mode::Teleop))]);
}

#[test]
fn captures_chat_prompt_and_submits_chat_command() {
    let mut input = KeyboardInput::new();

    input.handle_key_event_at(press(KeyCode::Char('c')), NOW);
    assert_eq!(
        drain(&mut input),
        vec![
            InputEvent::Prompt(Some("chat> ".to_string())),
            InputEvent::Warning(InputWarning::Status(
                "chat mode active: type a message and press Enter".to_string()
            )),
        ]
    );

    input.handle_key_event_at(press(KeyCode::Char('h')), NOW);
    input.handle_key_event_at(press(KeyCode::Char('i')), NOW);
    assert_eq!(
        drain(&mut input),
        vec![InputEvent::Prompt(Some("chat> h".to_string())), InputEvent::Prompt(Some("chat> hi".to_string()))]
    );

    input.handle_key_event_at(press(KeyCode::Enter), NOW);
    assert_eq!(
        drain(&mut input),
        vec![InputEvent::Prompt(None), InputEvent::Command(BrainCommand::Chat("hi".to_string()))]
    );
}

#[test]
fn movement_keys_emit_drive_state_on_press_and_release() {
    let mut input = KeyboardInput::new();

    input.handle_key_event_at(press(KeyCode::Up), NOW);
    assert_eq!(drain(&mut input), drive(MAX, 0));

    input.handle_key_event_at(press(KeyCode::Left), NOW);
    assert_eq!(drain(&mut input), drive(MAX, -MAX));

    input.handle_key_event_at(with_kind(KeyCode::Up, KeyEventKind::Release), NOW + 1);
    assert_eq!(drain(&mut input), drive(0, -MAX));
}

#[test]
fn allows_discrete_commands_while_drive_keys_are_held() {
    let mut input = KeyboardInput::new();

    input.handle_key_event_at(press(KeyCode::Up), NOW);
    assert_eq!(drain(&mut input), drive(MAX, 0));

    input.handle_key_event_at(press(KeyCode::Left), NOW);
    assert_eq!(drain(&mut input), drive(MAX, -MAX));

    input.handle_key_event_at(press(KeyCode::Char('t')), NOW);
    assert_eq!(drain(&mut input), vec![InputEvent::Command(BrainCommand::SetMode(Mode::Teleop))]);
}

#[test]
fn drive_state_expires_and_can_be_triggered_again_without_release() {
    let mut input = KeyboardInput::new();

    input.handle_key_event_at(press(KeyCode::Up), NOW);
    assert_eq!(drain(&mut input), drive(MAX, 0));

    input.expire_drive_keys_at(NOW + DRIVE_KEY_LEASE_MS + 1);
    assert!(drain(&mut input).is_empty());

    input.expire_drive_keys_at(NOW + INITIAL_DRIVE_KEY_LEASE_MS + 1);
    assert_eq!(drain(&mut input), stopped());

    input.handle_key_event_at(press(KeyCode::Up), NOW + INITIAL_DRIVE_KEY_LEASE_MS + 2);
    assert_eq!(drain(&mut input), drive(MAX, 0));
}

#[test]
fn repeat_refresh_still_uses_short_lease_after_initial_press() {
    let mut input = KeyboardInput::new();

    input.handle_key_event_at(press(KeyCode::Up), NOW);
    assert_eq!(drain(&mut input), drive(MAX, 0));

    input.handle_key_event_at(with_kind(KeyCode::Up, KeyEventKind::Repeat), NOW + 100);
    assert!(drain(&mut input).is_empty());

    input.expire_drive_keys_at(NOW + 100 + DRIVE_KEY_LEASE_MS + 1);
    assert_eq!(drain(&mut input), stopped());
}

#[test]
fn second_drive_key_press_extends_existing_direction_hold() {
    let mut input = KeyboardInput::new();

    input.handle_key_event_at(press(KeyCode::Up), NOW);
    assert_eq!(drain(&mut input), drive(MAX, 0));

    input.handle_key_event_at(press(KeyCode::Right), NOW + 400);
    assert_eq!(drain(&mut input), drive(MAX, MAX));

    input.expire_drive_keys_at(NOW + INITIAL_DRIVE_KEY_LEASE_MS + 1);
    assert!(drain(&mut input).is_empty());

    input.expire_drive_keys_at(NOW + 400 + INITIAL_DRIVE_KEY_LEASE_MS + 1);
    assert_eq!(drain(&mut input), stopped());
}

#[test]
fn repeating_one_drive_key_keeps_combined_drive_hold_alive() {
    let mut input = KeyboardInput::new();

    input.handle_key_event_at(press(KeyCode::Up), NOW);
    assert_eq!(drain(&mut input), drive(MAX, 0));

    input.handle_key_event_at(press(KeyCode::Right), NOW + 400);
    assert_eq!(drain(&mut input), drive(MAX, MAX));

    input.handle_key_event_at(with_kind(KeyCode::Right, KeyEventKind::Repeat), NOW + 900);
    assert!(drain(&mut input).is_empty());

    input.expire_drive_keys_at(NOW + 1_151);
    assert!(drain(&mut input).is_empty());

    input.expire_drive_keys_at(NOW + 900 + DRIVE_KEY_LEASE_MS + 1);
    assert_eq!(drain(&mut input), stopped());
}

#[test]
fn releasing_second_drive_key_preserves_first_direction_when_release_tracking_is_available() {
    let mut input = enhanced_input();

    input.handle_key_event_at(press(KeyCode::Up), NOW);
    assert_eq!(drain(&mut input), drive(MAX, 0));

    input.handle_key_event_at(press(KeyCode::Right), NOW + 400);
    assert_eq!(drain(&mut input), drive(MAX, MAX));

    input.expire_drive_keys_at(NOW + 1_200);
    assert!(drain(&mut input).is_empty());

    input.handle_key_event_at(with_kind(KeyCode::Right, KeyEventKind::Release), NOW + 1_200);
    assert_eq!(drain(&mut input), drive(MAX, 0));
}

#[test]
fn discrete_key_activity_extends_active_drive_hold() {
    let mut input = KeyboardInput::new();

    input.handle_key_event_at(press(KeyCode::Up), NOW);
    assert_eq!(drain(&mut input), drive(MAX, 0));

    input.handle_key_event_at(with_kind(KeyCode::Up, KeyEventKind::Repeat), NOW + 100);
    assert!(drain(&mut input).is_empty());

    input.handle_key_event_at(press(KeyCode::Char('p')), NOW + 200);
    assert_eq!(drain(&mut input), vec![InputEvent::Command(BrainCommand::Ping)]);

    input.expire_drive_keys_at(NOW + 200 + DRIVE_KEY_LEASE_MS + 1);
    assert!(drain(&mut input).is_empty());

    input.expire_drive_keys_at(NOW + 200 + INTERLEAVED_KEY_LEASE_MS + 1);
    assert_eq!(drain(&mut input), stopped());
}

#[test]
fn command_completion_can_rearm_tracked_drive_hold_after_deadline() {
    let mut input = KeyboardInput::new();

    input.handle_key_event_at(press(KeyCode::Up), NOW);
    assert_eq!(drain(&mut input), drive(MAX, 0));

    let command_done_at = NOW + INITIAL_DRIVE_KEY_LEASE_MS + 50;
    input.extend_active_control_at(command_done_at, INITIAL_DRIVE_KEY_LEASE_MS);

    input.expire_drive_keys_at(command_done_at + 300);
    assert!(drain(&mut input).is_empty());

    input.expire_drive_keys_at(command_done_at + INITIAL_DRIVE_KEY_LEASE_MS + 1);
    assert_eq!(drain(&mut input), stopped());
}

#[test]
fn ignores_release_events_for_discrete_commands() {
    let mut input = KeyboardInput::new();

    input.handle_key_event_at(with_kind(KeyCode::Char('p'), KeyEventKind::Release), NOW);
    assert!(drain(&mut input).is_empty());
}

#[test]
fn unknown_key_emits_warning_instead_of_error() {
    let mut input = KeyboardInput::new();

    input.handle_key_event_at(press(KeyCode::Char('z')), NOW);
    assert_eq!(drain(&mut input), vec![InputEvent::Warning(InputWarning::UnknownKeyboardCommand('z'))]);
}

#[test]
fn tank_style_maps_tread_pairs_into_forward_and_turn() {
    let mut input = tank_input();

    input.handle_key_event_at(press(KeyCode::Char('w')), NOW);
    assert_eq!(drain(&mut input), drive(500, -500));

    input.handle_key_event_at(press(KeyCode::Char('e')), NOW + 1);
    assert_eq!(drain(&mut input), drive(MAX, 0));
}

#[test]
fn tank_style_opposite_treads_pivot_in_place() {
    let mut input = tank_input();

    input.handle_key_event_at(press(KeyCode::Char('w')), NOW);
    assert!(!drain(&mut input).is_empty());

    input.handle_key_event_at(press(KeyCode::Char('d')), NOW + 1);
    assert_eq!(drain(&mut input), drive(0, -MAX));
}

#[test]
fn tank_style_pivot_shortcut_matches_split_tread_input() {
    let mut input = tank_input();

    input.handle_key_event_at(press(KeyCode::Char('a')), NOW);
    assert_eq!(drain(&mut input), drive(0, -MAX));
}

#[test]
fn toggle_drive_style_switches_key_mapping_and_stops_active_drive() {
    let mut input = KeyboardInput::new();

    input.handle_key_event_at(press(KeyCode::Up), NOW);
    assert_eq!(drain(&mut input), drive(MAX, 0));

    input.handle_key_event_at(press(KeyCode::Char('m')), NOW + 1);
    assert_eq!(
        drain(&mut input),
        vec![
            InputEvent::Control(ControlState { drive: None }),
            InputEvent::Warning(InputWarning::Status("keyboard drive style switched to tank".to_string())),
        ]
    );

    input.handle_key_event_at(press(KeyCode::Char('e')), NOW + 2);
    assert_eq!(drain(&mut input), drive(500, MAX / 2));
}

#[test]
fn control_c_requests_quit_even_in_chat_mode() {
    let mut input = KeyboardInput::new();

    input.handle_key_event_at(press(KeyCode::Char('c')), NOW);
    drain(&mut input);
    input.handle_key_event_at(KeyEvent::new(KeyCode::Char('c'), KeyModifiers::control()), NOW);
    assert_eq!(drain(&mut input), vec![InputEvent::Command(BrainCommand::Quit)]);
}

#[test]
fn idle_keyboard_has_no_pending_expiration() {
    let input = KeyboardInput::new();
    assert_eq!(input.next_drive_key_expiration(NOW), None);
    assert_eq!(input.poll_timeout(50, NOW), 50);
}

#[test]
fn held_key_bounds_the_poll_timeout() {
    let mut input = KeyboardInput::new();
    input.handle_key_event_at(press(KeyCode::Up), NOW);
    drain(&mut input);

    assert_eq!(input.next_drive_key_expiration(NOW + 100), Some(INITIAL_DRIVE_KEY_LEASE_MS - 100));
    assert_eq!(input.poll_timeout(5_000, NOW + 100), INITIAL_DRIVE_KEY_LEASE_MS - 100);
}

#[test]
fn focus_loss_stops_held_drive() {
    let mut input = KeyboardInput::new();
    input.handle_key_event_at(press(KeyCode::Up), NOW);
    drain(&mut input);

    input.focus_lost(NOW + 10);
    assert_eq!(drain(&mut input), stopped());
}
