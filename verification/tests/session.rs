use mortimmy::firmware::display::{render_motion_controller_frame, DisplayFrame};
use mortimmy::firmware::runtime::{BootMarker, NoopBootMarker, NoopRuntimeHardware, RuntimeHardware};
use mortimmy::firmware::scaffold::FirmwareScaffold;
use mortimmy::host::brain::BrainCommand;
use mortimmy::host::cli::{Cli, Command};
use mortimmy::host::config::{AppConfig, SerialConfig};
use mortimmy::host::input::{ControlState, ControllerId, ControllerInfo, ControllerKind, DriveIntent, InputBackendKind, InputEvent, InputWarning};
use mortimmy::host::keyboard::KeyEventKind;
use mortimmy::host::logging::LogLevel;
use mortimmy::host::loopback::LoopbackPicoTransport;
use mortimmy::host::nexo::{AgentRunStatus, ChatReply, ChatRun, ChatStep};
use mortimmy::host::registry::{ControllerLifecycleEvent, RoutedInputEvent, SourcedInputEvent};
use mortimmy::host::tui::console::{initial_model, Console, ConsoleEffect, TermKey, TermKeyCode, TuiConfig};
use mortimmy::host::tui::files::{is_skipped_dir, slash_separated, FileIndex};
use mortimmy::host::tui::model::{InputMode, KeyboardDriveStyle};
use mortimmy::host::tui::update::{update, Action, Message, Model, SummaryStatus};
use mortimmy::host::ui::{NullSessionOutput, SessionUi};
use mortimmy::host::websocket::{
    brain_command, drive_control, parse_websocket_command, websocket_controller_info, WebsocketCommand, WebsocketInputState,
    WebsocketRuntimeEvent,
};
use mortimmy::protocol::{ControlMessage, ControllerMessage, DesiredStateCommand, DriveCommand, ReportPayload, RequestPayload, ServoCommand};
use mortimmy::text::lines;
use mortimmy::units::{CoreError, Mode, PwmTicks, ServoTicks};

fn tui_config() -> TuiConfig {
    TuiConfig {
        workspace_root: "/tmp/mortimmy".to_string(),
        config_path: "config/mortimmy.toml".to_string(),
        log_level: LogLevel::Debug,
        no_color: true,
        transport_label: "loopback".to_string(),
        serial_target: "/dev/tty.usbmodem".to_string(),
        controller_selection: "any".to_string(),
        nexo_gateway: "ws://127.0.0.1:6969".to_string(),
        nexo_client: "mortimmy".to_string(),
        initial_mode: Mode::Autonomous,
    }
}

fn key(code: TermKeyCode) -> TermKey {
    TermKey { code, control: false, alt: false, kind: KeyEventKind::Press }
}

fn drain(console: &mut Console) -> Vec<InputEvent> {
    let mut out = Vec::new();
    while let Some(event) = console.pop_event() {
        out.push(event);
    }
    out
}

#[test]
fn motion_controller_frame_is_short_and_stable() {
    let frame = render_motion_controller_frame(Mode::Teleop);

    assert_eq!(frame.line0.as_str(), "Motion ctrl");
    assert_eq!(frame.line1.as_str(), "Mode tele");
}

#[test]
fn display_frame_names_every_mode() {
    assert_eq!(render_motion_controller_frame(Mode::Autonomous).line1.as_str(), "Mode auto");
    assert_eq!(render_motion_controller_frame(Mode::Fault).line1.as_str(), "Mode fault");
    assert!(DisplayFrame::default().line0.is_empty());
}

#[test]
fn noop_hardware_faults_only_the_scaffold() {
    let mut scaffold = FirmwareScaffold::default();
    let mut hardware = NoopRuntimeHardware;
    let mut marker = NoopBootMarker;
    marker.set_high();
    marker.set_low();

    assert_eq!(hardware.sync_with_scaffold(&mut scaffold), Ok(()));
    hardware.enter_fault_state(&mut scaffold, Some(CoreError::LinkTimedOut));

    assert_eq!(scaffold.control.mode, Mode::Fault);
    assert_eq!(scaffold.control.last_error, Some(CoreError::LinkTimedOut));
}

#[test]
fn initial_model_carries_session_summary_and_banner_log() {
    let model = initial_model(tui_config());

    assert_eq!(model.log_level, LogLevel::Debug);
    assert!(model.no_color);
    assert_eq!(model.summary.config_path, "config/mortimmy.toml");
    assert_eq!(model.summary.connection_status, "connecting");
    assert_eq!(model.summary.desired_mode, Mode::Autonomous);
    assert_eq!(model.summary.distance, None);
    assert_eq!(model.summary.transport_label, "loopback");
    assert_eq!(model.summary.serial_target, "/dev/tty.usbmodem");
    assert_eq!(model.summary.controller_selection, "any");
    assert_eq!(model.summary.nexo_gateway, "ws://127.0.0.1:6969");
    assert_eq!(model.summary.nexo_client, "mortimmy");
    assert!(model.active_controllers.is_empty());
    assert_eq!(model.logs.len(), 1);
    assert_eq!(model.logs[0].level, LogLevel::Info);
    assert_eq!(model.logs[0].message, "session ready; type /help to view commands");
    assert_eq!(model.logs[0].repeats, 1);
}

#[test]
fn submitted_command_line_executes_trimmed_text() {
    let mut model = Model::new(LogLevel::Info, false, SummaryStatus::new());
    for c in "  /mode teleop ".chars() {
        assert_eq!(update(&mut model, Message::InsertChar(c)), Action::Continue);
    }
    assert_eq!(update(&mut model, Message::SubmitInput), Action::ExecuteCommand("/mode teleop".to_string()));
    assert_eq!(model.command_input(), "");
    assert_eq!(model.cursor(), 0);
}

#[test]
fn cursor_edits_insert_and_delete_at_the_cursor() {
    let mut model = Model::new(LogLevel::Info, false, SummaryStatus::new());
    model.set_command_input("abc", 3);
    update(&mut model, Message::MoveCursorLeft);
    update(&mut model, Message::Backspace);
    assert_eq!(model.command_input(), "ac");
    assert_eq!(model.cursor(), 1);
    update(&mut model, Message::InsertChar('x'));
    assert_eq!(model.command_input(), "axc");
    update(&mut model, Message::MoveCursorStart);
    update(&mut model, Message::DeleteForward);
    assert_eq!(model.command_input(), "xc");
    update(&mut model, Message::MoveCursorEnd);
    assert_eq!(model.cursor(), 2);
    update(&mut model, Message::MoveCursorRight);
    assert_eq!(model.cursor(), 2);
}

#[test]
fn repeated_log_messages_fold_into_one_entry() {
    let mut model = Model::new(LogLevel::Info, false, SummaryStatus::new());
    update(&mut model, Message::Log(LogLevel::Info, "link\n up".to_string()));
    update(&mut model, Message::Log(LogLevel::Info, "link up".to_string()));
    update(&mut model, Message::Log(LogLevel::Debug, "hidden".to_string()));

    assert_eq!(model.logs().len(), 1);
    assert_eq!(model.logs()[0].message, "link up");
    assert_eq!(model.logs()[0].repeats, 2);
}

#[test]
fn log_keeps_only_the_newest_entries() {
    let mut model = Model::new(LogLevel::Trace, false, SummaryStatus::new());
    for i in 0..205 {
        model.log(LogLevel::Info, &format!("entry {i}"));
    }
    assert_eq!(model.logs().len(), 200);
    assert_eq!(model.logs()[0].message, "entry 5");
    assert_eq!(model.logs()[199].message, "entry 204");
}

#[test]
fn completion_selection_wraps_both_ways() {
    let mut console = Console::new(tui_config(), FileIndex::default());
    console.model.set_command_input("/", 1);
    console.refresh_completions();
    let n = console.model.completions.len();
    assert!(n > 1);

    update(&mut console.model, Message::SelectPreviousCompletion);
    assert_eq!(console.model.selected_completion, n - 1);
    update(&mut console.model, Message::SelectNextCompletion);
    assert_eq!(console.model.selected_completion, 0);
}

#[test]
fn scrolling_saturates() {
    let mut model = Model::new(LogLevel::Info, false, SummaryStatus::new());
    update(&mut model, Message::ScrollActivityDown);
    assert_eq!(model.activity_scroll_offset, 0);
    update(&mut model, Message::ScrollActivityUp);
    assert_eq!(model.activity_scroll_offset, 3);
    model.activity_scroll_offset = u16::MAX - 1;
    update(&mut model, Message::ScrollActivityUp);
    assert_eq!(model.activity_scroll_offset, u16::MAX);
}

#[test]
fn console_records_controller_lifecycle() {
    let mut model = Model::new(LogLevel::Info, false, SummaryStatus::new());
    let pad = ControllerInfo::new(ControllerId::new(ControllerKind::GamepadUsb, "usb-0".to_string()), "Pad".to_string());
    update(&mut model, Message::ControllerConnected(pad.clone()));
    update(&mut model, Message::ControllerConnected(pad.clone()));
    assert_eq!(model.active_controllers.len(), 1);
    update(&mut model, Message::ControllerDisconnected(pad));
    assert!(model.active_controllers.is_empty());
}

#[test]
fn console_keys_become_messages_and_commands_run() {
    let mut console = Console::new(tui_config(), FileIndex::default());

    assert_eq!(console.handle_key(key(TermKeyCode::Char('a'))), Some(Message::InsertChar('a')));
    assert_eq!(console.handle_key(key(TermKeyCode::Enter)), Some(Message::SubmitInput));
    assert_eq!(console.handle_key(TermKey { kind: KeyEventKind::Release, ..key(TermKeyCode::Enter) }), None);
    assert_eq!(console.handle_key(TermKey { alt: true, ..key(TermKeyCode::Char('a')) }), None);

    let quit = TermKey { control: true, ..key(TermKeyCode::Char('c')) };
    assert_eq!(console.handle_key(quit), None);
    assert_eq!(drain(&mut console), vec![InputEvent::Command(BrainCommand::Quit)]);

    assert_eq!(console.execute_command("/mode fault"), None);
    assert_eq!(drain(&mut console), vec![InputEvent::Command(BrainCommand::SetMode(Mode::Fault))]);

    assert_eq!(console.execute_command("/help mode"), None);
    assert!(console.model.show_help);
    assert_eq!(console.model.help_topic, Some("mode".to_string()));

    assert_eq!(console.execute_command("hello there"), Some(ConsoleEffect::ExpandChat("hello there".to_string())));

    assert_eq!(console.execute_command("/bogus"), None);
    assert!(console.model.logs.last().unwrap().message.starts_with("command failed: "));
    assert_eq!(console.model.logs.last().unwrap().level, LogLevel::Error);
}

#[test]
fn copying_empty_activity_warns() {
    let mut console = Console::new(tui_config(), FileIndex::default());
    match console.copy_request(true) {
        Some(ConsoleEffect::Copy { text, last_only }) => {
            assert!(last_only);
            assert!(text.contains("session ready"));
        }
        other => panic!("unexpected effect: {other:?}"),
    }
    console.copy_finished(true, Ok(()));
    assert_eq!(console.model.logs.last().unwrap().message, "copied last activity entry to clipboard");
    console.copy_finished(false, Err("no display".to_string()));
    assert_eq!(console.model.logs.last().unwrap().message, "clipboard copy failed: no display");
}

#[test]
fn keyboard_drive_mode_queues_controls_and_lifecycle() {
    let mut console = Console::new(tui_config(), FileIndex::default());
    console.enter_keyboard_drive_mode();
    let events = drain(&mut console);
    assert_eq!(events.len(), 2);
    assert!(matches!(&events[0], InputEvent::ControllerConnected(info) if info.id.instance == "tui-local"));

    assert_eq!(console.handle_key(key(TermKeyCode::Char('W'))), None);
    assert_eq!(
        drain(&mut console),
        vec![InputEvent::Control(ControlState { drive: Some(DriveIntent { forward: 1_000, turn: 0, speed: 300 }) })]
    );

    console.handle_key(key(TermKeyCode::Char('t')));
    assert_eq!(
        drain(&mut console),
        vec![
            InputEvent::Control(ControlState { drive: None }),
            InputEvent::Warning(InputWarning::Status("TUI keyboard drive style switched to tank".to_string())),
        ]
    );
    assert!(matches!(console.model.input_mode, InputMode::KeyboardDrive(s) if s.style == KeyboardDriveStyle::Tank));

    console.handle_key(key(TermKeyCode::Esc));
    let events = drain(&mut console);
    assert_eq!(events.len(), 2);
    assert!(matches!(&events[0], InputEvent::ControllerDisconnected(_)));
    assert_eq!(console.model.input_mode, InputMode::Command);
}

#[test]
fn session_screen_shows_header_and_newest_messages() {
    let mut ui = SessionUi::new(LogLevel::Info, false, "p ping\nq quit\n");
    assert_eq!(ui.commands, vec!["p ping", "q quit"]);
    ui.set_connection_status("Connected".to_string());
    for i in 0..12 {
        ui.log(LogLevel::Info, &format!("message {i}"));
    }
    ui.log(LogLevel::Debug, "hidden");
    assert_eq!(ui.logs.len(), 10);

    let rows = ui.screen_lines(40, 12);
    assert_eq!(rows.len(), 12);
    assert_eq!(rows[0], "mortimmy");
    assert_eq!(rows[1], "Connection: Connected");
    assert_eq!(rows[2], "Drive: idle");
    assert_eq!(rows[6], "");
    assert_eq!(rows[7], "Recent messages:");
    assert_eq!(rows[8], "[INFO] message 8");
    assert_eq!(rows[11], "[INFO] message 11");
}

#[test]
fn null_session_output_accepts_everything() {
    let mut out = NullSessionOutput;
    assert!(out.log(LogLevel::Error, "x".to_string()).is_ok());
    assert!(out.set_connection_status("x".to_string()).is_ok());
    assert!(out.set_control_state(ControlState::default()).is_ok());
    assert!(out.set_desired_mode(Mode::Teleop).is_ok());
}

#[test]
fn text_lines_follow_line_endings() {
    assert_eq!(lines("foo\r\nbar\n\nbaz\r"), vec!["foo", "bar", "", "baz\r"]);
    assert!(lines("").is_empty());
}

#[test]
fn chat_run_completes_with_latest_content() {
    let mut run = ChatRun::new("session-1".to_string(), "run-1".to_string());
    assert_eq!(run.on_agent_event("run-2", Some("other".to_string()), AgentRunStatus::Completed, None), ChatStep::Pending);
    assert_eq!(run.on_agent_event("run-1", Some("partial".to_string()), AgentRunStatus::Streaming, None), ChatStep::Pending);
    assert_eq!(run.on_agent_event("run-1", None, AgentRunStatus::Thinking, None), ChatStep::Pending);
    assert_eq!(
        run.on_agent_event("run-1", Some("final answer".to_string()), AgentRunStatus::Completed, None),
        ChatStep::Completed(ChatReply {
            session_id: "session-1".to_string(),
            run_id: "run-1".to_string(),
            content: "final answer".to_string(),
        })
    );
}

#[test]
fn failed_chat_run_reports_its_error() {
    let mut run = ChatRun::new("s".to_string(), "r".to_string());
    assert_eq!(
        run.on_agent_event("r", None, AgentRunStatus::Cancelled, None),
        ChatStep::Failed("chat run ended with status Cancelled".to_string())
    );
    assert_eq!(
        run.on_agent_event("r", None, AgentRunStatus::Failed, Some("model offline".to_string())),
        ChatStep::Failed("model offline".to_string())
    );
}

#[test]
fn websocket_messages_map_to_controls_and_commands() {
    assert_eq!(brain_command(WebsocketCommand::Autonomous), BrainCommand::SetMode(Mode::Autonomous));
    assert_eq!(brain_command(WebsocketCommand::Stop), BrainCommand::Stop);
    assert_eq!(
        drive_control(500, -250, 450),
        ControlState { drive: Some(DriveIntent { forward: 500, turn: -250, speed: 450 }) }
    );
    assert_eq!(drive_control(0, 0, 450), ControlState { drive: None });
    assert_eq!(drive_control(10, 0, 0).drive.unwrap().speed, 1);

    let info = websocket_controller_info(7, "127.0.0.1:5000", "0.0.0.0:8080");
    assert_eq!(info.id.kind, ControllerKind::Websocket);
    assert_eq!(info.id.instance, "client-7");
    assert_eq!(info.display_name, "Websocket 127.0.0.1:5000 via 0.0.0.0:8080");
}

#[test]
fn websocket_backend_queues_until_suspended_and_reconnects_in_order() {
    let mut state = WebsocketInputState::new();
    let b = websocket_controller_info(2, "b", "x");
    let a = websocket_controller_info(1, "a", "x");
    state.handle_runtime_event(WebsocketRuntimeEvent::Connected(b.clone()));
    state.handle_runtime_event(WebsocketRuntimeEvent::Connected(a.clone()));
    let control = SourcedInputEvent::new(a.id.clone(), RoutedInputEvent::Control(ControlState::default()));
    state.handle_runtime_event(WebsocketRuntimeEvent::Input(control.clone()));

    assert_eq!(
        state.take_lifecycle_events(),
        vec![ControllerLifecycleEvent::Connected(b.clone()), ControllerLifecycleEvent::Connected(a.clone())]
    );
    assert_eq!(state.pop_input(), Some(control.clone()));
    assert_eq!(state.pop_input(), None);

    state.suspend();
    state.handle_runtime_event(WebsocketRuntimeEvent::Input(control));
    assert_eq!(state.pop_input(), None);
    assert!(state.take_lifecycle_events().is_empty());

    state.resume();
    assert_eq!(
        state.take_lifecycle_events(),
        vec![ControllerLifecycleEvent::Connected(a), ControllerLifecycleEvent::Connected(b)]
    );
}

#[test]
fn loopback_transport_answers_through_the_scaffold() {
    let mut transport = LoopbackPicoTransport::new(SerialConfig::default_config());
    assert_eq!(transport.device_path(), "/dev/ttyACM0");

    let replies = transport.send_control(ControlMessage::new(
        3,
        DesiredStateCommand::new(
            Mode::Teleop,
            DriveCommand { left: PwmTicks(100), right: PwmTicks(100) },
            ServoCommand { pan: ServoTicks(0), tilt: ServoTicks(0) },
        ),
    ));
    assert_eq!(replies.len(), 1);
    assert!(matches!(replies[0], ControllerMessage::Report(report) if matches!(report.payload, ReportPayload::ControlApplied(applied) if applied.generation == 3)));

    let first = transport.send_request(RequestPayload::GetControllerStatus);
    let second = transport.send_request(RequestPayload::GetControllerStatus);
    match (&first[0], &second[0]) {
        (ControllerMessage::Response(a), ControllerMessage::Response(b)) => {
            assert_eq!(a.request_id.0, 1);
            assert_eq!(b.request_id.0, 2);
        }
        other => panic!("unexpected replies: {other:?}"),
    }
    assert!(transport.drain_messages().is_empty());
    assert_eq!(transport.status().mode, Mode::Teleop);
}

#[test]
fn discovery_skips_build_and_vcs_directories() {
    assert!(is_skipped_dir(".git"));
    assert!(is_skipped_dir("target"));
    assert!(!is_skipped_dir("src"));
    assert_eq!(slash_separated("docs\\guide.md"), "docs/guide.md");
}

#[test]
fn input_backend_defaults_to_console() {
    assert_eq!(InputBackendKind::default(), InputBackendKind::Tui);
}

#[test]
fn test_options_override_the_file_config() {
    let Command::Test(command) = Cli::parse_args(&[
        "mortimmy-pi-daemon",
        "test",
        "--serial-device",
        "/dev/ttyUSB3",
        "--reconnect-interval-ms",
        "900",
    ])
    .unwrap()
    .command
    else {
        panic!("expected test command");
    };
    let merged = command.options.merge_config(AppConfig::default());
    assert_eq!(merged.serial.device_paths, vec!["/dev/ttyUSB3"]);
    assert_eq!(merged.session.reconnect_interval_ms, 900);
    assert_eq!(merged.session.response_timeout_ms, AppConfig::default().session.response_timeout_ms);
}

#[test]
fn parses_command_messages_into_brain_commands() {
    let message: serde_json::Value =
        serde_json::from_str(r#"{"type":"command","command":"autonomous"}"#).unwrap();
    assert_eq!(message["type"].as_str(), Some("command"));
    let command = parse_websocket_command(message["command"].as_str().unwrap()).unwrap();

    assert_eq!(brain_command(command), BrainCommand::SetMode(Mode::Autonomous));
}

#[test]
fn websocket_command_words_are_kebab_case_names() {
    assert_eq!(parse_websocket_command("quit"), Some(WebsocketCommand::Quit));
    assert_eq!(parse_websocket_command("stop"), Some(WebsocketCommand::Stop));
    assert_eq!(parse_websocket_command("teleop"), Some(WebsocketCommand::Teleop));
    assert_eq!(parse_websocket_command("fault"), Some(WebsocketCommand::Fault));
    assert_eq!(parse_websocket_command("Autonomous"), None);
    assert_eq!(parse_websocket_command("ping"), None);
}

#[test]
fn cursor_reports_utf8_byte_offsets() {
    let mut model = Model::new(LogLevel::Info, false, SummaryStatus::new());
    update(&mut model, Message::InsertChar('é'));
    assert_eq!(model.cursor(), 2);
    update(&mut model, Message::InsertChar('a'));
    assert_eq!(model.command_input(), "éa");
    assert_eq!(model.cursor(), 3);

    model.set_command_input("éa", 2);
    update(&mut model, Message::InsertChar('x'));
    assert_eq!(model.command_input(), "éxa");
    assert_eq!(model.cursor(), 3);
    update(&mut model, Message::MoveCursorEnd);
    assert_eq!(model.cursor(), "éxa".len());
}
