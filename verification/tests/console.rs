use mortimmy::host::audio::{AudioBackendKind, AudioConfig, AudioPlanError, AudioSubsystem};
use mortimmy::host::brain::BrainCommand;
use mortimmy::host::config::{CameraBackendKind, CameraConfig, CameraSubsystem, SerialConfig};
use mortimmy::host::input::{ControlState, DriveIntent, InputEvent};
use mortimmy::host::logging::LogLevel;
use mortimmy::host::tui::commands::{help_text, parse, CommandAction, LocalCommand};
use mortimmy::host::tui::completion::{apply_suggestion, suggestions, Suggestion};
use mortimmy::host::tui::files::{render_expanded, FileIndex, ResolvedFileReference, WorkspaceFile};
use mortimmy::host::tui::model::{KeyboardDriveState, KeyboardDriveStyle};
use mortimmy::host::ui::{format_log_entry, rendered_log_lines, wrap_line, UiLogEntry};
use mortimmy::protocol::Command;
use mortimmy::samples::AUDIO_CHUNK_CAPACITY_SAMPLES;
use mortimmy::units::Mode;

fn enabled_audio() -> AudioSubsystem {
    let mut config = AudioConfig::default();
    config.enabled = true;
    config.backend = AudioBackendKind::FirmwareBridge;
    AudioSubsystem::from_config(config)
}

fn file(relative: &str) -> WorkspaceFile {
    let name = relative.rsplit('/').next().unwrap().to_string();
    WorkspaceFile {
        absolute_path: format!("/work/{relative}"),
        relative_path: relative.to_string(),
        file_name: name,
    }
}

fn find(list: Vec<Suggestion>, label: &str) -> Suggestion {
    list.into_iter().find(|suggestion| suggestion.label == label).unwrap()
}

#[test]
fn disabled_audio_routes_to_disabled() {
    let subsystem = AudioSubsystem::from_config(AudioConfig::default());
    assert_eq!(subsystem.route_name(), "disabled");
}

#[test]
fn enabled_audio_uses_firmware_bridge() {
    let subsystem = enabled_audio();

    assert_eq!(subsystem.route_name(), "firmware-bridge");
    assert_eq!(subsystem.plan_waveform(1_000).chunk_count, 5);
}

#[test]
fn default_chunk_size_matches_protocol_capacity() {
    assert_eq!(AudioConfig::default().chunk_samples, AUDIO_CHUNK_CAPACITY_SAMPLES);
}

#[test]
fn chunks_waveform_into_protocol_audio_commands() {
    let subsystem = enabled_audio();
    let waveform = vec![7i16; AUDIO_CHUNK_CAPACITY_SAMPLES * 2 + 12];

    let commands = subsystem.build_audio_commands(11, &waveform).unwrap();

    assert_eq!(commands.len(), 3);
    assert!(matches!(commands[0], Command::PlayAudio(_)));
    match &commands[2] {
        Command::PlayAudio(command) => {
            assert_eq!(command.chunk_index, 2);
            assert!(command.is_final_chunk);
            assert_eq!(command.samples.len(), 12);
        }
        other => panic!("unexpected command: {other:?}"),
    }
}

#[test]
fn disabled_audio_rejects_protocol_chunking() {
    let subsystem = AudioSubsystem::from_config(AudioConfig::default());

    assert_eq!(subsystem.build_audio_commands(1, &[1, 2, 3]), Err(AudioPlanError::Disabled));
}

#[test]
fn audio_chunks_carry_samples_in_order() {
    let subsystem = enabled_audio();
    let waveform: Vec<i16> = (0..300).map(|v| v as i16).collect();

    let commands = subsystem.build_audio_commands(3, &waveform).unwrap();

    assert_eq!(commands.len(), 2);
    match (&commands[0], &commands[1]) {
        (Command::PlayAudio(first), Command::PlayAudio(second)) => {
            assert_eq!(first.utterance_id, 3);
            assert_eq!(first.chunk_index, 0);
            assert!(!first.is_final_chunk);
            assert_eq!(first.samples.len(), 240);
            assert_eq!(first.samples[10], 10);
            assert_eq!(second.samples[0], 240);
            assert_eq!(second.samples.len(), 60);
            assert!(second.is_final_chunk);
        }
        other => panic!("unexpected commands: {other:?}"),
    }
}

#[test]
fn empty_waveform_plans_no_chunks() {
    let subsystem = enabled_audio();
    assert_eq!(subsystem.plan_waveform(0).chunk_count, 0);
    assert_eq!(subsystem.plan_waveform(240).chunk_count, 1);
    assert_eq!(subsystem.plan_waveform(241).chunk_count, 2);
}

#[test]
fn disabled_camera_stays_disabled() {
    let subsystem = CameraSubsystem::from_config(CameraConfig::default());
    assert_eq!(subsystem.active_backend_name(), "disabled");
}

#[test]
fn nokhwa_without_feature_is_reported() {
    let mut config = CameraConfig::default();
    config.enabled = true;
    config.backend = CameraBackendKind::Nokhwa;
    let subsystem = CameraSubsystem::from_config(config);

    assert_eq!(subsystem.active_backend_name(), "nokhwa-unavailable");
}

#[test]
fn serial_config_supports_multiple_device_paths() {
    let config = SerialConfig {
        device_paths: vec!["/dev/ttyUSB0".to_string(), "/dev/ttyUSB1".to_string()],
        baud_rate: 230_400,
    };

    assert_eq!(config.configured_device_paths(), vec!["/dev/ttyUSB0", "/dev/ttyUSB1"]);
    assert_eq!(config.display_paths(), "/dev/ttyUSB0, /dev/ttyUSB1");
    assert_eq!(
        config
            .split_by_device()
            .into_iter()
            .map(|config| config.primary_device_path().to_string())
            .collect::<Vec<_>>(),
        vec!["/dev/ttyUSB0", "/dev/ttyUSB1"]
    );
}

#[test]
fn suggests_slash_commands_from_first_token() {
    let suggestions = suggestions("/he", 3, &FileIndex::default());
    assert!(suggestions.iter().any(|suggestion| suggestion.label == "/help"));
}

#[test]
fn suggests_help_topics_and_mode_values() {
    let file_index = FileIndex::default();

    let help_suggestions = suggestions("/help mo", 8, &file_index);
    assert!(help_suggestions.iter().any(|suggestion| suggestion.label == "/mode"));

    let mode_suggestions = suggestions("/mode au", 8, &file_index);
    assert!(mode_suggestions.iter().any(|suggestion| suggestion.label == "autonomous"));
}

#[test]
fn applies_smart_trailing_space_for_contextual_completions() {
    let file_index = FileIndex::default();

    let command_suggestion = find(suggestions("/mo", 3, &file_index), "/mode");
    let mut input = "/mo".to_string();
    let mut cursor = input.len();
    apply_suggestion(&mut input, &mut cursor, &command_suggestion);
    assert_eq!(input, "/mode ");
    assert_eq!(cursor, input.len());

    let help_topic_suggestion = find(suggestions("/help mo", 8, &file_index), "/mode");
    let mut input = "/help mo".to_string();
    let mut cursor = input.len();
    apply_suggestion(&mut input, &mut cursor, &help_topic_suggestion);
    assert_eq!(input, "/help mode");
    assert_eq!(cursor, input.len());

    let mode_value_suggestion = find(suggestions("/mode au", 8, &file_index), "autonomous");
    let mut input = "/mode au".to_string();
    let mut cursor = input.len();
    apply_suggestion(&mut input, &mut cursor, &mode_value_suggestion);
    assert_eq!(input, "/mode autonomous");
    assert_eq!(cursor, input.len());

    let drive_command_suggestion = find(suggestions("/dr", 3, &file_index), "/drive");
    let mut input = "/dr".to_string();
    let mut cursor = input.len();
    apply_suggestion(&mut input, &mut cursor, &drive_command_suggestion);
    assert_eq!(input, "/drive ");
    assert_eq!(cursor, input.len());
}

#[test]
fn applies_file_completion_to_current_token() {
    let index = FileIndex::from_files(vec![file("docs/guide.md")]);
    let suggestion = suggestions("/chat explain @gui", 18, &index).into_iter().next().unwrap();

    let mut input = "/chat explain @gui".to_string();
    let mut cursor = input.len();
    apply_suggestion(&mut input, &mut cursor, &suggestion);

    assert_eq!(input, "/chat explain @docs/guide.md ");
    assert_eq!(cursor, input.len());
}

#[test]
fn suggests_files_by_prefix_or_filename() {
    let index = FileIndex::from_files(vec![file("src/main.rs"), file("README.md")]);

    let readme = index.suggest("READ");
    assert_eq!(readme[0].relative_path, "README.md");

    let main_rs = index.suggest("main");
    assert_eq!(main_rs[0].relative_path, "src/main.rs");
}

#[test]
fn expands_chat_file_references_into_prompt_text() {
    let index = FileIndex::from_files(vec![file("README.md"), file("docs/guide.md")]);
    let input = "summarize @README.md and @docs/guide.md";

    let planned = index.plan_references(input).unwrap();
    assert_eq!(planned.len(), 2);
    let references: Vec<ResolvedFileReference> = planned
        .into_iter()
        .map(|file| {
            let contents = if file.relative_path == "README.md" { "hello world\n" } else { "guide body\n" };
            ResolvedFileReference {
                absolute_path: file.absolute_path,
                relative_path: file.relative_path,
                content: contents.to_string(),
            }
        })
        .collect();
    let expanded = render_expanded(input, &references);

    assert!(expanded.text.contains("summarize README.md and docs/guide.md"));
    assert!(expanded.text.contains("[file:README.md]"));
    assert!(expanded.text.contains("hello world"));
    assert!(expanded.text.contains("[file:docs/guide.md]"));
    assert_eq!(expanded.references.len(), 2);
}

#[test]
fn unknown_file_reference_is_an_error() {
    let index = FileIndex::from_files(vec![file("README.md")]);
    assert!(index.plan_references("look at @missing.txt").is_err());
}

#[test]
fn parses_help_into_local_action() {
    assert_eq!(parse("/help").unwrap(), CommandAction::Local(LocalCommand::Help(None)));
    assert_eq!(
        parse("/help mode").unwrap(),
        CommandAction::Local(LocalCommand::Help(Some("mode".to_string())))
    );
    match parse("hello mortimmy").unwrap() {
        CommandAction::Chat(prompt) => assert_eq!(prompt, "hello mortimmy"),
        other => panic!("unexpected parse result: {other:?}"),
    }
    assert!(help_text(None).contains("/chat <prompt with optional @file references>"));
    assert!(help_text(Some("mode")).contains("Command: /mode"));
    assert!(help_text(Some("mode")).contains("/mode <teleop|autonomous|fault>"));
}

#[test]
fn parses_mode_drive_and_servo_commands() {
    assert_eq!(
        parse("/mode teleop").unwrap(),
        CommandAction::Emit(InputEvent::Command(BrainCommand::SetMode(Mode::Teleop)))
    );
    assert_eq!(
        parse("/servo 12 18").unwrap(),
        CommandAction::Emit(InputEvent::Command(BrainCommand::Servo { pan: 12, tilt: 18 }))
    );
    assert_eq!(
        parse("/drive forward 450").unwrap(),
        CommandAction::Emit(InputEvent::Control(ControlState {
            drive: Some(DriveIntent { forward: DriveIntent::AXIS_MAX, turn: 0, speed: 450 }),
        }))
    );
}

#[test]
fn parses_chat_and_expands_file_references() {
    match parse("/chat explain @README.md").unwrap() {
        CommandAction::Chat(prompt) => {
            assert_eq!(prompt, "explain @README.md");
            let index = FileIndex::from_files(vec![file("README.md")]);
            let planned = index.plan_references(&prompt).unwrap();
            let references: Vec<ResolvedFileReference> = planned
                .into_iter()
                .map(|file| ResolvedFileReference {
                    absolute_path: file.absolute_path,
                    relative_path: file.relative_path,
                    content: "hello world\n".to_string(),
                })
                .collect();
            let expanded = render_expanded(&prompt, &references);
            assert!(expanded.text.contains("explain README.md"));
            assert!(expanded.text.contains("hello world"));
        }
        other => panic!("unexpected parse result: {other:?}"),
    }
}

#[test]
fn unknown_command_is_rejected() {
    assert!(parse("/launch").is_err());
    assert!(parse("/servo 12").is_err());
}

#[test]
fn arcade_keyboard_drive_maps_wasd_to_control_state() {
    let mut state = KeyboardDriveState::default();
    assert!(state.apply_key_down('w'));
    assert_eq!(state.control_state().drive.unwrap().forward, 1_000);
    assert_eq!(state.control_state().drive.unwrap().turn, 0);

    assert!(state.apply_key_down('a'));
    assert_eq!(state.control_state().drive.unwrap().forward, 1_000);
    assert_eq!(state.control_state().drive.unwrap().turn, -1_000);

    assert!(state.apply_key_up('a'));
    assert_eq!(state.control_state().drive.unwrap().forward, 1_000);
    assert_eq!(state.control_state().drive.unwrap().turn, 0);

    assert!(state.apply_key_up('w'));
    assert_eq!(state.control_state().drive, None);

    assert!(!state.apply_key_down(' '));
    assert_eq!(state.control_state().drive, None);
}

#[test]
fn tank_keyboard_drive_combines_left_and_right_tracks() {
    let mut state = KeyboardDriveState { style: KeyboardDriveStyle::Tank, ..KeyboardDriveState::default() };

    assert!(state.apply_key_down('w'));
    assert_eq!(state.control_state().drive.unwrap().forward, 500);
    assert_eq!(state.control_state().drive.unwrap().turn, -500);

    assert!(state.apply_key_down('e'));
    assert_eq!(state.control_state().drive.unwrap().forward, 1_000);
    assert_eq!(state.control_state().drive.unwrap().turn, 0);

    assert!(state.apply_key_down('d'));
    assert_eq!(state.control_state().drive.unwrap().forward, 500);
    assert_eq!(state.control_state().drive.unwrap().turn, -500);

    assert!(state.apply_key_up('d'));
    assert_eq!(state.control_state().drive.unwrap().forward, 1_000);
    assert_eq!(state.control_state().drive.unwrap().turn, 0);
}

#[test]
fn toggling_keyboard_drive_style_resets_motion() {
    let mut state = KeyboardDriveState::default();
    state.apply_key_down('w');

    state.toggle_style();

    assert_eq!(state.style, KeyboardDriveStyle::Tank);
    assert_eq!(state.control_state().drive, None);
}

#[test]
fn wraps_long_log_entries_over_multiple_lines() {
    let entry = UiLogEntry {
        level: LogLevel::Info,
        message: "telemetry desired-state: DesiredState(DesiredStateTelemetry { mode: Teleop, drive: MotorStateTelemetry { left: PwmTicks(300), right: PwmTicks(0) }, servo: ServoStateTelemetry { pan: ServoTicks(0), tilt: ServoTicks(0) }, error: None })".to_string(),
        repeats: 1,
    };

    let wrapped = wrap_line(&format_log_entry(&entry), 32);

    assert!(wrapped.len() > 1);
    assert!(wrapped.iter().all(|line| line.chars().count() <= 32));
    assert_eq!(wrapped.concat(), format_log_entry(&entry));
}

#[test]
fn rendered_log_lines_keep_newest_complete_entries() {
    let logs = vec![
        UiLogEntry { level: LogLevel::Info, message: "older entry".to_string(), repeats: 1 },
        UiLogEntry {
            level: LogLevel::Warn,
            message: "newest entry that wraps across multiple display rows".to_string(),
            repeats: 1,
        },
    ];

    let rendered = rendered_log_lines(&logs, 20, 3);
    let newest_entry = format_log_entry(logs.last().unwrap());
    let expected_prefix: String = newest_entry.chars().take(60).collect();

    assert_eq!(rendered.len(), 3);
    assert!(rendered.iter().all(|line| line.chars().count() <= 20));
    assert!(!rendered.iter().any(|line| line.contains("older entry")));
    assert_eq!(rendered.concat(), expected_prefix);
}

#[test]
fn file_index_and_suggestions_come_in_path_order() {
    let index = FileIndex::from_files(vec![file("src/main.rs"), file("README.md"), file("docs/guide.md"), file("src/lib.rs")]);
    let all: Vec<String> = index.suggest("").into_iter().map(|f| f.relative_path).collect();
    assert_eq!(all, vec!["README.md", "docs/guide.md", "src/lib.rs", "src/main.rs"]);
    let src: Vec<String> = index.suggest("src/").into_iter().map(|f| f.relative_path).collect();
    assert_eq!(src, vec!["src/lib.rs", "src/main.rs"]);
}

#[test]
fn applies_suggestion_at_byte_offsets() {
    let suggestion = Suggestion {
        label: "x".to_string(),
        detail: String::new(),
        replacement: "x".to_string(),
        append_space: false,
        start: 2,
        end: 2,
    };
    let mut input = "éa".to_string();
    let mut cursor = 0;
    apply_suggestion(&mut input, &mut cursor, &suggestion);

    assert_eq!(input, "éxa");
    assert_eq!(cursor, 3);
}

#[test]
fn file_suggestions_count_bytes_after_multibyte_text() {
    let index = FileIndex::from_files(vec![file("docs/guide.md")]);
    let input = "/chat é @gui";
    let found = suggestions(input, input.len(), &index);

    assert_eq!(found.len(), 1);
    assert_eq!(found[0].replacement, "@docs/guide.md");
    assert_eq!(found[0].start, "/chat é ".len());
    assert_eq!(found[0].end, input.len());

    let mut edited = input.to_string();
    let mut cursor = edited.len();
    apply_suggestion(&mut edited, &mut cursor, &found[0]);
    assert_eq!(edited, "/chat é @docs/guide.md ");
    assert_eq!(cursor, edited.len());
}

#[test]
fn file_completion_trims_every_leading_at_sign() {
    let index = FileIndex::from_files(vec![file("src/main.rs"), file("README.md")]);
    let found = suggestions("/chat @@src", 11, &index);

    assert_eq!(found.len(), 1);
    assert_eq!(found[0].replacement, "@src/main.rs");
    assert_eq!(found[0].start, 6);
    assert_eq!(found[0].end, 11);
}
