use mortimmy::host::audio::AudioBackendKind;
use mortimmy::host::cli::{Cli, CliError, Command};
use mortimmy::host::config::CameraBackendKind;
use mortimmy::host::input::InputBackendKind;
use mortimmy::host::logging::LogLevel;
use mortimmy::host::test_plan::TestTarget;
use mortimmy::host::transport::TransportBackendKind;

fn parse(args: &[&str]) -> Result<Cli, CliError> {
    Cli::parse_args(args)
}

#[test]
fn defaults_test_target_to_all() {
    let cli = parse(&["mortimmy-pi-daemon", "test"]).unwrap();

    let Command::Test(command) = cli.command else {
        panic!("expected test command");
    };

    assert_eq!(command.selected_target(), TestTarget::All);
}

#[test]
fn parses_drive_test_subcommand() {
    let cli = parse(&["mortimmy-pi-daemon", "test", "drive"]).unwrap();

    let Command::Test(command) = cli.command else {
        panic!("expected test command");
    };

    assert_eq!(command.selected_target(), TestTarget::Drive);
}

#[test]
fn test_options_have_their_defaults() {
    let Command::Test(command) = parse(&["mortimmy-pi-daemon", "test"]).unwrap().command else {
        panic!("expected test command");
    };
    let options = command.options;
    assert_eq!(options.config, None);
    assert_eq!(options.transport_backend, TransportBackendKind::Serial);
    assert!(options.serial_device.is_empty());
    assert_eq!(options.connect_timeout_ms, 15_000);
    assert_eq!(options.step_duration_ms, 600);
    assert_eq!(options.drive_speed, 700);
    assert_eq!(options.motion_duration_ms, 1_500);
    assert_eq!(options.pause_duration_ms, 750);
    assert_eq!(options.servo_hold_ms, 900);
    assert_eq!(options.servo_step_ticks, 24);
    assert_eq!(options.sensor_listen_ms, 3_000);
    assert_eq!(options.report_interval_ms, 250);
    assert_eq!(options.audio_duration_ms, 500);
}

#[test]
fn test_options_come_before_or_after_the_target() {
    let Command::Test(command) = parse(&[
        "mortimmy-pi-daemon",
        "test",
        "--drive-speed=450",
        "servo",
        "--transport-backend",
        "loopback",
        "--serial-device",
        "/dev/ttyACM0",
        "--serial-device=/dev/ttyACM1",
    ])
    .unwrap()
    .command
    else {
        panic!("expected test command");
    };
    assert_eq!(command.selected_target(), TestTarget::Servo);
    assert_eq!(command.options.drive_speed, 450);
    assert_eq!(command.options.transport_backend, TransportBackendKind::Loopback);
    assert_eq!(command.options.serial_device, vec!["/dev/ttyACM0", "/dev/ttyACM1"]);
}

#[test]
fn config_options_fill_the_config_command() {
    let Command::Config(command) = parse(&[
        "mortimmy-pi-daemon",
        "config",
        "--audio-enabled",
        "--camera-enabled=off",
        "--audio-backend",
        "firmware-bridge",
        "--camera-backend=nokhwa",
        "--log-level",
        "warn",
        "--audio-channels",
        "2",
        "--print",
    ])
    .unwrap()
    .command
    else {
        panic!("expected config command");
    };
    assert_eq!(command.audio_enabled, Some(true));
    assert_eq!(command.camera_enabled, Some(false));
    assert_eq!(command.audio_backend, Some(AudioBackendKind::FirmwareBridge));
    assert_eq!(command.camera_backend, Some(CameraBackendKind::Nokhwa));
    assert_eq!(command.log_level, Some(LogLevel::Warn));
    assert_eq!(command.audio_channels, Some(2));
    assert!(command.print);
    assert_eq!(command.no_color, None);
    assert_eq!(command.serial_baud_rate, None);
}

#[test]
fn ping_takes_its_options() {
    let Command::Ping(command) =
        parse(&["mortimmy-pi-daemon", "ping", "--serial-baud-rate", "230400", "--response-timeout-ms=+90"])
            .unwrap()
            .command
    else {
        panic!("expected ping command");
    };
    assert_eq!(command.serial_baud_rate, Some(230_400));
    assert_eq!(command.response_timeout_ms, Some(90));
    assert_eq!(command.transport_backend, TransportBackendKind::Serial);
}

#[test]
fn command_line_refusals_name_the_argument() {
    assert_eq!(parse(&["mortimmy-pi-daemon"]).unwrap_err(), CliError::MissingSubcommand);
    assert_eq!(parse(&["mortimmy-pi-daemon", "--help"]).unwrap_err(), CliError::HelpRequested);
    assert_eq!(parse(&["mortimmy-pi-daemon", "fly"]).unwrap_err(), CliError::UnknownSubcommand("fly".to_string()));
    assert_eq!(parse(&["mortimmy-pi-daemon", "test", "dance"]).unwrap_err(), CliError::UnknownSubcommand("dance".to_string()));
    assert_eq!(
        parse(&["mortimmy-pi-daemon", "ping", "--print"]).unwrap_err(),
        CliError::UnknownArgument("--print".to_string())
    );
    assert_eq!(
        parse(&["mortimmy-pi-daemon", "test", "--drive-speed", "70000"]).unwrap_err(),
        CliError::InvalidValue("drive-speed".to_string(), "70000".to_string())
    );
    assert_eq!(
        parse(&["mortimmy-pi-daemon", "test", "--drive-speed"]).unwrap_err(),
        CliError::MissingValue("drive-speed".to_string())
    );
    assert_eq!(
        parse(&["mortimmy-pi-daemon", "test", "--drive-speed", "--step-duration-ms=5"]).unwrap_err(),
        CliError::MissingValue("drive-speed".to_string())
    );
    assert_eq!(
        parse(&["mortimmy-pi-daemon", "test", "--drive-speed=1", "--drive-speed=2"]).unwrap_err(),
        CliError::RepeatedArgument("drive-speed".to_string())
    );
    assert_eq!(
        parse(&["mortimmy-pi-daemon", "test", "drive", "servo"]).unwrap_err(),
        CliError::UnexpectedArgument("servo".to_string())
    );
    assert_eq!(
        parse(&["mortimmy-pi-daemon", "config", "--no-color=maybe"]).unwrap_err(),
        CliError::InvalidValue("no-color".to_string(), "maybe".to_string())
    );
    assert_eq!(
        parse(&["mortimmy-pi-daemon", "config", "--print=yes"]).unwrap_err(),
        CliError::InvalidValue("print".to_string(), "yes".to_string())
    );
    assert_eq!(parse(&["mortimmy-pi-daemon", "test", "-x"]).unwrap_err(), CliError::UnknownArgument("-x".to_string()));
}

#[test]
fn start_reads_backends_and_controller_lock() {
    let cli = parse(&[
        "mortimmy-pi-daemon",
        "start",
        "--transport-backend",
        "loopback",
        "--input-backend=tui",
        "--controller-lock",
        "websocket:client-a",
        "--reconnect-interval-ms",
        "500",
    ])
    .unwrap();
    let Command::Start(command) = cli.command else {
        panic!("expected start");
    };
    assert_eq!(command.transport_backend, TransportBackendKind::Loopback);
    assert_eq!(command.input_backend, InputBackendKind::Tui);
    let lock = command.controller_lock.unwrap();
    assert_eq!(lock.to_text(), "websocket:client-a");
    assert_eq!(command.reconnect_interval_ms, Some(500));
    assert!(command.config.is_none());
}

#[test]
fn start_refuses_bad_controller_lock_and_input_backend() {
    assert!(matches!(
        parse(&["mortimmy-pi-daemon", "start", "--controller-lock", "keyboard"]),
        Err(CliError::InvalidValue(_, _))
    ));
    assert!(matches!(
        parse(&["mortimmy-pi-daemon", "start", "--input-backend", "joystick"]),
        Err(CliError::InvalidValue(_, _))
    ));
    let Command::Start(command) = parse(&["mortimmy-pi-daemon", "start"]).unwrap().command else {
        panic!("expected start");
    };
    assert_eq!(command.transport_backend, TransportBackendKind::Serial);
    assert!(command.controller_lock.is_none());
}
