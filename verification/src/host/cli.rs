//! The command line: `ping`, `start`, `config` and `test`, each with its long options.
//!
//! After the program name comes the subcommand, then long options and (for
//! `test`) the target, in any order. An option's value follows `=` or comes
//! as the next argument; `--audio-enabled`, `--camera-enabled` and
//! `--no-color` take a value only after `=` and mean `true` alone; `--print`
//! takes none. Every option may be given once, except `--serial-device`,
//! which collects its values. Numbers are unsigned decimals (an optional
//! `+`, then digits) within the option's type; booleans read `y`, `yes`,
//! `t`, `true`, `on`, `1` or `n`, `no`, `f`, `false`, `off`, `0` in any case.
//! `--input-backend` reads `tui` and `--controller-lock` a `kind:instance`
//! controller id. `--help`, `-h` and `help` ask for the usage text.

use vstd::prelude::*;

use crate::host::audio::AudioBackendKind;
use crate::host::config::{clone_strings, spec_or, spec_views, AppConfig, CameraBackendKind, ConfigCommand, PingCommand, SessionConfig};
use crate::host::input::{spec_parse_controller_id, ControllerId, ControllerKind, ControllerParseError, InputBackendKind};
use crate::host::logging::LogLevel;
use crate::host::test_plan::{selected_target, TestTarget};
use crate::host::transport::TransportBackendKind;
use crate::text::{chars_eq, parse_unsigned, spec_lowercase, spec_parse_int, str_to_chars, chars_to_string, lowercase_chars};

verus! {

/// Why a command line was refused.
#[derive(Clone, Debug, PartialEq, Eq)]
pub enum CliError {
    /// The usage text was asked for.
    HelpRequested,
    /// No subcommand was given.
    MissingSubcommand,
    /// The subcommand (or test target) is not one of the known ones.
    UnknownSubcommand(String),
    /// An option the subcommand does not have.
    UnknownArgument(String),
    /// An option given twice.
    RepeatedArgument(String),
    /// An option that needs a value was given none.
    MissingValue(String),
    /// An option's value does not read as its type: the option, the value.
    InvalidValue(String, String),
    /// A positional argument where none is expected.
    UnexpectedArgument(String),
}

/// A refusal with its text taken as characters.
pub enum CliErrorView {
    HelpRequested,
    MissingSubcommand,
    UnknownSubcommand(Seq<char>),
    UnknownArgument(Seq<char>),
    RepeatedArgument(Seq<char>),
    MissingValue(Seq<char>),
    InvalidValue(Seq<char>, Seq<char>),
    UnexpectedArgument(Seq<char>),
}

impl View for CliError {
    type V = CliErrorView;

    open spec fn view(&self) -> CliErrorView {
        match self {
            CliError::HelpRequested => CliErrorView::HelpRequested,
            CliError::MissingSubcommand => CliErrorView::MissingSubcommand,
            CliError::UnknownSubcommand(s) => CliErrorView::UnknownSubcommand(s@),
            CliError::UnknownArgument(s) => CliErrorView::UnknownArgument(s@),
            CliError::RepeatedArgument(s) => CliErrorView::RepeatedArgument(s@),
            CliError::MissingValue(s) => CliErrorView::MissingValue(s@),
            CliError::InvalidValue(n, v) => CliErrorView::InvalidValue(n@, v@),
            CliError::UnexpectedArgument(s) => CliErrorView::UnexpectedArgument(s@),
        }
    }
}

/// The subcommands.
#[derive(Clone, Copy, Debug, PartialEq, Eq, Structural)]
pub enum Subcommand {
    Ping,
    Start,
    Config,
    Test,
}

/// Every long option of every subcommand.
#[derive(Clone, Copy, Debug, PartialEq, Eq, Structural)]
pub enum OptionName {
    ConfigPath,
    TransportBackend,
    SerialDevice,
    SerialBaudRate,
    ResponseTimeoutMs,
    ReconnectIntervalMs,
    ConnectTimeoutMs,
    StepDurationMs,
    DriveSpeed,
    MotionDurationMs,
    PauseDurationMs,
    ServoHoldMs,
    ServoStepTicks,
    SensorListenMs,
    ReportIntervalMs,
    AudioDurationMs,
    WebsocketBind,
    TelemetryPublishIntervalMs,
    TelemetryQueueCapacity,
    AudioEnabled,
    AudioBackend,
    AudioSampleRateHz,
    AudioChannels,
    AudioChunkSamples,
    AudioVolumePercent,
    CameraEnabled,
    CameraBackend,
    CameraDeviceIndex,
    CameraWidth,
    CameraHeight,
    CameraFps,
    Level,
    NoColor,
    Print,
    InputBackend,
    ControllerLock,
}

/// What an option's value reads as.
#[derive(Clone, Copy, Debug, PartialEq, Eq, Structural)]
pub enum ValueKind {
    /// Any text.
    Text,
    /// A non-empty path.
    Path,
    /// An unsigned decimal of at most this.
    Unsigned(u64),
    /// A boolean word, `true` when the option comes alone.
    Boolish,
    /// `loopback` or `serial`.
    Transport,
    /// `disabled` or `firmware-bridge`.
    Audio,
    /// `disabled` or `nokhwa`.
    Camera,
    /// `trace`, `debug`, `info`, `warn` or `error`.
    Level,
    /// No value.
    Flag,
    /// `tui`.
    Input,
    /// A `kind:instance` controller id.
    Controller,
}

/// The option a long name (after `--`, before any `=`) names.
pub open spec fn spec_option_named(name: Seq<char>) -> Option<OptionName> {
    if name == "config"@ { Some(OptionName::ConfigPath) }
    else if name == "transport-backend"@ { Some(OptionName::TransportBackend) }
    else if name == "serial-device"@ { Some(OptionName::SerialDevice) }
    else if name == "serial-baud-rate"@ { Some(OptionName::SerialBaudRate) }
    else if name == "response-timeout-ms"@ { Some(OptionName::ResponseTimeoutMs) }
    else if name == "reconnect-interval-ms"@ { Some(OptionName::ReconnectIntervalMs) }
    else if name == "connect-timeout-ms"@ { Some(OptionName::ConnectTimeoutMs) }
    else if name == "step-duration-ms"@ { Some(OptionName::StepDurationMs) }
    else if name == "drive-speed"@ { Some(OptionName::DriveSpeed) }
    else if name == "motion-duration-ms"@ { Some(OptionName::MotionDurationMs) }
    else if name == "pause-duration-ms"@ { Some(OptionName::PauseDurationMs) }
    else if name == "servo-hold-ms"@ { Some(OptionName::ServoHoldMs) }
    else if name == "servo-step-ticks"@ { Some(OptionName::ServoStepTicks) }
    else if name == "sensor-listen-ms"@ { Some(OptionName::SensorListenMs) }
    else if name == "report-interval-ms"@ { Some(OptionName::ReportIntervalMs) }
    else if name == "audio-duration-ms"@ { Some(OptionName::AudioDurationMs) }
    else if name == "websocket-bind"@ { Some(OptionName::WebsocketBind) }
    else if name == "telemetry-publish-interval-ms"@ { Some(OptionName::TelemetryPublishIntervalMs) }
    else if name == "telemetry-queue-capacity"@ { Some(OptionName::TelemetryQueueCapacity) }
    else if name == "audio-enabled"@ { Some(OptionName::AudioEnabled) }
    else if name == "audio-backend"@ { Some(OptionName::AudioBackend) }
    else if name == "audio-sample-rate-hz"@ { Some(OptionName::AudioSampleRateHz) }
    else if name == "audio-channels"@ { Some(OptionName::AudioChannels) }
    else if name == "audio-chunk-samples"@ { Some(OptionName::AudioChunkSamples) }
    else if name == "audio-volume-percent"@ { Some(OptionName::AudioVolumePercent) }
    else if name == "camera-enabled"@ { Some(OptionName::CameraEnabled) }
    else if name == "camera-backend"@ { Some(OptionName::CameraBackend) }
    else if name == "camera-device-index"@ { Some(OptionName::CameraDeviceIndex) }
    else if name == "camera-width"@ { Some(OptionName::CameraWidth) }
    else if name == "camera-height"@ { Some(OptionName::CameraHeight) }
    else if name == "camera-fps"@ { Some(OptionName::CameraFps) }
    else if name == "log-level"@ { Some(OptionName::Level) }
    else if name == "no-color"@ { Some(OptionName::NoColor) }
    else if name == "print"@ { Some(OptionName::Print) }
    else if name == "input-backend"@ { Some(OptionName::InputBackend) }
    else if name == "controller-lock"@ { Some(OptionName::ControllerLock) }
    else { None }
}

/// Whether a subcommand has an option.
pub open spec fn spec_accepts(sub: Subcommand, o: OptionName) -> bool {
    match sub {
        Subcommand::Ping => o == OptionName::ConfigPath || o == OptionName::TransportBackend || o == OptionName::SerialDevice
            || o == OptionName::SerialBaudRate || o == OptionName::ResponseTimeoutMs,
        Subcommand::Start => match o {
            OptionName::ConfigPath | OptionName::TransportBackend | OptionName::SerialDevice | OptionName::SerialBaudRate
            | OptionName::ResponseTimeoutMs | OptionName::ReconnectIntervalMs | OptionName::InputBackend
            | OptionName::ControllerLock => true,
            _ => false,
        },
        Subcommand::Test => match o {
            OptionName::ConfigPath | OptionName::TransportBackend | OptionName::SerialDevice | OptionName::SerialBaudRate
            | OptionName::ResponseTimeoutMs | OptionName::ReconnectIntervalMs | OptionName::ConnectTimeoutMs
            | OptionName::StepDurationMs | OptionName::DriveSpeed | OptionName::MotionDurationMs
            | OptionName::PauseDurationMs | OptionName::ServoHoldMs | OptionName::ServoStepTicks
            | OptionName::SensorListenMs | OptionName::ReportIntervalMs | OptionName::AudioDurationMs => true,
            _ => false,
        },
        Subcommand::Config => match o {
            OptionName::ConfigPath | OptionName::SerialDevice | OptionName::SerialBaudRate | OptionName::WebsocketBind
            | OptionName::TelemetryPublishIntervalMs | OptionName::TelemetryQueueCapacity | OptionName::AudioEnabled
            | OptionName::AudioBackend | OptionName::AudioSampleRateHz | OptionName::AudioChannels
            | OptionName::AudioChunkSamples | OptionName::AudioVolumePercent | OptionName::CameraEnabled
            | OptionName::CameraBackend | OptionName::CameraDeviceIndex | OptionName::CameraWidth
            | OptionName::CameraHeight | OptionName::CameraFps | OptionName::Level | OptionName::NoColor
            | OptionName::Print => true,
            _ => false,
        },
    }
}

/// The largest `u8`, `u16`, `u32` and `u64`.
pub const U8_MAX: u64 = 255;
pub const U16_MAX: u64 = 65_535;
pub const U32_MAX: u64 = 4_294_967_295;
pub const U64_MAX: u64 = 18_446_744_073_709_551_615;

/// What each option's value reads as.
pub open spec fn spec_kind(o: OptionName) -> ValueKind {
    match o {
        OptionName::ConfigPath => ValueKind::Path,
        OptionName::TransportBackend => ValueKind::Transport,
        OptionName::SerialDevice | OptionName::WebsocketBind => ValueKind::Text,
        OptionName::SerialBaudRate | OptionName::ReportIntervalMs | OptionName::AudioSampleRateHz
        | OptionName::CameraDeviceIndex | OptionName::CameraWidth | OptionName::CameraHeight
        | OptionName::CameraFps => ValueKind::Unsigned(U32_MAX),
        OptionName::DriveSpeed | OptionName::ServoStepTicks => ValueKind::Unsigned(U16_MAX),
        OptionName::AudioChannels | OptionName::AudioVolumePercent => ValueKind::Unsigned(U8_MAX),
        OptionName::TelemetryQueueCapacity | OptionName::AudioChunkSamples => ValueKind::Unsigned(usize::MAX as u64),
        OptionName::AudioEnabled | OptionName::CameraEnabled | OptionName::NoColor => ValueKind::Boolish,
        OptionName::AudioBackend => ValueKind::Audio,
        OptionName::CameraBackend => ValueKind::Camera,
        OptionName::Level => ValueKind::Level,
        OptionName::Print => ValueKind::Flag,
        OptionName::InputBackend => ValueKind::Input,
        OptionName::ControllerLock => ValueKind::Controller,
        _ => ValueKind::Unsigned(U64_MAX),
    }
}

/// The boolean a word reads as.
pub open spec fn spec_boolish(v: Seq<char>) -> Option<bool> {
    let l = spec_lowercase(v);
    if l == "y"@ || l == "yes"@ || l == "t"@ || l == "true"@ || l == "on"@ || l == "1"@ {
        Some(true)
    } else if l == "n"@ || l == "no"@ || l == "f"@ || l == "false"@ || l == "off"@ || l == "0"@ {
        Some(false)
    } else {
        None
    }
}

/// The transport a word names.
pub open spec fn spec_transport_named(v: Seq<char>) -> Option<TransportBackendKind> {
    if v == "loopback"@ {
        Some(TransportBackendKind::Loopback)
    } else if v == "serial"@ {
        Some(TransportBackendKind::Serial)
    } else {
        None
    }
}

/// The audio backend a word names.
pub open spec fn spec_audio_named(v: Seq<char>) -> Option<AudioBackendKind> {
    if v == "disabled"@ {
        Some(AudioBackendKind::Disabled)
    } else if v == "firmware-bridge"@ {
        Some(AudioBackendKind::FirmwareBridge)
    } else {
        None
    }
}

/// The camera backend a word names.
pub open spec fn spec_camera_named(v: Seq<char>) -> Option<CameraBackendKind> {
    if v == "disabled"@ {
        Some(CameraBackendKind::Disabled)
    } else if v == "nokhwa"@ {
        Some(CameraBackendKind::Nokhwa)
    } else {
        None
    }
}

/// The log level a word names.
pub open spec fn spec_level_named(v: Seq<char>) -> Option<LogLevel> {
    if v == "trace"@ {
        Some(LogLevel::Trace)
    } else if v == "debug"@ {
        Some(LogLevel::Debug)
    } else if v == "info"@ {
        Some(LogLevel::Info)
    } else if v == "warn"@ {
        Some(LogLevel::Warn)
    } else if v == "error"@ {
        Some(LogLevel::Error)
    } else {
        None
    }
}

/// The test target a word names.
pub open spec fn spec_target_named(v: Seq<char>) -> Option<TestTarget> {
    if v == "all"@ {
        Some(TestTarget::All)
    } else if v == "status"@ {
        Some(TestTarget::Status)
    } else if v == "drive"@ {
        Some(TestTarget::Drive)
    } else if v == "servo"@ {
        Some(TestTarget::Servo)
    } else if v == "sensors"@ {
        Some(TestTarget::Sensors)
    } else if v == "audio"@ {
        Some(TestTarget::Audio)
    } else {
        None
    }
}

/// Whether a value reads as a kind.
pub open spec fn spec_valid_value(kind: ValueKind, v: Seq<char>) -> bool {
    match kind {
        ValueKind::Text => true,
        ValueKind::Path => v.len() > 0,
        ValueKind::Unsigned(max) => spec_parse_int(v, false, 0, max as int) is Ok,
        ValueKind::Boolish => spec_boolish(v) is Some,
        ValueKind::Transport => spec_transport_named(v) is Some,
        ValueKind::Audio => spec_audio_named(v) is Some,
        ValueKind::Camera => spec_camera_named(v) is Some,
        ValueKind::Level => spec_level_named(v) is Some,
        ValueKind::Flag => v.len() == 0,
        ValueKind::Input => v == "tui"@,
        ValueKind::Controller => spec_parse_controller_id(v) is Ok,
    }
}

/// Where the first `=` of `s` stands, or its length when it has none.
pub open spec fn spec_eq_pos(s: Seq<char>) -> int
    decreases s.len(),
{
    if s.len() == 0 {
        0
    } else if s[0] == '=' {
        0
    } else {
        1 + spec_eq_pos(s.drop_first())
    }
}

/// Whether an argument reads as an option rather than a value.
pub open spec fn spec_looks_like_option(t: Seq<char>) -> bool {
    t.len() >= 2 && t[0] == '-'
}

/// Whether an argument asks for the usage text.
pub open spec fn spec_is_help(t: Seq<char>) -> bool {
    t == "--help"@ || t == "-h"@
}

/// The options given so far (option, value) and the test target.
pub type Given = Seq<(OptionName, Seq<char>)>;

/// Whether an option was given.
pub open spec fn spec_given(given: Given, o: OptionName) -> bool {
    exists|k: int| 0 <= k < given.len() && (#[trigger] given[k]).0 == o
}

/// Read the arguments after the subcommand, left to right, into the options
/// given (appended to `given`) and the test target, or the first refusal.
pub open spec fn spec_scan(sub: Subcommand, toks: Seq<Seq<char>>, given: Given, target: Option<TestTarget>) -> Result<
    (Given, Option<TestTarget>),
    CliErrorView,
>
    decreases toks.len(),
{
    if toks.len() == 0 {
        Ok((given, target))
    } else {
        let t = toks[0];
        if spec_is_help(t) {
            Err(CliErrorView::HelpRequested)
        } else if t.len() >= 2 && t[0] == '-' && t[1] == '-' {
            let body = t.skip(2);
            let pos = spec_eq_pos(body);
            let name = body.take(pos);
            let inline: Option<Seq<char>> = if pos < body.len() { Some(body.skip(pos + 1)) } else { None };
            match spec_option_named(name) {
                None => Err(CliErrorView::UnknownArgument(t)),
                Some(o) => if !spec_accepts(sub, o) {
                    Err(CliErrorView::UnknownArgument(t))
                } else if spec_given(given, o) && o != OptionName::SerialDevice {
                    Err(CliErrorView::RepeatedArgument(name))
                } else {
                    let kind = spec_kind(o);
                    if kind == ValueKind::Flag {
                        match inline {
                            Some(v) => Err(CliErrorView::InvalidValue(name, v)),
                            None => spec_scan(sub, toks.drop_first(), given.push((o, Seq::<char>::empty())), target),
                        }
                    } else if kind == ValueKind::Boolish {
                        let v = match inline {
                            Some(v) => v,
                            None => "true"@,
                        };
                        if spec_valid_value(kind, v) {
                            spec_scan(sub, toks.drop_first(), given.push((o, v)), target)
                        } else {
                            Err(CliErrorView::InvalidValue(name, v))
                        }
                    } else {
                        match inline {
                            Some(v) => if spec_valid_value(kind, v) {
                                spec_scan(sub, toks.drop_first(), given.push((o, v)), target)
                            } else {
                                Err(CliErrorView::InvalidValue(name, v))
                            },
                            None => if toks.len() < 2 || spec_looks_like_option(toks[1]) {
                                Err(CliErrorView::MissingValue(name))
                            } else if spec_valid_value(kind, toks[1]) {
                                spec_scan(sub, toks.skip(2), given.push((o, toks[1])), target)
                            } else {
                                Err(CliErrorView::InvalidValue(name, toks[1]))
                            },
                        }
                    }
                },
            }
        } else if spec_looks_like_option(t) {
            Err(CliErrorView::UnknownArgument(t))
        } else if sub == Subcommand::Test && target is None {
            if t == "help"@ {
                Err(CliErrorView::HelpRequested)
            } else {
                match spec_target_named(t) {
                    Some(tt) => spec_scan(sub, toks.drop_first(), given, Some(tt)),
                    None => Err(CliErrorView::UnknownSubcommand(t)),
                }
            }
        } else {
            Err(CliErrorView::UnexpectedArgument(t))
        }
    }
}

/// The subcommand a word names.
pub open spec fn spec_subcommand_named(t: Seq<char>) -> Option<Subcommand> {
    if t == "ping"@ {
        Some(Subcommand::Ping)
    } else if t == "start"@ {
        Some(Subcommand::Start)
    } else if t == "config"@ {
        Some(Subcommand::Config)
    } else if t == "test"@ {
        Some(Subcommand::Test)
    } else {
        None
    }
}

/// Read a whole command line (the program name first) into its subcommand,
/// the options given and the test target, or the refusal.
pub open spec fn spec_parse_args(args: Seq<Seq<char>>) -> Result<(Subcommand, Given, Option<TestTarget>), CliErrorView> {
    if args.len() < 2 {
        Err(CliErrorView::MissingSubcommand)
    } else if spec_is_help(args[1]) || args[1] == "help"@ {
        Err(CliErrorView::HelpRequested)
    } else if spec_looks_like_option(args[1]) {
        Err(CliErrorView::UnknownArgument(args[1]))
    } else {
        match spec_subcommand_named(args[1]) {
            None => Err(CliErrorView::UnknownSubcommand(args[1])),
            Some(sub) => match spec_scan(sub, args.skip(2), Seq::empty(), None) {
                Ok((given, target)) => Ok((sub, given, target)),
                Err(e) => Err(e),
            },
        }
    }
}

/// The value an option was given, if it was.
pub open spec fn spec_value(given: Given, o: OptionName) -> Option<Seq<char>>
    decreases given.len(),
{
    if given.len() == 0 {
        None
    } else if given.last().0 == o {
        Some(given.last().1)
    } else {
        spec_value(given.drop_last(), o)
    }
}

/// Every value an option was given, in order.
pub open spec fn spec_values(given: Given, o: OptionName) -> Seq<Seq<char>>
    decreases given.len(),
{
    if given.len() == 0 {
        Seq::empty()
    } else if given.last().0 == o {
        spec_values(given.drop_last(), o).push(given.last().1)
    } else {
        spec_values(given.drop_last(), o)
    }
}

/// The number an unsigned value reads as.
pub open spec fn spec_number(v: Seq<char>, max: u64) -> int {
    match spec_parse_int(v, false, 0, max as int) {
        Ok(n) => n,
        Err(_) => 0,
    }
}

/// A text field holds the value given, or nothing.
pub open spec fn spec_text_field(field: Option<String>, value: Option<Seq<char>>) -> bool {
    match value {
        Some(v) => field matches Some(s) && s@ == v,
        None => field is None,
    }
}

/// A list field holds every value given.
pub open spec fn spec_list_field(field: Vec<String>, values: Seq<Seq<char>>) -> bool {
    &&& field@.len() == values.len()
    &&& forall|i: int| 0 <= i < values.len() ==> (#[trigger] field@[i])@ == values[i]
}

/// The number a value reads as, if one was given.
pub open spec fn spec_opt_number(value: Option<Seq<char>>, max: u64) -> Option<int> {
    match value {
        Some(v) => Some(spec_number(v, max)),
        None => None,
    }
}

/// The number a value reads as, or `default`.
pub open spec fn spec_number_or(value: Option<Seq<char>>, max: u64, default: int) -> int {
    match value {
        Some(v) => spec_number(v, max),
        None => default,
    }
}

/// The boolean a value reads as, if one was given.
pub open spec fn spec_opt_bool(value: Option<Seq<char>>) -> Option<bool> {
    match value {
        Some(v) => spec_boolish(v),
        None => None,
    }
}

/// An optional unsigned field of any width, taken as an integer.
pub open spec fn spec_opt_int_u8(field: Option<u8>) -> Option<int> {
    match field {
        Some(x) => Some(x as int),
        None => None,
    }
}

/// An optional `u32` field taken as an integer.
pub open spec fn spec_opt_int_u32(field: Option<u32>) -> Option<int> {
    match field {
        Some(x) => Some(x as int),
        None => None,
    }
}

/// An optional `u64` field taken as an integer.
pub open spec fn spec_opt_int_u64(field: Option<u64>) -> Option<int> {
    match field {
        Some(x) => Some(x as int),
        None => None,
    }
}

/// An optional `usize` field taken as an integer.
pub open spec fn spec_opt_int_usize(field: Option<usize>) -> Option<int> {
    match field {
        Some(x) => Some(x as int),
        None => None,
    }
}

/// The options shared by every `mortimmy test` target.
#[derive(Clone, Debug)]
pub struct TestOptions {
    pub config: Option<String>,
    pub transport_backend: TransportBackendKind,
    pub serial_device: Vec<String>,
    pub serial_baud_rate: Option<u32>,
    pub response_timeout_ms: Option<u64>,
    pub reconnect_interval_ms: Option<u64>,
    pub connect_timeout_ms: u64,
    pub step_duration_ms: u64,
    pub drive_speed: u16,
    pub motion_duration_ms: u64,
    pub pause_duration_ms: u64,
    pub servo_hold_ms: u64,
    pub servo_step_ticks: u16,
    pub sensor_listen_ms: u64,
    pub report_interval_ms: u32,
    pub audio_duration_ms: u64,
}

impl TestOptions {
    /// The configuration with the serial, timeout and reconnect overrides applied.
    pub fn merge_config(&self, config: AppConfig) -> (merged: AppConfig)
        ensures
            spec_views(merged.serial.device_paths@) == (if self.serial_device@.len() > 0 {
                spec_views(self.serial_device@)
            } else {
                spec_views(config.serial.device_paths@)
            }),
            merged.serial.baud_rate == spec_or(self.serial_baud_rate, config.serial.baud_rate),
            merged.session == (SessionConfig {
                response_timeout_ms: spec_or(self.response_timeout_ms, config.session.response_timeout_ms),
                reconnect_interval_ms: spec_or(self.reconnect_interval_ms, config.session.reconnect_interval_ms),
                ..config.session
            }),
            merged.nexo == config.nexo,
            merged.websocket == config.websocket,
            merged.telemetry == config.telemetry,
            merged.audio == config.audio,
            merged.camera == config.camera,
            merged.logging == config.logging,
    {
        let mut config = config;
        if self.serial_device.len() > 0 {
            config.serial.device_paths = clone_strings(&self.serial_device);
        }
        if let Some(v) = self.serial_baud_rate {
            config.serial.baud_rate = v;
        }
        if let Some(v) = self.response_timeout_ms {
            config.session.response_timeout_ms = v;
        }
        if let Some(v) = self.reconnect_interval_ms {
            config.session.reconnect_interval_ms = v;
        }
        config
    }
}

/// `mortimmy test`: its options and the target, if one was named.
#[derive(Clone, Debug)]
pub struct TestCommand {
    pub options: TestOptions,
    pub target: Option<TestTarget>,
}

impl TestCommand {
    /// The target named, or `All` when none was.
    pub fn selected_target(&self) -> (selected: TestTarget)
        ensures
            selected == match self.target {
                Some(t) => t,
                None => TestTarget::All,
            },
    {
        selected_target(self.target)
    }
}

/// `mortimmy start`: run the brain loop with operator input.
#[derive(Clone, Debug)]
pub struct StartCommand {
    pub config: Option<String>,
    pub input_backend: InputBackendKind,
    pub transport_backend: TransportBackendKind,
    pub controller_lock: Option<ControllerId>,
    pub serial_device: Vec<String>,
    pub serial_baud_rate: Option<u32>,
    pub response_timeout_ms: Option<u64>,
    pub reconnect_interval_ms: Option<u64>,
}

impl StartCommand {
    /// The configuration with the serial, timeout and reconnect overrides applied.
    pub fn merge_config(&self, config: AppConfig) -> (merged: AppConfig)
        ensures
            spec_views(merged.serial.device_paths@) == (if self.serial_device@.len() > 0 {
                spec_views(self.serial_device@)
            } else {
                spec_views(config.serial.device_paths@)
            }),
            merged.serial.baud_rate == spec_or(self.serial_baud_rate, config.serial.baud_rate),
            merged.session == (SessionConfig {
                response_timeout_ms: spec_or(self.response_timeout_ms, config.session.response_timeout_ms),
                reconnect_interval_ms: spec_or(self.reconnect_interval_ms, config.session.reconnect_interval_ms),
                ..config.session
            }),
            merged.nexo == config.nexo,
            merged.websocket == config.websocket,
            merged.telemetry == config.telemetry,
            merged.audio == config.audio,
            merged.camera == config.camera,
            merged.logging == config.logging,
    {
        let mut config = config;
        if self.serial_device.len() > 0 {
            config.serial.device_paths = clone_strings(&self.serial_device);
        }
        if let Some(v) = self.serial_baud_rate {
            config.serial.baud_rate = v;
        }
        if let Some(v) = self.response_timeout_ms {
            config.session.response_timeout_ms = v;
        }
        if let Some(v) = self.reconnect_interval_ms {
            config.session.reconnect_interval_ms = v;
        }
        config
    }
}

/// A parsed command line.
#[derive(Clone, Debug)]
pub enum Command {
    Ping(PingCommand),
    Start(StartCommand),
    Config(ConfigCommand),
    Test(TestCommand),
}

/// The program's command line.
#[derive(Clone, Debug)]
pub struct Cli {
    pub command: Command,
}

/// The transport given, or serial.
pub open spec fn spec_transport_field(value: Option<Seq<char>>) -> TransportBackendKind {
    match value {
        Some(v) => match spec_transport_named(v) {
            Some(k) => k,
            None => TransportBackendKind::Serial,
        },
        None => TransportBackendKind::Serial,
    }
}

/// A `test` command holds what its options were given, with their defaults.
pub open spec fn spec_test_matches(c: TestCommand, given: Given, target: Option<TestTarget>) -> bool {
    let o = c.options;
    &&& c.target == target
    &&& spec_text_field(o.config, spec_value(given, OptionName::ConfigPath))
    &&& o.transport_backend == spec_transport_field(spec_value(given, OptionName::TransportBackend))
    &&& spec_list_field(o.serial_device, spec_values(given, OptionName::SerialDevice))
    &&& spec_opt_int_u32(o.serial_baud_rate) == spec_opt_number(spec_value(given, OptionName::SerialBaudRate), U32_MAX)
    &&& spec_opt_int_u64(o.response_timeout_ms) == spec_opt_number(spec_value(given, OptionName::ResponseTimeoutMs), U64_MAX)
    &&& spec_opt_int_u64(o.reconnect_interval_ms) == spec_opt_number(spec_value(given, OptionName::ReconnectIntervalMs), U64_MAX)
    &&& o.connect_timeout_ms == spec_number_or(spec_value(given, OptionName::ConnectTimeoutMs), U64_MAX, 15_000)
    &&& o.step_duration_ms == spec_number_or(spec_value(given, OptionName::StepDurationMs), U64_MAX, 600)
    &&& o.drive_speed == spec_number_or(spec_value(given, OptionName::DriveSpeed), U16_MAX, 700)
    &&& o.motion_duration_ms == spec_number_or(spec_value(given, OptionName::MotionDurationMs), U64_MAX, 1_500)
    &&& o.pause_duration_ms == spec_number_or(spec_value(given, OptionName::PauseDurationMs), U64_MAX, 750)
    &&& o.servo_hold_ms == spec_number_or(spec_value(given, OptionName::ServoHoldMs), U64_MAX, 900)
    &&& o.servo_step_ticks == spec_number_or(spec_value(given, OptionName::ServoStepTicks), U16_MAX, 24)
    &&& o.sensor_listen_ms == spec_number_or(spec_value(given, OptionName::SensorListenMs), U64_MAX, 3_000)
    &&& o.report_interval_ms == spec_number_or(spec_value(given, OptionName::ReportIntervalMs), U32_MAX, 250)
    &&& o.audio_duration_ms == spec_number_or(spec_value(given, OptionName::AudioDurationMs), U64_MAX, 500)
}

/// The controller lock given, if one was: the id it names.
pub open spec fn spec_lock_field(field: Option<ControllerId>, value: Option<Seq<char>>) -> bool {
    match value {
        Some(v) => field matches Some(id) && spec_parse_controller_id(v) == Ok::<(ControllerKind, Seq<char>), ControllerParseError>(
            (id.kind, id.instance@),
        ),
        None => field is None,
    }
}

/// A `start` command holds what its options were given: the console for
/// input and the serial transport unless others are named.
pub open spec fn spec_start_matches(c: StartCommand, given: Given) -> bool {
    &&& spec_text_field(c.config, spec_value(given, OptionName::ConfigPath))
    &&& c.input_backend == InputBackendKind::Tui
    &&& c.transport_backend == spec_transport_field(spec_value(given, OptionName::TransportBackend))
    &&& spec_lock_field(c.controller_lock, spec_value(given, OptionName::ControllerLock))
    &&& spec_list_field(c.serial_device, spec_values(given, OptionName::SerialDevice))
    &&& spec_opt_int_u32(c.serial_baud_rate) == spec_opt_number(spec_value(given, OptionName::SerialBaudRate), U32_MAX)
    &&& spec_opt_int_u64(c.response_timeout_ms) == spec_opt_number(spec_value(given, OptionName::ResponseTimeoutMs), U64_MAX)
    &&& spec_opt_int_u64(c.reconnect_interval_ms) == spec_opt_number(spec_value(given, OptionName::ReconnectIntervalMs), U64_MAX)
}

/// A `ping` command holds what its options were given.
pub open spec fn spec_ping_matches(c: PingCommand, given: Given) -> bool {
    &&& spec_text_field(c.config, spec_value(given, OptionName::ConfigPath))
    &&& c.transport_backend == spec_transport_field(spec_value(given, OptionName::TransportBackend))
    &&& spec_list_field(c.serial_device, spec_values(given, OptionName::SerialDevice))
    &&& spec_opt_int_u32(c.serial_baud_rate) == spec_opt_number(spec_value(given, OptionName::SerialBaudRate), U32_MAX)
    &&& spec_opt_int_u64(c.response_timeout_ms) == spec_opt_number(spec_value(given, OptionName::ResponseTimeoutMs), U64_MAX)
}

/// The audio backend given, if one was.
pub open spec fn spec_opt_audio(value: Option<Seq<char>>) -> Option<AudioBackendKind> {
    match value {
        Some(v) => spec_audio_named(v),
        None => None,
    }
}

/// The camera backend given, if one was.
pub open spec fn spec_opt_camera(value: Option<Seq<char>>) -> Option<CameraBackendKind> {
    match value {
        Some(v) => spec_camera_named(v),
        None => None,
    }
}

/// The log level given, if one was.
pub open spec fn spec_opt_level(value: Option<Seq<char>>) -> Option<LogLevel> {
    match value {
        Some(v) => spec_level_named(v),
        None => None,
    }
}

/// A `config` command holds what its options were given.
pub open spec fn spec_config_matches(c: ConfigCommand, given: Given) -> bool {
    &&& spec_text_field(c.config, spec_value(given, OptionName::ConfigPath))
    &&& spec_list_field(c.serial_device, spec_values(given, OptionName::SerialDevice))
    &&& spec_opt_int_u32(c.serial_baud_rate) == spec_opt_number(spec_value(given, OptionName::SerialBaudRate), U32_MAX)
    &&& spec_text_field(c.websocket_bind, spec_value(given, OptionName::WebsocketBind))
    &&& spec_opt_int_u64(c.telemetry_publish_interval_ms) == spec_opt_number(
        spec_value(given, OptionName::TelemetryPublishIntervalMs),
        U64_MAX,
    )
    &&& spec_opt_int_usize(c.telemetry_queue_capacity) == spec_opt_number(
        spec_value(given, OptionName::TelemetryQueueCapacity),
        usize::MAX as u64,
    )
    &&& c.audio_enabled == spec_opt_bool(spec_value(given, OptionName::AudioEnabled))
    &&& c.audio_backend == spec_opt_audio(spec_value(given, OptionName::AudioBackend))
    &&& spec_opt_int_u32(c.audio_sample_rate_hz) == spec_opt_number(spec_value(given, OptionName::AudioSampleRateHz), U32_MAX)
    &&& spec_opt_int_u8(c.audio_channels) == spec_opt_number(spec_value(given, OptionName::AudioChannels), U8_MAX)
    &&& spec_opt_int_usize(c.audio_chunk_samples) == spec_opt_number(
        spec_value(given, OptionName::AudioChunkSamples),
        usize::MAX as u64,
    )
    &&& spec_opt_int_u8(c.audio_volume_percent) == spec_opt_number(spec_value(given, OptionName::AudioVolumePercent), U8_MAX)
    &&& c.camera_enabled == spec_opt_bool(spec_value(given, OptionName::CameraEnabled))
    &&& c.camera_backend == spec_opt_camera(spec_value(given, OptionName::CameraBackend))
    &&& spec_opt_int_u32(c.camera_device_index) == spec_opt_number(spec_value(given, OptionName::CameraDeviceIndex), U32_MAX)
    &&& spec_opt_int_u32(c.camera_width) == spec_opt_number(spec_value(given, OptionName::CameraWidth), U32_MAX)
    &&& spec_opt_int_u32(c.camera_height) == spec_opt_number(spec_value(given, OptionName::CameraHeight), U32_MAX)
    &&& spec_opt_int_u32(c.camera_fps) == spec_opt_number(spec_value(given, OptionName::CameraFps), U32_MAX)
    &&& c.log_level == spec_opt_level(spec_value(given, OptionName::Level))
    &&& c.no_color == spec_opt_bool(spec_value(given, OptionName::NoColor))
    &&& c.print == (spec_value(given, OptionName::Print) is Some)
}

/// A command line holds what was given to its subcommand.
pub open spec fn spec_cli_matches(cli: Cli, sub: Subcommand, given: Given, target: Option<TestTarget>) -> bool {
    match cli.command {
        Command::Ping(c) => sub == Subcommand::Ping && spec_ping_matches(c, given),
        Command::Start(c) => sub == Subcommand::Start && spec_start_matches(c, given),
        Command::Config(c) => sub == Subcommand::Config && spec_config_matches(c, given),
        Command::Test(c) => sub == Subcommand::Test && spec_test_matches(c, given, target),
    }
}


/// Whether `a` is exactly the word `w`.
fn is_word(a: &[char], w: &str) -> (r: bool)
    ensures
        r == (a@ == w@),
{
    let chars = str_to_chars(w);
    chars_eq(a, chars.as_slice())
}

/// The option a long name names.
fn option_named(name: &[char]) -> (o: Option<OptionName>)
    ensures
        o == spec_option_named(name@),
{
    if is_word(name, "config") {
        Some(OptionName::ConfigPath)
    } else if is_word(name, "transport-backend") {
        Some(OptionName::TransportBackend)
    } else if is_word(name, "serial-device") {
        Some(OptionName::SerialDevice)
    } else if is_word(name, "serial-baud-rate") {
        Some(OptionName::SerialBaudRate)
    } else if is_word(name, "response-timeout-ms") {
        Some(OptionName::ResponseTimeoutMs)
    } else if is_word(name, "reconnect-interval-ms") {
        Some(OptionName::ReconnectIntervalMs)
    } else if is_word(name, "connect-timeout-ms") {
        Some(OptionName::ConnectTimeoutMs)
    } else if is_word(name, "step-duration-ms") {
        Some(OptionName::StepDurationMs)
    } else if is_word(name, "drive-speed") {
        Some(OptionName::DriveSpeed)
    } else if is_word(name, "motion-duration-ms") {
        Some(OptionName::MotionDurationMs)
    } else if is_word(name, "pause-duration-ms") {
        Some(OptionName::PauseDurationMs)
    } else if is_word(name, "servo-hold-ms") {
        Some(OptionName::ServoHoldMs)
    } else if is_word(name, "servo-step-ticks") {
        Some(OptionName::ServoStepTicks)
    } else if is_word(name, "sensor-listen-ms") {
        Some(OptionName::SensorListenMs)
    } else if is_word(name, "report-interval-ms") {
        Some(OptionName::ReportIntervalMs)
    } else if is_word(name, "audio-duration-ms") {
        Some(OptionName::AudioDurationMs)
    } else if is_word(name, "websocket-bind") {
        Some(OptionName::WebsocketBind)
    } else if is_word(name, "telemetry-publish-interval-ms") {
        Some(OptionName::TelemetryPublishIntervalMs)
    } else if is_word(name, "telemetry-queue-capacity") {
        Some(OptionName::TelemetryQueueCapacity)
    } else if is_word(name, "audio-enabled") {
        Some(OptionName::AudioEnabled)
    } else if is_word(name, "audio-backend") {
        Some(OptionName::AudioBackend)
    } else if is_word(name, "audio-sample-rate-hz") {
        Some(OptionName::AudioSampleRateHz)
    } else if is_word(name, "audio-channels") {
        Some(OptionName::AudioChannels)
    } else if is_word(name, "audio-chunk-samples") {
        Some(OptionName::AudioChunkSamples)
    } else if is_word(name, "audio-volume-percent") {
        Some(OptionName::AudioVolumePercent)
    } else if is_word(name, "camera-enabled") {
        Some(OptionName::CameraEnabled)
    } else if is_word(name, "camera-backend") {
        Some(OptionName::CameraBackend)
    } else if is_word(name, "camera-device-index") {
        Some(OptionName::CameraDeviceIndex)
    } else if is_word(name, "camera-width") {
        Some(OptionName::CameraWidth)
    } else if is_word(name, "camera-height") {
        Some(OptionName::CameraHeight)
    } else if is_word(name, "camera-fps") {
        Some(OptionName::CameraFps)
    } else if is_word(name, "log-level") {
        Some(OptionName::Level)
    } else if is_word(name, "no-color") {
        Some(OptionName::NoColor)
    } else if is_word(name, "print") {
        Some(OptionName::Print)
    } else if is_word(name, "input-backend") {
        Some(OptionName::InputBackend)
    } else if is_word(name, "controller-lock") {
        Some(OptionName::ControllerLock)
    } else {
        None
    }
}

/// Whether a subcommand has an option.
fn accepts(sub: Subcommand, o: OptionName) -> (r: bool)
    ensures
        r == spec_accepts(sub, o),
{
    match sub {
        Subcommand::Ping => match o {
            OptionName::ConfigPath | OptionName::TransportBackend | OptionName::SerialDevice | OptionName::SerialBaudRate
            | OptionName::ResponseTimeoutMs => true,
            _ => false,
        },
        Subcommand::Start => match o {
            OptionName::ConfigPath | OptionName::TransportBackend | OptionName::SerialDevice | OptionName::SerialBaudRate
            | OptionName::ResponseTimeoutMs | OptionName::ReconnectIntervalMs | OptionName::InputBackend
            | OptionName::ControllerLock => true,
            _ => false,
        },
        Subcommand::Test => match o {
            OptionName::ConfigPath | OptionName::TransportBackend | OptionName::SerialDevice | OptionName::SerialBaudRate
            | OptionName::ResponseTimeoutMs | OptionName::ReconnectIntervalMs | OptionName::ConnectTimeoutMs
            | OptionName::StepDurationMs | OptionName::DriveSpeed | OptionName::MotionDurationMs
            | OptionName::PauseDurationMs | OptionName::ServoHoldMs | OptionName::ServoStepTicks
            | OptionName::SensorListenMs | OptionName::ReportIntervalMs | OptionName::AudioDurationMs => true,
            _ => false,
        },
        Subcommand::Config => match o {
            OptionName::ConfigPath | OptionName::SerialDevice | OptionName::SerialBaudRate | OptionName::WebsocketBind
            | OptionName::TelemetryPublishIntervalMs | OptionName::TelemetryQueueCapacity | OptionName::AudioEnabled
            | OptionName::AudioBackend | OptionName::AudioSampleRateHz | OptionName::AudioChannels
            | OptionName::AudioChunkSamples | OptionName::AudioVolumePercent | OptionName::CameraEnabled
            | OptionName::CameraBackend | OptionName::CameraDeviceIndex | OptionName::CameraWidth
            | OptionName::CameraHeight | OptionName::CameraFps | OptionName::Level | OptionName::NoColor
            | OptionName::Print => true,
            _ => false,
        },
    }
}

/// What an option's value reads as.
fn kind_of(o: OptionName) -> (k: ValueKind)
    ensures
        k == spec_kind(o),
{
    match o {
        OptionName::ConfigPath => ValueKind::Path,
        OptionName::TransportBackend => ValueKind::Transport,
        OptionName::SerialDevice | OptionName::WebsocketBind => ValueKind::Text,
        OptionName::SerialBaudRate | OptionName::ReportIntervalMs | OptionName::AudioSampleRateHz
        | OptionName::CameraDeviceIndex | OptionName::CameraWidth | OptionName::CameraHeight
        | OptionName::CameraFps => ValueKind::Unsigned(U32_MAX),
        OptionName::DriveSpeed | OptionName::ServoStepTicks => ValueKind::Unsigned(U16_MAX),
        OptionName::AudioChannels | OptionName::AudioVolumePercent => ValueKind::Unsigned(U8_MAX),
        OptionName::TelemetryQueueCapacity | OptionName::AudioChunkSamples => ValueKind::Unsigned(usize::MAX as u64),
        OptionName::AudioEnabled | OptionName::CameraEnabled | OptionName::NoColor => ValueKind::Boolish,
        OptionName::AudioBackend => ValueKind::Audio,
        OptionName::CameraBackend => ValueKind::Camera,
        OptionName::Level => ValueKind::Level,
        OptionName::Print => ValueKind::Flag,
        OptionName::InputBackend => ValueKind::Input,
        OptionName::ControllerLock => ValueKind::Controller,
        _ => ValueKind::Unsigned(U64_MAX),
    }
}

/// The boolean a word reads as.
fn boolish(v: &[char]) -> (b: Option<bool>)
    ensures
        b == spec_boolish(v@),
{
    let lower = lowercase_chars(v);
    let l = lower.as_slice();
    if is_word(l, "y") || is_word(l, "yes") || is_word(l, "t") || is_word(l, "true") || is_word(l, "on") || is_word(
        l,
        "1",
    ) {
        Some(true)
    } else if is_word(l, "n") || is_word(l, "no") || is_word(l, "f") || is_word(l, "false") || is_word(l, "off")
        || is_word(l, "0") {
        Some(false)
    } else {
        None
    }
}

/// The transport a word names.
fn transport_named(v: &[char]) -> (k: Option<TransportBackendKind>)
    ensures
        k == spec_transport_named(v@),
{
    if is_word(v, "loopback") {
        Some(TransportBackendKind::Loopback)
    } else if is_word(v, "serial") {
        Some(TransportBackendKind::Serial)
    } else {
        None
    }
}

/// The audio backend a word names.
fn audio_named(v: &[char]) -> (k: Option<AudioBackendKind>)
    ensures
        k == spec_audio_named(v@),
{
    if is_word(v, "disabled") {
        Some(AudioBackendKind::Disabled)
    } else if is_word(v, "firmware-bridge") {
        Some(AudioBackendKind::FirmwareBridge)
    } else {
        None
    }
}

/// The camera backend a word names.
fn camera_named(v: &[char]) -> (k: Option<CameraBackendKind>)
    ensures
        k == spec_camera_named(v@),
{
    if is_word(v, "disabled") {
        Some(CameraBackendKind::Disabled)
    } else if is_word(v, "nokhwa") {
        Some(CameraBackendKind::Nokhwa)
    } else {
        None
    }
}

/// The log level a word names.
fn level_named(v: &[char]) -> (k: Option<LogLevel>)
    ensures
        k == spec_level_named(v@),
{
    if is_word(v, "trace") {
        Some(LogLevel::Trace)
    } else if is_word(v, "debug") {
        Some(LogLevel::Debug)
    } else if is_word(v, "info") {
        Some(LogLevel::Info)
    } else if is_word(v, "warn") {
        Some(LogLevel::Warn)
    } else if is_word(v, "error") {
        Some(LogLevel::Error)
    } else {
        None
    }
}

/// The test target a word names.
fn target_named(v: &[char]) -> (t: Option<TestTarget>)
    ensures
        t == spec_target_named(v@),
{
    if is_word(v, "all") {
        Some(TestTarget::All)
    } else if is_word(v, "status") {
        Some(TestTarget::Status)
    } else if is_word(v, "drive") {
        Some(TestTarget::Drive)
    } else if is_word(v, "servo") {
        Some(TestTarget::Servo)
    } else if is_word(v, "sensors") {
        Some(TestTarget::Sensors)
    } else if is_word(v, "audio") {
        Some(TestTarget::Audio)
    } else {
        None
    }
}

/// The subcommand a word names.
fn subcommand_named(v: &[char]) -> (s: Option<Subcommand>)
    ensures
        s == spec_subcommand_named(v@),
{
    if is_word(v, "ping") {
        Some(Subcommand::Ping)
    } else if is_word(v, "start") {
        Some(Subcommand::Start)
    } else if is_word(v, "config") {
        Some(Subcommand::Config)
    } else if is_word(v, "test") {
        Some(Subcommand::Test)
    } else {
        None
    }
}

/// Whether a value reads as a kind.
fn valid_value(kind: ValueKind, v: &[char]) -> (r: bool)
    ensures
        r == spec_valid_value(kind, v@),
{
    match kind {
        ValueKind::Text => true,
        ValueKind::Path => v.len() > 0,
        ValueKind::Unsigned(max) => parse_unsigned(v, max).is_ok(),
        ValueKind::Boolish => boolish(v).is_some(),
        ValueKind::Transport => transport_named(v).is_some(),
        ValueKind::Audio => audio_named(v).is_some(),
        ValueKind::Camera => camera_named(v).is_some(),
        ValueKind::Level => level_named(v).is_some(),
        ValueKind::Flag => v.len() == 0,
        ValueKind::Input => is_word(v, "tui"),
        ValueKind::Controller => ControllerId::parse(chars_to_string(v).as_str()).is_ok(),
    }
}

/// The first `=` stands at `j` when none comes before it.
proof fn lemma_eq_pos(s: Seq<char>, j: int)
    requires
        0 <= j <= s.len(),
        forall|k: int| 0 <= k < j ==> s[k] != '=',
        j == s.len() || s[j] == '=',
    ensures
        spec_eq_pos(s) == j,
    decreases j,
{
    if j > 0 {
        lemma_eq_pos(s.drop_first(), j - 1);
    }
}

/// Where the first `=` of `s` stands, or its length.
fn eq_pos(s: &[char]) -> (pos: usize)
    ensures
        pos == spec_eq_pos(s@),
        pos <= s@.len(),
{
    let mut j: usize = 0;
    while j < s.len() && s[j] != '='
        invariant
            j <= s@.len(),
            forall|k: int| 0 <= k < j ==> s@[k] != '=',
        decreases s@.len() - j,
    {
        j += 1;
    }
    proof {
        lemma_eq_pos(s@, j as int);
    }
    j
}

/// Whether an argument reads as an option rather than a value.
fn looks_like_option(t: &[char]) -> (r: bool)
    ensures
        r == spec_looks_like_option(t@),
{
    t.len() >= 2 && t[0] == '-'
}

/// Whether an argument asks for the usage text.
fn is_help(t: &[char]) -> (r: bool)
    ensures
        r == spec_is_help(t@),
{
    is_word(t, "--help") || is_word(t, "-h")
}

/// One option given: which, and its value.
pub struct GivenOption {
    pub option: OptionName,
    pub value: Vec<char>,
}

/// The options given, as values.
pub open spec fn spec_given_of(given: Seq<GivenOption>) -> Given {
    given.map_values(|g: GivenOption| (g.option, g.value@))
}

/// The characters of each argument.
pub open spec fn spec_arg_views(args: Seq<Vec<char>>) -> Seq<Seq<char>> {
    args.map_values(|a: Vec<char>| a@)
}

/// Every given value reads as its option's kind.
pub open spec fn spec_all_valid(given: Given) -> bool {
    forall|k: int| 0 <= k < given.len() ==> spec_valid_value(spec_kind((#[trigger] given[k]).0), given[k].1)
}

/// Whether an option was given.
fn was_given(given: &Vec<GivenOption>, o: OptionName) -> (r: bool)
    ensures
        r == spec_given(spec_given_of(given@), o),
{
    let ghost g = spec_given_of(given@);
    let mut k: usize = 0;
    while k < given.len()
        invariant
            k <= given@.len(),
            g == spec_given_of(given@),
            forall|j: int| 0 <= j < k ==> g[j].0 != o,
        decreases given@.len() - k,
    {
        if given[k].option == o {
            assert(g[k as int].0 == o);
            return true;
        }
        k += 1;
    }
    proof {
        if spec_given(g, o) {
            let j = choose|j: int| 0 <= j < g.len() && (#[trigger] g[j]).0 == o;
            assert(g[j].0 != o);
        }
    }
    false
}

/// Read the arguments from `start` on into the options given and the test
/// target, as `spec_scan` does.
fn scan(sub: Subcommand, toks: &Vec<Vec<char>>, start: usize) -> (result: Result<
    (Vec<GivenOption>, Option<TestTarget>),
    CliError,
>)
    requires
        start <= toks@.len(),
    ensures
        match result {
            Ok((given, target)) => spec_scan(sub, spec_arg_views(toks@).skip(start as int), Seq::empty(), None) == Ok::<
                (Given, Option<TestTarget>),
                CliErrorView,
            >((spec_given_of(given@), target)) && spec_all_valid(spec_given_of(given@)),
            Err(e) => spec_scan(sub, spec_arg_views(toks@).skip(start as int), Seq::empty(), None) == Err::<
                (Given, Option<TestTarget>),
                CliErrorView,
            >(e@),
        },
{
    let ghost all = spec_arg_views(toks@);
    let ghost goal = spec_scan(sub, all.skip(start as int), Seq::empty(), None);
    let mut given: Vec<GivenOption> = Vec::new();
    let mut target: Option<TestTarget> = None;
    let mut i: usize = start;
    assert(spec_given_of(given@) =~= Seq::<(OptionName, Seq<char>)>::empty());
    while i < toks.len()
        invariant
            start <= i <= toks@.len(),
            all == spec_arg_views(toks@),
            goal == spec_scan(sub, all.skip(start as int), Seq::empty(), None),
            goal == spec_scan(sub, all.skip(i as int), spec_given_of(given@), target),
            spec_all_valid(spec_given_of(given@)),
        decreases toks@.len() - i,
    {
        let ghost rest = all.skip(i as int);
        let ghost g = spec_given_of(given@);
        let t = toks[i].as_slice();
        assert(rest[0] == t@);
        assert(rest.drop_first() =~= all.skip(i + 1));
        if is_help(t) {
            return Err(CliError::HelpRequested);
        }
        if t.len() >= 2 && t[0] == '-' && t[1] == '-' {
            let body = crate::host::ui::chars_range(t, 2, t.len());
            assert(body@ =~= t@.skip(2));
            let pos = eq_pos(body.as_slice());
            let name = crate::host::ui::chars_range(body.as_slice(), 0, pos);
            assert(name@ =~= body@.take(pos as int));
            let inline: Option<Vec<char>> = if pos < body.len() {
                let v = crate::host::ui::chars_range(body.as_slice(), pos + 1, body.len());
                assert(v@ =~= body@.skip(pos + 1));
                Some(v)
            } else {
                None
            };
            let o = match option_named(name.as_slice()) {
                None => {
                    return Err(CliError::UnknownArgument(chars_to_string(t)));
                },
                Some(o) => o,
            };
            if !accepts(sub, o) {
                return Err(CliError::UnknownArgument(chars_to_string(t)));
            }
            if was_given(&given, o) && o != OptionName::SerialDevice {
                return Err(CliError::RepeatedArgument(chars_to_string(name.as_slice())));
            }
            let kind = kind_of(o);
            let value: Vec<char>;
            let mut step: usize = 1;
            if kind == ValueKind::Flag {
                match inline {
                    Some(v) => {
                        return Err(CliError::InvalidValue(chars_to_string(name.as_slice()), chars_to_string(v.as_slice())));
                    },
                    None => {
                        value = Vec::new();
                    },
                }
            } else if kind == ValueKind::Boolish {
                let v = match inline {
                    Some(v) => v,
                    None => str_to_chars("true"),
                };
                if !valid_value(kind, v.as_slice()) {
                    return Err(CliError::InvalidValue(chars_to_string(name.as_slice()), chars_to_string(v.as_slice())));
                }
                value = v;
            } else {
                match inline {
                    Some(v) => {
                        if !valid_value(kind, v.as_slice()) {
                            return Err(
                                CliError::InvalidValue(chars_to_string(name.as_slice()), chars_to_string(v.as_slice())),
                            );
                        }
                        value = v;
                    },
                    None => {
                        if i + 1 >= toks.len() {
                            return Err(CliError::MissingValue(chars_to_string(name.as_slice())));
                        }
                        let next = toks[i + 1].as_slice();
                        assert(rest[1] == next@);
                        if looks_like_option(next) {
                            return Err(CliError::MissingValue(chars_to_string(name.as_slice())));
                        }
                        if !valid_value(kind, next) {
                            return Err(CliError::InvalidValue(chars_to_string(name.as_slice()), chars_to_string(next)));
                        }
                        value = crate::host::ui::chars_range(next, 0, next.len());
                        assert(value@ =~= next@);
                        step = 2;
                        assert(rest.skip(2) =~= all.skip(i + 2));
                    },
                }
            }
            let ghost gv = value@;
            given.push(GivenOption { option: o, value });
            assert(spec_given_of(given@) =~= g.push((o, gv)));
            i = i + step;
        } else if looks_like_option(t) {
            return Err(CliError::UnknownArgument(chars_to_string(t)));
        } else if sub == Subcommand::Test && target.is_none() {
            if is_word(t, "help") {
                return Err(CliError::HelpRequested);
            }
            match target_named(t) {
                Some(tt) => {
                    target = Some(tt);
                },
                None => {
                    return Err(CliError::UnknownSubcommand(chars_to_string(t)));
                },
            }
            i = i + 1;
        } else {
            return Err(CliError::UnexpectedArgument(chars_to_string(t)));
        }
    }
    assert(all.skip(i as int) =~= Seq::<Seq<char>>::empty());
    Ok((given, target))
}

/// The index of the last option `o` given, whose value is the one it was given.
fn find_last(given: &Vec<GivenOption>, o: OptionName) -> (idx: Option<usize>)
    ensures
        match idx {
            Some(k) => k < given@.len() && given@[k as int].option == o && spec_value(spec_given_of(given@), o) == Some(
                given@[k as int].value@,
            ),
            None => spec_value(spec_given_of(given@), o) is None,
        },
{
    let ghost g = spec_given_of(given@);
    let mut k: usize = given.len();
    assert(g.take(k as int) =~= g);
    while k > 0
        invariant
            k <= given@.len(),
            g == spec_given_of(given@),
            spec_value(g, o) == spec_value(g.take(k as int), o),
        decreases k,
    {
        assert(g.take(k as int).drop_last() =~= g.take(k - 1));
        assert(g.take(k as int).last() == g[k - 1]);
        if given[k - 1].option == o {
            return Some(k - 1);
        }
        k -= 1;
    }
    None
}

/// Every value the option `o` was given, in order.
fn values_of(given: &Vec<GivenOption>, o: OptionName) -> (vals: Vec<String>)
    ensures
        spec_list_field(vals, spec_values(spec_given_of(given@), o)),
{
    let ghost g = spec_given_of(given@);
    let mut vals: Vec<String> = Vec::new();
    let mut k: usize = 0;
    assert(g.take(0) =~= Seq::<(OptionName, Seq<char>)>::empty());
    while k < given.len()
        invariant
            k <= given@.len(),
            g == spec_given_of(given@),
            spec_list_field(vals, spec_values(g.take(k as int), o)),
        decreases given@.len() - k,
    {
        assert(g.take(k + 1).drop_last() =~= g.take(k as int));
        assert(g.take(k + 1).last() == g[k as int]);
        if given[k].option == o {
            vals.push(chars_to_string(given[k].value.as_slice()));
        }
        k += 1;
    }
    assert(g.take(k as int) =~= g);
    vals
}

/// The number a valid unsigned value reads as.
fn number(v: &[char], max: u64) -> (n: u64)
    requires
        spec_parse_int(v@, false, 0, max as int) is Ok,
    ensures
        n == spec_number(v@, max),
        n <= max,
{
    match parse_unsigned(v, max) {
        Ok(n) => n,
        Err(_) => 0,
    }
}

/// The number the option `o` was given, if it was.
fn opt_number(given: &Vec<GivenOption>, o: OptionName, max: u64) -> (r: Option<u64>)
    requires
        spec_all_valid(spec_given_of(given@)),
        spec_kind(o) == ValueKind::Unsigned(max),
    ensures
        spec_opt_int_u64(r) == spec_opt_number(spec_value(spec_given_of(given@), o), max),
        r matches Some(x) ==> x <= max,
{
    match find_last(given, o) {
        Some(k) => {
            assert(spec_given_of(given@)[k as int] == (given@[k as int].option, given@[k as int].value@));
            Some(number(given[k].value.as_slice(), max))
        },
        None => None,
    }
}

/// The number the option `o` was given, or `default`.
fn number_or(given: &Vec<GivenOption>, o: OptionName, max: u64, default: u64) -> (r: u64)
    requires
        spec_all_valid(spec_given_of(given@)),
        spec_kind(o) == ValueKind::Unsigned(max),
        default <= max,
    ensures
        r == spec_number_or(spec_value(spec_given_of(given@), o), max, default as int),
        r <= max,
{
    match opt_number(given, o, max) {
        Some(x) => x,
        None => default,
    }
}

/// A `u32` the option `o` was given, if it was.
fn opt_u32(given: &Vec<GivenOption>, o: OptionName) -> (r: Option<u32>)
    requires
        spec_all_valid(spec_given_of(given@)),
        spec_kind(o) == ValueKind::Unsigned(U32_MAX),
    ensures
        spec_opt_int_u32(r) == spec_opt_number(spec_value(spec_given_of(given@), o), U32_MAX),
{
    match opt_number(given, o, U32_MAX) {
        Some(x) => Some(x as u32),
        None => None,
    }
}

/// A `u8` the option `o` was given, if it was.
fn opt_u8(given: &Vec<GivenOption>, o: OptionName) -> (r: Option<u8>)
    requires
        spec_all_valid(spec_given_of(given@)),
        spec_kind(o) == ValueKind::Unsigned(U8_MAX),
    ensures
        spec_opt_int_u8(r) == spec_opt_number(spec_value(spec_given_of(given@), o), U8_MAX),
{
    match opt_number(given, o, U8_MAX) {
        Some(x) => Some(x as u8),
        None => None,
    }
}

/// A `usize` the option `o` was given, if it was.
fn opt_usize(given: &Vec<GivenOption>, o: OptionName) -> (r: Option<usize>)
    requires
        spec_all_valid(spec_given_of(given@)),
        spec_kind(o) == ValueKind::Unsigned(usize::MAX as u64),
    ensures
        spec_opt_int_usize(r) == spec_opt_number(spec_value(spec_given_of(given@), o), usize::MAX as u64),
{
    match opt_number(given, o, usize::MAX as u64) {
        Some(x) => Some(x as usize),
        None => None,
    }
}

/// The text the option `o` was given, if it was.
fn opt_text(given: &Vec<GivenOption>, o: OptionName) -> (r: Option<String>)
    ensures
        spec_text_field(r, spec_value(spec_given_of(given@), o)),
{
    match find_last(given, o) {
        Some(k) => Some(chars_to_string(given[k].value.as_slice())),
        None => None,
    }
}

/// The boolean the option `o` was given, if it was.
fn opt_bool(given: &Vec<GivenOption>, o: OptionName) -> (r: Option<bool>)
    ensures
        r == spec_opt_bool(spec_value(spec_given_of(given@), o)),
{
    match find_last(given, o) {
        Some(k) => boolish(given[k].value.as_slice()),
        None => None,
    }
}

/// The transport given, or serial.
fn transport_field(given: &Vec<GivenOption>) -> (r: TransportBackendKind)
    ensures
        r == spec_transport_field(spec_value(spec_given_of(given@), OptionName::TransportBackend)),
{
    match find_last(given, OptionName::TransportBackend) {
        Some(k) => match transport_named(given[k].value.as_slice()) {
            Some(t) => t,
            None => TransportBackendKind::Serial,
        },
        None => TransportBackendKind::Serial,
    }
}

/// Build `test` from the options given and the target.
fn build_test(given: &Vec<GivenOption>, target: Option<TestTarget>) -> (c: TestCommand)
    requires
        spec_all_valid(spec_given_of(given@)),
    ensures
        spec_test_matches(c, spec_given_of(given@), target),
{
    let options = TestOptions {
        config: opt_text(given, OptionName::ConfigPath),
        transport_backend: transport_field(given),
        serial_device: values_of(given, OptionName::SerialDevice),
        serial_baud_rate: opt_u32(given, OptionName::SerialBaudRate),
        response_timeout_ms: opt_number(given, OptionName::ResponseTimeoutMs, U64_MAX),
        reconnect_interval_ms: opt_number(given, OptionName::ReconnectIntervalMs, U64_MAX),
        connect_timeout_ms: number_or(given, OptionName::ConnectTimeoutMs, U64_MAX, 15_000),
        step_duration_ms: number_or(given, OptionName::StepDurationMs, U64_MAX, 600),
        drive_speed: number_or(given, OptionName::DriveSpeed, U16_MAX, 700) as u16,
        motion_duration_ms: number_or(given, OptionName::MotionDurationMs, U64_MAX, 1_500),
        pause_duration_ms: number_or(given, OptionName::PauseDurationMs, U64_MAX, 750),
        servo_hold_ms: number_or(given, OptionName::ServoHoldMs, U64_MAX, 900),
        servo_step_ticks: number_or(given, OptionName::ServoStepTicks, U16_MAX, 24) as u16,
        sensor_listen_ms: number_or(given, OptionName::SensorListenMs, U64_MAX, 3_000),
        report_interval_ms: number_or(given, OptionName::ReportIntervalMs, U32_MAX, 250) as u32,
        audio_duration_ms: number_or(given, OptionName::AudioDurationMs, U64_MAX, 500),
    };
    TestCommand { options, target }
}

/// Build `start` from the options given.
fn build_start(given: &Vec<GivenOption>) -> (c: StartCommand)
    requires
        spec_all_valid(spec_given_of(given@)),
    ensures
        spec_start_matches(c, spec_given_of(given@)),
{
    let controller_lock = match find_last(given, OptionName::ControllerLock) {
        Some(k) => {
            let text = chars_to_string(given[k].value.as_slice());
            assert(spec_valid_value(spec_kind(spec_given_of(given@)[k as int].0), spec_given_of(given@)[k as int].1));
            match ControllerId::parse(text.as_str()) {
                Ok(id) => Some(id),
                Err(_) => None,
            }
        },
        None => None,
    };
    StartCommand {
        config: opt_text(given, OptionName::ConfigPath),
        input_backend: InputBackendKind::Tui,
        transport_backend: transport_field(given),
        controller_lock,
        serial_device: values_of(given, OptionName::SerialDevice),
        serial_baud_rate: opt_u32(given, OptionName::SerialBaudRate),
        response_timeout_ms: opt_number(given, OptionName::ResponseTimeoutMs, U64_MAX),
        reconnect_interval_ms: opt_number(given, OptionName::ReconnectIntervalMs, U64_MAX),
    }
}

/// Build `ping` from the options given.
fn build_ping(given: &Vec<GivenOption>) -> (c: PingCommand)
    requires
        spec_all_valid(spec_given_of(given@)),
    ensures
        spec_ping_matches(c, spec_given_of(given@)),
{
    PingCommand {
        config: opt_text(given, OptionName::ConfigPath),
        transport_backend: transport_field(given),
        serial_device: values_of(given, OptionName::SerialDevice),
        serial_baud_rate: opt_u32(given, OptionName::SerialBaudRate),
        response_timeout_ms: opt_number(given, OptionName::ResponseTimeoutMs, U64_MAX),
    }
}

/// Build `config` from the options given.
fn build_config(given: &Vec<GivenOption>) -> (c: ConfigCommand)
    requires
        spec_all_valid(spec_given_of(given@)),
    ensures
        spec_config_matches(c, spec_given_of(given@)),
{
    let audio_backend = match find_last(given, OptionName::AudioBackend) {
        Some(k) => audio_named(given[k].value.as_slice()),
        None => None,
    };
    let camera_backend = match find_last(given, OptionName::CameraBackend) {
        Some(k) => camera_named(given[k].value.as_slice()),
        None => None,
    };
    let log_level = match find_last(given, OptionName::Level) {
        Some(k) => level_named(given[k].value.as_slice()),
        None => None,
    };
    ConfigCommand {
        config: opt_text(given, OptionName::ConfigPath),
        serial_device: values_of(given, OptionName::SerialDevice),
        serial_baud_rate: opt_u32(given, OptionName::SerialBaudRate),
        websocket_bind: opt_text(given, OptionName::WebsocketBind),
        telemetry_publish_interval_ms: opt_number(given, OptionName::TelemetryPublishIntervalMs, U64_MAX),
        telemetry_queue_capacity: opt_usize(given, OptionName::TelemetryQueueCapacity),
        audio_enabled: opt_bool(given, OptionName::AudioEnabled),
        audio_backend,
        audio_sample_rate_hz: opt_u32(given, OptionName::AudioSampleRateHz),
        audio_channels: opt_u8(given, OptionName::AudioChannels),
        audio_chunk_samples: opt_usize(given, OptionName::AudioChunkSamples),
        audio_volume_percent: opt_u8(given, OptionName::AudioVolumePercent),
        camera_enabled: opt_bool(given, OptionName::CameraEnabled),
        camera_backend,
        camera_device_index: opt_u32(given, OptionName::CameraDeviceIndex),
        camera_width: opt_u32(given, OptionName::CameraWidth),
        camera_height: opt_u32(given, OptionName::CameraHeight),
        camera_fps: opt_u32(given, OptionName::CameraFps),
        log_level,
        no_color: opt_bool(given, OptionName::NoColor),
        print: find_last(given, OptionName::Print).is_some(),
    }
}

/// The characters of each argument.
pub open spec fn spec_str_views(args: Seq<&str>) -> Seq<Seq<char>> {
    args.map_values(|a: &str| a@)
}

impl Cli {
    /// Read a command line, the program name first, as the grammar above
    /// describes: the command it makes, or why it was refused.
    pub fn parse_args(args: &[&str]) -> (result: Result<Cli, CliError>)
        ensures
            match spec_parse_args(spec_str_views(args@)) {
                Ok((sub, given, target)) => result matches Ok(cli) && spec_cli_matches(cli, sub, given, target),
                Err(e) => result matches Err(x) && x@ == e,
            },
    {
        let mut toks: Vec<Vec<char>> = Vec::new();
        let mut k: usize = 0;
        while k < args.len()
            invariant
                k <= args@.len(),
                spec_arg_views(toks@) =~= spec_str_views(args@).take(k as int),
            decreases args@.len() - k,
        {
            let t = str_to_chars(args[k]);
            let ghost before = toks@;
            toks.push(t);
            assert(spec_str_views(args@).take(k + 1) =~= spec_str_views(args@).take(k as int).push(args@[k as int]@));
            assert(spec_arg_views(toks@) =~= spec_arg_views(before).push(t@));
            k += 1;
        }
        let ghost a = spec_str_views(args@);
        assert(spec_arg_views(toks@) =~= a);
        if toks.len() < 2 {
            return Err(CliError::MissingSubcommand);
        }
        let word = toks[1].as_slice();
        assert(a[1] == word@);
        if is_help(word) || is_word(word, "help") {
            return Err(CliError::HelpRequested);
        }
        if looks_like_option(word) {
            return Err(CliError::UnknownArgument(chars_to_string(word)));
        }
        let sub = match subcommand_named(word) {
            Some(sub) => sub,
            None => {
                return Err(CliError::UnknownSubcommand(chars_to_string(word)));
            },
        };
        match scan(sub, &toks, 2) {
            Err(e) => Err(e),
            Ok((given, target)) => {
                let command = match sub {
                    Subcommand::Ping => Command::Ping(build_ping(&given)),
                    Subcommand::Start => Command::Start(build_start(&given)),
                    Subcommand::Config => Command::Config(build_config(&given)),
                    Subcommand::Test => Command::Test(build_test(&given, target)),
                };
                Ok(Cli { command })
            },
        }
    }
}

} // verus!
