//! Host configuration: the sections of `config.toml` and the command-line
//! overrides applied to them.
//!
//! Reading and writing the file is the application's part.

use vstd::prelude::*;

use crate::host::audio::{AudioBackendKind, AudioConfig, spec_default_audio_config};
use crate::host::logging::LogLevel;
use crate::text::{lowercase_chars, push_str, spec_lowercase, str_to_chars};

verus! {

/// Path of the serial device used when none is configured.
pub const DEFAULT_DEVICE_PATH: &'static str = "/dev/ttyACM0";

/// Version the nexo client reports by default.
pub const PACKAGE_VERSION: &'static str = "0.1.0";

/// The characters of each string of a sequence.
pub open spec fn spec_views(s: Seq<String>) -> Seq<Seq<char>> {
    s.map_values(|p: String| p@)
}

/// A copy of a list of strings.
pub fn clone_strings(s: &Vec<String>) -> (out: Vec<String>)
    ensures
        spec_views(out@) == spec_views(s@),
{
    let mut out: Vec<String> = Vec::new();
    let mut i: usize = 0;
    while i < s.len()
        invariant
            i <= s@.len(),
            spec_views(out@) == spec_views(s@).take(i as int),
        decreases s@.len() - i,
    {
        let copy = s[i].clone();
        let ghost before = out@;
        out.push(copy);
        assert(spec_views(out@) =~= spec_views(before).push(s@[i as int]@));
        assert(spec_views(s@).take(i + 1) =~= spec_views(s@).take(i as int).push(s@[i as int]@));
        i += 1;
    }
    assert(spec_views(s@).take(s@.len() as int) =~= spec_views(s@));
    out
}

/// `parts` joined with `sep` between consecutive parts.
pub open spec fn spec_join(parts: Seq<Seq<char>>, sep: Seq<char>) -> Seq<char>
    decreases parts.len(),
{
    if parts.len() == 0 {
        Seq::empty()
    } else if parts.len() == 1 {
        parts[0]
    } else {
        spec_join(parts.drop_last(), sep) + sep + parts.last()
    }
}

/// Join strings with a separator.
pub fn join_strings(parts: &Vec<String>, sep: &str) -> (joined: String)
    ensures
        joined@ == spec_join(spec_views(parts@), sep@),
{
    let mut joined = String::new();
    let mut i: usize = 0;
    while i < parts.len()
        invariant
            i <= parts@.len(),
            joined@ == spec_join(spec_views(parts@).take(i as int), sep@),
        decreases parts@.len() - i,
    {
        let ghost views = spec_views(parts@);
        assert(views.take(i + 1).drop_last() =~= views.take(i as int));
        assert(views.take(i + 1).last() == parts@[i as int]@);
        if i > 0 {
            push_str(&mut joined, sep);
        }
        push_str(&mut joined, parts[i].as_str());
        proof {
            if i == 0 {
                assert(views.take(1) =~= seq![parts@[0]@]);
                assert(joined@ =~= parts@[0]@);
            }
        }
        i += 1;
    }
    assert(spec_views(parts@).take(parts@.len() as int) =~= spec_views(parts@));
    joined
}

/// Serial link settings: the device paths of the controllers and the baud rate.
#[derive(Clone, Debug, PartialEq, Eq)]
pub struct SerialConfig {
    pub device_paths: Vec<String>,
    pub baud_rate: u32,
}

/// The device paths in effect: the configured ones, or the default path when none is.
pub open spec fn spec_configured_paths(config: SerialConfig) -> Seq<Seq<char>> {
    if config.device_paths@.len() > 0 {
        spec_views(config.device_paths@)
    } else {
        seq![DEFAULT_DEVICE_PATH@]
    }
}

impl SerialConfig {
    /// One device, `/dev/ttyACM0`, at 115200 baud.
    pub fn default_config() -> (config: Self)
        ensures
            spec_views(config.device_paths@) == seq![DEFAULT_DEVICE_PATH@],
            config.baud_rate == 115_200,
    {
        let mut device_paths = Vec::new();
        device_paths.push(DEFAULT_DEVICE_PATH.to_string());
        assert(spec_views(device_paths@) =~= seq![DEFAULT_DEVICE_PATH@]);
        SerialConfig { device_paths, baud_rate: 115_200 }
    }

    /// The device paths in effect.
    pub fn configured_device_paths(&self) -> (paths: Vec<String>)
        ensures
            spec_views(paths@) == spec_configured_paths(*self),
    {
        if self.device_paths.len() > 0 {
            return clone_strings(&self.device_paths);
        }
        let mut paths = Vec::new();
        paths.push(DEFAULT_DEVICE_PATH.to_string());
        assert(spec_views(paths@) =~= seq![DEFAULT_DEVICE_PATH@]);
        paths
    }

    /// The device paths in effect, separated by `, `.
    pub fn display_paths(&self) -> (text: String)
        ensures
            text@ == spec_join(spec_configured_paths(*self), ", "@),
    {
        let paths = self.configured_device_paths();
        join_strings(&paths, ", ")
    }

    /// One configuration per device path in effect, each with this baud rate.
    pub fn split_by_device(&self) -> (configs: Vec<SerialConfig>)
        ensures
            configs@.len() == spec_configured_paths(*self).len(),
            forall|i: int|
                0 <= i < configs@.len() ==> spec_views((#[trigger] configs@[i]).device_paths@) == seq![
                    spec_configured_paths(*self)[i],
                ] && configs@[i].baud_rate == self.baud_rate,
    {
        let paths = self.configured_device_paths();
        let mut configs: Vec<SerialConfig> = Vec::new();
        let mut i: usize = 0;
        while i < paths.len()
            invariant
                i <= paths@.len(),
                spec_views(paths@) == spec_configured_paths(*self),
                configs@.len() == i,
                forall|j: int|
                    0 <= j < i ==> spec_views((#[trigger] configs@[j]).device_paths@) == seq![spec_views(paths@)[j]]
                        && configs@[j].baud_rate == self.baud_rate,
            decreases paths@.len() - i,
        {
            let mut device_paths = Vec::new();
            device_paths.push(paths[i].clone());
            assert(spec_views(device_paths@) =~= seq![spec_views(paths@)[i as int]]);
            configs.push(SerialConfig { device_paths, baud_rate: self.baud_rate });
            i += 1;
        }
        configs
    }

    /// The first configured device path, or the default path when none is.
    pub fn primary_device_path(&self) -> (path: &str)
        ensures
            path@ == (if self.device_paths@.len() > 0 { self.device_paths@[0]@ } else { DEFAULT_DEVICE_PATH@ }),
    {
        if self.device_paths.len() > 0 {
            self.device_paths[0].as_str()
        } else {
            DEFAULT_DEVICE_PATH
        }
    }
}

impl Default for SerialConfig {
    fn default() -> (config: Self)
        ensures
            spec_views(config.device_paths@) == seq![DEFAULT_DEVICE_PATH@],
            config.baud_rate == 115_200,
    {
        Self::default_config()
    }
}

/// Connection supervision intervals, in milliseconds.
#[derive(Clone, Copy, Debug, PartialEq, Eq, Structural)]
pub struct SessionConfig {
    pub health_check_interval_ms: u64,
    pub reconnect_interval_ms: u64,
    pub response_timeout_ms: u64,
}

impl Default for SessionConfig {
    fn default() -> (config: Self)
        ensures
            config == (SessionConfig {
                health_check_interval_ms: 5_000,
                reconnect_interval_ms: 2_000,
                response_timeout_ms: 2_000,
            }),
    {
        SessionConfig { health_check_interval_ms: 5_000, reconnect_interval_ms: 2_000, response_timeout_ms: 2_000 }
    }
}

/// Platform a nexo client announces.
#[derive(Clone, Copy, Debug, PartialEq, Eq, Structural)]
pub enum NexoPlatform {
    Macos,
    Ios,
    Linux,
    Windows,
    Mortimmy,
}

/// The name of a platform.
pub open spec fn spec_platform_name(platform: NexoPlatform) -> &'static str {
    match platform {
        NexoPlatform::Macos => "macos",
        NexoPlatform::Ios => "ios",
        NexoPlatform::Linux => "linux",
        NexoPlatform::Windows => "windows",
        NexoPlatform::Mortimmy => "mortimmy",
    }
}

/// Return the name of a platform.
pub fn nexo_platform_as_str(platform: NexoPlatform) -> (name: &'static str)
    ensures
        name == spec_platform_name(platform),
{
    match platform {
        NexoPlatform::Macos => "macos",
        NexoPlatform::Ios => "ios",
        NexoPlatform::Linux => "linux",
        NexoPlatform::Windows => "windows",
        NexoPlatform::Mortimmy => "mortimmy",
    }
}

/// The platform named by `value`, ignoring ASCII case.
pub open spec fn spec_parse_platform(value: Seq<char>) -> Option<NexoPlatform> {
    let v = spec_lowercase(value);
    if v == "macos"@ {
        Some(NexoPlatform::Macos)
    } else if v == "ios"@ {
        Some(NexoPlatform::Ios)
    } else if v == "linux"@ {
        Some(NexoPlatform::Linux)
    } else if v == "windows"@ {
        Some(NexoPlatform::Windows)
    } else if v == "mortimmy"@ {
        Some(NexoPlatform::Mortimmy)
    } else {
        None
    }
}

/// Parse a platform name, ignoring ASCII case; the error names the value and
/// the accepted names.
pub fn parse_nexo_platform(value: &str) -> (result: Result<NexoPlatform, String>)
    ensures
        match spec_parse_platform(value@) {
            Some(p) => result == Ok::<NexoPlatform, String>(p),
            None => result matches Err(message) && message@ == "unknown nexo platform `"@ + value@
                + "`; expected one of macos, ios, linux, windows, mortimmy"@,
        },
{
    let chars = str_to_chars(value);
    let v = lowercase_chars(chars.as_slice());
    let names: [&str; 5] = ["macos", "ios", "linux", "windows", "mortimmy"];
    let platforms: [NexoPlatform; 5] = [
        NexoPlatform::Macos,
        NexoPlatform::Ios,
        NexoPlatform::Linux,
        NexoPlatform::Windows,
        NexoPlatform::Mortimmy,
    ];
    let mut i: usize = 0;
    while i < 5
        invariant
            i <= 5,
            v@ == spec_lowercase(value@),
            names@ == seq!["macos", "ios", "linux", "windows", "mortimmy"],
            platforms@ == seq![
                NexoPlatform::Macos,
                NexoPlatform::Ios,
                NexoPlatform::Linux,
                NexoPlatform::Windows,
                NexoPlatform::Mortimmy,
            ],
            forall|j: int| 0 <= j < i ==> v@ != (#[trigger] names@[j])@,
        decreases 5 - i,
    {
        let name = str_to_chars(names[i]);
        if crate::text::chars_eq(v.as_slice(), name.as_slice()) {
            return Ok(platforms[i]);
        }
        i += 1;
    }
    assert(v@ != names@[0]@ && v@ != names@[1]@ && v@ != names@[2]@ && v@ != names@[3]@ && v@ != names@[4]@);
    let mut message = String::new();
    push_str(&mut message, "unknown nexo platform `");
    push_str(&mut message, value);
    push_str(&mut message, "`; expected one of macos, ios, linux, windows, mortimmy");
    Err(message)
}

/// Settings of the nexo gateway client.
#[derive(Clone, Debug, PartialEq, Eq)]
pub struct NexoConfig {
    pub gateway_url: String,
    pub client_id: String,
    pub client_version: String,
    pub platform: NexoPlatform,
    pub device_id: String,
}

impl Default for NexoConfig {
    fn default() -> (config: Self)
        ensures
            config.gateway_url@ == "ws://127.0.0.1:6969"@,
            config.client_id@ == "cli"@,
            config.client_version@ == PACKAGE_VERSION@,
            config.platform == NexoPlatform::Mortimmy,
            config.device_id@ == "default_device"@,
    {
        NexoConfig {
            gateway_url: "ws://127.0.0.1:6969".to_string(),
            client_id: "cli".to_string(),
            client_version: PACKAGE_VERSION.to_string(),
            platform: NexoPlatform::Mortimmy,
            device_id: "default_device".to_string(),
        }
    }
}

/// Console logging settings.
#[derive(Clone, Copy, Debug, PartialEq, Eq, Structural)]
pub struct LoggingConfig {
    pub level: LogLevel,
    pub no_color: bool,
}

impl Default for LoggingConfig {
    fn default() -> (config: Self)
        ensures
            config == (LoggingConfig { level: LogLevel::Info, no_color: false }),
    {
        LoggingConfig { level: LogLevel::Info, no_color: false }
    }
}

/// Websocket controller server settings.
#[derive(Clone, Debug, PartialEq, Eq)]
pub struct WebsocketConfig {
    pub bind_address: String,
}

impl Default for WebsocketConfig {
    fn default() -> (config: Self)
        ensures
            config.bind_address@ == "127.0.0.1:9001"@,
    {
        WebsocketConfig { bind_address: "127.0.0.1:9001".to_string() }
    }
}

/// The websocket controller server and its settings.
#[derive(Clone, Debug)]
pub struct WebsocketServer {
    pub config: WebsocketConfig,
}

impl WebsocketServer {
    /// A server with these settings.
    pub fn new(config: WebsocketConfig) -> (server: Self)
        ensures
            server.config == config,
    {
        WebsocketServer { config }
    }
}

/// Telemetry fan-out settings.
#[derive(Clone, Copy, Debug, PartialEq, Eq, Structural)]
pub struct TelemetryConfig {
    pub publish_interval_ms: u64,
    pub queue_capacity: usize,
}

impl Default for TelemetryConfig {
    fn default() -> (config: Self)
        ensures
            config == (TelemetryConfig { publish_interval_ms: 100, queue_capacity: 256 }),
    {
        TelemetryConfig { publish_interval_ms: 100, queue_capacity: 256 }
    }
}

/// Telemetry fan-out: its settings and how many subscribers listen.
#[derive(Clone, Copy, Debug)]
pub struct TelemetryFanout {
    pub config: TelemetryConfig,
    pub subscribers: usize,
}

impl TelemetryFanout {
    /// A fan-out without subscribers.
    pub fn new(config: TelemetryConfig) -> (fanout: Self)
        ensures
            fanout.config == config,
            fanout.subscribers == 0,
    {
        TelemetryFanout { config, subscribers: 0 }
    }

    /// Publish a sample to the subscribers; nothing is kept.
    pub fn publish(&mut self)
        ensures
            *final(self) == *old(self),
    {
    }
}

/// Camera capture backend.
#[derive(Clone, Copy, Debug, PartialEq, Eq, Structural)]
pub enum CameraBackendKind {
    Disabled,
    Nokhwa,
}

/// Camera capture settings.
#[derive(Clone, Copy, Debug, PartialEq, Eq, Structural)]
pub struct CameraConfig {
    pub enabled: bool,
    pub backend: CameraBackendKind,
    pub device_index: u32,
    pub width: u32,
    pub height: u32,
    pub fps: u32,
}

impl Default for CameraConfig {
    fn default() -> (config: Self)
        ensures
            config == (CameraConfig {
                enabled: false,
                backend: CameraBackendKind::Disabled,
                device_index: 0,
                width: 640,
                height: 480,
                fps: 30,
            }),
    {
        CameraConfig {
            enabled: false,
            backend: CameraBackendKind::Disabled,
            device_index: 0,
            width: 640,
            height: 480,
            fps: 30,
        }
    }
}

/// The backend a camera configuration activates. This build carries no
/// camera capture library, so an enabled capture backend is reported as
/// unavailable.
pub open spec fn spec_camera_backend_name(config: CameraConfig) -> &'static str {
    if !config.enabled || config.backend == CameraBackendKind::Disabled {
        "disabled"
    } else {
        "nokhwa-unavailable"
    }
}

/// The camera subsystem: its settings and the backend they activate.
#[derive(Clone, Copy, Debug)]
pub struct CameraSubsystem {
    config: CameraConfig,
    active_backend: &'static str,
}

impl CameraSubsystem {
    /// A camera subsystem for these settings.
    pub fn from_config(config: CameraConfig) -> (subsystem: Self)
        ensures
            subsystem.spec_config() == config,
            subsystem.spec_backend() == spec_camera_backend_name(config),
    {
        let active_backend = if !config.enabled || config.backend == CameraBackendKind::Disabled {
            "disabled"
        } else {
            "nokhwa-unavailable"
        };
        CameraSubsystem { config, active_backend }
    }

    /// The active backend name.
    pub closed spec fn spec_backend(&self) -> &'static str {
        self.active_backend
    }

    /// The settings.
    pub closed spec fn spec_config(&self) -> CameraConfig {
        self.config
    }

    /// The settings.
    pub fn config(&self) -> (config: &CameraConfig)
        ensures
            *config == self.spec_config(),
    {
        &self.config
    }

    /// The name of the active backend.
    pub fn active_backend_name(&self) -> (name: &'static str)
        ensures
            name == self.spec_backend(),
    {
        self.active_backend
    }
}

/// Every section of `config.toml`.
#[derive(Clone, Debug, PartialEq, Eq)]
pub struct AppConfig {
    pub serial: SerialConfig,
    pub session: SessionConfig,
    pub nexo: NexoConfig,
    pub websocket: WebsocketConfig,
    pub telemetry: TelemetryConfig,
    pub audio: AudioConfig,
    pub camera: CameraConfig,
    pub logging: LoggingConfig,
}

impl Default for AppConfig {
    fn default() -> (config: Self)
        ensures
            spec_views(config.serial.device_paths@) == seq![DEFAULT_DEVICE_PATH@],
            config.serial.baud_rate == 115_200,
            config.session.health_check_interval_ms == 5_000,
            config.session.reconnect_interval_ms == 2_000,
            config.session.response_timeout_ms == 2_000,
            config.nexo.gateway_url@ == "ws://127.0.0.1:6969"@,
            config.nexo.client_id@ == "cli"@,
            config.nexo.platform == NexoPlatform::Mortimmy,
            config.websocket.bind_address@ == "127.0.0.1:9001"@,
            config.telemetry == (TelemetryConfig { publish_interval_ms: 100, queue_capacity: 256 }),
            config.audio == spec_default_audio_config(),
            config.camera.enabled == false,
            config.camera.backend == CameraBackendKind::Disabled,
            config.logging == (LoggingConfig { level: LogLevel::Info, no_color: false }),
    {
        AppConfig {
            serial: SerialConfig::default(),
            session: SessionConfig::default(),
            nexo: NexoConfig::default(),
            websocket: WebsocketConfig::default(),
            telemetry: TelemetryConfig::default(),
            audio: AudioConfig::default(),
            camera: CameraConfig::default(),
            logging: LoggingConfig::default(),
        }
    }
}

/// Overrides of `mortimmy config`: every field given replaces the setting.
#[derive(Clone, Debug)]
pub struct ConfigCommand {
    pub config: Option<String>,
    pub serial_device: Vec<String>,
    pub serial_baud_rate: Option<u32>,
    pub websocket_bind: Option<String>,
    pub telemetry_publish_interval_ms: Option<u64>,
    pub telemetry_queue_capacity: Option<usize>,
    pub audio_enabled: Option<bool>,
    pub audio_backend: Option<AudioBackendKind>,
    pub audio_sample_rate_hz: Option<u32>,
    pub audio_channels: Option<u8>,
    pub audio_chunk_samples: Option<usize>,
    pub audio_volume_percent: Option<u8>,
    pub camera_enabled: Option<bool>,
    pub camera_backend: Option<CameraBackendKind>,
    pub camera_device_index: Option<u32>,
    pub camera_width: Option<u32>,
    pub camera_height: Option<u32>,
    pub camera_fps: Option<u32>,
    pub log_level: Option<LogLevel>,
    pub no_color: Option<bool>,
    pub print: bool,
}

/// `value` when given, else `current`.
pub open spec fn spec_or<T>(value: Option<T>, current: T) -> T {
    match value {
        Some(v) => v,
        None => current,
    }
}

impl ConfigCommand {
    /// Apply every given override to `config`; settings not given stay.
    pub fn apply_to(&self, config: &mut AppConfig)
        ensures
            spec_views(final(config).serial.device_paths@) == (if self.serial_device@.len() > 0 {
                spec_views(self.serial_device@)
            } else {
                spec_views(old(config).serial.device_paths@)
            }),
            final(config).serial.baud_rate == spec_or(self.serial_baud_rate, old(config).serial.baud_rate),
            final(config).websocket.bind_address@ == (match self.websocket_bind {
                Some(b) => b@,
                None => old(config).websocket.bind_address@,
            }),
            final(config).telemetry == (TelemetryConfig {
                publish_interval_ms: spec_or(self.telemetry_publish_interval_ms, old(config).telemetry.publish_interval_ms),
                queue_capacity: spec_or(self.telemetry_queue_capacity, old(config).telemetry.queue_capacity),
            }),
            final(config).audio == (AudioConfig {
                enabled: spec_or(self.audio_enabled, old(config).audio.enabled),
                backend: spec_or(self.audio_backend, old(config).audio.backend),
                sample_rate_hz: spec_or(self.audio_sample_rate_hz, old(config).audio.sample_rate_hz),
                channels: spec_or(self.audio_channels, old(config).audio.channels),
                chunk_samples: spec_or(self.audio_chunk_samples, old(config).audio.chunk_samples),
                volume_percent: spec_or(self.audio_volume_percent, old(config).audio.volume_percent),
            }),
            final(config).camera == (CameraConfig {
                enabled: spec_or(self.camera_enabled, old(config).camera.enabled),
                backend: spec_or(self.camera_backend, old(config).camera.backend),
                device_index: spec_or(self.camera_device_index, old(config).camera.device_index),
                width: spec_or(self.camera_width, old(config).camera.width),
                height: spec_or(self.camera_height, old(config).camera.height),
                fps: spec_or(self.camera_fps, old(config).camera.fps),
            }),
            final(config).logging == (LoggingConfig {
                level: spec_or(self.log_level, old(config).logging.level),
                no_color: spec_or(self.no_color, old(config).logging.no_color),
            }),
            final(config).session == old(config).session,
            final(config).nexo == old(config).nexo,
    {
        if self.serial_device.len() > 0 {
            config.serial.device_paths = clone_strings(&self.serial_device);
        }
        if let Some(v) = self.serial_baud_rate {
            config.serial.baud_rate = v;
        }
        if let Some(v) = &self.websocket_bind {
            config.websocket.bind_address = v.clone();
        }
        config.telemetry = self.applied_telemetry(config.telemetry);
        config.audio = self.applied_audio(config.audio);
        config.camera = self.applied_camera(config.camera);
        config.logging = LoggingConfig {
            level: match self.log_level {
                Some(v) => v,
                None => config.logging.level,
            },
            no_color: match self.no_color {
                Some(v) => v,
                None => config.logging.no_color,
            },
        };
    }

    fn applied_telemetry(&self, t: TelemetryConfig) -> (out: TelemetryConfig)
        ensures
            out == (TelemetryConfig {
                publish_interval_ms: spec_or(self.telemetry_publish_interval_ms, t.publish_interval_ms),
                queue_capacity: spec_or(self.telemetry_queue_capacity, t.queue_capacity),
            }),
    {
        TelemetryConfig {
            publish_interval_ms: match self.telemetry_publish_interval_ms {
                Some(v) => v,
                None => t.publish_interval_ms,
            },
            queue_capacity: match self.telemetry_queue_capacity {
                Some(v) => v,
                None => t.queue_capacity,
            },
        }
    }

    fn applied_audio(&self, a: AudioConfig) -> (out: AudioConfig)
        ensures
            out == (AudioConfig {
                enabled: spec_or(self.audio_enabled, a.enabled),
                backend: spec_or(self.audio_backend, a.backend),
                sample_rate_hz: spec_or(self.audio_sample_rate_hz, a.sample_rate_hz),
                channels: spec_or(self.audio_channels, a.channels),
                chunk_samples: spec_or(self.audio_chunk_samples, a.chunk_samples),
                volume_percent: spec_or(self.audio_volume_percent, a.volume_percent),
            }),
    {
        AudioConfig {
            enabled: match self.audio_enabled {
                Some(v) => v,
                None => a.enabled,
            },
            backend: match self.audio_backend {
                Some(v) => v,
                None => a.backend,
            },
            sample_rate_hz: match self.audio_sample_rate_hz {
                Some(v) => v,
                None => a.sample_rate_hz,
            },
            channels: match self.audio_channels {
                Some(v) => v,
                None => a.channels,
            },
            chunk_samples: match self.audio_chunk_samples {
                Some(v) => v,
                None => a.chunk_samples,
            },
            volume_percent: match self.audio_volume_percent {
                Some(v) => v,
                None => a.volume_percent,
            },
        }
    }

    fn applied_camera(&self, c: CameraConfig) -> (out: CameraConfig)
        ensures
            out == (CameraConfig {
                enabled: spec_or(self.camera_enabled, c.enabled),
                backend: spec_or(self.camera_backend, c.backend),
                device_index: spec_or(self.camera_device_index, c.device_index),
                width: spec_or(self.camera_width, c.width),
                height: spec_or(self.camera_height, c.height),
                fps: spec_or(self.camera_fps, c.fps),
            }),
    {
        CameraConfig {
            enabled: match self.camera_enabled {
                Some(v) => v,
                None => c.enabled,
            },
            backend: match self.camera_backend {
                Some(v) => v,
                None => c.backend,
            },
            device_index: match self.camera_device_index {
                Some(v) => v,
                None => c.device_index,
            },
            width: match self.camera_width {
                Some(v) => v,
                None => c.width,
            },
            height: match self.camera_height {
                Some(v) => v,
                None => c.height,
            },
            fps: match self.camera_fps {
                Some(v) => v,
                None => c.fps,
            },
        }
    }
}

/// Overrides of `mortimmy ping`.
#[derive(Clone, Debug)]
pub struct PingCommand {
    pub config: Option<String>,
    pub transport_backend: crate::host::transport::TransportBackendKind,
    pub serial_device: Vec<String>,
    pub serial_baud_rate: Option<u32>,
    pub response_timeout_ms: Option<u64>,
}

impl PingCommand {
    /// The configuration with the serial and timeout overrides applied.
    pub fn merge_config(self, config: AppConfig) -> (merged: AppConfig)
        ensures
            spec_views(merged.serial.device_paths@) == (if self.serial_device@.len() > 0 {
                spec_views(self.serial_device@)
            } else {
                spec_views(config.serial.device_paths@)
            }),
            merged.serial.baud_rate == spec_or(self.serial_baud_rate, config.serial.baud_rate),
            merged.session == (SessionConfig {
                response_timeout_ms: spec_or(self.response_timeout_ms, config.session.response_timeout_ms),
                ..config.session
            }),
            merged.nexo == config.nexo,
            merged.websocket == config.websocket,
            merged.telemetry == config.telemetry,
            merged.audio == config.audio,
            merged.camera == config.camera,
            merged.logging == config.logging,
    {
        let mut config = config;
        if self.serial_device.len() > 0 {
            config.serial.device_paths = self.serial_device;
        }
        if let Some(v) = self.serial_baud_rate {
            config.serial.baud_rate = v;
        }
        if let Some(v) = self.response_timeout_ms {
            config.session.response_timeout_ms = v;
        }
        config
    }
}

} // verus!
