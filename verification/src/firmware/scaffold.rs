//! Aggregate firmware state: applies host messages, answers requests, and
//! schedules background reports.

use vstd::prelude::*;

use crate::firmware::audio_out::{
    spec_chunk_acceptable, spec_default_audio_pack_config, spec_saturating_increment, AudioOutputTask,
    AudioRoute,
};
use crate::firmware::board::{active_board_profile, spec_pimoroni_pico_lipo_2, BoardProfile};
use crate::firmware::control::{
    spec_apply_desired_state, spec_apply_limit, spec_initial_control, spec_is_limit_key,
    spec_limit_value_valid, ControlLoop,
};
use crate::firmware::link_rx::{spec_record_host_message, LinkRxTask};
use crate::firmware::link_tx::{spec_record_controller_message, LinkTxTask};
use crate::firmware::sensors::{spec_store_range, SensorSuite};
use crate::firmware::trellis::{PadEvent, TrellisTask};
use crate::firmware::usb::{TransportClass, UsbTransport};
use crate::protocol::{
    AudioCommandResponse, AudioStatusTelemetry, ControlAppliedReport, ControllerCapabilities,
    ControllerEvent, ControllerMessage, ControllerResponse, ControllerResponsePayload, ControllerRole,
    ControllerStatus, HostMessage, ParameterKey, ParameterUpdate, RangeSensorPosition, RangeTelemetry,
    ReportConfig, ReportMessage, ReportPayload, RequestMessage, RequestOutcome, RequestPayload,
    WireMessage, CAPABILITY_AUDIO_OUTPUT, CAPABILITY_DRIVE, CAPABILITY_RANGE_SENSOR, CAPABILITY_SERVO,
    CAPABILITY_TEXT_DISPLAY,
};
use crate::samples::AUDIO_CHUNK_CAPACITY_SAMPLES;
use crate::units::{CoreError, Millimeters, Mode};

verus! {

/// Link quality reported while no link statistics are collected.
pub const DEFAULT_LINK_QUALITY: u8 = 100;

/// Deterministic firmware bring-up summary shared by host tests and logs.
#[derive(Clone, Copy, Debug, PartialEq, Eq)]
pub struct FirmwareBringUpReport {
    /// Human-readable board name.
    pub board_name: &'static str,
    /// Microcontroller identifier.
    pub board_mcu: &'static str,
    /// External flash size in bytes.
    pub flash_bytes: usize,
    /// External PSRAM size in bytes.
    pub psram_bytes: usize,
    /// Default transport path exposed by the firmware.
    pub transport: &'static str,
    /// Safe initial control mode.
    pub control_mode: &'static str,
    /// Default audio routing policy.
    pub audio_route: &'static str,
    /// Default audio chunk size.
    pub audio_chunk_samples: usize,
    /// Whether Trellis polling is enabled at boot.
    pub trellis_enabled: bool,
    /// Whether ultrasonic sensing is enabled at boot.
    pub ultrasonic_enabled: bool,
    /// Whether battery monitoring is enabled at boot.
    pub battery_monitor_enabled: bool,
}

/// Aggregate firmware scaffold state for board bring-up and unit-level testing.
#[derive(Clone, Copy, Debug)]
pub struct FirmwareScaffold {
    /// Static board profile.
    pub board: BoardProfile,
    /// Control loop and safety state.
    pub control: ControlLoop,
    /// Link receive path.
    pub link_rx: LinkRxTask,
    /// Link transmit path.
    pub link_tx: LinkTxTask,
    /// Sensor tasks.
    pub sensors: SensorSuite,
    /// USB transport setup.
    pub usb: UsbTransport,
    /// Audio output state for the Pico Audio Pack.
    pub audio: AudioOutputTask,
    /// Trellis keypad and LED state.
    pub trellis: TrellisTask,
}

/// Label of a robot mode in bring-up reports.
pub open spec fn spec_mode_label(mode: Mode) -> &'static str {
    match mode {
        Mode::Teleop => "teleop",
        Mode::Autonomous => "autonomous",
        Mode::Fault => "fault",
    }
}

/// Label of a transport class in bring-up reports.
pub open spec fn spec_transport_label(class: TransportClass) -> &'static str {
    match class {
        TransportClass::UsbCdc => "usb-cdc",
        TransportClass::UartFallback => "uart-fallback",
    }
}

/// Label of an audio route in bring-up reports.
pub open spec fn spec_audio_route_label(route: AudioRoute) -> &'static str {
    match route {
        AudioRoute::HostWaveformBridge => "host-waveform-bridge",
        AudioRoute::LocalSynthesis => "local-synthesis",
    }
}

/// Return the bring-up label of `mode`.
pub fn mode_label(mode: Mode) -> (label: &'static str)
    ensures
        label == spec_mode_label(mode),
{
    match mode {
        Mode::Teleop => "teleop",
        Mode::Autonomous => "autonomous",
        Mode::Fault => "fault",
    }
}

/// Return the bring-up label of transport `class`.
pub fn transport_label(class: TransportClass) -> (label: &'static str)
    ensures
        label == spec_transport_label(class),
{
    match class {
        TransportClass::UsbCdc => "usb-cdc",
        TransportClass::UartFallback => "uart-fallback",
    }
}

/// Return the bring-up label of audio `route`.
pub fn audio_route_label(route: AudioRoute) -> (label: &'static str)
    ensures
        label == spec_audio_route_label(route),
{
    match route {
        AudioRoute::HostWaveformBridge => "host-waveform-bridge",
        AudioRoute::LocalSynthesis => "local-synthesis",
    }
}

/// The capability bundle each controller image is built with.
pub open spec fn spec_role_capabilities(role: ControllerRole) -> u32 {
    match role {
        ControllerRole::MotionController => CAPABILITY_DRIVE | CAPABILITY_SERVO | CAPABILITY_RANGE_SENSOR
            | CAPABILITY_TEXT_DISPLAY,
        ControllerRole::AudioController => CAPABILITY_AUDIO_OUTPUT,
    }
}

/// The role of the image this scaffold runs as: the motion controller.
pub open spec fn spec_active_role() -> ControllerRole {
    ControllerRole::MotionController
}

/// Return the capability bundle of a controller image with `role`.
pub fn role_capabilities(role: ControllerRole) -> (caps: ControllerCapabilities)
    ensures
        caps.0 == spec_role_capabilities(role),
{
    match role {
        ControllerRole::MotionController => ControllerCapabilities(
            CAPABILITY_DRIVE | CAPABILITY_SERVO | CAPABILITY_RANGE_SENSOR | CAPABILITY_TEXT_DISPLAY,
        ),
        ControllerRole::AudioController => ControllerCapabilities(CAPABILITY_AUDIO_OUTPUT),
    }
}

/// Return the role of the active firmware image.
pub fn active_controller_role() -> (role: ControllerRole)
    ensures
        role == spec_active_role(),
{
    ControllerRole::MotionController
}

/// Return the capability bundle of the active firmware image.
pub fn active_controller_capabilities() -> (caps: ControllerCapabilities)
    ensures
        caps.0 == spec_role_capabilities(spec_active_role()),
{
    role_capabilities(active_controller_role())
}

/// `value` as a `u8`, when it is one.
pub open spec fn spec_u8_value(value: i32) -> Option<u8> {
    if 0 <= value <= u8::MAX {
        Some(value as u8)
    } else {
        None
    }
}

/// `value` as a non-zero `u16`, when it is one.
pub open spec fn spec_non_zero_u16(value: i32) -> Option<u16> {
    if 1 <= value <= u16::MAX {
        Some(value as u16)
    } else {
        None
    }
}

/// `value` as a non-zero `usize`, when it is one.
pub open spec fn spec_non_zero_usize(value: i32) -> Option<usize> {
    if 1 <= value {
        Some(value as usize)
    } else {
        None
    }
}

/// Accept `value` as a `u8` in `0..=255`.
pub fn clamp_u8(value: i32) -> (result: Option<u8>)
    ensures
        result == spec_u8_value(value),
{
    if 0 <= value && value <= u8::MAX as i32 {
        Some(value as u8)
    } else {
        None
    }
}

/// Accept `value` as a `u16` in `1..=65535`.
pub fn clamp_non_zero_u16(value: i32) -> (result: Option<u16>)
    ensures
        result == spec_non_zero_u16(value),
{
    if 1 <= value && value <= u16::MAX as i32 {
        Some(value as u16)
    } else {
        None
    }
}

/// Accept `value` as a `usize` in `1..=i32::MAX`.
pub fn clamp_non_zero_usize(value: i32) -> (result: Option<usize>)
    ensures
        result == spec_non_zero_usize(value),
{
    if 1 <= value {
        Some(value as usize)
    } else {
        None
    }
}

/// Whether `update` is a valid subsystem (non-limit) parameter assignment.
pub open spec fn spec_subsystem_value_valid(update: ParameterUpdate) -> bool {
    match update.key {
        ParameterKey::TrellisBrightness => spec_u8_value(update.value) is Some,
        ParameterKey::TrellisPollIntervalMs => spec_non_zero_u16(update.value) is Some,
        ParameterKey::AudioChunkSamples => 1 <= update.value <= AUDIO_CHUNK_CAPACITY_SAMPLES,
        _ => false,
    }
}

/// Whether the scaffold accepts `update`.
pub open spec fn spec_parameter_valid(update: ParameterUpdate) -> bool {
    if spec_is_limit_key(update.key) {
        spec_limit_value_valid(update)
    } else {
        spec_subsystem_value_valid(update)
    }
}

/// The freshly booted scaffold.
pub open spec fn spec_initial_scaffold(s: FirmwareScaffold) -> bool {
    &&& s.board == spec_pimoroni_pico_lipo_2()
    &&& spec_initial_control(s.control)
    &&& s.link_rx.last_requested_mode is None
    &&& s.link_rx.last_audio_chunk_index is None
    &&& s.link_rx.last_trellis_led_mask is None
    &&& s.link_rx.last_message_kind is None
    &&& s.link_tx.sequence == 0
    &&& !s.link_tx.audio_status_dirty
    &&& !s.link_tx.trellis_event_dirty
    &&& s.link_tx.range_report_config is None
    &&& s.link_tx.range_pending_mask == 0
    &&& s.link_tx.last_range_report_at_ms == 0
    &&& s.link_tx.last_message_kind is None
    &&& !s.sensors.battery.enabled
    &&& s.sensors.battery.last_sample is None
    &&& !s.sensors.ultrasonic.enabled
    &&& s.sensors.ultrasonic.ranges.forward_left is None
    &&& s.sensors.ultrasonic.ranges.forward_right is None
    &&& s.usb.class == TransportClass::UsbCdc
    &&& s.audio.config == spec_default_audio_pack_config()
    &&& s.audio.route == AudioRoute::HostWaveformBridge
    &&& s.audio.queued_chunks == 0
    &&& !s.trellis.config.enabled
    &&& s.trellis.config.poll_interval_ms == 25
    &&& s.trellis.config.brightness == 32
    &&& s.trellis.led_mask == 0
    &&& s.trellis.last_pad is None
}

/// Controller identity and health as the scaffold reports it.
pub open spec fn spec_controller_status(s: FirmwareScaffold) -> ControllerStatus {
    ControllerStatus {
        mode: s.control.mode,
        controller_role: spec_active_role(),
        capabilities: ControllerCapabilities(spec_role_capabilities(spec_active_role())),
        uptime_ms: 0,
        link_quality: DEFAULT_LINK_QUALITY,
        error: s.control.last_error,
    }
}

/// The control-applied report for `generation`.
pub open spec fn spec_control_applied_report(s: FirmwareScaffold, generation: u32) -> ControlAppliedReport {
    ControlAppliedReport {
        generation,
        mode: s.control.mode,
        drive: s.control.drive.telemetry_view(),
        servo: s.control.servo.telemetry_view(),
        error: s.control.last_error,
    }
}

/// Audio playback status as the scaffold reports it.
pub open spec fn spec_audio_status(s: FirmwareScaffold) -> AudioStatusTelemetry {
    AudioStatusTelemetry { queued_chunks: s.audio.queued_chunks, speaking: s.audio.queued_chunks > 0, underrun_count: 0 }
}

/// The scaffold with `error` recorded in its control loop.
pub open spec fn spec_with_error(s: FirmwareScaffold, error: CoreError) -> FirmwareScaffold {
    FirmwareScaffold { control: ControlLoop { last_error: Some(error), ..s.control }, ..s }
}

/// The scaffold after the valid subsystem parameter `update`.
pub open spec fn spec_apply_subsystem(s: FirmwareScaffold, update: ParameterUpdate) -> FirmwareScaffold {
    let cleared = ControlLoop { last_error: None, ..s.control };
    match update.key {
        ParameterKey::TrellisBrightness => FirmwareScaffold {
            trellis: TrellisTask {
                config: crate::firmware::trellis::TrellisConfig { brightness: update.value as u8, ..s.trellis.config },
                ..s.trellis
            },
            control: cleared,
            ..s
        },
        ParameterKey::TrellisPollIntervalMs => FirmwareScaffold {
            trellis: TrellisTask {
                config: crate::firmware::trellis::TrellisConfig {
                    poll_interval_ms: update.value as u16,
                    ..s.trellis.config
                },
                ..s.trellis
            },
            control: cleared,
            ..s
        },
        ParameterKey::AudioChunkSamples => FirmwareScaffold {
            audio: AudioOutputTask {
                config: crate::firmware::audio_out::AudioPackConfig {
                    chunk_samples: update.value as usize,
                    ..s.audio.config
                },
                ..s.audio
            },
            control: cleared,
            ..s
        },
        _ => s,
    }
}

/// The scaffold and outcome after one parameter update: valid updates are
/// installed, invalid ones record `InvalidCommand` and are refused.
pub open spec fn spec_apply_parameter(s: FirmwareScaffold, update: ParameterUpdate) -> (FirmwareScaffold, RequestOutcome) {
    if !spec_parameter_valid(update) {
        (spec_with_error(s, CoreError::InvalidCommand), RequestOutcome { error: Some(CoreError::InvalidCommand) })
    } else if spec_is_limit_key(update.key) {
        (FirmwareScaffold { control: spec_apply_limit(s.control, update), ..s }, RequestOutcome { error: None })
    } else {
        (spec_apply_subsystem(s, update), RequestOutcome { error: None })
    }
}

/// The scaffold and response payload after one correlated request.
pub open spec fn spec_handle_request(s: FirmwareScaffold, payload: RequestPayload) -> (FirmwareScaffold, ControllerResponsePayload) {
    match payload {
        RequestPayload::GetControllerStatus => (s, ControllerResponsePayload::ControllerStatus(spec_controller_status(s))),
        RequestPayload::SetParam(update) => {
            let (next, outcome) = spec_apply_parameter(s, update);
            (next, ControllerResponsePayload::Parameter(outcome))
        },
        RequestPayload::PlayAudio(command) => if spec_chunk_acceptable(s.audio.config, command) {
            let next = FirmwareScaffold {
                audio: AudioOutputTask { queued_chunks: spec_saturating_increment(s.audio.queued_chunks), ..s.audio },
                link_tx: LinkTxTask { audio_status_dirty: true, ..s.link_tx },
                ..s
            };
            (next, ControllerResponsePayload::Audio(AudioCommandResponse { status: spec_audio_status(next), error: None }))
        } else {
            let next = spec_with_error(s, CoreError::InvalidCommand);
            (
                next,
                ControllerResponsePayload::Audio(
                    AudioCommandResponse { status: spec_audio_status(next), error: Some(CoreError::InvalidCommand) },
                ),
            )
        },
        RequestPayload::SetTrellisLeds(command) => (
            FirmwareScaffold { trellis: TrellisTask { led_mask: command.led_mask, ..s.trellis }, ..s },
            ControllerResponsePayload::TrellisLeds(RequestOutcome { error: None }),
        ),
        RequestPayload::ConfigureReports(config) => (
            FirmwareScaffold { link_tx: spec_configure_report(s.link_tx, config, s), ..s },
            ControllerResponsePayload::ReportConfig(RequestOutcome { error: None }),
        ),
    }
}

/// The transmit state after configuring `config` against the scaffold's latest ranges.
pub open spec fn spec_configure_report(tx: LinkTxTask, config: ReportConfig, s: FirmwareScaffold) -> LinkTxTask {
    match config.report {
        crate::protocol::ReportKind::Range => LinkTxTask {
            range_report_config: Some(config),
            range_pending_mask: crate::firmware::link_tx::spec_available_range_mask(s.sensors.ultrasonic.ranges),
            last_range_report_at_ms: 0,
            ..tx
        },
        crate::protocol::ReportKind::AudioStatus => LinkTxTask { audio_status_dirty: true, ..tx },
        _ => tx,
    }
}

/// The scaffold and reply after one host message, before the reply is
/// recorded on the transmit path.
pub open spec fn spec_apply_host_message(s: FirmwareScaffold, message: HostMessage) -> (FirmwareScaffold, ControllerMessage) {
    let s = FirmwareScaffold { link_rx: spec_record_host_message(s.link_rx, message), ..s };
    match message {
        HostMessage::Control(control) => {
            let next = FirmwareScaffold { control: spec_apply_desired_state(s.control, control.desired_state), ..s };
            (
                next,
                ControllerMessage::Report(
                    ReportMessage { payload: ReportPayload::ControlApplied(spec_control_applied_report(next, control.generation)) },
                ),
            )
        },
        HostMessage::Request(request) => {
            let (next, payload) = spec_handle_request(s, request.payload);
            (next, ControllerMessage::Response(ControllerResponse { request_id: request.request_id, payload }))
        },
    }
}

/// The scaffold and reply after one host message, with the reply recorded.
pub open spec fn spec_handle_host_message(s: FirmwareScaffold, message: HostMessage) -> (FirmwareScaffold, ControllerMessage) {
    let (next, reply) = spec_apply_host_message(s, message);
    (FirmwareScaffold { link_tx: spec_record_controller_message(next.link_tx, reply), ..next }, reply)
}

impl crate::firmware::drive::DriveTrainState {
    /// The telemetry this drive state renders.
    pub open spec fn telemetry_view(self) -> crate::protocol::MotorStateTelemetry {
        crate::protocol::MotorStateTelemetry {
            left_pwm: self.left_pwm,
            right_pwm: self.right_pwm,
            current_limit_hit: self.current_limit_hit,
        }
    }
}

impl crate::firmware::servo::PanTiltServoState {
    /// The telemetry this servo state renders.
    pub open spec fn telemetry_view(self) -> crate::protocol::ServoStateTelemetry {
        crate::protocol::ServoStateTelemetry { pan: self.pan, tilt: self.tilt }
    }
}

impl FirmwareScaffold {
    /// The freshly booted scaffold.
    pub fn new() -> (s: Self)
        ensures
            spec_initial_scaffold(s),
    {
        FirmwareScaffold {
            board: active_board_profile(),
            control: ControlLoop::new(),
            link_rx: LinkRxTask::new(),
            link_tx: LinkTxTask::new(),
            sensors: SensorSuite::new(),
            usb: UsbTransport::new(),
            audio: AudioOutputTask::new(),
            trellis: TrellisTask::new(),
        }
    }

    /// Summarize the bring-up state used for logging and tests.
    pub fn bring_up_report(&self) -> (report: FirmwareBringUpReport)
        ensures
            report == (FirmwareBringUpReport {
                board_name: self.board.name,
                board_mcu: self.board.mcu,
                flash_bytes: self.board.flash_bytes,
                psram_bytes: self.board.psram_bytes,
                transport: spec_transport_label(self.usb.class),
                control_mode: spec_mode_label(self.control.mode),
                audio_route: spec_audio_route_label(self.audio.route),
                audio_chunk_samples: self.audio.config.chunk_samples,
                trellis_enabled: self.trellis.config.enabled,
                ultrasonic_enabled: self.sensors.ultrasonic.enabled,
                battery_monitor_enabled: self.sensors.battery.enabled,
            }),
    {
        FirmwareBringUpReport {
            board_name: self.board.name,
            board_mcu: self.board.mcu,
            flash_bytes: self.board.flash_bytes,
            psram_bytes: self.board.psram_bytes,
            transport: transport_label(self.usb.class),
            control_mode: mode_label(self.control.mode),
            audio_route: audio_route_label(self.audio.route),
            audio_chunk_samples: self.audio.config.chunk_samples,
            trellis_enabled: self.trellis.config.enabled,
            ultrasonic_enabled: self.sensors.ultrasonic.enabled,
            battery_monitor_enabled: self.sensors.battery.enabled,
        }
    }

    /// Apply a host-originated protocol message and emit the immediate controller reply.
    pub fn handle_host_message(&mut self, message: HostMessage) -> (reply: Option<ControllerMessage>)
        ensures
            reply == Some(spec_handle_host_message(*old(self), message).1),
            *final(self) == spec_handle_host_message(*old(self), message).0,
    {
        self.link_rx.record_message(&message);

        let response = match message {
            HostMessage::Control(control) => {
                self.control.apply_desired_state(control.desired_state);
                ControllerMessage::Report(
                    ReportMessage { payload: ReportPayload::ControlApplied(self.control_applied_report(control.generation)) },
                )
            },
            HostMessage::Request(request) => ControllerMessage::Response(self.handle_request(request)),
        };

        self.link_tx.record_message(&response);
        Some(response)
    }

    /// Handle one correlated `request` and return the matching controller response.
    fn handle_request(&mut self, request: RequestMessage) -> (response: ControllerResponse)
        ensures
            response == (ControllerResponse {
                request_id: request.request_id,
                payload: spec_handle_request(*old(self), request.payload).1,
            }),
            *final(self) == spec_handle_request(*old(self), request.payload).0,
    {
        let payload = match request.payload {
            RequestPayload::GetControllerStatus => ControllerResponsePayload::ControllerStatus(self.controller_status()),
            RequestPayload::SetParam(update) => ControllerResponsePayload::Parameter(self.apply_parameter(update)),
            RequestPayload::PlayAudio(command) => {
                let response = match self.audio.enqueue_chunk(&command) {
                    Ok(()) => {
                        self.link_tx.audio_status_dirty = true;
                        AudioCommandResponse { status: self.audio_status_telemetry(), error: None }
                    },
                    Err(error) => {
                        self.control.record_error(error);
                        AudioCommandResponse { status: self.audio_status_telemetry(), error: Some(error) }
                    },
                };
                ControllerResponsePayload::Audio(response)
            },
            RequestPayload::SetTrellisLeds(command) => {
                self.trellis.apply_led_mask(command.led_mask);
                ControllerResponsePayload::TrellisLeds(RequestOutcome::ok())
            },
            RequestPayload::ConfigureReports(config) => ControllerResponsePayload::ReportConfig(
                self.configure_report(config),
            ),
        };

        ControllerResponse { request_id: request.request_id, payload }
    }

    /// Apply a complete wire message and convert any response back into a wire message.
    pub fn apply_wire_message(&mut self, message: WireMessage) -> (reply: Option<WireMessage>)
        ensures
            message matches WireMessage::Host(host) ==> {
                &&& reply == Some(WireMessage::Controller(spec_handle_host_message(*old(self), host).1))
                &&& *final(self) == spec_handle_host_message(*old(self), host).0
            },
            message is Controller ==> reply is None && *final(self) == *old(self),
    {
        match message {
            WireMessage::Host(message) => match self.handle_host_message(message) {
                Some(reply) => Some(WireMessage::Controller(reply)),
                None => None,
            },
            WireMessage::Controller(_) => None,
        }
    }

    /// Snapshot controller identity and health from the current control plane.
    pub fn controller_status(&self) -> (status: ControllerStatus)
        ensures
            status == spec_controller_status(*self),
    {
        ControllerStatus {
            mode: self.control.mode,
            controller_role: active_controller_role(),
            capabilities: active_controller_capabilities(),
            uptime_ms: 0,
            link_quality: DEFAULT_LINK_QUALITY,
            error: self.control.last_error,
        }
    }

    /// Snapshot the applied desired control state for a reported generation.
    pub fn control_applied_report(&self, control_generation: u32) -> (report: ControlAppliedReport)
        ensures
            report == spec_control_applied_report(*self, control_generation),
    {
        ControlAppliedReport::new(
            control_generation,
            self.control.mode,
            self.control.drive.telemetry(),
            self.control.servo.telemetry(),
            self.control.last_error,
        )
    }

    /// Enter a fault state after link loss or another safety-critical failure:
    /// everything returns to its boot state except the mode, which becomes
    /// `Fault`, and the recorded error.
    pub fn enter_fault_state(&mut self, error: Option<CoreError>)
        ensures
            spec_initial_scaffold(FirmwareScaffold {
                control: ControlLoop { mode: Mode::Teleop, last_error: None, ..final(self).control },
                ..*final(self)
            }),
            final(self).control.mode == Mode::Fault,
            final(self).control.last_error == error,
    {
        *self = Self::new();
        self.control.mode = Mode::Fault;
        self.control.last_error = error;
    }

    /// Snapshot audio status telemetry from the current playback state.
    pub fn audio_status_telemetry(&self) -> (status: AudioStatusTelemetry)
        ensures
            status == spec_audio_status(*self),
    {
        AudioStatusTelemetry {
            queued_chunks: self.audio.queued_chunks,
            speaking: self.audio.queued_chunks > 0,
            underrun_count: 0,
        }
    }

    /// Record a range measurement, queue it for reporting, and return its report.
    pub fn record_range_measurement(
        &mut self,
        sensor: RangeSensorPosition,
        distance_mm: Millimeters,
        quality: u8,
    ) -> (message: ControllerMessage)
        ensures
            message == ControllerMessage::Report(
                ReportMessage { payload: ReportPayload::Range(RangeTelemetry { sensor, distance_mm, quality }) },
            ),
            final(self).sensors.ultrasonic.enabled,
            final(self).sensors.ultrasonic.ranges == spec_store_range(
                old(self).sensors.ultrasonic.ranges,
                RangeTelemetry { sensor, distance_mm, quality },
            ),
            final(self).link_tx.range_pending_mask == old(self).link_tx.range_pending_mask
                | crate::firmware::link_tx::spec_range_pending_bit(sensor),
            final(self).control == old(self).control,
            final(self).audio == old(self).audio,
            final(self).trellis == old(self).trellis,
    {
        let telemetry = self.sensors.record_range(sensor, distance_mm, quality);
        self.link_tx.queue_range_sample(sensor);
        ControllerMessage::Report(ReportMessage { payload: ReportPayload::Range(telemetry) })
    }

    /// Record a battery measurement and return its report representation.
    pub fn record_battery_measurement(&mut self, millivolts: u16) -> (message: ControllerMessage)
        ensures
            message == ControllerMessage::Report(
                ReportMessage { payload: ReportPayload::Battery(crate::protocol::BatteryTelemetry { millivolts }) },
            ),
            final(self).sensors.battery.enabled,
            final(self).sensors.battery.last_sample == Some(crate::protocol::BatteryTelemetry { millivolts }),
            final(self).control == old(self).control,
            final(self).link_tx == old(self).link_tx,
    {
        let telemetry = self.sensors.record_battery(millivolts);
        ControllerMessage::Report(ReportMessage { payload: ReportPayload::Battery(telemetry) })
    }

    /// Record a Trellis pad event and return its event representation.
    pub fn record_trellis_event(&mut self, event: PadEvent) -> (message: ControllerMessage)
        ensures
            message == ControllerMessage::Event(
                ControllerEvent::TrellisPad(
                    crate::protocol::TrellisPadTelemetry {
                        pad_index: event.index.spec_value(),
                        event: crate::firmware::trellis::spec_pad_event_kind(event.kind),
                    },
                ),
            ),
            final(self).trellis.config.enabled,
            final(self).trellis.last_pad == Some(event.index),
            final(self).link_tx == spec_record_controller_message(
                LinkTxTask { trellis_event_dirty: true, ..old(self).link_tx },
                message,
            ),
            final(self).control == old(self).control,
    {
        self.link_tx.trellis_event_dirty = true;
        let message = ControllerMessage::Event(ControllerEvent::TrellisPad(self.trellis.record_pad_event(event)));
        self.link_tx.record_message(&message);
        message
    }

    /// Return the next background controller message that should be emitted on the live link.
    pub fn next_background_message(&mut self, now_ms: u64) -> (message: Option<ControllerMessage>)
        ensures
            *final(self) == (FirmwareScaffold {
                link_tx: crate::firmware::link_tx::spec_next_message(old(self).link_tx, now_ms, old(self).sensors.ultrasonic.ranges).0,
                ..*old(self)
            }),
            message == crate::firmware::link_tx::spec_next_message(old(self).link_tx, now_ms, old(self).sensors.ultrasonic.ranges).1,
            final(self).control == old(self).control,
            final(self).sensors == old(self).sensors,
            old(self).link_tx.range_report_config is None ==> message is None && *final(self) == *old(self),
            message matches Some(m) ==> m matches ControllerMessage::Report(r) && r.payload matches ReportPayload::Range(
                sample,
            ) && (old(self).sensors.ultrasonic.ranges.forward_left == Some(sample)
                || old(self).sensors.ultrasonic.ranges.forward_right == Some(sample)),
    {
        let ranges = self.sensors.ultrasonic.ranges;
        self.link_tx.next_message(now_ms, ranges)
    }

    /// Apply host report cadence `config` to the controller transmit state.
    fn configure_report(&mut self, config: ReportConfig) -> (outcome: RequestOutcome)
        ensures
            outcome.error is None,
            *final(self) == (FirmwareScaffold {
                link_tx: spec_configure_report(old(self).link_tx, config, *old(self)),
                ..*old(self)
            }),
    {
        let ranges = self.sensors.ultrasonic.ranges;
        self.link_tx.configure_report(config, ranges);
        RequestOutcome::ok()
    }

    /// Apply one parameter `update` and convert the result into a request outcome.
    fn apply_parameter(&mut self, update: ParameterUpdate) -> (outcome: RequestOutcome)
        ensures
            outcome == spec_apply_parameter(*old(self), update).1,
            *final(self) == spec_apply_parameter(*old(self), update).0,
    {
        match self.control.apply_limit_parameter(update) {
            Ok(true) => RequestOutcome::ok(),
            Ok(false) => {
                match self.apply_subsystem_parameter(update) {
                    Err(error) => {
                        self.control.record_error(error);
                        RequestOutcome::from_error(error)
                    },
                    Ok(()) => RequestOutcome::ok(),
                }
            },
            Err(error) => {
                self.control.record_error(error);
                RequestOutcome::from_error(error)
            },
        }
    }

    /// Apply one non-limit parameter `update`.
    fn apply_subsystem_parameter(&mut self, update: ParameterUpdate) -> (result: Result<(), CoreError>)
        ensures
            spec_subsystem_value_valid(update) ==> result is Ok && *final(self) == spec_apply_subsystem(
                *old(self),
                update,
            ),
            !spec_subsystem_value_valid(update) ==> result == Err::<(), CoreError>(CoreError::InvalidCommand)
                && *final(self) == *old(self),
    {
        match update.key {
            ParameterKey::TrellisBrightness => {
                match clamp_u8(update.value) {
                    Some(brightness) => {
                        self.trellis.config.brightness = brightness;
                        self.control.last_error = None;
                        Ok(())
                    },
                    None => Err(CoreError::InvalidCommand),
                }
            },
            ParameterKey::TrellisPollIntervalMs => {
                match clamp_non_zero_u16(update.value) {
                    Some(interval) => {
                        self.trellis.config.poll_interval_ms = interval;
                        self.control.last_error = None;
                        Ok(())
                    },
                    None => Err(CoreError::InvalidCommand),
                }
            },
            ParameterKey::AudioChunkSamples => {
                match clamp_non_zero_usize(update.value) {
                    Some(chunk_samples) => {
                        match self.audio.set_chunk_samples(chunk_samples) {
                            Ok(()) => {
                                self.control.last_error = None;
                                Ok(())
                            },
                            Err(error) => Err(error),
                        }
                    },
                    None => Err(CoreError::InvalidCommand),
                }
            },
            ParameterKey::MaxDrivePwm | ParameterKey::MaxServoStep | ParameterKey::LinkTimeoutMs => Err(
                CoreError::InvalidCommand,
            ),
        }
    }
}

impl Default for FirmwareScaffold {
    fn default() -> (s: Self)
        ensures
            spec_initial_scaffold(s),
    {
        Self::new()
    }
}

} // verus!
