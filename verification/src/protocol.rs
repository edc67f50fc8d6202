//! Typed control, request, report, and event messages exchanged between the
//! host brain and the controllers.

use vstd::prelude::*;

use crate::units::{CoreError, Millimeters, Mode, PwmTicks, ServoTicks};

verus! {

/// Differential drive request.
#[derive(Clone, Copy, Debug, PartialEq, Eq, Structural)]
pub struct DriveCommand {
    pub left: PwmTicks,
    pub right: PwmTicks,
}

/// Pan/tilt servo request.
#[derive(Clone, Copy, Debug, PartialEq, Eq, Structural)]
pub struct ServoCommand {
    pub pan: ServoTicks,
    pub tilt: ServoTicks,
}

/// Full latest-wins control snapshot.
#[derive(Clone, Copy, Debug, PartialEq, Eq, Structural)]
pub struct DesiredStateCommand {
    pub mode: Mode,
    pub drive: DriveCommand,
    pub servo: ServoCommand,
}

impl DesiredStateCommand {
    /// Build a desired-state snapshot.
    pub fn new(mode: Mode, drive: DriveCommand, servo: ServoCommand) -> (command: Self)
        ensures
            command == (DesiredStateCommand { mode, drive, servo }),
    {
        DesiredStateCommand { mode, drive, servo }
    }

    /// The drive part of the snapshot.
    pub fn drive(&self) -> (drive: DriveCommand)
        ensures
            drive == self.drive,
    {
        self.drive
    }

    /// The servo part of the snapshot.
    pub fn servo(&self) -> (servo: ServoCommand)
        ensures
            servo == self.servo,
    {
        self.servo
    }
}

/// A desired-state snapshot tagged with the host's control generation.
#[derive(Clone, Copy, Debug, PartialEq, Eq, Structural)]
pub struct ControlMessage {
    pub generation: u32,
    pub desired_state: DesiredStateCommand,
}

impl ControlMessage {
    /// Tag `desired_state` with `generation`.
    pub fn new(generation: u32, desired_state: DesiredStateCommand) -> (message: Self)
        ensures
            message == (ControlMessage { generation, desired_state }),
    {
        ControlMessage { generation, desired_state }
    }
}

/// Runtime-tunable parameters.
#[derive(Clone, Copy, Debug, PartialEq, Eq, Structural)]
pub enum ParameterKey {
    MaxDrivePwm,
    MaxServoStep,
    LinkTimeoutMs,
    TrellisBrightness,
    TrellisPollIntervalMs,
    AudioChunkSamples,
}

/// One parameter assignment.
#[derive(Clone, Copy, Debug, PartialEq, Eq, Structural)]
pub struct ParameterUpdate {
    pub key: ParameterKey,
    pub value: i32,
}

/// PCM encodings an audio chunk may use.
#[derive(Clone, Copy, Debug, PartialEq, Eq, Structural)]
pub enum AudioEncoding {
    SignedPcm16Le,
}

/// One chunk of an utterance forwarded to the audio controller.
#[derive(Clone, Debug, PartialEq, Eq)]
pub struct AudioChunkCommand {
    pub utterance_id: u32,
    pub chunk_index: u16,
    pub sample_rate_hz: u32,
    pub channels: u8,
    pub encoding: AudioEncoding,
    pub is_final_chunk: bool,
    pub samples: heapless::Vec<i16, 240>,
}

/// Trellis LED mask update.
#[derive(Clone, Copy, Debug, PartialEq, Eq, Structural)]
pub struct TrellisLedCommand {
    pub led_mask: u16,
}

/// Report streams whose cadence the host can configure.
#[derive(Clone, Copy, Debug, PartialEq, Eq, Structural)]
pub enum ReportKind {
    ControlApplied,
    Range,
    Battery,
    AudioStatus,
}

/// Host-configured report cadence.
#[derive(Clone, Copy, Debug, PartialEq, Eq, Structural)]
pub struct ReportConfig {
    pub report: ReportKind,
    pub min_interval_ms: u32,
    pub emit_on_change: bool,
}

/// Correlation identifier of a request and its response.
#[derive(Clone, Copy, Debug, PartialEq, Eq, Structural)]
pub struct RequestId(pub u16);

/// Body of a correlated request.
#[derive(Clone, Debug, PartialEq, Eq)]
pub enum RequestPayload {
    GetControllerStatus,
    SetParam(ParameterUpdate),
    PlayAudio(AudioChunkCommand),
    SetTrellisLeds(TrellisLedCommand),
    ConfigureReports(ReportConfig),
}

/// A correlated request.
#[derive(Clone, Debug, PartialEq, Eq)]
pub struct RequestMessage {
    pub request_id: RequestId,
    pub payload: RequestPayload,
}

/// Messages sent from the host to a controller.
#[derive(Clone, Debug, PartialEq, Eq)]
pub enum HostMessage {
    Control(ControlMessage),
    Request(RequestMessage),
}

/// Wire label of a host message.
pub open spec fn spec_host_message_kind(message: HostMessage) -> &'static str {
    match message {
        HostMessage::Control(_) => "control",
        HostMessage::Request(_) => "request",
    }
}

impl HostMessage {
    /// Short label naming the message kind.
    pub fn kind(&self) -> (kind: &'static str)
        ensures
            kind == spec_host_message_kind(*self),
    {
        match self {
            HostMessage::Control(_) => "control",
            HostMessage::Request(_) => "request",
        }
    }
}

/// Applied drive state.
#[derive(Clone, Copy, Debug, PartialEq, Eq, Structural)]
pub struct MotorStateTelemetry {
    pub left_pwm: PwmTicks,
    pub right_pwm: PwmTicks,
    pub current_limit_hit: bool,
}

/// Applied servo state.
#[derive(Clone, Copy, Debug, PartialEq, Eq, Structural)]
pub struct ServoStateTelemetry {
    pub pan: ServoTicks,
    pub tilt: ServoTicks,
}

/// Position of a range sensor on the chassis.
#[derive(Clone, Copy, Debug, PartialEq, Eq, Structural)]
pub enum RangeSensorPosition {
    ForwardLeft,
    ForwardRight,
}

/// One range sample.
#[derive(Clone, Copy, Debug, PartialEq, Eq, Structural)]
pub struct RangeTelemetry {
    pub sensor: RangeSensorPosition,
    pub distance_mm: Millimeters,
    pub quality: u8,
}

/// Latest sample of each forward range sensor.
#[derive(Clone, Copy, Debug, PartialEq, Eq, Structural)]
pub struct ForwardRangeTelemetry {
    pub forward_left: Option<RangeTelemetry>,
    pub forward_right: Option<RangeTelemetry>,
}

impl ForwardRangeTelemetry {
    /// No samples yet.
    pub fn empty() -> (ranges: Self)
        ensures
            ranges.forward_left is None,
            ranges.forward_right is None,
    {
        ForwardRangeTelemetry { forward_left: None, forward_right: None }
    }
}

/// Battery voltage sample.
#[derive(Clone, Copy, Debug, PartialEq, Eq, Structural)]
pub struct BatteryTelemetry {
    pub millivolts: u16,
}

/// Audio playback status.
#[derive(Clone, Copy, Debug, PartialEq, Eq, Structural)]
pub struct AudioStatusTelemetry {
    pub queued_chunks: u16,
    pub speaking: bool,
    pub underrun_count: u16,
}

/// Role a controller board plays.
#[derive(Clone, Copy, Debug, PartialEq, Eq, Structural)]
pub enum ControllerRole {
    MotionController,
    AudioController,
}

/// Bit set of the features a controller exposes.
#[derive(Clone, Copy, Debug, PartialEq, Eq, Structural)]
pub struct ControllerCapabilities(pub u32);

/// Differential drive outputs.
pub const CAPABILITY_DRIVE: u32 = 1;
/// Pan/tilt servos.
pub const CAPABILITY_SERVO: u32 = 2;
/// Ultrasonic range sensors.
pub const CAPABILITY_RANGE_SENSOR: u32 = 4;
/// Battery monitor.
pub const CAPABILITY_BATTERY_MONITOR: u32 = 8;
/// Audio output.
pub const CAPABILITY_AUDIO_OUTPUT: u32 = 16;
/// Character display.
pub const CAPABILITY_TEXT_DISPLAY: u32 = 32;

impl ControllerCapabilities {
    /// Whether every bit of `other` is set in `self`.
    pub open spec fn spec_contains(self, other: ControllerCapabilities) -> bool {
        self.0 & other.0 == other.0
    }

    /// Build a capability set from raw bits.
    pub fn from_bits(bits: u32) -> (caps: Self)
        ensures
            caps.0 == bits,
    {
        ControllerCapabilities(bits)
    }

    /// The raw bits.
    pub fn bits(&self) -> (bits: u32)
        ensures
            bits == self.0,
    {
        self.0
    }

    /// Whether every capability of `other` is present.
    pub fn contains(&self, other: ControllerCapabilities) -> (present: bool)
        ensures
            present == self.spec_contains(other),
    {
        self.0 & other.0 == other.0
    }

    /// Both capability sets together.
    pub fn union(&self, other: ControllerCapabilities) -> (caps: Self)
        ensures
            caps.0 == self.0 | other.0,
    {
        ControllerCapabilities(self.0 | other.0)
    }
}

/// Controller identity and health snapshot.
#[derive(Clone, Copy, Debug, PartialEq, Eq, Structural)]
pub struct ControllerStatus {
    pub mode: Mode,
    pub controller_role: ControllerRole,
    pub capabilities: ControllerCapabilities,
    pub uptime_ms: u32,
    pub link_quality: u8,
    pub error: Option<CoreError>,
}

/// Controller acknowledgement of one applied control snapshot.
#[derive(Clone, Copy, Debug, PartialEq, Eq, Structural)]
pub struct ControlAppliedReport {
    pub generation: u32,
    pub mode: Mode,
    pub drive: MotorStateTelemetry,
    pub servo: ServoStateTelemetry,
    pub error: Option<CoreError>,
}

impl ControlAppliedReport {
    /// Build a control-applied report.
    pub fn new(
        generation: u32,
        mode: Mode,
        drive: MotorStateTelemetry,
        servo: ServoStateTelemetry,
        error: Option<CoreError>,
    ) -> (report: Self)
        ensures
            report == (ControlAppliedReport { generation, mode, drive, servo, error }),
    {
        ControlAppliedReport { generation, mode, drive, servo, error }
    }
}

/// Trellis pad transition.
#[derive(Clone, Copy, Debug, PartialEq, Eq, Structural)]
pub enum PadEventKind {
    Pressed,
    Released,
}

/// Trellis pad event.
#[derive(Clone, Copy, Debug, PartialEq, Eq, Structural)]
pub struct TrellisPadTelemetry {
    pub pad_index: u8,
    pub event: PadEventKind,
}

/// Outcome of a request that has no other result.
#[derive(Clone, Copy, Debug, PartialEq, Eq, Structural)]
pub struct RequestOutcome {
    pub error: Option<CoreError>,
}

impl RequestOutcome {
    /// A successful outcome.
    pub fn ok() -> (outcome: Self)
        ensures
            outcome.error is None,
    {
        RequestOutcome { error: None }
    }

    /// A failed outcome carrying `error`.
    pub fn from_error(error: CoreError) -> (outcome: Self)
        ensures
            outcome.error == Some(error),
    {
        RequestOutcome { error: Some(error) }
    }
}

/// Reply to an audio chunk request.
#[derive(Clone, Copy, Debug, PartialEq, Eq, Structural)]
pub struct AudioCommandResponse {
    pub status: AudioStatusTelemetry,
    pub error: Option<CoreError>,
}

/// Body of a correlated response.
#[derive(Clone, Copy, Debug, PartialEq, Eq, Structural)]
pub enum ControllerResponsePayload {
    ControllerStatus(ControllerStatus),
    Parameter(RequestOutcome),
    Audio(AudioCommandResponse),
    TrellisLeds(RequestOutcome),
    ReportConfig(RequestOutcome),
}

/// A correlated response.
#[derive(Clone, Copy, Debug, PartialEq, Eq, Structural)]
pub struct ControllerResponse {
    pub request_id: RequestId,
    pub payload: ControllerResponsePayload,
}

/// Body of an unsolicited report.
#[derive(Clone, Copy, Debug, PartialEq, Eq, Structural)]
pub enum ReportPayload {
    ControlApplied(ControlAppliedReport),
    Range(RangeTelemetry),
    Battery(BatteryTelemetry),
    AudioStatus(AudioStatusTelemetry),
}

/// An unsolicited report.
#[derive(Clone, Copy, Debug, PartialEq, Eq, Structural)]
pub struct ReportMessage {
    pub payload: ReportPayload,
}

/// Discrete controller-side input events.
#[derive(Clone, Copy, Debug, PartialEq, Eq, Structural)]
pub enum ControllerEvent {
    TrellisPad(TrellisPadTelemetry),
}

/// Messages sent from a controller to the host.
#[derive(Clone, Copy, Debug, PartialEq, Eq, Structural)]
pub enum ControllerMessage {
    Report(ReportMessage),
    Response(ControllerResponse),
    Event(ControllerEvent),
}

/// Wire label of a controller message.
pub open spec fn spec_controller_message_kind(message: ControllerMessage) -> &'static str {
    match message {
        ControllerMessage::Report(report) => match report.payload {
            ReportPayload::ControlApplied(_) => "control-applied",
            ReportPayload::Range(_) => "range",
            ReportPayload::Battery(_) => "battery",
            ReportPayload::AudioStatus(_) => "audio-status",
        },
        ControllerMessage::Response(_) => "response",
        ControllerMessage::Event(ControllerEvent::TrellisPad(_)) => "trellis-pad",
    }
}

impl ControllerMessage {
    /// Short label naming the message kind.
    pub fn kind(&self) -> (kind: &'static str)
        ensures
            kind == spec_controller_message_kind(*self),
    {
        match self {
            ControllerMessage::Report(report) => match report.payload {
                ReportPayload::ControlApplied(_) => "control-applied",
                ReportPayload::Range(_) => "range",
                ReportPayload::Battery(_) => "battery",
                ReportPayload::AudioStatus(_) => "audio-status",
            },
            ControllerMessage::Response(_) => "response",
            ControllerMessage::Event(ControllerEvent::TrellisPad(_)) => "trellis-pad",
        }
    }
}

/// Any message on the link.
#[derive(Clone, Debug, PartialEq, Eq)]
pub enum WireMessage {
    Host(HostMessage),
    Controller(ControllerMessage),
}

/// Commands the host brain issues to the motion controller.
#[derive(Clone, Debug, PartialEq, Eq)]
pub enum Command {
    Ping,
    GetStatus,
    SetDesiredState(DesiredStateCommand),
    SetParam(ParameterUpdate),
    PlayAudio(AudioChunkCommand),
}

} // verus!
