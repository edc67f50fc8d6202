//! The non-interactive validation flows of `mortimmy test`: which targets
//! exist, which checks a controller set allows, and the scripted drive,
//! servo and audio sequences they send.

use vstd::prelude::*;

use crate::host::audio::AudioPlanError;
use crate::host::input::{AXIS_MAX, DriveIntent};
use crate::host::routing::RouterPolicy;
use crate::host::transport::ConnectedController;
use crate::protocol::{
    CAPABILITY_AUDIO_OUTPUT, CAPABILITY_BATTERY_MONITOR, CAPABILITY_DRIVE, CAPABILITY_RANGE_SENSOR, CAPABILITY_SERVO,
    ControllerCapabilities, ControllerMessage, ControllerResponsePayload, ReportPayload, ServoCommand,
};
use crate::units::ServoTicks;

verus! {

/// The validation flows of `mortimmy test`.
#[derive(Clone, Copy, Debug, PartialEq, Eq, Structural)]
pub enum TestTarget {
    /// Every flow the connected controllers support.
    All,
    /// Controller identity and health.
    Status,
    /// Latest-wins drive control.
    Drive,
    /// Servo control.
    Servo,
    /// Range and battery reports.
    Sensors,
    /// A short waveform through the audio bridge.
    Audio,
}

/// The target of a `mortimmy test` command line: the named one, or all.
pub fn selected_target(target: Option<TestTarget>) -> (selected: TestTarget)
    ensures
        selected == match target {
            Some(t) => t,
            None => TestTarget::All,
        },
{
    match target {
        Some(t) => t,
        None => TestTarget::All,
    }
}

/// The drive speed of the test sequences: the requested one, at most the
/// PWM limit, at least one.
pub open spec fn spec_test_speed(requested: u16, max_drive_pwm: i16) -> u16 {
    let limit: int = if max_drive_pwm < 0 { (max_drive_pwm as int) % 0x10000 + 0x10000 } else { max_drive_pwm as int };
    let capped = if (requested as int) < limit { requested as int } else { limit };
    if capped < 1 { 1 } else { capped as u16 }
}

/// Return the drive speed of the test sequences.
pub fn test_drive_speed(requested: u16, router: &RouterPolicy) -> (speed: u16)
    requires
        router.limits.max_drive_pwm.0 >= 0,
    ensures
        speed == spec_test_speed(requested, router.limits.max_drive_pwm.0),
{
    let limit = router.limits.max_drive_pwm.0 as u16;
    let capped = if requested < limit { requested } else { limit };
    if capped < 1 { 1 } else { capped }
}

/// One scripted drive step.
#[derive(Clone, Copy, Debug, PartialEq, Eq)]
pub struct DriveStep {
    pub label: &'static str,
    pub intent: DriveIntent,
}

/// The ten-step motor script of `mortimmy test`: the four directions, the
/// four diagonals with half turn, and the two pivots with a quarter turn.
pub open spec fn spec_motor_script(speed: u16) -> Seq<DriveStep> {
    let h: i16 = 500;
    let q: i16 = 250;
    let nh: i16 = -500i16;
    let nq: i16 = -250i16;
    seq![
        DriveStep { label: "up", intent: DriveIntent { forward: AXIS_MAX, turn: 0, speed } },
        DriveStep { label: "down", intent: DriveIntent { forward: -1000i16, turn: 0, speed } },
        DriveStep { label: "left", intent: DriveIntent { forward: 0, turn: -1000i16, speed } },
        DriveStep { label: "right", intent: DriveIntent { forward: 0, turn: AXIS_MAX, speed } },
        DriveStep { label: "top-left", intent: DriveIntent { forward: AXIS_MAX, turn: nh, speed } },
        DriveStep { label: "top-right", intent: DriveIntent { forward: AXIS_MAX, turn: h, speed } },
        DriveStep { label: "bottom-left", intent: DriveIntent { forward: -1000i16, turn: nh, speed } },
        DriveStep { label: "bottom-right", intent: DriveIntent { forward: -1000i16, turn: h, speed } },
        DriveStep { label: "pivot-left", intent: DriveIntent { forward: 0, turn: nq, speed } },
        DriveStep { label: "pivot-right", intent: DriveIntent { forward: 0, turn: q, speed } },
    ]
}

/// The ten-step motor script at `speed`.
pub fn motor_test_script(speed: u16) -> (script: Vec<DriveStep>)
    ensures
        script@ == spec_motor_script(speed),
{
    let half_turn: i16 = AXIS_MAX / 2;
    let quarter_turn: i16 = AXIS_MAX / 4;
    let back: i16 = -AXIS_MAX;
    let left_half: i16 = -half_turn;
    let left_quarter: i16 = -quarter_turn;
    let script = vec![
        DriveStep { label: "up", intent: DriveIntent { forward: AXIS_MAX, turn: 0, speed } },
        DriveStep { label: "down", intent: DriveIntent { forward: back, turn: 0, speed } },
        DriveStep { label: "left", intent: DriveIntent { forward: 0, turn: back, speed } },
        DriveStep { label: "right", intent: DriveIntent { forward: 0, turn: AXIS_MAX, speed } },
        DriveStep { label: "top-left", intent: DriveIntent { forward: AXIS_MAX, turn: left_half, speed } },
        DriveStep { label: "top-right", intent: DriveIntent { forward: AXIS_MAX, turn: half_turn, speed } },
        DriveStep { label: "bottom-left", intent: DriveIntent { forward: back, turn: left_half, speed } },
        DriveStep { label: "bottom-right", intent: DriveIntent { forward: back, turn: half_turn, speed } },
        DriveStep { label: "pivot-left", intent: DriveIntent { forward: 0, turn: left_quarter, speed } },
        DriveStep { label: "pivot-right", intent: DriveIntent { forward: 0, turn: quarter_turn, speed } },
    ];
    assert(script@ =~= spec_motor_script(speed));
    script
}

/// The four-step drive sequence of the drive flow.
pub open spec fn spec_drive_sequence(speed: u16) -> Seq<DriveStep> {
    seq![
        DriveStep { label: "move-forward", intent: DriveIntent { forward: AXIS_MAX, turn: 0, speed } },
        DriveStep { label: "move-backward", intent: DriveIntent { forward: -1000i16, turn: 0, speed } },
        DriveStep { label: "turn-left", intent: DriveIntent { forward: 0, turn: -1000i16, speed } },
        DriveStep { label: "turn-right", intent: DriveIntent { forward: 0, turn: AXIS_MAX, speed } },
    ]
}

/// The four-step drive sequence at `speed`.
pub fn drive_sequence(speed: u16) -> (script: Vec<DriveStep>)
    ensures
        script@ == spec_drive_sequence(speed),
{
    let back: i16 = -AXIS_MAX;
    let script = vec![
        DriveStep { label: "move-forward", intent: DriveIntent { forward: AXIS_MAX, turn: 0, speed } },
        DriveStep { label: "move-backward", intent: DriveIntent { forward: back, turn: 0, speed } },
        DriveStep { label: "turn-left", intent: DriveIntent { forward: 0, turn: back, speed } },
        DriveStep { label: "turn-right", intent: DriveIntent { forward: 0, turn: AXIS_MAX, speed } },
    ];
    assert(script@ =~= spec_drive_sequence(speed));
    script
}

/// One scripted servo position.
#[derive(Clone, Copy, Debug, PartialEq, Eq)]
pub struct ServoStep {
    pub label: &'static str,
    pub servo: ServoCommand,
}

/// The servo sequence for a step size (at least one tick): center, pan,
/// tilt, both at twice the step (saturating), center again.
pub open spec fn spec_servo_sequence(step_ticks: u16) -> Seq<ServoStep> {
    let step: u16 = if step_ticks < 1 { 1 } else { step_ticks };
    let double: u16 = if step as int * 2 > u16::MAX { u16::MAX } else { (step * 2) as u16 };
    seq![
        ServoStep { label: "servo-center", servo: ServoCommand { pan: ServoTicks(0), tilt: ServoTicks(0) } },
        ServoStep { label: "servo-pan", servo: ServoCommand { pan: ServoTicks(step), tilt: ServoTicks(0) } },
        ServoStep { label: "servo-tilt", servo: ServoCommand { pan: ServoTicks(0), tilt: ServoTicks(step) } },
        ServoStep { label: "servo-pan-tilt", servo: ServoCommand { pan: ServoTicks(double), tilt: ServoTicks(double) } },
        ServoStep { label: "servo-recenter", servo: ServoCommand { pan: ServoTicks(0), tilt: ServoTicks(0) } },
    ]
}

/// The servo sequence for a step size.
pub fn servo_sequence(step_ticks: u16) -> (script: Vec<ServoStep>)
    ensures
        script@ == spec_servo_sequence(step_ticks),
{
    let step: u16 = if step_ticks < 1 { 1 } else { step_ticks };
    let double: u16 = if step > u16::MAX / 2 { u16::MAX } else { step * 2 };
    let script = vec![
        ServoStep { label: "servo-center", servo: ServoCommand { pan: ServoTicks(0), tilt: ServoTicks(0) } },
        ServoStep { label: "servo-pan", servo: ServoCommand { pan: ServoTicks(step), tilt: ServoTicks(0) } },
        ServoStep { label: "servo-tilt", servo: ServoCommand { pan: ServoTicks(0), tilt: ServoTicks(step) } },
        ServoStep { label: "servo-pan-tilt", servo: ServoCommand { pan: ServoTicks(double), tilt: ServoTicks(double) } },
        ServoStep { label: "servo-recenter", servo: ServoCommand { pan: ServoTicks(0), tilt: ServoTicks(0) } },
    ];
    assert(script@ =~= spec_servo_sequence(step_ticks));
    script
}

/// The link timeout a test sets for a control emit interval: three
/// intervals, at least 250 ms, taken modulo 2^32 as a 32-bit count.
pub open spec fn spec_test_link_timeout(emit_interval_ms: u64) -> u32 {
    let step: int = if emit_interval_ms < 1 { 1 } else { emit_interval_ms as int };
    let t = if step * 3 > 250 { step * 3 } else { 250 };
    (t % 0x1_0000_0000) as u32
}

/// Return the link timeout a test sets for a control emit interval.
pub fn test_link_timeout_ms(emit_interval_ms: u64) -> (timeout: u32)
    ensures
        timeout == spec_test_link_timeout(emit_interval_ms),
{
    let step: u64 = if emit_interval_ms < 1 { 1 } else { emit_interval_ms };
    let t: u128 = if (step as u128) * 3 > 250 { (step as u128) * 3 } else { 250 };
    (t % 0x1_0000_0000) as u32
}

/// The square-wave test sample at index `i`: +1200 for the first half of
/// every 32 samples, -1200 for the second.
pub open spec fn spec_square_sample(i: int) -> i16 {
    if i % 32 < 16 { 1_200i16 } else { -1_200i16 }
}

/// A square-wave test waveform of `total_samples` samples.
pub fn build_audio_test_waveform(total_samples: usize) -> (waveform: Vec<i16>)
    ensures
        waveform@.len() == total_samples,
        forall|i: int| 0 <= i < total_samples ==> #[trigger] waveform@[i] == spec_square_sample(i),
{
    let mut waveform: Vec<i16> = Vec::new();
    let mut index: usize = 0;
    while index < total_samples
        invariant
            index <= total_samples,
            waveform@.len() == index,
            forall|i: int| 0 <= i < index ==> #[trigger] waveform@[i] == spec_square_sample(i),
        decreases total_samples - index,
    {
        let sample: i16 = if index % 32 < 16 { 1_200 } else { -1_200 };
        waveform.push(sample);
        index += 1;
    }
    waveform
}

/// `a * b` capped at the largest `usize`.
pub open spec fn spec_sat_mul(a: int, b: int) -> int {
    if a * b > usize::MAX { usize::MAX as int } else { a * b }
}

/// The samples of the audio test: `duration` of audio at the configured
/// rate and channels (saturating), at least one chunk.
pub open spec fn spec_audio_test_samples(rate_hz: u32, channels: u8, duration_ms: usize, chunk_samples: usize) -> int {
    let ch: int = if channels < 1 { 1 } else { channels as int };
    let total = spec_sat_mul(spec_sat_mul(rate_hz as int, ch), duration_ms as int) / 1000;
    let chunk: int = if chunk_samples < 1 { 1 } else { chunk_samples as int };
    if total > chunk { total } else { chunk }
}

/// `a * b` capped at the largest `usize`.
pub fn sat_mul(a: usize, b: usize) -> (p: usize)
    ensures
        p == spec_sat_mul(a as int, b as int),
{
    if b == 0 {
        return 0;
    }
    if a > usize::MAX / b {
        proof {
            assert(a * b > usize::MAX) by (nonlinear_arith)
                requires
                    b > 0,
                    a > usize::MAX / b,
            ;
        }
        usize::MAX
    } else {
        proof {
            assert(a * b <= usize::MAX) by (nonlinear_arith)
                requires
                    b > 0,
                    a <= usize::MAX / b,
            ;
        }
        a * b
    }
}

/// The number of samples of the audio test.
pub fn audio_test_samples(rate_hz: u32, channels: u8, duration_ms: usize, chunk_samples: usize) -> (n: usize)
    ensures
        n == spec_audio_test_samples(rate_hz, channels, duration_ms, chunk_samples),
{
    let ch: usize = if channels < 1 { 1 } else { channels as usize };
    let a = sat_mul(rate_hz as usize, ch);
    let b = sat_mul(a, duration_ms);
    let total = b / 1000;
    let chunk = if chunk_samples < 1 { 1 } else { chunk_samples };
    if total > chunk { total } else { chunk }
}

/// The message of an audio planning error.
pub open spec fn spec_audio_plan_error_text(error: AudioPlanError) -> &'static str {
    match error {
        AudioPlanError::Disabled => "host audio forwarding is disabled",
        AudioPlanError::UnsupportedBackend => "host audio forwarding backend does not emit firmware bridge requests",
        AudioPlanError::ChunkTooLarge => "generated audio chunk exceeded protocol capacity",
        AudioPlanError::TooManyChunks => "generated audio waveform required too many chunks",
    }
}

/// Return the message of an audio planning error.
pub fn audio_plan_error(error: AudioPlanError) -> (text: &'static str)
    ensures
        text == spec_audio_plan_error_text(error),
{
    match error {
        AudioPlanError::Disabled => "host audio forwarding is disabled",
        AudioPlanError::UnsupportedBackend => "host audio forwarding backend does not emit firmware bridge requests",
        AudioPlanError::ChunkTooLarge => "generated audio chunk exceeded protocol capacity",
        AudioPlanError::TooManyChunks => "generated audio waveform required too many chunks",
    }
}

/// Whether a message is a controller status response.
pub fn is_controller_status_response(message: &ControllerMessage) -> (r: bool)
    ensures
        r == (*message matches ControllerMessage::Response(resp) && resp.payload is ControllerStatus),
{
    match message {
        ControllerMessage::Response(response) => match response.payload {
            ControllerResponsePayload::ControllerStatus(_) => true,
            _ => false,
        },
        _ => false,
    }
}

/// Whether a message is a parameter response.
pub fn is_parameter_response(message: &ControllerMessage) -> (r: bool)
    ensures
        r == (*message matches ControllerMessage::Response(resp) && resp.payload is Parameter),
{
    match message {
        ControllerMessage::Response(response) => match response.payload {
            ControllerResponsePayload::Parameter(_) => true,
            _ => false,
        },
        _ => false,
    }
}

/// Whether a message is a report-configuration response.
pub fn is_report_config_response(message: &ControllerMessage) -> (r: bool)
    ensures
        r == (*message matches ControllerMessage::Response(resp) && resp.payload is ReportConfig),
{
    match message {
        ControllerMessage::Response(response) => match response.payload {
            ControllerResponsePayload::ReportConfig(_) => true,
            _ => false,
        },
        _ => false,
    }
}

/// Whether a message is an audio response.
pub fn is_audio_response(message: &ControllerMessage) -> (r: bool)
    ensures
        r == (*message matches ControllerMessage::Response(resp) && resp.payload is Audio),
{
    match message {
        ControllerMessage::Response(response) => match response.payload {
            ControllerResponsePayload::Audio(_) => true,
            _ => false,
        },
        _ => false,
    }
}

/// Whether a message is a control-applied report.
pub fn is_control_applied_report(message: &ControllerMessage) -> (r: bool)
    ensures
        r == (*message matches ControllerMessage::Report(rep) && rep.payload is ControlApplied),
{
    match message {
        ControllerMessage::Report(report) => match report.payload {
            ReportPayload::ControlApplied(_) => true,
            _ => false,
        },
        _ => false,
    }
}

/// Whether any controller of `controllers` has the capability bit.
pub open spec fn spec_any_has(controllers: Seq<ConnectedController>, bit: u32) -> bool {
    exists|i: int| 0 <= i < controllers.len() && (#[trigger] controllers[i]).status.capabilities.spec_contains(ControllerCapabilities(bit))
}

/// Return whether any controller has the capability bit.
pub fn has_capability(controllers: &[ConnectedController], bit: u32) -> (r: bool)
    ensures
        r == spec_any_has(controllers@, bit),
{
    let mut i: usize = 0;
    while i < controllers.len()
        invariant
            i <= controllers@.len(),
            forall|k: int| 0 <= k < i ==> !(#[trigger] controllers@[k]).status.capabilities.spec_contains(ControllerCapabilities(bit)),
        decreases controllers@.len() - i,
    {
        if controllers[i].status.capabilities.contains(ControllerCapabilities::from_bits(bit)) {
            return true;
        }
        i += 1;
    }
    false
}

/// One stage of the full test run.
#[derive(Clone, Copy, Debug, PartialEq, Eq)]
pub enum TestStage {
    Run(TestTarget),
    Skip(&'static str),
    Stop,
}

/// The stages of the full run for a controller set: status; drive, servo,
/// sensors and audio each when supported (else a notice saying why not);
/// a stop; status again.
pub open spec fn spec_all_stages(controllers: Seq<ConnectedController>, unsolicited: bool, audio_enabled: bool) -> Seq<TestStage> {
    let drive = if spec_any_has(controllers, CAPABILITY_DRIVE) {
        TestStage::Run(TestTarget::Drive)
    } else {
        TestStage::Skip("test: skipping drive; no controller reports DRIVE capability")
    };
    let servo = if spec_any_has(controllers, CAPABILITY_SERVO) {
        TestStage::Run(TestTarget::Servo)
    } else {
        TestStage::Skip("test: skipping servo; no controller reports SERVO capability")
    };
    let sensors = if spec_any_has(controllers, CAPABILITY_RANGE_SENSOR) || spec_any_has(controllers, CAPABILITY_BATTERY_MONITOR) {
        if unsolicited {
            TestStage::Run(TestTarget::Sensors)
        } else {
            TestStage::Skip("test: skipping sensors; selected transport does not simulate unsolicited sensor reports")
        }
    } else {
        TestStage::Skip("test: skipping sensors; no controller reports RANGE_SENSOR or BATTERY_MONITOR")
    };
    let audio = if spec_any_has(controllers, CAPABILITY_AUDIO_OUTPUT) && audio_enabled {
        TestStage::Run(TestTarget::Audio)
    } else if spec_any_has(controllers, CAPABILITY_AUDIO_OUTPUT) {
        TestStage::Skip("test: skipping audio; controller supports audio but host audio forwarding is disabled in config")
    } else {
        TestStage::Skip("test: skipping audio; no controller reports AUDIO_OUTPUT capability")
    };
    seq![TestStage::Run(TestTarget::Status), drive, servo, sensors, audio, TestStage::Stop, TestStage::Run(TestTarget::Status)]
}

/// The stages of the full run for a controller set.
pub fn all_stages(controllers: &[ConnectedController], unsolicited: bool, audio_enabled: bool) -> (stages: Vec<TestStage>)
    ensures
        stages@ == spec_all_stages(controllers@, unsolicited, audio_enabled),
{
    let drive = if has_capability(controllers, CAPABILITY_DRIVE) {
        TestStage::Run(TestTarget::Drive)
    } else {
        TestStage::Skip("test: skipping drive; no controller reports DRIVE capability")
    };
    let servo = if has_capability(controllers, CAPABILITY_SERVO) {
        TestStage::Run(TestTarget::Servo)
    } else {
        TestStage::Skip("test: skipping servo; no controller reports SERVO capability")
    };
    let sensors = if has_capability(controllers, CAPABILITY_RANGE_SENSOR) || has_capability(controllers, CAPABILITY_BATTERY_MONITOR) {
        if unsolicited {
            TestStage::Run(TestTarget::Sensors)
        } else {
            TestStage::Skip("test: skipping sensors; selected transport does not simulate unsolicited sensor reports")
        }
    } else {
        TestStage::Skip("test: skipping sensors; no controller reports RANGE_SENSOR or BATTERY_MONITOR")
    };
    let has_audio = has_capability(controllers, CAPABILITY_AUDIO_OUTPUT);
    let audio = if has_audio && audio_enabled {
        TestStage::Run(TestTarget::Audio)
    } else if has_audio {
        TestStage::Skip("test: skipping audio; controller supports audio but host audio forwarding is disabled in config")
    } else {
        TestStage::Skip("test: skipping audio; no controller reports AUDIO_OUTPUT capability")
    };
    let stages = vec![TestStage::Run(TestTarget::Status), drive, servo, sensors, audio, TestStage::Stop, TestStage::Run(TestTarget::Status)];
    assert(stages@ =~= spec_all_stages(controllers@, unsolicited, audio_enabled));
    stages
}

} // verus!
