//! Differential drive actuator state.

use vstd::prelude::*;

use crate::protocol::{DriveCommand, MotorStateTelemetry};
use crate::units::{spec_abs, spec_clamp, spec_min, PwmTicks};

verus! {

/// Errors returned while applying drive state to a concrete hardware driver.
#[derive(Clone, Copy, Debug, PartialEq, Eq)]
pub enum DriveHardwareError<DriverError> {
    InvalidDriveRange,
    Driver(DriverError),
}

/// What a motor driver must be told to realize a drive state.
#[derive(Clone, Copy, Debug, PartialEq, Eq, Structural)]
pub enum DriveOutputPlan {
    /// Both motors are stationary: stop all outputs.
    StopAll,
    /// Drive both sides with the given PWM against the given full-scale value.
    SetOutputs { left: PwmTicks, right: PwmTicks, full_scale: u16 },
    /// The configured limit leaves no usable drive range.
    InvalidDriveRange,
}

/// Runtime state for the differential drive outputs.
#[derive(Clone, Copy, Debug, PartialEq, Eq, Structural)]
pub struct DriveTrainState {
    /// Current left motor PWM request.
    pub left_pwm: PwmTicks,
    /// Current right motor PWM request.
    pub right_pwm: PwmTicks,
    /// Whether current limiting clipped the last request.
    pub current_limit_hit: bool,
}

/// The usable magnitude of a drive limit: its absolute value, at most `i16::MAX`.
pub open spec fn spec_drive_limit(max_drive_pwm: PwmTicks) -> int {
    spec_min(spec_abs(max_drive_pwm.0 as int), i16::MAX as int)
}

/// The state that results from clamping `command` against `max_drive_pwm`.
pub open spec fn spec_apply_drive(command: DriveCommand, max_drive_pwm: PwmTicks) -> DriveTrainState {
    let limit = spec_drive_limit(max_drive_pwm);
    let left = spec_clamp(command.left.0 as int, -limit, limit);
    let right = spec_clamp(command.right.0 as int, -limit, limit);
    DriveTrainState {
        left_pwm: PwmTicks(left as i16),
        right_pwm: PwmTicks(right as i16),
        current_limit_hit: left != command.left.0 || right != command.right.0,
    }
}

/// The stopped drive train.
pub open spec fn spec_stopped_drive() -> DriveTrainState {
    DriveTrainState { left_pwm: PwmTicks(0), right_pwm: PwmTicks(0), current_limit_hit: false }
}

/// Compute the usable limit magnitude of `max_drive_pwm`.
fn drive_limit(max_drive_pwm: PwmTicks) -> (limit: i16)
    ensures
        limit as int == spec_drive_limit(max_drive_pwm),
        limit >= 0,
{
    let raw = max_drive_pwm.0 as i32;
    let magnitude: i32 = if raw < 0 { -raw } else { raw };
    if magnitude > i16::MAX as i32 {
        i16::MAX
    } else {
        magnitude as i16
    }
}

/// Clamp `value` into `[-limit, limit]`.
fn clamp_symmetric(value: i16, limit: i16) -> (clamped: i16)
    requires
        limit >= 0,
    ensures
        clamped as int == spec_clamp(value as int, -(limit as int), limit as int),
{
    if value < -limit {
        -limit
    } else if value > limit {
        limit
    } else {
        value
    }
}

impl DriveTrainState {
    /// Construct a stopped drive train.
    pub fn stopped() -> (state: Self)
        ensures
            state == spec_stopped_drive(),
    {
        DriveTrainState { left_pwm: PwmTicks(0), right_pwm: PwmTicks(0), current_limit_hit: false }
    }

    /// Apply a drive command after clamping it against the configured limit.
    pub fn apply_command(&mut self, command: DriveCommand, max_drive_pwm: PwmTicks)
        ensures
            *final(self) == spec_apply_drive(command, max_drive_pwm),
    {
        let limit = drive_limit(max_drive_pwm);
        let left_pwm = clamp_symmetric(command.left.0, limit);
        let right_pwm = clamp_symmetric(command.right.0, limit);

        self.left_pwm = PwmTicks(left_pwm);
        self.right_pwm = PwmTicks(right_pwm);
        self.current_limit_hit = left_pwm != command.left.0 || right_pwm != command.right.0;
    }

    /// Decide what the motor driver must be told to realize this state.
    ///
    /// A stationary state stops all outputs; otherwise both sides are driven
    /// against the usable limit, which must be non-zero.
    pub fn output_plan(&self, max_drive_pwm: PwmTicks) -> (plan: DriveOutputPlan)
        ensures
            self.left_pwm.0 == 0 && self.right_pwm.0 == 0 ==> plan == DriveOutputPlan::StopAll,
            !(self.left_pwm.0 == 0 && self.right_pwm.0 == 0) && spec_drive_limit(max_drive_pwm)
                == 0 ==> plan == DriveOutputPlan::InvalidDriveRange,
            !(self.left_pwm.0 == 0 && self.right_pwm.0 == 0) && spec_drive_limit(max_drive_pwm)
                != 0 ==> plan == (DriveOutputPlan::SetOutputs {
                left: self.left_pwm,
                right: self.right_pwm,
                full_scale: spec_drive_limit(max_drive_pwm) as u16,
            }),
    {
        if self.left_pwm.0 == 0 && self.right_pwm.0 == 0 {
            return DriveOutputPlan::StopAll;
        }
        let limit = drive_limit(max_drive_pwm);
        if limit == 0 {
            return DriveOutputPlan::InvalidDriveRange;
        }
        DriveOutputPlan::SetOutputs { left: self.left_pwm, right: self.right_pwm, full_scale: limit as u16 }
    }

    /// Stop both drive outputs.
    pub fn stop(&mut self)
        ensures
            *final(self) == spec_stopped_drive(),
    {
        *self = Self::stopped();
    }

    /// Render the current drive request as a protocol command.
    pub fn command(&self) -> (command: DriveCommand)
        ensures
            command == (DriveCommand { left: self.left_pwm, right: self.right_pwm }),
    {
        DriveCommand { left: self.left_pwm, right: self.right_pwm }
    }

    /// Render the current drive state as protocol telemetry.
    pub fn telemetry(&self) -> (telemetry: MotorStateTelemetry)
        ensures
            telemetry == (MotorStateTelemetry {
                left_pwm: self.left_pwm,
                right_pwm: self.right_pwm,
                current_limit_hit: self.current_limit_hit,
            }),
    {
        MotorStateTelemetry {
            left_pwm: self.left_pwm,
            right_pwm: self.right_pwm,
            current_limit_hit: self.current_limit_hit,
        }
    }
}

impl Default for DriveTrainState {
    fn default() -> (state: Self)
        ensures
            state == spec_stopped_drive(),
    {
        Self::stopped()
    }
}

/// A clamped drive state never exceeds the usable limit on either side.
pub proof fn lemma_applied_drive_within_limit(command: DriveCommand, max_drive_pwm: PwmTicks)
    ensures
        ({
            let state = spec_apply_drive(command, max_drive_pwm);
            let limit = spec_drive_limit(max_drive_pwm);
            &&& -limit <= state.left_pwm.0 <= limit
            &&& -limit <= state.right_pwm.0 <= limit
        }),
{
}

/// Re-applying the command a drive state renders, under the same limit,
/// leaves its PWM outputs unchanged and reports no clipping.
pub proof fn lemma_reapply_drive_is_stable(command: DriveCommand, max_drive_pwm: PwmTicks)
    ensures
        ({
            let state = spec_apply_drive(command, max_drive_pwm);
            let again = spec_apply_drive(
                DriveCommand { left: state.left_pwm, right: state.right_pwm },
                max_drive_pwm,
            );
            &&& again.left_pwm == state.left_pwm
            &&& again.right_pwm == state.right_pwm
            &&& !again.current_limit_hit
        }),
{
}

/// The limit is hit exactly when a requested side lies outside the usable range.
pub proof fn lemma_limit_hit_iff_out_of_range(command: DriveCommand, max_drive_pwm: PwmTicks)
    ensures
        spec_apply_drive(command, max_drive_pwm).current_limit_hit <==> (spec_abs(
            command.left.0 as int,
        ) > spec_drive_limit(max_drive_pwm) || spec_abs(command.right.0 as int) > spec_drive_limit(
            max_drive_pwm,
        )),
{
}

} // verus!
