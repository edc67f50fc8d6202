//! Top-level control loop and safety state for the embedded target.

use vstd::prelude::*;

use crate::firmware::board::{active_board_profile, spec_pimoroni_pico_lipo_2, BoardProfile};
use crate::firmware::drive::{spec_apply_drive, spec_stopped_drive, DriveTrainState};
use crate::firmware::servo::{spec_apply_servo, spec_centered_servo, PanTiltServoState};
use crate::protocol::{DesiredStateCommand, DriveCommand, ParameterKey, ParameterUpdate, ServoCommand};
use crate::units::{
    default_limits, spec_default_limits, CoreError, Milliseconds, Mode, PwmTicks, RobotLimits,
    ServoTicks,
};

verus! {

/// Top-level control loop state for the embedded target.
#[derive(Clone, Copy, Debug)]
pub struct ControlLoop {
    /// Current robot mode.
    pub mode: Mode,
    /// Active safety limits.
    pub limits: RobotLimits,
    /// Current board profile.
    pub board: BoardProfile,
    /// Differential drive actuator state.
    pub drive: DriveTrainState,
    /// Pan/tilt servo actuator state.
    pub servo: PanTiltServoState,
    /// Last protocol-level error that affected the control plane.
    pub last_error: Option<CoreError>,
}

/// The freshly constructed control loop.
pub open spec fn spec_initial_control(control: ControlLoop) -> bool {
    &&& control.mode == Mode::Teleop
    &&& control.limits == spec_default_limits()
    &&& control.board == spec_pimoroni_pico_lipo_2()
    &&& control.drive == spec_stopped_drive()
    &&& control.servo == spec_centered_servo()
    &&& control.last_error is None
}

/// `value` as a positive `i16` limit, when it is one (zero included).
pub open spec fn spec_positive_i16(value: i32) -> Option<i16> {
    if 0 <= value <= i16::MAX {
        Some(value as i16)
    } else {
        None
    }
}

/// `value` as a `u16`, when it is one.
pub open spec fn spec_positive_u16(value: i32) -> Option<u16> {
    if 0 <= value <= u16::MAX {
        Some(value as u16)
    } else {
        None
    }
}

/// `value` as a strictly positive `u32`, when it is one.
pub open spec fn spec_positive_u32(value: i32) -> Option<u32> {
    if 0 < value {
        Some(value as u32)
    } else {
        None
    }
}

/// Whether `key` is a limit that the control loop owns.
pub open spec fn spec_is_limit_key(key: ParameterKey) -> bool {
    key == ParameterKey::MaxDrivePwm || key == ParameterKey::MaxServoStep || key
        == ParameterKey::LinkTimeoutMs
}

/// Whether `update` holds an acceptable value for its limit key.
pub open spec fn spec_limit_value_valid(update: ParameterUpdate) -> bool {
    match update.key {
        ParameterKey::MaxDrivePwm => spec_positive_i16(update.value) is Some,
        ParameterKey::MaxServoStep => spec_positive_u16(update.value) is Some,
        ParameterKey::LinkTimeoutMs => spec_positive_u32(update.value) is Some,
        _ => true,
    }
}

/// The control loop after applying `desired_state`: a fault snapshot stops
/// the drive and centers the servos, any other snapshot is clamped against
/// the current limits.
pub open spec fn spec_apply_desired_state(control: ControlLoop, desired_state: DesiredStateCommand) -> ControlLoop {
    if desired_state.mode == Mode::Fault {
        ControlLoop {
            mode: Mode::Fault,
            drive: spec_stopped_drive(),
            servo: spec_centered_servo(),
            last_error: None,
            ..control
        }
    } else {
        ControlLoop {
            mode: desired_state.mode,
            drive: spec_apply_drive(desired_state.drive, control.limits.max_drive_pwm),
            servo: spec_apply_servo(control.servo, desired_state.servo, control.limits.max_servo_step),
            last_error: None,
            ..control
        }
    }
}

/// The control loop after installing the valid limit `update` and
/// re-clamping the affected actuator against it.
pub open spec fn spec_apply_limit(control: ControlLoop, update: ParameterUpdate) -> ControlLoop {
    match update.key {
        ParameterKey::MaxDrivePwm => {
            let limit = PwmTicks(update.value as i16);
            ControlLoop {
                limits: RobotLimits { max_drive_pwm: limit, ..control.limits },
                drive: spec_apply_drive(
                    DriveCommand { left: control.drive.left_pwm, right: control.drive.right_pwm },
                    limit,
                ),
                last_error: None,
                ..control
            }
        },
        ParameterKey::MaxServoStep => {
            let limit = ServoTicks(update.value as u16);
            ControlLoop {
                limits: RobotLimits { max_servo_step: limit, ..control.limits },
                servo: spec_apply_servo(
                    control.servo,
                    ServoCommand { pan: control.servo.pan, tilt: control.servo.tilt },
                    limit,
                ),
                last_error: None,
                ..control
            }
        },
        ParameterKey::LinkTimeoutMs => ControlLoop {
            limits: RobotLimits { link_timeout_ms: Milliseconds(update.value as u32), ..control.limits },
            last_error: None,
            ..control
        },
        _ => control,
    }
}

/// Accept `value` as an `i16` limit in `0..=i16::MAX`.
pub fn clamp_positive_i16(value: i32) -> (limit: Option<i16>)
    ensures
        limit == spec_positive_i16(value),
{
    if 0 <= value && value <= i16::MAX as i32 {
        Some(value as i16)
    } else {
        None
    }
}

/// Accept `value` as a `u16` limit in `0..=u16::MAX`.
pub fn clamp_positive_u16(value: i32) -> (limit: Option<u16>)
    ensures
        limit == spec_positive_u16(value),
{
    if 0 <= value && value <= u16::MAX as i32 {
        Some(value as u16)
    } else {
        None
    }
}

/// Accept `value` as a `u32` limit in `1..=i32::MAX`.
pub fn clamp_positive_u32(value: i32) -> (limit: Option<u32>)
    ensures
        limit == spec_positive_u32(value),
{
    if 0 < value {
        Some(value as u32)
    } else {
        None
    }
}

impl ControlLoop {
    /// Construct the control loop with safe defaults.
    pub fn new() -> (control: Self)
        ensures
            spec_initial_control(control),
    {
        ControlLoop {
            mode: Mode::Teleop,
            limits: default_limits(),
            board: active_board_profile(),
            drive: DriveTrainState::stopped(),
            servo: PanTiltServoState::centered(),
            last_error: None,
        }
    }

    /// Apply a drive command after firmware-side safety clamping.
    pub fn apply_drive(&mut self, command: DriveCommand)
        ensures
            final(self).drive == spec_apply_drive(command, old(self).limits.max_drive_pwm),
            final(self).last_error is None,
            final(self).mode == old(self).mode,
            final(self).limits == old(self).limits,
            final(self).board == old(self).board,
            final(self).servo == old(self).servo,
    {
        let max_drive_pwm = self.limits.max_drive_pwm;
        self.drive.apply_command(command, max_drive_pwm);
        self.last_error = None;
    }

    /// Apply a servo command after clamping its delta against the current limit.
    pub fn apply_servo(&mut self, command: ServoCommand)
        ensures
            final(self).servo == spec_apply_servo(old(self).servo, command, old(self).limits.max_servo_step),
            final(self).last_error is None,
            final(self).mode == old(self).mode,
            final(self).limits == old(self).limits,
            final(self).board == old(self).board,
            final(self).drive == old(self).drive,
    {
        let max_step = self.limits.max_servo_step;
        self.servo.apply_command(command, max_step);
        self.last_error = None;
    }

    /// Apply the latest desired control snapshot.
    ///
    /// A fault snapshot stops the drive and centers the servos whatever it
    /// asks for; any other snapshot is clamped against the current limits.
    pub fn apply_desired_state(&mut self, desired_state: DesiredStateCommand)
        ensures
            *final(self) == spec_apply_desired_state(*old(self), desired_state),
    {
        self.mode = desired_state.mode;

        if desired_state.mode == Mode::Fault {
            self.drive.stop();
            self.servo = PanTiltServoState::centered();
            self.last_error = None;
            return;
        }

        self.apply_servo(desired_state.servo());
        self.apply_drive(desired_state.drive());
    }

    /// Record a protocol-level control error.
    pub fn record_error(&mut self, error: CoreError)
        ensures
            *final(self) == (ControlLoop { last_error: Some(error), ..*old(self) }),
    {
        self.last_error = Some(error);
    }

    /// Apply limit-related parameter updates that belong to the control loop.
    ///
    /// Returns `Ok(false)` for keys the control loop does not own, `Ok(true)`
    /// after installing a valid limit (and re-clamping the current drive or
    /// servo state against it), and `InvalidCommand` for an invalid value.
    pub fn apply_limit_parameter(&mut self, update: ParameterUpdate) -> (result: Result<bool, CoreError>)
        ensures
            !spec_is_limit_key(update.key) ==> result == Ok::<bool, CoreError>(false) && *final(self)
                == *old(self),
            spec_is_limit_key(update.key) && !spec_limit_value_valid(update) ==> result
                == Err::<bool, CoreError>(CoreError::InvalidCommand) && *final(self) == *old(self),
            spec_is_limit_key(update.key) && spec_limit_value_valid(update) ==> result == Ok::<
                bool,
                CoreError,
            >(true) && *final(self) == spec_apply_limit(*old(self), update),
    {
        match update.key {
            ParameterKey::MaxDrivePwm => {
                let value = match clamp_positive_i16(update.value) {
                    Some(value) => value,
                    None => {
                        return Err(CoreError::InvalidCommand);
                    },
                };
                self.limits.max_drive_pwm = PwmTicks(value);
                let command = self.drive.command();
                self.apply_drive(command);
                Ok(true)
            },
            ParameterKey::MaxServoStep => {
                let value = match clamp_positive_u16(update.value) {
                    Some(value) => value,
                    None => {
                        return Err(CoreError::InvalidCommand);
                    },
                };
                self.limits.max_servo_step = ServoTicks(value);
                let command = self.servo.command();
                self.apply_servo(command);
                Ok(true)
            },
            ParameterKey::LinkTimeoutMs => {
                let value = match clamp_positive_u32(update.value) {
                    Some(value) => value,
                    None => {
                        return Err(CoreError::InvalidCommand);
                    },
                };
                self.limits.link_timeout_ms = Milliseconds(value);
                self.last_error = None;
                Ok(true)
            },
            _ => Ok(false),
        }
    }
}

impl Default for ControlLoop {
    fn default() -> (control: Self)
        ensures
            spec_initial_control(control),
    {
        Self::new()
    }
}

/// A new drive limit takes effect on the running drive at once: each side
/// keeps its PWM when within the new limit and is cut back to it, keeping
/// its direction, otherwise; the clipping is reported exactly when a side
/// was cut back; the servos and the mode stay as they were.
pub proof fn lemma_drive_limit_update_reclamps(control: ControlLoop, update: ParameterUpdate)
    requires
        update.key == ParameterKey::MaxDrivePwm,
        0 <= update.value <= i16::MAX,
    ensures
        ({
            let next = spec_apply_limit(control, update);
            let limit = update.value as int;
            let left = control.drive.left_pwm.0 as int;
            let right = control.drive.right_pwm.0 as int;
            &&& next.limits.max_drive_pwm.0 as int == limit
            &&& -limit <= next.drive.left_pwm.0 <= limit
            &&& -limit <= next.drive.right_pwm.0 <= limit
            &&& next.drive.left_pwm.0 as int == (if left > limit { limit } else if left < -limit { -limit } else { left })
            &&& next.drive.right_pwm.0 as int == (if right > limit { limit } else if right < -limit { -limit } else { right })
            &&& next.drive.current_limit_hit == (left > limit || left < -limit || right > limit || right < -limit)
            &&& next.servo == control.servo
            &&& next.mode == control.mode
            &&& next.last_error is None
        }),
{
}

/// A new servo step limit or link timeout is installed as given and moves
/// nothing: the drive, the servo positions and the mode stay as they were.
pub proof fn lemma_other_limit_updates_move_nothing(control: ControlLoop, update: ParameterUpdate)
    requires
        update.key == ParameterKey::MaxServoStep && 0 <= update.value <= u16::MAX
            || update.key == ParameterKey::LinkTimeoutMs && 0 <= update.value,
    ensures
        ({
            let next = spec_apply_limit(control, update);
            &&& update.key == ParameterKey::MaxServoStep ==> next.limits.max_servo_step.0 as int == update.value
            &&& update.key == ParameterKey::LinkTimeoutMs ==> next.limits.link_timeout_ms.0 as int == update.value
            &&& next.limits.max_drive_pwm == control.limits.max_drive_pwm
            &&& next.drive == control.drive
            &&& next.servo == control.servo
            &&& next.mode == control.mode
            &&& next.last_error is None
        }),
{
}

} // verus!
