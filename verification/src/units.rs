//! Shared units, robot modes, safety limits, and error codes.

use vstd::prelude::*;

verus! {

/// Robot operating mode.
#[derive(Clone, Copy, Debug, PartialEq, Eq, Structural)]
pub enum Mode {
    /// Manual drive control from the host.
    Teleop,
    /// Motion handed over to the autonomy runner.
    Autonomous,
    /// Safe stopped state after a failure.
    Fault,
}

/// Protocol-level errors that affect the control plane.
#[derive(Clone, Copy, Debug, PartialEq, Eq, Structural)]
pub enum CoreError {
    /// A command or parameter was outside its accepted range.
    InvalidCommand,
    /// The host link went quiet for longer than the link timeout.
    LinkTimedOut,
}

/// Signed motor PWM request in ticks.
#[derive(Clone, Copy, Debug, PartialEq, Eq, Structural)]
pub struct PwmTicks(pub i16);

/// Servo position in ticks.
#[derive(Clone, Copy, Debug, PartialEq, Eq, Structural)]
pub struct ServoTicks(pub u16);

/// Distance in millimeters.
#[derive(Clone, Copy, Debug, PartialEq, Eq, Structural)]
pub struct Millimeters(pub u16);

/// Duration in milliseconds.
#[derive(Clone, Copy, Debug, PartialEq, Eq, Structural)]
pub struct Milliseconds(pub u32);

/// Safety limits applied by both the host and the firmware.
#[derive(Clone, Copy, Debug, PartialEq, Eq, Structural)]
pub struct RobotLimits {
    /// Largest PWM magnitude either motor may be driven with.
    pub max_drive_pwm: PwmTicks,
    /// Largest per-command servo movement.
    pub max_servo_step: ServoTicks,
    /// Time without host traffic after which the firmware faults.
    pub link_timeout_ms: Milliseconds,
}

/// `v` limited to the closed range `[lo, hi]` (for `lo <= hi`).
pub open spec fn spec_clamp(v: int, lo: int, hi: int) -> int {
    if v < lo {
        lo
    } else if v > hi {
        hi
    } else {
        v
    }
}

/// The smaller of two integers.
pub open spec fn spec_min(a: int, b: int) -> int {
    if a <= b {
        a
    } else {
        b
    }
}

/// The larger of two integers.
pub open spec fn spec_max(a: int, b: int) -> int {
    if a >= b {
        a
    } else {
        b
    }
}

/// Absolute value.
pub open spec fn spec_abs(a: int) -> int {
    if a < 0 {
        -a
    } else {
        a
    }
}

/// The default drive PWM limit.
pub const DEFAULT_MAX_DRIVE_PWM: i16 = 1_000;
/// The default per-command servo step limit.
pub const DEFAULT_MAX_SERVO_STEP: u16 = 48;
/// The default link timeout.
pub const DEFAULT_LINK_TIMEOUT_MS: u32 = 250;

/// The limits used until the host configures others.
pub open spec fn spec_default_limits() -> RobotLimits {
    RobotLimits {
        max_drive_pwm: PwmTicks(DEFAULT_MAX_DRIVE_PWM),
        max_servo_step: ServoTicks(DEFAULT_MAX_SERVO_STEP),
        link_timeout_ms: Milliseconds(DEFAULT_LINK_TIMEOUT_MS),
    }
}

/// Return the default safety limits.
pub fn default_limits() -> (limits: RobotLimits)
    ensures
        limits == spec_default_limits(),
{
    RobotLimits {
        max_drive_pwm: PwmTicks(DEFAULT_MAX_DRIVE_PWM),
        max_servo_step: ServoTicks(DEFAULT_MAX_SERVO_STEP),
        link_timeout_ms: Milliseconds(DEFAULT_LINK_TIMEOUT_MS),
    }
}

} // verus!
