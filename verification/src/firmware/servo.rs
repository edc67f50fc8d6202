//! Pan/tilt servo actuator state.

use vstd::prelude::*;

use crate::protocol::{ServoCommand, ServoStateTelemetry};
use crate::units::{spec_clamp, ServoTicks};

verus! {

/// Runtime state for the pan/tilt servo pair.
#[derive(Clone, Copy, Debug, PartialEq, Eq, Structural)]
pub struct PanTiltServoState {
    /// Current pan position.
    pub pan: ServoTicks,
    /// Current tilt position.
    pub tilt: ServoTicks,
}

/// The position an axis moves to: the request, limited to `max_step` away
/// from the current position.
pub open spec fn spec_step_axis(current: ServoTicks, requested: ServoTicks, max_step: ServoTicks) -> ServoTicks {
    ServoTicks(
        spec_clamp(
            requested.0 as int,
            current.0 - max_step.0,
            current.0 + max_step.0,
        ) as u16,
    )
}

/// The state after one servo command.
pub open spec fn spec_apply_servo(
    state: PanTiltServoState,
    command: ServoCommand,
    max_step: ServoTicks,
) -> PanTiltServoState {
    PanTiltServoState {
        pan: spec_step_axis(state.pan, command.pan, max_step),
        tilt: spec_step_axis(state.tilt, command.tilt, max_step),
    }
}

/// The centered servo pair.
pub open spec fn spec_centered_servo() -> PanTiltServoState {
    PanTiltServoState { pan: ServoTicks(0), tilt: ServoTicks(0) }
}

/// Move one axis from `current` toward `requested` by at most `max_step`.
pub fn clamp_servo_axis(current: ServoTicks, requested: ServoTicks, max_step: ServoTicks) -> (next: ServoTicks)
    ensures
        next == spec_step_axis(current, requested, max_step),
        0 <= spec_clamp(requested.0 as int, current.0 - max_step.0, current.0 + max_step.0) <= u16::MAX,
{
    let current = current.0 as i32;
    let requested = requested.0 as i32;
    let max_step = max_step.0 as i32;
    let lower = current - max_step;
    let upper = current + max_step;
    let clamped = if requested < lower {
        lower
    } else if requested > upper {
        upper
    } else {
        requested
    };
    ServoTicks(clamped as u16)
}

impl PanTiltServoState {
    /// Construct a centered pan/tilt pair.
    pub fn centered() -> (state: Self)
        ensures
            state == spec_centered_servo(),
    {
        PanTiltServoState { pan: ServoTicks(0), tilt: ServoTicks(0) }
    }

    /// Apply a servo command after clamping its per-axis delta against the configured limit.
    pub fn apply_command(&mut self, command: ServoCommand, max_step: ServoTicks)
        ensures
            *final(self) == spec_apply_servo(*old(self), command, max_step),
    {
        self.pan = clamp_servo_axis(self.pan, command.pan, max_step);
        self.tilt = clamp_servo_axis(self.tilt, command.tilt, max_step);
    }

    /// Render the current servo request as a protocol command.
    pub fn command(&self) -> (command: ServoCommand)
        ensures
            command == (ServoCommand { pan: self.pan, tilt: self.tilt }),
    {
        ServoCommand { pan: self.pan, tilt: self.tilt }
    }

    /// Render the current servo state as protocol telemetry.
    pub fn telemetry(&self) -> (telemetry: ServoStateTelemetry)
        ensures
            telemetry == (ServoStateTelemetry { pan: self.pan, tilt: self.tilt }),
    {
        ServoStateTelemetry { pan: self.pan, tilt: self.tilt }
    }
}

impl Default for PanTiltServoState {
    fn default() -> (state: Self)
        ensures
            state == spec_centered_servo(),
    {
        Self::centered()
    }
}

/// One servo command moves each axis by at most `max_step`, and lands exactly
/// on the request when the request is within reach.
pub proof fn lemma_servo_step_bounded(current: ServoTicks, requested: ServoTicks, max_step: ServoTicks)
    ensures
        ({
            let next = spec_step_axis(current, requested, max_step);
            &&& current.0 - max_step.0 <= next.0 <= current.0 + max_step.0
            &&& (current.0 - max_step.0 <= requested.0 <= current.0 + max_step.0 ==> next == requested)
        }),
{
}

/// Each step that does not yet reach the request moves the axis by exactly
/// `max_step` toward it, so repeated commands converge on the request.
pub proof fn lemma_servo_step_progress(current: ServoTicks, requested: ServoTicks, max_step: ServoTicks)
    ensures
        ({
            let next = spec_step_axis(current, requested, max_step);
            &&& requested.0 > current.0 + max_step.0 ==> next.0 == current.0 + max_step.0
            &&& requested.0 < current.0 - max_step.0 ==> next.0 == current.0 - max_step.0
        }),
{
}

} // verus!
