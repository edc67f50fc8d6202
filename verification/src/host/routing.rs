//! Host-side command clamping and arbitration policy.

use vstd::prelude::*;

use crate::host::input::{DriveIntent, AXIS_MAX};
use crate::protocol::{Command, DesiredStateCommand, DriveCommand, ParameterKey, ParameterUpdate, ServoCommand};
use crate::units::{
    default_limits, spec_abs, spec_clamp, spec_default_limits, spec_max, spec_min, Mode, PwmTicks,
    RobotLimits, ServoTicks,
};

verus! {

/// How the host turns operator intent into controller commands.
#[derive(Clone, Copy, Debug)]
pub struct RouterPolicy {
    /// Mode the robot returns to on stop.
    pub default_mode: Mode,
    /// Safety limits applied before commands leave the host.
    pub limits: RobotLimits,
}

/// `a / b` rounded toward zero, as Rust's integer division does (`b > 0`).
pub open spec fn spec_div_toward_zero(a: int, b: int) -> int {
    if a >= 0 {
        a / b
    } else {
        -((-a) / b)
    }
}

/// The differential PWM a normalized intent asks for, before the final clamp:
/// both axes are limited to full scale, mixed into left `forward + turn` and
/// right `forward - turn`, and scaled by the speed (at most the PWM limit)
/// over the largest of the two magnitudes and full scale.
pub open spec fn spec_mixed_drive(intent: DriveIntent, max_drive_pwm: i16) -> (int, int) {
    let forward = spec_clamp(intent.forward as int, -(AXIS_MAX as int), AXIS_MAX as int);
    let turn = spec_clamp(intent.turn as int, -(AXIS_MAX as int), AXIS_MAX as int);
    let speed = spec_min(intent.speed as int, max_drive_pwm as int);
    let left = forward + turn;
    let right = forward - turn;
    let normalizer = spec_max(spec_max(spec_abs(left), spec_abs(right)), AXIS_MAX as int);
    (spec_div_toward_zero(left * speed, normalizer), spec_div_toward_zero(right * speed, normalizer))
}

/// The drive command for one side pair, each clamped to the PWM limit.
pub open spec fn spec_clamp_drive(left: int, right: int, max_drive_pwm: i16) -> DriveCommand {
    DriveCommand {
        left: PwmTicks(spec_clamp(left, -(max_drive_pwm as int), max_drive_pwm as int) as i16),
        right: PwmTicks(spec_clamp(right, -(max_drive_pwm as int), max_drive_pwm as int) as i16),
    }
}

/// The drive command a normalized intent maps to.
pub open spec fn spec_drive_intent(intent: DriveIntent, max_drive_pwm: i16) -> DriveCommand {
    let (left, right) = spec_mixed_drive(intent, max_drive_pwm);
    spec_clamp_drive(left, right, max_drive_pwm)
}

/// The desired-state command a router sends for a mode, an optional drive
/// request and a servo target; no drive request means both sides stopped.
pub open spec fn spec_desired_state(router: RouterPolicy, mode: Mode, drive: Option<DriveIntent>, servo: ServoCommand) -> Command {
    Command::SetDesiredState(
        DesiredStateCommand {
            mode,
            drive: match drive {
                Some(intent) => spec_drive_intent(intent, router.limits.max_drive_pwm.0),
                None => spec_clamp_drive(0, 0, router.limits.max_drive_pwm.0),
            },
            servo,
        },
    )
}

/// Clamp `value` into `[-limit, limit]`.
fn clamp_axis(value: i16, limit: i16) -> (clamped: i16)
    requires
        limit >= 0,
    ensures
        clamped as int == spec_clamp(value as int, -(limit as int), limit as int),
{
    if value < -limit {
        -limit
    } else if value > limit {
        limit
    } else {
        value
    }
}

/// `value * speed / normalizer`, rounded toward zero.
fn scale_toward_zero(value: i32, speed: i32, normalizer: i32) -> (scaled: i32)
    requires
        -2000 <= value <= 2000,
        0 <= speed <= i16::MAX,
        normalizer >= 1000,
        value <= normalizer,
        -value <= normalizer,
    ensures
        scaled == spec_div_toward_zero(value * speed, normalizer as int),
        -speed <= scaled <= speed,
{
    let magnitude: i32 = if value < 0 { -value } else { value };
    proof {
        assert(0 <= magnitude * speed <= 2000 * i16::MAX) by (nonlinear_arith)
            requires 0 <= magnitude <= 2000, 0 <= speed <= i16::MAX;
        assert(magnitude * speed <= normalizer * speed) by (nonlinear_arith)
            requires 0 <= magnitude <= normalizer, 0 <= speed;
        assert((magnitude * speed) / (normalizer as int) <= speed) by (nonlinear_arith)
            requires magnitude * speed <= normalizer * speed, normalizer >= 1000, 0 <= speed;
        assert(value * speed == if value >= 0 { magnitude * speed } else { -(magnitude * speed) }) by (nonlinear_arith)
            requires magnitude == spec_abs(value as int);
    }
    let product = magnitude * speed;
    let quotient = product / normalizer;
    if value < 0 {
        -quotient
    } else {
        quotient
    }
}

impl RouterPolicy {
    /// The default policy: teleop mode and the default safety limits.
    pub fn new() -> (router: Self)
        ensures
            router.default_mode == Mode::Teleop,
            router.limits == spec_default_limits(),
    {
        RouterPolicy { default_mode: Mode::Teleop, limits: default_limits() }
    }

    /// Clamp a drive request into the configured safety window.
    pub fn clamp_drive(&self, left: i16, right: i16) -> (command: DriveCommand)
        requires
            self.limits.max_drive_pwm.0 >= 0,
        ensures
            command == spec_clamp_drive(left as int, right as int, self.limits.max_drive_pwm.0),
    {
        let max_drive_pwm = self.limits.max_drive_pwm.0;
        DriveCommand {
            left: PwmTicks(clamp_axis(left, max_drive_pwm)),
            right: PwmTicks(clamp_axis(right, max_drive_pwm)),
        }
    }

    /// Build the default centered servo target.
    pub fn centered_servo() -> (servo: ServoCommand)
        ensures
            servo == (ServoCommand { pan: ServoTicks(0), tilt: ServoTicks(0) }),
    {
        ServoCommand { pan: ServoTicks(0), tilt: ServoTicks(0) }
    }

    /// Build a full desired control snapshot from the current host-owned state;
    /// no drive request means both sides stopped.
    pub fn desired_state_command(&self, mode: Mode, drive: Option<DriveIntent>, servo: ServoCommand) -> (command: Command)
        requires
            self.limits.max_drive_pwm.0 >= 0,
        ensures
            command == spec_desired_state(*self, mode, drive, servo),
    {
        let drive = match drive {
            Some(intent) => self.drive_intent(intent),
            None => self.clamp_drive(0, 0),
        };

        Command::SetDesiredState(DesiredStateCommand::new(mode, drive, servo))
    }

    /// Convert a normalized drive intent into differential motor PWM values.
    pub fn drive_intent(&self, intent: DriveIntent) -> (command: DriveCommand)
        requires
            self.limits.max_drive_pwm.0 >= 0,
        ensures
            command == spec_drive_intent(intent, self.limits.max_drive_pwm.0),
    {
        let max_drive_pwm = self.limits.max_drive_pwm.0;
        let forward = clamp_axis(intent.forward, AXIS_MAX) as i32;
        let turn = clamp_axis(intent.turn, AXIS_MAX) as i32;
        let speed: i32 = if (intent.speed as i32) < (max_drive_pwm as i32) {
            intent.speed as i32
        } else {
            max_drive_pwm as i32
        };

        let left = forward + turn;
        let right = forward - turn;
        let left_abs: i32 = if left < 0 { -left } else { left };
        let right_abs: i32 = if right < 0 { -right } else { right };
        let larger: i32 = if left_abs >= right_abs { left_abs } else { right_abs };
        let normalizer: i32 = if larger >= AXIS_MAX as i32 { larger } else { AXIS_MAX as i32 };

        let scaled_left = scale_toward_zero(left, speed, normalizer);
        let scaled_right = scale_toward_zero(right, speed, normalizer);

        self.clamp_drive(scaled_left as i16, scaled_right as i16)
    }

    /// Build a ping command for link-health checks.
    pub fn ping_command() -> (command: Command)
        ensures
            command == Command::Ping,
    {
        Command::Ping
    }

    /// Build a command that updates the firmware link timeout.
    pub fn link_timeout_update(milliseconds: u32) -> (command: Command)
        ensures
            command == Command::SetParam(ParameterUpdate { key: ParameterKey::LinkTimeoutMs, value: milliseconds as i32 }),
    {
        Command::SetParam(ParameterUpdate { key: ParameterKey::LinkTimeoutMs, value: milliseconds as i32 })
    }
}

impl Default for RouterPolicy {
    fn default() -> (router: Self)
        ensures
            router.default_mode == Mode::Teleop,
            router.limits == spec_default_limits(),
    {
        Self::new()
    }
}

/// Mapped drive commands never exceed the PWM limit, and never exceed the
/// requested speed either.
pub proof fn lemma_drive_intent_within_limits(intent: DriveIntent, max_drive_pwm: i16)
    requires
        max_drive_pwm >= 0,
    ensures
        ({
            let command = spec_drive_intent(intent, max_drive_pwm);
            &&& -max_drive_pwm <= command.left.0 <= max_drive_pwm
            &&& -max_drive_pwm <= command.right.0 <= max_drive_pwm
            &&& spec_abs(command.left.0 as int) <= intent.speed
            &&& spec_abs(command.right.0 as int) <= intent.speed
        }),
{
    let forward = spec_clamp(intent.forward as int, -(AXIS_MAX as int), AXIS_MAX as int);
    let turn = spec_clamp(intent.turn as int, -(AXIS_MAX as int), AXIS_MAX as int);
    let speed = spec_min(intent.speed as int, max_drive_pwm as int);
    let left = forward + turn;
    let right = forward - turn;
    let normalizer = spec_max(spec_max(spec_abs(left), spec_abs(right)), AXIS_MAX as int);
    lemma_scaled_bounded(left, speed, normalizer);
    lemma_scaled_bounded(right, speed, normalizer);
}

/// `|value| <= normalizer` keeps the scaled value within `[-speed, speed]`.
proof fn lemma_scaled_bounded(value: int, speed: int, normalizer: int)
    requires
        speed >= 0,
        normalizer >= 1,
        spec_abs(value) <= normalizer,
    ensures
        -speed <= spec_div_toward_zero(value * speed, normalizer) <= speed,
{
    let magnitude = spec_abs(value);
    assert(magnitude * speed <= normalizer * speed) by (nonlinear_arith)
        requires 0 <= magnitude <= normalizer, 0 <= speed;
    assert((magnitude * speed) / normalizer <= speed) by (nonlinear_arith)
        requires magnitude * speed <= normalizer * speed, normalizer >= 1, 0 <= speed;
    assert(0 <= (magnitude * speed) / normalizer) by (nonlinear_arith)
        requires 0 <= magnitude, 0 <= speed, normalizer >= 1;
    assert(value * speed == if value >= 0 { magnitude * speed } else { -(magnitude * speed) }) by (nonlinear_arith)
        requires magnitude == spec_abs(value);
}

/// Turning the other way mirrors the drive: the two sides swap.
pub proof fn lemma_drive_intent_mirror(intent: DriveIntent, max_drive_pwm: i16)
    requires
        max_drive_pwm >= 0,
        intent.turn != i16::MIN,
    ensures
        ({
            let command = spec_drive_intent(intent, max_drive_pwm);
            let mirrored = spec_drive_intent(DriveIntent { turn: (-intent.turn) as i16, ..intent }, max_drive_pwm);
            &&& mirrored.left == command.right
            &&& mirrored.right == command.left
        }),
{
}

/// Straight-ahead intents drive both sides equally; pure turns drive the
/// sides in opposite directions.
pub proof fn lemma_drive_intent_straight_and_pivot(intent: DriveIntent, max_drive_pwm: i16)
    requires
        max_drive_pwm >= 0,
    ensures
        intent.turn == 0 ==> spec_drive_intent(intent, max_drive_pwm).left == spec_drive_intent(intent, max_drive_pwm).right,
        intent.forward == 0 ==> spec_drive_intent(intent, max_drive_pwm).left.0 == -spec_drive_intent(intent, max_drive_pwm).right.0,
{
    let forward = spec_clamp(intent.forward as int, -(AXIS_MAX as int), AXIS_MAX as int);
    let turn = spec_clamp(intent.turn as int, -(AXIS_MAX as int), AXIS_MAX as int);
    let speed = spec_min(intent.speed as int, max_drive_pwm as int);
    let normalizer = spec_max(spec_max(spec_abs(forward + turn), spec_abs(forward - turn)), AXIS_MAX as int);
    if intent.forward == 0 {
        assert((-turn) * speed == -(turn * speed)) by (nonlinear_arith);
        lemma_scaled_bounded(turn, speed, normalizer);
    }
}

/// `p` over full scale, rounded toward zero.
pub open spec fn spec_per_mille_toward_zero(p: int) -> int {
    if p >= 0 {
        p / 1000
    } else {
        -((-p) / 1000)
    }
}

/// Within full scale the drive is proportional to the stick: when
/// `|forward| + |turn| <= 1000`, the left side gets `(forward + turn) * s / 1000`
/// and the right side `(forward - turn) * s / 1000`, rounded toward zero,
/// where `s` is the speed capped at the PWM limit. So straight ahead at half
/// stick gives half the speed on both sides.
pub proof fn lemma_drive_intent_proportional(intent: DriveIntent, max_drive_pwm: i16)
    requires
        max_drive_pwm >= 0,
        spec_abs(intent.forward as int) + spec_abs(intent.turn as int) <= 1000,
    ensures
        ({
            let s = if intent.speed as int <= max_drive_pwm as int { intent.speed as int } else { max_drive_pwm as int };
            let command = spec_drive_intent(intent, max_drive_pwm);
            &&& command.left.0 as int == spec_per_mille_toward_zero((intent.forward + intent.turn) * s)
            &&& command.right.0 as int == spec_per_mille_toward_zero((intent.forward - intent.turn) * s)
        }),
{
    let forward = intent.forward as int;
    let turn = intent.turn as int;
    let speed = spec_min(intent.speed as int, max_drive_pwm as int);
    assert(spec_clamp(forward, -1000, 1000) == forward);
    assert(spec_clamp(turn, -1000, 1000) == turn);
    let normalizer = spec_max(spec_max(spec_abs(forward + turn), spec_abs(forward - turn)), AXIS_MAX as int);
    assert(normalizer == 1000);
    lemma_scaled_bounded(forward + turn, speed, normalizer);
    lemma_scaled_bounded(forward - turn, speed, normalizer);
}

/// Axes past full scale count as full scale: clamping them first changes
/// nothing.
pub proof fn lemma_drive_intent_saturates_axes(intent: DriveIntent, max_drive_pwm: i16)
    requires
        max_drive_pwm >= 0,
    ensures
        spec_drive_intent(intent, max_drive_pwm) == spec_drive_intent(
            DriveIntent {
                forward: spec_clamp(intent.forward as int, -1000, 1000) as i16,
                turn: spec_clamp(intent.turn as int, -1000, 1000) as i16,
                speed: intent.speed,
            },
            max_drive_pwm,
        ),
{
}

/// When the mix leaves full scale, the faster side runs at exactly the
/// speed (capped at the PWM limit), in its direction.
pub proof fn lemma_drive_intent_faster_side_at_speed(intent: DriveIntent, max_drive_pwm: i16)
    requires
        max_drive_pwm >= 0,
        -1000 <= intent.forward <= 1000,
        -1000 <= intent.turn <= 1000,
        spec_abs(intent.forward as int) + spec_abs(intent.turn as int) >= 1000,
    ensures
        ({
            let s = if intent.speed as int <= max_drive_pwm as int { intent.speed as int } else { max_drive_pwm as int };
            let command = spec_drive_intent(intent, max_drive_pwm);
            let left = intent.forward + intent.turn;
            let right = intent.forward - intent.turn;
            &&& spec_abs(left) >= spec_abs(right) ==> command.left.0 as int == (if left >= 0 { s } else { -s })
            &&& spec_abs(right) >= spec_abs(left) ==> command.right.0 as int == (if right >= 0 { s } else { -s })
        }),
{
    let forward = intent.forward as int;
    let turn = intent.turn as int;
    let speed = spec_min(intent.speed as int, max_drive_pwm as int);
    let left = forward + turn;
    let right = forward - turn;
    let normalizer = spec_max(spec_max(spec_abs(left), spec_abs(right)), AXIS_MAX as int);
    assert(spec_abs(left) >= 1000 || spec_abs(right) >= 1000);
    lemma_scaled_bounded(left, speed, normalizer);
    lemma_scaled_bounded(right, speed, normalizer);
    if spec_abs(left) >= spec_abs(right) {
        assert(normalizer == spec_abs(left));
        lemma_full_side(left, speed);
    }
    if spec_abs(right) >= spec_abs(left) {
        assert(normalizer == spec_abs(right));
        lemma_full_side(right, speed);
    }
}

/// A side as large as the normalizer scales to exactly the speed.
proof fn lemma_full_side(value: int, speed: int)
    requires
        value != 0,
        speed >= 0,
    ensures
        spec_div_toward_zero(value * speed, spec_abs(value)) == (if value >= 0 { speed } else { -speed }),
{
    let m = spec_abs(value);
    assert((m * speed) / m == speed) by (nonlinear_arith)
        requires m > 0, speed >= 0;
    if value < 0 {
        assert(value * speed == -(m * speed)) by (nonlinear_arith)
            requires m == -value;
        assert(-(value * speed) == m * speed);
    } else {
        assert(value * speed == m * speed);
    }
    assert(value * speed >= 0 <==> value >= 0 || speed == 0) by (nonlinear_arith)
        requires m == spec_abs(value), speed >= 0, value != 0;
}

} // verus!
