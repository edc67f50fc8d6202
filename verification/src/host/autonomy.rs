//! Timed autonomy plans and the runner that steps through them.

use vstd::prelude::*;

use crate::host::input::DriveIntent;
use crate::protocol::ServoCommand;
use crate::units::ServoTicks;

verus! {

/// What the robot should do during one autonomy step.
#[derive(Clone, Copy, Debug, PartialEq, Eq, Structural)]
pub struct AutonomousTarget {
    pub drive: Option<DriveIntent>,
    pub servo: ServoCommand,
}

impl AutonomousTarget {
    /// Stand still with the servos centered.
    pub fn hold_position() -> (target: Self)
        ensures
            target.drive is None,
            target.servo == (ServoCommand { pan: ServoTicks(0), tilt: ServoTicks(0) }),
    {
        AutonomousTarget { drive: None, servo: ServoCommand { pan: ServoTicks(0), tilt: ServoTicks(0) } }
    }
}

/// When a step ends.
#[derive(Clone, Copy, Debug, PartialEq, Eq, Structural)]
pub enum AutonomyCondition {
    /// After the step has been active for this many milliseconds.
    After(u64),
}

/// One step of a plan.
#[derive(Clone, Copy, Debug, PartialEq, Eq, Structural)]
pub struct AutonomyStep {
    pub target: AutonomousTarget,
    pub until: AutonomyCondition,
}

/// A named sequence of timed steps; the last step holds indefinitely.
#[derive(Clone, Debug)]
pub struct AutonomyPlan {
    pub name: &'static str,
    pub steps: Vec<AutonomyStep>,
}

/// The steps of the servo scan: centered, pan to 48, tilt to 48, each for
/// half a second, then hold centered for a minute.
pub open spec fn spec_servo_scan_steps() -> Seq<AutonomyStep> {
    seq![
        AutonomyStep {
            target: AutonomousTarget { drive: None, servo: ServoCommand { pan: ServoTicks(0), tilt: ServoTicks(0) } },
            until: AutonomyCondition::After(500),
        },
        AutonomyStep {
            target: AutonomousTarget { drive: None, servo: ServoCommand { pan: ServoTicks(48), tilt: ServoTicks(0) } },
            until: AutonomyCondition::After(500),
        },
        AutonomyStep {
            target: AutonomousTarget { drive: None, servo: ServoCommand { pan: ServoTicks(0), tilt: ServoTicks(48) } },
            until: AutonomyCondition::After(500),
        },
        AutonomyStep {
            target: AutonomousTarget { drive: None, servo: ServoCommand { pan: ServoTicks(0), tilt: ServoTicks(0) } },
            until: AutonomyCondition::After(60_000),
        },
    ]
}

/// Scan the pan servo, then the tilt servo, then hold position.
pub fn servo_scan_plan() -> (plan: AutonomyPlan)
    ensures
        plan.name == "servo-scan",
        plan.steps@ == spec_servo_scan_steps(),
        plan.steps@.len() == 4,
        plan.steps@[0].target.servo == (ServoCommand { pan: ServoTicks(0), tilt: ServoTicks(0) }),
        plan.steps@[1].target.servo == (ServoCommand { pan: ServoTicks(48), tilt: ServoTicks(0) }),
        plan.steps@[2].target.servo == (ServoCommand { pan: ServoTicks(0), tilt: ServoTicks(48) }),
        plan.steps@[3].target.servo == (ServoCommand { pan: ServoTicks(0), tilt: ServoTicks(0) }),
        forall|i: int| 0 <= i < 4 ==> (#[trigger] plan.steps@[i]).target.drive is None,
        plan.steps@[0].until == AutonomyCondition::After(500),
        plan.steps@[1].until == AutonomyCondition::After(500),
        plan.steps@[2].until == AutonomyCondition::After(500),
        plan.steps@[3].until == AutonomyCondition::After(60_000),
{
    let mut steps = Vec::new();
    steps.push(AutonomyStep {
        target: AutonomousTarget { drive: None, servo: ServoCommand { pan: ServoTicks(0), tilt: ServoTicks(0) } },
        until: AutonomyCondition::After(500),
    });
    steps.push(AutonomyStep {
        target: AutonomousTarget { drive: None, servo: ServoCommand { pan: ServoTicks(48), tilt: ServoTicks(0) } },
        until: AutonomyCondition::After(500),
    });
    steps.push(AutonomyStep {
        target: AutonomousTarget { drive: None, servo: ServoCommand { pan: ServoTicks(0), tilt: ServoTicks(48) } },
        until: AutonomyCondition::After(500),
    });
    steps.push(AutonomyStep { target: AutonomousTarget::hold_position(), until: AutonomyCondition::After(60_000) });
    AutonomyPlan { name: "servo-scan", steps }
}

/// Milliseconds from `started` to `now`, zero if `now` is earlier.
pub open spec fn spec_elapsed(now: u64, started: u64) -> int {
    if now >= started {
        now - started
    } else {
        0
    }
}

/// The duration of a step.
pub open spec fn spec_step_duration(step: AutonomyStep) -> u64 {
    match step.until {
        AutonomyCondition::After(ms) => ms,
    }
}

/// Where the runner stands at `now` after starting step `index` at `started`:
/// each step whose duration has passed hands over to the next one, which
/// starts at `now`; the last step never ends.
pub open spec fn spec_advance(steps: Seq<AutonomyStep>, index: int, started: u64, now: u64) -> (int, u64)
    decreases steps.len() - index,
{
    if 0 <= index && index + 1 < steps.len() && spec_elapsed(now, started) >= spec_step_duration(steps[index]) {
        spec_advance(steps, index + 1, now, now)
    } else {
        (index, started)
    }
}

/// Steps through a plan as time passes.
#[derive(Debug)]
pub struct AutonomyRunner {
    plan: AutonomyPlan,
    step_index: usize,
    step_started_at: Option<u64>,
}

impl AutonomyRunner {
    #[verifier::type_invariant]
    spec fn well_formed(self) -> bool {
        self.step_index < self.plan.steps@.len()
    }

    /// The steps of the plan being run.
    pub closed spec fn steps(self) -> Seq<AutonomyStep> {
        self.plan.steps@
    }

    /// The name of the plan being run.
    pub closed spec fn name(self) -> &'static str {
        self.plan.name
    }

    /// The index of the active step.
    pub closed spec fn index(self) -> int {
        self.step_index as int
    }

    /// When the active step started, if the plan has started.
    pub closed spec fn started_at(self) -> Option<u64> {
        self.step_started_at
    }

    /// A runner for the servo-scan plan.
    pub fn servo_scan() -> (runner: Self)
        ensures
            runner.name() == "servo-scan",
            runner.steps() == spec_servo_scan_steps(),
            runner.steps().len() == 4,
            runner.index() == 0,
            runner.started_at() is None,
    {
        Self::new(servo_scan_plan())
    }

    /// A runner at the first step of `plan`, not yet started.
    pub fn new(plan: AutonomyPlan) -> (runner: Self)
        requires
            plan.steps@.len() > 0,
        ensures
            runner.steps() == plan.steps@,
            runner.name() == plan.name,
            runner.index() == 0,
            runner.started_at() is None,
    {
        AutonomyRunner { plan, step_index: 0, step_started_at: None }
    }

    /// Rewind to the first step; the plan restarts on the next query.
    pub fn reset(&mut self)
        ensures
            final(self).steps() == old(self).steps(),
            final(self).name() == old(self).name(),
            final(self).index() == 0,
            final(self).started_at() is None,
    {
        proof {
            use_type_invariant(&*self);
        }
        self.step_index = 0;
        self.step_started_at = None;
    }

    /// The name of the plan being run.
    pub fn plan_name(&self) -> (name: &'static str)
        ensures
            name == self.name(),
    {
        self.plan.name
    }

    /// The target at time `now`: the first query starts the active step at
    /// `now`; later queries advance past every step whose duration has passed.
    pub fn target_at(&mut self, now: u64) -> (target: AutonomousTarget)
        ensures
            final(self).steps() == old(self).steps(),
            final(self).name() == old(self).name(),
            0 <= final(self).index() < final(self).steps().len(),
            target == final(self).steps()[final(self).index()].target,
            old(self).started_at() is None ==> final(self).index() == old(self).index()
                && final(self).started_at() == Some(now),
            old(self).started_at() matches Some(started) ==> final(self).started_at() matches Some(s) && (
            final(self).index(), s) == spec_advance(old(self).steps(), old(self).index(), started, now),
    {
        proof {
            use_type_invariant(&*self);
        }
        let started = match self.step_started_at {
            None => {
                self.step_started_at = Some(now);
                return self.plan.steps[self.step_index].target;
            },
            Some(started) => started,
        };

        let mut index = self.step_index;
        let mut step_started = started;
        while index < self.plan.steps.len() - 1
            invariant
                index < self.plan.steps@.len(),
                self.step_index < self.plan.steps@.len(),
                spec_advance(self.plan.steps@, index as int, step_started, now) == spec_advance(
                    self.plan.steps@,
                    self.step_index as int,
                    started,
                    now,
                ),
            ensures
                index < self.plan.steps@.len(),
                spec_advance(self.plan.steps@, index as int, step_started, now) == (index as int, step_started),
                spec_advance(self.plan.steps@, index as int, step_started, now) == spec_advance(
                    self.plan.steps@,
                    self.step_index as int,
                    started,
                    now,
                ),
            decreases self.plan.steps@.len() - index,
        {
            let elapsed = now.saturating_sub(step_started);
            let AutonomyCondition::After(duration) = self.plan.steps[index].until;
            if elapsed < duration {
                break;
            }
            index = index + 1;
            step_started = now;
        }
        self.step_index = index;
        self.step_started_at = Some(step_started);
        self.plan.steps[self.step_index].target
    }
}

/// The runner never moves backwards through a plan and never leaves it.
pub proof fn lemma_advance_monotone(steps: Seq<AutonomyStep>, index: int, started: u64, now: u64)
    requires
        0 <= index < steps.len(),
    ensures
        index <= spec_advance(steps, index, started, now).0 < steps.len(),
    decreases steps.len() - index,
{
    if index + 1 < steps.len() && spec_elapsed(now, started) >= spec_step_duration(steps[index]) {
        lemma_advance_monotone(steps, index + 1, now, now);
    }
}

/// Before the active step's duration has passed, the runner stays on it.
pub proof fn lemma_advance_waits(steps: Seq<AutonomyStep>, index: int, started: u64, now: u64)
    requires
        0 <= index < steps.len(),
        spec_elapsed(now, started) < spec_step_duration(steps[index]),
    ensures
        spec_advance(steps, index, started, now) == (index, started),
{
}

/// Once the active step's duration has passed, the runner moves on (unless
/// it is on the last step).
pub proof fn lemma_advance_moves_on(steps: Seq<AutonomyStep>, index: int, started: u64, now: u64)
    requires
        0 <= index,
        index + 1 < steps.len(),
        spec_elapsed(now, started) >= spec_step_duration(steps[index]),
    ensures
        spec_advance(steps, index, started, now).0 > index,
{
    lemma_advance_monotone(steps, index + 1, now, now);
}

} // verus!
