//! Sensor inputs: forward ultrasonic rangers and the battery monitor.

use vstd::prelude::*;

use crate::protocol::{BatteryTelemetry, ForwardRangeTelemetry, RangeSensorPosition, RangeTelemetry};
use crate::units::Millimeters;

verus! {

/// Runtime state for battery monitoring.
#[derive(Clone, Copy, Debug)]
pub struct BatteryMonitorTask {
    /// Whether battery monitoring has been exercised.
    pub enabled: bool,
    /// Last battery telemetry sample.
    pub last_sample: Option<BatteryTelemetry>,
}

impl BatteryMonitorTask {
    /// A monitor that has seen no sample.
    pub fn new() -> (task: Self)
        ensures
            !task.enabled,
            task.last_sample is None,
    {
        BatteryMonitorTask { enabled: false, last_sample: None }
    }

    /// Record a new battery monitor sample.
    pub fn record_sample(&mut self, millivolts: u16) -> (telemetry: BatteryTelemetry)
        ensures
            telemetry == (BatteryTelemetry { millivolts }),
            final(self).enabled,
            final(self).last_sample == Some(telemetry),
    {
        self.enabled = true;
        let telemetry = BatteryTelemetry { millivolts };
        self.last_sample = Some(telemetry);
        telemetry
    }
}

/// Runtime state for ultrasonic ranging.
#[derive(Clone, Copy, Debug)]
pub struct UltrasonicTask {
    /// Whether ultrasonic sensing has been exercised.
    pub enabled: bool,
    /// Latest ultrasonic ranging samples for the forward sensor pair.
    pub ranges: ForwardRangeTelemetry,
}

/// The forward ranges after storing `sample` in its sensor's slot.
pub open spec fn spec_store_range(ranges: ForwardRangeTelemetry, sample: RangeTelemetry) -> ForwardRangeTelemetry {
    match sample.sensor {
        RangeSensorPosition::ForwardLeft => ForwardRangeTelemetry { forward_left: Some(sample), ..ranges },
        RangeSensorPosition::ForwardRight => ForwardRangeTelemetry { forward_right: Some(sample), ..ranges },
    }
}

impl UltrasonicTask {
    /// A ranger that has seen no sample.
    pub fn new() -> (task: Self)
        ensures
            !task.enabled,
            task.ranges.forward_left is None,
            task.ranges.forward_right is None,
    {
        UltrasonicTask { enabled: false, ranges: ForwardRangeTelemetry::empty() }
    }

    /// Record a new ultrasonic ranging sample.
    pub fn record_measurement(
        &mut self,
        sensor: RangeSensorPosition,
        distance_mm: Millimeters,
        quality: u8,
    ) -> (telemetry: RangeTelemetry)
        ensures
            telemetry == (RangeTelemetry { sensor, distance_mm, quality }),
            final(self).enabled,
            final(self).ranges == spec_store_range(old(self).ranges, telemetry),
    {
        self.enabled = true;
        let telemetry = RangeTelemetry { sensor, distance_mm, quality };

        match sensor {
            RangeSensorPosition::ForwardLeft => self.ranges.forward_left = Some(telemetry),
            RangeSensorPosition::ForwardRight => self.ranges.forward_right = Some(telemetry),
        }

        telemetry
    }
}

/// Aggregate sensor state for board bring-up and unit tests.
#[derive(Clone, Copy, Debug)]
pub struct SensorSuite {
    /// Battery monitor state.
    pub battery: BatteryMonitorTask,
    /// Ultrasonic sensor state.
    pub ultrasonic: UltrasonicTask,
}

impl SensorSuite {
    /// Sensors that have seen no sample.
    pub fn new() -> (suite: Self)
        ensures
            !suite.battery.enabled,
            suite.battery.last_sample is None,
            !suite.ultrasonic.enabled,
            suite.ultrasonic.ranges.forward_left is None,
            suite.ultrasonic.ranges.forward_right is None,
    {
        SensorSuite { battery: BatteryMonitorTask::new(), ultrasonic: UltrasonicTask::new() }
    }

    /// Record a new ultrasonic ranging sample.
    pub fn record_range(
        &mut self,
        sensor: RangeSensorPosition,
        distance_mm: Millimeters,
        quality: u8,
    ) -> (telemetry: RangeTelemetry)
        ensures
            telemetry == (RangeTelemetry { sensor, distance_mm, quality }),
            final(self).ultrasonic.enabled,
            final(self).ultrasonic.ranges == spec_store_range(old(self).ultrasonic.ranges, telemetry),
            final(self).battery == old(self).battery,
    {
        self.ultrasonic.record_measurement(sensor, distance_mm, quality)
    }

    /// Record a new battery monitor sample.
    pub fn record_battery(&mut self, millivolts: u16) -> (telemetry: BatteryTelemetry)
        ensures
            telemetry == (BatteryTelemetry { millivolts }),
            final(self).battery.enabled,
            final(self).battery.last_sample == Some(telemetry),
            final(self).ultrasonic == old(self).ultrasonic,
    {
        self.battery.record_sample(millivolts)
    }
}

} // verus!
