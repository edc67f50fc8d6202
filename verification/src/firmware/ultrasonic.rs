//! What the motion controller does with one forward ultrasonic reading.

use vstd::prelude::*;

use crate::firmware::scaffold::FirmwareScaffold;
use crate::firmware::sensors::spec_store_range;
use crate::protocol::{RangeSensorPosition, RangeTelemetry};
use crate::units::Millimeters;

verus! {

/// A new sample is logged when its distance moved at least this far, in millimeters.
pub const ULTRASONIC_LOG_DELTA_MM: u16 = 100;

/// Quality given to a sample the sensor measured.
pub const MEASURED_QUALITY: u8 = 100;

/// Quality given to a sample beyond the sensor's range.
pub const OUT_OF_RANGE_QUALITY: u8 = 0;

/// What one ultrasonic measurement came back with.
#[derive(Clone, Copy, Debug, PartialEq, Eq, Structural)]
pub enum UltrasonicReading {
    /// An echo came back from this distance.
    Measured(Millimeters),
    /// The echo came back from beyond the sensor's range.
    OutOfRange(Millimeters),
    /// No echo started or ended in time.
    EchoTimeout,
    /// Driving the trigger or reading the echo pin failed.
    GpioFailed,
}

/// What the log says about one reading.
#[derive(Clone, Copy, Debug, PartialEq, Eq, Structural)]
pub enum UltrasonicLog {
    /// A measured sample worth an info line.
    Sample(RangeTelemetry),
    /// An out-of-range sample worth a warning.
    OutOfRange(RangeTelemetry),
    /// The pins failed.
    GpioFailed,
    /// Nothing worth logging.
    Quiet,
}

/// The name of a sensor position in log lines.
pub open spec fn spec_range_sensor_label(sensor: RangeSensorPosition) -> &'static str {
    match sensor {
        RangeSensorPosition::ForwardLeft => "forward-left",
        RangeSensorPosition::ForwardRight => "forward-right",
    }
}

/// The name of a sensor position in log lines.
pub fn range_sensor_label(sensor: RangeSensorPosition) -> (label: &'static str)
    ensures
        label == spec_range_sensor_label(sensor),
{
    match sensor {
        RangeSensorPosition::ForwardLeft => "forward-left",
        RangeSensorPosition::ForwardRight => "forward-right",
    }
}

/// A sample is worth logging when it is the first, its quality changed, or
/// its distance moved by at least the log delta.
pub open spec fn spec_should_log(previous: Option<RangeTelemetry>, current: RangeTelemetry) -> bool {
    match previous {
        None => true,
        Some(p) => p.quality != current.quality || {
            let d = p.distance_mm.0 as int - current.distance_mm.0 as int;
            (if d >= 0 { d } else { -d }) >= ULTRASONIC_LOG_DELTA_MM
        },
    }
}

/// Whether a sample is worth logging after `previous`.
pub fn should_log_range_sample(previous: Option<RangeTelemetry>, current: RangeTelemetry) -> (log: bool)
    ensures
        log == spec_should_log(previous, current),
{
    match previous {
        None => true,
        Some(p) => {
            let a = p.distance_mm.0;
            let b = current.distance_mm.0;
            let diff = if a >= b { a - b } else { b - a };
            p.quality != current.quality || diff >= ULTRASONIC_LOG_DELTA_MM
        },
    }
}

/// The last sample recorded for a sensor.
pub open spec fn spec_previous_sample(scaffold: FirmwareScaffold, sensor: RangeSensorPosition) -> Option<RangeTelemetry> {
    match sensor {
        RangeSensorPosition::ForwardLeft => scaffold.sensors.ultrasonic.ranges.forward_left,
        RangeSensorPosition::ForwardRight => scaffold.sensors.ultrasonic.ranges.forward_right,
    }
}

/// The last sample recorded for a sensor.
pub fn previous_range_sample(scaffold: &FirmwareScaffold, sensor: RangeSensorPosition) -> (sample: Option<RangeTelemetry>)
    ensures
        sample == spec_previous_sample(*scaffold, sensor),
{
    match sensor {
        RangeSensorPosition::ForwardLeft => scaffold.sensors.ultrasonic.ranges.forward_left,
        RangeSensorPosition::ForwardRight => scaffold.sensors.ultrasonic.ranges.forward_right,
    }
}

/// The sample a reading records, if it records one: a measurement with full
/// quality, an out-of-range distance with none.
pub open spec fn spec_reading_sample(sensor: RangeSensorPosition, reading: UltrasonicReading) -> Option<RangeTelemetry> {
    match reading {
        UltrasonicReading::Measured(d) => Some(RangeTelemetry { sensor, distance_mm: d, quality: MEASURED_QUALITY }),
        UltrasonicReading::OutOfRange(d) => Some(RangeTelemetry { sensor, distance_mm: d, quality: OUT_OF_RANGE_QUALITY }),
        _ => None,
    }
}

/// Take one reading of `sensor` into the scaffold: a measured or
/// out-of-range distance is recorded and queued for reporting, timeouts are
/// ignored. Returns what to log: a recorded sample only when it differs
/// enough from the one before it.
pub fn poll_ultrasonic_sensor(
    sensor: RangeSensorPosition,
    reading: UltrasonicReading,
    scaffold: &mut FirmwareScaffold,
) -> (log: UltrasonicLog)
    ensures
        final(scaffold).control == old(scaffold).control,
        final(scaffold).audio == old(scaffold).audio,
        final(scaffold).trellis == old(scaffold).trellis,
        match spec_reading_sample(sensor, reading) {
            Some(sample) => {
                &&& final(scaffold).sensors.ultrasonic.ranges == spec_store_range(old(scaffold).sensors.ultrasonic.ranges, sample)
                &&& final(scaffold).sensors.ultrasonic.enabled
                &&& final(scaffold).link_tx.range_pending_mask == old(scaffold).link_tx.range_pending_mask
                    | crate::firmware::link_tx::spec_range_pending_bit(sensor)
                &&& log == if !spec_should_log(spec_previous_sample(*old(scaffold), sensor), sample) {
                    UltrasonicLog::Quiet
                } else if reading is Measured {
                    UltrasonicLog::Sample(sample)
                } else {
                    UltrasonicLog::OutOfRange(sample)
                }
            },
            None => {
                &&& *final(scaffold) == *old(scaffold)
                &&& log == if reading is GpioFailed { UltrasonicLog::GpioFailed } else { UltrasonicLog::Quiet }
            },
        },
{
    let (distance, quality, measured) = match reading {
        UltrasonicReading::Measured(d) => (d, MEASURED_QUALITY, true),
        UltrasonicReading::OutOfRange(d) => (d, OUT_OF_RANGE_QUALITY, false),
        UltrasonicReading::EchoTimeout => return UltrasonicLog::Quiet,
        UltrasonicReading::GpioFailed => return UltrasonicLog::GpioFailed,
    };
    let previous = previous_range_sample(scaffold, sensor);
    scaffold.record_range_measurement(sensor, distance, quality);
    let sample = RangeTelemetry { sensor, distance_mm: distance, quality };
    if !should_log_range_sample(previous, sample) {
        UltrasonicLog::Quiet
    } else if measured {
        UltrasonicLog::Sample(sample)
    } else {
        UltrasonicLog::OutOfRange(sample)
    }
}

} // verus!
