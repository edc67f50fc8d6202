//! Transmit-side link bookkeeping and range report scheduling.

use vstd::prelude::*;

use crate::protocol::{
    spec_controller_message_kind, ControllerEvent, ControllerMessage, ForwardRangeTelemetry,
    RangeSensorPosition, RangeTelemetry, ReportConfig, ReportKind, ReportMessage, ReportPayload,
};

verus! {

/// Pending bit of the forward-left range sample.
pub const RANGE_PENDING_LEFT: u8 = 1;
/// Pending bit of the forward-right range sample.
pub const RANGE_PENDING_RIGHT: u8 = 2;

/// Transmit task state for the USB and serial link.
#[derive(Clone, Copy, Debug)]
pub struct LinkTxTask {
    /// Outgoing protocol sequence number.
    pub sequence: u16,
    /// Whether audio status telemetry should be emitted.
    pub audio_status_dirty: bool,
    /// Whether Trellis input telemetry should be emitted.
    pub trellis_event_dirty: bool,
    /// Host-configured cadence for range reports.
    pub range_report_config: Option<ReportConfig>,
    /// Pending forward range samples that should be emitted.
    pub range_pending_mask: u8,
    /// Timestamp of the last emitted range report in milliseconds.
    pub last_range_report_at_ms: u64,
    /// Last controller message kind emitted onto the wire.
    pub last_message_kind: Option<&'static str>,
}

/// The pending bit of `sensor`.
pub open spec fn spec_range_pending_bit(sensor: RangeSensorPosition) -> u8 {
    match sensor {
        RangeSensorPosition::ForwardLeft => RANGE_PENDING_LEFT,
        RangeSensorPosition::ForwardRight => RANGE_PENDING_RIGHT,
    }
}

/// The pending bits of the samples present in `ranges`.
pub open spec fn spec_available_range_mask(ranges: ForwardRangeTelemetry) -> u8 {
    (if ranges.forward_left is Some { RANGE_PENDING_LEFT } else { 0u8 }) | (if ranges.forward_right
        is Some {
        RANGE_PENDING_RIGHT
    } else {
        0u8
    })
}

/// The sample the first pending bit of `mask` selects, left before right.
pub open spec fn spec_next_pending_range(mask: u8, ranges: ForwardRangeTelemetry) -> Option<RangeTelemetry> {
    if mask & RANGE_PENDING_LEFT != 0 {
        ranges.forward_left
    } else if mask & RANGE_PENDING_RIGHT != 0 {
        ranges.forward_right
    } else {
        None
    }
}

/// The transmit state after sending `message`.
pub open spec fn spec_record_controller_message(task: LinkTxTask, message: ControllerMessage) -> LinkTxTask {
    let task = LinkTxTask {
        sequence: task.sequence.wrapping_add(1),
        last_message_kind: Some(spec_controller_message_kind(message)),
        ..task
    };
    match message {
        ControllerMessage::Report(report) => match report.payload {
            ReportPayload::AudioStatus(_) => LinkTxTask { audio_status_dirty: false, ..task },
            ReportPayload::Range(range) => LinkTxTask {
                range_pending_mask: task.range_pending_mask & !spec_range_pending_bit(range.sensor),
                ..task
            },
            _ => task,
        },
        ControllerMessage::Event(ControllerEvent::TrellisPad(_)) => LinkTxTask {
            trellis_event_dirty: false,
            ..task
        },
        ControllerMessage::Response(_) => task,
    }
}

/// The pending mask after filtering against `ranges` and, for periodic
/// (not change-driven) reporting, re-arming an exhausted mask.
pub open spec fn spec_rearmed_mask(mask: u8, config: ReportConfig, ranges: ForwardRangeTelemetry) -> u8 {
    let filtered = mask & spec_available_range_mask(ranges);
    if !config.emit_on_change && filtered == 0 {
        spec_available_range_mask(ranges)
    } else {
        filtered
    }
}

/// The effective minimum spacing of range reports: the configured interval, at least 1 ms.
pub open spec fn spec_min_report_interval(config: ReportConfig) -> int {
    if config.min_interval_ms >= 1 {
        config.min_interval_ms as int
    } else {
        1
    }
}

/// One scheduling pass at `now_ms`: the transmit state after it and the
/// range report it emits, if any. Without a range report configuration
/// nothing changes; otherwise the pending mask is re-armed and the first
/// pending sample is reported once the minimum interval has passed.
pub open spec fn spec_next_message(task: LinkTxTask, now_ms: u64, ranges: ForwardRangeTelemetry) -> (LinkTxTask, Option<ControllerMessage>) {
    match task.range_report_config {
        None => (task, None),
        Some(config) => {
            let mask = spec_rearmed_mask(task.range_pending_mask, config, ranges);
            let due = now_ms - task.last_range_report_at_ms >= spec_min_report_interval(config);
            let sample = spec_next_pending_range(mask, ranges);
            if mask != 0 && due && sample is Some {
                (
                    LinkTxTask { range_pending_mask: mask, last_range_report_at_ms: now_ms, ..task },
                    Some(ControllerMessage::Report(ReportMessage { payload: ReportPayload::Range(sample->0) })),
                )
            } else {
                (LinkTxTask { range_pending_mask: mask, ..task }, None)
            }
        },
    }
}

/// Return the pending-bit mask for `sensor`.
pub fn range_pending_bit(sensor: RangeSensorPosition) -> (bit: u8)
    ensures
        bit == spec_range_pending_bit(sensor),
{
    match sensor {
        RangeSensorPosition::ForwardLeft => RANGE_PENDING_LEFT,
        RangeSensorPosition::ForwardRight => RANGE_PENDING_RIGHT,
    }
}

/// Return a pending-bit mask for the range samples currently present in `ranges`.
pub fn available_range_mask(ranges: ForwardRangeTelemetry) -> (mask: u8)
    ensures
        mask == spec_available_range_mask(ranges),
{
    let mut mask: u8 = 0;
    if ranges.forward_left.is_some() {
        mask = mask | RANGE_PENDING_LEFT;
    }
    if ranges.forward_right.is_some() {
        mask = mask | RANGE_PENDING_RIGHT;
    }
    proof {
        assert((0u8 | 1u8) == 1u8 && (0u8 | 2u8) == 2u8 && (1u8 | 0u8) == 1u8 && (0u8 | 0u8) == 0u8)
            by (bit_vector);
    }
    mask
}

/// Return the next pending range sample selected by `mask` from `ranges`.
pub fn next_pending_range(mask: u8, ranges: ForwardRangeTelemetry) -> (range: Option<RangeTelemetry>)
    ensures
        range == spec_next_pending_range(mask, ranges),
{
    if mask & RANGE_PENDING_LEFT != 0 {
        return ranges.forward_left;
    }
    if mask & RANGE_PENDING_RIGHT != 0 {
        return ranges.forward_right;
    }
    None
}

impl LinkTxTask {
    /// Nothing sent or scheduled yet.
    pub fn new() -> (task: Self)
        ensures
            task.sequence == 0,
            !task.audio_status_dirty,
            !task.trellis_event_dirty,
            task.range_report_config is None,
            task.range_pending_mask == 0,
            task.last_range_report_at_ms == 0,
            task.last_message_kind is None,
    {
        LinkTxTask {
            sequence: 0,
            audio_status_dirty: false,
            trellis_event_dirty: false,
            range_report_config: None,
            range_pending_mask: 0,
            last_range_report_at_ms: 0,
            last_message_kind: None,
        }
    }

    /// Record a controller message that is about to be sent to the host.
    pub fn record_message(&mut self, message: &ControllerMessage)
        ensures
            *final(self) == spec_record_controller_message(*old(self), *message),
    {
        self.sequence = self.sequence.wrapping_add(1);
        self.last_message_kind = Some(message.kind());

        match message {
            ControllerMessage::Report(report) => match report.payload {
                ReportPayload::AudioStatus(_) => self.audio_status_dirty = false,
                ReportPayload::Range(range) => {
                    self.range_pending_mask = self.range_pending_mask & !range_pending_bit(range.sensor);
                },
                _ => {},
            },
            ControllerMessage::Event(ControllerEvent::TrellisPad(_)) => {
                self.trellis_event_dirty = false;
            },
            ControllerMessage::Response(_) => {},
        }
    }

    /// Apply host report configuration to the transmit state.
    pub fn configure_report(&mut self, config: ReportConfig, ranges: ForwardRangeTelemetry)
        ensures
            config.report == ReportKind::Range ==> *final(self) == (LinkTxTask {
                range_report_config: Some(config),
                range_pending_mask: spec_available_range_mask(ranges),
                last_range_report_at_ms: 0,
                ..*old(self)
            }),
            config.report == ReportKind::AudioStatus ==> *final(self) == (LinkTxTask {
                audio_status_dirty: true,
                ..*old(self)
            }),
            (config.report == ReportKind::ControlApplied || config.report == ReportKind::Battery)
                ==> *final(self) == *old(self),
    {
        match config.report {
            ReportKind::Range => {
                self.range_report_config = Some(config);
                self.range_pending_mask = available_range_mask(ranges);
                self.last_range_report_at_ms = 0;
            },
            ReportKind::AudioStatus => {
                self.audio_status_dirty = true;
            },
            ReportKind::ControlApplied | ReportKind::Battery => {},
        }
    }

    /// Mark a range sensor sample as pending for emission.
    pub fn queue_range_sample(&mut self, sensor: RangeSensorPosition)
        ensures
            *final(self) == (LinkTxTask {
                range_pending_mask: old(self).range_pending_mask | spec_range_pending_bit(sensor),
                ..*old(self)
            }),
    {
        self.range_pending_mask = self.range_pending_mask | range_pending_bit(sensor);
    }

    /// Return the next queued background controller message, if any.
    ///
    /// Without a configured range report nothing is emitted. Otherwise the
    /// pending mask is narrowed to the samples present (and re-armed for
    /// periodic reporting); the first pending sample is reported once the
    /// configured minimum interval has passed since the last report.
    pub fn next_message(&mut self, now_ms: u64, ranges: ForwardRangeTelemetry) -> (message: Option<ControllerMessage>)
        ensures
            (*final(self), message) == spec_next_message(*old(self), now_ms, ranges),
            old(self).range_report_config is None ==> message is None && *final(self) == *old(self),
            old(self).range_report_config matches Some(config) ==> {
                let mask = spec_rearmed_mask(old(self).range_pending_mask, config, ranges);
                let due = now_ms - old(self).last_range_report_at_ms >= spec_min_report_interval(config);
                let sample = spec_next_pending_range(mask, ranges);
                &&& final(self).range_pending_mask == mask
                &&& final(self).sequence == old(self).sequence
                &&& final(self).range_report_config == old(self).range_report_config
                &&& final(self).audio_status_dirty == old(self).audio_status_dirty
                &&& final(self).trellis_event_dirty == old(self).trellis_event_dirty
                &&& final(self).last_message_kind == old(self).last_message_kind
                &&& (mask != 0 && due && sample is Some) ==> {
                    &&& message == Some(ControllerMessage::Report(ReportMessage {
                        payload: ReportPayload::Range(sample->0),
                    }))
                    &&& final(self).last_range_report_at_ms == now_ms
                }
                &&& !(mask != 0 && due && sample is Some) ==> {
                    &&& message is None
                    &&& final(self).last_range_report_at_ms == old(self).last_range_report_at_ms
                }
            },
    {
        let config = match self.range_report_config {
            Some(config) => config,
            None => {
                return None;
            },
        };

        let available = available_range_mask(ranges);
        self.range_pending_mask = self.range_pending_mask & available;

        if !config.emit_on_change && self.range_pending_mask == 0 {
            self.range_pending_mask = available;
        }

        if self.range_pending_mask == 0 {
            return None;
        }

        let min_interval_ms: u64 = if config.min_interval_ms >= 1 {
            config.min_interval_ms as u64
        } else {
            1
        };
        let elapsed = now_ms.saturating_sub(self.last_range_report_at_ms);
        if elapsed < min_interval_ms {
            return None;
        }

        let range = match next_pending_range(self.range_pending_mask, ranges) {
            Some(range) => range,
            None => {
                return None;
            },
        };
        self.last_range_report_at_ms = now_ms;
        Some(ControllerMessage::Report(ReportMessage { payload: ReportPayload::Range(range) }))
    }
}

impl Default for LinkTxTask {
    fn default() -> (task: Self)
        ensures
            task.sequence == 0,
            !task.audio_status_dirty,
            !task.trellis_event_dirty,
            task.range_report_config is None,
            task.range_pending_mask == 0,
            task.last_range_report_at_ms == 0,
            task.last_message_kind is None,
    {
        Self::new()
    }
}

/// A non-empty mask inside `avail` has a first bit that `avail` also holds.
proof fn lemma_first_pending_bit_available(m: u8, avail: u8)
    by (bit_vector)
    requires
        m & !avail == 0,
        m != 0,
        avail <= 3,
    ensures
        (m & 1 != 0 && avail & 1 != 0) || (m & 1 == 0 && m & 2 != 0 && avail & 2 != 0),
{
}

/// After a scheduling pass, every pending bit names a sample that is present,
/// so a non-empty mask always yields a sample to report.
pub proof fn lemma_rearmed_mask_selects_present_sample(
    mask: u8,
    config: ReportConfig,
    ranges: ForwardRangeTelemetry,
)
    ensures
        spec_rearmed_mask(mask, config, ranges) & !spec_available_range_mask(ranges) == 0,
        spec_rearmed_mask(mask, config, ranges) != 0 ==> spec_next_pending_range(
            spec_rearmed_mask(mask, config, ranges),
            ranges,
        ) is Some,
{
    let avail = spec_available_range_mask(ranges);
    let m = spec_rearmed_mask(mask, config, ranges);
    assert(forall|a: u8, b: u8| #![auto] (a & b) & !b == 0) by (bit_vector);
    assert(forall|b: u8| #![auto] b & !b == 0) by (bit_vector);
    assert((0u8 | 0u8) == 0u8 && (1u8 | 0u8) == 1u8 && (0u8 | 2u8) == 2u8 && (1u8 | 2u8) == 3u8)
        by (bit_vector);
    assert((0u8 & 1u8) == 0u8 && (0u8 & 2u8) == 0u8 && (1u8 & 1u8) != 0u8 && (1u8 & 2u8) == 0u8
        && (2u8 & 1u8) == 0u8 && (2u8 & 2u8) != 0u8 && (3u8 & 1u8) != 0u8 && (3u8 & 2u8) != 0u8)
        by (bit_vector);
    if m != 0 {
        lemma_first_pending_bit_available(m, avail);
    }
}

} // verus!
