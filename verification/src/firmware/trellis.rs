//! Trellis M4 4x4 keypad and LED matrix state.

use vstd::prelude::*;

use crate::protocol::{PadEventKind, TrellisPadTelemetry};

verus! {

/// Number of pads on the 4x4 keypad.
pub const TRELLIS_PAD_COUNT: u8 = 16;

/// Index of one keypad pad, always below `TRELLIS_PAD_COUNT`.
#[derive(Clone, Copy, Debug, PartialEq, Eq, Structural)]
pub struct PadIndex(u8);

impl PadIndex {
    /// The raw index.
    pub closed spec fn spec_value(self) -> u8 {
        self.0
    }

    #[verifier::type_invariant]
    spec fn in_range(self) -> bool {
        self.0 < TRELLIS_PAD_COUNT
    }

    /// The index of pad `index`, if the keypad has such a pad.
    pub fn new(index: u8) -> (pad: Option<Self>)
        ensures
            index < TRELLIS_PAD_COUNT ==> (pad matches Some(p) && p.spec_value() == index),
            index >= TRELLIS_PAD_COUNT ==> pad is None,
    {
        if index < TRELLIS_PAD_COUNT {
            Some(PadIndex(index))
        } else {
            None
        }
    }

    /// The raw index.
    pub fn as_u8(&self) -> (index: u8)
        ensures
            index == self.spec_value(),
            index < TRELLIS_PAD_COUNT,
    {
        proof {
            use_type_invariant(self);
        }
        self.0
    }
}

/// Physical pad transition reported by the keypad driver.
#[derive(Clone, Copy, Debug, PartialEq, Eq, Structural)]
pub enum DriverPadEventKind {
    Pressed,
    Released,
}

/// One pad transition reported by the keypad driver.
#[derive(Clone, Copy, Debug, PartialEq, Eq, Structural)]
pub struct PadEvent {
    pub index: PadIndex,
    pub kind: DriverPadEventKind,
}

/// Configuration for the Trellis M4 4x4 keypad and LED module.
#[derive(Clone, Copy, Debug, PartialEq, Eq, Structural)]
pub struct TrellisConfig {
    /// Whether the Trellis module is enabled.
    pub enabled: bool,
    /// Poll interval in milliseconds.
    pub poll_interval_ms: u16,
    /// Global LED brightness.
    pub brightness: u8,
}

/// Default keypad poll interval.
pub const DEFAULT_TRELLIS_POLL_INTERVAL_MS: u16 = 25;
/// Default LED brightness.
pub const DEFAULT_TRELLIS_BRIGHTNESS: u8 = 32;

impl TrellisConfig {
    /// Disabled keypad polled every 25 ms at brightness 32.
    pub fn new() -> (config: Self)
        ensures
            config == (TrellisConfig {
                enabled: false,
                poll_interval_ms: DEFAULT_TRELLIS_POLL_INTERVAL_MS,
                brightness: DEFAULT_TRELLIS_BRIGHTNESS,
            }),
    {
        TrellisConfig {
            enabled: false,
            poll_interval_ms: DEFAULT_TRELLIS_POLL_INTERVAL_MS,
            brightness: DEFAULT_TRELLIS_BRIGHTNESS,
        }
    }
}

/// Trellis task state for Qw/ST keypad bring-up.
#[derive(Clone, Copy, Debug, PartialEq, Eq, Structural)]
pub struct TrellisTask {
    /// Trellis runtime config.
    pub config: TrellisConfig,
    /// Current LED mask mirrored to the device.
    pub led_mask: u16,
    /// Last observed pad event.
    pub last_pad: Option<PadIndex>,
}

/// The protocol event kind of a driver pad transition.
pub open spec fn spec_pad_event_kind(kind: DriverPadEventKind) -> PadEventKind {
    match kind {
        DriverPadEventKind::Pressed => PadEventKind::Pressed,
        DriverPadEventKind::Released => PadEventKind::Released,
    }
}

impl TrellisTask {
    /// Default keypad with all LEDs off and no pad seen.
    pub fn new() -> (task: Self)
        ensures
            task.config == (TrellisConfig {
                enabled: false,
                poll_interval_ms: DEFAULT_TRELLIS_POLL_INTERVAL_MS,
                brightness: DEFAULT_TRELLIS_BRIGHTNESS,
            }),
            task.led_mask == 0,
            task.last_pad is None,
    {
        TrellisTask { config: TrellisConfig::new(), led_mask: 0, last_pad: None }
    }

    /// Apply a new LED mask to the keypad matrix.
    pub fn apply_led_mask(&mut self, led_mask: u16)
        ensures
            *final(self) == (TrellisTask { led_mask, ..*old(self) }),
    {
        self.led_mask = led_mask;
    }

    /// Record a Trellis pad event and convert it to protocol telemetry.
    pub fn record_pad_event(&mut self, event: PadEvent) -> (telemetry: TrellisPadTelemetry)
        ensures
            telemetry == (TrellisPadTelemetry {
                pad_index: event.index.spec_value(),
                event: spec_pad_event_kind(event.kind),
            }),
            *final(self) == (TrellisTask {
                config: TrellisConfig { enabled: true, ..old(self).config },
                last_pad: Some(event.index),
                ..*old(self)
            }),
    {
        self.config.enabled = true;
        self.last_pad = Some(event.index);

        TrellisPadTelemetry {
            pad_index: event.index.as_u8(),
            event: match event.kind {
                DriverPadEventKind::Pressed => PadEventKind::Pressed,
                DriverPadEventKind::Released => PadEventKind::Released,
            },
        }
    }
}

} // verus!
