//! Raw-mode keyboard input: key events become drive control and discrete
//! brain commands.
//!
//! Terminals without release reporting only repeat a held key, so a drive
//! key stays active for a lease after its last press or repeat. Time is
//! measured in milliseconds on a monotonic clock chosen by the caller.

use vstd::prelude::*;

use crate::host::brain::{BrainCommand, BrainCommandView};
use crate::host::registry::{ControllerLifecycleEvent, RoutedInputEvent, SourcedInputEvent};
use crate::host::input::{
    AXIS_MAX, ControlState, ControllerId, ControllerInfo, ControllerKind, DriveIntent, InputEvent,
    InputEventView, InputWarning, InputWarningView, spec_event_views,
};
use crate::text::{chars_to_string, push_chars, push_str, spec_to_ascii_lowercase, spec_trim, to_ascii_lowercase, trim_chars};
use crate::units::Mode;

verus! {

/// Drive speed of keyboard drive requests.
pub const KEYBOARD_DRIVE_SPEED: u16 = 300;

/// Lease of a drive key after its first press, in milliseconds.
pub const INITIAL_DRIVE_KEY_LEASE_MS: u64 = 750;

/// Lease of a drive key after an auto-repeat, in milliseconds.
pub const DRIVE_KEY_LEASE_MS: u64 = 350;

/// Lease granted to active drive keys when another key is pressed, in milliseconds.
pub const INTERLEAVED_KEY_LEASE_MS: u64 = 1_000;

/// Key that switches between the drive styles.
pub const TOGGLE_DRIVE_STYLE_KEY: char = 'm';

/// Key that opens the chat prompt.
pub const CHAT_MODE_KEY: char = 'c';

/// Key layout of raw-mode keyboard drive.
#[derive(Clone, Copy, Debug, PartialEq, Eq, Structural)]
pub enum KeyboardDriveStyle {
    /// `w`/`s` (or up/down) drive, `a`/`d` (or left/right) turn.
    Wasd,
    /// `w`/`s` left tread, `e`/`d` right tread, `a` pivots left.
    Tank,
}

/// The name of a drive style.
pub open spec fn spec_style_label(style: KeyboardDriveStyle) -> &'static str {
    match style {
        KeyboardDriveStyle::Wasd => "wasd",
        KeyboardDriveStyle::Tank => "tank",
    }
}

/// The command reference of a drive style.
pub open spec fn spec_help_text(style: KeyboardDriveStyle) -> &'static str {
    match style {
        KeyboardDriveStyle::Wasd => "Keyboard commands (wasd):\n  hold w | up           Drive forward while held\n  hold s | down         Drive backward while held\n  hold a | left         Turn left while held\n  hold d | right        Turn right while held\n  m                     Switch to tank mode\n  c                     Open nexo chat prompt\n  p                     Send a ping and expect pong telemetry\n  x | space             Stop the robot\n  t                     Switch to teleop mode\n  u                     Switch to autonomous mode (default servo-scan plan)\n  f                     Switch to fault mode\n  q | Ctrl-C            Exit the loop\n",
        KeyboardDriveStyle::Tank => "Keyboard commands (tank):\n  hold w                Left tread forward\n  hold s                Left tread reverse\n  hold e                Right tread forward\n  hold d                Right tread reverse\n  hold a                Pivot left (left forward, right reverse)\n  m                     Switch to wasd mode\n  c                     Open nexo chat prompt\n  p                     Send a ping and expect pong telemetry\n  x | space             Stop the robot\n  t                     Switch to teleop mode\n  u                     Switch to autonomous mode (default servo-scan plan)\n  f                     Switch to fault mode\n  q | Ctrl-C            Exit the loop\n",
    }
}

/// The other drive style.
pub open spec fn spec_other_style(style: KeyboardDriveStyle) -> KeyboardDriveStyle {
    match style {
        KeyboardDriveStyle::Wasd => KeyboardDriveStyle::Tank,
        KeyboardDriveStyle::Tank => KeyboardDriveStyle::Wasd,
    }
}

impl KeyboardDriveStyle {
    /// The name of this style.
    pub fn as_str(self) -> (label: &'static str)
        ensures
            label == spec_style_label(self),
    {
        match self {
            KeyboardDriveStyle::Wasd => "wasd",
            KeyboardDriveStyle::Tank => "tank",
        }
    }

    /// The command reference of this style.
    pub fn help_text(self) -> (text: &'static str)
        ensures
            text == spec_help_text(self),
    {
        match self {
            KeyboardDriveStyle::Wasd => "Keyboard commands (wasd):\n  hold w | up           Drive forward while held\n  hold s | down         Drive backward while held\n  hold a | left         Turn left while held\n  hold d | right        Turn right while held\n  m                     Switch to tank mode\n  c                     Open nexo chat prompt\n  p                     Send a ping and expect pong telemetry\n  x | space             Stop the robot\n  t                     Switch to teleop mode\n  u                     Switch to autonomous mode (default servo-scan plan)\n  f                     Switch to fault mode\n  q | Ctrl-C            Exit the loop\n",
            KeyboardDriveStyle::Tank => "Keyboard commands (tank):\n  hold w                Left tread forward\n  hold s                Left tread reverse\n  hold e                Right tread forward\n  hold d                Right tread reverse\n  hold a                Pivot left (left forward, right reverse)\n  m                     Switch to wasd mode\n  c                     Open nexo chat prompt\n  p                     Send a ping and expect pong telemetry\n  x | space             Stop the robot\n  t                     Switch to teleop mode\n  u                     Switch to autonomous mode (default servo-scan plan)\n  f                     Switch to fault mode\n  q | Ctrl-C            Exit the loop\n",
        }
    }
}

impl Default for KeyboardDriveStyle {
    fn default() -> (style: Self)
        ensures
            style == KeyboardDriveStyle::Wasd,
    {
        KeyboardDriveStyle::Wasd
    }
}

/// A key as the terminal reports it.
#[derive(Clone, Copy, Debug, PartialEq, Eq, Structural)]
pub enum KeyCode {
    Char(char),
    Up,
    Down,
    Left,
    Right,
    Enter,
    Esc,
    Backspace,
    Tab,
    /// Any other key.
    Other,
}

/// Whether a key went down, auto-repeated, or went up.
#[derive(Clone, Copy, Debug, PartialEq, Eq, Structural)]
pub enum KeyEventKind {
    Press,
    Repeat,
    Release,
}

/// Modifier keys held with a key.
#[derive(Clone, Copy, Debug, PartialEq, Eq, Structural)]
pub struct KeyModifiers {
    pub control: bool,
    pub alt: bool,
    pub shift: bool,
}

impl KeyModifiers {
    /// No modifier held.
    pub fn none() -> (m: Self)
        ensures
            !m.control && !m.alt && !m.shift,
    {
        KeyModifiers { control: false, alt: false, shift: false }
    }

    /// Only Control held.
    pub fn control() -> (m: Self)
        ensures
            m.control && !m.alt && !m.shift,
    {
        KeyModifiers { control: true, alt: false, shift: false }
    }
}

/// One key event.
#[derive(Clone, Copy, Debug, PartialEq, Eq, Structural)]
pub struct KeyEvent {
    pub code: KeyCode,
    pub modifiers: KeyModifiers,
    pub kind: KeyEventKind,
}

impl KeyEvent {
    /// A key press.
    pub fn new(code: KeyCode, modifiers: KeyModifiers) -> (event: Self)
        ensures
            event == (KeyEvent { code, modifiers, kind: KeyEventKind::Press }),
    {
        KeyEvent { code, modifiers, kind: KeyEventKind::Press }
    }
}

/// The lease a key event grants to the drive keys: none for a release.
pub open spec fn spec_drive_key_lease(kind: KeyEventKind) -> Option<u64> {
    match kind {
        KeyEventKind::Press => Some(INITIAL_DRIVE_KEY_LEASE_MS),
        KeyEventKind::Repeat => Some(DRIVE_KEY_LEASE_MS),
        KeyEventKind::Release => None,
    }
}

/// Return the lease a key event grants to the drive keys.
pub fn drive_key_lease(kind: KeyEventKind) -> (lease: Option<u64>)
    ensures
        lease == spec_drive_key_lease(kind),
{
    match kind {
        KeyEventKind::Press => Some(INITIAL_DRIVE_KEY_LEASE_MS),
        KeyEventKind::Repeat => Some(DRIVE_KEY_LEASE_MS),
        KeyEventKind::Release => None,
    }
}

/// Whether `now` plus the longest lease fits the clock.
pub open spec fn spec_clock_fits(now: u64) -> bool {
    now + INTERLEAVED_KEY_LEASE_MS <= u64::MAX
}

/// One drive key: whether a release-reporting terminal says it is down, and
/// until when its lease lasts.
#[derive(Clone, Copy, Debug, PartialEq, Eq, Structural)]
pub struct DriveKeyState {
    pub pressed: bool,
    pub deadline: Option<u64>,
}

/// A key that is neither down nor leased.
pub open spec fn spec_idle_key() -> DriveKeyState {
    DriveKeyState { pressed: false, deadline: None }
}

/// Whether a key counts as held at `now`: down, or leased past `now`.
pub open spec fn spec_key_active(key: DriveKeyState, now: u64) -> bool {
    key.pressed || (key.deadline matches Some(d) && d > now)
}

/// A key after an event of `kind` at `now`; `track` says whether the
/// terminal reports releases, so that a press marks the key down.
pub open spec fn spec_key_apply(key: DriveKeyState, kind: KeyEventKind, now: u64, track: bool) -> DriveKeyState {
    match kind {
        KeyEventKind::Press => DriveKeyState {
            pressed: if track { true } else { key.pressed },
            deadline: Some((now + INITIAL_DRIVE_KEY_LEASE_MS) as u64),
        },
        KeyEventKind::Repeat => DriveKeyState {
            pressed: if track { true } else { key.pressed },
            deadline: Some((now + DRIVE_KEY_LEASE_MS) as u64),
        },
        KeyEventKind::Release => spec_idle_key(),
    }
}

/// A key whose lease is renewed to `now + lease` when it is active.
pub open spec fn spec_key_refresh_active(key: DriveKeyState, now: u64, lease: u64) -> DriveKeyState {
    if spec_key_active(key, now) {
        DriveKeyState { deadline: Some((now + lease) as u64), ..key }
    } else {
        key
    }
}

/// A key whose lease is renewed to `now + lease` when it is down or has any
/// lease, expired or not.
pub open spec fn spec_key_refresh_tracked(key: DriveKeyState, now: u64, lease: u64) -> DriveKeyState {
    if key.pressed || key.deadline is Some {
        DriveKeyState { deadline: Some((now + lease) as u64), ..key }
    } else {
        key
    }
}

/// Whether the lease of a key has run out at `now`.
pub open spec fn spec_key_lapsed(key: DriveKeyState, now: u64) -> bool {
    key.deadline matches Some(d) && d <= now
}

/// A key after dropping a lease that ran out at `now`.
pub open spec fn spec_key_expire(key: DriveKeyState, now: u64) -> DriveKeyState {
    if spec_key_lapsed(key, now) {
        DriveKeyState { deadline: None, ..key }
    } else {
        key
    }
}

/// Whether expiring a key at `now` releases it.
pub open spec fn spec_key_released_by_expiry(key: DriveKeyState, now: u64) -> bool {
    spec_key_lapsed(key, now) && !key.pressed
}

/// Time left until a key that is not down loses its lease.
pub open spec fn spec_key_next_expiration(key: DriveKeyState, now: u64) -> Option<u64> {
    if key.pressed {
        None
    } else {
        match key.deadline {
            Some(d) => if d > now { Some((d - now) as u64) } else { None },
            None => None,
        }
    }
}

impl DriveKeyState {
    /// Whether the key is held at `now`.
    pub fn is_active(self, now: u64) -> (active: bool)
        ensures
            active == spec_key_active(self, now),
    {
        self.pressed || match self.deadline {
            Some(d) => d > now,
            None => false,
        }
    }

    /// Record a key event.
    pub fn apply(&mut self, kind: KeyEventKind, now: u64, track_pressed_state: bool)
        requires
            spec_clock_fits(now),
        ensures
            *final(self) == spec_key_apply(*old(self), kind, now, track_pressed_state),
    {
        match kind {
            KeyEventKind::Press => {
                if track_pressed_state {
                    self.pressed = true;
                }
                self.deadline = Some(now + INITIAL_DRIVE_KEY_LEASE_MS);
            },
            KeyEventKind::Repeat => {
                if track_pressed_state {
                    self.pressed = true;
                }
                self.deadline = Some(now + DRIVE_KEY_LEASE_MS);
            },
            KeyEventKind::Release => {
                self.pressed = false;
                self.deadline = None;
            },
        }
    }

    /// Renew the lease of an active key.
    pub fn refresh_active(&mut self, now: u64, lease: u64)
        requires
            now + lease <= u64::MAX,
        ensures
            *final(self) == spec_key_refresh_active(*old(self), now, lease),
    {
        if self.is_active(now) {
            self.deadline = Some(now + lease);
        }
    }

    /// Renew the lease of a key that is down or has any lease.
    pub fn refresh_tracked(&mut self, now: u64, lease: u64)
        requires
            now + lease <= u64::MAX,
        ensures
            *final(self) == spec_key_refresh_tracked(*old(self), now, lease),
    {
        if self.pressed || self.deadline.is_some() {
            self.deadline = Some(now + lease);
        }
    }

    /// Drop a lease that ran out; returns whether that released the key.
    pub fn expire(&mut self, now: u64) -> (released: bool)
        ensures
            *final(self) == spec_key_expire(*old(self), now),
            released == spec_key_released_by_expiry(*old(self), now),
    {
        let expired = match self.deadline {
            Some(d) => d <= now,
            None => false,
        };
        if expired {
            self.deadline = None;
        }
        expired && !self.pressed
    }

    /// Time left until the key loses its lease, when it is not down.
    pub fn next_expiration(self, now: u64) -> (left: Option<u64>)
        ensures
            left == spec_key_next_expiration(self, now),
    {
        if self.pressed {
            return None;
        }
        match self.deadline {
            Some(d) => if d > now {
                Some(d - now)
            } else {
                None
            },
            None => None,
        }
    }
}

/// The nine drive key slots.
#[derive(Clone, Copy, Debug, PartialEq, Eq, Structural)]
pub enum DriveSlot {
    Forward,
    Backward,
    Left,
    Right,
    LeftTrackForward,
    LeftTrackBackward,
    RightTrackForward,
    RightTrackBackward,
    TankPivotLeft,
}

/// The slot a key drives under a style, if any.
pub open spec fn spec_slot_of(style: KeyboardDriveStyle, code: KeyCode) -> Option<DriveSlot> {
    match style {
        KeyboardDriveStyle::Wasd => match code {
            KeyCode::Up => Some(DriveSlot::Forward),
            KeyCode::Down => Some(DriveSlot::Backward),
            KeyCode::Left => Some(DriveSlot::Left),
            KeyCode::Right => Some(DriveSlot::Right),
            KeyCode::Char(c) => if c == 'w' || c == 'W' {
                Some(DriveSlot::Forward)
            } else if c == 's' || c == 'S' {
                Some(DriveSlot::Backward)
            } else if c == 'a' || c == 'A' {
                Some(DriveSlot::Left)
            } else if c == 'd' || c == 'D' {
                Some(DriveSlot::Right)
            } else {
                None
            },
            _ => None,
        },
        KeyboardDriveStyle::Tank => match code {
            KeyCode::Char(c) => if c == 'w' || c == 'W' {
                Some(DriveSlot::LeftTrackForward)
            } else if c == 's' || c == 'S' {
                Some(DriveSlot::LeftTrackBackward)
            } else if c == 'e' || c == 'E' {
                Some(DriveSlot::RightTrackForward)
            } else if c == 'd' || c == 'D' {
                Some(DriveSlot::RightTrackBackward)
            } else if c == 'a' || c == 'A' {
                Some(DriveSlot::TankPivotLeft)
            } else {
                None
            },
            _ => None,
        },
    }
}

/// Return the slot a key drives under a style, if any.
pub fn slot_of(style: KeyboardDriveStyle, code: KeyCode) -> (slot: Option<DriveSlot>)
    ensures
        slot == spec_slot_of(style, code),
{
    match style {
        KeyboardDriveStyle::Wasd => match code {
            KeyCode::Up => Some(DriveSlot::Forward),
            KeyCode::Down => Some(DriveSlot::Backward),
            KeyCode::Left => Some(DriveSlot::Left),
            KeyCode::Right => Some(DriveSlot::Right),
            KeyCode::Char(c) => if c == 'w' || c == 'W' {
                Some(DriveSlot::Forward)
            } else if c == 's' || c == 'S' {
                Some(DriveSlot::Backward)
            } else if c == 'a' || c == 'A' {
                Some(DriveSlot::Left)
            } else if c == 'd' || c == 'D' {
                Some(DriveSlot::Right)
            } else {
                None
            },
            _ => None,
        },
        KeyboardDriveStyle::Tank => match code {
            KeyCode::Char(c) => if c == 'w' || c == 'W' {
                Some(DriveSlot::LeftTrackForward)
            } else if c == 's' || c == 'S' {
                Some(DriveSlot::LeftTrackBackward)
            } else if c == 'e' || c == 'E' {
                Some(DriveSlot::RightTrackForward)
            } else if c == 'd' || c == 'D' {
                Some(DriveSlot::RightTrackBackward)
            } else if c == 'a' || c == 'A' {
                Some(DriveSlot::TankPivotLeft)
            } else {
                None
            },
            _ => None,
        },
    }
}

/// Whether a key drives the robot under a style.
pub fn is_drive_key(style: KeyboardDriveStyle, code: KeyCode) -> (drive: bool)
    ensures
        drive == spec_slot_of(style, code) is Some,
{
    slot_of(style, code).is_some()
}

/// Every drive key of both styles.
#[derive(Clone, Copy, Debug, PartialEq, Eq, Structural)]
pub struct HeldDriveKeys {
    pub forward: DriveKeyState,
    pub backward: DriveKeyState,
    pub left: DriveKeyState,
    pub right: DriveKeyState,
    pub left_track_forward: DriveKeyState,
    pub left_track_backward: DriveKeyState,
    pub right_track_forward: DriveKeyState,
    pub right_track_backward: DriveKeyState,
    pub tank_pivot_left: DriveKeyState,
}

/// No drive key held or leased.
pub open spec fn spec_held_idle() -> HeldDriveKeys {
    HeldDriveKeys {
        forward: spec_idle_key(),
        backward: spec_idle_key(),
        left: spec_idle_key(),
        right: spec_idle_key(),
        left_track_forward: spec_idle_key(),
        left_track_backward: spec_idle_key(),
        right_track_forward: spec_idle_key(),
        right_track_backward: spec_idle_key(),
        tank_pivot_left: spec_idle_key(),
    }
}

/// The key in a slot.
pub open spec fn spec_held_get(h: HeldDriveKeys, slot: DriveSlot) -> DriveKeyState {
    match slot {
        DriveSlot::Forward => h.forward,
        DriveSlot::Backward => h.backward,
        DriveSlot::Left => h.left,
        DriveSlot::Right => h.right,
        DriveSlot::LeftTrackForward => h.left_track_forward,
        DriveSlot::LeftTrackBackward => h.left_track_backward,
        DriveSlot::RightTrackForward => h.right_track_forward,
        DriveSlot::RightTrackBackward => h.right_track_backward,
        DriveSlot::TankPivotLeft => h.tank_pivot_left,
    }
}

/// The keys with the key in `slot` replaced.
pub open spec fn spec_held_set(h: HeldDriveKeys, slot: DriveSlot, key: DriveKeyState) -> HeldDriveKeys {
    match slot {
        DriveSlot::Forward => HeldDriveKeys { forward: key, ..h },
        DriveSlot::Backward => HeldDriveKeys { backward: key, ..h },
        DriveSlot::Left => HeldDriveKeys { left: key, ..h },
        DriveSlot::Right => HeldDriveKeys { right: key, ..h },
        DriveSlot::LeftTrackForward => HeldDriveKeys { left_track_forward: key, ..h },
        DriveSlot::LeftTrackBackward => HeldDriveKeys { left_track_backward: key, ..h },
        DriveSlot::RightTrackForward => HeldDriveKeys { right_track_forward: key, ..h },
        DriveSlot::RightTrackBackward => HeldDriveKeys { right_track_backward: key, ..h },
        DriveSlot::TankPivotLeft => HeldDriveKeys { tank_pivot_left: key, ..h },
    }
}

/// The keys after `f` is applied to each of them.
pub open spec fn spec_held_map(h: HeldDriveKeys, f: spec_fn(DriveKeyState) -> DriveKeyState) -> HeldDriveKeys {
    HeldDriveKeys {
        forward: f(h.forward),
        backward: f(h.backward),
        left: f(h.left),
        right: f(h.right),
        left_track_forward: f(h.left_track_forward),
        left_track_backward: f(h.left_track_backward),
        right_track_forward: f(h.right_track_forward),
        right_track_backward: f(h.right_track_backward),
        tank_pivot_left: f(h.tank_pivot_left),
    }
}

/// The keys after an event on `code`, and whether the key it drives changed
/// between active and inactive.
pub open spec fn spec_held_apply(
    h: HeldDriveKeys,
    style: KeyboardDriveStyle,
    code: KeyCode,
    kind: KeyEventKind,
    now: u64,
    track: bool,
) -> (HeldDriveKeys, bool) {
    match spec_slot_of(style, code) {
        Some(slot) => {
            let before = spec_held_get(h, slot);
            let after = spec_key_apply(before, kind, now, track);
            (spec_held_set(h, slot, after), spec_key_active(before, now) != spec_key_active(after, now))
        },
        None => (h, false),
    }
}

/// Every active key with its lease renewed to `now + lease`.
pub open spec fn spec_held_refresh_active(h: HeldDriveKeys, now: u64, lease: u64) -> HeldDriveKeys {
    spec_held_map(h, |k: DriveKeyState| spec_key_refresh_active(k, now, lease))
}

/// Every key that is down or leased with its lease renewed to `now + lease`.
pub open spec fn spec_held_refresh_tracked(h: HeldDriveKeys, now: u64, lease: u64) -> HeldDriveKeys {
    spec_held_map(h, |k: DriveKeyState| spec_key_refresh_tracked(k, now, lease))
}

/// Every key with a lease that ran out at `now` dropped.
pub open spec fn spec_held_expire(h: HeldDriveKeys, now: u64) -> HeldDriveKeys {
    spec_held_map(h, |k: DriveKeyState| spec_key_expire(k, now))
}

/// Whether expiring at `now` releases any key.
pub open spec fn spec_held_released_by_expiry(h: HeldDriveKeys, now: u64) -> bool {
    ||| spec_key_released_by_expiry(h.forward, now)
    ||| spec_key_released_by_expiry(h.backward, now)
    ||| spec_key_released_by_expiry(h.left, now)
    ||| spec_key_released_by_expiry(h.right, now)
    ||| spec_key_released_by_expiry(h.left_track_forward, now)
    ||| spec_key_released_by_expiry(h.left_track_backward, now)
    ||| spec_key_released_by_expiry(h.right_track_forward, now)
    ||| spec_key_released_by_expiry(h.right_track_backward, now)
    ||| spec_key_released_by_expiry(h.tank_pivot_left, now)
}

/// The smaller of two optional durations; a missing one does not count.
pub open spec fn spec_min_opt(a: Option<u64>, b: Option<u64>) -> Option<u64> {
    match (a, b) {
        (Some(x), Some(y)) => Some(if x <= y { x } else { y }),
        (Some(x), None) => Some(x),
        (None, Some(y)) => Some(y),
        (None, None) => None,
    }
}

/// Time until the first lease of a key that is not down runs out.
pub open spec fn spec_held_next_expiration(h: HeldDriveKeys, now: u64) -> Option<u64> {
    spec_min_opt(
        spec_key_next_expiration(h.forward, now),
        spec_min_opt(
            spec_key_next_expiration(h.backward, now),
            spec_min_opt(
                spec_key_next_expiration(h.left, now),
                spec_min_opt(
                    spec_key_next_expiration(h.right, now),
                    spec_min_opt(
                        spec_key_next_expiration(h.left_track_forward, now),
                        spec_min_opt(
                            spec_key_next_expiration(h.left_track_backward, now),
                            spec_min_opt(
                                spec_key_next_expiration(h.right_track_forward, now),
                                spec_min_opt(
                                    spec_key_next_expiration(h.right_track_backward, now),
                                    spec_key_next_expiration(h.tank_pivot_left, now),
                                ),
                            ),
                        ),
                    ),
                ),
            ),
        ),
    )
}

/// Full scale toward the held key of an opposing pair, zero for both or neither.
pub open spec fn spec_key_axis(positive: bool, negative: bool) -> i16 {
    if positive && !negative {
        AXIS_MAX
    } else if negative && !positive {
        -1000i16
    } else {
        0i16
    }
}

/// The forward and turn axes the held keys make under a style at `now`.
pub open spec fn spec_held_axes(h: HeldDriveKeys, style: KeyboardDriveStyle, now: u64) -> (int, int) {
    match style {
        KeyboardDriveStyle::Wasd => (
            spec_key_axis(spec_key_active(h.forward, now), spec_key_active(h.backward, now)) as int,
            spec_key_axis(spec_key_active(h.right, now), spec_key_active(h.left, now)) as int,
        ),
        KeyboardDriveStyle::Tank => {
            let pivot = spec_key_active(h.tank_pivot_left, now);
            let left = spec_key_axis(
                spec_key_active(h.left_track_forward, now) || pivot,
                spec_key_active(h.left_track_backward, now),
            ) as int;
            let right = spec_key_axis(
                spec_key_active(h.right_track_forward, now),
                spec_key_active(h.right_track_backward, now) || pivot,
            ) as int;
            ((left + right) / 2, (right - left) / 2)
        },
    }
}

/// The drive request of forward and turn axes: none when both are zero.
pub open spec fn spec_drive_control(forward: int, turn: int) -> ControlState {
    if forward == 0 && turn == 0 {
        ControlState { drive: None }
    } else {
        ControlState {
            drive: Some(DriveIntent { forward: forward as i16, turn: turn as i16, speed: KEYBOARD_DRIVE_SPEED }),
        }
    }
}

/// The drive request the held keys make under a style at `now`.
pub open spec fn spec_held_control(h: HeldDriveKeys, style: KeyboardDriveStyle, now: u64) -> ControlState {
    let (forward, turn) = spec_held_axes(h, style, now);
    spec_drive_control(forward, turn)
}

/// Return full scale toward the held key of an opposing pair.
pub fn axis_value(positive: bool, negative: bool) -> (axis: i16)
    ensures
        axis == spec_key_axis(positive, negative),
{
    if positive && !negative {
        AXIS_MAX
    } else if negative && !positive {
        -AXIS_MAX
    } else {
        0
    }
}

impl HeldDriveKeys {
    /// Nothing held.
    pub fn idle() -> (h: Self)
        ensures
            h == spec_held_idle(),
    {
        let k = DriveKeyState { pressed: false, deadline: None };
        HeldDriveKeys {
            forward: k,
            backward: k,
            left: k,
            right: k,
            left_track_forward: k,
            left_track_backward: k,
            right_track_forward: k,
            right_track_backward: k,
            tank_pivot_left: k,
        }
    }

    /// The key in a slot.
    pub fn get(&self, slot: DriveSlot) -> (key: DriveKeyState)
        ensures
            key == spec_held_get(*self, slot),
    {
        match slot {
            DriveSlot::Forward => self.forward,
            DriveSlot::Backward => self.backward,
            DriveSlot::Left => self.left,
            DriveSlot::Right => self.right,
            DriveSlot::LeftTrackForward => self.left_track_forward,
            DriveSlot::LeftTrackBackward => self.left_track_backward,
            DriveSlot::RightTrackForward => self.right_track_forward,
            DriveSlot::RightTrackBackward => self.right_track_backward,
            DriveSlot::TankPivotLeft => self.tank_pivot_left,
        }
    }

    /// Replace the key in a slot.
    pub fn set(&mut self, slot: DriveSlot, key: DriveKeyState)
        ensures
            *final(self) == spec_held_set(*old(self), slot, key),
    {
        match slot {
            DriveSlot::Forward => self.forward = key,
            DriveSlot::Backward => self.backward = key,
            DriveSlot::Left => self.left = key,
            DriveSlot::Right => self.right = key,
            DriveSlot::LeftTrackForward => self.left_track_forward = key,
            DriveSlot::LeftTrackBackward => self.left_track_backward = key,
            DriveSlot::RightTrackForward => self.right_track_forward = key,
            DriveSlot::RightTrackBackward => self.right_track_backward = key,
            DriveSlot::TankPivotLeft => self.tank_pivot_left = key,
        }
    }

    /// Record an event on `code`; returns whether the key it drives changed
    /// between active and inactive.
    pub fn apply(
        &mut self,
        style: KeyboardDriveStyle,
        code: KeyCode,
        kind: KeyEventKind,
        now: u64,
        track_pressed_state: bool,
    ) -> (changed: bool)
        requires
            spec_clock_fits(now),
        ensures
            (*final(self), changed) == spec_held_apply(*old(self), style, code, kind, now, track_pressed_state),
    {
        match slot_of(style, code) {
            Some(slot) => {
                let mut key = self.get(slot);
                let was_active = key.is_active(now);
                key.apply(kind, now, track_pressed_state);
                self.set(slot, key);
                was_active != key.is_active(now)
            },
            None => false,
        }
    }

    /// Renew the lease of every active key.
    pub fn refresh_active(&mut self, now: u64, lease: u64)
        requires
            now + lease <= u64::MAX,
        ensures
            *final(self) == spec_held_refresh_active(*old(self), now, lease),
    {
        self.forward.refresh_active(now, lease);
        self.backward.refresh_active(now, lease);
        self.left.refresh_active(now, lease);
        self.right.refresh_active(now, lease);
        self.left_track_forward.refresh_active(now, lease);
        self.left_track_backward.refresh_active(now, lease);
        self.right_track_forward.refresh_active(now, lease);
        self.right_track_backward.refresh_active(now, lease);
        self.tank_pivot_left.refresh_active(now, lease);
    }

    /// Renew the lease of every key that is down or leased.
    pub fn refresh_tracked(&mut self, now: u64, lease: u64)
        requires
            now + lease <= u64::MAX,
        ensures
            *final(self) == spec_held_refresh_tracked(*old(self), now, lease),
    {
        self.forward.refresh_tracked(now, lease);
        self.backward.refresh_tracked(now, lease);
        self.left.refresh_tracked(now, lease);
        self.right.refresh_tracked(now, lease);
        self.left_track_forward.refresh_tracked(now, lease);
        self.left_track_backward.refresh_tracked(now, lease);
        self.right_track_forward.refresh_tracked(now, lease);
        self.right_track_backward.refresh_tracked(now, lease);
        self.tank_pivot_left.refresh_tracked(now, lease);
    }

    /// Drop every lease that ran out; returns whether that released a key.
    pub fn expire(&mut self, now: u64) -> (changed: bool)
        ensures
            *final(self) == spec_held_expire(*old(self), now),
            changed == spec_held_released_by_expiry(*old(self), now),
    {
        let mut changed = false;
        if self.forward.expire(now) {
            changed = true;
        }
        if self.backward.expire(now) {
            changed = true;
        }
        if self.left.expire(now) {
            changed = true;
        }
        if self.right.expire(now) {
            changed = true;
        }
        if self.left_track_forward.expire(now) {
            changed = true;
        }
        if self.left_track_backward.expire(now) {
            changed = true;
        }
        if self.right_track_forward.expire(now) {
            changed = true;
        }
        if self.right_track_backward.expire(now) {
            changed = true;
        }
        if self.tank_pivot_left.expire(now) {
            changed = true;
        }
        changed
    }

    /// Time until the first lease of a key that is not down runs out.
    pub fn next_expiration(self, now: u64) -> (left: Option<u64>)
        ensures
            left == spec_held_next_expiration(self, now),
    {
        min_opt(
            self.forward.next_expiration(now),
            min_opt(
                self.backward.next_expiration(now),
                min_opt(
                    self.left.next_expiration(now),
                    min_opt(
                        self.right.next_expiration(now),
                        min_opt(
                            self.left_track_forward.next_expiration(now),
                            min_opt(
                                self.left_track_backward.next_expiration(now),
                                min_opt(
                                    self.right_track_forward.next_expiration(now),
                                    min_opt(
                                        self.right_track_backward.next_expiration(now),
                                        self.tank_pivot_left.next_expiration(now),
                                    ),
                                ),
                            ),
                        ),
                    ),
                ),
            ),
        )
    }

    /// The drive request the held keys make under a style at `now`.
    pub fn to_control_state(self, style: KeyboardDriveStyle, now: u64) -> (control: ControlState)
        ensures
            control == spec_held_control(self, style, now),
    {
        let (forward, turn): (i16, i16) = match style {
            KeyboardDriveStyle::Wasd => {
                let forward = axis_value(self.forward.is_active(now), self.backward.is_active(now));
                let turn = axis_value(self.right.is_active(now), self.left.is_active(now));
                (forward, turn)
            },
            KeyboardDriveStyle::Tank => {
                let pivot = self.tank_pivot_left.is_active(now);
                let left_track = axis_value(
                    self.left_track_forward.is_active(now) || pivot,
                    self.left_track_backward.is_active(now),
                ) as i32;
                let right_track = axis_value(
                    self.right_track_forward.is_active(now),
                    self.right_track_backward.is_active(now) || pivot,
                ) as i32;
                (((left_track + right_track) / 2) as i16, ((right_track - left_track) / 2) as i16)
            },
        };
        if forward == 0 && turn == 0 {
            ControlState { drive: None }
        } else {
            ControlState { drive: Some(DriveIntent { forward, turn, speed: KEYBOARD_DRIVE_SPEED }) }
        }
    }
}

/// Return the smaller of two optional durations.
pub fn min_opt(a: Option<u64>, b: Option<u64>) -> (m: Option<u64>)
    ensures
        m == spec_min_opt(a, b),
{
    match (a, b) {
        (Some(x), Some(y)) => Some(if x <= y { x } else { y }),
        (Some(x), None) => Some(x),
        (None, Some(y)) => Some(y),
        (None, None) => None,
    }
}


/// The keyboard backend seen as values: style, connection and release
/// reporting flags, the chat line when open, the drive keys, the last
/// reported control, and the events waiting to be read.
pub struct KeyboardView {
    pub style: KeyboardDriveStyle,
    pub connected: bool,
    pub release_tracking: bool,
    pub chat: Option<Seq<char>>,
    pub held: HeldDriveKeys,
    pub control: ControlState,
    pub pending: Seq<InputEventView>,
}

/// A status warning event.
pub open spec fn spec_status(text: Seq<char>) -> InputEventView {
    InputEventView::Warning(InputWarningView::Status(text))
}

/// The backend with one more event waiting.
pub open spec fn spec_enqueue(v: KeyboardView, e: InputEventView) -> KeyboardView {
    KeyboardView { pending: v.pending.push(e), ..v }
}

/// The backend after comparing the control the keys make at `now` with the
/// last one reported, reporting it when it differs.
pub open spec fn spec_sync(v: KeyboardView, now: u64) -> KeyboardView {
    let control = spec_held_control(v.held, v.style, now);
    if control == v.control {
        v
    } else {
        KeyboardView { control, pending: v.pending.push(InputEventView::Control(control)), ..v }
    }
}

/// Switch drive style: keys are released, the control is synchronized and
/// the new style announced.
pub open spec fn spec_toggle_style(v: KeyboardView, now: u64) -> KeyboardView {
    let style = spec_other_style(v.style);
    let v1 = spec_sync(KeyboardView { style, held: spec_held_idle(), ..v }, now);
    spec_enqueue(v1, spec_status("keyboard drive style switched to "@ + spec_style_label(style)@))
}

/// Open the chat line (unless already open): keys are released, the control
/// is synchronized and an empty prompt shown.
pub open spec fn spec_enter_chat(v: KeyboardView, now: u64) -> KeyboardView {
    if v.chat is Some {
        v
    } else {
        let v1 = spec_sync(KeyboardView { chat: Some(Seq::empty()), held: spec_held_idle(), ..v }, now);
        let v2 = spec_enqueue(v1, InputEventView::Prompt(Some("chat> "@)));
        spec_enqueue(v2, spec_status("chat mode active: type a message and press Enter"@))
    }
}

/// The prompt event showing a chat line.
pub open spec fn spec_chat_prompt(chat: Option<Seq<char>>) -> InputEventView {
    InputEventView::Prompt(
        match chat {
            Some(b) => Some("chat> "@ + b),
            None => None,
        },
    )
}

/// A key event while the chat line is open.
pub open spec fn spec_chat_key(v: KeyboardView, e: KeyEvent) -> KeyboardView {
    if e.kind is Release {
        v
    } else {
        match e.code {
            KeyCode::Esc => {
                let v1 = spec_enqueue(KeyboardView { chat: None, ..v }, InputEventView::Prompt(None));
                spec_enqueue(v1, spec_status("chat mode cancelled"@))
            },
            KeyCode::Enter => {
                let line = match v.chat {
                    Some(b) => b,
                    None => Seq::empty(),
                };
                let v1 = spec_enqueue(KeyboardView { chat: None, ..v }, InputEventView::Prompt(None));
                let text = spec_trim(line);
                if text.len() == 0 {
                    spec_enqueue(v1, spec_status("chat mode cancelled: prompt was empty"@))
                } else {
                    spec_enqueue(v1, InputEventView::Command(BrainCommandView::Chat(text)))
                }
            },
            KeyCode::Backspace => {
                let chat = match v.chat {
                    Some(b) => Some(if b.len() > 0 { b.drop_last() } else { b }),
                    None => None,
                };
                spec_enqueue(KeyboardView { chat, ..v }, spec_chat_prompt(chat))
            },
            KeyCode::Char(c) => if !(e.modifiers.control || e.modifiers.alt) {
                let chat = match v.chat {
                    Some(b) => Some(b.push(c)),
                    None => None,
                };
                spec_enqueue(KeyboardView { chat, ..v }, spec_chat_prompt(chat))
            } else {
                v
            },
            _ => v,
        }
    }
}

/// Whether a lower-case letter drives the robot under a style.
pub open spec fn spec_is_drive_letter(style: KeyboardDriveStyle, c: char) -> bool {
    match style {
        KeyboardDriveStyle::Wasd => c == 'w' || c == 'a' || c == 's' || c == 'd',
        KeyboardDriveStyle::Tank => c == 'w' || c == 's' || c == 'a' || c == 'd' || c == 'e',
    }
}

/// The command of a lower-case command letter; any other letter is reported
/// as unknown.
pub open spec fn spec_letter_event(c: char) -> InputEventView {
    if c == 'q' {
        InputEventView::Command(BrainCommandView::Quit)
    } else if c == 'p' {
        InputEventView::Command(BrainCommandView::Ping)
    } else if c == 'x' {
        InputEventView::Command(BrainCommandView::Stop)
    } else if c == 't' {
        InputEventView::Command(BrainCommandView::SetMode(Mode::Teleop))
    } else if c == 'u' {
        InputEventView::Command(BrainCommandView::SetMode(Mode::Autonomous))
    } else if c == 'f' {
        InputEventView::Command(BrainCommandView::SetMode(Mode::Fault))
    } else {
        InputEventView::Warning(InputWarningView::UnknownKeyboardCommand(c))
    }
}

/// Whether a key is Control-C.
pub open spec fn spec_is_ctrl_c(e: KeyEvent) -> bool {
    e.modifiers.control && (e.code == KeyCode::Char('c') || e.code == KeyCode::Char('C'))
}

/// The discrete event of a key press: Control-C and `q` quit, space and `x`
/// stop, `p` pings, `t`/`u`/`f` select a mode; help keys, drive keys and
/// non-character keys give none; other letters are reported as unknown.
pub open spec fn spec_discrete_event(style: KeyboardDriveStyle, e: KeyEvent) -> Option<InputEventView> {
    if !(e.kind is Press) {
        None
    } else if spec_is_ctrl_c(e) {
        Some(InputEventView::Command(BrainCommandView::Quit))
    } else {
        match e.code {
            KeyCode::Char(raw) => if raw == ' ' {
                Some(InputEventView::Command(BrainCommandView::Stop))
            } else {
                let c = spec_to_ascii_lowercase(raw);
                if c == 'h' || c == '?' || spec_is_drive_letter(style, c) {
                    None
                } else {
                    Some(spec_letter_event(c))
                }
            },
            _ => None,
        }
    }
}

/// The backend after a key event at `now`.
pub open spec fn spec_handle_key(v: KeyboardView, e: KeyEvent, now: u64) -> KeyboardView {
    if spec_is_ctrl_c(e) && e.kind is Press {
        spec_enqueue(v, InputEventView::Command(BrainCommandView::Quit))
    } else if v.chat is Some {
        spec_chat_key(v, e)
    } else if e.kind is Press && (e.code == KeyCode::Char(CHAT_MODE_KEY) || e.code == KeyCode::Char('C'))
        && !(e.modifiers.control || e.modifiers.alt) {
        spec_enter_chat(v, now)
    } else if e.kind is Press && (e.code == KeyCode::Char(TOGGLE_DRIVE_STYLE_KEY) || e.code == KeyCode::Char('M')) {
        spec_toggle_style(v, now)
    } else {
        let v1 = if spec_slot_of(v.style, e.code) is Some {
            let (held, changed) = spec_held_apply(v.held, v.style, e.code, e.kind, now, v.release_tracking);
            let held = match spec_drive_key_lease(e.kind) {
                Some(lease) => spec_held_refresh_active(held, now, lease),
                None => held,
            };
            let v0 = KeyboardView { held, ..v };
            if changed {
                spec_sync(v0, now)
            } else {
                v0
            }
        } else {
            KeyboardView { held: spec_held_refresh_active(v.held, now, INTERLEAVED_KEY_LEASE_MS), ..v }
        };
        match spec_discrete_event(v.style, e) {
            Some(event) => spec_enqueue(v1, event),
            None => v1,
        }
    }
}

/// The backend after dropping the leases that ran out at `now`.
pub open spec fn spec_expire_keys(v: KeyboardView, now: u64) -> KeyboardView {
    let v1 = KeyboardView { held: spec_held_expire(v.held, now), ..v };
    if spec_held_released_by_expiry(v.held, now) {
        spec_sync(v1, now)
    } else {
        v1
    }
}

/// A fresh backend of a style: nothing held, nothing reported, chat closed.
pub open spec fn spec_fresh_keyboard(style: KeyboardDriveStyle) -> KeyboardView {
    KeyboardView {
        style,
        connected: false,
        release_tracking: false,
        chat: None,
        held: spec_held_idle(),
        control: ControlState { drive: None },
        pending: Seq::empty(),
    }
}

/// Raw-mode keyboard input backend for local robot bring-up.
#[derive(Debug)]
pub struct KeyboardInput {
    drive_style: KeyboardDriveStyle,
    controller_connected: bool,
    keyboard_enhancement_enabled: bool,
    chat_buffer: Option<Vec<char>>,
    held_drive_keys: HeldDriveKeys,
    current_control_state: ControlState,
    pending_events: Vec<InputEvent>,
}

/// The characters of an optional chat line.
pub open spec fn spec_opt_chars(b: Option<Vec<char>>) -> Option<Seq<char>> {
    match b {
        Some(v) => Some(v@),
        None => None,
    }
}

impl View for KeyboardInput {
    type V = KeyboardView;

    closed spec fn view(&self) -> KeyboardView {
        KeyboardView {
            style: self.drive_style,
            connected: self.controller_connected,
            release_tracking: self.keyboard_enhancement_enabled,
            chat: spec_opt_chars(self.chat_buffer),
            held: self.held_drive_keys,
            control: self.current_control_state,
            pending: spec_event_views(self.pending_events@),
        }
    }
}

/// A `String` made of `head` followed by `tail`.
fn string_of(head: &str, tail: &[char]) -> (s: String)
    ensures
        s@ == head@ + tail@,
{
    let mut s = String::new();
    push_str(&mut s, head);
    push_chars(&mut s, tail);
    s
}

impl KeyboardInput {
    /// A backend in the default (wasd) style.
    pub fn new() -> (input: Self)
        ensures
            input@ == spec_fresh_keyboard(KeyboardDriveStyle::Wasd),
    {
        Self::with_drive_style(KeyboardDriveStyle::Wasd)
    }

    /// A backend in `drive_style`.
    pub fn with_drive_style(drive_style: KeyboardDriveStyle) -> (input: Self)
        ensures
            input@ == spec_fresh_keyboard(drive_style),
    {
        let input = KeyboardInput {
            drive_style,
            controller_connected: false,
            keyboard_enhancement_enabled: false,
            chat_buffer: None,
            held_drive_keys: HeldDriveKeys::idle(),
            current_control_state: ControlState { drive: None },
            pending_events: Vec::new(),
        };
        assert(input@.pending =~= Seq::<InputEventView>::empty());
        input
    }

    /// The command reference of a drive style.
    pub fn help_text(style: KeyboardDriveStyle) -> (text: &'static str)
        ensures
            text == spec_help_text(style),
    {
        style.help_text()
    }

    /// The command reference of the current style.
    pub fn instructions(&self) -> (text: &'static str)
        ensures
            text == spec_help_text(self@.style),
    {
        self.drive_style.help_text()
    }

    /// The current drive style.
    pub fn drive_style(&self) -> (style: KeyboardDriveStyle)
        ensures
            style == self@.style,
    {
        self.drive_style
    }

    /// Tell the backend whether the terminal reports key releases, so that a
    /// press marks a key down until its release.
    pub fn set_release_tracking(&mut self, enabled: bool)
        ensures
            final(self)@ == (KeyboardView { release_tracking: enabled, ..old(self)@ }),
    {
        self.keyboard_enhancement_enabled = enabled;
    }

    fn enqueue_input_event(&mut self, event: InputEvent)
        ensures
            final(self)@ == spec_enqueue(old(self)@, event@),
    {
        let ghost e = event@;
        self.pending_events.push(event);
        assert(spec_event_views(self.pending_events@) =~= spec_event_views(old(self).pending_events@).push(e));
    }

    fn sync_control_state(&mut self, now: u64)
        ensures
            final(self)@ == spec_sync(old(self)@, now),
    {
        let control_state = self.held_drive_keys.to_control_state(self.drive_style, now);
        if control_state != self.current_control_state {
            self.current_control_state = control_state;
            self.enqueue_input_event(InputEvent::Control(control_state));
        }
    }

    fn toggle_drive_style(&mut self, now: u64)
        ensures
            final(self)@ == spec_toggle_style(old(self)@, now),
    {
        self.drive_style = match self.drive_style {
            KeyboardDriveStyle::Wasd => KeyboardDriveStyle::Tank,
            KeyboardDriveStyle::Tank => KeyboardDriveStyle::Wasd,
        };
        self.held_drive_keys = HeldDriveKeys::idle();
        self.sync_control_state(now);
        let mut message = String::new();
        push_str(&mut message, "keyboard drive style switched to ");
        push_str(&mut message, self.drive_style.as_str());
        self.enqueue_input_event(InputEvent::Warning(InputWarning::Status(message)));
    }

    fn enter_chat_mode(&mut self, now: u64)
        ensures
            final(self)@ == spec_enter_chat(old(self)@, now),
    {
        if self.chat_buffer.is_some() {
            return;
        }
        self.chat_buffer = Some(Vec::new());
        self.held_drive_keys = HeldDriveKeys::idle();
        assert(spec_opt_chars(self.chat_buffer) == Some(Seq::<char>::empty()));
        self.sync_control_state(now);
        self.enqueue_input_event(InputEvent::Prompt(Some(string_of("chat> ", &[]))));
        self.enqueue_input_event(
            InputEvent::Warning(InputWarning::Status(string_of("chat mode active: type a message and press Enter", &[]))),
        );
    }

    fn update_chat_prompt(&mut self)
        ensures
            final(self)@ == spec_enqueue(old(self)@, spec_chat_prompt(old(self)@.chat)),
    {
        let prompt = match &self.chat_buffer {
            Some(b) => Some(string_of("chat> ", b.as_slice())),
            None => None,
        };
        self.enqueue_input_event(InputEvent::Prompt(prompt));
    }

    fn leave_chat_mode(&mut self)
        ensures
            final(self)@ == spec_enqueue(KeyboardView { chat: None, ..old(self)@ }, InputEventView::Prompt(None)),
    {
        self.chat_buffer = None;
        self.enqueue_input_event(InputEvent::Prompt(None));
    }

    fn handle_chat_key_event(&mut self, event: KeyEvent)
        ensures
            final(self)@ == spec_chat_key(old(self)@, event),
    {
        if event.kind == KeyEventKind::Release {
            return;
        }
        match event.code {
            KeyCode::Esc => {
                self.leave_chat_mode();
                self.enqueue_input_event(InputEvent::Warning(InputWarning::Status(string_of("chat mode cancelled", &[]))));
            },
            KeyCode::Enter => {
                let line = match self.chat_buffer.take() {
                    Some(b) => b,
                    None => Vec::new(),
                };
                self.enqueue_input_event(InputEvent::Prompt(None));
                let text = trim_chars(line.as_slice());
                if text.len() == 0 {
                    self.enqueue_input_event(
                        InputEvent::Warning(InputWarning::Status(string_of("chat mode cancelled: prompt was empty", &[]))),
                    );
                } else {
                    self.enqueue_input_event(InputEvent::Command(BrainCommand::Chat(chars_to_string(text.as_slice()))));
                }
            },
            KeyCode::Backspace => {
                let taken = self.chat_buffer.take();
                let updated = match taken {
                    Some(mut b) => {
                        if b.len() > 0 {
                            b.pop();
                        }
                        Some(b)
                    },
                    None => None,
                };
                self.chat_buffer = updated;
                self.update_chat_prompt();
            },
            KeyCode::Char(character) => {
                if !(event.modifiers.control || event.modifiers.alt) {
                    let taken = self.chat_buffer.take();
                    let updated = match taken {
                        Some(mut b) => {
                            b.push(character);
                            Some(b)
                        },
                        None => None,
                    };
                    self.chat_buffer = updated;
                    self.update_chat_prompt();
                }
            },
            _ => {},
        }
    }

    /// The discrete event of a key press, if it has one.
    pub fn key_event_to_discrete_event(style: KeyboardDriveStyle, event: KeyEvent) -> (out: Option<InputEvent>)
        ensures
            match out {
                Some(e) => spec_discrete_event(style, event) == Some(e@),
                None => spec_discrete_event(style, event) is None,
            },
    {
        if event.kind != KeyEventKind::Press {
            return None;
        }
        if event.modifiers.control && (event.code == KeyCode::Char('c') || event.code == KeyCode::Char('C')) {
            return Some(InputEvent::Command(BrainCommand::Quit));
        }
        match event.code {
            KeyCode::Char(raw) => {
                if raw == ' ' {
                    return Some(InputEvent::Command(BrainCommand::Stop));
                }
                let c = to_ascii_lowercase(raw);
                if c == 'h' || c == '?' {
                    return None;
                }
                let drive_key = match style {
                    KeyboardDriveStyle::Wasd => c == 'w' || c == 'a' || c == 's' || c == 'd',
                    KeyboardDriveStyle::Tank => c == 'w' || c == 's' || c == 'a' || c == 'd' || c == 'e',
                };
                if drive_key {
                    return None;
                }
                if c == 'q' {
                    Some(InputEvent::Command(BrainCommand::Quit))
                } else if c == 'p' {
                    Some(InputEvent::Command(BrainCommand::Ping))
                } else if c == 'x' {
                    Some(InputEvent::Command(BrainCommand::Stop))
                } else if c == 't' {
                    Some(InputEvent::Command(BrainCommand::SetMode(Mode::Teleop)))
                } else if c == 'u' {
                    Some(InputEvent::Command(BrainCommand::SetMode(Mode::Autonomous)))
                } else if c == 'f' {
                    Some(InputEvent::Command(BrainCommand::SetMode(Mode::Fault)))
                } else {
                    Some(InputEvent::Warning(InputWarning::UnknownKeyboardCommand(c)))
                }
            },
            _ => None,
        }
    }

    /// Handle one key event at `now`.
    pub fn handle_key_event_at(&mut self, event: KeyEvent, now: u64)
        requires
            spec_clock_fits(now),
        ensures
            final(self)@ == spec_handle_key(old(self)@, event, now),
    {
        if event.modifiers.control && (event.code == KeyCode::Char('c') || event.code == KeyCode::Char('C'))
            && event.kind == KeyEventKind::Press {
            self.enqueue_input_event(InputEvent::Command(BrainCommand::Quit));
            return;
        }
        if self.chat_buffer.is_some() {
            self.handle_chat_key_event(event);
            return;
        }
        if event.kind == KeyEventKind::Press && (event.code == KeyCode::Char(CHAT_MODE_KEY) || event.code
            == KeyCode::Char('C')) && !(event.modifiers.control || event.modifiers.alt) {
            self.enter_chat_mode(now);
            return;
        }
        if event.kind == KeyEventKind::Press && (event.code == KeyCode::Char(TOGGLE_DRIVE_STYLE_KEY)
            || event.code == KeyCode::Char('M')) {
            self.toggle_drive_style(now);
            return;
        }
        let style = self.drive_style;
        if is_drive_key(style, event.code) {
            let control_changed = self.held_drive_keys.apply(
                style,
                event.code,
                event.kind,
                now,
                self.keyboard_enhancement_enabled,
            );
            match drive_key_lease(event.kind) {
                Some(lease) => self.held_drive_keys.refresh_active(now, lease),
                None => {},
            }
            if control_changed {
                self.sync_control_state(now);
            }
        } else {
            self.held_drive_keys.refresh_active(now, INTERLEAVED_KEY_LEASE_MS);
        }
        match Self::key_event_to_discrete_event(style, event) {
            Some(e) => self.enqueue_input_event(e),
            None => {},
        }
    }

    /// Drop the leases that ran out at `now`, reporting the new control when
    /// that released a key.
    pub fn expire_drive_keys_at(&mut self, now: u64)
        ensures
            final(self)@ == spec_expire_keys(old(self)@, now),
    {
        if self.held_drive_keys.expire(now) {
            self.sync_control_state(now);
        }
    }

    /// Renew, until `now + duration`, every drive key that is down or leased,
    /// so that a hold survives a blocking command roundtrip.
    pub fn extend_active_control_at(&mut self, now: u64, duration: u64)
        requires
            now + duration <= u64::MAX,
        ensures
            final(self)@ == (KeyboardView {
                held: spec_held_refresh_tracked(old(self)@.held, now, duration),
                ..old(self)@
            }),
    {
        self.held_drive_keys.refresh_tracked(now, duration);
    }

    /// Time until the first drive key lease runs out.
    pub fn next_drive_key_expiration(&self, now: u64) -> (left: Option<u64>)
        ensures
            left == spec_held_next_expiration(self@.held, now),
    {
        self.held_drive_keys.next_expiration(now)
    }

    /// How long to wait for the next terminal event: `timeout`, or less when
    /// a drive key lease runs out sooner.
    pub fn poll_timeout(&self, timeout: u64, now: u64) -> (wait: u64)
        ensures
            wait == match spec_held_next_expiration(self@.held, now) {
                Some(left) => if left <= timeout { left } else { timeout },
                None => timeout,
            },
    {
        match self.next_drive_key_expiration(now) {
            Some(left) => if left <= timeout {
                left
            } else {
                timeout
            },
            None => timeout,
        }
    }

    /// The terminal lost focus: every drive key is released.
    pub fn focus_lost(&mut self, now: u64)
        ensures
            final(self)@ == spec_sync(KeyboardView { held: spec_held_idle(), ..old(self)@ }, now),
    {
        self.held_drive_keys = HeldDriveKeys::idle();
        self.sync_control_state(now);
    }

    /// Take the oldest waiting event.
    pub fn pop_event(&mut self) -> (event: Option<InputEvent>)
        ensures
            old(self)@.pending.len() == 0 ==> event is None && final(self)@ == old(self)@,
            old(self)@.pending.len() > 0 ==> (event matches Some(e) && e@ == old(self)@.pending[0]),
            old(self)@.pending.len() > 0 ==> final(self)@ == (KeyboardView {
                pending: old(self)@.pending.drop_first(),
                ..old(self)@
            }),
    {
        if self.pending_events.len() == 0 {
            return None;
        }
        let event = self.pending_events.remove(0);
        assert(spec_event_views(self.pending_events@) =~= spec_event_views(old(self).pending_events@).drop_first());
        Some(event)
    }

    /// Take every waiting event, oldest first.
    pub fn take_pending_events(&mut self) -> (events: Vec<InputEvent>)
        ensures
            spec_event_views(events@) == old(self)@.pending,
            final(self)@ == (KeyboardView { pending: Seq::empty(), ..old(self)@ }),
    {
        let mut events: Vec<InputEvent> = Vec::new();
        std::mem::swap(&mut events, &mut self.pending_events);
        assert(spec_event_views(self.pending_events@) =~= Seq::<InputEventView>::empty());
        events
    }

    /// Forget the chat line, the drive keys, the reported control and the
    /// waiting events, as input is paused or resumed.
    pub fn reset_session(&mut self)
        ensures
            final(self)@ == (KeyboardView {
                chat: None,
                held: spec_held_idle(),
                control: ControlState { drive: None },
                pending: Seq::empty(),
                ..old(self)@
            }),
    {
        self.chat_buffer = None;
        self.held_drive_keys = HeldDriveKeys::idle();
        self.current_control_state = ControlState { drive: None };
        self.pending_events = Vec::new();
        assert(spec_event_views(self.pending_events@) =~= Seq::<InputEventView>::empty());
    }


    /// Report the keyboard as connected the first time controllers are
    /// refreshed after a start or a reset.
    pub fn refresh_controllers(&mut self) -> (events: Vec<ControllerLifecycleEvent>)
        ensures
            final(self)@ == (KeyboardView { connected: true, ..old(self)@ }),
            old(self)@.connected ==> events@.len() == 0,
            !old(self)@.connected ==> events@.len() == 1 && (events@[0] matches ControllerLifecycleEvent::Connected(
                info,
            ) && info@.kind == ControllerKind::Keyboard && info@.instance == "local"@ && info@.display_name
                == "Local Keyboard"@),
    {
        if self.controller_connected {
            return Vec::new();
        }
        self.controller_connected = true;
        let mut events = Vec::new();
        events.push(ControllerLifecycleEvent::Connected(Self::controller_info()));
        events
    }

    /// Forget that the keyboard was reported, so that the next refresh
    /// reports it again.
    pub fn mark_disconnected(&mut self)
        ensures
            final(self)@ == (KeyboardView { connected: false, ..old(self)@ }),
    {
        self.controller_connected = false;
    }

    /// Tag a keyboard event for the controller registry; connection events
    /// are not routed.
    pub fn route_event(event: InputEvent) -> (routed: Option<SourcedInputEvent>)
        ensures
            match event {
                InputEvent::Command(c) => routed matches Some(r) && r.event == RoutedInputEvent::Command(c),
                InputEvent::Control(c) => routed matches Some(r) && r.event == RoutedInputEvent::Control(c),
                InputEvent::Warning(w) => routed matches Some(r) && r.event == RoutedInputEvent::Warning(w),
                InputEvent::Prompt(p) => routed matches Some(r) && r.event == RoutedInputEvent::Prompt(p),
                _ => routed is None,
            },
            routed matches Some(r) ==> r.controller.kind == ControllerKind::Keyboard && r.controller.instance@
                == "local"@,
    {
        let routed = match event {
            InputEvent::Command(command) => RoutedInputEvent::Command(command),
            InputEvent::Control(control_state) => RoutedInputEvent::Control(control_state),
            InputEvent::Warning(warning) => RoutedInputEvent::Warning(warning),
            InputEvent::Prompt(prompt) => RoutedInputEvent::Prompt(prompt),
            _ => {
                return None;
            },
        };
        Some(SourcedInputEvent::new(Self::controller_info().id, routed))
    }

    /// The description of the local keyboard controller.
    pub fn controller_info() -> (info: ControllerInfo)
        ensures
            info@.kind == ControllerKind::Keyboard,
            info@.instance == "local"@,
            info@.display_name == "Local Keyboard"@,
    {
        ControllerInfo::new(
            ControllerId::new(ControllerKind::Keyboard, string_of("local", &[])),
            string_of("Local Keyboard", &[]),
        )
    }
}

impl Default for KeyboardInput {
    fn default() -> (input: Self)
        ensures
            input@ == spec_fresh_keyboard(KeyboardDriveStyle::Wasd),
    {
        Self::new()
    }
}


/// With no drive key held, the keys request no drive in either style.
pub proof fn lemma_idle_keys_request_no_drive(style: KeyboardDriveStyle, now: u64)
    ensures
        spec_held_control(spec_held_idle(), style, now).drive is None,
{
}

/// Switching style releases every key, so the control afterwards requests
/// no drive.
pub proof fn lemma_toggle_stops_drive(v: KeyboardView, now: u64)
    ensures
        spec_toggle_style(v, now).held == spec_held_idle(),
        spec_toggle_style(v, now).control.drive is None,
        spec_toggle_style(v, now).style == spec_other_style(v.style),
{
}

/// Every drive request the keys make is within full scale at the keyboard speed.
pub proof fn lemma_held_control_in_range(h: HeldDriveKeys, style: KeyboardDriveStyle, now: u64)
    ensures
        spec_held_control(h, style, now).drive matches Some(d) ==> {
            &&& -AXIS_MAX <= d.forward <= AXIS_MAX
            &&& -AXIS_MAX <= d.turn <= AXIS_MAX
            &&& d.speed == KEYBOARD_DRIVE_SPEED
        },
{
}

/// Drive keys never produce a discrete command.
pub proof fn lemma_drive_keys_are_not_commands(style: KeyboardDriveStyle, e: KeyEvent)
    requires
        spec_slot_of(style, e.code) is Some,
        !e.modifiers.control,
    ensures
        spec_discrete_event(style, e) is None,
{
}

/// A press or repeat of a drive key keeps that key held for the whole lease
/// it grants, even on a terminal that never reports the release.
pub proof fn lemma_drive_key_held_for_lease(h: HeldDriveKeys, style: KeyboardDriveStyle, e: KeyEvent, now: u64, track: bool, t: u64)
    requires
        spec_clock_fits(now),
        spec_slot_of(style, e.code) matches Some(slot) && spec_drive_key_lease(e.kind) matches Some(lease)
            && now <= t < now + lease,
    ensures
        ({
            let held = spec_held_apply(h, style, e.code, e.kind, now, track).0;
            let slot = spec_slot_of(style, e.code)->0;
            let lease = spec_drive_key_lease(e.kind)->0;
            spec_key_active(spec_held_get(spec_held_refresh_active(held, now, lease), slot), t)
        }),
{
}

/// Activity on any drive key keeps every key that was active at `now`
/// active for the lease of that activity, so that a combined direction does
/// not fall apart while the terminal repeats only one of its keys.
pub proof fn lemma_activity_keeps_combined_hold(h: HeldDriveKeys, lease: u64, now: u64, slot: DriveSlot, t: u64)
    requires
        now + lease <= u64::MAX,
        spec_key_active(spec_held_get(h, slot), now),
        now <= t < now + lease,
    ensures
        spec_key_active(spec_held_get(spec_held_refresh_active(h, now, lease), slot), t),
{
}

/// Dropping leases that ran out at `now` changes no key's activity at `now`,
/// so the control the keys make at `now` stays the same.
pub proof fn lemma_expiry_keeps_control_at_now(h: HeldDriveKeys, style: KeyboardDriveStyle, now: u64)
    ensures
        spec_held_control(spec_held_expire(h, now), style, now) == spec_held_control(h, style, now),
{
}

/// After expiring at `now`, no key that is not down keeps a lease that has
/// run out.
pub proof fn lemma_expiry_clears_lapsed(h: HeldDriveKeys, now: u64, slot: DriveSlot)
    ensures
        !spec_key_lapsed(spec_held_get(spec_held_expire(h, now), slot), now),
{
}

/// The drive a lone WASD-style key asks for: full scale at the keyboard
/// speed.
pub open spec fn spec_lone_key_drive(forward: i16, turn: i16) -> ControlState {
    ControlState { drive: Some(DriveIntent { forward, turn, speed: KEYBOARD_DRIVE_SPEED }) }
}

/// In WASD style, with no drive key held, pressing (or auto-repeating) a
/// key drives its way: up, `w` or `W` forward; down, `s` or `S` backward;
/// left, `a` or `A` turns left; right, `d` or `D` turns right, each at full
/// scale and the keyboard speed.
pub proof fn lemma_wasd_keys_drive_their_way(h: HeldDriveKeys, code: KeyCode, kind: KeyEventKind, now: u64, track: bool)
    requires
        spec_clock_fits(now),
        kind != KeyEventKind::Release,
        !spec_key_active(h.forward, now),
        !spec_key_active(h.backward, now),
        !spec_key_active(h.left, now),
        !spec_key_active(h.right, now),
    ensures
        ({
            let control = spec_held_control(
                spec_held_apply(h, KeyboardDriveStyle::Wasd, code, kind, now, track).0,
                KeyboardDriveStyle::Wasd,
                now,
            );
            &&& (code == KeyCode::Up || code == KeyCode::Char('w') || code == KeyCode::Char('W')) ==> control
                == spec_lone_key_drive(1000, 0)
            &&& (code == KeyCode::Down || code == KeyCode::Char('s') || code == KeyCode::Char('S')) ==> control
                == spec_lone_key_drive(-1000i16, 0)
            &&& (code == KeyCode::Left || code == KeyCode::Char('a') || code == KeyCode::Char('A')) ==> control
                == spec_lone_key_drive(0, -1000i16)
            &&& (code == KeyCode::Right || code == KeyCode::Char('d') || code == KeyCode::Char('D')) ==> control
                == spec_lone_key_drive(0, 1000)
        }),
{
}

/// In tank style, with no drive key held, a pressed key drives one track
/// (or pivots) and the drive is the mean of the two tracks forward and half
/// their difference as turn: `w` runs the left track forward (forward 500,
/// turn -500), `s` the left track back, `e` the right track forward, `d`
/// the right track back, and `a` pivots left (left track forward, right
/// track back: turn -1000).
pub proof fn lemma_tank_keys_drive_their_track(h: HeldDriveKeys, c: char, kind: KeyEventKind, now: u64, track: bool)
    requires
        spec_clock_fits(now),
        kind != KeyEventKind::Release,
        !spec_key_active(h.left_track_forward, now),
        !spec_key_active(h.left_track_backward, now),
        !spec_key_active(h.right_track_forward, now),
        !spec_key_active(h.right_track_backward, now),
        !spec_key_active(h.tank_pivot_left, now),
    ensures
        ({
            let control = spec_held_control(
                spec_held_apply(h, KeyboardDriveStyle::Tank, KeyCode::Char(c), kind, now, track).0,
                KeyboardDriveStyle::Tank,
                now,
            );
            &&& (c == 'w' || c == 'W') ==> control == spec_lone_key_drive(500, -500i16)
            &&& (c == 's' || c == 'S') ==> control == spec_lone_key_drive(-500i16, 500)
            &&& (c == 'e' || c == 'E') ==> control == spec_lone_key_drive(500, 500)
            &&& (c == 'd' || c == 'D') ==> control == spec_lone_key_drive(-500i16, -500i16)
            &&& (c == 'a' || c == 'A') ==> control == spec_lone_key_drive(0, -1000i16)
        }),
{
}

/// Keys that drive nothing under a style leave the held drive keys as they
/// were: in WASD style anything but the arrows and `w`, `a`, `s`, `d`; in
/// tank style anything but `w`, `s`, `e`, `d`, `a` (either case).
pub proof fn lemma_other_keys_hold_nothing(
    h: HeldDriveKeys,
    style: KeyboardDriveStyle,
    code: KeyCode,
    kind: KeyEventKind,
    now: u64,
    track: bool,
)
    requires
        !(code is Char) || ({
            let c = code->Char_0;
            !(c == 'w' || c == 'W' || c == 's' || c == 'S' || c == 'd' || c == 'D' || c == 'a' || c == 'A' || c == 'e'
                || c == 'E')
        }),
        style == KeyboardDriveStyle::Wasd ==> !(code is Up || code is Down || code is Left || code is Right),
    ensures
        spec_held_apply(h, style, code, kind, now, track) == (h, false),
{
}

} // verus!
