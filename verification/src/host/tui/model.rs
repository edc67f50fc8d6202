//! Console model: keyboard drive state and input modes.

use vstd::prelude::*;

use crate::host::input::{ControlState, DriveIntent, AXIS_MAX};

verus! {

/// Drive speed of keyboard drive requests.
pub const KEYBOARD_DRIVE_SPEED: u16 = 300;

/// Key layout of console keyboard drive.
#[derive(Clone, Copy, Debug, PartialEq, Eq, Structural)]
pub enum KeyboardDriveStyle {
    /// `w`/`s` drive, `a`/`d` turn.
    Arcade,
    /// `w`/`s` left tread, `e`/`d` right tread.
    Tank,
}

/// Display label of a drive style.
pub open spec fn spec_drive_style_label(style: KeyboardDriveStyle) -> &'static str {
    match style {
        KeyboardDriveStyle::Arcade => "w,a,s,d",
        KeyboardDriveStyle::Tank => "tank",
    }
}

/// The other drive style.
pub open spec fn spec_toggled_style(style: KeyboardDriveStyle) -> KeyboardDriveStyle {
    match style {
        KeyboardDriveStyle::Arcade => KeyboardDriveStyle::Tank,
        KeyboardDriveStyle::Tank => KeyboardDriveStyle::Arcade,
    }
}

impl KeyboardDriveStyle {
    /// The display label of this style.
    pub fn as_str(self) -> (label: &'static str)
        ensures
            label == spec_drive_style_label(self),
    {
        match self {
            KeyboardDriveStyle::Arcade => "w,a,s,d",
            KeyboardDriveStyle::Tank => "tank",
        }
    }

    /// The other style.
    pub fn toggled(self) -> (other: Self)
        ensures
            other == spec_toggled_style(self),
    {
        match self {
            KeyboardDriveStyle::Arcade => KeyboardDriveStyle::Tank,
            KeyboardDriveStyle::Tank => KeyboardDriveStyle::Arcade,
        }
    }
}

/// Held-key state of console keyboard drive.
#[derive(Clone, Copy, Debug, PartialEq, Eq, Structural)]
pub struct KeyboardDriveState {
    pub style: KeyboardDriveStyle,
    pub forward_axis: i8,
    pub turn_axis: i8,
    pub left_track: i8,
    pub right_track: i8,
    pub w_down: bool,
    pub a_down: bool,
    pub s_down: bool,
    pub d_down: bool,
    pub e_down: bool,
    pub space_down: bool,
}

/// Direction of a pair of opposing keys: `1`, `-1`, or `0` when both or neither are held.
pub open spec fn spec_axis_from_pair(positive: bool, negative: bool) -> i8 {
    if positive == negative {
        0
    } else if positive {
        1i8
    } else {
        -1i8
    }
}

/// The drive axis value of a key direction.
pub open spec fn spec_axis_to_intent(value: i8) -> i16 {
    if value == -1 {
        -1000i16
    } else if value == 1 {
        AXIS_MAX
    } else {
        0
    }
}

/// Return the drive axis value of key direction `value`.
pub fn axis_to_intent(value: i8) -> (axis: i16)
    ensures
        axis == spec_axis_to_intent(value),
{
    if value == -1 {
        -AXIS_MAX
    } else if value == 1 {
        AXIS_MAX
    } else {
        0
    }
}

/// Return the direction of a pair of opposing keys.
pub fn axis_from_pair(positive: bool, negative: bool) -> (axis: i8)
    ensures
        axis == spec_axis_from_pair(positive, negative),
{
    if positive == negative {
        0
    } else if positive {
        1
    } else {
        -1
    }
}

/// The drive request of forward and turn axes: none when both are zero.
pub open spec fn spec_control_from_axes(forward: i16, turn: i16) -> ControlState {
    if forward == 0 && turn == 0 {
        ControlState { drive: None }
    } else {
        ControlState { drive: Some(DriveIntent { forward, turn, speed: KEYBOARD_DRIVE_SPEED }) }
    }
}

/// The drive request of a keyboard drive state.
pub open spec fn spec_keyboard_control(state: KeyboardDriveState) -> ControlState {
    match state.style {
        KeyboardDriveStyle::Arcade => spec_control_from_axes(
            spec_axis_to_intent(state.forward_axis),
            spec_axis_to_intent(state.turn_axis),
        ),
        KeyboardDriveStyle::Tank => {
            let left = spec_axis_to_intent(state.left_track) as int;
            let right = spec_axis_to_intent(state.right_track) as int;
            spec_control_from_axes(((left + right) / 2) as i16, ((right - left) / 2) as i16)
        },
    }
}

/// Whether `key` takes part in `style`.
pub open spec fn spec_is_style_key(style: KeyboardDriveStyle, key: char) -> bool {
    match style {
        KeyboardDriveStyle::Arcade => key == 'w' || key == 'a' || key == 's' || key == 'd' || key == ' ',
        KeyboardDriveStyle::Tank => key == 'w' || key == 's' || key == 'e' || key == 'd' || key == ' ',
    }
}

/// The held-key flags after `key` goes down or up.
pub open spec fn spec_set_key(state: KeyboardDriveState, key: char, is_down: bool) -> KeyboardDriveState {
    if key == 'w' {
        KeyboardDriveState { w_down: is_down, ..state }
    } else if key == 'a' {
        KeyboardDriveState { a_down: is_down, ..state }
    } else if key == 's' {
        KeyboardDriveState { s_down: is_down, ..state }
    } else if key == 'd' {
        KeyboardDriveState { d_down: is_down, ..state }
    } else if key == 'e' {
        KeyboardDriveState { e_down: is_down, ..state }
    } else if key == ' ' {
        KeyboardDriveState { space_down: is_down, ..state }
    } else {
        state
    }
}

/// The axes derived from the held keys of `state` under its style; space
/// (held) forces everything to zero.
pub open spec fn spec_derive_axes(state: KeyboardDriveState) -> KeyboardDriveState {
    match state.style {
        KeyboardDriveStyle::Arcade => KeyboardDriveState {
            forward_axis: if state.space_down { 0 } else { spec_axis_from_pair(state.w_down, state.s_down) },
            turn_axis: if state.space_down { 0 } else { spec_axis_from_pair(state.d_down, state.a_down) },
            left_track: 0,
            right_track: 0,
            ..state
        },
        KeyboardDriveStyle::Tank => KeyboardDriveState {
            forward_axis: 0,
            turn_axis: 0,
            left_track: if state.space_down { 0 } else { spec_axis_from_pair(state.w_down, state.s_down) },
            right_track: if state.space_down { 0 } else { spec_axis_from_pair(state.e_down, state.d_down) },
            ..state
        },
    }
}

/// The four axis values of a state.
pub open spec fn spec_axes(state: KeyboardDriveState) -> (i8, i8, i8, i8) {
    (state.forward_axis, state.turn_axis, state.left_track, state.right_track)
}

/// The state after `key` goes down (`is_down`) or up: keys outside the style
/// are ignored; others update the held flags and re-derive the axes.
pub open spec fn spec_apply_key(state: KeyboardDriveState, key: char, is_down: bool) -> KeyboardDriveState {
    if spec_is_style_key(state.style, key) {
        spec_derive_axes(spec_set_key(state, key, is_down))
    } else {
        state
    }
}

/// No keys held and every axis at rest.
pub open spec fn spec_at_rest(state: KeyboardDriveState) -> bool {
    &&& state.forward_axis == 0
    &&& state.turn_axis == 0
    &&& state.left_track == 0
    &&& state.right_track == 0
    &&& !state.w_down
    &&& !state.a_down
    &&& !state.s_down
    &&& !state.d_down
    &&& !state.e_down
    &&& !state.space_down
}

impl KeyboardDriveState {
    /// Arcade style with nothing held.
    pub fn new() -> (state: Self)
        ensures
            state.style == KeyboardDriveStyle::Arcade,
            spec_at_rest(state),
    {
        Self::with_style(KeyboardDriveStyle::Arcade)
    }

    /// `style` with nothing held.
    pub fn with_style(style: KeyboardDriveStyle) -> (state: Self)
        ensures
            state.style == style,
            spec_at_rest(state),
    {
        KeyboardDriveState {
            style,
            forward_axis: 0,
            turn_axis: 0,
            left_track: 0,
            right_track: 0,
            w_down: false,
            a_down: false,
            s_down: false,
            d_down: false,
            e_down: false,
            space_down: false,
        }
    }

    /// A key went down; returns whether the drive axes changed.
    pub fn apply_key_down(&mut self, key: char) -> (changed: bool)
        ensures
            *final(self) == spec_apply_key(*old(self), key, true),
            changed == (spec_is_style_key(old(self).style, key) && spec_axes(*final(self)) != spec_axes(
                *old(self),
            )),
    {
        self.apply_key_state(key, true)
    }

    /// A key went up; returns whether the drive axes changed.
    pub fn apply_key_up(&mut self, key: char) -> (changed: bool)
        ensures
            *final(self) == spec_apply_key(*old(self), key, false),
            changed == (spec_is_style_key(old(self).style, key) && spec_axes(*final(self)) != spec_axes(
                *old(self),
            )),
    {
        self.apply_key_state(key, false)
    }

    fn apply_key_state(&mut self, key: char, is_down: bool) -> (changed: bool)
        ensures
            *final(self) == spec_apply_key(*old(self), key, is_down),
            changed == (spec_is_style_key(old(self).style, key) && spec_axes(*final(self)) != spec_axes(
                *old(self),
            )),
    {
        match self.style {
            KeyboardDriveStyle::Arcade => self.apply_arcade_key_state(key, is_down),
            KeyboardDriveStyle::Tank => self.apply_tank_key_state(key, is_down),
        }
    }

    /// Switch style and release every key.
    pub fn toggle_style(&mut self)
        ensures
            final(self).style == spec_toggled_style(old(self).style),
            spec_at_rest(*final(self)),
    {
        self.style = self.style.toggled();
        self.reset_motion();
    }

    /// Release every key and zero every axis.
    pub fn reset_motion(&mut self)
        ensures
            final(self).style == old(self).style,
            spec_at_rest(*final(self)),
    {
        self.forward_axis = 0;
        self.turn_axis = 0;
        self.left_track = 0;
        self.right_track = 0;
        self.w_down = false;
        self.a_down = false;
        self.s_down = false;
        self.d_down = false;
        self.e_down = false;
        self.space_down = false;
    }

    /// The drive request the held keys make.
    pub fn control_state(self) -> (control: ControlState)
        ensures
            control == spec_keyboard_control(self),
    {
        let (forward, turn) = match self.style {
            KeyboardDriveStyle::Arcade => (axis_to_intent(self.forward_axis), axis_to_intent(self.turn_axis)),
            KeyboardDriveStyle::Tank => {
                let left = axis_to_intent(self.left_track) as i32;
                let right = axis_to_intent(self.right_track) as i32;
                (((left + right) / 2) as i16, ((right - left) / 2) as i16)
            },
        };

        let drive = if forward == 0 && turn == 0 {
            None
        } else {
            Some(DriveIntent { forward, turn, speed: KEYBOARD_DRIVE_SPEED })
        };

        ControlState { drive }
    }

    fn apply_arcade_key_state(&mut self, key: char, is_down: bool) -> (changed: bool)
        requires
            old(self).style == KeyboardDriveStyle::Arcade,
        ensures
            *final(self) == spec_apply_key(*old(self), key, is_down),
            changed == (spec_is_style_key(old(self).style, key) && spec_axes(*final(self)) != spec_axes(
                *old(self),
            )),
    {
        if key == 'w' {
            self.w_down = is_down;
        } else if key == 'a' {
            self.a_down = is_down;
        } else if key == 's' {
            self.s_down = is_down;
        } else if key == 'd' {
            self.d_down = is_down;
        } else if key == ' ' {
            self.space_down = is_down;
        } else {
            return false;
        }

        let previous = (self.forward_axis, self.turn_axis, self.left_track, self.right_track);

        if self.space_down {
            self.forward_axis = 0;
            self.turn_axis = 0;
        } else {
            self.forward_axis = axis_from_pair(self.w_down, self.s_down);
            self.turn_axis = axis_from_pair(self.d_down, self.a_down);
        }
        self.left_track = 0;
        self.right_track = 0;

        previous.0 != self.forward_axis || previous.1 != self.turn_axis || previous.2 != self.left_track
            || previous.3 != self.right_track
    }

    fn apply_tank_key_state(&mut self, key: char, is_down: bool) -> (changed: bool)
        requires
            old(self).style == KeyboardDriveStyle::Tank,
        ensures
            *final(self) == spec_apply_key(*old(self), key, is_down),
            changed == (spec_is_style_key(old(self).style, key) && spec_axes(*final(self)) != spec_axes(
                *old(self),
            )),
    {
        if key == 'w' {
            self.w_down = is_down;
        } else if key == 's' {
            self.s_down = is_down;
        } else if key == 'e' {
            self.e_down = is_down;
        } else if key == 'd' {
            self.d_down = is_down;
        } else if key == ' ' {
            self.space_down = is_down;
        } else {
            return false;
        }

        let previous = (self.forward_axis, self.turn_axis, self.left_track, self.right_track);

        let (left_track, right_track) = if self.space_down {
            (0i8, 0i8)
        } else {
            (axis_from_pair(self.w_down, self.s_down), axis_from_pair(self.e_down, self.d_down))
        };

        self.forward_axis = 0;
        self.turn_axis = 0;
        self.left_track = left_track;
        self.right_track = right_track;

        previous.0 != self.forward_axis || previous.1 != self.turn_axis || previous.2 != self.left_track
            || previous.3 != self.right_track
    }
}

impl Default for KeyboardDriveState {
    fn default() -> (state: Self)
        ensures
            state.style == KeyboardDriveStyle::Arcade,
            spec_at_rest(state),
    {
        Self::new()
    }
}

/// What console key presses currently do.
#[derive(Clone, Copy, Debug, PartialEq, Eq, Structural)]
pub enum InputMode {
    /// Keys edit the command line.
    Command,
    /// Keys drive the robot.
    KeyboardDrive(KeyboardDriveState),
}

impl InputMode {
    /// The keyboard drive state, when keys drive the robot.
    pub fn keyboard_drive(self) -> (state: Option<KeyboardDriveState>)
        ensures
            self matches InputMode::KeyboardDrive(s) ==> state == Some(s),
            self is Command ==> state is None,
    {
        match self {
            InputMode::KeyboardDrive(state) => Some(state),
            InputMode::Command => None,
        }
    }
}

impl Default for InputMode {
    fn default() -> (mode: Self)
        ensures
            mode is Command,
    {
        InputMode::Command
    }
}

/// Swapping the two keys of a pair negates the direction.
pub proof fn lemma_axis_pair_antisymmetric(positive: bool, negative: bool)
    ensures
        spec_axis_from_pair(positive, negative) == -spec_axis_from_pair(negative, positive),
{
}

/// Every state reachable by key events keeps its axes in `-1..=1`, one
/// step of full scale either way.
pub proof fn lemma_key_events_keep_axes_in_range(state: KeyboardDriveState, key: char, is_down: bool)
    requires
        -1 <= state.forward_axis <= 1,
        -1 <= state.turn_axis <= 1,
        -1 <= state.left_track <= 1,
        -1 <= state.right_track <= 1,
    ensures
        ({
            let next = spec_apply_key(state, key, is_down);
            &&& -1 <= next.forward_axis <= 1
            &&& -1 <= next.turn_axis <= 1
            &&& -1 <= next.left_track <= 1
            &&& -1 <= next.right_track <= 1
            &&& spec_keyboard_control(next).drive matches Some(d) ==> -AXIS_MAX <= d.forward <= AXIS_MAX
                && -AXIS_MAX <= d.turn <= AXIS_MAX
        }),
{
}

/// A state at rest requests no drive.
pub proof fn lemma_rest_is_stopped(state: KeyboardDriveState)
    requires
        spec_at_rest(state),
    ensures
        spec_keyboard_control(state).drive is None,
{
}

/// Pressing a drive key that was up and releasing it again restores the axes.
pub proof fn lemma_press_release_restores(state: KeyboardDriveState, key: char)
    requires
        state == spec_derive_axes(state),
        spec_set_key(state, key, false) == state,
    ensures
        spec_apply_key(spec_apply_key(state, key, true), key, false) == state,
{
}

} // verus!
