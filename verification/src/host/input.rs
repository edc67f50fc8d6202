//! Operator input vocabulary shared by every controller backend.

use vstd::prelude::*;

use crate::host::brain::{BrainCommand, BrainCommandView};
use crate::text::{chars_eq, chars_to_string, push_str, lemma_char_pos, lemma_char_pos_bounds, spec_char_pos, str_to_chars};

verus! {

/// Normalized drive request: forward and turn axes plus a speed.
#[derive(Clone, Copy, Debug, PartialEq, Eq, Structural)]
pub struct DriveIntent {
    pub forward: i16,
    pub turn: i16,
    pub speed: u16,
}

/// Full-scale magnitude of a drive axis.
pub const AXIS_MAX: i16 = 1_000;

impl DriveIntent {
    /// Full-scale magnitude of a drive axis.
    pub const AXIS_MAX: i16 = 1_000;
}

/// Continuous operator control: an optional drive request.
#[derive(Clone, Copy, Debug, PartialEq, Eq, Structural)]
pub struct ControlState {
    pub drive: Option<DriveIntent>,
}

impl ControlState {
    /// No drive request.
    pub fn idle() -> (state: Self)
        ensures
            state.drive is None,
    {
        ControlState { drive: None }
    }
}

impl Default for ControlState {
    fn default() -> (state: Self)
        ensures
            state.drive is None,
    {
        Self::idle()
    }
}

/// Where operator input comes from.
#[derive(Clone, Copy, Debug, PartialEq, Eq, Structural)]
pub enum InputBackendKind {
    /// The local console, with any external controllers beside it.
    Tui,
}

impl Default for InputBackendKind {
    fn default() -> (kind: Self)
        ensures
            kind == InputBackendKind::Tui,
    {
        InputBackendKind::Tui
    }
}

/// Families of controllers that can drive the robot.
#[derive(Clone, Copy, Debug, PartialEq, Eq, PartialOrd, Ord, Hash, Structural)]
pub enum ControllerKind {
    Keyboard,
    GamepadUsb,
    GamepadBluetooth,
    Websocket,
}

/// Wire label of a controller kind.
pub open spec fn spec_controller_kind_label(kind: ControllerKind) -> &'static str {
    match kind {
        ControllerKind::Keyboard => "keyboard",
        ControllerKind::GamepadUsb => "gamepad-usb",
        ControllerKind::GamepadBluetooth => "gamepad-bluetooth",
        ControllerKind::Websocket => "websocket",
    }
}

/// Why a controller label could not be parsed.
#[derive(Clone, Copy, Debug, PartialEq, Eq, Structural)]
pub enum ControllerParseError {
    /// The kind part names no known controller kind.
    UnknownKind,
    /// The id has no `:` separating kind and instance.
    MissingSeparator,
    /// The instance part is empty.
    EmptyInstance,
}

impl ControllerKind {
    /// The wire label of this kind.
    pub fn as_str(self) -> (label: &'static str)
        ensures
            label == spec_controller_kind_label(self),
    {
        match self {
            ControllerKind::Keyboard => "keyboard",
            ControllerKind::GamepadUsb => "gamepad-usb",
            ControllerKind::GamepadBluetooth => "gamepad-bluetooth",
            ControllerKind::Websocket => "websocket",
        }
    }

    /// Parse a wire label back into a kind.
    pub fn parse(value: &str) -> (kind: Result<Self, ControllerParseError>)
        ensures
            kind matches Ok(k) ==> spec_controller_kind_label(k)@ == value@,
            kind is Err ==> kind == Err::<Self, ControllerParseError>(ControllerParseError::UnknownKind)
                && forall|k: ControllerKind| spec_controller_kind_label(k)@ != value@,
    {
        let chars = str_to_chars(value);
        Self::parse_chars(chars.as_slice())
    }

    /// Parse a wire label, given as characters, back into a kind.
    pub fn parse_chars(value: &[char]) -> (kind: Result<Self, ControllerParseError>)
        ensures
            kind matches Ok(k) ==> spec_controller_kind_label(k)@ == value@,
            kind is Err ==> kind == Err::<Self, ControllerParseError>(ControllerParseError::UnknownKind)
                && forall|k: ControllerKind| spec_controller_kind_label(k)@ != value@,
    {
        let candidates = [
            ControllerKind::Keyboard,
            ControllerKind::GamepadUsb,
            ControllerKind::GamepadBluetooth,
            ControllerKind::Websocket,
        ];
        let mut i: usize = 0;
        while i < 4
            invariant
                candidates@ == seq![
                    ControllerKind::Keyboard,
                    ControllerKind::GamepadUsb,
                    ControllerKind::GamepadBluetooth,
                    ControllerKind::Websocket,
                ],
                i <= 4,
                forall|j: int| 0 <= j < i ==> spec_controller_kind_label(candidates@[j])@ != value@,
            decreases 4 - i,
        {
            let candidate = candidates[i];
            let label = str_to_chars(candidate.as_str());
            if chars_eq(label.as_slice(), value) {
                return Ok(candidate);
            }
            i += 1;
        }
        assert forall|k: ControllerKind| spec_controller_kind_label(k)@ != value@ by {
            match k {
                ControllerKind::Keyboard => assert(candidates@[0] == k),
                ControllerKind::GamepadUsb => assert(candidates@[1] == k),
                ControllerKind::GamepadBluetooth => assert(candidates@[2] == k),
                ControllerKind::Websocket => assert(candidates@[3] == k),
            }
        }
        Err(ControllerParseError::UnknownKind)
    }
}

/// The kind a wire label names, if any.
pub open spec fn spec_kind_named(label: Seq<char>) -> Option<ControllerKind> {
    if label == "keyboard"@ {
        Some(ControllerKind::Keyboard)
    } else if label == "gamepad-usb"@ {
        Some(ControllerKind::GamepadUsb)
    } else if label == "gamepad-bluetooth"@ {
        Some(ControllerKind::GamepadBluetooth)
    } else if label == "websocket"@ {
        Some(ControllerKind::Websocket)
    } else {
        None
    }
}

/// A label that names `kind` is read back as `kind`.
proof fn lemma_kind_named(kind: ControllerKind, label: Seq<char>)
    requires
        spec_controller_kind_label(kind)@ == label,
    ensures
        spec_kind_named(label) == Some(kind),
{
    reveal_strlit("keyboard");
    reveal_strlit("gamepad-usb");
    reveal_strlit("gamepad-bluetooth");
    reveal_strlit("websocket");
    assert("keyboard"@.len() == 8);
    assert("gamepad-usb"@.len() == 11);
    assert("gamepad-bluetooth"@.len() == 17);
    assert("websocket"@.len() == 9);
}

/// What a `kind:instance` id names: a missing `:` or an empty instance is
/// refused before the kind is looked at.
pub open spec fn spec_parse_controller_id(s: Seq<char>) -> Result<(ControllerKind, Seq<char>), ControllerParseError> {
    let p = spec_char_pos(s, ':');
    if p >= s.len() {
        Err(ControllerParseError::MissingSeparator)
    } else if p + 1 == s.len() {
        Err(ControllerParseError::EmptyInstance)
    } else {
        match spec_kind_named(s.take(p)) {
            Some(kind) => Ok((kind, s.skip(p + 1))),
            None => Err(ControllerParseError::UnknownKind),
        }
    }
}

/// An id written as text: its kind's label, `:`, its instance.
pub open spec fn spec_id_text(kind: ControllerKind, instance: Seq<char>) -> Seq<char> {
    spec_controller_kind_label(kind)@ + ":"@ + instance
}

/// Reading back the text of an id gives the id, whenever its instance is
/// not empty.
pub proof fn lemma_id_text_roundtrip(kind: ControllerKind, instance: Seq<char>)
    requires
        instance.len() > 0,
    ensures
        spec_parse_controller_id(spec_id_text(kind, instance)) == Ok::<(ControllerKind, Seq<char>), ControllerParseError>((kind, instance)),
{
    let label = spec_controller_kind_label(kind)@;
    let s = spec_id_text(kind, instance);
    reveal_strlit(":");
    reveal_strlit("keyboard");
    reveal_strlit("gamepad-usb");
    reveal_strlit("gamepad-bluetooth");
    reveal_strlit("websocket");
    assert forall|k: int| 0 <= k < label.len() implies s[k] != ':' by {
        assert(s[k] == label[k]);
    }
    assert(s[label.len() as int] == ':');
    lemma_char_pos(s, ':', label.len() as int);
    assert(s.take(label.len() as int) =~= label);
    assert(s.skip(label.len() as int + 1) =~= instance);
    lemma_kind_named(kind, label);
}

/// The text before and after the first `:`, if there is one.
fn split_at_first_colon(chars: &[char]) -> (parts: Option<(Vec<char>, Vec<char>)>)
    ensures
        0 <= spec_char_pos(chars@, ':') <= chars@.len(),
        match parts {
            None => spec_char_pos(chars@, ':') == chars@.len(),
            Some((head, tail)) => spec_char_pos(chars@, ':') < chars@.len()
                && head@ == chars@.take(spec_char_pos(chars@, ':'))
                && tail@ == chars@.skip(spec_char_pos(chars@, ':') + 1),
        },
{
    proof {
        lemma_char_pos_bounds(chars@, ':');
    }
    let mut head: Vec<char> = Vec::new();
    let mut i: usize = 0;
    while i < chars.len()
        invariant
            i <= chars@.len(),
            head@ == chars@.take(i as int),
            forall|k: int| 0 <= k < i ==> chars@[k] != ':',
        decreases chars@.len() - i,
    {
        if chars[i] == ':' {
            proof {
                lemma_char_pos(chars@, ':', i as int);
            }
            let mut tail: Vec<char> = Vec::new();
            let mut j: usize = i + 1;
            while j < chars.len()
                invariant
                    i < j <= chars@.len(),
                    tail@ == chars@.subrange(i + 1, j as int),
                decreases chars@.len() - j,
            {
                tail.push(chars[j]);
                assert(chars@.subrange(i + 1, j + 1) =~= chars@.subrange(i + 1, j as int).push(chars@[j as int]));
                j += 1;
            }
            assert(tail@ =~= chars@.skip(i + 1));
            return Some((head, tail));
        }
        head.push(chars[i]);
        assert(chars@.take(i + 1) =~= chars@.take(i as int).push(chars@[i as int]));
        i += 1;
    }
    proof {
        lemma_char_pos(chars@, ':', chars@.len() as int);
    }
    None
}

/// Identity of one connected controller: its kind and an instance name.
#[derive(Clone, Debug, PartialEq, Eq, PartialOrd, Ord, Hash)]
pub struct ControllerId {
    pub kind: ControllerKind,
    pub instance: String,
}

impl ControllerId {
    /// Build an id.
    pub fn new(kind: ControllerKind, instance: String) -> (id: Self)
        ensures
            id.kind == kind,
            id.instance@ == instance@,
    {
        ControllerId { kind, instance }
    }

    /// Whether two ids name the same controller.
    pub open spec fn same_as(self, other: ControllerId) -> bool {
        self.kind == other.kind && self.instance@ == other.instance@
    }

    /// Whether `self` and `other` name the same controller.
    pub fn matches(&self, other: &ControllerId) -> (same: bool)
        ensures
            same == self.same_as(*other),
    {
        if self.kind != other.kind {
            return false;
        }
        let a = str_to_chars(self.instance.as_str());
        let b = str_to_chars(other.instance.as_str());
        chars_eq(a.as_slice(), b.as_slice())
    }

    /// Parse a `kind:instance` id: the kind is the text before the first
    /// `:`, the instance everything after it.
    pub fn parse(value: &str) -> (result: Result<Self, ControllerParseError>)
        ensures
            match result {
                Ok(id) => spec_parse_controller_id(value@) == Ok::<(ControllerKind, Seq<char>), ControllerParseError>((id.kind, id.instance@)),
                Err(e) => spec_parse_controller_id(value@) == Err::<(ControllerKind, Seq<char>), ControllerParseError>(e),
            },
    {
        let chars = str_to_chars(value);
        let (head, tail) = match split_at_first_colon(chars.as_slice()) {
            Some(parts) => parts,
            None => return Err(ControllerParseError::MissingSeparator),
        };
        if tail.len() == 0 {
            return Err(ControllerParseError::EmptyInstance);
        }
        match ControllerKind::parse_chars(head.as_slice()) {
            Ok(kind) => {
                proof {
                    lemma_kind_named(kind, head@);
                }
                Ok(ControllerId { kind, instance: chars_to_string(tail.as_slice()) })
            },
            Err(e) => {
                assert(spec_kind_named(head@) is None) by {
                    assert(spec_controller_kind_label(ControllerKind::Keyboard)@ != head@);
                    assert(spec_controller_kind_label(ControllerKind::GamepadUsb)@ != head@);
                    assert(spec_controller_kind_label(ControllerKind::GamepadBluetooth)@ != head@);
                    assert(spec_controller_kind_label(ControllerKind::Websocket)@ != head@);
                }
                Err(e)
            },
        }
    }

    /// The id as text: `kind:instance`.
    pub fn to_text(&self) -> (text: String)
        ensures
            text@ == spec_id_text(self.kind, self.instance@),
    {
        let mut text = String::new();
        push_str(&mut text, self.kind.as_str());
        push_str(&mut text, ":");
        push_str(&mut text, self.instance.as_str());
        text
    }

    /// A copy of this id.
    pub fn duplicate(&self) -> (id: Self)
        ensures
            id.same_as(*self),
    {
        ControllerId { kind: self.kind, instance: self.instance.clone() }
    }
}

/// A connected controller and its human-readable name.
#[derive(Clone, Debug, PartialEq, Eq)]
pub struct ControllerInfo {
    pub id: ControllerId,
    pub display_name: String,
}

impl ControllerInfo {
    /// Build the description of a controller.
    pub fn new(id: ControllerId, display_name: String) -> (info: Self)
        ensures
            info.id == id,
            info.display_name@ == display_name@,
    {
        ControllerInfo { id, display_name }
    }

    /// A copy of this description.
    pub fn duplicate(&self) -> (info: Self)
        ensures
            info.id.same_as(self.id),
            info.display_name@ == self.display_name@,
    {
        ControllerInfo { id: self.id.duplicate(), display_name: self.display_name.clone() }
    }
}

} // verus!

verus! {

/// A controller description with its text taken as characters.
pub struct ControllerInfoView {
    pub kind: ControllerKind,
    pub instance: Seq<char>,
    pub display_name: Seq<char>,
}

impl View for ControllerInfo {
    type V = ControllerInfoView;

    open spec fn view(&self) -> ControllerInfoView {
        ControllerInfoView {
            kind: self.id.kind,
            instance: self.id.instance@,
            display_name: self.display_name@,
        }
    }
}

/// Non-fatal notices raised by an input backend.
#[derive(Clone, Debug, PartialEq, Eq)]
pub enum InputWarning {
    UnknownKeyboardCommand(char),
    Status(String),
}

/// An input warning with its text taken as characters.
pub enum InputWarningView {
    UnknownKeyboardCommand(char),
    Status(Seq<char>),
}

impl View for InputWarning {
    type V = InputWarningView;

    open spec fn view(&self) -> InputWarningView {
        match self {
            InputWarning::UnknownKeyboardCommand(c) => InputWarningView::UnknownKeyboardCommand(*c),
            InputWarning::Status(text) => InputWarningView::Status(text@),
        }
    }
}

/// The characters of an optional string.
pub open spec fn spec_opt_text(text: Option<String>) -> Option<Seq<char>> {
    match text {
        Some(t) => Some(t@),
        None => None,
    }
}

/// Everything an input backend can report.
#[derive(Clone, Debug, PartialEq, Eq)]
pub enum InputEvent {
    Command(BrainCommand),
    Control(ControlState),
    Warning(InputWarning),
    Prompt(Option<String>),
    ControllerConnected(ControllerInfo),
    ControllerDisconnected(ControllerInfo),
}

/// An input event with its text taken as characters.
pub enum InputEventView {
    Command(BrainCommandView),
    Control(ControlState),
    Warning(InputWarningView),
    Prompt(Option<Seq<char>>),
    ControllerConnected(ControllerInfoView),
    ControllerDisconnected(ControllerInfoView),
}

impl View for InputEvent {
    type V = InputEventView;

    open spec fn view(&self) -> InputEventView {
        match self {
            InputEvent::Command(command) => InputEventView::Command(command@),
            InputEvent::Control(state) => InputEventView::Control(*state),
            InputEvent::Warning(warning) => InputEventView::Warning(warning@),
            InputEvent::Prompt(prompt) => InputEventView::Prompt(spec_opt_text(*prompt)),
            InputEvent::ControllerConnected(info) => InputEventView::ControllerConnected(info@),
            InputEvent::ControllerDisconnected(info) => InputEventView::ControllerDisconnected(info@),
        }
    }
}

/// The views of a sequence of input events.
pub open spec fn spec_event_views(events: Seq<InputEvent>) -> Seq<InputEventView> {
    events.map_values(|e: InputEvent| e@)
}

} // verus!
