//! Gamepad identification and command mapping.
//!
//! A gamepad reached through the gamepad library does not say whether it is
//! attached by USB or Bluetooth; the HID device list does. A gamepad is
//! matched against the HID devices by vendor, product and name, and the bus
//! of the best match decides; when no bus wins, the power report does.

use vstd::prelude::*;

use crate::host::brain::BrainCommand;
use crate::host::input::{ControlState, ControllerId, DriveIntent, ControllerInfo, ControllerKind, InputWarning};
use crate::host::registry::{ControllerLifecycleEvent, RoutedInputEvent, SourcedInputEvent};
use crate::text::{chars_contains, decimal_digits, normalize_label, push_chars, push_str, spec_contains, spec_decimal, spec_normalize_label, str_to_chars};
use crate::units::Mode;

verus! {

/// Bus a HID device is attached by.
#[derive(Clone, Copy, Debug, PartialEq, Eq, Structural)]
pub enum BusKind {
    Usb,
    Bluetooth,
    Other,
}

/// Power report of a gamepad; the numbers are battery percentages.
#[derive(Clone, Copy, Debug, PartialEq, Eq, Structural)]
pub enum PowerKind {
    Unknown,
    Wired,
    Discharging(u8),
    Charging(u8),
    Charged,
}

/// One HID device as listed by the system.
#[derive(Clone, Debug)]
pub struct HidDeviceSnapshot {
    pub vendor_id: u16,
    pub product_id: u16,
    pub product_name: Option<String>,
    pub bus_type: BusKind,
}

/// One gamepad as the gamepad library describes it.
#[derive(Clone, Debug)]
pub struct GamepadDescriptor {
    pub id: usize,
    pub vendor_id: Option<u16>,
    pub product_id: Option<u16>,
    pub name: String,
    pub os_name: String,
    pub power_info: PowerKind,
}

/// Drive speed of gamepad control.
pub const GAMEPAD_DRIVE_SPEED: u16 = 300;

/// Half of `x`, rounded toward zero.
pub open spec fn spec_half_toward_zero(x: int) -> int {
    if x >= 0 { x / 2 } else { -((-x) / 2) }
}

/// The control a pair of normalized drive axes makes: none when both are
/// centered, else a drive at the gamepad speed.
pub open spec fn spec_axes_control(forward: i16, turn: i16) -> ControlState {
    if forward == 0 && turn == 0 {
        ControlState { drive: None }
    } else {
        ControlState { drive: Some(DriveIntent { forward, turn, speed: GAMEPAD_DRIVE_SPEED }) }
    }
}

/// The control made by normalized `forward` and `turn` axes.
pub fn axes_control(forward: i16, turn: i16) -> (control: ControlState)
    ensures
        control == spec_axes_control(forward, turn),
{
    if forward == 0 && turn == 0 {
        ControlState { drive: None }
    } else {
        ControlState { drive: Some(DriveIntent { forward, turn, speed: GAMEPAD_DRIVE_SPEED }) }
    }
}

/// Tank style: the forward and turn axes of two normalized tread axes, the
/// forward axis their mean and the turn axis half their difference (right
/// minus left), each rounded toward zero.
pub fn tank_axes(left_track: i16, right_track: i16) -> (axes: (i16, i16))
    ensures
        axes.0 as int == spec_half_toward_zero(left_track + right_track),
        axes.1 as int == spec_half_toward_zero(right_track - left_track),
{
    let sum = left_track as i32 + right_track as i32;
    let diff = right_track as i32 - left_track as i32;
    let forward: i32 = if sum >= 0 { sum / 2 } else { -((-sum) / 2) };
    let turn: i32 = if diff >= 0 { diff / 2 } else { -((-diff) / 2) };
    (forward as i16, turn as i16)
}

/// Gamepad buttons the robot reacts to.
#[derive(Clone, Copy, Debug, PartialEq, Eq, Structural)]
pub enum GamepadButton {
    South,
    East,
    North,
    West,
    Start,
    Mode,
    Select,
    DPadUp,
    DPadDown,
    DPadLeft,
    DPadRight,
    Other,
}

/// Stick layout of gamepad drive.
#[derive(Clone, Copy, Debug, PartialEq, Eq, Structural)]
pub enum GamepadDriveStyle {
    /// The left stick drives and turns.
    Arcade,
    /// Each stick drives its own tread.
    Tank,
}

/// The name of a gamepad drive style.
pub open spec fn spec_gamepad_style_label(style: GamepadDriveStyle) -> &'static str {
    match style {
        GamepadDriveStyle::Arcade => "arcade",
        GamepadDriveStyle::Tank => "tank",
    }
}

/// The other gamepad drive style.
pub open spec fn spec_gamepad_style_toggled(style: GamepadDriveStyle) -> GamepadDriveStyle {
    match style {
        GamepadDriveStyle::Arcade => GamepadDriveStyle::Tank,
        GamepadDriveStyle::Tank => GamepadDriveStyle::Arcade,
    }
}

impl GamepadDriveStyle {
    /// The name of this style.
    pub fn as_str(self) -> (label: &'static str)
        ensures
            label == spec_gamepad_style_label(self),
    {
        match self {
            GamepadDriveStyle::Arcade => "arcade",
            GamepadDriveStyle::Tank => "tank",
        }
    }

    /// The other style.
    pub fn toggled(self) -> (other: Self)
        ensures
            other == spec_gamepad_style_toggled(self),
    {
        match self {
            GamepadDriveStyle::Arcade => GamepadDriveStyle::Tank,
            GamepadDriveStyle::Tank => GamepadDriveStyle::Arcade,
        }
    }
}

impl Default for GamepadDriveStyle {
    fn default() -> (style: Self)
        ensures
            style == GamepadDriveStyle::Arcade,
    {
        GamepadDriveStyle::Arcade
    }
}

/// Whether a HID product name matches a gamepad's mapping name or system
/// name: after keeping only lower-cased letters and digits, the product name
/// is non-empty and one of the two names contains the other.
pub open spec fn spec_names_match(name: Seq<char>, os_name: Seq<char>, product_name: Option<Seq<char>>) -> bool {
    match product_name {
        None => false,
        Some(p) => {
            let product = spec_normalize_label(p);
            let mapping = spec_normalize_label(name);
            let os = spec_normalize_label(os_name);
            (product.len() > 0 && (spec_contains(mapping, product) || spec_contains(product, mapping))) || (
            product.len() > 0 && (spec_contains(os, product) || spec_contains(product, os)))
        },
    }
}

/// Return whether a HID product name matches a gamepad.
pub fn names_match(name: &str, os_name: &str, product_name: Option<&str>) -> (matched: bool)
    ensures
        matched == spec_names_match(
            name@,
            os_name@,
            match product_name {
                Some(p) => Some(p@),
                None => None,
            },
        ),
{
    let product_name = match product_name {
        Some(p) => p,
        None => {
            return false;
        },
    };
    let product_chars = str_to_chars(product_name);
    let name_chars = str_to_chars(name);
    let os_chars = str_to_chars(os_name);
    let product = normalize_label(product_chars.as_slice());
    let mapping = normalize_label(name_chars.as_slice());
    let os = normalize_label(os_chars.as_slice());
    (product.len() > 0 && (chars_contains(mapping.as_slice(), product.as_slice()) || chars_contains(
        product.as_slice(),
        mapping.as_slice(),
    ))) || (product.len() > 0 && (chars_contains(os.as_slice(), product.as_slice()) || chars_contains(
        product.as_slice(),
        os.as_slice(),
    )))
}

/// The characters of an optional name.
pub open spec fn spec_opt_name(name: Option<String>) -> Option<Seq<char>> {
    match name {
        Some(n) => Some(n@),
        None => None,
    }
}

/// How well a HID device matches a gamepad: zero when a known vendor or
/// product id differs; otherwise 100 for each matching id and 40 for
/// matching names.
pub open spec fn spec_match_score(d: GamepadDescriptor, device: HidDeviceSnapshot) -> u32 {
    if (d.vendor_id matches Some(v) && v != device.vendor_id) || (d.product_id matches Some(p) && p
        != device.product_id) {
        0
    } else {
        let vendor: u32 = if d.vendor_id is Some { 100 } else { 0 };
        let product: u32 = if d.product_id is Some { 100 } else { 0 };
        let names: u32 = if spec_names_match(d.name@, d.os_name@, spec_opt_name(device.product_name)) {
            40
        } else {
            0
        };
        (vendor + product + names) as u32
    }
}

/// Return how well a HID device matches a gamepad.
pub fn match_score(descriptor: &GamepadDescriptor, device: &HidDeviceSnapshot) -> (score: u32)
    ensures
        score == spec_match_score(*descriptor, *device),
{
    let mut score: u32 = 0;
    match descriptor.vendor_id {
        Some(vendor_id) => {
            if vendor_id == device.vendor_id {
                score += 100;
            } else {
                return 0;
            }
        },
        None => {},
    }
    match descriptor.product_id {
        Some(product_id) => {
            if product_id == device.product_id {
                score += 100;
            } else {
                return 0;
            }
        },
        None => {},
    }
    let product_name: Option<&str> = match &device.product_name {
        Some(p) => Some(p.as_str()),
        None => None,
    };
    if names_match(descriptor.name.as_str(), descriptor.os_name.as_str(), product_name) {
        score += 40;
    }
    score
}

/// The best score among the devices of `devices` on `bus` (zero when none matches).
pub open spec fn spec_best_score(d: GamepadDescriptor, devices: Seq<HidDeviceSnapshot>, bus: BusKind) -> u32
    decreases devices.len(),
{
    if devices.len() == 0 {
        0
    } else {
        let rest = spec_best_score(d, devices.drop_last(), bus);
        let last = devices.last();
        let score = if last.bus_type == bus { spec_match_score(d, last) } else { 0 };
        if score > rest { score } else { rest }
    }
}

/// The kind a power report suggests: wired or unknown means USB, a battery
/// means Bluetooth.
pub open spec fn spec_power_kind(power: PowerKind) -> ControllerKind {
    match power {
        PowerKind::Wired => ControllerKind::GamepadUsb,
        PowerKind::Discharging(_) => ControllerKind::GamepadBluetooth,
        PowerKind::Charging(_) => ControllerKind::GamepadBluetooth,
        PowerKind::Charged => ControllerKind::GamepadBluetooth,
        PowerKind::Unknown => ControllerKind::GamepadUsb,
    }
}

/// The kind of a gamepad: the bus with the strictly better HID match, or
/// what the power report suggests when neither bus wins.
pub open spec fn spec_classify(d: GamepadDescriptor, devices: Seq<HidDeviceSnapshot>) -> ControllerKind {
    let usb = spec_best_score(d, devices, BusKind::Usb);
    let bluetooth = spec_best_score(d, devices, BusKind::Bluetooth);
    if usb > bluetooth {
        ControllerKind::GamepadUsb
    } else if usb < bluetooth {
        ControllerKind::GamepadBluetooth
    } else {
        spec_power_kind(d.power_info)
    }
}

/// Return the kind a power report suggests.
pub fn classify_transport_from_power_info(power_info: PowerKind) -> (kind: ControllerKind)
    ensures
        kind == spec_power_kind(power_info),
{
    match power_info {
        PowerKind::Wired => ControllerKind::GamepadUsb,
        PowerKind::Discharging(_) => ControllerKind::GamepadBluetooth,
        PowerKind::Charging(_) => ControllerKind::GamepadBluetooth,
        PowerKind::Charged => ControllerKind::GamepadBluetooth,
        PowerKind::Unknown => ControllerKind::GamepadUsb,
    }
}

/// Return whether a gamepad is attached by USB or Bluetooth.
pub fn classify_transport(descriptor: &GamepadDescriptor, devices: &[HidDeviceSnapshot]) -> (kind: ControllerKind)
    ensures
        kind == spec_classify(*descriptor, devices@),
{
    let mut best_usb: u32 = 0;
    let mut best_bluetooth: u32 = 0;
    let mut i: usize = 0;
    while i < devices.len()
        invariant
            i <= devices@.len(),
            best_usb == spec_best_score(*descriptor, devices@.take(i as int), BusKind::Usb),
            best_bluetooth == spec_best_score(*descriptor, devices@.take(i as int), BusKind::Bluetooth),
        decreases devices@.len() - i,
    {
        let device = &devices[i];
        let score = match_score(descriptor, device);
        proof {
            assert(devices@.take(i + 1).drop_last() == devices@.take(i as int));
            assert(devices@.take(i + 1).last() == devices@[i as int]);
        }
        if score != 0 {
            match device.bus_type {
                BusKind::Usb => {
                    if score > best_usb {
                        best_usb = score;
                    }
                },
                BusKind::Bluetooth => {
                    if score > best_bluetooth {
                        best_bluetooth = score;
                    }
                },
                BusKind::Other => {},
            }
        }
        i += 1;
    }
    assert(devices@.take(devices@.len() as int) == devices@);
    if best_usb > best_bluetooth {
        ControllerKind::GamepadUsb
    } else if best_usb < best_bluetooth {
        ControllerKind::GamepadBluetooth
    } else {
        classify_transport_from_power_info(descriptor.power_info)
    }
}

/// Instance name prefix of a gamepad kind.
pub open spec fn spec_instance_prefix(kind: ControllerKind) -> &'static str {
    if kind == ControllerKind::GamepadUsb { "usb" } else { "bluetooth" }
}

/// Display label of the bus of a gamepad kind.
pub open spec fn spec_bus_label(kind: ControllerKind) -> &'static str {
    if kind == ControllerKind::GamepadUsb { "USB" } else { "Bluetooth" }
}

/// Describe a gamepad of a USB or Bluetooth kind: instance `usb-<id>` or
/// `bluetooth-<id>`, display name `USB gamepad: <name>` or
/// `Bluetooth gamepad: <name>`.
pub fn controller_info(kind: ControllerKind, descriptor: &GamepadDescriptor) -> (info: ControllerInfo)
    requires
        kind == ControllerKind::GamepadUsb || kind == ControllerKind::GamepadBluetooth,
    ensures
        info@.kind == kind,
        info@.instance == spec_instance_prefix(kind)@ + "-"@ + spec_decimal(descriptor.id as nat),
        info@.display_name == spec_bus_label(kind)@ + " gamepad: "@ + descriptor.name@,
{
    let (prefix, bus_label) = if kind == ControllerKind::GamepadUsb {
        ("usb", "USB")
    } else {
        ("bluetooth", "Bluetooth")
    };
    let mut instance = String::new();
    push_str(&mut instance, prefix);
    push_str(&mut instance, "-");
    let digits = decimal_digits(descriptor.id as u64);
    push_chars(&mut instance, digits.as_slice());
    let mut display_name = String::new();
    push_str(&mut display_name, bus_label);
    push_str(&mut display_name, " gamepad: ");
    push_str(&mut display_name, descriptor.name.as_str());
    ControllerInfo::new(ControllerId::new(kind, instance), display_name)
}

/// The command of a button: south stops, start selects teleop, mode selects
/// autonomous, select selects fault.
pub open spec fn spec_button_command(button: GamepadButton) -> Option<BrainCommand> {
    match button {
        GamepadButton::South => Some(BrainCommand::Stop),
        GamepadButton::Start => Some(BrainCommand::SetMode(Mode::Teleop)),
        GamepadButton::Mode => Some(BrainCommand::SetMode(Mode::Autonomous)),
        GamepadButton::Select => Some(BrainCommand::SetMode(Mode::Fault)),
        _ => None,
    }
}

/// Return the command of a button, if it has one.
pub fn command_for_button(button: GamepadButton) -> (command: Option<BrainCommand>)
    ensures
        command == spec_button_command(button),
{
    match button {
        GamepadButton::South => Some(BrainCommand::Stop),
        GamepadButton::Start => Some(BrainCommand::SetMode(Mode::Teleop)),
        GamepadButton::Mode => Some(BrainCommand::SetMode(Mode::Autonomous)),
        GamepadButton::Select => Some(BrainCommand::SetMode(Mode::Fault)),
        _ => None,
    }
}

/// The gamepad command reference.
pub fn instructions_text() -> (text: &'static str)
    ensures
        text == "Gamepad commands:\n  left stick           Arcade drive, or left tread in tank mode\n  right stick Y        Right tread in tank mode\n  d-pad up             Toggle arcade/tank drive mode\n  d-pad left/right/down Arcade digital fallback\n  south / A / cross    Stop the robot\n  start / menu         Switch to teleop mode\n  mode / guide         Switch to autonomous mode\n  select / back        Switch to fault mode\n",
{
    "Gamepad commands:\n  left stick           Arcade drive, or left tread in tank mode\n  right stick Y        Right tread in tank mode\n  d-pad up             Toggle arcade/tank drive mode\n  d-pad left/right/down Arcade digital fallback\n  south / A / cross    Stop the robot\n  start / menu         Switch to teleop mode\n  mode / guide         Switch to autonomous mode\n  select / back        Switch to fault mode\n"
}

/// A gamepad the runtime follows: its kind and description, its drive
/// style and the control it last reported.
#[derive(Clone, Debug)]
pub struct TrackedGamepad {
    pub kind: ControllerKind,
    pub info: ControllerInfo,
    pub drive_style: GamepadDriveStyle,
    pub control_state: ControlState,
}

impl TrackedGamepad {
    /// A newly seen gamepad: arcade style, no control.
    pub fn new(kind: ControllerKind, info: ControllerInfo) -> (gamepad: Self)
        ensures
            gamepad.kind == kind,
            gamepad.info == info,
            gamepad.drive_style == GamepadDriveStyle::Arcade,
            gamepad.control_state.drive is None,
    {
        TrackedGamepad { kind, info, drive_style: GamepadDriveStyle::Arcade, control_state: ControlState { drive: None } }
    }

    /// Switch drive style and drop the current control; returns the new
    /// style and whether a drive request was dropped.
    pub fn toggle_drive_style(&mut self) -> (result: (GamepadDriveStyle, bool))
        ensures
            final(self).drive_style == spec_gamepad_style_toggled(old(self).drive_style),
            final(self).control_state.drive is None,
            final(self).kind == old(self).kind,
            final(self).info == old(self).info,
            result == (final(self).drive_style, old(self).control_state.drive is Some),
    {
        self.drive_style = self.drive_style.toggled();
        let was_active = self.control_state.drive.is_some();
        self.control_state = ControlState { drive: None };
        (self.drive_style, was_active)
    }

    /// Record the control the sticks now make; returns the event to route
    /// when it differs from the one last reported.
    pub fn sync_control(&mut self, control: ControlState) -> (event: Option<SourcedInputEvent>)
        ensures
            control == old(self).control_state ==> event is None && *final(self) == *old(self),
            control != old(self).control_state ==> final(self).control_state == control && final(self).kind
                == old(self).kind && final(self).info == old(self).info && final(self).drive_style == old(
                self,
            ).drive_style && (event matches Some(e) && e.controller.same_as(old(self).info.id) && e.event
                == RoutedInputEvent::Control(control)),
    {
        if control == self.control_state {
            return None;
        }
        self.control_state = control;
        Some(SourcedInputEvent::new(self.info.id.duplicate(), RoutedInputEvent::Control(control)))
    }
}

/// The lifecycle events of seeing a gamepad described as `info` of `kind`,
/// given how it was known before: a new gamepad connects; a changed one
/// disconnects as before and connects as now; an unchanged one says nothing.
pub fn upsert_lifecycle_events(previous: Option<&TrackedGamepad>, kind: ControllerKind, info: &ControllerInfo) -> (events:
    Vec<ControllerLifecycleEvent>)
    ensures
        match previous {
            None => events@.len() == 1 && (events@[0] matches ControllerLifecycleEvent::Connected(i) && i@ == info@),
            Some(t) => if t.kind == kind && t.info@ == info@ {
                events@.len() == 0
            } else {
                events@.len() == 2 && (events@[0] matches ControllerLifecycleEvent::Disconnected(i) && i@ == t.info@)
                    && (events@[1] matches ControllerLifecycleEvent::Connected(i) && i@ == info@)
            },
        },
{
    let mut events: Vec<ControllerLifecycleEvent> = Vec::new();
    match previous {
        None => {
            events.push(ControllerLifecycleEvent::Connected(info.duplicate()));
        },
        Some(t) => {
            let same_name = crate::text::str_eq(t.info.display_name.as_str(), info.display_name.as_str());
            if t.kind == kind && t.info.id.matches(&info.id) && same_name {
                return events;
            }
            events.push(ControllerLifecycleEvent::Disconnected(t.info.duplicate()));
            events.push(ControllerLifecycleEvent::Connected(info.duplicate()));
        },
    }
    events
}

/// The message announcing a gamepad's new drive style.
pub fn style_switched_message(display_name: &str, style: GamepadDriveStyle) -> (message: String)
    ensures
        message@ == display_name@ + " drive style switched to "@ + spec_gamepad_style_label(style)@,
{
    let mut message = String::new();
    push_str(&mut message, display_name);
    push_str(&mut message, " drive style switched to ");
    push_str(&mut message, style.as_str());
    message
}

/// The events of toggling a gamepad's drive style: a stop when a drive
/// request was dropped, then the announcement.
pub fn toggle_events(gamepad: &mut TrackedGamepad) -> (events: Vec<SourcedInputEvent>)
    ensures
        final(gamepad).drive_style == spec_gamepad_style_toggled(old(gamepad).drive_style),
        final(gamepad).control_state.drive is None,
        events@.len() == (if old(gamepad).control_state.drive is Some { 2int } else { 1int }),
        old(gamepad).control_state.drive is Some ==> (events@[0].event == RoutedInputEvent::Control(
            ControlState { drive: None },
        ) && events@[0].controller.same_as(old(gamepad).info.id)),
        events@.last().controller.same_as(old(gamepad).info.id),
        (events@.last().event matches RoutedInputEvent::Warning(InputWarning::Status(m)) && m@ == old(
            gamepad,
        ).info.display_name@ + " drive style switched to "@ + spec_gamepad_style_label(final(gamepad).drive_style)@),
{
    let (style, was_active) = gamepad.toggle_drive_style();
    let mut events: Vec<SourcedInputEvent> = Vec::new();
    if was_active {
        events.push(
            SourcedInputEvent::new(gamepad.info.id.duplicate(), RoutedInputEvent::Control(ControlState { drive: None })),
        );
    }
    let message = style_switched_message(gamepad.info.display_name.as_str(), style);
    events.push(
        SourcedInputEvent::new(gamepad.info.id.duplicate(), RoutedInputEvent::Warning(InputWarning::Status(message))),
    );
    events
}

/// The gamepad command reference: south stops the robot, start switches to
/// teleop, mode to autonomous, select to fault; each of those commands comes
/// from that button alone, and every other button sends no command.
pub proof fn lemma_button_commands(button: GamepadButton)
    ensures
        (spec_button_command(button) == Some(BrainCommand::Stop)) <==> button == GamepadButton::South,
        (spec_button_command(button) == Some(BrainCommand::SetMode(Mode::Teleop))) <==> button == GamepadButton::Start,
        (spec_button_command(button) == Some(BrainCommand::SetMode(Mode::Autonomous))) <==> button
            == GamepadButton::Mode,
        (spec_button_command(button) == Some(BrainCommand::SetMode(Mode::Fault))) <==> button == GamepadButton::Select,
        spec_button_command(button) is None <==> !(button == GamepadButton::South || button == GamepadButton::Start
            || button == GamepadButton::Mode || button == GamepadButton::Select),
{
}

} // verus!
