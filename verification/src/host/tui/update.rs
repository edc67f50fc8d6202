//! The console's state and how each message changes it.
//!
//! The command line is held as characters and the cursor is kept as a
//! character index; to callers it is a UTF-8 byte offset, as in a `String`.

use vstd::prelude::*;

use crate::host::input::{ControlState, ControllerInfo, ControllerInfoView};
use crate::host::logging::LogLevel;
use crate::host::registry::{ControllerKey, spec_info_key, spec_info_views, spec_known_map, spec_unique_keys};
use crate::host::tui::completion::Suggestion;
use crate::host::tui::model::InputMode;
use crate::host::ui::{LogView, UiLogEntry, record_log, spec_log_after, spec_log_views};
use crate::protocol::ForwardRangeTelemetry;
use crate::text::{
    byte_pos, char_floor, chars_to_string, lemma_floor_bounded, spec_byte_pos, spec_char_floor, spec_trim, trim_chars,
};
use crate::units::Mode;

verus! {

/// How many log entries the console keeps.
pub const MAX_LOG_MESSAGES: usize = 200;

/// How many rows one scroll step moves.
pub const SCROLL_STEP: u16 = 3;

/// The status panel.
#[derive(Clone, Debug)]
pub struct SummaryStatus {
    pub config_path: String,
    pub connection_status: String,
    pub control_state: ControlState,
    pub desired_mode: Mode,
    pub distance: Option<ForwardRangeTelemetry>,
    pub transport_label: String,
    pub serial_target: String,
    pub nexo_gateway: String,
    pub nexo_client: String,
    pub controller_selection: String,
}

impl SummaryStatus {
    /// A status panel that is connecting, idle, in teleop, with nothing else known.
    pub fn new() -> (summary: Self)
        ensures
            summary.connection_status@ == "connecting"@,
            summary.control_state.drive is None,
            summary.desired_mode == Mode::Teleop,
            summary.distance is None,
    {
        SummaryStatus {
            config_path: String::new(),
            connection_status: "connecting".to_string(),
            control_state: ControlState { drive: None },
            desired_mode: Mode::Teleop,
            distance: None,
            transport_label: String::new(),
            serial_target: String::new(),
            nexo_gateway: String::new(),
            nexo_client: String::new(),
            controller_selection: String::new(),
        }
    }
}

/// Everything the console shows and edits.
#[derive(Debug)]
pub struct Model {
    pub log_level: LogLevel,
    pub no_color: bool,
    pub summary: SummaryStatus,
    pub input_mode: InputMode,
    pub command_input: Vec<char>,
    /// The cursor as a character index into `command_input`.
    pub cursor_char: usize,
    pub activity_scroll_offset: u16,
    pub logs: Vec<UiLogEntry>,
    pub show_help: bool,
    pub help_topic: Option<String>,
    pub completions: Vec<Suggestion>,
    pub selected_completion: usize,
    pub active_controllers: Vec<ControllerInfo>,
}

/// A console message.
#[derive(Clone, Debug, PartialEq, Eq)]
pub enum Message {
    InsertChar(char),
    Backspace,
    DeleteForward,
    MoveCursorLeft,
    MoveCursorRight,
    MoveCursorStart,
    MoveCursorEnd,
    SubmitInput,
    SelectNextCompletion,
    SelectPreviousCompletion,
    ApplySelectedCompletion,
    ScrollActivityUp,
    ScrollActivityDown,
    CopyAllActivity,
    CopyLastActivity,
    SetConnectionStatus(String),
    SetControlState(ControlState),
    SetDesiredMode(Mode),
    SetDistance(Option<ForwardRangeTelemetry>),
    Log(LogLevel, String),
    ShowHelp(bool),
    ControllerConnected(ControllerInfo),
    ControllerDisconnected(ControllerInfo),
}

/// What the console loop should do after a message.
#[derive(Clone, Debug, PartialEq, Eq)]
pub enum Action {
    Continue,
    ExecuteCommand(String),
    ApplySelectedCompletion,
    CopyAllActivity,
    CopyLastActivity,
}

/// Everything but the command line, the cursor, the log and the
/// controllers is the same.
pub open spec fn spec_same_settings(a: Model, b: Model) -> bool {
    &&& a.log_level == b.log_level
    &&& a.no_color == b.no_color
    &&& a.summary == b.summary
    &&& a.input_mode == b.input_mode
    &&& a.activity_scroll_offset == b.activity_scroll_offset
    &&& a.show_help == b.show_help
    &&& a.help_topic == b.help_topic
    &&& a.completions == b.completions
    &&& a.selected_completion == b.selected_completion
}

impl Model {
    /// The command line.
    pub closed spec fn input(&self) -> Seq<char> {
        self.command_input@
    }

    /// The cursor position in the command line, in characters.
    pub open spec fn cursor_at(&self) -> int {
        self.cursor_char as int
    }

    /// The cursor position in the command line, as a UTF-8 byte offset.
    pub open spec fn cursor_byte_at(&self) -> int {
        spec_byte_pos(self.input(), self.cursor_at())
    }

    /// The activity log, oldest first.
    pub open spec fn log_entries(&self) -> Seq<LogView> {
        spec_log_views(self.logs@)
    }

    /// The connected controllers by key.
    pub closed spec fn controllers(&self) -> Map<ControllerKey, ControllerInfoView> {
        spec_known_map(spec_info_views(self.active_controllers@))
    }

    /// The cursor stays within the command line, the log within its
    /// capacity, and no two controllers share a key.
    pub closed spec fn wf(&self) -> bool {
        &&& self.cursor_char <= self.command_input@.len()
        &&& self.logs@.len() <= MAX_LOG_MESSAGES
        &&& spec_unique_keys(spec_info_views(self.active_controllers@))
    }

    /// A console with an empty command line and log.
    pub fn new(log_level: LogLevel, no_color: bool, summary: SummaryStatus) -> (model: Self)
        ensures
            model.wf(),
            model.input().len() == 0,
            model.cursor_at() == 0,
            model.log_entries().len() == 0,
            model.controllers() == Map::<ControllerKey, ControllerInfoView>::empty(),
            model.log_level == log_level,
            model.no_color == no_color,
            model.summary == summary,
            model.completions@.len() == 0,
            model.selected_completion == 0,
            !model.show_help,
            model.help_topic is None,
            model.activity_scroll_offset == 0,
            model.input_mode is Command,
    {
        let model = Model {
            log_level,
            no_color,
            summary,
            input_mode: InputMode::Command,
            command_input: Vec::new(),
            cursor_char: 0,
            activity_scroll_offset: 0,
            logs: Vec::new(),
            show_help: false,
            help_topic: None,
            completions: Vec::new(),
            selected_completion: 0,
            active_controllers: Vec::new(),
        };
        assert(model.log_entries() =~= Seq::<LogView>::empty());
        assert(spec_info_views(model.active_controllers@) =~= Seq::<ControllerInfoView>::empty());
        assert(model.controllers() =~= Map::<ControllerKey, ControllerInfoView>::empty());
        model
    }

    /// The command line as text.
    pub fn command_input(&self) -> (text: String)
        ensures
            text@ == self.input(),
    {
        chars_to_string(self.command_input.as_slice())
    }

    /// The cursor position, as a UTF-8 byte offset into the command line.
    pub fn cursor(&self) -> (at: usize)
        ensures
            at == self.cursor_byte_at(),
    {
        let text = chars_to_string(self.command_input.as_slice());
        let bytes = text.as_str().as_bytes();
        let n: usize = bytes.len();
        assert(n == vstd::utf8::encode_utf8(self.command_input@).len());
        byte_pos(self.command_input.as_slice(), self.cursor_char)
    }

    /// Replace the command line and put the cursor at UTF-8 byte offset
    /// `cursor`, moved back to the start of the character it falls in and
    /// clamped to the end.
    pub fn set_command_input(&mut self, text: &str, cursor: usize)
        requires
            old(self).wf(),
        ensures
            final(self).wf(),
            final(self).input() == text@,
            final(self).cursor_at() == spec_char_floor(text@, cursor as int),
            final(self).log_entries() == old(self).log_entries(),
            final(self).controllers() == old(self).controllers(),
            spec_same_settings(*final(self), *old(self)),
    {
        self.command_input = crate::text::str_to_chars(text);
        self.cursor_char = char_floor(self.command_input.as_slice(), cursor);
        proof {
            lemma_floor_bounded(text@, cursor as int);
        }
    }

    /// Replace the command line and put the cursor at character `cursor`
    /// (clamped to the end).
    pub fn set_command_input_at_char(&mut self, text: &str, cursor: usize)
        requires
            old(self).wf(),
        ensures
            final(self).wf(),
            final(self).input() == text@,
            final(self).cursor_at() == (if cursor as int <= text@.len() { cursor as int } else { text@.len() as int }),
            final(self).log_entries() == old(self).log_entries(),
            final(self).controllers() == old(self).controllers(),
            spec_same_settings(*final(self), *old(self)),
    {
        self.command_input = crate::text::str_to_chars(text);
        self.cursor_char = if cursor <= self.command_input.len() { cursor } else { self.command_input.len() };
    }

    /// The activity log entries, oldest first.
    pub fn logs(&self) -> (entries: &Vec<UiLogEntry>)
        ensures
            spec_log_views(entries@) == self.log_entries(),
    {
        &self.logs
    }

    /// Record a message.
    pub fn log(&mut self, level: LogLevel, message: &str)
        requires
            old(self).wf(),
        ensures
            final(self).wf(),
            final(self).log_entries() == spec_log_after(
                old(self).log_entries(),
                MAX_LOG_MESSAGES as int,
                old(self).log_level,
                level,
                message@,
            ),
            final(self).input() == old(self).input(),
            final(self).cursor_at() == old(self).cursor_at(),
            final(self).controllers() == old(self).controllers(),
            final(self).log_level == old(self).log_level,
            spec_same_settings(*final(self), *old(self)),
    {
        record_log(&mut self.logs, MAX_LOG_MESSAGES, self.log_level, level, message);
    }

    /// Show or hide the help, for `topic` when named.
    pub fn set_help(&mut self, show: bool, topic: Option<String>)
        requires
            old(self).wf(),
        ensures
            final(self).wf(),
            final(self).show_help == show,
            final(self).help_topic == topic,
            final(self).input() == old(self).input(),
            final(self).cursor_at() == old(self).cursor_at(),
            final(self).log_entries() == old(self).log_entries(),
            final(self).controllers() == old(self).controllers(),
            spec_same_settings(*final(self), Model { show_help: show, help_topic: topic, ..*old(self) }),
    {
        self.show_help = show;
        self.help_topic = topic;
    }

    /// Replace the completions and the selection.
    pub fn set_completions(&mut self, completions: Vec<Suggestion>, selected: usize)
        requires
            old(self).wf(),
        ensures
            final(self).wf(),
            final(self).completions == completions,
            final(self).selected_completion == selected,
            final(self).input() == old(self).input(),
            final(self).cursor_at() == old(self).cursor_at(),
            final(self).log_entries() == old(self).log_entries(),
            final(self).controllers() == old(self).controllers(),
            spec_same_settings(*final(self), Model { completions, selected_completion: selected, ..*old(self) }),
    {
        self.completions = completions;
        self.selected_completion = selected;
    }

    /// Switch what key presses do.
    pub fn set_input_mode(&mut self, mode: InputMode)
        requires
            old(self).wf(),
        ensures
            final(self).wf(),
            final(self).input_mode == mode,
            final(self).input() == old(self).input(),
            final(self).cursor_at() == old(self).cursor_at(),
            final(self).log_entries() == old(self).log_entries(),
            final(self).controllers() == old(self).controllers(),
            spec_same_settings(*final(self), Model { input_mode: mode, ..*old(self) }),
    {
        self.input_mode = mode;
    }

    /// Add an entry after the newest, as it is.
    pub fn append_entry(&mut self, entry: UiLogEntry)
        requires
            old(self).wf(),
            old(self).log_entries().len() < MAX_LOG_MESSAGES,
        ensures
            final(self).wf(),
            final(self).log_entries() == old(self).log_entries().push((entry.level, entry.message@, entry.repeats)),
            final(self).input() == old(self).input(),
            final(self).cursor_at() == old(self).cursor_at(),
            final(self).controllers() == old(self).controllers(),
            spec_same_settings(*final(self), *old(self)),
    {
        let ghost before = self.log_entries();
        let ghost v = (entry.level, entry.message@, entry.repeats);
        self.logs.push(entry);
        assert(self.log_entries() =~= before.push(v));
    }

    /// Record that a controller connected.
    pub fn controller_connected(&mut self, info: &ControllerInfo)
        requires
            old(self).wf(),
        ensures
            final(self).wf(),
            final(self).controllers() == old(self).controllers().insert(spec_info_key(info@), info@),
            final(self).input() == old(self).input(),
            final(self).cursor_at() == old(self).cursor_at(),
            final(self).log_entries() == old(self).log_entries(),
            spec_same_settings(*final(self), *old(self)),
    {
        let ghost s = spec_info_views(self.active_controllers@);
        let ghost iv = info@;
        let copy = info.duplicate();
        match crate::host::registry::find_controller(&self.active_controllers, &info.id) {
            Some(i) => {
                proof {
                    crate::host::registry::lemma_known_update(s, i as int, iv);
                }
                self.active_controllers.set(i, copy);
                assert(spec_info_views(self.active_controllers@) =~= s.update(i as int, iv));
            },
            None => {
                proof {
                    assert forall|j: int| 0 <= j < s.len() implies spec_info_key(s[j]) != spec_info_key(iv) by {
                        assert(s[j] == self.active_controllers@[j]@);
                    }
                    crate::host::registry::lemma_known_push(s, iv);
                }
                self.active_controllers.push(copy);
                assert(spec_info_views(self.active_controllers@) =~= s.push(iv));
            },
        }
    }

    /// Record that a controller disconnected.
    pub fn controller_disconnected(&mut self, info: &ControllerInfo)
        requires
            old(self).wf(),
        ensures
            final(self).wf(),
            final(self).controllers() == old(self).controllers().remove(spec_info_key(info@)),
            final(self).input() == old(self).input(),
            final(self).cursor_at() == old(self).cursor_at(),
            final(self).log_entries() == old(self).log_entries(),
            spec_same_settings(*final(self), *old(self)),
    {
        let ghost s = spec_info_views(self.active_controllers@);
        match crate::host::registry::find_controller(&self.active_controllers, &info.id) {
            Some(i) => {
                proof {
                    crate::host::registry::lemma_known_remove(s, i as int);
                }
                self.active_controllers.remove(i);
                assert(spec_info_views(self.active_controllers@) =~= s.remove(i as int));
            },
            None => {
                proof {
                    assert forall|j: int| 0 <= j < s.len() implies spec_info_key(s[j]) != spec_info_key(info@) by {
                        assert(s[j] == self.active_controllers@[j]@);
                    }
                    assert(spec_known_map(s).remove(spec_info_key(info@)) =~= spec_known_map(s));
                }
            },
        }
    }
}

/// The command line and cursor after an editing message.
pub open spec fn spec_edit(input: Seq<char>, cursor: int, msg: Message) -> (Seq<char>, int) {
    match msg {
        Message::InsertChar(c) => (input.insert(cursor, c), cursor + 1),
        Message::Backspace => if cursor > 0 { (input.remove(cursor - 1), cursor - 1) } else { (input, cursor) },
        Message::DeleteForward => if cursor < input.len() { (input.remove(cursor), cursor) } else { (input, cursor) },
        Message::MoveCursorLeft => (input, if cursor > 0 { cursor - 1 } else { 0 }),
        Message::MoveCursorRight => (input, if cursor + 1 < input.len() { cursor + 1 } else { input.len() as int }),
        Message::MoveCursorStart => (input, 0),
        Message::MoveCursorEnd => (input, input.len() as int),
        _ => (input, cursor),
    }
}

/// Apply a message to the console and say what the loop should do.
pub fn update(model: &mut Model, msg: Message) -> (action: Action)
    requires
        old(model).wf(),
        old(model).input().len() < usize::MAX,
    ensures
        final(model).wf(),
        match msg {
            Message::InsertChar(_) | Message::Backspace | Message::DeleteForward | Message::MoveCursorLeft
            | Message::MoveCursorRight | Message::MoveCursorStart | Message::MoveCursorEnd => {
                &&& (final(model).input(), final(model).cursor_at()) == spec_edit(old(model).input(), old(model).cursor_at(), msg)
                &&& action == Action::Continue
                &&& final(model).log_entries() == old(model).log_entries()
            },
            Message::SubmitInput => {
                &&& final(model).input().len() == 0
                &&& final(model).cursor_at() == 0
                &&& final(model).completions@.len() == 0
                &&& final(model).selected_completion == 0
                &&& if spec_trim(old(model).input()).len() > 0 {
                    &&& action matches Action::ExecuteCommand(c) && c@ == spec_trim(old(model).input())
                    &&& !final(model).show_help
                    &&& final(model).help_topic is None
                } else {
                    action == Action::Continue
                }
            },
            Message::SelectNextCompletion => {
                &&& action == Action::Continue
                &&& old(model).completions@.len() > 0 ==> final(model).selected_completion == (old(model).selected_completion + 1) % (old(model).completions@.len() as int)
            },
            Message::SelectPreviousCompletion => {
                &&& action == Action::Continue
                &&& old(model).completions@.len() > 0 ==> final(model).selected_completion == (if old(model).selected_completion == 0 {
                    old(model).completions@.len() - 1
                } else {
                    old(model).selected_completion - 1
                })
            },
            Message::ApplySelectedCompletion => action == (if old(model).completions@.len() > 0 {
                Action::ApplySelectedCompletion
            } else {
                Action::Continue
            }),
            Message::ScrollActivityUp => action == Action::Continue && final(model).activity_scroll_offset == (if old(model).activity_scroll_offset > u16::MAX - SCROLL_STEP {
                u16::MAX
            } else {
                (old(model).activity_scroll_offset + SCROLL_STEP) as u16
            }),
            Message::ScrollActivityDown => action == Action::Continue && final(model).activity_scroll_offset == (if old(model).activity_scroll_offset < SCROLL_STEP {
                0
            } else {
                (old(model).activity_scroll_offset - SCROLL_STEP) as u16
            }),
            Message::CopyAllActivity => action == Action::CopyAllActivity,
            Message::CopyLastActivity => action == Action::CopyLastActivity,
            Message::SetConnectionStatus(s) => action == Action::Continue && final(model).summary.connection_status@ == s@,
            Message::SetControlState(c) => action == Action::Continue && final(model).summary.control_state == c,
            Message::SetDesiredMode(m) => action == Action::Continue && final(model).summary.desired_mode == m,
            Message::SetDistance(d) => action == Action::Continue && final(model).summary.distance == d,
            Message::Log(level, m) => action == Action::Continue && final(model).log_entries() == spec_log_after(
                old(model).log_entries(),
                MAX_LOG_MESSAGES as int,
                old(model).log_level,
                level,
                m@,
            ),
            Message::ShowHelp(v) => action == Action::Continue && final(model).show_help == v && (!v ==> final(model).help_topic is None),
            Message::ControllerConnected(info) => action == Action::Continue && final(model).controllers() == old(model).controllers().insert(spec_info_key(info@), info@),
            Message::ControllerDisconnected(info) => action == Action::Continue && final(model).controllers() == old(model).controllers().remove(spec_info_key(info@)),
        },
{
    match msg {
        Message::InsertChar(c) => {
            model.command_input.insert(model.cursor_char, c);
            model.cursor_char = model.cursor_char + 1;
            Action::Continue
        },
        Message::Backspace => {
            if model.cursor_char > 0 {
                model.cursor_char = model.cursor_char - 1;
                model.command_input.remove(model.cursor_char);
            }
            Action::Continue
        },
        Message::DeleteForward => {
            if model.cursor_char < model.command_input.len() {
                model.command_input.remove(model.cursor_char);
            }
            Action::Continue
        },
        Message::MoveCursorLeft => {
            model.cursor_char = if model.cursor_char > 0 { model.cursor_char - 1 } else { 0 };
            Action::Continue
        },
        Message::MoveCursorRight => {
            model.cursor_char = if model.cursor_char + 1 < model.command_input.len() { model.cursor_char + 1 } else { model.command_input.len() };
            Action::Continue
        },
        Message::MoveCursorStart => {
            model.cursor_char = 0;
            Action::Continue
        },
        Message::MoveCursorEnd => {
            model.cursor_char = model.command_input.len();
            Action::Continue
        },
        Message::SubmitInput => {
            let trimmed = trim_chars(model.command_input.as_slice());
            model.command_input = Vec::new();
            model.cursor_char = 0;
            model.completions = Vec::new();
            model.selected_completion = 0;
            if trimmed.len() > 0 {
                model.show_help = false;
                model.help_topic = None;
                return Action::ExecuteCommand(chars_to_string(trimmed.as_slice()));
            }
            Action::Continue
        },
        Message::SelectNextCompletion => {
            if model.completions.len() > 0 {
                model.selected_completion = (model.selected_completion % model.completions.len() + 1) % model.completions.len();
                proof {
                    let n = old(model).completions@.len() as int;
                    let s = old(model).selected_completion as int;
                    vstd::arithmetic::div_mod::lemma_add_mod_noop(s, 1, n);
                    vstd::arithmetic::div_mod::lemma_add_mod_noop(s % n, 1, n);
                    vstd::arithmetic::div_mod::lemma_mod_twice(s, n);
                }
            }
            Action::Continue
        },
        Message::SelectPreviousCompletion => {
            if model.completions.len() > 0 {
                model.selected_completion = if model.selected_completion == 0 {
                    model.completions.len() - 1
                } else {
                    model.selected_completion - 1
                };
            }
            Action::Continue
        },
        Message::ApplySelectedCompletion => {
            if model.completions.len() > 0 {
                Action::ApplySelectedCompletion
            } else {
                Action::Continue
            }
        },
        Message::ScrollActivityUp => {
            model.activity_scroll_offset = if model.activity_scroll_offset > u16::MAX - SCROLL_STEP {
                u16::MAX
            } else {
                model.activity_scroll_offset + SCROLL_STEP
            };
            Action::Continue
        },
        Message::ScrollActivityDown => {
            model.activity_scroll_offset = if model.activity_scroll_offset < SCROLL_STEP {
                0
            } else {
                model.activity_scroll_offset - SCROLL_STEP
            };
            Action::Continue
        },
        Message::CopyAllActivity => Action::CopyAllActivity,
        Message::CopyLastActivity => Action::CopyLastActivity,
        Message::SetConnectionStatus(status) => {
            model.summary.connection_status = status;
            Action::Continue
        },
        Message::SetControlState(control_state) => {
            model.summary.control_state = control_state;
            Action::Continue
        },
        Message::SetDesiredMode(mode) => {
            model.summary.desired_mode = mode;
            Action::Continue
        },
        Message::SetDistance(distance) => {
            model.summary.distance = distance;
            Action::Continue
        },
        Message::Log(level, message) => {
            model.log(level, message.as_str());
            Action::Continue
        },
        Message::ShowHelp(visible) => {
            model.show_help = visible;
            if !visible {
                model.help_topic = None;
            }
            Action::Continue
        },
        Message::ControllerConnected(controller) => {
            model.controller_connected(&controller);
            Action::Continue
        },
        Message::ControllerDisconnected(controller) => {
            model.controller_disconnected(&controller);
            Action::Continue
        },
    }
}

} // verus!
