//! The console between terminal and brain: how a key becomes a console
//! message, what an action of the update asks for, how keyboard drive mode
//! enters, leaves and turns keys into control, and the events queued for
//! the brain.
//!
//! Each console message goes through `update`, then `handle_action`, then
//! `refresh_completions`; the terminal, the clipboard and reading files are
//! left to the caller, which an effect asks for.

use vstd::prelude::*;

use crate::host::brain::{BrainCommand, BrainCommandView};
use crate::host::input::{
    ControlState, ControllerId, ControllerInfo, ControllerInfoView, ControllerKind, InputEvent, InputEventView,
    InputWarning, InputWarningView, spec_event_views,
};
use crate::host::keyboard::KeyEventKind;
use crate::host::logging::LogLevel;
use crate::host::tui::commands::{parse, spec_parse, ActionView, CommandAction, LocalCommand};
use crate::host::tui::completion::{apply_suggestion_at_char, spec_suggested, spec_suggestion_views, suggestions_at_char};
use crate::host::tui::files::FileIndex;
use crate::host::tui::model::{spec_apply_key, spec_at_rest, spec_keyboard_control, spec_toggled_style, spec_drive_style_label, InputMode, KeyboardDriveState};
use crate::host::tui::update::{Action, Message, Model, SummaryStatus, MAX_LOG_MESSAGES};
use crate::host::ui::{
    activity_plain_text, last_activity_plain_text, spec_activity_entry, spec_activity_line, spec_copy_text, spec_log_after, LogView,
    UiLogEntry,
};
use crate::text::{chars_to_string, push_str, spec_trim, str_to_chars, trim_chars};
use crate::units::Mode;

verus! {

/// Instance of the console's own keyboard controller.
pub const TUI_KEYBOARD_CONTROLLER_INSTANCE: &'static str = "tui-local";

/// Name of the console's own keyboard controller.
pub const TUI_KEYBOARD_CONTROLLER_NAME: &'static str = "TUI Keyboard";

/// The first line of every console log.
pub const SESSION_READY_MESSAGE: &'static str = "session ready; type /help to view commands";

/// What the console is started with.
#[derive(Clone, Debug)]
pub struct TuiConfig {
    pub workspace_root: String,
    pub config_path: String,
    pub log_level: LogLevel,
    pub no_color: bool,
    pub transport_label: String,
    pub serial_target: String,
    pub controller_selection: String,
    pub nexo_gateway: String,
    pub nexo_client: String,
    pub initial_mode: Mode,
}

/// The console at start: the session summary from the configuration, an
/// empty command line, and the ready message in the log.
pub fn initial_model(config: TuiConfig) -> (model: Model)
    ensures
        model.wf(),
        model.log_level == config.log_level,
        model.no_color == config.no_color,
        model.summary.config_path == config.config_path,
        model.summary.connection_status@ == "connecting"@,
        model.summary.control_state.drive is None,
        model.summary.desired_mode == config.initial_mode,
        model.summary.distance is None,
        model.summary.transport_label == config.transport_label,
        model.summary.serial_target == config.serial_target,
        model.summary.controller_selection == config.controller_selection,
        model.summary.nexo_gateway == config.nexo_gateway,
        model.summary.nexo_client == config.nexo_client,
        model.input().len() == 0,
        model.cursor_at() == 0,
        model.controllers() == Map::<(ControllerKind, Seq<char>), ControllerInfoView>::empty(),
        model.log_entries() == seq![(LogLevel::Info, SESSION_READY_MESSAGE@, 1usize)],
        model.input_mode is Command,
        !model.show_help,
{
    let mut summary = SummaryStatus::new();
    summary.config_path = config.config_path;
    summary.desired_mode = config.initial_mode;
    summary.transport_label = config.transport_label;
    summary.serial_target = config.serial_target;
    summary.controller_selection = config.controller_selection;
    summary.nexo_gateway = config.nexo_gateway;
    summary.nexo_client = config.nexo_client;
    let mut model = Model::new(config.log_level, config.no_color, summary);
    let ghost before = model.log_entries();
    model.append_entry(UiLogEntry { level: LogLevel::Info, message: SESSION_READY_MESSAGE.to_string(), repeats: 1 });
    assert(model.log_entries() =~= seq![(LogLevel::Info, SESSION_READY_MESSAGE@, 1usize)]);
    model
}

/// The console's own keyboard controller.
pub open spec fn spec_tui_keyboard_info() -> ControllerInfoView {
    ControllerInfoView {
        kind: ControllerKind::Keyboard,
        instance: TUI_KEYBOARD_CONTROLLER_INSTANCE@,
        display_name: TUI_KEYBOARD_CONTROLLER_NAME@,
    }
}

/// Describe the console's own keyboard controller.
pub fn tui_keyboard_controller_info() -> (info: ControllerInfo)
    ensures
        info@ == spec_tui_keyboard_info(),
{
    ControllerInfo::new(
        ControllerId::new(ControllerKind::Keyboard, TUI_KEYBOARD_CONTROLLER_INSTANCE.to_string()),
        TUI_KEYBOARD_CONTROLLER_NAME.to_string(),
    )
}

/// A terminal key code.
#[derive(Clone, Copy, Debug, PartialEq, Eq, Structural)]
pub enum TermKeyCode {
    Char(char),
    Enter,
    Backspace,
    Delete,
    Left,
    Right,
    Home,
    End,
    Tab,
    BackTab,
    Up,
    Down,
    Esc,
    F(u8),
    Other,
}

/// A terminal key event.
#[derive(Clone, Copy, Debug, PartialEq, Eq, Structural)]
pub struct TermKey {
    pub code: TermKeyCode,
    pub control: bool,
    pub alt: bool,
    pub kind: KeyEventKind,
}

/// Work the caller does for the console.
#[derive(Clone, Debug, PartialEq, Eq)]
pub enum ConsoleEffect {
    /// Expand the `@file` references of a chat prompt and queue the chat.
    ExpandChat(String),
    /// Put text on the clipboard, then report with `copy_finished`.
    Copy { text: String, last_only: bool },
}

/// The console message a key makes while editing the command line.
pub open spec fn spec_key_message(key: TermKey) -> Option<Message> {
    match key.code {
        TermKeyCode::Enter => Some(Message::SubmitInput),
        TermKeyCode::Backspace => Some(Message::Backspace),
        TermKeyCode::Delete => Some(Message::DeleteForward),
        TermKeyCode::Left => Some(Message::MoveCursorLeft),
        TermKeyCode::Right => Some(Message::MoveCursorRight),
        TermKeyCode::Home => Some(Message::MoveCursorStart),
        TermKeyCode::End => Some(Message::MoveCursorEnd),
        TermKeyCode::Tab => Some(Message::ApplySelectedCompletion),
        TermKeyCode::BackTab => Some(Message::SelectPreviousCompletion),
        TermKeyCode::Up => Some(Message::SelectPreviousCompletion),
        TermKeyCode::Down => Some(Message::SelectNextCompletion),
        TermKeyCode::Esc => Some(Message::ShowHelp(false)),
        TermKeyCode::F(n) => if n == 1 { Some(Message::ShowHelp(true)) } else { None },
        TermKeyCode::Char(c) => if !key.control && !key.alt { Some(Message::InsertChar(c)) } else { None },
        TermKeyCode::Other => None,
    }
}

/// Whether a key asks to quit: control with `c` or `x`, pressed or repeated.
pub open spec fn spec_is_quit_key(key: TermKey) -> bool {
    &&& key.control
    &&& (key.code == TermKeyCode::Char('c') || key.code == TermKeyCode::Char('C') || key.code == TermKeyCode::Char('x')
        || key.code == TermKeyCode::Char('X'))
    &&& key.kind != KeyEventKind::Release
}

/// After a suggestion is applied the cursor stands within the command line.
proof fn lemma_applied_cursor_within(input: Seq<char>, s: crate::host::tui::completion::SuggestionView)
    requires
        0 <= s.start <= s.end <= input.len(),
    ensures
        crate::host::tui::completion::spec_applied(input, s).1 <= crate::host::tui::completion::spec_applied(input, s).0.len(),
{
}

/// The console: its model, the workspace files, and the events for the brain.
#[derive(Debug)]
pub struct Console {
    pub model: Model,
    pub files: FileIndex,
    pub pending: Vec<InputEvent>,
}

/// A submitted command was carried out: the event it makes is queued, the
/// help it asks for opens, a chat prompt is handed back for expansion, or
/// the refusal is logged; the command line, cursor and controllers stay.
pub open spec fn spec_executed(before: Console, after: Console, command: Seq<char>, effect: Option<ConsoleEffect>) -> bool {
    &&& match spec_parse(command) {
        Ok(ActionView::Emit(e)) => effect is None && after.pending() == before.pending().push(e)
            && after.model.log_entries() == before.model.log_entries(),
        Ok(ActionView::Help(topic)) => effect is None && after.model.show_help && (match after.model.help_topic {
            Some(t) => topic == Some(t@),
            None => topic is None,
        }) && after.pending() == before.pending() && after.model.log_entries() == before.model.log_entries(),
        Ok(ActionView::Chat(p)) => (effect matches Some(ConsoleEffect::ExpandChat(q)) && q@ == p)
            && after.pending() == before.pending() && after.model.log_entries() == before.model.log_entries(),
        Err(m) => effect is None && after.pending() == before.pending() && after.model.log_entries() == spec_log_after(
            before.model.log_entries(),
            MAX_LOG_MESSAGES as int,
            before.model.log_level,
            LogLevel::Error,
            "command failed: "@ + m,
        ),
    }
    &&& after.model.input() == before.model.input()
    &&& after.model.cursor_at() == before.model.cursor_at()
    &&& after.model.controllers() == before.model.controllers()
    &&& after.model.input_mode == before.model.input_mode
}

/// A copy of the activity was asked for: the text goes to the clipboard when
/// it holds more than whitespace, else a warning is logged; nothing else
/// changes.
pub open spec fn spec_copied(before: Console, after: Console, last_only: bool, effect: Option<ConsoleEffect>) -> bool {
    &&& after.pending() == before.pending()
    &&& match spec_copy_text(before.model.log_entries(), last_only) {
        Some(t) if spec_trim(t).len() > 0 => (effect matches Some(ConsoleEffect::Copy { text, last_only: l })
            && l == last_only && text@ == t) && after.model.log_entries() == before.model.log_entries(),
        _ => effect is None && after.model.log_entries() == spec_log_after(
            before.model.log_entries(),
            MAX_LOG_MESSAGES as int,
            before.model.log_level,
            LogLevel::Warn,
            "activity is empty; nothing copied"@,
        ),
    }
    &&& after.model.input() == before.model.input()
    &&& after.model.cursor_at() == before.model.cursor_at()
    &&& after.model.controllers() == before.model.controllers()
    &&& after.model.input_mode == before.model.input_mode
}

/// The selected completion, if one is selected, replaced its span of the
/// command line; the log, controllers, mode and queue stay.
pub open spec fn spec_completion_applied(before: Console, after: Console) -> bool {
    &&& before.model.selected_completion >= before.model.completions@.len() ==> after.model.input()
        == before.model.input() && after.model.cursor_at() == before.model.cursor_at()
    &&& before.model.selected_completion < before.model.completions@.len() ==> (after.model.input(), after.model.cursor_at())
        == crate::host::tui::completion::spec_applied(
        before.model.input(),
        before.model.completions@[before.model.selected_completion as int]@,
    )
    &&& after.model.log_entries() == before.model.log_entries()
    &&& after.model.controllers() == before.model.controllers()
    &&& after.model.input_mode == before.model.input_mode
    &&& after.pending() == before.pending()
}

impl Console {
    /// The events queued for the brain, oldest first.
    pub closed spec fn pending(&self) -> Seq<InputEventView> {
        spec_event_views(self.pending@)
    }

    /// The model is well formed.
    pub open spec fn wf(&self) -> bool {
        self.model.wf()
    }

    /// A console started from `config` over `files`, nothing queued, with
    /// its completions refreshed.
    pub fn new(config: TuiConfig, files: FileIndex) -> (console: Self)
        ensures
            console.wf(),
            console.pending().len() == 0,
            console.model.log_entries() == seq![(LogLevel::Info, SESSION_READY_MESSAGE@, 1usize)],
            console.model.input().len() == 0,
    {
        let mut console = Console { model: initial_model(config), files, pending: Vec::new() };
        assert(console.pending() =~= Seq::<InputEventView>::empty());
        console.refresh_completions();
        console
    }

    /// Queue an event for the brain.
    pub fn queue_event(&mut self, event: InputEvent)
        ensures
            final(self).pending() == old(self).pending().push(event@),
            final(self).model == old(self).model,
    {
        let ghost before = self.pending@;
        self.pending.push(event);
        assert(self.pending() =~= spec_event_views(before).push(event@));
    }

    /// Take the oldest event queued for the brain.
    pub fn pop_event(&mut self) -> (event: Option<InputEvent>)
        ensures
            old(self).pending().len() == 0 ==> event is None && final(self).pending() == old(self).pending(),
            old(self).pending().len() > 0 ==> (event matches Some(e) && e@ == old(self).pending()[0])
                && final(self).pending() == old(self).pending().drop_first(),
            final(self).model == old(self).model,
    {
        if self.pending.len() == 0 {
            return None;
        }
        let e = self.pending.remove(0);
        assert(self.pending() =~= old(self).pending().drop_first());
        Some(e)
    }

    /// Recompute the completions: none in keyboard drive mode, else those of
    /// the command line at the cursor, keeping the selection when it still
    /// points at one.
    pub fn refresh_completions(&mut self)
        requires
            old(self).wf(),
        ensures
            final(self).wf(),
            old(self).model.input_mode is KeyboardDrive ==> final(self).model.completions@.len() == 0
                && final(self).model.selected_completion == 0,
            old(self).model.input_mode is Command ==> {
                &&& spec_suggested(
                    old(self).model.input(),
                    old(self).model.cursor_at(),
                    old(self).files.spec_files(),
                    spec_suggestion_views(final(self).model.completions@),
                )
                &&& final(self).model.selected_completion == if old(self).model.selected_completion
                    < final(self).model.completions@.len() {
                    old(self).model.selected_completion
                } else {
                    0
                }
            },
            final(self).model.input() == old(self).model.input(),
            final(self).model.cursor_at() == old(self).model.cursor_at(),
            final(self).model.log_entries() == old(self).model.log_entries(),
            final(self).model.controllers() == old(self).model.controllers(),
            final(self).model.input_mode == old(self).model.input_mode,
            final(self).model.show_help == old(self).model.show_help,
            final(self).model.help_topic == old(self).model.help_topic,
            final(self).pending() == old(self).pending(),
    {
        if self.model.input_mode.keyboard_drive().is_some() {
            self.model.set_completions(Vec::new(), 0);
            return;
        }
        let input = self.model.command_input();
        let completions = suggestions_at_char(input.as_str(), self.model.cursor_char, &self.files);
        let selected = if self.model.selected_completion < completions.len() {
            self.model.selected_completion
        } else {
            0
        };
        self.model.set_completions(completions, selected);
    }

    /// Carry out a submitted command: queue the event it makes, open the
    /// help it asks for, ask for a chat prompt's expansion, or log why it
    /// was refused.
    pub fn execute_command(&mut self, command: &str) -> (effect: Option<ConsoleEffect>)
        requires
            old(self).wf(),
        ensures
            final(self).wf(),
            spec_executed(*old(self), *final(self), command@, effect),
    {
        match parse(command) {
            Ok(CommandAction::Emit(event)) => {
                self.queue_event(event);
                None
            },
            Ok(CommandAction::Local(LocalCommand::Help(topic))) => {
                self.model.set_help(true, topic);
                None
            },
            Ok(CommandAction::Chat(prompt)) => Some(ConsoleEffect::ExpandChat(prompt)),
            Err(error) => {
                let mut message = "command failed: ".to_string();
                push_str(&mut message, error.as_str());
                self.model.log(LogLevel::Error, message.as_str());
                None
            },
        }
    }

    /// Ask to copy the activity (all of it, or its last entry); when there
    /// is nothing but whitespace to copy, log a warning instead.
    pub fn copy_request(&mut self, last_only: bool) -> (effect: Option<ConsoleEffect>)
        requires
            old(self).wf(),
        ensures
            final(self).wf(),
            spec_copied(*old(self), *final(self), last_only, effect),
    {
        let text = if last_only {
            last_activity_plain_text(self.model.logs.as_slice())
        } else {
            Some(activity_plain_text(self.model.logs.as_slice()))
        };
        assert(self.model.logs@.map_values(|e: UiLogEntry| spec_activity_entry(e)) =~= self.model.log_entries().map_values(
            |e: LogView| spec_activity_line(e),
        ));
        match text {
            Some(t) => {
                let trimmed = trim_chars(str_to_chars(t.as_str()).as_slice());
                if trimmed.len() > 0 {
                    return Some(ConsoleEffect::Copy { text: t, last_only });
                }
            },
            None => {},
        }
        self.model.log(LogLevel::Warn, "activity is empty; nothing copied");
        None
    }

    /// Log how a copy went.
    pub fn copy_finished(&mut self, last_only: bool, result: Result<(), String>)
        requires
            old(self).wf(),
        ensures
            final(self).wf(),
            final(self).pending() == old(self).pending(),
            final(self).model.log_entries() == match result {
                Ok(()) => spec_log_after(
                    old(self).model.log_entries(),
                    MAX_LOG_MESSAGES as int,
                    old(self).model.log_level,
                    LogLevel::Info,
                    if last_only {
                        "copied last activity entry to clipboard"@
                    } else {
                        "copied activity log to clipboard"@
                    },
                ),
                Err(e) => spec_log_after(
                    old(self).model.log_entries(),
                    MAX_LOG_MESSAGES as int,
                    old(self).model.log_level,
                    LogLevel::Error,
                    "clipboard copy failed: "@ + e@,
                ),
            },
            final(self).model.input() == old(self).model.input(),
            final(self).model.input_mode == old(self).model.input_mode,
    {
        match result {
            Ok(()) => {
                if last_only {
                    self.model.log(LogLevel::Info, "copied last activity entry to clipboard");
                } else {
                    self.model.log(LogLevel::Info, "copied activity log to clipboard");
                }
            },
            Err(e) => {
                let mut message = "clipboard copy failed: ".to_string();
                push_str(&mut message, e.as_str());
                self.model.log(LogLevel::Error, message.as_str());
            },
        }
    }

    /// Apply the selected completion to the command line, when one is selected.
    pub fn apply_selected_completion(&mut self)
        requires
            old(self).wf(),
            old(self).model.selected_completion < old(self).model.completions@.len() ==> {
                let s = old(self).model.completions@[old(self).model.selected_completion as int];
                &&& s.start <= s.end <= old(self).model.input().len()
                &&& old(self).model.input().len() + s.replacement@.len() + 1 <= usize::MAX
            },
        ensures
            final(self).wf(),
            spec_completion_applied(*old(self), *final(self)),
    {
        if self.model.selected_completion < self.model.completions.len() {
            let mut input = self.model.command_input();
            let mut cursor = self.model.cursor_char;
            let ghost s = self.model.completions@[self.model.selected_completion as int]@;
            apply_suggestion_at_char(&mut input, &mut cursor, &self.model.completions[self.model.selected_completion]);
            proof {
                lemma_applied_cursor_within(old(self).model.input(), s);
            }
            self.model.set_command_input_at_char(input.as_str(), cursor);
        }
    }
}


/// Announced on entering keyboard drive mode.
pub const KEYBOARD_DRIVE_ACTIVE_MESSAGE: &'static str = "TUI keyboard drive active: w,a,s,d mode; press t for tank, Space to stop, Esc or q to exit";

/// Announced on leaving keyboard drive mode.
pub const KEYBOARD_DRIVE_EXITED_MESSAGE: &'static str = "TUI keyboard drive exited; command input restored";

/// A status warning as values.
pub open spec fn spec_status(message: Seq<char>) -> InputEventView {
    InputEventView::Warning(InputWarningView::Status(message))
}

/// The stop control as an event.
pub open spec fn spec_stop_event() -> InputEventView {
    InputEventView::Control(ControlState { drive: None })
}

/// Neither the input mode nor the queue changed.
pub open spec fn spec_drive_unchanged(before: Console, after: Console) -> bool {
    after.model.input_mode == before.model.input_mode && after.pending() == before.pending()
}

/// A drive key went down or up in state `s`: when it moves the axes of the
/// current style, the new state is taken and its control queued; otherwise
/// nothing changes.
pub open spec fn spec_drive_key_moved(before: Console, after: Console, s: KeyboardDriveState, key: char, is_down: bool) -> bool {
    let next = spec_apply_key(s, key, is_down);
    if crate::host::tui::model::spec_is_style_key(s.style, key) && crate::host::tui::model::spec_axes(next)
        != crate::host::tui::model::spec_axes(s) {
        after.model.input_mode == InputMode::KeyboardDrive(next) && after.pending() == before.pending().push(
            InputEventView::Control(spec_keyboard_control(next)),
        )
    } else {
        spec_drive_unchanged(before, after)
    }
}

/// Keyboard driving in state `s` ended: a moving drive stops, the console's
/// keyboard disconnects and the exit is announced.
pub open spec fn spec_drive_exited(before: Console, after: Console, s: KeyboardDriveState) -> bool {
    let stopped = if spec_keyboard_control(s).drive is Some {
        before.pending().push(spec_stop_event())
    } else {
        before.pending()
    };
    &&& after.model.input_mode is Command
    &&& after.pending() == stopped.push(InputEventView::ControllerDisconnected(spec_tui_keyboard_info())).push(
        spec_status(KEYBOARD_DRIVE_EXITED_MESSAGE@),
    )
}

/// The drive style in state `s` switched: a moving drive stops, the keys
/// are released, and the new style is announced.
pub open spec fn spec_drive_toggled(before: Console, after: Console, s: KeyboardDriveState) -> bool {
    let stopped = if spec_keyboard_control(s).drive is Some {
        before.pending().push(spec_stop_event())
    } else {
        before.pending()
    };
    &&& after.model.input_mode matches InputMode::KeyboardDrive(t) && t.style == spec_toggled_style(s.style) && spec_at_rest(t)
    &&& after.pending() == stopped.push(
        spec_status("TUI keyboard drive style switched to "@ + spec_drive_style_label(spec_toggled_style(s.style))@),
    )
}

/// What a key does while driving with the keyboard in state `s`: pressed,
/// Esc or `q` leaves, `t` switches style and any other character goes down;
/// released, a drive character goes up; other keys change nothing.
pub open spec fn spec_drive_key_handled(before: Console, after: Console, s: KeyboardDriveState, key: TermKey) -> bool {
    if key.kind != KeyEventKind::Release {
        match key.code {
            TermKeyCode::Esc => spec_drive_exited(before, after, s),
            TermKeyCode::Char(c) => if c == 'q' || c == 'Q' {
                spec_drive_exited(before, after, s)
            } else if crate::text::spec_to_ascii_lowercase(c) == 't' {
                spec_drive_toggled(before, after, s)
            } else {
                spec_drive_key_moved(before, after, s, crate::text::spec_to_ascii_lowercase(c), true)
            },
            _ => spec_drive_unchanged(before, after),
        }
    } else {
        match key.code {
            TermKeyCode::Char(c) => {
                let lower = crate::text::spec_to_ascii_lowercase(c);
                if lower == 'w' || lower == 'a' || lower == 's' || lower == 'd' || lower == 'e' || lower == ' ' {
                    spec_drive_key_moved(before, after, s, lower, false)
                } else {
                    spec_drive_unchanged(before, after)
                }
            },
            _ => spec_drive_unchanged(before, after),
        }
    }
}

impl Console {
    /// Start driving with the keyboard: the command line and help close,
    /// the console's keyboard connects, and the keys are announced. Nothing
    /// happens when already driving.
    pub fn enter_keyboard_drive_mode(&mut self)
        requires
            old(self).wf(),
        ensures
            final(self).wf(),
            old(self).model.input_mode is KeyboardDrive ==> final(self).model == old(self).model && final(self).pending()
                == old(self).pending(),
            old(self).model.input_mode is Command ==> {
                &&& final(self).model.input_mode matches InputMode::KeyboardDrive(s) && s.style
                    == crate::host::tui::model::KeyboardDriveStyle::Arcade && spec_at_rest(s)
                &&& final(self).model.input().len() == 0
                &&& final(self).model.cursor_at() == 0
                &&& !final(self).model.show_help
                &&& final(self).model.help_topic is None
                &&& final(self).model.log_entries() == old(self).model.log_entries()
                &&& final(self).pending() == old(self).pending().push(
                    InputEventView::ControllerConnected(spec_tui_keyboard_info()),
                ).push(spec_status(KEYBOARD_DRIVE_ACTIVE_MESSAGE@))
            },
    {
        if self.model.input_mode.keyboard_drive().is_some() {
            return;
        }
        self.model.set_input_mode(InputMode::KeyboardDrive(KeyboardDriveState::default()));
        self.model.set_command_input_at_char("", 0);
        proof {
            reveal_strlit("");
        }
        self.model.set_help(false, None);
        self.queue_event(InputEvent::ControllerConnected(tui_keyboard_controller_info()));
        self.queue_event(InputEvent::Warning(InputWarning::Status(KEYBOARD_DRIVE_ACTIVE_MESSAGE.to_string())));
    }

    /// Stop driving with the keyboard: a moving drive stops, the console's
    /// keyboard disconnects, and the command line is back. Nothing happens
    /// when not driving.
    pub fn exit_keyboard_drive_mode(&mut self)
        requires
            old(self).wf(),
        ensures
            final(self).wf(),
            old(self).model.input_mode is Command ==> final(self).model == old(self).model && final(self).pending()
                == old(self).pending(),
            old(self).model.input_mode matches InputMode::KeyboardDrive(s) ==> {
                let stopped = if spec_keyboard_control(s).drive is Some {
                    old(self).pending().push(spec_stop_event())
                } else {
                    old(self).pending()
                };
                &&& final(self).model.input_mode is Command
                &&& final(self).model.input() == old(self).model.input()
                &&& final(self).model.log_entries() == old(self).model.log_entries()
                &&& final(self).pending() == stopped.push(InputEventView::ControllerDisconnected(spec_tui_keyboard_info())).push(
                    spec_status(KEYBOARD_DRIVE_EXITED_MESSAGE@),
                )
            },
    {
        let state = match self.model.input_mode.keyboard_drive() {
            Some(s) => s,
            None => {
                return;
            },
        };
        if state.control_state().drive.is_some() {
            self.queue_event(InputEvent::Control(ControlState { drive: None }));
        }
        self.queue_event(InputEvent::ControllerDisconnected(tui_keyboard_controller_info()));
        self.queue_event(InputEvent::Warning(InputWarning::Status(KEYBOARD_DRIVE_EXITED_MESSAGE.to_string())));
        self.model.set_input_mode(InputMode::Command);
    }

    /// Switch the keyboard drive style: a moving drive stops, and the new
    /// style is announced. Nothing happens when not driving.
    pub fn toggle_keyboard_drive_style(&mut self)
        requires
            old(self).wf(),
        ensures
            final(self).wf(),
            old(self).model.input_mode is Command ==> final(self).model == old(self).model && final(self).pending()
                == old(self).pending(),
            old(self).model.input_mode matches InputMode::KeyboardDrive(s) ==> {
                let stopped = if spec_keyboard_control(s).drive is Some {
                    old(self).pending().push(spec_stop_event())
                } else {
                    old(self).pending()
                };
                &&& final(self).model.input_mode matches InputMode::KeyboardDrive(t) && t.style == spec_toggled_style(s.style)
                    && spec_at_rest(t)
                &&& final(self).model.input() == old(self).model.input()
                &&& final(self).model.log_entries() == old(self).model.log_entries()
                &&& final(self).pending() == stopped.push(
                    spec_status("TUI keyboard drive style switched to "@ + spec_drive_style_label(spec_toggled_style(s.style))@),
                )
            },
    {
        let mut state = match self.model.input_mode.keyboard_drive() {
            Some(s) => s,
            None => {
                return;
            },
        };
        let had_drive = state.control_state().drive.is_some();
        state.toggle_style();
        self.model.set_input_mode(InputMode::KeyboardDrive(state));
        if had_drive {
            self.queue_event(InputEvent::Control(ControlState { drive: None }));
        }
        let mut message = "TUI keyboard drive style switched to ".to_string();
        push_str(&mut message, state.style.as_str());
        self.queue_event(InputEvent::Warning(InputWarning::Status(message)));
    }

    /// A drive key went down (`is_down`) or up: when the drive changes, it
    /// is queued. Returns whether it changed.
    pub fn apply_keyboard_drive_key(&mut self, key: char, is_down: bool) -> (changed: bool)
        requires
            old(self).wf(),
        ensures
            final(self).wf(),
            old(self).model.input_mode is Command ==> !changed && final(self).model == old(self).model && final(
                self).pending() == old(self).pending(),
            old(self).model.input_mode matches InputMode::KeyboardDrive(s) ==> {
                let next = spec_apply_key(s, key, is_down);
                let moved = crate::host::tui::model::spec_is_style_key(s.style, key)
                    && crate::host::tui::model::spec_axes(next) != crate::host::tui::model::spec_axes(s);
                &&& changed == moved
                &&& moved ==> final(self).model.input_mode == InputMode::KeyboardDrive(next) && final(self).pending()
                    == old(self).pending().push(InputEventView::Control(spec_keyboard_control(next)))
                &&& !moved ==> final(self).model == old(self).model && final(self).pending() == old(self).pending()
                &&& final(self).model.input() == old(self).model.input()
                &&& final(self).model.log_entries() == old(self).model.log_entries()
            },
    {
        let mut state = match self.model.input_mode.keyboard_drive() {
            Some(s) => s,
            None => {
                return false;
            },
        };
        let moved = if is_down {
            state.apply_key_down(key)
        } else {
            state.apply_key_up(key)
        };
        if !moved {
            return false;
        }
        let control = state.control_state();
        self.model.set_input_mode(InputMode::KeyboardDrive(state));
        self.queue_event(InputEvent::Control(control));
        true
    }

    /// Handle a key in keyboard drive mode: Esc or `q` leaves, `t` switches
    /// style, other characters drive as they go down or up; after a change
    /// the completions are refreshed.
    fn keyboard_drive_key(&mut self, key: TermKey)
        requires
            old(self).wf(),
            old(self).model.input_mode is KeyboardDrive,
        ensures
            final(self).wf(),
            final(self).model.input() == old(self).model.input(),
            final(self).model.log_entries() == old(self).model.log_entries(),
            old(self).model.input_mode matches InputMode::KeyboardDrive(s) ==> spec_drive_key_handled(
                *old(self),
                *final(self),
                s,
                key,
            ),
    {
        let mut changed = false;
        if key.kind != KeyEventKind::Release {
            match key.code {
                TermKeyCode::Esc => {
                    self.exit_keyboard_drive_mode();
                    changed = true;
                },
                TermKeyCode::Char(c) => {
                    let lower = crate::text::to_ascii_lowercase(c);
                    if c == 'q' || c == 'Q' {
                        self.exit_keyboard_drive_mode();
                        changed = true;
                    } else if lower == 't' {
                        self.toggle_keyboard_drive_style();
                        changed = true;
                    } else {
                        changed = self.apply_keyboard_drive_key(lower, true);
                    }
                },
                _ => {},
            }
        } else {
            match key.code {
                TermKeyCode::Char(c) => {
                    let lower = crate::text::to_ascii_lowercase(c);
                    if lower == 'w' || lower == 'a' || lower == 's' || lower == 'd' || lower == 'e' || lower == ' ' {
                        changed = self.apply_keyboard_drive_key(lower, false);
                    }
                },
                _ => {},
            }
        }
        if changed {
            self.refresh_completions();
        }
    }

    /// Handle a terminal key: control with `c` or `x` queues a quit; in
    /// keyboard drive mode the key drives; otherwise a pressed key becomes
    /// the console message it stands for (F1 also clears the help topic),
    /// which the caller then dispatches.
    pub fn handle_key(&mut self, key: TermKey) -> (message: Option<Message>)
        requires
            old(self).wf(),
        ensures
            final(self).wf(),
            spec_is_quit_key(key) ==> message is None && final(self).pending() == old(self).pending().push(
                InputEventView::Command(BrainCommandView::Quit),
            ) && final(self).model == old(self).model,
            !spec_is_quit_key(key) && old(self).model.input_mode is KeyboardDrive ==> message is None,
            !spec_is_quit_key(key) && old(self).model.input_mode is Command ==> {
                &&& final(self).pending() == old(self).pending()
                &&& message == if key.kind == KeyEventKind::Release {
                    None
                } else {
                    spec_key_message(key)
                }
                &&& (key.kind != KeyEventKind::Release && key.code == TermKeyCode::F(1)) ==> final(self).model.help_topic is None
                &&& final(self).model.input() == old(self).model.input()
                &&& final(self).model.log_entries() == old(self).model.log_entries()
            },
    {
        let is_quit_char = match key.code {
            TermKeyCode::Char(c) => c == 'c' || c == 'C' || c == 'x' || c == 'X',
            _ => false,
        };
        if key.control && is_quit_char && key.kind != KeyEventKind::Release {
            self.queue_event(InputEvent::Command(BrainCommand::Quit));
            return None;
        }
        if self.model.input_mode.keyboard_drive().is_some() {
            self.keyboard_drive_key(key);
            return None;
        }
        if key.kind == KeyEventKind::Release {
            return None;
        }
        match key.code {
            TermKeyCode::Enter => Some(Message::SubmitInput),
            TermKeyCode::Backspace => Some(Message::Backspace),
            TermKeyCode::Delete => Some(Message::DeleteForward),
            TermKeyCode::Left => Some(Message::MoveCursorLeft),
            TermKeyCode::Right => Some(Message::MoveCursorRight),
            TermKeyCode::Home => Some(Message::MoveCursorStart),
            TermKeyCode::End => Some(Message::MoveCursorEnd),
            TermKeyCode::Tab => Some(Message::ApplySelectedCompletion),
            TermKeyCode::BackTab => Some(Message::SelectPreviousCompletion),
            TermKeyCode::Up => Some(Message::SelectPreviousCompletion),
            TermKeyCode::Down => Some(Message::SelectNextCompletion),
            TermKeyCode::Esc => Some(Message::ShowHelp(false)),
            TermKeyCode::F(n) => if n == 1 {
                let show = self.model.show_help;
                self.model.set_help(show, None);
                Some(Message::ShowHelp(true))
            } else {
                None
            },
            TermKeyCode::Char(c) => if !key.control && !key.alt {
                Some(Message::InsertChar(c))
            } else {
                None
            },
            TermKeyCode::Other => None,
        }
    }

    /// What an action of the update asks the console for: run a submitted
    /// command, apply the selected completion, or copy the activity.
    pub fn handle_action(&mut self, action: Action) -> (effect: Option<ConsoleEffect>)
        requires
            old(self).wf(),
            action is ApplySelectedCompletion && old(self).model.selected_completion < old(self).model.completions@.len() ==> {
                let s = old(self).model.completions@[old(self).model.selected_completion as int];
                &&& s.start <= s.end <= old(self).model.input().len()
                &&& old(self).model.input().len() + s.replacement@.len() + 1 <= usize::MAX
            },
        ensures
            final(self).wf(),
            match action {
                Action::Continue => effect is None && final(self).model == old(self).model && final(self).pending()
                    == old(self).pending(),
                Action::ExecuteCommand(command) => spec_executed(*old(self), *final(self), command@, effect),
                Action::ApplySelectedCompletion => effect is None && spec_completion_applied(*old(self), *final(self)),
                Action::CopyAllActivity => spec_copied(*old(self), *final(self), false, effect),
                Action::CopyLastActivity => spec_copied(*old(self), *final(self), true, effect),
            },
    {
        match action {
            Action::Continue => None,
            Action::ExecuteCommand(command) => self.execute_command(command.as_str()),
            Action::ApplySelectedCompletion => {
                self.apply_selected_completion();
                None
            },
            Action::CopyAllActivity => self.copy_request(false),
            Action::CopyLastActivity => self.copy_request(true),
        }
    }

    /// What an event from the controllers changes in the console: a
    /// connection or disconnection is recorded.
    pub fn external_event_message(event: &InputEvent) -> (message: Option<Message>)
        ensures
            match event {
                InputEvent::ControllerConnected(c) => message matches Some(Message::ControllerConnected(d)) && d@ == c@,
                InputEvent::ControllerDisconnected(c) => message matches Some(Message::ControllerDisconnected(d)) && d@
                    == c@,
                _ => message is None,
            },
    {
        match event {
            InputEvent::ControllerConnected(c) => Some(Message::ControllerConnected(c.duplicate())),
            InputEvent::ControllerDisconnected(c) => Some(Message::ControllerDisconnected(c.duplicate())),
            _ => None,
        }
    }
}

} // verus!
