//! The console command language: `/help`, `/quit`, `/ping`, `/stop`,
//! `/mode`, `/servo`, `/drive` and `/chat`, with bare input taken as chat.

use vstd::prelude::*;

use crate::host::brain::{BrainCommand, BrainCommandView};
use crate::host::config::{join_strings, spec_join, spec_views};
use crate::host::input::{AXIS_MAX, ControlState, DriveIntent, InputEvent, InputEventView};
use crate::host::ui::{spec_words, split_whitespace};
use crate::text::{
    IntErrorKind, chars_eq, chars_to_string, int_error_message, lowercase_chars, parse_i16, parse_u16, push_chars,
    push_str, spec_contains, spec_int_error_message, spec_lowercase, spec_parse_int, spec_trim, str_to_chars, trim_chars,
};
use crate::units::Mode;

verus! {

/// Drive speed of `/drive` requests that name none.
pub const DEFAULT_DRIVE_SPEED: u16 = 300;

/// One console command: its name, usage line, summary and detail lines.
#[derive(Clone, Debug, PartialEq, Eq)]
pub struct CommandSpec {
    pub name: &'static str,
    pub usage: &'static str,
    pub summary: &'static str,
    pub details: Vec<&'static str>,
}

/// A command description as values.
pub struct CommandSpecView {
    pub name: Seq<char>,
    pub usage: Seq<char>,
    pub summary: Seq<char>,
    pub details: Seq<Seq<char>>,
}

impl View for CommandSpec {
    type V = CommandSpecView;

    open spec fn view(&self) -> CommandSpecView {
        CommandSpecView {
            name: self.name@,
            usage: self.usage@,
            summary: self.summary@,
            details: self.details@.map_values(|d: &'static str| d@),
        }
    }
}

/// A command description from its parts.
pub open spec fn spec_entry(name: &'static str, usage: &'static str, summary: &'static str, details: Seq<&'static str>) -> CommandSpecView {
    CommandSpecView {
        name: name@,
        usage: usage@,
        summary: summary@,
        details: details.map_values(|d: &'static str| d@),
    }
}

/// Every console command, in reference order.
pub open spec fn spec_command_table() -> Seq<CommandSpecView> {
    seq![
        spec_entry("help", "/help [command]", "Show the full command reference.", seq![
            "Use `/help` to open the general command reference.",
            "Use `/help <command>` to show detailed help for a single command.",
            "Examples: `/help mode`, `/help drive`.",
        ]),
        spec_entry("quit", "/quit", "Exit the brain loop.", seq![
            "Exit the mortimmy TUI and stop the brain loop.",
            "Keyboard shortcut: Ctrl+X or Ctrl+C.",
        ]),
        spec_entry("ping", "/ping", "Send a ping and wait for pong telemetry.", seq![
            "Send a ping to the transport and wait for the matching pong telemetry.",
            "Useful when checking whether the controller link is alive.",
        ]),
        spec_entry("stop", "/stop", "Stop all motion and reset to the default mode.", seq![
            "Stop drive motion, clear active control, and reset the desired mode to the default teleop state.",
            "Useful as an immediate soft stop while staying in the TUI session.",
        ]),
        spec_entry("mode", "/mode <teleop|autonomous|fault>", "Switch the robot operating mode.", seq![
            "`teleop` enables manual drive control.",
            "`autonomous` hands motion over to the autonomy runner.",
            "`fault` commands a safe stopped state.",
            "Examples: `/mode teleop`, `/mode autonomous`, `/mode fault`.",
        ]),
        spec_entry("servo", "/servo <pan> <tilt>", "Move the pan and tilt servos to raw tick values.", seq![
            "Set the raw pan and tilt servo positions in ticks.",
            "Use this when you want explicit camera/head positioning rather than drive motion.",
            "Example: `/servo 1200 900`.",
        ]),
        spec_entry("drive", "/drive <forward|backward|left|right|stop|<forward> <turn> [speed]>", "Set local teleop drive intent with direction keywords or raw axes.", seq![
            "Directional shortcuts: `forward`, `backward`, `left`, `right`, `stop`.",
            "Raw axis form: `/drive <forward> <turn> [speed]` where forward and turn are between -32767 and 32767.",
            "Examples: `/drive forward`, `/drive right 450`, `/drive 12000 -8000 300`.",
        ]),
        spec_entry("chat", "/chat <prompt with optional @file references>", "Send a chat request through nexo. @file expands file contents into the prompt.", seq![
            "Send a prompt to the nexo gateway in the background; replies appear in Activity when they arrive.",
            "Bare input without `/` is treated as `/chat <prompt>`.",
            "Use `@filename` to inline workspace file contents into the prompt.",
            "Example: `/chat summarize @README.md`.",
        ]),
    ]
}

fn entry(name: &'static str, usage: &'static str, summary: &'static str, details: Vec<&'static str>) -> (spec: CommandSpec)
    ensures
        spec@ == spec_entry(name, usage, summary, details@),
{
    CommandSpec { name, usage, summary, details }
}

/// Every console command, in reference order.
pub fn command_specs() -> (specs: Vec<CommandSpec>)
    ensures
        specs@.map_values(|s: CommandSpec| s@) == spec_command_table(),
{
    let mut specs: Vec<CommandSpec> = Vec::new();
    specs.push(entry("help", "/help [command]", "Show the full command reference.", vec![
        "Use `/help` to open the general command reference.",
        "Use `/help <command>` to show detailed help for a single command.",
        "Examples: `/help mode`, `/help drive`.",
    ]));
    specs.push(entry("quit", "/quit", "Exit the brain loop.", vec![
        "Exit the mortimmy TUI and stop the brain loop.",
        "Keyboard shortcut: Ctrl+X or Ctrl+C.",
    ]));
    specs.push(entry("ping", "/ping", "Send a ping and wait for pong telemetry.", vec![
        "Send a ping to the transport and wait for the matching pong telemetry.",
        "Useful when checking whether the controller link is alive.",
    ]));
    specs.push(entry("stop", "/stop", "Stop all motion and reset to the default mode.", vec![
        "Stop drive motion, clear active control, and reset the desired mode to the default teleop state.",
        "Useful as an immediate soft stop while staying in the TUI session.",
    ]));
    specs.push(entry("mode", "/mode <teleop|autonomous|fault>", "Switch the robot operating mode.", vec![
        "`teleop` enables manual drive control.",
        "`autonomous` hands motion over to the autonomy runner.",
        "`fault` commands a safe stopped state.",
        "Examples: `/mode teleop`, `/mode autonomous`, `/mode fault`.",
    ]));
    specs.push(entry("servo", "/servo <pan> <tilt>", "Move the pan and tilt servos to raw tick values.", vec![
        "Set the raw pan and tilt servo positions in ticks.",
        "Use this when you want explicit camera/head positioning rather than drive motion.",
        "Example: `/servo 1200 900`.",
    ]));
    specs.push(entry("drive", "/drive <forward|backward|left|right|stop|<forward> <turn> [speed]>", "Set local teleop drive intent with direction keywords or raw axes.", vec![
        "Directional shortcuts: `forward`, `backward`, `left`, `right`, `stop`.",
        "Raw axis form: `/drive <forward> <turn> [speed]` where forward and turn are between -32767 and 32767.",
        "Examples: `/drive forward`, `/drive right 450`, `/drive 12000 -8000 300`.",
    ]));
    specs.push(entry("chat", "/chat <prompt with optional @file references>", "Send a chat request through nexo. @file expands file contents into the prompt.", vec![
        "Send a prompt to the nexo gateway in the background; replies appear in Activity when they arrive.",
        "Bare input without `/` is treated as `/chat <prompt>`.",
        "Use `@filename` to inline workspace file contents into the prompt.",
        "Example: `/chat summarize @README.md`.",
    ]));
    assert(specs@.map_values(|s: CommandSpec| s@) =~= spec_command_table());
    specs
}

/// `s` without the copies of `ch` it starts with.
pub open spec fn spec_strip_leading(s: Seq<char>, ch: char) -> Seq<char>
    decreases s.len(),
{
    if s.len() > 0 && s[0] == ch {
        spec_strip_leading(s.drop_first(), ch)
    } else {
        s
    }
}

/// `s` without its leading slashes.
pub open spec fn spec_strip_slashes(s: Seq<char>) -> Seq<char> {
    spec_strip_leading(s, '/')
}

/// Drop the copies of `ch` that `s` starts with.
pub fn strip_leading(s: &[char], ch: char) -> (out: Vec<char>)
    ensures
        out@ == spec_strip_leading(s@, ch),
{
    let mut i: usize = 0;
    assert(s@.skip(0) =~= s@);
    while i < s.len() && s[i] == ch
        invariant
            i <= s@.len(),
            spec_strip_leading(s@, ch) == spec_strip_leading(s@.skip(i as int), ch),
        decreases s@.len() - i,
    {
        assert(s@.skip(i as int).drop_first() =~= s@.skip(i + 1));
        i += 1;
    }
    let out = crate::host::ui::chars_range(s, i, s.len());
    assert(out@ =~= s@.skip(i as int));
    out
}

/// Drop the leading slashes of `s`.
pub fn strip_slashes(s: &[char]) -> (out: Vec<char>)
    ensures
        out@ == spec_strip_slashes(s@),
{
    strip_leading(s, '/')
}

/// Index of the first command whose name equals `name` ignoring ASCII case
/// and leading slashes.
pub open spec fn spec_find_command(name: Seq<char>) -> Option<int> {
    let q = spec_lowercase(spec_strip_slashes(name));
    let t = spec_command_table();
    if exists|i: int| 0 <= i < t.len() && #[trigger] spec_lowercase(t[i].name) == q {
        Some(choose|i: int| 0 <= i < t.len() && spec_lowercase(t[i].name) == q && forall|k: int| 0 <= k < i ==> #[trigger] spec_lowercase(t[k].name) != q)
    } else {
        None
    }
}

proof fn lemma_find_command(name: Seq<char>, i: int)
    requires
        0 <= i < spec_command_table().len(),
        spec_lowercase(spec_command_table()[i].name) == spec_lowercase(spec_strip_slashes(name)),
        forall|k: int| 0 <= k < i ==> #[trigger] spec_lowercase(spec_command_table()[k].name) != spec_lowercase(spec_strip_slashes(name)),
    ensures
        spec_find_command(name) == Some(i),
{
    let q = spec_lowercase(spec_strip_slashes(name));
    let t = spec_command_table();
    let c = choose|c: int| 0 <= c < t.len() && spec_lowercase(t[c].name) == q && forall|k: int| 0 <= k < c ==> #[trigger] spec_lowercase(t[k].name) != q;
    assert(0 <= c < t.len() && spec_lowercase(t[c].name) == q && forall|k: int| 0 <= k < c ==> #[trigger] spec_lowercase(t[k].name) != q);
    if c < i {
        assert(spec_lowercase(t[c].name) != q);
    }
    if c > i {
        assert(spec_lowercase(t[i].name) != q);
    }
}

/// The command named `name` (ignoring ASCII case and leading slashes), if any.
pub fn command_spec(name: &str) -> (spec: Option<CommandSpec>)
    ensures
        match spec_find_command(name@) {
            Some(i) => spec matches Some(s) && s@ == spec_command_table()[i],
            None => spec is None,
        },
{
    let raw = str_to_chars(name);
    let stripped = strip_slashes(raw.as_slice());
    let q = lowercase_chars(stripped.as_slice());
    let mut specs = command_specs();
    let ghost t = spec_command_table();
    let mut i: usize = 0;
    while i < specs.len()
        invariant
            i <= specs@.len(),
            specs@.map_values(|s: CommandSpec| s@) == t,
            t == spec_command_table(),
            q@ == spec_lowercase(spec_strip_slashes(name@)),
            forall|k: int| 0 <= k < i ==> #[trigger] spec_lowercase(t[k].name) != q@,
        decreases specs@.len() - i,
    {
        let candidate = str_to_chars(specs[i].name);
        let lowered = lowercase_chars(candidate.as_slice());
        assert(specs@[i as int]@ == t[i as int]);
        if chars_eq(lowered.as_slice(), q.as_slice()) {
            proof {
                lemma_find_command(name@, i as int);
            }
            return Some(specs.remove(i));
        }
        i += 1;
    }
    None
}

/// The accepted `/mode` values.
pub fn mode_names() -> (names: Vec<&'static str>)
    ensures
        names@ == seq!["teleop", "autonomous", "fault"],
{
    vec!["teleop", "autonomous", "fault"]
}

/// The `/drive` keywords.
pub fn drive_keywords() -> (keywords: Vec<&'static str>)
    ensures
        keywords@ == seq!["forward", "backward", "left", "right", "stop"],
{
    vec!["forward", "backward", "left", "right", "stop"]
}

/// A drive request of forward and turn axes at a speed: none when both axes are zero.
pub open spec fn spec_directional(forward: i16, turn: i16, speed: u16) -> ControlState {
    if forward == 0 && turn == 0 {
        ControlState { drive: None }
    } else {
        ControlState { drive: Some(DriveIntent { forward, turn, speed }) }
    }
}

/// Return the drive request of forward and turn axes at a speed.
pub fn directional_drive(forward: i16, turn: i16, speed: u16) -> (control: ControlState)
    ensures
        control == spec_directional(forward, turn, speed),
{
    if forward == 0 && turn == 0 {
        ControlState { drive: None }
    } else {
        ControlState { drive: Some(DriveIntent { forward, turn, speed }) }
    }
}

/// A drive axis: an `i16` within full scale.
pub open spec fn spec_parse_axis(value: Seq<char>) -> Result<i16, Seq<char>> {
    match spec_parse_int(value, true, -32_768, 32_767) {
        Err(e) => Err(spec_int_error_message(e)@),
        Ok(v) => if -1000 <= v <= 1000 {
            Ok(v as i16)
        } else {
            Err("drive axis must be between -1000 and 1000"@)
        },
    }
}

/// Parse a drive axis.
pub fn parse_axis(value: &[char]) -> (result: Result<i16, String>)
    ensures
        match result {
            Ok(v) => spec_parse_axis(value@) == Ok::<i16, Seq<char>>(v),
            Err(m) => spec_parse_axis(value@) == Err::<i16, Seq<char>>(m@),
        },
{
    match parse_i16(value) {
        Err(e) => Err(int_error_message(e).to_string()),
        Ok(axis) => if -AXIS_MAX <= axis && axis <= AXIS_MAX {
            Ok(axis)
        } else {
            Err("drive axis must be between -1000 and 1000".to_string())
        },
    }
}

/// A `u16` field, with the parse error's message.
pub open spec fn spec_parse_u16_field(value: Seq<char>) -> Result<u16, Seq<char>> {
    match spec_parse_int(value, false, 0, 65_535) {
        Err(e) => Err(spec_int_error_message(e)@),
        Ok(v) => Ok(v as u16),
    }
}

fn parse_u16_field(value: &[char]) -> (result: Result<u16, String>)
    ensures
        match result {
            Ok(v) => spec_parse_u16_field(value@) == Ok::<u16, Seq<char>>(v),
            Err(m) => spec_parse_u16_field(value@) == Err::<u16, Seq<char>>(m@),
        },
{
    match parse_u16(value) {
        Err(e) => Err(int_error_message(e).to_string()),
        Ok(v) => Ok(v),
    }
}

/// What a local command does in the console itself.
#[derive(Clone, Debug, PartialEq, Eq)]
pub enum LocalCommand {
    /// Show the help, for one command when named.
    Help(Option<String>),
}

/// What a command line amounts to.
#[derive(Clone, Debug, PartialEq, Eq)]
pub enum CommandAction {
    /// An input event for the brain.
    Emit(InputEvent),
    /// A change of the console itself.
    Local(LocalCommand),
    /// A chat prompt whose `@file` references are still to be expanded.
    Chat(String),
}

/// A command action as values.
pub enum ActionView {
    Emit(InputEventView),
    Help(Option<Seq<char>>),
    Chat(Seq<char>),
}

impl View for CommandAction {
    type V = ActionView;

    open spec fn view(&self) -> ActionView {
        match self {
            CommandAction::Emit(e) => ActionView::Emit(e@),
            CommandAction::Local(LocalCommand::Help(topic)) => ActionView::Help(
                match topic {
                    Some(t) => Some(t@),
                    None => None,
                },
            ),
            CommandAction::Chat(p) => ActionView::Chat(p@),
        }
    }
}

/// Number of non-whitespace characters at the start of `s`.
pub open spec fn spec_head_len(s: Seq<char>) -> nat
    decreases s.len(),
{
    if s.len() > 0 && !crate::text::spec_is_whitespace(s[0]) {
        1 + spec_head_len(s.drop_first())
    } else {
        0
    }
}

/// `body` split at its first whitespace character: the command name, and
/// the trimmed rest after that character.
pub open spec fn spec_split_command(body: Seq<char>) -> (Seq<char>, Seq<char>) {
    let k = spec_head_len(body) as int;
    if k < body.len() {
        (body.take(k), spec_trim(body.skip(k + 1)))
    } else {
        (body, Seq::empty())
    }
}

/// A brain command event.
pub open spec fn spec_emit(c: BrainCommandView) -> ActionView {
    ActionView::Emit(InputEventView::Command(c))
}

/// The outcome of `/help <rest>`.
pub open spec fn spec_parse_help(rest: Seq<char>) -> Result<ActionView, Seq<char>> {
    let words = spec_words(rest);
    if words.len() == 0 {
        Ok(ActionView::Help(None))
    } else if words.len() > 1 {
        Err("usage: /help [command]"@)
    } else {
        match spec_find_command(words[0]) {
            Some(i) => Ok(ActionView::Help(Some(spec_command_table()[i].name))),
            None => Err("unknown command `"@ + words[0] + "`; try /help"@),
        }
    }
}

/// The outcome of `/mode <rest>`: the value must be exactly a mode name.
pub open spec fn spec_parse_mode(rest: Seq<char>) -> Result<ActionView, Seq<char>> {
    if rest == "teleop"@ {
        Ok(spec_emit(BrainCommandView::SetMode(Mode::Teleop)))
    } else if rest == "autonomous"@ {
        Ok(spec_emit(BrainCommandView::SetMode(Mode::Autonomous)))
    } else if rest == "fault"@ {
        Ok(spec_emit(BrainCommandView::SetMode(Mode::Fault)))
    } else {
        Err("usage: /mode <teleop|autonomous|fault>"@)
    }
}

/// The outcome of `/servo <rest>`: a pan and a tilt tick count.
pub open spec fn spec_parse_servo(rest: Seq<char>) -> Result<ActionView, Seq<char>> {
    let words = spec_words(rest);
    let usage = "usage: /servo <pan> <tilt>"@;
    if words.len() == 0 {
        Err(usage)
    } else {
        match spec_parse_u16_field(words[0]) {
            Err(m) => Err(m),
            Ok(pan) => if words.len() == 1 {
                Err(usage)
            } else {
                match spec_parse_u16_field(words[1]) {
                    Err(m) => Err(m),
                    Ok(tilt) => if words.len() > 2 {
                        Err(usage)
                    } else {
                        Ok(spec_emit(BrainCommandView::Servo { pan, tilt }))
                    },
                }
            },
        }
    }
}

/// The direction a drive keyword names, as forward and turn axes.
pub open spec fn spec_keyword_axes(word: Seq<char>) -> Option<(i16, i16)> {
    if word == "forward"@ {
        Some((1000i16, 0i16))
    } else if word == "backward"@ {
        Some((-1000i16, 0i16))
    } else if word == "left"@ {
        Some((0i16, -1000i16))
    } else if word == "right"@ {
        Some((0i16, 1000i16))
    } else {
        None
    }
}

/// A drive control event.
pub open spec fn spec_control_action(c: ControlState) -> ActionView {
    ActionView::Emit(InputEventView::Control(c))
}

/// The outcome of `/drive <rest>`: `stop`, a keyword with an optional
/// speed, or raw forward and turn axes with an optional speed.
pub open spec fn spec_parse_drive(rest: Seq<char>) -> Result<ActionView, Seq<char>> {
    let w = spec_words(rest);
    let usage = "usage: /drive <forward|backward|left|right|stop|<forward> <turn> [speed]>"@;
    if w.len() == 1 && w[0] == "stop"@ {
        Ok(spec_control_action(ControlState { drive: None }))
    } else if w.len() == 1 && spec_keyword_axes(w[0]) is Some {
        let (f, t) = spec_keyword_axes(w[0])->0;
        Ok(spec_control_action(spec_directional(f, t, DEFAULT_DRIVE_SPEED)))
    } else if w.len() == 2 && spec_keyword_axes(w[0]) is Some {
        let (f, t) = spec_keyword_axes(w[0])->0;
        match spec_parse_u16_field(w[1]) {
            Err(m) => Err(m),
            Ok(speed) => Ok(spec_control_action(spec_directional(f, t, speed))),
        }
    } else if w.len() == 2 || w.len() == 3 {
        match spec_parse_axis(w[0]) {
            Err(m) => Err(m),
            Ok(f) => match spec_parse_axis(w[1]) {
                Err(m) => Err(m),
                Ok(t) => if w.len() == 2 {
                    Ok(spec_control_action(spec_directional(f, t, DEFAULT_DRIVE_SPEED)))
                } else {
                    match spec_parse_u16_field(w[2]) {
                        Err(m) => Err(m),
                        Ok(speed) => Ok(spec_control_action(spec_directional(f, t, speed))),
                    }
                },
            },
        }
    } else {
        Err(usage)
    }
}

/// The outcome of a chat prompt.
pub open spec fn spec_parse_chat(rest: Seq<char>) -> Result<ActionView, Seq<char>> {
    if rest.len() == 0 {
        Err("usage: /chat <prompt>"@)
    } else {
        Ok(ActionView::Chat(rest))
    }
}

/// The outcome of a command line.
pub open spec fn spec_parse(input: Seq<char>) -> Result<ActionView, Seq<char>> {
    let trimmed = spec_trim(input);
    if trimmed.len() == 0 {
        Err("command input is empty"@)
    } else if trimmed[0] != '/' {
        spec_parse_chat(trimmed)
    } else {
        let (name, rest) = spec_split_command(spec_strip_slashes(trimmed));
        let lower = spec_lowercase(name);
        if lower == "help"@ {
            spec_parse_help(rest)
        } else if lower == "quit"@ {
            Ok(spec_emit(BrainCommandView::Quit))
        } else if lower == "ping"@ {
            Ok(spec_emit(BrainCommandView::Ping))
        } else if lower == "stop"@ {
            Ok(spec_emit(BrainCommandView::Stop))
        } else if lower == "mode"@ {
            spec_parse_mode(rest)
        } else if lower == "servo"@ {
            spec_parse_servo(rest)
        } else if lower == "drive"@ {
            spec_parse_drive(rest)
        } else if lower == "chat"@ {
            spec_parse_chat(rest)
        } else {
            Err("unknown command `/"@ + lower + "`; try /help"@)
        }
    }
}


proof fn lemma_head_len(s: Seq<char>, i: int)
    requires
        0 <= i <= s.len(),
        forall|k: int| 0 <= k < i ==> !crate::text::spec_is_whitespace(#[trigger] s[k]),
        i == s.len() || crate::text::spec_is_whitespace(s[i]),
    ensures
        spec_head_len(s) == i,
    decreases i,
{
    if i > 0 {
        let t = s.drop_first();
        assert forall|k: int| 0 <= k < i - 1 implies !crate::text::spec_is_whitespace(#[trigger] t[k]) by {
            assert(t[k] == s[k + 1]);
        }
        lemma_head_len(t, i - 1);
    }
}

/// Split a command body into its name and trimmed rest.
fn split_command(body: &[char]) -> (parts: (Vec<char>, Vec<char>))
    ensures
        (parts.0@, parts.1@) == spec_split_command(body@),
{
    let mut k: usize = 0;
    while k < body.len() && !crate::text::is_whitespace(body[k])
        invariant
            k <= body@.len(),
            forall|j: int| 0 <= j < k ==> !crate::text::spec_is_whitespace(#[trigger] body@[j]),
        decreases body@.len() - k,
    {
        k += 1;
    }
    proof {
        lemma_head_len(body@, k as int);
    }
    if k < body.len() {
        let name = crate::host::ui::chars_range(body, 0, k);
        let tail = crate::host::ui::chars_range(body, k + 1, body.len());
        let rest = trim_chars(tail.as_slice());
        assert(name@ =~= body@.take(k as int));
        assert(tail@ =~= body@.skip(k + 1));
        (name, rest)
    } else {
        let name = crate::host::ui::chars_range(body, 0, body.len());
        assert(name@ =~= body@);
        (name, Vec::new())
    }
}

/// Whether `chars` spell `word`.
fn is_word(chars: &[char], word: &str) -> (r: bool)
    ensures
        r == (chars@ == word@),
{
    let w = str_to_chars(word);
    chars_eq(chars, w.as_slice())
}

fn emit(command: BrainCommand) -> (action: CommandAction)
    ensures
        action@ == spec_emit(command@),
{
    CommandAction::Emit(InputEvent::Command(command))
}

fn control_action(control: ControlState) -> (action: CommandAction)
    ensures
        action@ == spec_control_action(control),
{
    CommandAction::Emit(InputEvent::Control(control))
}

/// Chars of a string, as a vector.
fn word_chars(s: &String) -> (chars: Vec<char>)
    ensures
        chars@ == s@,
{
    str_to_chars(s.as_str())
}

fn parse_help(rest: &[char]) -> (result: Result<CommandAction, String>)
    ensures
        match result {
            Ok(a) => spec_parse_help(rest@) == Ok::<ActionView, Seq<char>>(a@),
            Err(m) => spec_parse_help(rest@) == Err::<ActionView, Seq<char>>(m@),
        },
{
    let words = split_whitespace(rest);
    let ghost w = spec_words(rest@);
    if words.len() == 0 {
        return Ok(CommandAction::Local(LocalCommand::Help(None)));
    }
    if words.len() > 1 {
        return Err("usage: /help [command]".to_string());
    }
    assert(words@[0]@ == w[0]);
    match command_spec(words[0].as_str()) {
        Some(spec) => Ok(CommandAction::Local(LocalCommand::Help(Some(spec.name.to_string())))),
        None => {
            let mut message = String::new();
            push_str(&mut message, "unknown command `");
            push_str(&mut message, words[0].as_str());
            push_str(&mut message, "`; try /help");
            Err(message)
        },
    }
}

fn parse_mode(rest: &[char]) -> (result: Result<CommandAction, String>)
    ensures
        match result {
            Ok(a) => spec_parse_mode(rest@) == Ok::<ActionView, Seq<char>>(a@),
            Err(m) => spec_parse_mode(rest@) == Err::<ActionView, Seq<char>>(m@),
        },
{
    if is_word(rest, "teleop") {
        Ok(emit(BrainCommand::SetMode(Mode::Teleop)))
    } else if is_word(rest, "autonomous") {
        Ok(emit(BrainCommand::SetMode(Mode::Autonomous)))
    } else if is_word(rest, "fault") {
        Ok(emit(BrainCommand::SetMode(Mode::Fault)))
    } else {
        Err("usage: /mode <teleop|autonomous|fault>".to_string())
    }
}

fn parse_servo(rest: &[char]) -> (result: Result<CommandAction, String>)
    ensures
        match result {
            Ok(a) => spec_parse_servo(rest@) == Ok::<ActionView, Seq<char>>(a@),
            Err(m) => spec_parse_servo(rest@) == Err::<ActionView, Seq<char>>(m@),
        },
{
    let words = split_whitespace(rest);
    let ghost w = spec_words(rest@);
    if words.len() == 0 {
        return Err("usage: /servo <pan> <tilt>".to_string());
    }
    let first = word_chars(&words[0]);
    assert(first@ == w[0]);
    let pan = match parse_u16_field(first.as_slice()) {
        Ok(v) => v,
        Err(m) => {
            return Err(m);
        },
    };
    if words.len() == 1 {
        return Err("usage: /servo <pan> <tilt>".to_string());
    }
    let second = word_chars(&words[1]);
    assert(second@ == w[1]);
    let tilt = match parse_u16_field(second.as_slice()) {
        Ok(v) => v,
        Err(m) => {
            return Err(m);
        },
    };
    if words.len() > 2 {
        return Err("usage: /servo <pan> <tilt>".to_string());
    }
    Ok(emit(BrainCommand::Servo { pan, tilt }))
}

/// The axes of a drive keyword.
fn keyword_axes(word: &[char]) -> (axes: Option<(i16, i16)>)
    ensures
        axes == spec_keyword_axes(word@),
{
    if is_word(word, "forward") {
        Some((AXIS_MAX, 0))
    } else if is_word(word, "backward") {
        Some((-AXIS_MAX, 0))
    } else if is_word(word, "left") {
        Some((0, -AXIS_MAX))
    } else if is_word(word, "right") {
        Some((0, AXIS_MAX))
    } else {
        None
    }
}

fn parse_drive(rest: &[char]) -> (result: Result<CommandAction, String>)
    ensures
        match result {
            Ok(a) => spec_parse_drive(rest@) == Ok::<ActionView, Seq<char>>(a@),
            Err(m) => spec_parse_drive(rest@) == Err::<ActionView, Seq<char>>(m@),
        },
{
    let words = split_whitespace(rest);
    let ghost w = spec_words(rest@);
    let n = words.len();
    if n == 0 || n > 3 {
        return Err("usage: /drive <forward|backward|left|right|stop|<forward> <turn> [speed]>".to_string());
    }
    let first = word_chars(&words[0]);
    assert(first@ == w[0]);
    if n == 1 && is_word(first.as_slice(), "stop") {
        return Ok(control_action(ControlState { drive: None }));
    }
    let keyword = keyword_axes(first.as_slice());
    if n == 1 {
        return match keyword {
            Some((f, t)) => Ok(control_action(directional_drive(f, t, DEFAULT_DRIVE_SPEED))),
            None => Err("usage: /drive <forward|backward|left|right|stop|<forward> <turn> [speed]>".to_string()),
        };
    }
    let second = word_chars(&words[1]);
    assert(second@ == w[1]);
    if n == 2 {
        match keyword {
            Some((f, t)) => {
                return match parse_u16_field(second.as_slice()) {
                    Ok(speed) => Ok(control_action(directional_drive(f, t, speed))),
                    Err(m) => Err(m),
                };
            },
            None => {},
        }
    }
    let forward = match parse_axis(first.as_slice()) {
        Ok(v) => v,
        Err(m) => {
            return Err(m);
        },
    };
    let turn = match parse_axis(second.as_slice()) {
        Ok(v) => v,
        Err(m) => {
            return Err(m);
        },
    };
    if n == 2 {
        return Ok(control_action(directional_drive(forward, turn, DEFAULT_DRIVE_SPEED)));
    }
    let third = word_chars(&words[2]);
    assert(third@ == w[2]);
    match parse_u16_field(third.as_slice()) {
        Ok(speed) => Ok(control_action(directional_drive(forward, turn, speed))),
        Err(m) => Err(m),
    }
}

fn parse_chat(rest: &[char]) -> (result: Result<CommandAction, String>)
    ensures
        match result {
            Ok(a) => spec_parse_chat(rest@) == Ok::<ActionView, Seq<char>>(a@),
            Err(m) => spec_parse_chat(rest@) == Err::<ActionView, Seq<char>>(m@),
        },
{
    if rest.len() == 0 {
        return Err("usage: /chat <prompt>".to_string());
    }
    Ok(CommandAction::Chat(chars_to_string(rest)))
}

/// Parse a command line. Bare input is a chat prompt; a chat prompt's
/// `@file` references are expanded by the caller through the file index.
pub fn parse(input: &str) -> (result: Result<CommandAction, String>)
    ensures
        match result {
            Ok(a) => spec_parse(input@) == Ok::<ActionView, Seq<char>>(a@),
            Err(m) => spec_parse(input@) == Err::<ActionView, Seq<char>>(m@),
        },
{
    let raw = str_to_chars(input);
    let trimmed = trim_chars(raw.as_slice());
    if trimmed.len() == 0 {
        return Err("command input is empty".to_string());
    }
    if trimmed[0] != '/' {
        return parse_chat(trimmed.as_slice());
    }
    let body = strip_slashes(trimmed.as_slice());
    let (name, rest) = split_command(body.as_slice());
    let lower = lowercase_chars(name.as_slice());
    if is_word(lower.as_slice(), "help") {
        parse_help(rest.as_slice())
    } else if is_word(lower.as_slice(), "quit") {
        Ok(emit(BrainCommand::Quit))
    } else if is_word(lower.as_slice(), "ping") {
        Ok(emit(BrainCommand::Ping))
    } else if is_word(lower.as_slice(), "stop") {
        Ok(emit(BrainCommand::Stop))
    } else if is_word(lower.as_slice(), "mode") {
        parse_mode(rest.as_slice())
    } else if is_word(lower.as_slice(), "servo") {
        parse_servo(rest.as_slice())
    } else if is_word(lower.as_slice(), "drive") {
        parse_drive(rest.as_slice())
    } else if is_word(lower.as_slice(), "chat") {
        parse_chat(rest.as_slice())
    } else {
        let mut message = String::new();
        push_str(&mut message, "unknown command `/");
        push_chars(&mut message, lower.as_slice());
        push_str(&mut message, "`; try /help");
        Err(message)
    }
}


/// `n` spaces.
pub open spec fn spec_spaces(n: nat) -> Seq<char> {
    Seq::new(n, |i: int| ' ')
}

/// `s` padded with spaces to at least `width` characters, as `{:<width}` formats it.
pub open spec fn spec_pad_right(s: Seq<char>, width: nat) -> Seq<char> {
    if s.len() >= width {
        s
    } else {
        s + spec_spaces((width - s.len()) as nat)
    }
}

/// Append `s` padded to `width` characters.
fn push_padded(out: &mut String, s: &str, width: usize)
    ensures
        final(out)@ == old(out)@ + spec_pad_right(s@, width as nat),
{
    let chars = str_to_chars(s);
    push_chars(out, chars.as_slice());
    let mut n = chars.len();
    let ghost base = old(out)@ + s@;
    while n < width
        invariant
            chars@.len() <= n <= width || (n == chars@.len() && n >= width),
            chars@ == s@,
            base == old(out)@ + s@,
            out@ == base + spec_spaces((n - chars@.len()) as nat),
        decreases width - n,
    {
        crate::text::string_push(out, ' ');
        assert(spec_spaces((n + 1 - chars@.len()) as nat) =~= spec_spaces((n - chars@.len()) as nat).push(' '));
        n += 1;
    }
    assert(spec_spaces(0) =~= Seq::<char>::empty());
    proof {
        if s@.len() >= width {
            assert(out@ =~= old(out)@ + s@);
        }
    }
}

/// The lines of the detailed help of one command.
pub open spec fn spec_detailed_lines(spec: CommandSpecView) -> Seq<Seq<char>> {
    let head = seq!["Command: /"@ + spec.name, Seq::empty(), "Usage: "@ + spec.usage, "Summary: "@ + spec.summary];
    if spec.details.len() == 0 {
        head
    } else {
        head + seq![Seq::empty(), "Details:"@] + spec.details.map_values(|d: Seq<char>| "  "@ + d)
    }
}

/// The detailed help of one command.
pub fn detailed_help_text(spec: &CommandSpec) -> (text: String)
    ensures
        text@ == spec_join(spec_detailed_lines(spec@), "\n"@),
{
    let mut lines: Vec<String> = Vec::new();
    let mut l0 = String::new();
    push_str(&mut l0, "Command: /");
    push_str(&mut l0, spec.name);
    lines.push(l0);
    lines.push(String::new());
    let mut l2 = String::new();
    push_str(&mut l2, "Usage: ");
    push_str(&mut l2, spec.usage);
    lines.push(l2);
    let mut l3 = String::new();
    push_str(&mut l3, "Summary: ");
    push_str(&mut l3, spec.summary);
    lines.push(l3);
    let ghost head = seq!["Command: /"@ + spec@.name, Seq::empty(), "Usage: "@ + spec@.usage, "Summary: "@ + spec@.summary];
    assert(spec_views(lines@) =~= head);
    if spec.details.len() > 0 {
        lines.push(String::new());
        lines.push("Details:".to_string());
        let ghost mid = spec_views(lines@);
        assert(mid =~= head + seq![Seq::<char>::empty(), "Details:"@]);
        let mut i: usize = 0;
        while i < spec.details.len()
            invariant
                i <= spec.details@.len(),
                spec_views(lines@) == mid + spec@.details.take(i as int).map_values(|d: Seq<char>| "  "@ + d),
            decreases spec.details@.len() - i,
        {
            let mut line = String::new();
            push_str(&mut line, "  ");
            push_str(&mut line, spec.details[i]);
            let ghost before = lines@;
            lines.push(line);
            assert(spec_views(lines@) =~= spec_views(before).push("  "@ + spec.details@[i as int]@));
            assert(spec@.details.take(i + 1).map_values(|d: Seq<char>| "  "@ + d) =~= spec@.details.take(i as int).map_values(
                |d: Seq<char>| "  "@ + d,
            ).push("  "@ + spec.details@[i as int]@));
            i += 1;
        }
        assert(spec@.details.take(spec.details@.len() as int) =~= spec@.details);
    }
    join_strings(&lines, "\n")
}

/// The general command reference, one line per command and then the notes.
pub open spec fn spec_general_help_lines() -> Seq<Seq<char>> {
    seq!["Available commands:"@] + spec_command_table().map_values(|c: CommandSpecView| "  "@ + spec_pad_right(c.usage, 16) + " "@ + c.summary)
        + seq![
        Seq::empty(),
        "Notes:"@,
        "  Commands must start with /."@,
        "  Bare input is treated as /chat <prompt>."@,
        "  Use @filename inside /chat to inline file contents into the prompt."@,
        "  Press Tab to autocomplete commands, subcommands, and @file references."@,
        "  Use /help <command> for detailed help on one command."@,
    ]
}

/// The help text for a topic: the detailed help of the command it names,
/// otherwise the general reference.
pub open spec fn spec_help_text(topic: Option<Seq<char>>) -> Seq<char> {
    match topic {
        Some(t) => match spec_find_command(t) {
            Some(i) => spec_join(spec_detailed_lines(spec_command_table()[i]), "\n"@),
            None => spec_join(spec_general_help_lines(), "\n"@),
        },
        None => spec_join(spec_general_help_lines(), "\n"@),
    }
}

/// `b` occurs in `a + b + c`.
proof fn lemma_contains_infix(a: Seq<char>, b: Seq<char>, c: Seq<char>)
    ensures
        spec_contains(a + b + c, b),
{
    assert((a + b + c).subrange(a.len() as int, (a.len() + b.len()) as int) =~= b);
}

/// What occurs in something that occurs in `x` occurs in `x`.
proof fn lemma_contains_transitive(x: Seq<char>, y: Seq<char>, z: Seq<char>)
    requires
        spec_contains(x, y),
        spec_contains(y, z),
    ensures
        spec_contains(x, z),
{
    let i = choose|i: int| 0 <= i && i + y.len() <= x.len() && #[trigger] x.subrange(i, i + y.len()) == y;
    let j = choose|j: int| 0 <= j && j + z.len() <= y.len() && #[trigger] y.subrange(j, j + z.len()) == z;
    assert(x.subrange(i + j, i + j + z.len()) =~= y.subrange(j, j + z.len()));
}

/// Every part occurs in the parts joined.
proof fn lemma_join_contains(parts: Seq<Seq<char>>, sep: Seq<char>, k: int)
    requires
        0 <= k < parts.len(),
    ensures
        spec_contains(spec_join(parts, sep), parts[k]),
    decreases parts.len(),
{
    if parts.len() == 1 {
        lemma_contains_infix(Seq::empty(), parts[0], Seq::empty());
        assert(Seq::<char>::empty() + parts[0] + Seq::<char>::empty() =~= parts[0]);
    } else {
        let head = spec_join(parts.drop_last(), sep);
        if k == parts.len() - 1 {
            lemma_contains_infix(head + sep, parts.last(), Seq::empty());
            assert(head + sep + parts.last() + Seq::<char>::empty() =~= head + sep + parts.last());
        } else {
            lemma_join_contains(parts.drop_last(), sep, k);
            lemma_contains_infix(Seq::empty(), head, sep + parts.last());
            assert(Seq::<char>::empty() + head + (sep + parts.last()) =~= head + sep + parts.last());
            lemma_contains_transitive(head + sep + parts.last(), head, parts[k]);
        }
    }
}

/// The help text keeps its promises: the general reference shows the usage
/// and summary of every command; a command's detailed help names it and
/// shows its usage; a topic that names no command gets the general
/// reference.
pub proof fn lemma_help_text_contents()
    ensures
        forall|i: int| 0 <= i < spec_command_table().len() ==> spec_contains(spec_help_text(None), #[trigger] spec_command_table()[i].usage)
            && spec_contains(spec_help_text(None), spec_command_table()[i].summary),
        forall|i: int| 0 <= i < spec_command_table().len() ==> spec_contains(
            spec_join(spec_detailed_lines(#[trigger] spec_command_table()[i]), "\n"@),
            "Command: /"@ + spec_command_table()[i].name,
        ) && spec_contains(
            spec_join(spec_detailed_lines(spec_command_table()[i]), "\n"@),
            "Usage: "@ + spec_command_table()[i].usage,
        ),
        forall|t: Seq<char>| #[trigger] spec_find_command(t) is None ==> spec_help_text(Some(t)) == spec_help_text(None),
{
    let table = spec_command_table();
    let lines = spec_general_help_lines();
    let text = spec_join(lines, "\n"@);
    assert forall|i: int| 0 <= i < table.len() implies spec_contains(text, #[trigger] table[i].usage)
        && spec_contains(text, table[i].summary) by {
        let c = table[i];
        let line = "  "@ + spec_pad_right(c.usage, 16) + " "@ + c.summary;
        assert(lines[i + 1] == line);
        lemma_join_contains(lines, "\n"@, i + 1);
        let tail = if c.usage.len() >= 16 { Seq::<char>::empty() } else { spec_spaces((16 - c.usage.len()) as nat) };
        assert(spec_pad_right(c.usage, 16) =~= c.usage + tail);
        lemma_contains_infix("  "@, c.usage, tail + " "@ + c.summary);
        assert("  "@ + c.usage + (tail + " "@ + c.summary) =~= line);
        lemma_contains_transitive(text, line, c.usage);
        lemma_contains_infix("  "@ + spec_pad_right(c.usage, 16) + " "@, c.summary, Seq::empty());
        assert("  "@ + spec_pad_right(c.usage, 16) + " "@ + c.summary + Seq::<char>::empty() =~= line);
        lemma_contains_transitive(text, line, c.summary);
    }
    assert forall|i: int| 0 <= i < table.len() implies spec_contains(
        spec_join(spec_detailed_lines(#[trigger] table[i]), "\n"@),
        "Command: /"@ + table[i].name,
    ) && spec_contains(spec_join(spec_detailed_lines(table[i]), "\n"@), "Usage: "@ + table[i].usage) by {
        let d = spec_detailed_lines(table[i]);
        assert(d[0] == "Command: /"@ + table[i].name);
        assert(d[2] == "Usage: "@ + table[i].usage);
        lemma_join_contains(d, "\n"@, 0);
        lemma_join_contains(d, "\n"@, 2);
    }
}

/// The help text: the detailed help of the named command when the topic
/// names one, otherwise the general reference.
pub fn help_text(topic: Option<&str>) -> (text: String)
    ensures
        match topic {
            Some(t) => match spec_find_command(t@) {
                Some(i) => text@ == spec_join(spec_detailed_lines(spec_command_table()[i]), "\n"@),
                None => text@ == spec_join(spec_general_help_lines(), "\n"@),
            },
            None => text@ == spec_join(spec_general_help_lines(), "\n"@),
        },
        text@ == spec_help_text(match topic {
            Some(t) => Some(t@),
            None => None,
        }),
{
    match topic {
        Some(t) => match command_spec(t) {
            Some(spec) => {
                return detailed_help_text(&spec);
            },
            None => {},
        },
        None => {},
    }
    let specs = command_specs();
    let ghost table = spec_command_table();
    let mut lines: Vec<String> = Vec::new();
    lines.push("Available commands:".to_string());
    let mut i: usize = 0;
    while i < specs.len()
        invariant
            i <= specs@.len(),
            specs@.map_values(|s: CommandSpec| s@) == table,
            table == spec_command_table(),
            spec_views(lines@) == seq!["Available commands:"@] + table.take(i as int).map_values(|c: CommandSpecView| "  "@ + spec_pad_right(c.usage, 16) + " "@ + c.summary),
        decreases specs@.len() - i,
    {
        let mut line = String::new();
        push_str(&mut line, "  ");
        push_padded(&mut line, specs[i].usage, 16);
        push_str(&mut line, " ");
        push_str(&mut line, specs[i].summary);
        assert(specs@[i as int]@ == table[i as int]);
        let ghost before = lines@;
        lines.push(line);
        assert(spec_views(lines@) =~= spec_views(before).push("  "@ + spec_pad_right(table[i as int].usage, 16) + " "@ + table[i as int].summary));
        assert(table.take(i + 1).map_values(|c: CommandSpecView| "  "@ + spec_pad_right(c.usage, 16) + " "@ + c.summary) =~= table.take(i as int).map_values(
            |c: CommandSpecView| "  "@ + spec_pad_right(c.usage, 16) + " "@ + c.summary,
        ).push("  "@ + spec_pad_right(table[i as int].usage, 16) + " "@ + table[i as int].summary));
        i += 1;
    }
    assert(table.take(specs@.len() as int) =~= table);
    lines.push(String::new());
    lines.push("Notes:".to_string());
    lines.push("  Commands must start with /.".to_string());
    lines.push("  Bare input is treated as /chat <prompt>.".to_string());
    lines.push("  Use @filename inside /chat to inline file contents into the prompt.".to_string());
    lines.push("  Press Tab to autocomplete commands, subcommands, and @file references.".to_string());
    lines.push("  Use /help <command> for detailed help on one command.".to_string());
    assert(spec_views(lines@) =~= spec_general_help_lines());
    join_strings(&lines, "\n")
}

/// The drive control a lone keyword asks for at the default speed.
pub open spec fn spec_keyword_drive(forward: i16, turn: i16) -> Result<ActionView, Seq<char>> {
    spec_speed_drive(forward, turn, DEFAULT_DRIVE_SPEED)
}

/// `/drive` keywords drive full scale in their direction at the default
/// speed: `forward` ahead, `backward` the opposite way, `left` and `right`
/// turning the matching way.
pub proof fn lemma_drive_keywords_directions(rest: Seq<char>)
    requires
        spec_words(rest).len() == 1,
    ensures
        spec_words(rest)[0] == "forward"@ ==> spec_parse_drive(rest) == spec_keyword_drive(1000, 0),
        spec_words(rest)[0] == "backward"@ ==> spec_parse_drive(rest) == spec_keyword_drive(-1000i16, 0),
        spec_words(rest)[0] == "left"@ ==> spec_parse_drive(rest) == spec_keyword_drive(0, -1000i16),
        spec_words(rest)[0] == "right"@ ==> spec_parse_drive(rest) == spec_keyword_drive(0, 1000),
        spec_keyword_axes("forward"@) == Some((AXIS_MAX, 0i16)),
        spec_keyword_axes("backward"@) == Some(((-AXIS_MAX) as i16, 0i16)),
        spec_keyword_axes("left"@) == Some((0i16, (-AXIS_MAX) as i16)),
        spec_keyword_axes("right"@) == Some((0i16, AXIS_MAX)),
{
    reveal_strlit("forward");
    reveal_strlit("backward");
    reveal_strlit("left");
    reveal_strlit("right");
    reveal_strlit("stop");
    assert("left"@.len() != "forward"@.len() && "left"@.len() != "backward"@.len());
    assert("right"@.len() != "forward"@.len() && "right"@.len() != "backward"@.len() && "right"@.len() != "left"@.len());
}

/// `/drive <keyword> <speed>` drives the keyword's direction at that speed,
/// and `/drive stop` asks for no drive.
pub proof fn lemma_drive_keyword_speed_and_stop(rest: Seq<char>)
    ensures
        spec_words(rest).len() == 1 && spec_words(rest)[0] == "stop"@ ==> spec_parse_drive(rest) == Ok::<
            ActionView,
            Seq<char>,
        >(ActionView::Emit(InputEventView::Control(ControlState { drive: None }))),
        spec_words(rest).len() == 2 && spec_parse_u16_field(spec_words(rest)[1]) is Ok ==> {
            let w = spec_words(rest);
            let speed = spec_parse_u16_field(w[1])->Ok_0;
            &&& w[0] == "forward"@ ==> spec_parse_drive(rest) == spec_speed_drive(1000, 0, speed)
            &&& w[0] == "backward"@ ==> spec_parse_drive(rest) == spec_speed_drive(-1000i16, 0, speed)
            &&& w[0] == "left"@ ==> spec_parse_drive(rest) == spec_speed_drive(0, -1000i16, speed)
            &&& w[0] == "right"@ ==> spec_parse_drive(rest) == spec_speed_drive(0, 1000, speed)
        },
{
    reveal_strlit("forward");
    reveal_strlit("backward");
    reveal_strlit("left");
    reveal_strlit("right");
    reveal_strlit("stop");
    assert("left"@.len() != "forward"@.len() && "left"@.len() != "backward"@.len());
    assert("right"@.len() != "forward"@.len() && "right"@.len() != "backward"@.len() && "right"@.len() != "left"@.len());
}

/// The drive control a keyword asks for at a given speed.
pub open spec fn spec_speed_drive(forward: i16, turn: i16, speed: u16) -> Result<ActionView, Seq<char>> {
    Ok(ActionView::Emit(InputEventView::Control(ControlState { drive: Some(DriveIntent { forward, turn, speed }) })))
}

} // verus!
