//! The two-line status display of the motion controller.

use vstd::prelude::*;

use crate::units::Mode;

verus! {

/// Characters (bytes of UTF-8) one display line holds.
pub const LCD_LINE_WIDTH: usize = 16;

#[verifier::external_type_specification]
#[verifier::external_body]
pub struct ExHeaplessString<const N: usize>(heapless::String<N>);

/// `Clone` for `heapless::String`: accepted by Verus so that a display frame
/// can derive `Clone`; nothing is claimed of the copy.
pub assume_specification<const N: usize> [<heapless::String<N> as Clone>::clone](s: &heapless::String<N>) -> heapless::String<N>;

/// The text a display line holds.
pub uninterp spec fn line_text(s: heapless::String<16>) -> Seq<char>;

/// The number of bytes `c` takes in UTF-8.
pub open spec fn spec_utf8_width(c: char) -> nat {
    if (c as u32) < 0x80 {
        1
    } else if (c as u32) < 0x800 {
        2
    } else if (c as u32) < 0x10000 {
        3
    } else {
        4
    }
}

/// The number of bytes `s` takes in UTF-8.
pub open spec fn spec_utf8_len(s: Seq<char>) -> nat
    decreases s.len(),
{
    if s.len() == 0 {
        0
    } else {
        spec_utf8_len(s.drop_last()) + spec_utf8_width(s.last())
    }
}

/// ASCII text takes one byte per character.
pub proof fn lemma_ascii_utf8_len(s: Seq<char>)
    requires
        forall|i: int| 0 <= i < s.len() ==> (s[i] as u32) < 0x80,
    ensures
        spec_utf8_len(s) == s.len(),
    decreases s.len(),
{
    if s.len() > 0 {
        lemma_ascii_utf8_len(s.drop_last());
    }
}

/// `heapless::String::new`: an empty line.
#[verifier::external_body]
fn line_new() -> (s: heapless::String<16>)
    ensures
        line_text(s) == Seq::<char>::empty(),
{
    heapless::String::new()
}

/// `heapless::String::push_str`: appends `t` when its bytes fit in what the
/// line has left, and otherwise leaves the line untouched and fails.
#[verifier::external_body]
fn line_push_str(s: &mut heapless::String<16>, t: &str) -> (r: Result<(), ()>)
    ensures
        spec_utf8_len(line_text(*old(s))) + spec_utf8_len(t@) <= LCD_LINE_WIDTH ==> {
            &&& r is Ok
            &&& line_text(*final(s)) == line_text(*old(s)) + t@
        },
        spec_utf8_len(line_text(*old(s))) + spec_utf8_len(t@) > LCD_LINE_WIDTH ==> {
            &&& r is Err
            &&& line_text(*final(s)) == line_text(*old(s))
        },
{
    s.push_str(t)
}

/// The frame shown on the display.
#[derive(Clone, Debug, PartialEq, Eq)]
pub struct DisplayFrame {
    pub line0: heapless::String<16>,
    pub line1: heapless::String<16>,
}

impl Default for DisplayFrame {
    fn default() -> (frame: Self)
        ensures
            line_text(frame.line0) == Seq::<char>::empty(),
            line_text(frame.line1) == Seq::<char>::empty(),
    {
        DisplayFrame { line0: line_new(), line1: line_new() }
    }
}

/// The short name of a mode on the display.
pub open spec fn spec_lcd_mode_label(mode: Mode) -> &'static str {
    match mode {
        Mode::Teleop => "tele",
        Mode::Autonomous => "auto",
        Mode::Fault => "fault",
    }
}

/// Return the short name of a mode on the display.
fn lcd_mode_label(mode: Mode) -> (label: &'static str)
    ensures
        label == spec_lcd_mode_label(mode),
        spec_utf8_len(label@) <= 5,
{
    match mode {
        Mode::Teleop => {
            proof {
                reveal_strlit("tele");
                lemma_ascii_utf8_len("tele"@);
            }
            "tele"
        },
        Mode::Autonomous => {
            proof {
                reveal_strlit("auto");
                lemma_ascii_utf8_len("auto"@);
            }
            "auto"
        },
        Mode::Fault => {
            proof {
                reveal_strlit("fault");
                lemma_ascii_utf8_len("fault"@);
            }
            "fault"
        },
    }
}

/// The motion controller's frame: its name, then its mode.
pub fn render_motion_controller_frame(mode: Mode) -> (frame: DisplayFrame)
    ensures
        line_text(frame.line0) == "Motion ctrl"@,
        line_text(frame.line1) == "Mode "@ + spec_lcd_mode_label(mode)@,
{
    let mut line0 = line_new();
    let mut line1 = line_new();
    proof {
        reveal_strlit("Motion ctrl");
        reveal_strlit("Mode ");
        lemma_ascii_utf8_len("Motion ctrl"@);
        lemma_ascii_utf8_len("Mode "@);
        assert(Seq::<char>::empty() + "Motion ctrl"@ =~= "Motion ctrl"@);
        assert(Seq::<char>::empty() + "Mode "@ =~= "Mode "@);
    }
    let _ = line_push_str(&mut line0, "Motion ctrl");
    if line_push_str(&mut line1, "Mode ").is_ok() {
        let _ = line_push_str(&mut line1, lcd_mode_label(mode));
    }
    DisplayFrame { line0, line1 }
}

} // verus!
