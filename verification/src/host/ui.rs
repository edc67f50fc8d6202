//! Text layout of the console activity log: log entries, their wrapping
//! into rows of a given width, and the rows that fit a panel.

use vstd::prelude::*;

use crate::host::config::{spec_join, spec_views};
use crate::host::input::ControlState;
use crate::host::logging::{LogLevel, allows, level_label, spec_allows, spec_level_label};
use crate::units::Mode;
use crate::text::{lines, spec_lines, str_eq, chars_to_string, decimal_digits, is_whitespace, push_chars, push_str, signed_decimal, spec_decimal, spec_is_whitespace, spec_signed_decimal, str_to_chars};

verus! {

/// One line of the activity log; `repeats` counts identical consecutive messages.
#[derive(Clone, Debug, PartialEq, Eq)]
pub struct UiLogEntry {
    pub level: LogLevel,
    pub message: String,
    pub repeats: usize,
}

/// The words of `s`: its maximal runs of non-whitespace characters, in order.
pub open spec fn spec_words(s: Seq<char>) -> Seq<Seq<char>>
    decreases s.len(),
{
    if s.len() == 0 {
        Seq::empty()
    } else {
        let p = s.drop_last();
        let c = s.last();
        let w = spec_words(p);
        if spec_is_whitespace(c) {
            w
        } else if p.len() > 0 && !spec_is_whitespace(p.last()) {
            w.update(w.len() - 1, w.last().push(c))
        } else {
            w.push(seq![c])
        }
    }
}

/// Words are never empty, and a prefix ending inside a word has at least one word.
proof fn lemma_words_shape(s: Seq<char>)
    ensures
        forall|i: int| 0 <= i < spec_words(s).len() ==> #[trigger] spec_words(s)[i].len() > 0,
        s.len() > 0 && !spec_is_whitespace(s.last()) ==> spec_words(s).len() > 0,
    decreases s.len(),
{
    if s.len() > 0 {
        let p = s.drop_last();
        let c = s.last();
        lemma_words_shape(p);
        let w = spec_words(p);
        if !spec_is_whitespace(c) {
            if p.len() > 0 && !spec_is_whitespace(p.last()) {
                let w2 = w.update(w.len() - 1, w.last().push(c));
                assert forall|i: int| 0 <= i < w2.len() implies #[trigger] w2[i].len() > 0 by {
                    if i != w.len() - 1 {
                        assert(w2[i] == w[i]);
                    }
                }
            } else {
                let w2 = w.push(seq![c]);
                assert forall|i: int| 0 <= i < w2.len() implies #[trigger] w2[i].len() > 0 by {
                    if i < w.len() {
                        assert(w2[i] == w[i]);
                    }
                }
            }
        }
    }
}

/// `message` with every run of whitespace (line breaks included) collapsed
/// to one space, and no whitespace at either end.
pub open spec fn spec_sanitize(message: Seq<char>) -> Seq<char> {
    spec_join(spec_words(message), " "@)
}

/// The words of `chars`, as `str::split_whitespace` gives them.
pub fn split_whitespace(chars: &[char]) -> (words: Vec<String>)
    ensures
        spec_views(words@) == spec_words(chars@),
        forall|i: int| 0 <= i < words@.len() ==> (#[trigger] words@[i])@.len() > 0,
{
    let mut words: Vec<String> = Vec::new();
    let mut current: Vec<char> = Vec::new();
    let mut i: usize = 0;
    while i < chars.len()
        invariant
            i <= chars@.len(),
            ({
                let w = spec_words(chars@.take(i as int));
                if i > 0 && !spec_is_whitespace(chars@[i - 1]) {
                    &&& w.len() > 0
                    &&& spec_views(words@) == w.drop_last()
                    &&& current@ == w.last()
                } else {
                    &&& spec_views(words@) == w
                    &&& current@.len() == 0
                }
            }),
        decreases chars@.len() - i,
    {
        let c = chars[i];
        let ghost prefix = chars@.take(i as int);
        let ghost w = spec_words(prefix);
        assert(chars@.take(i + 1).drop_last() == prefix);
        assert(chars@.take(i + 1).last() == c);
        proof {
            lemma_words_shape(chars@.take(i + 1));
            if i > 0 {
                assert(prefix.last() == chars@[i - 1]);
            }
        }
        if is_whitespace(c) {
            if current.len() > 0 {
                let word = chars_to_string(current.as_slice());
                let ghost before = words@;
                words.push(word);
                assert(spec_views(words@) =~= spec_views(before).push(current@));
                assert(w.drop_last().push(w.last()) =~= w);
                current = Vec::new();
            }
        } else {
            current.push(c);
            proof {
                let w2 = spec_words(chars@.take(i + 1));
                if i > 0 && !spec_is_whitespace(chars@[i - 1]) {
                    assert(w2.drop_last() =~= w.drop_last());
                } else {
                    assert(w2.drop_last() =~= w);
                }
            }
        }
        i += 1;
    }
    assert(chars@.take(chars@.len() as int) == chars@);
    proof {
        lemma_words_shape(chars@);
    }
    let ghost w = spec_words(chars@);
    if current.len() > 0 {
        let word = chars_to_string(current.as_slice());
        let ghost before = words@;
        words.push(word);
        proof {
            assert(spec_views(words@) =~= spec_views(before).push(current@));
            assert(w.drop_last().push(w.last()) =~= w);
        }
    } else {
        proof {
            if chars@.len() > 0 && !spec_is_whitespace(chars@[chars@.len() - 1]) {
                assert(w.last().len() > 0);
            }
        }
    }
    assert(spec_views(words@) == w);
    assert forall|i: int| 0 <= i < words@.len() implies (#[trigger] words@[i])@.len() > 0 by {
        assert(words@[i]@ == spec_views(words@)[i]);
    }
    words
}

/// Collapse the whitespace of a log message.
pub fn sanitize_message(message: &str) -> (clean: String)
    ensures
        clean@ == spec_sanitize(message@),
{
    let chars = str_to_chars(message);
    let words = split_whitespace(chars.as_slice());
    crate::host::config::join_strings(&words, " ")
}

/// The drive request in words: `forward=<f> turn=<t> speed=<s>`, or `idle`.
pub open spec fn spec_describe_control(control: ControlState, idle: Seq<char>) -> Seq<char> {
    match control.drive {
        Some(d) => "forward="@ + spec_signed_decimal(d.forward as int) + " turn="@ + spec_signed_decimal(
            d.turn as int,
        ) + " speed="@ + spec_decimal(d.speed as nat),
        None => idle,
    }
}

/// The drive request in words, with `idle_word` when there is none.
pub fn describe_drive(control: ControlState, idle_word: &str) -> (text: String)
    ensures
        text@ == spec_describe_control(control, idle_word@),
{
    match control.drive {
        Some(d) => {
            let mut text = String::new();
            push_str(&mut text, "forward=");
            push_chars(&mut text, signed_decimal(d.forward as i64).as_slice());
            push_str(&mut text, " turn=");
            push_chars(&mut text, signed_decimal(d.turn as i64).as_slice());
            push_str(&mut text, " speed=");
            push_chars(&mut text, decimal_digits(d.speed as u64).as_slice());
            text
        },
        None => {
            let mut text = String::new();
            push_str(&mut text, idle_word);
            text
        },
    }
}

/// The drive request in words, `idle` when there is none.
pub fn describe_control_state(control: ControlState) -> (text: String)
    ensures
        text@ == spec_describe_control(control, "idle"@),
{
    describe_drive(control, "idle")
}

/// A log entry as one line: `[LEVEL] message`, followed by ` (x<n>)` when
/// the message repeated.
pub open spec fn spec_format_entry(entry: UiLogEntry) -> Seq<char> {
    let base = "["@ + spec_level_label(entry.level)@ + "] "@ + entry.message@;
    if entry.repeats > 1 {
        base + " (x"@ + spec_decimal(entry.repeats as nat) + ")"@
    } else {
        base
    }
}

/// Format a log entry as one line.
pub fn format_log_entry(entry: &UiLogEntry) -> (line: String)
    ensures
        line@ == spec_format_entry(*entry),
{
    let mut line = String::new();
    push_str(&mut line, "[");
    push_str(&mut line, level_label(entry.level));
    push_str(&mut line, "] ");
    push_str(&mut line, entry.message.as_str());
    if entry.repeats > 1 {
        push_str(&mut line, " (x");
        push_chars(&mut line, decimal_digits(entry.repeats as u64).as_slice());
        push_str(&mut line, ")");
    }
    line
}

/// `s` cut into consecutive rows of `width` characters (the last may be
/// shorter); an empty line is one empty row.
pub open spec fn spec_wrap(s: Seq<char>, width: nat) -> Seq<Seq<char>>
    decreases s.len(),
{
    if width == 0 {
        Seq::empty()
    } else if s.len() <= width {
        seq![s]
    } else {
        seq![s.take(width as int)] + spec_wrap(s.skip(width as int), width)
    }
}

/// Joining the rows of a wrapped line gives the line back, and every row
/// fits the width.
pub proof fn lemma_wrap_concat(s: Seq<char>, width: nat)
    requires
        width > 0,
    ensures
        spec_wrap(s, width).len() >= 1,
        forall|i: int| 0 <= i < spec_wrap(s, width).len() ==> #[trigger] spec_wrap(s, width)[i].len() <= width,
        spec_concat(spec_wrap(s, width)) == s,
    decreases s.len(),
{
    if s.len() > width {
        let rest = s.skip(width as int);
        lemma_wrap_concat(rest, width);
        let w = spec_wrap(s, width);
        assert forall|i: int| 0 <= i < w.len() implies #[trigger] w[i].len() <= width by {
            if i > 0 {
                assert(w[i] == spec_wrap(rest, width)[i - 1]);
            }
        }
        lemma_concat_prepend(s.take(width as int), spec_wrap(rest, width));
        assert(s.take(width as int) + rest =~= s);
    } else {
        assert(seq![s].drop_last() =~= Seq::<Seq<char>>::empty());
        assert(spec_concat(Seq::<Seq<char>>::empty()) =~= Seq::<char>::empty());
        assert(spec_concat(seq![s]) == spec_concat(seq![s].drop_last()) + seq![s].last());
        assert(Seq::<char>::empty() + s =~= s);
    }
}

/// Rows glued together.
pub open spec fn spec_concat(rows: Seq<Seq<char>>) -> Seq<char>
    decreases rows.len(),
{
    if rows.len() == 0 {
        Seq::empty()
    } else {
        spec_concat(rows.drop_last()) + rows.last()
    }
}

/// Gluing a row in front.
proof fn lemma_concat_prepend(first: Seq<char>, rows: Seq<Seq<char>>)
    ensures
        spec_concat(seq![first] + rows) == first + spec_concat(rows),
    decreases rows.len(),
{
    if rows.len() == 0 {
        assert(seq![first] + rows =~= seq![first]);
        assert(seq![first].drop_last() =~= Seq::<Seq<char>>::empty());
        assert(spec_concat(Seq::<Seq<char>>::empty()) =~= Seq::<char>::empty());
        assert(spec_concat(seq![first]) == spec_concat(seq![first].drop_last()) + seq![first].last());
        assert(Seq::<char>::empty() + first =~= first);
        assert(spec_concat(rows) =~= Seq::<char>::empty());
        assert(first + Seq::<char>::empty() =~= first);
    } else {
        lemma_concat_prepend(first, rows.drop_last());
        assert((seq![first] + rows).drop_last() =~= seq![first] + rows.drop_last());
        assert((seq![first] + rows).last() == rows.last());
        assert(first + spec_concat(rows.drop_last()) + rows.last() =~= first + (spec_concat(rows.drop_last())
            + rows.last()));
    }
}

/// Cut a line into rows of `width` characters.
pub fn wrap_line(line: &str, width: usize) -> (rows: Vec<String>)
    ensures
        spec_views(rows@) == spec_wrap(line@, width as nat),
{
    let chars = str_to_chars(line);
    wrap_chars(chars.as_slice(), width)
}

/// Cut characters into rows of `width`.
pub fn wrap_chars(chars: &[char], width: usize) -> (rows: Vec<String>)
    ensures
        spec_views(rows@) == spec_wrap(chars@, width as nat),
{
    let mut rows: Vec<String> = Vec::new();
    if width == 0 {
        assert(spec_views(rows@) =~= Seq::<Seq<char>>::empty());
        return rows;
    }
    let n = chars.len();
    let mut start: usize = 0;
    assert(chars@.skip(0) =~= chars@);
    assert(spec_views(rows@) + spec_wrap(chars@.skip(0), width as nat) =~= spec_wrap(chars@, width as nat));
    loop
        invariant
            width > 0,
            n == chars@.len(),
            start <= n,
            start == 0 || start < n,
            spec_views(rows@) + spec_wrap(chars@.skip(start as int), width as nat) == spec_wrap(chars@, width as nat),
        decreases n - start,
    {
        let ghost rest = chars@.skip(start as int);
        if n - start <= width {
            let row = chars_to_string(chars_range(chars, start, n).as_slice());
            let ghost before = rows@;
            rows.push(row);
            assert(chars@.subrange(start as int, n as int) =~= rest);
            assert(spec_views(rows@) =~= spec_views(before) + seq![rest]);
            return rows;
        }
        let end = start + width;
        let row = chars_to_string(chars_range(chars, start, end).as_slice());
        let ghost before = rows@;
        rows.push(row);
        proof {
            assert(chars@.subrange(start as int, end as int) =~= rest.take(width as int));
            assert(rest.skip(width as int) =~= chars@.skip(end as int));
            assert(spec_views(rows@) =~= spec_views(before).push(rest.take(width as int)));
            assert(spec_views(before) + spec_wrap(rest, width as nat) == spec_wrap(chars@, width as nat));
            assert(spec_wrap(rest, width as nat) == seq![rest.take(width as int)] + spec_wrap(
                rest.skip(width as int),
                width as nat,
            ));
            assert(spec_views(before) + (seq![rest.take(width as int)] + spec_wrap(rest.skip(width as int), width as nat))
                =~= spec_views(before).push(rest.take(width as int)) + spec_wrap(rest.skip(width as int), width as nat));
        }
        start = end;
    }
}

/// The characters of `chars` from `start` to `end`.
pub fn chars_range(chars: &[char], start: usize, end: usize) -> (out: Vec<char>)
    requires
        start <= end <= chars@.len(),
    ensures
        out@ == chars@.subrange(start as int, end as int),
{
    let mut out: Vec<char> = Vec::new();
    let mut i = start;
    while i < end
        invariant
            start <= i <= end <= chars@.len(),
            out@ == chars@.subrange(start as int, i as int),
        decreases end - i,
    {
        out.push(chars[i]);
        assert(chars@.subrange(start as int, i + 1) == chars@.subrange(start as int, i as int).push(chars@[i as int]));
        i += 1;
    }
    out
}

/// The rows shown for the lines `lines` (oldest first) in a panel `width`
/// wide with `available` rows: whole entries from the newest back while they
/// fit; when even the newest does not fit, its first rows.
pub open spec fn spec_rendered(lines: Seq<Seq<char>>, width: nat, available: nat) -> Seq<Seq<char>> {
    if width == 0 || available == 0 {
        Seq::empty()
    } else {
        spec_rendered_from(lines, width, available, Seq::empty())
    }
}

/// The rows shown once `rendered` holds the rows of the newer entries.
pub open spec fn spec_rendered_from(lines: Seq<Seq<char>>, width: nat, available: nat, rendered: Seq<Seq<char>>) -> Seq<
    Seq<char>,
>
    decreases lines.len(),
{
    if lines.len() == 0 {
        rendered
    } else {
        let rows = spec_wrap(lines.last(), width);
        if rows.len() > available {
            if rendered.len() == 0 {
                rows.take(available as int)
            } else {
                rendered
            }
        } else if rendered.len() + rows.len() > available {
            rendered
        } else {
            spec_rendered_from(lines.drop_last(), width, available, rows + rendered)
        }
    }
}

/// The rows of the activity log that fit a panel.
pub fn rendered_log_lines(logs: &[UiLogEntry], width: usize, available_lines: usize) -> (rows: Vec<String>)
    ensures
        spec_views(rows@) == spec_rendered(logs@.map_values(|e: UiLogEntry| spec_format_entry(e)), width as nat, available_lines as nat),
{
    let ghost lines = logs@.map_values(|e: UiLogEntry| spec_format_entry(e));
    if width == 0 || available_lines == 0 {
        let rows: Vec<String> = Vec::new();
        assert(spec_views(rows@) =~= Seq::<Seq<char>>::empty());
        return rows;
    }
    let mut rendered: Vec<String> = Vec::new();
    let mut k: usize = logs.len();
    assert(lines.take(k as int) =~= lines);
    assert(spec_views(rendered@) =~= Seq::<Seq<char>>::empty());
    while k > 0
        invariant
            k <= logs@.len(),
            width > 0,
            available_lines > 0,
            lines == logs@.map_values(|e: UiLogEntry| spec_format_entry(e)),
            rendered@.len() <= available_lines,
            spec_rendered_from(lines.take(k as int), width as nat, available_lines as nat, spec_views(rendered@))
                == spec_rendered(lines, width as nat, available_lines as nat),
        decreases k,
    {
        let entry_line = format_log_entry(&logs[k - 1]);
        let entry_rows = wrap_line(entry_line.as_str(), width);
        let ghost pre = lines.take(k as int);
        assert(pre.last() == lines[k - 1]);
        assert(pre.drop_last() =~= lines.take(k - 1));
        if entry_rows.len() > available_lines {
            if rendered.len() == 0 {
                let mut out: Vec<String> = Vec::new();
                let mut i: usize = 0;
                while i < available_lines
                    invariant
                        i <= available_lines < entry_rows@.len(),
                        spec_views(out@) == spec_views(entry_rows@).take(i as int),
                    decreases available_lines - i,
                {
                    let row = entry_rows[i].clone();
                    let ghost before = out@;
                    out.push(row);
                    assert(spec_views(out@) =~= spec_views(before).push(entry_rows@[i as int]@));
                    assert(spec_views(entry_rows@).take(i + 1) =~= spec_views(entry_rows@).take(i as int).push(
                        entry_rows@[i as int]@,
                    ));
                    i += 1;
                }
                return out;
            }
            return rendered;
        }
        if entry_rows.len() > available_lines - rendered.len() {
            return rendered;
        }
        let mut next: Vec<String> = Vec::new();
        let mut i: usize = 0;
        while i < entry_rows.len()
            invariant
                i <= entry_rows@.len(),
                spec_views(next@) == spec_views(entry_rows@).take(i as int),
            decreases entry_rows@.len() - i,
        {
            let row = entry_rows[i].clone();
            let ghost before = next@;
            next.push(row);
            assert(spec_views(next@) =~= spec_views(before).push(entry_rows@[i as int]@));
            assert(spec_views(entry_rows@).take(i + 1) =~= spec_views(entry_rows@).take(i as int).push(
                entry_rows@[i as int]@,
            ));
            i += 1;
        }
        let mut j: usize = 0;
        let ghost base = spec_views(next@);
        while j < rendered.len()
            invariant
                j <= rendered@.len(),
                spec_views(next@) == base + spec_views(rendered@).take(j as int),
            decreases rendered@.len() - j,
        {
            let row = rendered[j].clone();
            let ghost before = next@;
            next.push(row);
            assert(spec_views(next@) =~= spec_views(before).push(rendered@[j as int]@));
            assert(spec_views(rendered@).take(j + 1) =~= spec_views(rendered@).take(j as int).push(
                rendered@[j as int]@,
            ));
            j += 1;
        }
        assert(spec_views(entry_rows@).take(entry_rows@.len() as int) =~= spec_views(entry_rows@));
        assert(spec_views(rendered@).take(rendered@.len() as int) =~= spec_views(rendered@));
        rendered = next;
        k -= 1;
    }
    assert(lines.take(0) =~= Seq::<Seq<char>>::empty());
    rendered
}

/// `line` when it fits `width` characters; otherwise cut to `width - 3`
/// characters followed by `...` (just `...` when the width is at most three).
pub open spec fn spec_fit(line: Seq<char>, width: nat) -> Seq<char> {
    if line.len() <= width {
        line
    } else if width <= 3 {
        "..."@
    } else {
        line.take(width - 3) + "..."@
    }
}

/// Fit a line into `width` characters.
pub fn fit_line(line: &str, width: usize) -> (fitted: String)
    ensures
        fitted@ == spec_fit(line@, width as nat),
{
    let chars = str_to_chars(line);
    if chars.len() <= width {
        return chars_to_string(chars.as_slice());
    }
    let mut fitted = String::new();
    if width <= 3 {
        push_str(&mut fitted, "...");
        return fitted;
    }
    let head = chars_range(chars.as_slice(), 0, width - 3);
    push_chars(&mut fitted, head.as_slice());
    push_str(&mut fitted, "...");
    fitted
}


/// A log entry as the activity panel copies it: `[LEVEL] message`, followed
/// by `  x<n>` when the message repeated.
pub open spec fn spec_activity_entry(entry: UiLogEntry) -> Seq<char> {
    spec_activity_line(spec_log_view(entry))
}

/// A logged message as the activity panel copies it.
pub open spec fn spec_activity_line(entry: LogView) -> Seq<char> {
    let base = "["@ + spec_level_label(entry.0)@ + "] "@ + entry.1;
    if entry.2 > 1 {
        base + "  x"@ + spec_decimal(entry.2 as nat)
    } else {
        base
    }
}

/// What copying the activity puts on the clipboard: the newest entry, or
/// every entry one per line; nothing when there is no newest entry.
pub open spec fn spec_copy_text(entries: Seq<LogView>, last_only: bool) -> Option<Seq<char>> {
    if last_only {
        if entries.len() == 0 {
            None
        } else {
            Some(spec_activity_line(entries.last()))
        }
    } else {
        Some(spec_join(entries.map_values(|e: LogView| spec_activity_line(e)), "\n"@))
    }
}

/// Format a log entry as the activity panel copies it.
pub fn activity_plain_log_entry(entry: &UiLogEntry) -> (line: String)
    ensures
        line@ == spec_activity_entry(*entry),
{
    let mut line = String::new();
    push_str(&mut line, "[");
    push_str(&mut line, level_label(entry.level));
    push_str(&mut line, "] ");
    push_str(&mut line, entry.message.as_str());
    if entry.repeats > 1 {
        push_str(&mut line, "  x");
        push_chars(&mut line, decimal_digits(entry.repeats as u64).as_slice());
    }
    line
}

/// The whole activity log as text, one entry per line.
pub fn activity_plain_text(logs: &[UiLogEntry]) -> (text: String)
    ensures
        text@ == spec_join(logs@.map_values(|e: UiLogEntry| spec_activity_entry(e)), "\n"@),
{
    let mut lines: Vec<String> = Vec::new();
    let mut i: usize = 0;
    while i < logs.len()
        invariant
            i <= logs@.len(),
            spec_views(lines@) == logs@.take(i as int).map_values(|e: UiLogEntry| spec_activity_entry(e)),
        decreases logs@.len() - i,
    {
        let line = activity_plain_log_entry(&logs[i]);
        let ghost before = lines@;
        lines.push(line);
        assert(spec_views(lines@) =~= spec_views(before).push(spec_activity_entry(logs@[i as int])));
        assert(logs@.take(i + 1).map_values(|e: UiLogEntry| spec_activity_entry(e)) =~= logs@.take(i as int).map_values(
            |e: UiLogEntry| spec_activity_entry(e),
        ).push(spec_activity_entry(logs@[i as int])));
        i += 1;
    }
    assert(logs@.take(logs@.len() as int) =~= logs@);
    crate::host::config::join_strings(&lines, "\n")
}

/// The newest activity entry as text, if any.
pub fn last_activity_plain_text(logs: &[UiLogEntry]) -> (text: Option<String>)
    ensures
        logs@.len() == 0 ==> text is None,
        logs@.len() > 0 ==> (text matches Some(t) && t@ == spec_activity_entry(logs@.last())),
{
    if logs.len() == 0 {
        None
    } else {
        Some(activity_plain_log_entry(&logs[logs.len() - 1]))
    }
}

/// A log entry as values.
pub type LogView = (LogLevel, Seq<char>, usize);

/// The values of a log entry.
pub open spec fn spec_log_view(e: UiLogEntry) -> LogView {
    (e.level, e.message@, e.repeats)
}

/// The values of log entries.
pub open spec fn spec_log_views(s: Seq<UiLogEntry>) -> Seq<LogView> {
    s.map_values(|e: UiLogEntry| spec_log_view(e))
}

/// The log after a message at `level` reaches a console filtering at
/// `filter`: hidden levels change nothing; a repeat of the newest entry
/// bumps its count; otherwise the message is appended, dropping the oldest
/// entry when the log holds `capacity` entries. Messages are stored with whitespace collapsed.
pub open spec fn spec_log_after(logs: Seq<LogView>, capacity: int, filter: LogLevel, level: LogLevel, message: Seq<char>) -> Seq<
    LogView,
> {
    let m = spec_sanitize(message);
    if !spec_allows(filter, level) {
        logs
    } else if logs.len() > 0 && logs.last().0 == level && logs.last().1 == m {
        let last = logs.last();
        logs.update(logs.len() - 1, (level, m, if last.2 == usize::MAX { usize::MAX } else { (last.2 + 1) as usize }))
    } else if logs.len() == capacity {
        logs.drop_first().push((level, m, 1))
    } else {
        logs.push((level, m, 1))
    }
}

/// A log stays within its capacity, and a shown message ends up newest.
pub proof fn lemma_log_within_capacity(logs: Seq<LogView>, capacity: int, filter: LogLevel, level: LogLevel, message: Seq<char>)
    requires
        0 < capacity,
        logs.len() <= capacity,
    ensures
        spec_log_after(logs, capacity, filter, level, message).len() <= capacity,
        spec_allows(filter, level) ==> {
            let after = spec_log_after(logs, capacity, filter, level, message);
            &&& after.len() > 0
            &&& after.last().0 == level
            &&& after.last().1 == spec_sanitize(message)
        },
{
}

/// The same message twice in a row is one entry counting its repeats: the
/// second adds no entry and bumps the newest entry's count.
pub proof fn lemma_repeat_folds(logs: Seq<LogView>, capacity: int, filter: LogLevel, level: LogLevel, message: Seq<char>)
    requires
        0 < capacity,
        logs.len() <= capacity,
        spec_allows(filter, level),
    ensures
        ({
            let once = spec_log_after(logs, capacity, filter, level, message);
            let twice = spec_log_after(once, capacity, filter, level, message);
            &&& twice.len() == once.len()
            &&& twice.drop_last() == once.drop_last()
            &&& twice.last().0 == level
            &&& twice.last().1 == once.last().1
            &&& twice.last().2 == if once.last().2 == usize::MAX { usize::MAX } else { (once.last().2 + 1) as usize }
        }),
{
    let once = spec_log_after(logs, capacity, filter, level, message);
    let twice = spec_log_after(once, capacity, filter, level, message);
    assert(twice.drop_last() =~= once.drop_last());
}

/// Record a message at `level` in a log of at most `capacity` entries kept
/// at `filter`.
pub fn record_log(logs: &mut Vec<UiLogEntry>, capacity: usize, filter: LogLevel, level: LogLevel, message: &str)
    requires
        0 < capacity,
        old(logs)@.len() <= capacity,
    ensures
        final(logs)@.len() <= capacity,
        spec_log_views(final(logs)@) == spec_log_after(spec_log_views(old(logs)@), capacity as int, filter, level, message@),
{
    if !allows(filter, level) {
        return;
    }
    let message = sanitize_message(message);
    let ghost m = message@;
    let ghost before = spec_log_views(logs@);
    let n = logs.len();
    if n > 0 {
        let last = &logs[n - 1];
        let same = last.level == level && str_eq(last.message.as_str(), message.as_str());
        if same {
            let repeats = if last.repeats == usize::MAX {
                usize::MAX
            } else {
                last.repeats + 1
            };
            let entry = UiLogEntry { level, message, repeats };
            logs.set(n - 1, entry);
            assert(spec_log_views(logs@) =~= before.update(n - 1, (level, m, repeats)));
            return;
        }
    }
    if n == capacity {
        logs.remove(0);
        assert(spec_log_views(logs@) =~= before.drop_first());
    }
    let ghost mid = spec_log_views(logs@);
    logs.push(UiLogEntry { level, message, repeats: 1 });
    assert(spec_log_views(logs@) =~= mid.push((level, m, 1usize)));
}

/// Title of the plain session screen.
pub const SESSION_TITLE: &'static str = "mortimmy";

/// How many messages the plain session screen keeps.
pub const SESSION_LOG_CAPACITY: usize = 10;

/// The plain session screen: the connection, the drive, the command help
/// and the recent messages.
#[derive(Clone, Debug)]
pub struct SessionUi {
    pub log_level: LogLevel,
    pub no_color: bool,
    pub commands: Vec<String>,
    pub logs: Vec<UiLogEntry>,
    pub connection_status: String,
    pub control_state: ControlState,
}

/// The rows above the messages: title, connection, drive, a blank row, the
/// command help, a blank row and the messages heading.
pub open spec fn spec_session_header(status: Seq<char>, control: ControlState, commands: Seq<Seq<char>>) -> Seq<Seq<char>> {
    seq![SESSION_TITLE@, "Connection: "@ + status, "Drive: "@ + spec_describe_control(control, "idle"@), Seq::<char>::empty()]
        + commands + seq![Seq::<char>::empty(), "Recent messages:"@]
}

/// The rows a screen of `width` by `height` (at least 20 by 10) shows: the
/// header, then the newest messages that fit below it, each row cut to the
/// width.
pub open spec fn spec_session_screen(
    status: Seq<char>,
    control: ControlState,
    commands: Seq<Seq<char>>,
    logs: Seq<UiLogEntry>,
    width: nat,
    height: nat,
) -> Seq<Seq<char>> {
    let w: nat = if width < 20 { 20 } else { width };
    let h: nat = if height < 10 { 10 } else { height };
    let header = spec_session_header(status, control, commands);
    let available: nat = if h >= header.len() { (h - header.len()) as nat } else { 0 };
    let all = header + spec_rendered(logs.map_values(|e: UiLogEntry| spec_format_entry(e)), w, available);
    let shown = if all.len() <= h { all } else { all.take(h as int) };
    shown.map_values(|l: Seq<char>| spec_fit(l, w))
}

impl SessionUi {
    /// The log is within its capacity.
    pub open spec fn wf(&self) -> bool {
        self.logs@.len() <= SESSION_LOG_CAPACITY
    }

    /// A screen connecting, idle, with no messages; `commands` is the help
    /// text, one row per line.
    pub fn new(log_level: LogLevel, no_color: bool, commands: &str) -> (ui: Self)
        ensures
            ui.wf(),
            ui.log_level == log_level,
            ui.no_color == no_color,
            spec_views(ui.commands@) == spec_lines(commands@),
            ui.logs@.len() == 0,
            ui.connection_status@ == "Connecting"@,
            ui.control_state.drive is None,
    {
        let rows = lines(commands);
        assert(spec_views(rows@) =~= spec_lines(commands@));
        SessionUi {
            log_level,
            no_color,
            commands: rows,
            logs: Vec::new(),
            connection_status: "Connecting".to_string(),
            control_state: ControlState { drive: None },
        }
    }

    /// Record a message.
    pub fn log(&mut self, level: LogLevel, message: &str)
        requires
            old(self).wf(),
        ensures
            final(self).wf(),
            spec_log_views(final(self).logs@) == spec_log_after(
                spec_log_views(old(self).logs@),
                SESSION_LOG_CAPACITY as int,
                old(self).log_level,
                level,
                message@,
            ),
            final(self).connection_status == old(self).connection_status,
            final(self).control_state == old(self).control_state,
            final(self).log_level == old(self).log_level,
    {
        record_log(&mut self.logs, SESSION_LOG_CAPACITY, self.log_level, level, message);
    }

    /// Show a new connection status.
    pub fn set_connection_status(&mut self, status: String)
        ensures
            final(self).connection_status == status,
            final(self).logs == old(self).logs,
            final(self).control_state == old(self).control_state,
    {
        self.connection_status = status;
    }

    /// Show a new control state.
    pub fn set_control_state(&mut self, control_state: ControlState)
        ensures
            final(self).control_state == control_state,
            final(self).logs == old(self).logs,
            final(self).connection_status == old(self).connection_status,
    {
        self.control_state = control_state;
    }

    /// The rows of a screen of `width` by `height`.
    pub fn screen_lines(&self, width: u16, height: u16) -> (rows: Vec<String>)
        ensures
            spec_views(rows@) == spec_session_screen(
                self.connection_status@,
                self.control_state,
                spec_views(self.commands@),
                self.logs@,
                width as nat,
                height as nat,
            ),
    {
        let w: usize = if width < 20 { 20 } else { width as usize };
        let h: usize = if height < 10 { 10 } else { height as usize };
        let mut all: Vec<String> = Vec::new();
        all.push(SESSION_TITLE.to_string());
        let mut connection = "Connection: ".to_string();
        push_str(&mut connection, self.connection_status.as_str());
        all.push(connection);
        let mut drive = "Drive: ".to_string();
        let described = describe_control_state(self.control_state);
        push_str(&mut drive, described.as_str());
        all.push(drive);
        all.push(String::new());
        let mut k: usize = 0;
        let ghost first = spec_views(all@);
        assert(first[0] == SESSION_TITLE@);
        assert(first[1] == "Connection: "@ + self.connection_status@);
        assert(first[2] == "Drive: "@ + spec_describe_control(self.control_state, "idle"@));
        assert(first[3] == Seq::<char>::empty());
        while k < self.commands.len()
            invariant
                k <= self.commands@.len(),
                spec_views(all@) =~= first + spec_views(self.commands@).take(k as int),
            decreases self.commands@.len() - k,
        {
            let line = chars_to_string(str_to_chars(self.commands[k].as_str()).as_slice());
            let ghost before = spec_views(all@);
            all.push(line);
            assert(spec_views(self.commands@).take(k + 1) =~= spec_views(self.commands@).take(k as int).push(
                self.commands@[k as int]@,
            ));
            assert(spec_views(all@) =~= before.push(line@));
            k += 1;
        }
        let ghost mid = spec_views(all@);
        let blank = String::new();
        let heading = "Recent messages:".to_string();
        assert(blank@ == Seq::<char>::empty());
        assert(heading@ == "Recent messages:"@);
        all.push(blank);
        all.push(heading);
        assert(spec_views(all@) =~= mid + seq![Seq::<char>::empty(), "Recent messages:"@]);
        assert(first =~= seq![SESSION_TITLE@, "Connection: "@ + self.connection_status@, "Drive: "@ + spec_describe_control(self.control_state, "idle"@), Seq::<char>::empty()]);
        let ghost header = spec_session_header(self.connection_status@, self.control_state, spec_views(self.commands@));
        assert(spec_views(self.commands@).take(k as int) =~= spec_views(self.commands@));
        assert(spec_views(all@) =~= header);
        let available: usize = if h >= all.len() { h - all.len() } else { 0 };
        let rendered = rendered_log_lines(self.logs.as_slice(), w, available);
        let ghost before_logs = spec_views(all@);
        let mut r: usize = 0;
        while r < rendered.len()
            invariant
                r <= rendered@.len(),
                spec_views(all@) =~= before_logs + spec_views(rendered@).take(r as int),
            decreases rendered@.len() - r,
        {
            let line = chars_to_string(str_to_chars(rendered[r].as_str()).as_slice());
            let ghost before = spec_views(all@);
            all.push(line);
            assert(spec_views(rendered@).take(r + 1) =~= spec_views(rendered@).take(r as int).push(rendered@[r as int]@));
            assert(spec_views(all@) =~= before.push(line@));
            r += 1;
        }
        assert(spec_views(rendered@).take(r as int) =~= spec_views(rendered@));
        let ghost full = spec_views(all@);
        let shown_len: usize = if all.len() <= h { all.len() } else { h };
        let ghost shown = full.take(shown_len as int);
        let mut rows: Vec<String> = Vec::new();
        let mut i: usize = 0;
        while i < shown_len
            invariant
                i <= shown_len <= all@.len(),
                full == spec_views(all@),
                shown == full.take(shown_len as int),
                spec_views(rows@) =~= shown.take(i as int).map_values(|l: Seq<char>| spec_fit(l, w as nat)),
            decreases shown_len - i,
        {
            let fitted = fit_line(all[i].as_str(), w);
            let ghost before = spec_views(rows@);
            rows.push(fitted);
            assert(shown.take(i + 1) =~= shown.take(i as int).push(shown[i as int]));
            assert(spec_views(rows@) =~= before.push(fitted@));
            i += 1;
        }
        assert(shown.take(i as int) =~= shown);
        rows
    }
}

/// A session output that shows nothing.
#[derive(Clone, Copy, Debug, Default)]
pub struct NullSessionOutput;

impl NullSessionOutput {
    /// Drop a message.
    pub fn log(&mut self, level: LogLevel, message: String) -> (result: Result<(), String>)
        ensures
            result is Ok,
    {
        Ok(())
    }

    /// Drop a connection status.
    pub fn set_connection_status(&mut self, status: String) -> (result: Result<(), String>)
        ensures
            result is Ok,
    {
        Ok(())
    }

    /// Drop a control state.
    pub fn set_control_state(&mut self, control_state: ControlState) -> (result: Result<(), String>)
        ensures
            result is Ok,
    {
        Ok(())
    }

    /// Drop a desired mode.
    pub fn set_desired_mode(&mut self, mode: Mode) -> (result: Result<(), String>)
        ensures
            result is Ok,
    {
        Ok(())
    }
}

} // verus!
