//! Tab completion of the console command line: command names, `/help`
//! topics, `/mode` values and `@file` references.
//!
//! `suggestions` and `apply_suggestion` count positions in UTF-8 bytes of
//! the command line; the console, which keeps its cursor in characters,
//! uses `suggestions_at_char` and `apply_suggestion_at_char`, whose
//! positions count characters.

use vstd::prelude::*;

use crate::host::tui::commands::{
    CommandSpec, CommandSpecView, command_specs, spec_command_table, spec_strip_leading, spec_strip_slashes, strip_leading, strip_slashes,
};
use crate::host::tui::files::{FileIndex, WorkspaceFile, spec_file_matches, spec_starts_with, starts_with};
use crate::host::ui::{chars_range, spec_words, split_whitespace};
use crate::text::{
    byte_pos, char_floor, lemma_encode_len, lemma_floor_bounded, lemma_floor_monotone, lemma_floor_of_pos, spec_byte_pos, spec_char_floor,
    spec_is_char_boundary, chars_to_string, is_ascii_whitespace, lowercase_chars, push_chars, push_str, spec_is_ascii_whitespace, spec_lowercase,
    spec_trim, str_to_chars,
};

verus! {

/// One completion candidate: what to show, and what replaces the token
/// between `start` and `end`: UTF-8 byte offsets from `suggestions`,
/// character indices from `suggestions_at_char`.
#[derive(Clone, Debug, PartialEq, Eq)]
pub struct Suggestion {
    pub label: String,
    pub detail: String,
    pub replacement: String,
    pub append_space: bool,
    pub start: usize,
    pub end: usize,
}

/// A suggestion as values.
pub struct SuggestionView {
    pub label: Seq<char>,
    pub detail: Seq<char>,
    pub replacement: Seq<char>,
    pub append_space: bool,
    pub start: int,
    pub end: int,
}

impl View for Suggestion {
    type V = SuggestionView;

    open spec fn view(&self) -> SuggestionView {
        SuggestionView {
            label: self.label@,
            detail: self.detail@,
            replacement: self.replacement@,
            append_space: self.append_space,
            start: self.start as int,
            end: self.end as int,
        }
    }
}

/// The views of suggestions.
pub open spec fn spec_suggestion_views(s: Seq<Suggestion>) -> Seq<SuggestionView> {
    s.map_values(|x: Suggestion| x@)
}

/// Number of non-whitespace characters just before index `i`.
pub open spec fn spec_run_before(c: Seq<char>, i: int) -> int
    decreases i,
{
    if 0 < i <= c.len() && !spec_is_ascii_whitespace(c[i - 1]) {
        1 + spec_run_before(c, i - 1)
    } else {
        0
    }
}

/// Number of non-whitespace characters from index `i` on.
pub open spec fn spec_run_after(c: Seq<char>, i: int) -> int
    decreases c.len() - i,
{
    if 0 <= i < c.len() && !spec_is_ascii_whitespace(c[i]) {
        1 + spec_run_after(c, i + 1)
    } else {
        0
    }
}

/// The token around `cursor`: the run of characters other than ASCII
/// whitespace that contains it.
pub open spec fn spec_token_bounds(c: Seq<char>, cursor: int) -> (int, int) {
    (cursor - spec_run_before(c, cursor), cursor + spec_run_after(c, cursor))
}

proof fn lemma_runs_bounded(c: Seq<char>, i: int)
    requires
        0 <= i <= c.len(),
    ensures
        0 <= spec_run_before(c, i) <= i,
        0 <= spec_run_after(c, i) <= c.len() - i,
    decreases c.len() - i,
{
    lemma_run_before_bounded(c, i);
    if i < c.len() {
        lemma_runs_bounded(c, i + 1);
    }
}

proof fn lemma_run_before_bounded(c: Seq<char>, i: int)
    requires
        0 <= i <= c.len(),
    ensures
        0 <= spec_run_before(c, i) <= i,
    decreases i,
{
    if i > 0 {
        lemma_run_before_bounded(c, i - 1);
    }
}

/// The token bounds around `cursor`.
pub fn token_bounds(c: &[char], cursor: usize) -> (bounds: (usize, usize))
    requires
        cursor <= c@.len(),
    ensures
        (bounds.0 as int, bounds.1 as int) == spec_token_bounds(c@, cursor as int),
        bounds.0 <= cursor <= bounds.1 <= c@.len(),
{
    proof {
        lemma_runs_bounded(c@, cursor as int);
    }
    let mut start = cursor;
    while start > 0 && !is_ascii_whitespace(c[start - 1])
        invariant
            start <= cursor <= c@.len(),
            spec_run_before(c@, cursor as int) == (cursor - start) + spec_run_before(c@, start as int),
        decreases start,
    {
        start -= 1;
    }
    let mut end = cursor;
    while end < c.len() && !is_ascii_whitespace(c[end])
        invariant
            cursor <= end <= c@.len(),
            spec_run_after(c@, cursor as int) == (end - cursor) + spec_run_after(c@, end as int),
        decreases c@.len() - end,
    {
        end += 1;
    }
    (start, end)
}

/// Whether a command name completes with a trailing space (it takes arguments).
pub open spec fn spec_command_takes_arguments(name: Seq<char>) -> bool {
    name == "help"@ || name == "mode"@ || name == "servo"@ || name == "drive"@ || name == "chat"@
}

/// Suggestions of the commands whose names start with `prefix`; when
/// `slash` the replacement is `/name` and a space follows commands that take
/// arguments, otherwise the replacement is the bare name.
pub open spec fn spec_command_name_suggestions(prefix: Seq<char>, start: int, end: int, slash: bool) -> Seq<SuggestionView> {
    spec_command_table().filter(|c: CommandSpecView| spec_starts_with(c.name, prefix)).map_values(
        |c: CommandSpecView|
            SuggestionView {
                label: "/"@ + c.name,
                detail: c.summary,
                replacement: if slash { "/"@ + c.name } else { c.name },
                append_space: slash && spec_command_takes_arguments(c.name),
                start,
                end,
            },
    )
}

/// The `/mode` values that start with `prefix`.
pub open spec fn spec_fixed_value_suggestions(prefix: Seq<char>, start: int, end: int) -> Seq<SuggestionView> {
    seq!["teleop"@, "autonomous"@, "fault"@].filter(|v: Seq<char>| spec_starts_with(v, prefix)).map_values(
        |v: Seq<char>| SuggestionView { label: v, detail: "mode value"@, replacement: v, append_space: false, start, end },
    )
}

/// Suggestions of the workspace files matching a reference prefix.
pub open spec fn spec_file_suggestions(files: Seq<WorkspaceFile>, start: int, end: int) -> Seq<SuggestionView> {
    files.map_values(
        |f: WorkspaceFile|
            SuggestionView {
                label: "@"@ + f.relative_path@,
                detail: "workspace file"@,
                replacement: "@"@ + f.relative_path@,
                append_space: true,
                start,
                end,
            },
    )
}

/// What the command line asks to complete at `cursor`, when it is a command
/// name, a `/help` topic or a `/mode` value; file references are left to
/// the file index.
pub open spec fn spec_fixed_suggestions(c: Seq<char>, cursor: int) -> Option<Seq<SuggestionView>> {
    let (start, end) = spec_token_bounds(c, cursor);
    let token = c.subrange(start, end);
    let before = spec_words(c.take(start)).len();
    let first = if spec_words(c).len() > 0 { spec_words(c)[0] } else { Seq::empty() };
    let name = spec_lowercase(spec_strip_slashes(first));
    if start == 0 && token.len() > 0 && token[0] == '/' {
        Some(spec_command_name_suggestions(spec_lowercase(spec_strip_slashes(token)), start, end, true))
    } else if first.len() > 0 && first[0] == '/' && before == 1 && name == "help"@ {
        Some(spec_command_name_suggestions(spec_lowercase(spec_strip_slashes(token)), start, end, false))
    } else if first.len() > 0 && first[0] == '/' && before == 1 && name == "mode"@ {
        Some(spec_fixed_value_suggestions(spec_lowercase(token), start, end))
    } else {
        None
    }
}

/// Whether a command name completes with a trailing space: it takes arguments.
fn command_name_should_append_space(name: &str) -> (append: bool)
    ensures
        append == spec_command_takes_arguments(name@),
{
    crate::text::str_eq(name, "help") || crate::text::str_eq(name, "mode") || crate::text::str_eq(name, "servo")
        || crate::text::str_eq(name, "drive") || crate::text::str_eq(name, "chat")
}

/// Whether a fixed value completes with a trailing space: mode names do not.
fn fixed_value_should_append_space(value: &str) -> (append: bool)
    ensures
        append == !(value@ == "teleop"@ || value@ == "autonomous"@ || value@ == "fault"@),
{
    !(crate::text::str_eq(value, "teleop") || crate::text::str_eq(value, "autonomous") || crate::text::str_eq(value, "fault"))
}

fn command_name_suggestions(prefix: &[char], start: usize, end: usize, slash: bool) -> (out: Vec<Suggestion>)
    ensures
        spec_suggestion_views(out@) == spec_command_name_suggestions(prefix@, start as int, end as int, slash),
{
    let specs = command_specs();
    let ghost table = spec_command_table();
    let ghost pred = |c: CommandSpecView| spec_starts_with(c.name, prefix@);
    let ghost f = |c: CommandSpecView|
        SuggestionView {
            label: "/"@ + c.name,
            detail: c.summary,
            replacement: if slash { "/"@ + c.name } else { c.name },
            append_space: slash && spec_command_takes_arguments(c.name),
            start: start as int,
            end: end as int,
        };
    let mut out: Vec<Suggestion> = Vec::new();
    let mut i: usize = 0;
    while i < specs.len()
        invariant
            i <= specs@.len(),
            specs@.map_values(|s: CommandSpec| s@) == table,
            table == spec_command_table(),
            pred == (|c: CommandSpecView| spec_starts_with(c.name, prefix@)),
            f == (|c: CommandSpecView|
                SuggestionView {
                    label: "/"@ + c.name,
                    detail: c.summary,
                    replacement: if slash { "/"@ + c.name } else { c.name },
                    append_space: slash && spec_command_takes_arguments(c.name),
                    start: start as int,
                    end: end as int,
                }),
            spec_suggestion_views(out@) == table.take(i as int).filter(pred).map_values(f),
        decreases specs@.len() - i,
    {
        let spec = &specs[i];
        assert(specs@[i as int]@ == table[i as int]);
        let name = str_to_chars(spec.name);
        proof {
            reveal(Seq::filter);
            assert(table.take(i + 1).drop_last() =~= table.take(i as int));
            assert(table.take(i + 1).last() == table[i as int]);
        }
        if starts_with(name.as_slice(), prefix) {
            let mut label = String::new();
            push_str(&mut label, "/");
            push_str(&mut label, spec.name);
            let mut replacement = String::new();
            if slash {
                push_str(&mut replacement, "/");
            }
            push_str(&mut replacement, spec.name);
            let takes = command_name_should_append_space(spec.name);
            let mut detail = String::new();
            push_str(&mut detail, spec.summary);
            let ghost before = out@;
            out.push(Suggestion { label, detail, replacement, append_space: slash && takes, start, end });
            proof {
                assert(spec_suggestion_views(out@) =~= spec_suggestion_views(before).push(f(table[i as int])));
                assert(table.take(i + 1).filter(pred) =~= table.take(i as int).filter(pred).push(table[i as int]));
                assert(table.take(i + 1).filter(pred).map_values(f) =~= table.take(i as int).filter(pred).map_values(f).push(
                    f(table[i as int]),
                ));
            }
        } else {
            assert(table.take(i + 1).filter(pred) =~= table.take(i as int).filter(pred));
        }
        i += 1;
    }
    assert(table.take(specs@.len() as int) =~= table);
    out
}

fn fixed_value_suggestions(prefix: &[char], start: usize, end: usize) -> (out: Vec<Suggestion>)
    ensures
        spec_suggestion_views(out@) == spec_fixed_value_suggestions(prefix@, start as int, end as int),
{
    let values: Vec<&'static str> = vec!["teleop", "autonomous", "fault"];
    let ghost vals = seq!["teleop"@, "autonomous"@, "fault"@];
    let ghost pred = |v: Seq<char>| spec_starts_with(v, prefix@);
    let ghost f = |v: Seq<char>| SuggestionView { label: v, detail: "mode value"@, replacement: v, append_space: false, start: start as int, end: end as int };
    let mut out: Vec<Suggestion> = Vec::new();
    let mut i: usize = 0;
    assert(values@.map_values(|s: &'static str| s@) =~= vals);
    while i < values.len()
        invariant
            i <= values@.len(),
            values@.map_values(|s: &'static str| s@) == vals,
            vals == seq!["teleop"@, "autonomous"@, "fault"@],
            pred == (|v: Seq<char>| spec_starts_with(v, prefix@)),
            f == (|v: Seq<char>| SuggestionView { label: v, detail: "mode value"@, replacement: v, append_space: false, start: start as int, end: end as int }),
            spec_suggestion_views(out@) == vals.take(i as int).filter(pred).map_values(f),
        decreases values@.len() - i,
    {
        let value = values[i];
        assert(value@ == vals[i as int]);
        let chars = str_to_chars(value);
        proof {
            reveal(Seq::filter);
            assert(vals.take(i + 1).drop_last() =~= vals.take(i as int));
            assert(vals.take(i + 1).last() == vals[i as int]);
        }
        if starts_with(chars.as_slice(), prefix) {
            let ghost before = out@;
            assert(value@ == "teleop"@ || value@ == "autonomous"@ || value@ == "fault"@) by {
                assert(values@.map_values(|s: &'static str| s@).len() == values@.len());
                assert(i < 3);
                if i == 0 {
                    assert(vals[0] == "teleop"@);
                } else if i == 1 {
                    assert(vals[1] == "autonomous"@);
                } else {
                    assert(vals[2] == "fault"@);
                }
            }
            out.push(Suggestion {
                label: value.to_string(),
                detail: "mode value".to_string(),
                replacement: value.to_string(),
                append_space: fixed_value_should_append_space(value),
                start,
                end,
            });
            proof {
                assert(spec_suggestion_views(out@) =~= spec_suggestion_views(before).push(f(vals[i as int])));
                assert(vals.take(i + 1).filter(pred) =~= vals.take(i as int).filter(pred).push(vals[i as int]));
                assert(vals.take(i + 1).filter(pred).map_values(f) =~= vals.take(i as int).filter(pred).map_values(f).push(f(vals[i as int])));
            }
        } else {
            assert(vals.take(i + 1).filter(pred) =~= vals.take(i as int).filter(pred));
        }
        i += 1;
    }
    assert(vals.take(3) =~= vals);
    out
}

fn file_suggestions(files: Vec<WorkspaceFile>, start: usize, end: usize) -> (out: Vec<Suggestion>)
    ensures
        spec_suggestion_views(out@) == spec_file_suggestions(files@, start as int, end as int),
{
    let mut out: Vec<Suggestion> = Vec::new();
    let mut i: usize = 0;
    while i < files.len()
        invariant
            i <= files@.len(),
            spec_suggestion_views(out@) == spec_file_suggestions(files@.take(i as int), start as int, end as int),
        decreases files@.len() - i,
    {
        let mut label = String::new();
        push_str(&mut label, "@");
        push_str(&mut label, files[i].relative_path.as_str());
        let mut replacement = String::new();
        push_str(&mut replacement, "@");
        push_str(&mut replacement, files[i].relative_path.as_str());
        let ghost before = out@;
        out.push(Suggestion { label, detail: "workspace file".to_string(), replacement, append_space: true, start, end });
        assert(spec_suggestion_views(out@) =~= spec_suggestion_views(before).push(spec_file_suggestions(files@.take(i + 1), start as int, end as int).last()));
        assert(spec_file_suggestions(files@.take(i + 1), start as int, end as int) =~= spec_file_suggestions(files@.take(i as int), start as int, end as int).push(
            spec_file_suggestions(files@.take(i + 1), start as int, end as int).last(),
        ));
        i += 1;
    }
    assert(files@.take(files@.len() as int) =~= files@);
    out
}

/// Whether `out` are the completions of command line `input` at `cursor`
/// over the workspace `files`.
pub open spec fn spec_suggested(input: Seq<char>, cursor: int, files: Seq<WorkspaceFile>, out: Seq<SuggestionView>) -> bool {
    let c = input;
    let cur = if cursor <= c.len() { cursor } else { c.len() as int };
    let (start, end) = spec_token_bounds(c, cur);
    let token = c.subrange(start, end);
    let matching = files.filter(|f: WorkspaceFile| spec_trim(spec_strip_leading(token, '@')).len() == 0 || spec_file_matches(f, spec_trim(spec_strip_leading(token, '@'))));
    match spec_fixed_suggestions(c, cur) {
        Some(s) => out == s,
        None => if token.len() > 0 && token[0] == '@' {
            &&& out == spec_file_suggestions(matching, start, end).take(out.len() as int)
            &&& out.len() == (if matching.len() < 12 { matching.len() as int } else { 12 })
        } else {
            out.len() == 0
        },
    }
}

/// The completions of the command line at character `cursor` (clamped to its end):
/// command names for a leading `/` token, command names after `/help`, mode
/// values after `/mode`, workspace files for an `@` token, otherwise none.
pub fn suggestions_at_char(input: &str, cursor: usize, files: &FileIndex) -> (out: Vec<Suggestion>)
    ensures
        spec_suggested(input@, cursor as int, files.spec_files(), spec_suggestion_views(out@)),
{
    let c = str_to_chars(input);
    let cursor = if cursor <= c.len() { cursor } else { c.len() };
    let (start, end) = token_bounds(c.as_slice(), cursor);
    let token = chars_range(c.as_slice(), start, end);
    let head = chars_range(c.as_slice(), 0, start);
    let before = split_whitespace(head.as_slice());
    let all_words = split_whitespace(c.as_slice());
    assert(head@ =~= c@.take(start as int));
    let first: Vec<char> = if all_words.len() > 0 {
        str_to_chars(all_words[0].as_str())
    } else {
        Vec::new()
    };
    let stripped_first = strip_slashes(first.as_slice());
    let name = lowercase_chars(stripped_first.as_slice());
    if start == 0 && token.len() > 0 && token[0] == '/' {
        let stripped = strip_slashes(token.as_slice());
        let prefix = lowercase_chars(stripped.as_slice());
        return command_name_suggestions(prefix.as_slice(), start, end, true);
    }
    if first.len() > 0 && first[0] == '/' && before.len() == 1 {
        if crate::text::chars_eq(name.as_slice(), str_to_chars("help").as_slice()) {
            let stripped = strip_slashes(token.as_slice());
            let prefix = lowercase_chars(stripped.as_slice());
            return command_name_suggestions(prefix.as_slice(), start, end, false);
        }
        if crate::text::chars_eq(name.as_slice(), str_to_chars("mode").as_slice()) {
            let prefix = lowercase_chars(token.as_slice());
            return fixed_value_suggestions(prefix.as_slice(), start, end);
        }
    }
    if token.len() > 0 && token[0] == '@' {
        let reference = strip_leading(token.as_slice(), '@');
        let text = chars_to_string(reference.as_slice());
        let matches = files.suggest(text.as_str());
        let out = file_suggestions(matches, start, end);
        proof {
            let pred = |f: WorkspaceFile| spec_trim(spec_strip_leading(token@, '@')).len() == 0 || spec_file_matches(f, spec_trim(spec_strip_leading(token@, '@')));
            let all = files.spec_files().filter(pred);
            let n = if all.len() < 12 { all.len() as int } else { 12 };
            assert(text@ == spec_strip_leading(token@, '@'));
            assert(crate::host::tui::files::spec_file_views(matches@) == crate::host::tui::files::spec_file_views(all).take(n));
            assert(matches@.len() == n);
            assert forall|k: int| 0 <= k < n implies #[trigger] matches@[k].relative_path@ == all[k].relative_path@ by {
                assert(crate::host::tui::files::spec_file_views(matches@)[k] == crate::host::tui::files::spec_file_views(all)[k]);
            }
            assert(spec_file_suggestions(matches@, start as int, end as int) =~= spec_file_suggestions(all, start as int, end as int).take(n));
            assert(spec_fixed_suggestions(c@, cursor as int) is None);
        }
        return out;
    }
    Vec::new()
}

/// The command line after applying a suggestion: the token replaced, then a
/// space added when the suggestion asks for one and none follows already.
pub open spec fn spec_applied(input: Seq<char>, s: SuggestionView) -> (Seq<char>, int) {
    let replaced = input.take(s.start) + s.replacement + input.skip(s.end);
    let next = s.start + s.replacement.len();
    if s.append_space && (next == replaced.len() || !spec_is_ascii_whitespace(replaced[next])) {
        (replaced.insert(next, ' '), next + 1)
    } else {
        (replaced, next)
    }
}

/// Apply a suggestion whose positions count characters to the command line
/// and move the character cursor after it.
pub fn apply_suggestion_at_char(input: &mut String, cursor: &mut usize, suggestion: &Suggestion)
    requires
        suggestion.start <= suggestion.end <= old(input)@.len(),
        old(input)@.len() + suggestion.replacement@.len() + 1 <= usize::MAX,
    ensures
        (final(input)@, *final(cursor) as int) == spec_applied(old(input)@, suggestion@),
{
    let c = str_to_chars(input.as_str());
    let replacement = str_to_chars(suggestion.replacement.as_str());
    let mut out: Vec<char> = chars_range(c.as_slice(), 0, suggestion.start);
    let mut i: usize = 0;
    let ghost head = out@;
    while i < replacement.len()
        invariant
            i <= replacement@.len(),
            out@ == head + replacement@.take(i as int),
        decreases replacement@.len() - i,
    {
        out.push(replacement[i]);
        assert(replacement@.take(i + 1) =~= replacement@.take(i as int).push(replacement@[i as int]));
        i += 1;
    }
    assert(replacement@.take(replacement@.len() as int) =~= replacement@);
    let tail = chars_range(c.as_slice(), suggestion.end, c.len());
    let mut j: usize = 0;
    let ghost mid = out@;
    while j < tail.len()
        invariant
            j <= tail@.len(),
            out@ == mid + tail@.take(j as int),
        decreases tail@.len() - j,
    {
        out.push(tail[j]);
        assert(tail@.take(j + 1) =~= tail@.take(j as int).push(tail@[j as int]));
        j += 1;
    }
    assert(tail@.take(tail@.len() as int) =~= tail@);
    assert(out@ =~= c@.take(suggestion.start as int) + replacement@ + c@.skip(suggestion.end as int));
    let next = suggestion.start + replacement.len();
    if suggestion.append_space && (next == out.len() || !is_ascii_whitespace(out[next])) {
        out.insert(next, ' ');
        *cursor = next + 1;
    } else {
        *cursor = next;
    }
    *input = chars_to_string(out.as_slice());
}

/// A suggestion with its character positions turned into UTF-8 byte offsets of `input`.
pub open spec fn spec_to_bytes(input: Seq<char>, v: SuggestionView) -> SuggestionView {
    SuggestionView { start: spec_byte_pos(input, v.start), end: spec_byte_pos(input, v.end), ..v }
}

/// A suggestion with its UTF-8 byte offsets turned into character positions of `input`.
pub open spec fn spec_to_chars(input: Seq<char>, v: SuggestionView) -> SuggestionView {
    SuggestionView { start: spec_char_floor(input, v.start), end: spec_char_floor(input, v.end), ..v }
}

/// The byte offsets `suggestions` reports for a suggestion within the
/// command line are character boundaries, as `apply_suggestion` asks, and
/// turn back into the character positions they came from, so applying them
/// replaces exactly the completed token.
pub proof fn lemma_byte_positions_roundtrip(input: Seq<char>, v: SuggestionView)
    requires
        0 <= v.start <= v.end <= input.len(),
    ensures
        spec_is_char_boundary(input, spec_to_bytes(input, v).start),
        spec_is_char_boundary(input, spec_to_bytes(input, v).end),
        spec_to_chars(input, spec_to_bytes(input, v)) == v,
{
    lemma_floor_of_pos(input, v.start);
    lemma_floor_of_pos(input, v.end);
}

/// A copy of a suggestion with other positions.
fn moved(s: &Suggestion, start: usize, end: usize) -> (m: Suggestion)
    ensures
        m@ == (SuggestionView { start: start as int, end: end as int, ..s@ }),
{
    Suggestion {
        label: s.label.clone(),
        detail: s.detail.clone(),
        replacement: s.replacement.clone(),
        append_space: s.append_space,
        start,
        end,
    }
}

/// The completions of the command line at byte offset `cursor` (clamped to
/// its end), with their positions as UTF-8 byte offsets: what
/// `suggestions_at_char` gives at the character the cursor falls in (a
/// cursor inside a character lies in the same token as that character).
pub fn suggestions(input: &str, cursor: usize, files: &FileIndex) -> (out: Vec<Suggestion>)
    ensures
        exists|cs: Seq<SuggestionView>|
            spec_suggested(input@, spec_char_floor(input@, cursor as int), files.spec_files(), cs)
                && spec_suggestion_views(out@) == cs.map_values(|v: SuggestionView| spec_to_bytes(input@, v)),
{
    let bytes = input.as_bytes().len();
    let chars = str_to_chars(input);
    assert(vstd::utf8::encode_utf8(chars@).len() == bytes);
    let at = char_floor(chars.as_slice(), cursor);
    let found = suggestions_at_char(input, at, files);
    let ghost cs = spec_suggestion_views(found@);
    let mut out: Vec<Suggestion> = Vec::new();
    let mut k: usize = 0;
    while k < found.len()
        invariant
            k <= found@.len(),
            cs == spec_suggestion_views(found@),
            chars@ == input@,
            vstd::utf8::encode_utf8(chars@).len() <= usize::MAX,
            spec_suggestion_views(out@) == cs.take(k as int).map_values(|v: SuggestionView| spec_to_bytes(input@, v)),
        decreases found@.len() - k,
    {
        let s = &found[k];
        let start = byte_pos(chars.as_slice(), s.start);
        let end = byte_pos(chars.as_slice(), s.end);
        let ghost before = out@;
        out.push(moved(s, start, end));
        proof {
            assert(cs[k as int] == found@[k as int]@);
            assert(spec_suggestion_views(out@) =~= spec_suggestion_views(before).push(spec_to_bytes(input@, cs[k as int])));
            assert(cs.take(k + 1).map_values(|v: SuggestionView| spec_to_bytes(input@, v)) =~= cs.take(k as int).map_values(
                |v: SuggestionView| spec_to_bytes(input@, v),
            ).push(spec_to_bytes(input@, cs[k as int])));
        }
        k += 1;
    }
    assert(cs.take(found@.len() as int) =~= cs);
    assert(at as int == spec_char_floor(input@, cursor as int));
    out
}

/// Apply a suggestion whose positions are UTF-8 byte offsets on character
/// boundaries to the command line, and move the byte cursor after it: the
/// character-position application of the same suggestion, with the
/// resulting cursor given in bytes.
pub fn apply_suggestion(input: &mut String, cursor: &mut usize, suggestion: &Suggestion)
    requires
        suggestion.start <= suggestion.end,
        spec_is_char_boundary(old(input)@, suggestion.start as int),
        spec_is_char_boundary(old(input)@, suggestion.end as int),
        vstd::utf8::encode_utf8(old(input)@).len() + vstd::utf8::encode_utf8(suggestion.replacement@).len() + 1 <= usize::MAX,
    ensures
        final(input)@ == spec_applied(old(input)@, spec_to_chars(old(input)@, suggestion@)).0,
        *final(cursor) as int == spec_byte_pos(
            final(input)@,
            spec_applied(old(input)@, spec_to_chars(old(input)@, suggestion@)).1,
        ),
{
    let chars = str_to_chars(input.as_str());
    let start = char_floor(chars.as_slice(), suggestion.start);
    let end = char_floor(chars.as_slice(), suggestion.end);
    proof {
        lemma_floor_monotone(old(input)@, suggestion.start as int, suggestion.end as int);
        lemma_floor_bounded(old(input)@, suggestion.end as int);
        lemma_encode_len(old(input)@);
        lemma_encode_len(suggestion.replacement@);
    }
    let local = moved(suggestion, start, end);
    let mut at: usize = 0;
    apply_suggestion_at_char(input, &mut at, &local);
    let result_bytes = input.as_str().as_bytes().len();
    let result = str_to_chars(input.as_str());
    assert(vstd::utf8::encode_utf8(result@).len() == result_bytes);
    *cursor = byte_pos(result.as_slice(), at);
}

} // verus!
