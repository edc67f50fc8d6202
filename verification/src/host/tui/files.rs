//! Workspace file index behind `@file` references of chat prompts.
//!
//! Walking the directory tree and reading file contents are the
//! application's part; the index orders the files it is given, suggests
//! them by prefix, resolves references, and expands a prompt once the
//! referenced contents have been read.

use vstd::prelude::*;

use crate::host::config::{join_strings, spec_join, spec_views};
use crate::host::ui::{spec_words, split_whitespace};
use crate::text::{chars_to_string, push_str, spec_trim, str_to_chars, trim_chars};

verus! {

broadcast use vstd::seq_lib::group_to_multiset_ensures;

/// How many suggestions a prefix yields at most.
pub const MAX_FILE_SUGGESTIONS: usize = 12;

/// How many candidates an ambiguity error lists at most.
pub const MAX_AMBIGUOUS_LISTED: usize = 6;

/// One file of the workspace.
#[derive(Clone, Debug, PartialEq, Eq)]
pub struct WorkspaceFile {
    pub absolute_path: String,
    /// Path below the workspace root, with `/` separators.
    pub relative_path: String,
    pub file_name: String,
}

/// A file as values.
pub type FileView = (Seq<char>, Seq<char>, Seq<char>);

/// The values of a file.
pub open spec fn spec_file_view(f: WorkspaceFile) -> FileView {
    (f.absolute_path@, f.relative_path@, f.file_name@)
}

/// The values of a sequence of files.
pub open spec fn spec_file_views(s: Seq<WorkspaceFile>) -> Seq<FileView> {
    s.map_values(|f: WorkspaceFile| spec_file_view(f))
}

/// Lexicographic order of character sequences by code point, as `str` orders.
pub open spec fn spec_chars_le(a: Seq<char>, b: Seq<char>) -> bool
    decreases a.len(),
{
    if a.len() == 0 {
        true
    } else if b.len() == 0 {
        false
    } else if a[0] != b[0] {
        a[0] < b[0]
    } else {
        spec_chars_le(a.drop_first(), b.drop_first())
    }
}

/// The order is total.
pub proof fn lemma_chars_le_total(a: Seq<char>, b: Seq<char>)
    ensures
        spec_chars_le(a, b) || spec_chars_le(b, a),
    decreases a.len(),
{
    if a.len() > 0 && b.len() > 0 && a[0] == b[0] {
        lemma_chars_le_total(a.drop_first(), b.drop_first());
    }
}

/// The order is transitive.
pub proof fn lemma_chars_le_transitive(a: Seq<char>, b: Seq<char>, c: Seq<char>)
    requires
        spec_chars_le(a, b),
        spec_chars_le(b, c),
    ensures
        spec_chars_le(a, c),
    decreases a.len(),
{
    if a.len() > 0 && b.len() > 0 && c.len() > 0 && a[0] == b[0] && b[0] == c[0] {
        lemma_chars_le_transitive(a.drop_first(), b.drop_first(), c.drop_first());
    }
}

/// Whether `a` orders before or with `b`.
pub fn chars_le(a: &[char], b: &[char]) -> (le: bool)
    ensures
        le == spec_chars_le(a@, b@),
{
    assert(a@.skip(0) =~= a@);
    assert(b@.skip(0) =~= b@);
    let mut i: usize = 0;
    while i < a.len()
        invariant
            i <= a@.len(),
            i <= b@.len(),
            forall|k: int| 0 <= k < i ==> a@[k] == b@[k],
            spec_chars_le(a@, b@) == spec_chars_le(a@.skip(i as int), b@.skip(i as int)),
        decreases a@.len() - i,
    {
        if i >= b.len() {
            return false;
        }
        let ghost sa = a@.skip(i as int);
        let ghost sb = b@.skip(i as int);
        assert(sa[0] == a@[i as int] && sb[0] == b@[i as int]);
        if a[i] != b[i] {
            return a[i] < b[i];
        }
        assert(sa.drop_first() =~= a@.skip(i + 1));
        assert(sb.drop_first() =~= b@.skip(i + 1));
        i += 1;
    }
    true
}

/// A copy of a file entry.
pub fn copy_file(f: &WorkspaceFile) -> (copy: WorkspaceFile)
    ensures
        spec_file_view(copy) == spec_file_view(*f),
{
    WorkspaceFile {
        absolute_path: f.absolute_path.clone(),
        relative_path: f.relative_path.clone(),
        file_name: f.file_name.clone(),
    }
}

/// Whether a file's relative path orders before or with `key`.
fn file_path_le(f: &WorkspaceFile, key: &[char]) -> (le: bool)
    ensures
        le == spec_chars_le(f.relative_path@, key@),
{
    let path = str_to_chars(f.relative_path.as_str());
    chars_le(path.as_slice(), key)
}

/// Files ordered by relative path.
pub open spec fn spec_sorted_by_path(s: Seq<WorkspaceFile>) -> bool {
    forall|i: int, j: int| 0 <= i < j < s.len() ==> spec_chars_le(#[trigger] s[i].relative_path@, #[trigger] s[j].relative_path@)
}

/// Files ordered by relative path, the order of equal paths kept (a stable sort).
pub fn sort_files(files: Vec<WorkspaceFile>) -> (sorted: Vec<WorkspaceFile>)
    ensures
        spec_sorted_by_path(sorted@),
        spec_file_views(sorted@).to_multiset() == spec_file_views(files@).to_multiset(),
{
    let mut sorted: Vec<WorkspaceFile> = Vec::new();
    let mut i: usize = 0;
    while i < files.len()
        invariant
            i <= files@.len(),
            spec_sorted_by_path(sorted@),
            spec_file_views(sorted@).to_multiset() == spec_file_views(files@.take(i as int)).to_multiset(),
        decreases files@.len() - i,
    {
        let f = copy_file(&files[i]);
        let ghost fv = spec_file_view(files@[i as int]);
        let key = str_to_chars(f.relative_path.as_str());
        let mut p: usize = 0;
        while p < sorted.len() && file_path_le(&sorted[p], key.as_slice())
            invariant
                p <= sorted@.len(),
                key@ == f.relative_path@,
                forall|k: int| 0 <= k < p ==> spec_chars_le(#[trigger] sorted@[k].relative_path@, key@),
            decreases sorted@.len() - p,
        {
            p += 1;
        }
        let found = p < sorted.len();
        let ghost before = sorted@;
        proof {
            if found {
                lemma_chars_le_total(before[p as int].relative_path@, key@);
                assert forall|k: int| p <= k < before.len() implies spec_chars_le(key@, #[trigger] before[k].relative_path@) by {
                    if k > p {
                        lemma_chars_le_transitive(key@, before[p as int].relative_path@, before[k].relative_path@);
                    }
                }
            }
        }
        sorted.insert(p, f);
        proof {
            assert(sorted@ == before.insert(p as int, f));
            assert forall|a: int, b: int| 0 <= a < b < sorted@.len() implies spec_chars_le(
                #[trigger] sorted@[a].relative_path@,
                #[trigger] sorted@[b].relative_path@,
            ) by {
                if b < p {
                    assert(sorted@[a] == before[a] && sorted@[b] == before[b]);
                } else if b == p {
                    assert(sorted@[a] == before[a]);
                } else if a < p {
                    assert(sorted@[a] == before[a] && sorted@[b] == before[b - 1]);
                    if found {
                        lemma_chars_le_transitive(before[a].relative_path@, key@, before[b - 1].relative_path@);
                    }
                } else if a == p {
                    assert(sorted@[b] == before[b - 1]);
                } else {
                    assert(sorted@[a] == before[a - 1] && sorted@[b] == before[b - 1]);
                }
            }
            assert(spec_file_views(sorted@) =~= spec_file_views(before).insert(p as int, fv));
            vstd::seq_lib::to_multiset_insert(spec_file_views(before), p as int, fv);
            assert(spec_file_views(files@.take(i + 1)) =~= spec_file_views(files@.take(i as int)).push(fv));
            vstd::seq_lib::to_multiset_build(spec_file_views(files@.take(i as int)), fv);
        }
        i += 1;
    }
    assert(files@.take(files@.len() as int) =~= files@);
    sorted
}

/// Whether `prefix` starts `s`.
pub open spec fn spec_starts_with(s: Seq<char>, prefix: Seq<char>) -> bool {
    prefix.len() <= s.len() && s.take(prefix.len() as int) == prefix
}

/// Whether `prefix` starts `s`.
pub fn starts_with(s: &[char], prefix: &[char]) -> (r: bool)
    ensures
        r == spec_starts_with(s@, prefix@),
{
    if prefix.len() > s.len() {
        return false;
    }
    let mut i: usize = 0;
    while i < prefix.len()
        invariant
            prefix@.len() <= s@.len(),
            i <= prefix@.len(),
            forall|k: int| 0 <= k < i ==> s@[k] == prefix@[k],
        decreases prefix@.len() - i,
    {
        if s[i] != prefix[i] {
            assert(s@.take(prefix@.len() as int)[i as int] != prefix@[i as int]);
            return false;
        }
        i += 1;
    }
    assert(s@.take(prefix@.len() as int) =~= prefix@);
    true
}

/// Whether a file matches a prefix by relative path or file name.
pub open spec fn spec_file_matches(f: WorkspaceFile, prefix: Seq<char>) -> bool {
    spec_starts_with(f.relative_path@, prefix) || spec_starts_with(f.file_name@, prefix)
}

/// Whether discovery skips a directory of this name.
pub fn is_skipped_dir(name: &str) -> (skip: bool)
    ensures
        skip == (name@ == ".git"@ || name@ == "target"@),
{
    crate::text::str_eq(name, ".git") || crate::text::str_eq(name, "target")
}

/// A path with every `\\` written as `/`.
pub open spec fn spec_slash_separated(path: Seq<char>) -> Seq<char> {
    path.map_values(|c: char| if c == '\\' { '/' } else { c })
}

/// Write a path with `/` separators.
pub fn slash_separated(path: &str) -> (out: String)
    ensures
        out@ == spec_slash_separated(path@),
{
    let chars = crate::text::str_to_chars(path);
    let mut out_chars: Vec<char> = Vec::new();
    let mut i: usize = 0;
    while i < chars.len()
        invariant
            i <= chars@.len(),
            chars@ == path@,
            out_chars@ =~= spec_slash_separated(chars@.take(i as int)),
        decreases chars@.len() - i,
    {
        let c = chars[i];
        out_chars.push(if c == '\\' { '/' } else { c });
        assert(chars@.take(i + 1) =~= chars@.take(i as int).push(c));
        i += 1;
    }
    assert(chars@.take(i as int) =~= chars@);
    crate::text::chars_to_string(out_chars.as_slice())
}

/// A file reference resolved and read.
#[derive(Clone, Debug, PartialEq, Eq)]
pub struct ResolvedFileReference {
    pub absolute_path: String,
    pub relative_path: String,
    pub content: String,
}

/// A prompt with its file references expanded.
#[derive(Clone, Debug, PartialEq, Eq)]
pub struct ExpandedText {
    pub text: String,
    pub references: Vec<ResolvedFileReference>,
}

/// The workspace files, ordered by relative path.
#[derive(Clone, Debug)]
pub struct FileIndex {
    files: Vec<WorkspaceFile>,
}

impl FileIndex {
    /// The files of the index, in order.
    pub closed spec fn spec_files(&self) -> Seq<WorkspaceFile> {
        self.files@
    }

    /// The files are ordered by relative path.
    pub open spec fn wf(&self) -> bool {
        spec_sorted_by_path(self.spec_files())
    }

    /// An index of no files.
    pub fn empty() -> (index: Self)
        ensures
            index.wf(),
            index.spec_files().len() == 0,
    {
        FileIndex { files: Vec::new() }
    }

    /// An index of the given files, ordered by relative path.
    pub fn from_files(files: Vec<WorkspaceFile>) -> (index: Self)
        ensures
            index.wf(),
            spec_file_views(index.spec_files()).to_multiset() == spec_file_views(files@).to_multiset(),
    {
        FileIndex { files: sort_files(files) }
    }

    /// The files whose relative path or name starts with `prefix` (every file
    /// for an empty prefix), at most twelve, in path order.
    pub fn suggest(&self, prefix: &str) -> (matches: Vec<WorkspaceFile>)
        ensures
            spec_file_views(matches@) == spec_file_views(
                self.spec_files().filter(|f: WorkspaceFile| spec_trim(prefix@).len() == 0 || spec_file_matches(f, spec_trim(prefix@))),
            ).take(
                if self.spec_files().filter(|f: WorkspaceFile| spec_trim(prefix@).len() == 0 || spec_file_matches(f, spec_trim(prefix@))).len()
                    < MAX_FILE_SUGGESTIONS {
                    self.spec_files().filter(|f: WorkspaceFile| spec_trim(prefix@).len() == 0 || spec_file_matches(f, spec_trim(prefix@))).len() as int
                } else {
                    MAX_FILE_SUGGESTIONS as int
                },
            ),
            self.wf() ==> spec_sorted_by_path(matches@),
    {
        let raw = str_to_chars(prefix);
        let p = trim_chars(raw.as_slice());
        let ghost pred = |f: WorkspaceFile| spec_trim(prefix@).len() == 0 || spec_file_matches(f, spec_trim(prefix@));
        let mut matches: Vec<WorkspaceFile> = Vec::new();
        let mut i: usize = 0;
        while i < self.files.len()
            invariant
                i <= self.files@.len(),
                p@ == spec_trim(prefix@),
                pred == (|f: WorkspaceFile| spec_trim(prefix@).len() == 0 || spec_file_matches(f, spec_trim(prefix@))),
                spec_file_views(matches@) == spec_file_views(self.files@.take(i as int).filter(pred)),
                self.wf() ==> spec_sorted_by_path(matches@),
                self.wf() ==> forall|m: int, k: int|
                    0 <= m < matches@.len() && i <= k < self.files@.len() ==> spec_chars_le(
                        #[trigger] matches@[m].relative_path@,
                        #[trigger] self.files@[k].relative_path@,
                    ),
            decreases self.files@.len() - i,
        {
            let f = &self.files[i];
            let path = str_to_chars(f.relative_path.as_str());
            let name = str_to_chars(f.file_name.as_str());
            proof {
                reveal(Seq::filter);
                assert(self.files@.take(i + 1).drop_last() =~= self.files@.take(i as int));
                assert(self.files@.take(i + 1).last() == self.files@[i as int]);
            }
            if p.len() == 0 || starts_with(path.as_slice(), p.as_slice()) || starts_with(name.as_slice(), p.as_slice()) {
                let copy = copy_file(f);
                let ghost before = matches@;
                matches.push(copy);
                assert(spec_file_views(matches@) =~= spec_file_views(before).push(spec_file_view(self.files@[i as int])));
                assert(matches@[before.len() as int].relative_path@ == self.files@[i as int].relative_path@);
                proof {
                    if self.wf() {
                        assert forall|m: int, k: int|
                            0 <= m < matches@.len() && i + 1 <= k < self.files@.len() implies spec_chars_le(
                            #[trigger] matches@[m].relative_path@,
                            #[trigger] self.files@[k].relative_path@,
                        ) by {
                            if m < before.len() {
                                assert(matches@[m] == before[m]);
                                assert(spec_chars_le(before[m].relative_path@, self.files@[k].relative_path@));
                            } else {
                                assert(self.files@[i as int] == self.spec_files()[i as int]);
                                assert(self.files@[k] == self.spec_files()[k]);
                            }
                        }
                        assert forall|a: int, b: int| 0 <= a < b < matches@.len() implies spec_chars_le(
                            #[trigger] matches@[a].relative_path@,
                            #[trigger] matches@[b].relative_path@,
                        ) by {
                            assert(matches@[a] == before[a]);
                            if b < before.len() {
                                assert(matches@[b] == before[b]);
                            } else {
                                assert(spec_chars_le(before[a].relative_path@, self.files@[i as int].relative_path@));
                            }
                        }
                    }
                }
                assert(spec_file_views(self.files@.take(i + 1).filter(pred)) =~= spec_file_views(self.files@.take(i as int).filter(pred)).push(
                    spec_file_view(self.files@[i as int]),
                ));
            }
            i += 1;
        }
        assert(self.files@.take(self.files@.len() as int) =~= self.files@);
        let ghost all = matches@;
        if matches.len() > MAX_FILE_SUGGESTIONS {
            matches.truncate(MAX_FILE_SUGGESTIONS);
            assert(spec_file_views(matches@) =~= spec_file_views(all).take(MAX_FILE_SUGGESTIONS as int));
        } else {
            assert(spec_file_views(all).take(all.len() as int) =~= spec_file_views(all));
        }
        matches
    }
}

impl Default for FileIndex {
    fn default() -> (index: Self)
        ensures
            index.wf(),
            index.spec_files().len() == 0,
    {
        Self::empty()
    }
}


/// Index of the first file whose relative path is exactly `name`, if any.
pub open spec fn spec_exact_index(files: Seq<WorkspaceFile>, name: Seq<char>) -> Option<int> {
    if exists|i: int| 0 <= i < files.len() && #[trigger] files[i].relative_path@ == name {
        Some(choose|i: int| 0 <= i < files.len() && files[i].relative_path@ == name && forall|k: int| 0 <= k < i ==> #[trigger] files[k].relative_path@ != name)
    } else {
        None
    }
}

/// The outcome of resolving a reference: a file when the trimmed reference
/// is a relative path of the index, or else when exactly one file matches it
/// by prefix; otherwise the error message.
pub open spec fn spec_resolve(files: Seq<WorkspaceFile>, reference: Seq<char>) -> Result<FileView, Seq<char>> {
    let n = spec_trim(reference);
    let matches = files.filter(|f: WorkspaceFile| spec_file_matches(f, n));
    if n.len() == 0 {
        Err("file reference is empty"@)
    } else if spec_exact_index(files, n) is Some {
        Ok(spec_file_view(files[spec_exact_index(files, n)->0]))
    } else if matches.len() == 1 {
        Ok(spec_file_view(matches[0]))
    } else if matches.len() == 0 {
        Err("no file matches @"@ + n)
    } else {
        Err("@"@ + n + " is ambiguous: "@ + spec_join(
            matches.take(if matches.len() < MAX_AMBIGUOUS_LISTED { matches.len() as int } else { MAX_AMBIGUOUS_LISTED as int }).map_values(|f: WorkspaceFile| f.relative_path@),
            ", "@,
        ))
    }
}

/// Whether a word is a file reference.
pub open spec fn spec_is_reference(word: Seq<char>) -> bool {
    word.len() > 0 && word[0] == '@'
}

/// The words of `words` that are file references, without their `@`.
pub open spec fn spec_reference_names(words: Seq<Seq<char>>) -> Seq<Seq<char>>
    decreases words.len(),
{
    if words.len() == 0 {
        Seq::empty()
    } else {
        let rest = spec_reference_names(words.drop_last());
        if spec_is_reference(words.last()) {
            rest.push(words.last().drop_first())
        } else {
            rest
        }
    }
}

/// `words` with the k-th reference replaced by `paths[k]`.
pub open spec fn spec_rewrite(words: Seq<Seq<char>>, paths: Seq<Seq<char>>) -> Seq<Seq<char>>
    decreases words.len(),
{
    if words.len() == 0 {
        Seq::empty()
    } else if spec_is_reference(words.last()) {
        spec_rewrite(words.drop_last(), paths.drop_last()).push(paths.last())
    } else {
        spec_rewrite(words.drop_last(), paths).push(words.last())
    }
}

/// The block listing the referenced files and their contents.
pub open spec fn spec_reference_block(refs: Seq<ResolvedFileReference>) -> Seq<char>
    decreases refs.len(),
{
    if refs.len() == 0 {
        Seq::empty()
    } else {
        let r = refs.last();
        spec_reference_block(refs.drop_last()) + "[file:"@ + r.relative_path@ + "]\n"@ + r.content@ + "\n[/file:"@
            + r.relative_path@ + "]\n\n"@
    }
}

/// The expanded prompt: the input unchanged when it references nothing;
/// otherwise its words with references replaced by the files' paths, joined
/// by spaces, then the referenced files and their contents.
pub open spec fn spec_expanded(input: Seq<char>, refs: Seq<ResolvedFileReference>) -> Seq<char> {
    if refs.len() == 0 {
        input
    } else {
        spec_join(spec_rewrite(spec_words(input), refs.map_values(|r: ResolvedFileReference| r.relative_path@)), " "@)
            + "\n\nReferenced files:\n"@ + spec_reference_block(refs)
    }
}

/// The number of references among `words` is that of the names listed.
proof fn lemma_reference_count(words: Seq<Seq<char>>)
    ensures
        spec_reference_names(words).len() <= words.len(),
    decreases words.len(),
{
    if words.len() > 0 {
        lemma_reference_count(words.drop_last());
    }
}

/// The first exact match is the one the index reports.
proof fn lemma_exact_index(files: Seq<WorkspaceFile>, name: Seq<char>, i: int)
    requires
        0 <= i < files.len(),
        files[i].relative_path@ == name,
        forall|k: int| 0 <= k < i ==> #[trigger] files[k].relative_path@ != name,
    ensures
        spec_exact_index(files, name) == Some(i),
{
    let c = choose|c: int| 0 <= c < files.len() && files[c].relative_path@ == name && forall|k: int| 0 <= k < c ==> #[trigger] files[k].relative_path@ != name;
    assert(0 <= c < files.len() && files[c].relative_path@ == name && forall|k: int| 0 <= k < c ==> #[trigger] files[k].relative_path@ != name);
    if c < i {
        assert(files[c].relative_path@ != name);
    }
    if c > i {
        assert(files[i].relative_path@ != name);
    }
}

impl FileIndex {
    /// Resolve one `@` reference (given without its `@`) to a file.
    pub fn resolve(&self, reference: &str) -> (result: Result<WorkspaceFile, String>)
        ensures
            match result {
                Ok(f) => spec_resolve(self.spec_files(), reference@) == Ok::<FileView, Seq<char>>(spec_file_view(f)),
                Err(m) => spec_resolve(self.spec_files(), reference@) == Err::<FileView, Seq<char>>(m@),
            },
    {
        let raw = str_to_chars(reference);
        let n = trim_chars(raw.as_slice());
        if n.len() == 0 {
            return Err("file reference is empty".to_string());
        }
        let mut i: usize = 0;
        while i < self.files.len()
            invariant
                i <= self.files@.len(),
                n@ == spec_trim(reference@),
                n@.len() > 0,
                forall|k: int| 0 <= k < i ==> #[trigger] self.files@[k].relative_path@ != n@,
            decreases self.files@.len() - i,
        {
            let path = str_to_chars(self.files[i].relative_path.as_str());
            if crate::text::chars_eq(path.as_slice(), n.as_slice()) {
                proof {
                    lemma_exact_index(self.files@, n@, i as int);
                }
                return Ok(copy_file(&self.files[i]));
            }
            i += 1;
        }
        let ghost pred = |f: WorkspaceFile| spec_file_matches(f, spec_trim(reference@));
        let mut matches: Vec<WorkspaceFile> = Vec::new();
        let mut j: usize = 0;
        while j < self.files.len()
            invariant
                j <= self.files@.len(),
                n@ == spec_trim(reference@),
                n@.len() > 0,
                pred == (|f: WorkspaceFile| spec_file_matches(f, spec_trim(reference@))),
                spec_file_views(matches@) == spec_file_views(self.files@.take(j as int).filter(pred)),
                forall|k: int| 0 <= k < matches@.len() ==> (#[trigger] matches@[k]).relative_path@ == self.files@.take(j as int).filter(pred)[k].relative_path@,
            decreases self.files@.len() - j,
        {
            let f = &self.files[j];
            let path = str_to_chars(f.relative_path.as_str());
            let name = str_to_chars(f.file_name.as_str());
            proof {
                reveal(Seq::filter);
                assert(self.files@.take(j + 1).drop_last() =~= self.files@.take(j as int));
                assert(self.files@.take(j + 1).last() == self.files@[j as int]);
            }
            if starts_with(path.as_slice(), n.as_slice()) || starts_with(name.as_slice(), n.as_slice()) {
                let copy = copy_file(f);
                let ghost before = matches@;
                matches.push(copy);
                assert(spec_file_views(matches@) =~= spec_file_views(before).push(spec_file_view(self.files@[j as int])));
                assert(spec_file_views(self.files@.take(j + 1).filter(pred)) =~= spec_file_views(self.files@.take(j as int).filter(pred)).push(
                    spec_file_view(self.files@[j as int]),
                ));
                assert(self.files@.take(j + 1).filter(pred) =~= self.files@.take(j as int).filter(pred).push(self.files@[j as int]));
            } else {
                assert(self.files@.take(j + 1).filter(pred) =~= self.files@.take(j as int).filter(pred));
            }
            j += 1;
        }
        assert(self.files@.take(self.files@.len() as int) =~= self.files@);
        let ghost all = self.files@.filter(pred);
        assert(spec_exact_index(self.files@, n@) is None);
        if matches.len() == 1 {
            assert(spec_file_view(matches@[0]) == spec_file_views(matches@)[0]);
            return Ok(matches.remove(0));
        }
        let mut message = String::new();
        if matches.len() == 0 {
            push_str(&mut message, "no file matches @");
            crate::text::push_chars(&mut message, n.as_slice());
            return Err(message);
        }
        let limit = if matches.len() < MAX_AMBIGUOUS_LISTED { matches.len() } else { MAX_AMBIGUOUS_LISTED };
        let mut listed: Vec<String> = Vec::new();
        let mut k: usize = 0;
        while k < limit
            invariant
                k <= limit <= matches@.len(),
                matches@.len() == all.len(),
                forall|q: int| 0 <= q < matches@.len() ==> (#[trigger] matches@[q]).relative_path@ == all[q].relative_path@,
                spec_views(listed@) == all.take(k as int).map_values(|f: WorkspaceFile| f.relative_path@),
            decreases limit - k,
        {
            let path = matches[k].relative_path.clone();
            let ghost before = listed@;
            listed.push(path);
            assert(spec_views(listed@) =~= spec_views(before).push(all[k as int].relative_path@));
            assert(all.take(k + 1).map_values(|f: WorkspaceFile| f.relative_path@) =~= all.take(k as int).map_values(
                |f: WorkspaceFile| f.relative_path@,
            ).push(all[k as int].relative_path@));
            k += 1;
        }
        push_str(&mut message, "@");
        crate::text::push_chars(&mut message, n.as_slice());
        push_str(&mut message, " is ambiguous: ");
        let joined = join_strings(&listed, ", ");
        push_str(&mut message, joined.as_str());
        Err(message)
    }
}


/// The files the references among `words` resolve to, in order, or the
/// error of the first that does not resolve.
pub open spec fn spec_plan(files: Seq<WorkspaceFile>, words: Seq<Seq<char>>) -> Result<Seq<FileView>, Seq<char>>
    decreases words.len(),
{
    if words.len() == 0 {
        Ok(Seq::empty())
    } else {
        match spec_plan(files, words.drop_last()) {
            Err(e) => Err(e),
            Ok(found) => if spec_is_reference(words.last()) {
                match spec_resolve(files, words.last().drop_first()) {
                    Ok(f) => Ok(found.push(f)),
                    Err(e) => Err(e),
                }
            } else {
                Ok(found)
            },
        }
    }
}

/// A copy of a resolved reference.
pub fn copy_reference(r: &ResolvedFileReference) -> (copy: ResolvedFileReference)
    ensures
        copy.absolute_path@ == r.absolute_path@,
        copy.relative_path@ == r.relative_path@,
        copy.content@ == r.content@,
{
    ResolvedFileReference {
        absolute_path: r.absolute_path.clone(),
        relative_path: r.relative_path.clone(),
        content: r.content.clone(),
    }
}

impl FileIndex {
    /// The files a prompt references with `@name` words, in order; the
    /// first reference that does not resolve gives the error.
    pub fn plan_references(&self, input: &str) -> (result: Result<Vec<WorkspaceFile>, String>)
        ensures
            match result {
                Ok(found) => spec_plan(self.spec_files(), spec_words(input@)) == Ok::<Seq<FileView>, Seq<char>>(spec_file_views(found@)),
                Err(m) => spec_plan(self.spec_files(), spec_words(input@)) == Err::<Seq<FileView>, Seq<char>>(m@),
            },
    {
        let chars = str_to_chars(input);
        let words = split_whitespace(chars.as_slice());
        let ghost ws = spec_words(input@);
        let mut found: Vec<WorkspaceFile> = Vec::new();
        assert(ws.take(0) =~= Seq::<Seq<char>>::empty());
        assert(spec_file_views(found@) =~= Seq::<FileView>::empty());
        let mut i: usize = 0;
        while i < words.len()
            invariant
                i <= words@.len(),
                spec_views(words@) == ws,
                ws == spec_words(input@),
                forall|k: int| 0 <= k < words@.len() ==> (#[trigger] words@[k])@.len() > 0,
                spec_plan(self.spec_files(), ws.take(i as int)) == Ok::<Seq<FileView>, Seq<char>>(spec_file_views(found@)),
            decreases words@.len() - i,
        {
            let word = str_to_chars(words[i].as_str());
            assert(word@ == ws[i as int]);
            assert(ws.take(i + 1).drop_last() =~= ws.take(i as int));
            assert(ws.take(i + 1).last() == ws[i as int]);
            if word[0] == '@' {
                let name = crate::host::ui::chars_range(word.as_slice(), 1, word.len());
                assert(name@ =~= ws[i as int].drop_first());
                let name_text = chars_to_string(name.as_slice());
                match self.resolve(name_text.as_str()) {
                    Ok(f) => {
                        let ghost before = found@;
                        found.push(f);
                        assert(spec_file_views(found@) =~= spec_file_views(before).push(spec_file_view(f)));
                    },
                    Err(m) => {
                        proof {
                            lemma_plan_error_sticks(self.spec_files(), ws, i as int + 1);
                        }
                        return Err(m);
                    },
                }
            }
            i += 1;
        }
        assert(ws.take(words@.len() as int) =~= ws);
        Ok(found)
    }
}

/// Once planning a prefix fails, planning every longer prefix fails the same way.
proof fn lemma_plan_error_sticks(files: Seq<WorkspaceFile>, words: Seq<Seq<char>>, i: int)
    requires
        0 <= i <= words.len(),
        spec_plan(files, words.take(i)) is Err,
    ensures
        spec_plan(files, words) == spec_plan(files, words.take(i)),
    decreases words.len() - i,
{
    if i < words.len() {
        assert(words.take(i + 1).drop_last() =~= words.take(i));
        lemma_plan_error_sticks(files, words, i + 1);
    } else {
        assert(words.take(i) =~= words);
    }
}

/// Expand a prompt with the files its references resolved to, read in
/// order: references become the files' paths and the contents are listed
/// after the text. A prompt without references stays as it is.
pub fn render_expanded(input: &str, references: &[ResolvedFileReference]) -> (expanded: ExpandedText)
    requires
        references@.len() == spec_reference_names(spec_words(input@)).len(),
    ensures
        expanded.text@ == spec_expanded(input@, references@),
        expanded.references@.len() == references@.len(),
        forall|k: int|
            0 <= k < references@.len() ==> (#[trigger] expanded.references@[k]).relative_path@ == references@[k].relative_path@
                && expanded.references@[k].content@ == references@[k].content@
                && expanded.references@[k].absolute_path@ == references@[k].absolute_path@,
{
    let mut copies: Vec<ResolvedFileReference> = Vec::new();
    let mut c: usize = 0;
    while c < references.len()
        invariant
            c <= references@.len(),
            copies@.len() == c,
            forall|k: int|
                0 <= k < c ==> (#[trigger] copies@[k]).relative_path@ == references@[k].relative_path@ && copies@[k].content@
                    == references@[k].content@ && copies@[k].absolute_path@ == references@[k].absolute_path@,
        decreases references@.len() - c,
    {
        copies.push(copy_reference(&references[c]));
        c += 1;
    }
    if references.len() == 0 {
        let mut text = String::new();
        push_str(&mut text, input);
        return ExpandedText { text, references: copies };
    }
    let chars = str_to_chars(input);
    let words = split_whitespace(chars.as_slice());
    let ghost ws = spec_words(input@);
    let ghost paths = references@.map_values(|r: ResolvedFileReference| r.relative_path@);
    let mut rewritten: Vec<String> = Vec::new();
    let mut r: usize = 0;
    let mut i: usize = 0;
    while i < words.len()
        invariant
            i <= words@.len(),
            spec_views(words@) == ws,
            ws == spec_words(input@),
            references@.len() == spec_reference_names(ws).len(),
            paths == references@.map_values(|r: ResolvedFileReference| r.relative_path@),
            forall|k: int| 0 <= k < words@.len() ==> (#[trigger] words@[k])@.len() > 0,
            r == spec_reference_names(ws.take(i as int)).len(),
            r <= references@.len(),
            spec_views(rewritten@) == spec_rewrite(ws.take(i as int), paths.take(r as int)),
        decreases words@.len() - i,
    {
        let word = str_to_chars(words[i].as_str());
        assert(word@ == ws[i as int]);
        assert(ws.take(i + 1).drop_last() =~= ws.take(i as int));
        assert(ws.take(i + 1).last() == ws[i as int]);
        proof {
            lemma_names_prefix_bound(ws, i as int + 1);
        }
        let ghost before = rewritten@;
        if word[0] == '@' {
            let path = references[r].relative_path.clone();
            rewritten.push(path);
            assert(paths.take(r + 1).drop_last() =~= paths.take(r as int));
            assert(paths.take(r + 1).last() == references@[r as int].relative_path@);
            assert(spec_views(rewritten@) =~= spec_views(before).push(references@[r as int].relative_path@));
            r += 1;
        } else {
            let copy = words[i].clone();
            rewritten.push(copy);
            assert(spec_views(rewritten@) =~= spec_views(before).push(ws[i as int]));
        }
        i += 1;
    }
    assert(ws.take(words@.len() as int) =~= ws);
    assert(paths.take(r as int) =~= paths);
    let mut text = join_strings(&rewritten, " ");
    push_str(&mut text, "\n\nReferenced files:\n");
    let ghost head = text@;
    let mut k: usize = 0;
    while k < references.len()
        invariant
            k <= references@.len(),
            text@ == head + spec_reference_block(references@.take(k as int)),
        decreases references@.len() - k,
    {
        let reference = &references[k];
        push_str(&mut text, "[file:");
        push_str(&mut text, reference.relative_path.as_str());
        push_str(&mut text, "]\n");
        push_str(&mut text, reference.content.as_str());
        push_str(&mut text, "\n[/file:");
        push_str(&mut text, reference.relative_path.as_str());
        push_str(&mut text, "]\n\n");
        assert(references@.take(k + 1).drop_last() =~= references@.take(k as int));
        assert(references@.take(k + 1).last() == references@[k as int]);
        proof {
            let r = references@[k as int];
            assert(head + spec_reference_block(references@.take(k + 1)) =~= head + spec_reference_block(
                references@.take(k as int),
            ) + "[file:"@ + r.relative_path@ + "]\n"@ + r.content@ + "\n[/file:"@ + r.relative_path@ + "]\n\n"@);
        }
        k += 1;
    }
    assert(references@.take(references@.len() as int) =~= references@);
    ExpandedText { text, references: copies }
}

/// Counting references over a longer prefix never counts fewer.
proof fn lemma_names_prefix_bound(words: Seq<Seq<char>>, i: int)
    requires
        0 <= i <= words.len(),
    ensures
        spec_reference_names(words.take(i)).len() <= spec_reference_names(words).len(),
    decreases words.len() - i,
{
    if i < words.len() {
        lemma_names_prefix_bound(words, i + 1);
        assert(words.take(i + 1).drop_last() =~= words.take(i));
    } else {
        assert(words.take(i) =~= words);
    }
}

} // verus!
