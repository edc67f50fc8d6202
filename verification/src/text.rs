//! Character-level text helpers shared by the console, completion, and log code.

use vstd::prelude::*;

verus! {

broadcast use vstd::string::group_string_axioms;

/// The characters of `s`, in order.
pub fn str_to_chars(s: &str) -> (chars: Vec<char>)
    ensures
        chars@ == s@,
{
    let mut chars: Vec<char> = Vec::new();
    for c in iter: s.chars()
        invariant
            iter.seq() == s@,
            chars@ == iter.seq().take(iter.index() as int),
    {
        chars.push(c);
        assert(iter.seq().take(iter.index() + 1) == iter.seq().take(iter.index() as int).push(c));
    }
    chars
}

/// `String::push`: appends one character.
#[verifier::external_body]
pub(crate) fn string_push(s: &mut String, c: char)
    ensures
        final(s)@ == old(s)@.push(c),
{
    s.push(c)
}

/// A `String` holding exactly `chars`.
pub fn chars_to_string(chars: &[char]) -> (s: String)
    ensures
        s@ == chars@,
{
    let mut s = String::new();
    let mut i: usize = 0;
    while i < chars.len()
        invariant
            i <= chars@.len(),
            s@ == chars@.take(i as int),
        decreases chars@.len() - i,
    {
        string_push(&mut s, chars[i]);
        assert(chars@.take(i + 1) == chars@.take(i as int).push(chars@[i as int]));
        i += 1;
    }
    assert(chars@.take(chars@.len() as int) == chars@);
    s
}

/// Append every character of `tail` to `s`.
pub fn push_chars(s: &mut String, tail: &[char])
    ensures
        final(s)@ == old(s)@ + tail@,
{
    let mut i: usize = 0;
    while i < tail.len()
        invariant
            i <= tail@.len(),
            s@ == old(s)@ + tail@.take(i as int),
        decreases tail@.len() - i,
    {
        string_push(s, tail[i]);
        assert(tail@.take(i + 1) == tail@.take(i as int).push(tail@[i as int]));
        i += 1;
    }
    assert(tail@.take(tail@.len() as int) == tail@);
}

/// Append every character of `tail` to `s`.
pub fn push_str(s: &mut String, tail: &str)
    ensures
        final(s)@ == old(s)@ + tail@,
{
    let chars = str_to_chars(tail);
    push_chars(s, chars.as_slice());
}

/// Whether two character slices are equal.
pub fn chars_eq(a: &[char], b: &[char]) -> (equal: bool)
    ensures
        equal == (a@ == b@),
{
    if a.len() != b.len() {
        return false;
    }
    let mut i: usize = 0;
    while i < a.len()
        invariant
            a@.len() == b@.len(),
            i <= a@.len(),
            forall|j: int| 0 <= j < i ==> a@[j] == b@[j],
        decreases a@.len() - i,
    {
        if a[i] != b[i] {
            return false;
        }
        i += 1;
    }
    assert(a@ =~= b@);
    true
}

/// Whether two strings hold the same characters.
pub fn str_eq(a: &str, b: &str) -> (equal: bool)
    ensures
        equal == (a@ == b@),
{
    let a_chars = str_to_chars(a);
    let b_chars = str_to_chars(b);
    chars_eq(a_chars.as_slice(), b_chars.as_slice())
}

/// Whether `c` is ASCII whitespace: space, tab, line feed, form feed or carriage return.
pub open spec fn spec_is_ascii_whitespace(c: char) -> bool {
    c == ' ' || c == '\t' || c == '\n' || c == '\x0C' || c == '\r'
}

/// Whether `c` is ASCII whitespace.
pub fn is_ascii_whitespace(c: char) -> (r: bool)
    ensures
        r == spec_is_ascii_whitespace(c),
{
    c == ' ' || c == '\t' || c == '\n' || c == '\x0C' || c == '\r'
}

/// The ASCII lower-case form of `c`; other characters are unchanged.
pub open spec fn spec_to_ascii_lowercase(c: char) -> char {
    if 'A' <= c <= 'Z' {
        ((c as u32) + 32) as char
    } else {
        c
    }
}

/// Return the ASCII lower-case form of `c`.
pub fn to_ascii_lowercase(c: char) -> (lower: char)
    ensures
        lower == spec_to_ascii_lowercase(c),
{
    if 'A' <= c && c <= 'Z' {
        ((c as u8) + 32) as char
    } else {
        c
    }
}

/// Whether `c` is an ASCII letter or digit.
pub open spec fn spec_is_ascii_alphanumeric(c: char) -> bool {
    ('a' <= c <= 'z') || ('A' <= c <= 'Z') || ('0' <= c <= '9')
}

/// Whether `c` is an ASCII letter or digit.
pub fn is_ascii_alphanumeric(c: char) -> (r: bool)
    ensures
        r == spec_is_ascii_alphanumeric(c),
{
    ('a' <= c && c <= 'z') || ('A' <= c && c <= 'Z') || ('0' <= c && c <= '9')
}

/// The ASCII lower-case form of every character of `s`.
pub open spec fn spec_lowercase(s: Seq<char>) -> Seq<char> {
    s.map_values(|c: char| spec_to_ascii_lowercase(c))
}

/// Lower-case every ASCII letter of `chars`.
pub fn lowercase_chars(chars: &[char]) -> (lower: Vec<char>)
    ensures
        lower@ == spec_lowercase(chars@),
{
    let mut lower: Vec<char> = Vec::new();
    let mut i: usize = 0;
    while i < chars.len()
        invariant
            i <= chars@.len(),
            lower@ == spec_lowercase(chars@.take(i as int)),
        decreases chars@.len() - i,
    {
        lower.push(to_ascii_lowercase(chars[i]));
        assert(spec_lowercase(chars@.take(i + 1)) == spec_lowercase(chars@.take(i as int)).push(
            spec_to_ascii_lowercase(chars@[i as int]),
        ));
        i += 1;
    }
    assert(chars@.take(chars@.len() as int) == chars@);
    lower
}

/// Decimal digits of `n`, most significant first, without leading zeros
/// (zero itself is the single digit `0`).
pub open spec fn spec_decimal(n: nat) -> Seq<char>
    decreases n,
{
    if n < 10 {
        seq![spec_digit(n)]
    } else {
        spec_decimal(n / 10).push(spec_digit(n % 10))
    }
}

/// The digit character of `d < 10`.
pub open spec fn spec_digit(d: nat) -> char {
    (('0' as u32) + d) as char
}

/// Decimal representation of the signed integer `v`: a leading `-` for
/// negative values, then the digits of its magnitude.
pub open spec fn spec_signed_decimal(v: int) -> Seq<char> {
    if v < 0 {
        seq!['-'] + spec_decimal((-v) as nat)
    } else {
        spec_decimal(v as nat)
    }
}

/// The decimal digits of `n`.
pub fn decimal_digits(n: u64) -> (digits: Vec<char>)
    ensures
        digits@ == spec_decimal(n as nat),
    decreases n,
{
    if n < 10 {
        let d = (n as u8 + 48) as char;
        let mut digits = Vec::new();
        digits.push(d);
        proof {
            assert(spec_digit(n as nat) == d);
        }
        digits
    } else {
        let mut digits = decimal_digits(n / 10);
        let d = ((n % 10) as u8 + 48) as char;
        proof {
            assert(spec_digit((n % 10) as nat) == d);
        }
        digits.push(d);
        digits
    }
}

/// The decimal representation of `v`.
pub fn signed_decimal(v: i64) -> (text: Vec<char>)
    ensures
        text@ == spec_signed_decimal(v as int),
{
    if v < 0 {
        let magnitude: u64 = if v == i64::MIN {
            9_223_372_036_854_775_808u64
        } else {
            (-v) as u64
        };
        let digits = decimal_digits(magnitude);
        let mut text = Vec::new();
        text.push('-');
        let mut i: usize = 0;
        while i < digits.len()
            invariant
                i <= digits@.len(),
                text@ == seq!['-'] + digits@.take(i as int),
            decreases digits@.len() - i,
        {
            text.push(digits[i]);
            assert(digits@.take(i + 1) == digits@.take(i as int).push(digits@[i as int]));
            i += 1;
        }
        assert(digits@.take(digits@.len() as int) == digits@);
        text
    } else {
        decimal_digits(v as u64)
    }
}


/// Whether `c` has the Unicode `White_Space` property, as `char::is_whitespace` decides.
pub open spec fn spec_is_whitespace(c: char) -> bool {
    ||| ('\t' <= c <= '\r')
    ||| c == ' '
    ||| c == '\u{85}'
    ||| c == '\u{a0}'
    ||| c == '\u{1680}'
    ||| ('\u{2000}' <= c <= '\u{200a}')
    ||| c == '\u{2028}'
    ||| c == '\u{2029}'
    ||| c == '\u{202f}'
    ||| c == '\u{205f}'
    ||| c == '\u{3000}'
}

/// Whether `c` is Unicode whitespace.
pub fn is_whitespace(c: char) -> (r: bool)
    ensures
        r == spec_is_whitespace(c),
{
    ('\t' <= c && c <= '\r') || c == ' ' || c == '\u{85}' || c == '\u{a0}' || c == '\u{1680}' || (
    '\u{2000}' <= c && c <= '\u{200a}') || c == '\u{2028}' || c == '\u{2029}' || c == '\u{202f}'
        || c == '\u{205f}' || c == '\u{3000}'
}

/// Number of whitespace characters at the start of `s`.
pub open spec fn spec_leading_ws(s: Seq<char>) -> nat
    decreases s.len(),
{
    if s.len() > 0 && spec_is_whitespace(s[0]) {
        1 + spec_leading_ws(s.drop_first())
    } else {
        0
    }
}

/// Number of whitespace characters at the end of `s`.
pub open spec fn spec_trailing_ws(s: Seq<char>) -> nat
    decreases s.len(),
{
    if s.len() > 0 && spec_is_whitespace(s.last()) {
        1 + spec_trailing_ws(s.drop_last())
    } else {
        0
    }
}

/// `s` without leading whitespace.
pub open spec fn spec_trim_start(s: Seq<char>) -> Seq<char> {
    s.subrange(spec_leading_ws(s) as int, s.len() as int)
}

/// `s` without trailing whitespace.
pub open spec fn spec_trim_end(s: Seq<char>) -> Seq<char> {
    s.subrange(0, s.len() - spec_trailing_ws(s))
}

/// `s` without leading or trailing whitespace, as `str::trim` gives it.
pub open spec fn spec_trim(s: Seq<char>) -> Seq<char> {
    spec_trim_end(spec_trim_start(s))
}

/// The leading whitespace count is the index of the first non-whitespace character.
pub proof fn lemma_leading_ws(s: Seq<char>, i: int)
    requires
        0 <= i <= s.len(),
        forall|k: int| 0 <= k < i ==> spec_is_whitespace(#[trigger] s[k]),
        i == s.len() || !spec_is_whitespace(s[i]),
    ensures
        spec_leading_ws(s) == i,
        spec_leading_ws(s) <= s.len(),
    decreases i,
{
    if i > 0 {
        let t = s.drop_first();
        assert forall|k: int| 0 <= k < i - 1 implies spec_is_whitespace(#[trigger] t[k]) by {
            assert(t[k] == s[k + 1]);
        }
        lemma_leading_ws(t, i - 1);
    }
}

/// The trailing whitespace count is the distance from the last non-whitespace character to the end.
pub proof fn lemma_trailing_ws(s: Seq<char>, j: int)
    requires
        0 <= j <= s.len(),
        forall|k: int| j <= k < s.len() ==> spec_is_whitespace(#[trigger] s[k]),
        j == 0 || !spec_is_whitespace(s[j - 1]),
    ensures
        spec_trailing_ws(s) == s.len() - j,
    decreases s.len() - j,
{
    if j < s.len() {
        let t = s.drop_last();
        assert forall|k: int| j <= k < t.len() implies spec_is_whitespace(#[trigger] t[k]) by {
            assert(t[k] == s[k]);
        }
        lemma_trailing_ws(t, j);
    }
}

/// Index of the first non-whitespace character of `s` (its length when there is none).
pub fn leading_whitespace(s: &[char]) -> (n: usize)
    ensures
        n == spec_leading_ws(s@),
        n <= s@.len(),
{
    let mut i: usize = 0;
    while i < s.len() && is_whitespace(s[i])
        invariant
            i <= s@.len(),
            forall|k: int| 0 <= k < i ==> spec_is_whitespace(#[trigger] s@[k]),
        decreases s@.len() - i,
    {
        i += 1;
    }
    proof {
        lemma_leading_ws(s@, i as int);
    }
    i
}

/// `chars` without leading or trailing whitespace.
pub fn trim_chars(chars: &[char]) -> (trimmed: Vec<char>)
    ensures
        trimmed@ == spec_trim(chars@),
{
    let lo = leading_whitespace(chars);
    let ghost start = chars@.subrange(lo as int, chars@.len() as int);
    let mut hi: usize = chars.len();
    while hi > lo && is_whitespace(chars[hi - 1])
        invariant
            lo <= hi <= chars@.len(),
            start == chars@.subrange(lo as int, chars@.len() as int),
            forall|k: int| hi <= k < chars@.len() ==> spec_is_whitespace(#[trigger] chars@[k]),
        decreases hi,
    {
        hi -= 1;
    }
    proof {
        let j = hi - lo;
        assert forall|k: int| j <= k < start.len() implies spec_is_whitespace(#[trigger] start[k]) by {
            assert(start[k] == chars@[k + lo]);
        }
        if j > 0 {
            assert(start[j - 1] == chars@[hi - 1]);
        }
        lemma_trailing_ws(start, j as int);
    }
    let mut out: Vec<char> = Vec::new();
    let mut i: usize = lo;
    while i < hi
        invariant
            lo <= i <= hi <= chars@.len(),
            out@ == chars@.subrange(lo as int, i as int),
        decreases hi - i,
    {
        out.push(chars[i]);
        assert(chars@.subrange(lo as int, i + 1) == chars@.subrange(lo as int, i as int).push(chars@[i as int]));
        i += 1;
    }
    assert(out@ =~= spec_trim(chars@));
    out
}


/// Whether `needle` occurs in `hay` as a contiguous run (the empty run occurs everywhere).
pub open spec fn spec_contains(hay: Seq<char>, needle: Seq<char>) -> bool {
    exists|i: int| 0 <= i && i + needle.len() <= hay.len() && #[trigger] hay.subrange(i, i + needle.len()) == needle
}

/// Whether `needle` occurs at index `at` of `hay`.
fn occurs_at(hay: &[char], needle: &[char], at: usize) -> (r: bool)
    requires
        at + needle@.len() <= hay@.len(),
    ensures
        r == (hay@.subrange(at as int, at + needle@.len()) == needle@),
{
    let n = hay.len();
    let mut j: usize = 0;
    while j < needle.len()
        invariant
            n == hay@.len(),
            at + needle@.len() <= hay@.len(),
            j <= needle@.len(),
            forall|k: int| 0 <= k < j ==> hay@[at + k] == needle@[k],
        decreases needle@.len() - j,
    {
        if hay[at + j] != needle[j] {
            assert(hay@.subrange(at as int, at + needle@.len())[j as int] != needle@[j as int]);
            return false;
        }
        j += 1;
    }
    assert(hay@.subrange(at as int, at + needle@.len()) =~= needle@);
    true
}

/// Whether `needle` occurs in `hay`.
pub fn chars_contains(hay: &[char], needle: &[char]) -> (r: bool)
    ensures
        r == spec_contains(hay@, needle@),
{
    if needle.len() > hay.len() {
        return false;
    }
    if needle.len() == 0 {
        assert(hay@.subrange(0int, 0int + needle@.len()) =~= needle@);
        return true;
    }
    let last = hay.len() - needle.len();
    let mut i: usize = 0;
    while i <= last
        invariant
            last == hay@.len() - needle@.len(),
            needle@.len() > 0,
            last < hay.len(),
            i <= last + 1,
            forall|k: int| 0 <= k < i ==> #[trigger] hay@.subrange(k, k + needle@.len()) != needle@,
        decreases last + 1 - i,
    {
        if occurs_at(hay, needle, i) {
            return true;
        }
        i += 1;
    }
    false
}

/// `s` without any character other than ASCII letters and digits, lower-cased.
pub open spec fn spec_normalize_label(s: Seq<char>) -> Seq<char> {
    spec_lowercase(s.filter(|c: char| spec_is_ascii_alphanumeric(c)))
}

/// Keep the ASCII letters and digits of `chars`, lower-cased.
pub fn normalize_label(chars: &[char]) -> (label: Vec<char>)
    ensures
        label@ == spec_normalize_label(chars@),
{
    let mut label: Vec<char> = Vec::new();
    let mut i: usize = 0;
    while i < chars.len()
        invariant
            i <= chars@.len(),
            label@ == spec_normalize_label(chars@.take(i as int)),
        decreases chars@.len() - i,
    {
        let c = chars[i];
        proof {
            reveal(Seq::filter);
            assert(chars@.take(i + 1).drop_last() == chars@.take(i as int));
            assert(chars@.take(i + 1).last() == c);
        }
        if is_ascii_alphanumeric(c) {
            label.push(to_ascii_lowercase(c));
        }
        proof {
            let f = |c: char| spec_is_ascii_alphanumeric(c);
            let before = chars@.take(i as int).filter(f);
            if spec_is_ascii_alphanumeric(c) {
                assert(spec_lowercase(before.push(c)) =~= spec_lowercase(before).push(spec_to_ascii_lowercase(c)));
            }
        }
        i += 1;
    }
    assert(chars@.take(chars@.len() as int) == chars@);
    label
}


/// Why a decimal integer did not parse, as `str::parse` reports it.
#[derive(Clone, Copy, Debug, PartialEq, Eq, Structural)]
pub enum IntErrorKind {
    Empty,
    InvalidDigit,
    PosOverflow,
    NegOverflow,
}

/// The message `str::parse` gives for an integer error.
pub open spec fn spec_int_error_message(kind: IntErrorKind) -> &'static str {
    match kind {
        IntErrorKind::Empty => "cannot parse integer from empty string",
        IntErrorKind::InvalidDigit => "invalid digit found in string",
        IntErrorKind::PosOverflow => "number too large to fit in target type",
        IntErrorKind::NegOverflow => "number too small to fit in target type",
    }
}

/// Return the message of an integer error.
pub fn int_error_message(kind: IntErrorKind) -> (message: &'static str)
    ensures
        message == spec_int_error_message(kind),
{
    match kind {
        IntErrorKind::Empty => "cannot parse integer from empty string",
        IntErrorKind::InvalidDigit => "invalid digit found in string",
        IntErrorKind::PosOverflow => "number too large to fit in target type",
        IntErrorKind::NegOverflow => "number too small to fit in target type",
    }
}

/// Whether `c` is an ASCII digit.
pub open spec fn spec_is_digit(c: char) -> bool {
    '0' <= c <= '9'
}

/// Digits read left to right into a value growing away from zero (down
/// when `positive` is false), failing at the first non-digit, or as soon as
/// the value leaves `min..=max`.
pub open spec fn spec_accumulate(digits: Seq<char>, positive: bool, min: int, max: int) -> Result<int, IntErrorKind>
    decreases digits.len(),
{
    if digits.len() == 0 {
        Ok(0)
    } else {
        match spec_accumulate(digits.drop_last(), positive, min, max) {
            Err(e) => Err(e),
            Ok(v) => {
                let c = digits.last();
                if !spec_is_digit(c) {
                    Err(IntErrorKind::InvalidDigit)
                } else if positive {
                    let n = v * 10 + (c as int - '0' as int);
                    if n > max { Err(IntErrorKind::PosOverflow) } else { Ok(n) }
                } else {
                    let n = v * 10 - (c as int - '0' as int);
                    if n < min { Err(IntErrorKind::NegOverflow) } else { Ok(n) }
                }
            },
        }
    }
}

/// A decimal integer of `min..=max` as `str::parse` reads it: an optional
/// `+` (or `-` when the type is signed) and then digits only.
pub open spec fn spec_parse_int(s: Seq<char>, signed: bool, min: int, max: int) -> Result<int, IntErrorKind> {
    if s.len() == 0 {
        Err(IntErrorKind::Empty)
    } else if (s[0] == '+' || s[0] == '-') && s.len() == 1 {
        Err(IntErrorKind::InvalidDigit)
    } else if s[0] == '+' {
        spec_accumulate(s.drop_first(), true, min, max)
    } else if s[0] == '-' && signed {
        spec_accumulate(s.drop_first(), false, min, max)
    } else {
        spec_accumulate(s, true, min, max)
    }
}

/// Accumulated values stay within range.
proof fn lemma_accumulate_range(digits: Seq<char>, positive: bool, min: int, max: int)
    requires
        min <= 0 <= max,
    ensures
        spec_accumulate(digits, positive, min, max) matches Ok(v) ==> min <= v <= max && (positive ==> v >= 0) && (!positive ==> v <= 0),
    decreases digits.len(),
{
    if digits.len() > 0 {
        lemma_accumulate_range(digits.drop_last(), positive, min, max);
    }
}

fn accumulate(digits: &[char], start: usize, positive: bool, min: i64, max: i64) -> (result: Result<i64, IntErrorKind>)
    requires
        start <= digits@.len(),
        -100_000 <= min <= 0 <= max <= 100_000,
    ensures
        match result {
            Ok(v) => spec_accumulate(digits@.skip(start as int), positive, min as int, max as int) == Ok::<int, IntErrorKind>(v as int),
            Err(e) => spec_accumulate(digits@.skip(start as int), positive, min as int, max as int) == Err::<int, IntErrorKind>(e),
        },
{
    let ghost ds = digits@.skip(start as int);
    let mut v: i64 = 0;
    let mut i: usize = start;
    assert(ds.take(0) =~= Seq::<char>::empty());
    while i < digits.len()
        invariant
            start <= i <= digits@.len(),
            ds == digits@.skip(start as int),
            -100_000 <= min <= 0 <= max <= 100_000,
            min <= v <= max,
            positive ==> v >= 0,
            !positive ==> v <= 0,
            spec_accumulate(ds.take(i - start), positive, min as int, max as int) == Ok::<int, IntErrorKind>(v as int),
        decreases digits@.len() - i,
    {
        let c = digits[i];
        assert(ds.take(i - start + 1).drop_last() =~= ds.take(i - start));
        assert(ds.take(i - start + 1).last() == c);
        if !('0' <= c && c <= '9') {
            proof {
                lemma_accumulate_error_sticks(ds, i - start + 1, positive, min as int, max as int);
            }
            return Err(IntErrorKind::InvalidDigit);
        }
        let d = (c as u32 - '0' as u32) as i64;
        if positive {
            let n = v * 10 + d;
            if n > max {
                proof {
                    lemma_accumulate_error_sticks(ds, i - start + 1, positive, min as int, max as int);
                }
                return Err(IntErrorKind::PosOverflow);
            }
            v = n;
        } else {
            let n = v * 10 - d;
            if n < min {
                proof {
                    lemma_accumulate_error_sticks(ds, i - start + 1, positive, min as int, max as int);
                }
                return Err(IntErrorKind::NegOverflow);
            }
            v = n;
        }
        i += 1;
    }
    assert(ds.take(i - start) =~= ds);
    Ok(v)
}

/// Once reading a prefix fails, reading the whole fails the same way.
proof fn lemma_accumulate_error_sticks(digits: Seq<char>, i: int, positive: bool, min: int, max: int)
    requires
        0 <= i <= digits.len(),
        spec_accumulate(digits.take(i), positive, min, max) is Err,
    ensures
        spec_accumulate(digits, positive, min, max) == spec_accumulate(digits.take(i), positive, min, max),
    decreases digits.len() - i,
{
    if i < digits.len() {
        assert(digits.take(i + 1).drop_last() =~= digits.take(i));
        lemma_accumulate_error_sticks(digits, i + 1, positive, min, max);
    } else {
        assert(digits.take(i) =~= digits);
    }
}

fn parse_int(s: &[char], signed: bool, min: i64, max: i64) -> (result: Result<i64, IntErrorKind>)
    requires
        -100_000 <= min <= 0 <= max <= 100_000,
    ensures
        match result {
            Ok(v) => spec_parse_int(s@, signed, min as int, max as int) == Ok::<int, IntErrorKind>(v as int),
            Err(e) => spec_parse_int(s@, signed, min as int, max as int) == Err::<int, IntErrorKind>(e),
        },
{
    if s.len() == 0 {
        return Err(IntErrorKind::Empty);
    }
    if (s[0] == '+' || s[0] == '-') && s.len() == 1 {
        return Err(IntErrorKind::InvalidDigit);
    }
    if s[0] == '+' {
        assert(s@.skip(1) =~= s@.drop_first());
        accumulate(s, 1, true, min, max)
    } else if s[0] == '-' && signed {
        assert(s@.skip(1) =~= s@.drop_first());
        accumulate(s, 1, false, min, max)
    } else {
        assert(s@.skip(0) =~= s@);
        accumulate(s, 0, true, min, max)
    }
}

/// Parse a `u16` as `str::parse` does.
pub fn parse_u16(s: &[char]) -> (result: Result<u16, IntErrorKind>)
    ensures
        match result {
            Ok(v) => spec_parse_int(s@, false, 0, 65_535) == Ok::<int, IntErrorKind>(v as int),
            Err(e) => spec_parse_int(s@, false, 0, 65_535) == Err::<int, IntErrorKind>(e),
        },
{
    match parse_int(s, false, 0, 65_535) {
        Ok(v) => {
            proof {
                if s@.len() > 0 && s@[0] == '+' {
                    lemma_accumulate_range(s@.drop_first(), true, 0, 65_535);
                } else {
                    lemma_accumulate_range(s@, true, 0, 65_535);
                }
            }
            Ok(v as u16)
        },
        Err(e) => Err(e),
    }
}

/// Parse an `i16` as `str::parse` does.
pub fn parse_i16(s: &[char]) -> (result: Result<i16, IntErrorKind>)
    ensures
        match result {
            Ok(v) => spec_parse_int(s@, true, -32_768, 32_767) == Ok::<int, IntErrorKind>(v as int),
            Err(e) => spec_parse_int(s@, true, -32_768, 32_767) == Err::<int, IntErrorKind>(e),
        },
{
    match parse_int(s, true, -32_768, 32_767) {
        Ok(v) => {
            proof {
                if s@.len() > 0 && (s@[0] == '+' || s@[0] == '-') {
                    lemma_accumulate_range(s@.drop_first(), s@[0] == '+', -32_768, 32_767);
                } else {
                    lemma_accumulate_range(s@, true, -32_768, 32_767);
                }
            }
            Ok(v as i16)
        },
        Err(e) => Err(e),
    }
}

/// Parse an unsigned decimal of `0..=max` as `str::parse` reads one.
pub fn parse_unsigned(s: &[char], max: u64) -> (result: Result<u64, IntErrorKind>)
    ensures
        result matches Ok(v) ==> v <= max,
        match result {
            Ok(v) => spec_parse_int(s@, false, 0, max as int) == Ok::<int, IntErrorKind>(v as int),
            Err(e) => spec_parse_int(s@, false, 0, max as int) == Err::<int, IntErrorKind>(e),
        },
{
    if s.len() == 0 {
        return Err(IntErrorKind::Empty);
    }
    if (s[0] == '+' || s[0] == '-') && s.len() == 1 {
        return Err(IntErrorKind::InvalidDigit);
    }
    let start: usize = if s[0] == '+' { 1 } else { 0 };
    let ghost ds = s@.skip(start as int);
    proof {
        if start == 1 {
            assert(ds =~= s@.drop_first());
        } else {
            assert(ds =~= s@);
        }
    }
    let mut v: u64 = 0;
    let mut i: usize = start;
    assert(ds.take(0) =~= Seq::<char>::empty());
    while i < s.len()
        invariant
            start <= i <= s@.len(),
            start <= 1,
            ds == s@.skip(start as int),
            spec_parse_int(s@, false, 0, max as int) == spec_accumulate(ds, true, 0, max as int),
            v <= max,
            spec_accumulate(ds.take(i - start), true, 0, max as int) == Ok::<int, IntErrorKind>(v as int),
        decreases s@.len() - i,
    {
        let c = s[i];
        assert(ds.take(i - start + 1).drop_last() =~= ds.take(i - start));
        assert(ds.take(i - start + 1).last() == c);
        if !('0' <= c && c <= '9') {
            proof {
                lemma_accumulate_error_sticks(ds, i - start + 1, true, 0, max as int);
            }
            return Err(IntErrorKind::InvalidDigit);
        }
        let d = (c as u32 - '0' as u32) as u64;
        let n: u128 = v as u128 * 10 + d as u128;
        if n > max as u128 {
            proof {
                lemma_accumulate_error_sticks(ds, i - start + 1, true, 0, max as int);
            }
            return Err(IntErrorKind::PosOverflow);
        }
        v = n as u64;
        i += 1;
    }
    assert(ds.take(i - start) =~= ds);
    Ok(v)
}

/// Where the first `c` of `s` stands, or its length when it has none.
pub open spec fn spec_char_pos(s: Seq<char>, c: char) -> int
    decreases s.len(),
{
    if s.len() == 0 {
        0
    } else if s[0] == c {
        0
    } else {
        1 + spec_char_pos(s.drop_first(), c)
    }
}

/// The first `c` stands within `s`, or just after it.
pub proof fn lemma_char_pos_bounds(s: Seq<char>, c: char)
    ensures
        0 <= spec_char_pos(s, c) <= s.len(),
    decreases s.len(),
{
    if s.len() > 0 && s[0] != c {
        lemma_char_pos_bounds(s.drop_first(), c);
    }
}

/// The first `c` stands at `j` when none comes before it.
pub proof fn lemma_char_pos(s: Seq<char>, c: char, j: int)
    requires
        0 <= j <= s.len(),
        forall|k: int| 0 <= k < j ==> s[k] != c,
        j == s.len() || s[j] == c,
    ensures
        spec_char_pos(s, c) == j,
    decreases j,
{
    if j > 0 {
        lemma_char_pos(s.drop_first(), c, j - 1);
    }
}

/// A line without its `\r` before the line feed.
pub open spec fn spec_strip_cr(line: Seq<char>) -> Seq<char> {
    if line.len() > 0 && line.last() == '\r' {
        line.drop_last()
    } else {
        line
    }
}

/// The lines of `s` as `str::lines` gives them: split after each line feed,
/// without the line feed or a carriage return before it; a last line
/// without a line feed keeps all its characters.
pub open spec fn spec_lines(s: Seq<char>) -> Seq<Seq<char>>
    decreases s.len(),
{
    if s.len() == 0 {
        Seq::empty()
    } else {
        let j = spec_char_pos(s, '\n');
        if j >= s.len() {
            seq![s]
        } else {
            proof {
                lemma_char_pos_bounds(s, '\n');
            }
            seq![spec_strip_cr(s.take(j))] + spec_lines(s.skip(j + 1))
        }
    }
}

/// Where the first `c` of `s` at or after `from` stands, or its length.
fn char_pos_from(s: &[char], c: char, from: usize) -> (pos: usize)
    requires
        from <= s@.len(),
    ensures
        from <= pos <= s@.len(),
        pos - from == spec_char_pos(s@.skip(from as int), c),
{
    let mut j: usize = from;
    while j < s.len() && s[j] != c
        invariant
            from <= j <= s@.len(),
            forall|k: int| from <= k < j ==> s@[k] != c,
        decreases s@.len() - j,
    {
        j += 1;
    }
    proof {
        lemma_char_pos(s@.skip(from as int), c, j - from);
    }
    j
}

/// The lines of `text`, as `str::lines` gives them.
pub fn lines(text: &str) -> (out: Vec<String>)
    ensures
        out@.len() == spec_lines(text@).len(),
        forall|i: int| 0 <= i < out@.len() ==> (#[trigger] out@[i])@ == spec_lines(text@)[i],
{
    let chars = str_to_chars(text);
    let s = chars.as_slice();
    let mut out: Vec<String> = Vec::new();
    let mut from: usize = 0;
    let ghost all = s@;
    assert(all.skip(0) =~= all);
    while from < s.len()
        invariant
            from <= s@.len(),
            all == s@,
            all == text@,
            out@.len() + spec_lines(all.skip(from as int)).len() == spec_lines(all).len(),
            forall|i: int| 0 <= i < out@.len() ==> (#[trigger] out@[i])@ == spec_lines(all)[i],
            forall|i: int|
                0 <= i < spec_lines(all.skip(from as int)).len() ==> spec_lines(all.skip(from as int))[i]
                    == spec_lines(all)[out@.len() + i],
        decreases s@.len() - from,
    {
        let ghost rest = all.skip(from as int);
        let j = char_pos_from(s, '\n', from);
        if j >= s.len() {
            let line = chars_to_string(crate::host::ui::chars_range(s, from, s.len()).as_slice());
            assert(line@ =~= rest);
            assert(spec_lines(rest) == seq![rest]);
            assert(spec_lines(rest)[0] == spec_lines(all)[out@.len() as int]);
            out.push(line);
            from = s.len();
            assert(all.skip(from as int) =~= Seq::<char>::empty());
        } else {
            let mut end = j;
            if end > from && s[end - 1] == '\r' {
                end = end - 1;
            }
            let line = chars_to_string(crate::host::ui::chars_range(s, from, end).as_slice());
            assert(rest.take(j - from) =~= all.subrange(from as int, j as int));
            assert(line@ =~= spec_strip_cr(rest.take(j - from)));
            assert(rest.skip(j - from + 1) =~= all.skip(j + 1));
            let ghost tail = spec_lines(all.skip(j + 1));
            assert(spec_lines(rest) == seq![spec_strip_cr(rest.take(j - from))] + tail);
            assert(spec_lines(rest)[0] == spec_lines(all)[out@.len() as int]);
            out.push(line);
            from = j + 1;
            assert forall|i: int| 0 <= i < tail.len() implies tail[i] == spec_lines(all)[out@.len() + i] by {
                assert(spec_lines(rest)[i + 1] == tail[i]);
            }
        }
    }
    assert(spec_lines(all.skip(from as int)) =~= Seq::<Seq<char>>::empty());
    out
}

/// The number of UTF-8 bytes `c` takes.
pub open spec fn spec_char_bytes(c: char) -> int {
    vstd::utf8::encode_scalar(c as u32).len() as int
}

/// The UTF-8 byte offset of character index `i` of `s` (the end of `s`
/// past its length).
pub open spec fn spec_byte_pos(s: Seq<char>, i: int) -> int {
    vstd::utf8::encode_utf8(s.take(if i <= s.len() { i } else { s.len() as int })).len() as int
}

/// How many whole characters of `s` fit in its first `b` UTF-8 bytes.
pub open spec fn spec_char_floor(s: Seq<char>, b: int) -> int
    decreases s.len(),
{
    if s.len() == 0 {
        0
    } else if spec_char_bytes(s[0]) <= b {
        1 + spec_char_floor(s.drop_first(), b - spec_char_bytes(s[0]))
    } else {
        0
    }
}

/// Whether byte offset `b` starts a character of `s` (or is its end).
pub open spec fn spec_is_char_boundary(s: Seq<char>, b: int) -> bool {
    spec_byte_pos(s, spec_char_floor(s, b)) == b
}

/// Encoding a concatenation concatenates the encodings.
pub proof fn lemma_encode_concat(a: Seq<char>, b: Seq<char>)
    ensures
        vstd::utf8::encode_utf8(a + b) == vstd::utf8::encode_utf8(a) + vstd::utf8::encode_utf8(b),
    decreases a.len(),
{
    if a.len() == 0 {
        assert(a + b =~= b);
        assert(vstd::utf8::encode_utf8(a) =~= Seq::<u8>::empty());
        assert(Seq::<u8>::empty() + vstd::utf8::encode_utf8(b) =~= vstd::utf8::encode_utf8(b));
    } else {
        lemma_encode_concat(a.drop_first(), b);
        assert((a + b).drop_first() =~= a.drop_first() + b);
        assert((a + b)[0] == a[0]);
        assert(vstd::utf8::encode_utf8(a + b) =~= vstd::utf8::encode_scalar(a[0] as u32) + vstd::utf8::encode_utf8(
            a.drop_first(),
        ) + vstd::utf8::encode_utf8(b));
    }
}

/// Every character takes between one and four bytes.
pub proof fn lemma_char_bytes(c: char)
    ensures
        1 <= spec_char_bytes(c) <= 4,
{
}

/// A sequence takes at least one byte per character.
pub proof fn lemma_encode_len(s: Seq<char>)
    ensures
        s.len() <= vstd::utf8::encode_utf8(s).len(),
    decreases s.len(),
{
    if s.len() > 0 {
        lemma_encode_len(s.drop_first());
        lemma_char_bytes(s[0]);
    }
}

/// The whole characters in the bytes up to a character's offset are the
/// characters before it.
pub proof fn lemma_floor_of_pos(s: Seq<char>, i: int)
    requires
        0 <= i <= s.len(),
    ensures
        spec_char_floor(s, spec_byte_pos(s, i)) == i,
    decreases s.len(),
{
    if s.len() > 0 {
        lemma_char_bytes(s[0]);
        if i > 0 {
            let t = s.drop_first();
            assert(s.take(i)[0] == s[0]);
            assert(s.take(i).drop_first() =~= t.take(i - 1));
            lemma_floor_of_pos(t, i - 1);
        } else {
            assert(s.take(0) =~= Seq::<char>::empty());
        }
    } else {
        assert(s.take(0) =~= Seq::<char>::empty());
    }
}

/// The floor stays within the characters.
pub proof fn lemma_floor_bounded(s: Seq<char>, b: int)
    ensures
        0 <= spec_char_floor(s, b) <= s.len(),
    decreases s.len(),
{
    if s.len() > 0 {
        lemma_floor_bounded(s.drop_first(), b - spec_char_bytes(s[0]));
    }
}

/// More bytes hold at least as many whole characters.
pub proof fn lemma_floor_monotone(s: Seq<char>, a: int, b: int)
    requires
        a <= b,
    ensures
        spec_char_floor(s, a) <= spec_char_floor(s, b),
    decreases s.len(),
{
    if s.len() > 0 {
        lemma_floor_monotone(s.drop_first(), a - spec_char_bytes(s[0]), b - spec_char_bytes(s[0]));
    }
}

/// The number of UTF-8 bytes `c` takes.
pub fn char_bytes(c: char) -> (n: usize)
    ensures
        n == spec_char_bytes(c),
{
    let v = c as u32;
    if v <= 0x7F {
        1
    } else if v <= 0x7FF {
        2
    } else if v <= 0xFFFF {
        3
    } else {
        4
    }
}

/// How many whole characters fit in the first `b` bytes.
pub fn char_floor(chars: &[char], b: usize) -> (i: usize)
    ensures
        i == spec_char_floor(chars@, b as int),
{
    let mut i: usize = 0;
    let mut rem: usize = b;
    assert(chars@.skip(0) =~= chars@);
    while i < chars.len() && char_bytes(chars[i]) <= rem
        invariant
            i <= chars@.len(),
            spec_char_floor(chars@, b as int) == i + spec_char_floor(chars@.skip(i as int), rem as int),
        decreases chars@.len() - i,
    {
        let w = char_bytes(chars[i]);
        assert(chars@.skip(i as int)[0] == chars@[i as int]);
        assert(chars@.skip(i as int).drop_first() =~= chars@.skip(i + 1));
        rem = rem - w;
        i += 1;
    }
    proof {
        if i < chars@.len() {
            assert(chars@.skip(i as int)[0] == chars@[i as int]);
        } else {
            assert(chars@.skip(i as int).len() == 0);
        }
    }
    i
}

/// The UTF-8 byte offset of character index `i` (the end past the length).
pub fn byte_pos(chars: &[char], i: usize) -> (b: usize)
    requires
        vstd::utf8::encode_utf8(chars@).len() <= usize::MAX,
    ensures
        b == spec_byte_pos(chars@, i as int),
{
    let n: usize = if i <= chars.len() { i } else { chars.len() };
    let mut k: usize = 0;
    let mut acc: usize = 0;
    assert(chars@.take(0) =~= Seq::<char>::empty());
    while k < n
        invariant
            k <= n <= chars@.len(),
            acc == vstd::utf8::encode_utf8(chars@.take(k as int)).len(),
            vstd::utf8::encode_utf8(chars@).len() <= usize::MAX,
        decreases n - k,
    {
        let w = char_bytes(chars[k]);
        proof {
            let c = chars@[k as int];
            assert(chars@.take(k + 1) =~= chars@.take(k as int) + seq![c]);
            lemma_encode_concat(chars@.take(k as int), seq![c]);
            assert(seq![c].drop_first() =~= Seq::<char>::empty());
            assert(seq![c][0] == c);
            assert(vstd::utf8::encode_utf8(Seq::<char>::empty()) =~= Seq::<u8>::empty());
            assert(vstd::utf8::encode_utf8(seq![c]) == vstd::utf8::encode_scalar(c as u32) + vstd::utf8::encode_utf8(
                Seq::<char>::empty(),
            ));
            assert(vstd::utf8::encode_utf8(seq![c]) =~= vstd::utf8::encode_scalar(c as u32));
            assert(chars@ =~= chars@.take(k + 1) + chars@.skip(k + 1));
            lemma_encode_concat(chars@.take(k + 1), chars@.skip(k + 1));
        }
        acc = acc + w;
        k += 1;
    }
    acc
}

} // verus!
