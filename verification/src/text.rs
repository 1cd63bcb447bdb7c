//! Character sequences: the vocabulary that the contracts of this crate are
//! written in, and the operations on text that the other modules are built from.
//!
//! Text is modelled as `Seq<char>`. Executable code works on slices of
//! characters where it takes text apart and on `String` where it puts text
//! together.
use vstd::prelude::*;
use vstd::slice::slice_subrange;
use vstd::utf8::{decode_utf8, encode_utf8, encode_utf8_decode_utf8, valid_utf8};

verus! {

/// `String::push` appends the given character to the end of the string.
pub assume_specification[ String::push ](s: &mut String, ch: char)
    ensures
        final(s)@ == old(s)@.push(ch),
;

/// What `String::from_utf8_lossy` makes of bytes that are not valid UTF-8: the
/// text with U+FFFD in place of each invalid sequence.
pub uninterp spec fn repaired_text(bytes: Seq<u8>) -> Seq<char>;

/// The text that a run of bytes stands for: its UTF-8 decoding where there is
/// one, and the repaired text otherwise.
pub open spec fn text_of_bytes(bytes: Seq<u8>) -> Seq<char> {
    if valid_utf8(bytes) {
        decode_utf8(bytes)
    } else {
        repaired_text(bytes)
    }
}

/// Calls `String::from_utf8_lossy`. The contract claims that valid UTF-8 is
/// decoded, and that the result on any other input depends on the bytes alone.
/// How many replacement characters stand for an invalid run is left unsaid.
#[verifier::external_body]
pub(crate) fn from_utf8_lossy(bytes: &[u8]) -> (r: String)
    ensures
        r@ == (if valid_utf8(bytes@) {
            decode_utf8(bytes@)
        } else {
            repaired_text(bytes@)
        }),
{
    String::from_utf8_lossy(bytes).into_owned()
}

/// The text that `bytes` stand for.
pub fn text_from_bytes(bytes: &[u8]) -> (r: String)
    ensures
        r@ == text_of_bytes(bytes@),
{
    from_utf8_lossy(bytes)
}

/// The characters of `s`, in order.
pub fn chars_of(s: &str) -> (r: Vec<char>)
    ensures
        r@ == s@,
{
    let mut out: Vec<char> = Vec::new();
    for ch in it: s.chars()
        invariant
            it.seq() == s@,
            out@ == s@.take(it.index()),
    {
        out.push(ch);
    }
    out
}

/// The string made of the given characters.
pub fn string_of(chars: &[char]) -> (r: String)
    ensures
        r@ == chars@,
{
    let mut out = String::new();
    let mut i: usize = 0;
    while i < chars.len()
        invariant
            i <= chars@.len(),
            out@ == chars@.take(i as int),
        decreases chars@.len() - i,
    {
        out.push(chars[i]);
        i += 1;
    }
    out
}

/// A copy of `s`.
pub fn copy_text(s: &str) -> (r: String)
    ensures
        r@ == s@,
{
    let mut out = String::new();
    out.append(s);
    out
}

/// Whether two texts are the same.
pub fn same_text(a: &str, b: &str) -> (r: bool)
    ensures
        r == (a@ == b@),
{
    let left = a.as_bytes();
    let right = b.as_bytes();
    if left.len() != right.len() {
        return false;
    }
    let mut i: usize = 0;
    while i < left.len()
        invariant
            i <= left@.len() == right@.len(),
            left@ == encode_utf8(a@),
            right@ == encode_utf8(b@),
            left@.take(i as int) == right@.take(i as int),
        decreases left@.len() - i,
    {
        if left[i] != right[i] {
            return false;
        }
        proof {
            assert(left@.take(i + 1) =~= left@.take(i as int).push(left@[i as int]));
            assert(right@.take(i + 1) =~= right@.take(i as int).push(right@[i as int]));
        }
        i += 1;
    }
    proof {
        assert(left@ =~= right@) by {
            assert(left@.take(i as int) =~= left@);
            assert(right@.take(i as int) =~= right@);
        }
        encode_utf8_decode_utf8(a@);
        encode_utf8_decode_utf8(b@);
    }
    true
}

/// Whether the characters of `a` are exactly those of `b`.
pub fn same_chars(a: &[char], b: &[char]) -> (r: bool)
    ensures
        r == (a@ == b@),
{
    if a.len() != b.len() {
        return false;
    }
    let mut i: usize = 0;
    while i < a.len()
        invariant
            i <= a@.len() == b@.len(),
            forall|j: int| 0 <= j < i ==> a@[j] == b@[j],
        decreases a@.len() - i,
    {
        if a[i] != b[i] {
            return false;
        }
        i += 1;
    }
    assert(a@ =~= b@);
    true
}

/// The contents of an optional string.
pub open spec fn optional(value: Option<String>) -> Option<Seq<char>> {
    match value {
        Some(s) => Some(s@),
        None => None,
    }
}

/// The contents of an optional string slice.
pub open spec fn optional_str(value: Option<&str>) -> Option<Seq<char>> {
    match value {
        Some(s) => Some(s@),
        None => None,
    }
}

/// The contents of a string or of the text of an error.
pub open spec fn result_text(value: Result<String, String>) -> Result<Seq<char>, Seq<char>> {
    match value {
        Ok(s) => Ok(s@),
        Err(e) => Err(e@),
    }
}

/// Success, or the text of an error.
pub open spec fn unit_text(value: Result<(), String>) -> Result<(), Seq<char>> {
    match value {
        Ok(()) => Ok(()),
        Err(e) => Err(e@),
    }
}

/// A view of an optional string.
pub fn as_str(value: &Option<String>) -> (r: Option<&str>)
    ensures
        optional_str(r) == optional(*value),
{
    match value {
        Some(s) => Some(s.as_str()),
        None => None,
    }
}

// ---------------------------------------------------------------------------
// White space
// ---------------------------------------------------------------------------

/// Whether `ch` has the Unicode property `White_Space`.
pub open spec fn white(ch: char) -> bool {
    ||| '\u{9}' <= ch <= '\u{d}'
    ||| ch == '\u{20}'
    ||| ch == '\u{85}'
    ||| ch == '\u{a0}'
    ||| ch == '\u{1680}'
    ||| '\u{2000}' <= ch <= '\u{200a}'
    ||| ch == '\u{2028}'
    ||| ch == '\u{2029}'
    ||| ch == '\u{202f}'
    ||| ch == '\u{205f}'
    ||| ch == '\u{3000}'
}

/// Whether `ch` is white space.
pub fn is_white(ch: char) -> (r: bool)
    ensures
        r == white(ch),
{
    ('\u{9}' <= ch && ch <= '\u{d}') || ch == '\u{20}' || ch == '\u{85}' || ch == '\u{a0}' || ch
        == '\u{1680}' || ('\u{2000}' <= ch && ch <= '\u{200a}') || ch == '\u{2028}' || ch
        == '\u{2029}' || ch == '\u{202f}' || ch == '\u{205f}' || ch == '\u{3000}'
}

/// `s` without its leading white space.
pub open spec fn trimmed_start(s: Seq<char>) -> Seq<char>
    decreases s.len(),
{
    if s.len() > 0 && white(s[0]) {
        trimmed_start(s.skip(1))
    } else {
        s
    }
}

/// `s` without its trailing white space.
pub open spec fn trimmed_end(s: Seq<char>) -> Seq<char>
    decreases s.len(),
{
    if s.len() > 0 && white(s.last()) {
        trimmed_end(s.drop_last())
    } else {
        s
    }
}

/// `s` without leading and trailing white space.
pub open spec fn trimmed(s: Seq<char>) -> Seq<char> {
    trimmed_end(trimmed_start(s))
}

/// `s` without the copies of `ch` at its end.
pub open spec fn trimmed_end_of(s: Seq<char>, ch: char) -> Seq<char>
    decreases s.len(),
{
    if s.len() > 0 && s.last() == ch {
        trimmed_end_of(s.drop_last(), ch)
    } else {
        s
    }
}

/// Drops leading white space.
pub fn trim_start(s: &[char]) -> (r: &[char])
    ensures
        r@ == trimmed_start(s@),
{
    let mut i: usize = 0;
    assert(s@.skip(0) =~= s@);
    while i < s.len() && is_white(s[i])
        invariant
            i <= s@.len(),
            trimmed_start(s@) == trimmed_start(s@.skip(i as int)),
        decreases s@.len() - i,
    {
        assert(s@.skip(i as int).skip(1) =~= s@.skip(i + 1));
        i += 1;
    }
    slice_subrange(s, i, s.len())
}

/// Drops trailing white space.
pub fn trim_end(s: &[char]) -> (r: &[char])
    ensures
        r@ == trimmed_end(s@),
{
    let mut n: usize = s.len();
    assert(s@.take(n as int) =~= s@);
    while n > 0 && is_white(s[n - 1])
        invariant
            n <= s@.len(),
            trimmed_end(s@) == trimmed_end(s@.take(n as int)),
        decreases n,
    {
        assert(s@.take(n as int).drop_last() =~= s@.take(n - 1));
        n -= 1;
    }
    slice_subrange(s, 0, n)
}

/// Drops white space at both ends.
pub fn trim(s: &[char]) -> (r: &[char])
    ensures
        r@ == trimmed(s@),
{
    trim_end(trim_start(s))
}

/// Drops white space at both ends of a string.
pub fn trim_text(s: &str) -> (r: String)
    ensures
        r@ == trimmed(s@),
{
    let chars = chars_of(s);
    string_of(trim(chars.as_slice()))
}

/// Drops the copies of `ch` at the end.
pub fn trim_end_of(s: &[char], ch: char) -> (r: &[char])
    ensures
        r@ == trimmed_end_of(s@, ch),
{
    let mut n: usize = s.len();
    assert(s@.take(n as int) =~= s@);
    while n > 0 && s[n - 1] == ch
        invariant
            n <= s@.len(),
            trimmed_end_of(s@, ch) == trimmed_end_of(s@.take(n as int), ch),
        decreases n,
    {
        assert(s@.take(n as int).drop_last() =~= s@.take(n - 1));
        n -= 1;
    }
    slice_subrange(s, 0, n)
}

/// `value` without surrounding white space, if anything is left of it.
pub open spec fn nonblank(value: Option<Seq<char>>) -> Option<Seq<char>> {
    match value {
        Some(s) => if trimmed(s).len() == 0 {
            None
        } else {
            Some(trimmed(s))
        },
        None => None,
    }
}

/// Trims an optional setting and drops it when it is blank.
pub fn trim_setting(value: Option<&str>) -> (r: Option<String>)
    ensures
        optional(r) == nonblank(optional_str(value)),
{
    match value {
        Some(s) => {
            let t = trim_text(s);
            if t.as_str().is_empty() {
                None
            } else {
                Some(t)
            }
        },
        None => None,
    }
}

// ---------------------------------------------------------------------------
// Taking text apart
// ---------------------------------------------------------------------------

/// Where `ch` first stands in `s`; the length of `s` where it does not occur.
pub open spec fn position(s: Seq<char>, ch: char) -> int
    decreases s.len(),
{
    if s.len() == 0 || s[0] == ch {
        0
    } else {
        1 + position(s.skip(1), ch)
    }
}

/// The part of `s` before the first `ch`: all of it where there is none.
pub open spec fn before(s: Seq<char>, ch: char) -> Seq<char> {
    s.take(position(s, ch))
}

/// The part of `s` after the first `ch`: nothing where there is none.
pub open spec fn after(s: Seq<char>, ch: char) -> Seq<char> {
    if position(s, ch) < s.len() {
        s.skip(position(s, ch) + 1)
    } else {
        Seq::empty()
    }
}

/// `position` is the first place of the character, or the length.
pub proof fn position_is_first(s: Seq<char>, ch: char)
    ensures
        0 <= position(s, ch) <= s.len(),
        position(s, ch) < s.len() ==> s[position(s, ch)] == ch,
        forall|i: int| 0 <= i < position(s, ch) ==> s[i] != ch,
        position(s, ch) < s.len() <==> s.contains(ch),
    decreases s.len(),
{
    if s.len() > 0 && s[0] != ch {
        position_is_first(s.skip(1), ch);
        let p = position(s.skip(1), ch);
        assert forall|i: int| 0 <= i < 1 + p implies s[i] != ch by {
            if i > 0 {
                assert(s.skip(1)[i - 1] == s[i]);
            }
        }
        if p < s.skip(1).len() {
            assert(s[1 + p] == ch);
        } else {
            assert forall|i: int| 0 <= i < s.len() implies s[i] != ch by {}
        }
    } else if s.len() > 0 {
        assert(s[0] == ch);
    }
}

/// A place that holds the character and has none before it is its `position`.
pub proof fn position_at(s: Seq<char>, ch: char, p: int)
    requires
        0 <= p <= s.len(),
        p < s.len() ==> s[p] == ch,
        forall|i: int| 0 <= i < p ==> s[i] != ch,
    ensures
        position(s, ch) == p,
{
    position_is_first(s, ch);
    let q = position(s, ch);
    if q < p {
        assert(s[q] != ch);
    } else if p < q {
        assert(s[p] != ch);
    }
}

/// Finds the first `ch`.
pub fn find_char(s: &[char], ch: char) -> (r: usize)
    ensures
        r == position(s@, ch),
        r <= s@.len(),
        r < s@.len() <==> s@.contains(ch),
{
    let mut i: usize = 0;
    while i < s.len() && s[i] != ch
        invariant
            i <= s@.len(),
            forall|j: int| 0 <= j < i ==> s@[j] != ch,
        decreases s@.len() - i,
    {
        i += 1;
    }
    proof {
        position_at(s@, ch, i as int);
        position_is_first(s@, ch);
    }
    i
}

/// The pieces of `s` between the occurrences of `ch`.
pub open spec fn pieces(s: Seq<char>, ch: char) -> Seq<Seq<char>>
    decreases s.len(),
{
    if 0 <= position(s, ch) < s.len() {
        seq![before(s, ch)] + pieces(after(s, ch), ch)
    } else {
        seq![s]
    }
}

/// A line without the carriage return that ends it, if one does.
pub open spec fn without_cr(s: Seq<char>) -> Seq<char> {
    if s.len() > 0 && s.last() == '\r' {
        s.drop_last()
    } else {
        s
    }
}

/// The lines of `s`. A line ends with a line feed, or with a carriage return
/// and a line feed; the last line needs no end.
pub open spec fn lines_of(s: Seq<char>) -> Seq<Seq<char>>
    decreases s.len(),
{
    if s.len() == 0 {
        Seq::empty()
    } else if 0 <= position(s, '\n') < s.len() {
        seq![without_cr(before(s, '\n'))] + lines_of(after(s, '\n'))
    } else {
        seq![s]
    }
}

/// The contents of each string of a list.
pub open spec fn texts(list: Seq<String>) -> Seq<Seq<char>> {
    list.map_values(|s: String| s@)
}

/// Splits `s` at every `ch`.
pub fn split(s: &[char], ch: char) -> (r: Vec<String>)
    ensures
        texts(r@) == pieces(s@, ch),
{
    let mut out: Vec<String> = Vec::new();
    let mut rest: &[char] = s;
    loop
        invariant
            pieces(s@, ch) == texts(out@) + pieces(rest@, ch),
        decreases rest@.len(),
    {
        let p = find_char(rest, ch);
        if p < rest.len() {
            let ghost done = texts(out@);
            let piece = string_of(slice_subrange(rest, 0, p));
            let tail = slice_subrange(rest, p + 1, rest.len());
            out.push(piece);
            proof {
                assert(texts(out@) =~= done + seq![before(rest@, ch)]);
                assert(tail@ =~= after(rest@, ch));
                assert(pieces(s@, ch) =~= texts(out@) + pieces(tail@, ch));
            }
            rest = tail;
        } else {
            let ghost done = texts(out@);
            out.push(string_of(rest));
            assert(texts(out@) =~= done + seq![rest@]);
            return out;
        }
    }
}

/// Drops the carriage return at the end of a line.
pub fn strip_cr(s: &[char]) -> (r: &[char])
    ensures
        r@ == without_cr(s@),
{
    let n = s.len();
    if n > 0 && s[n - 1] == '\r' {
        let r = slice_subrange(s, 0, n - 1);
        assert(r@ =~= s@.drop_last());
        r
    } else {
        s
    }
}

/// Splits `s` into lines.
pub fn split_lines(s: &[char]) -> (r: Vec<String>)
    ensures
        texts(r@) == lines_of(s@),
{
    let mut out: Vec<String> = Vec::new();
    let mut rest: &[char] = s;
    while rest.len() > 0
        invariant
            lines_of(s@) == texts(out@) + lines_of(rest@),
        decreases rest@.len(),
    {
        let p = find_char(rest, '\n');
        let ghost done = texts(out@);
        if p < rest.len() {
            let line = slice_subrange(rest, 0, p);
            let tail = slice_subrange(rest, p + 1, rest.len());
            out.push(string_of(strip_cr(line)));
            proof {
                assert(line@ =~= before(rest@, '\n'));
                assert(texts(out@) =~= done + seq![without_cr(line@)]);
                assert(tail@ =~= after(rest@, '\n'));
                assert(lines_of(s@) =~= texts(out@) + lines_of(tail@));
            }
            rest = tail;
        } else {
            out.push(string_of(rest));
            let tail = slice_subrange(rest, rest.len(), rest.len());
            proof {
                assert(texts(out@) =~= done + seq![rest@]);
                assert(tail@.len() == 0);
                assert(lines_of(s@) =~= texts(out@) + lines_of(tail@));
            }
            rest = tail;
        }
    }
    proof {
        assert(lines_of(rest@) =~= Seq::empty());
        assert(texts(out@) =~= lines_of(s@));
    }
    out
}

/// How many characters at the start of `s` are not white space.
pub open spec fn word_length(s: Seq<char>) -> int
    decreases s.len(),
{
    if s.len() == 0 || white(s[0]) {
        0
    } else {
        1 + word_length(s.skip(1))
    }
}

/// The first word of `s`, nothing where `s` is blank.
pub open spec fn first_word(s: Seq<char>) -> Seq<char> {
    trimmed_start(s).take(word_length(trimmed_start(s)))
}

/// What follows the first word of `s`.
pub open spec fn after_word(s: Seq<char>) -> Seq<char> {
    trimmed_start(s).skip(word_length(trimmed_start(s)))
}

/// Splits off the first word.
pub fn take_word(s: &[char]) -> (r: (&[char], &[char]))
    ensures
        r.0@ == first_word(s@),
        r.1@ == after_word(s@),
{
    let t = trim_start(s);
    let mut i: usize = 0;
    assert(t@.skip(0) =~= t@);
    while i < t.len() && !is_white(t[i])
        invariant
            i <= t@.len(),
            word_length(t@) == i + word_length(t@.skip(i as int)),
        decreases t@.len() - i,
    {
        assert(t@.skip(i as int).skip(1) =~= t@.skip(i + 1));
        i += 1;
    }
    (slice_subrange(t, 0, i), slice_subrange(t, i, t.len()))
}

// ---------------------------------------------------------------------------
// Searching
// ---------------------------------------------------------------------------

/// Whether `pattern` stands in `s` at place `i`.
pub open spec fn occurs_at<T>(s: Seq<T>, pattern: Seq<T>, i: int) -> bool {
    0 <= i && i + pattern.len() <= s.len() && s.subrange(i, i + pattern.len()) == pattern
}

/// Whether `pattern` stands anywhere in `s`.
pub open spec fn mentions(s: Seq<char>, pattern: Seq<char>) -> bool {
    exists|i: int| occurs_at(s, pattern, i)
}

/// The last place, no later than `i`, where `pattern` stands in `s`.
pub open spec fn last_match_upto(s: Seq<char>, pattern: Seq<char>, i: int) -> Option<int>
    decreases i + 1,
{
    if i < 0 {
        None
    } else if occurs_at(s, pattern, i) {
        Some(i)
    } else {
        last_match_upto(s, pattern, i - 1)
    }
}

/// The last place where `pattern` stands in `s`.
pub open spec fn last_match(s: Seq<char>, pattern: Seq<char>) -> Option<int> {
    last_match_upto(s, pattern, s.len() - pattern.len())
}

/// `last_match` is a match, it is the last one, and it is `None` only where
/// there is no match.
pub proof fn last_match_is_last(s: Seq<char>, pattern: Seq<char>)
    ensures
        match last_match(s, pattern) {
            Some(p) => occurs_at(s, pattern, p) && forall|i: int| p < i ==> !occurs_at(
                s,
                pattern,
                i,
            ),
            None => !mentions(s, pattern),
        },
{
    last_match_upto_is_last(s, pattern, s.len() - pattern.len());
}

proof fn last_match_upto_is_last(s: Seq<char>, pattern: Seq<char>, n: int)
    ensures
        match last_match_upto(s, pattern, n) {
            Some(p) => 0 <= p <= n && occurs_at(s, pattern, p) && forall|i: int|
                p < i <= n ==> !occurs_at(s, pattern, i),
            None => forall|i: int| i <= n ==> !occurs_at(s, pattern, i),
        },
    decreases n + 1,
{
    if n >= 0 && !occurs_at(s, pattern, n) {
        last_match_upto_is_last(s, pattern, n - 1);
    }
}

/// Whether `pattern` stands in `s` at place `i`.
pub fn matches_at(s: &[char], pattern: &[char], i: usize) -> (r: bool)
    ensures
        r == occurs_at(s@, pattern@, i as int),
{
    if i > s.len() || pattern.len() > s.len() - i {
        return false;
    }
    same_chars(slice_subrange(s, i, i + pattern.len()), pattern)
}

/// Finds the last place where `pattern` stands.
pub fn find_last(s: &[char], pattern: &[char]) -> (r: Option<usize>)
    ensures
        match r {
            Some(p) => last_match(s@, pattern@) == Some(p as int) && p + pattern@.len() <= s@.len(),
            None => last_match(s@, pattern@) is None,
        },
{
    if pattern.len() > s.len() {
        return None;
    }
    let mut i: usize = s.len() - pattern.len();
    loop
        invariant
            i <= s@.len() - pattern@.len(),
            last_match(s@, pattern@) == last_match_upto(s@, pattern@, i as int),
        decreases i,
    {
        if matches_at(s, pattern, i) {
            return Some(i);
        }
        if i == 0 {
            assert(last_match_upto(s@, pattern@, -1) is None);
            return None;
        }
        i -= 1;
    }
}

/// Whether `pattern` stands anywhere in `s`.
pub fn has_text(s: &[char], pattern: &str) -> (r: bool)
    ensures
        r == mentions(s@, pattern@),
{
    let wanted = chars_of(pattern);
    let found = find_last(s, wanted.as_slice());
    proof {
        last_match_is_last(s@, pattern@);
    }
    found.is_some()
}

/// Whether `s` begins with `prefix`.
pub open spec fn begins_with(s: Seq<char>, prefix: Seq<char>) -> bool {
    prefix.is_prefix_of(s)
}

/// What follows `prefix` where `s` begins with it.
pub open spec fn stripped(s: Seq<char>, prefix: Seq<char>) -> Option<Seq<char>> {
    if begins_with(s, prefix) {
        Some(s.skip(prefix.len() as int))
    } else {
        None
    }
}

/// Splits off `prefix`.
pub fn strip_prefix<'a>(s: &'a [char], prefix: &str) -> (r: Option<&'a [char]>)
    ensures
        match r {
            Some(rest) => stripped(s@, prefix@) == Some(rest@),
            None => stripped(s@, prefix@) is None,
        },
{
    let wanted = chars_of(prefix);
    proof {
        if prefix@.len() <= s@.len() {
            assert(s@.subrange(0, prefix@.len() as int) == prefix@ <==> begins_with(s@, prefix@));
        }
    }
    if matches_at(s, wanted.as_slice(), 0) {
        Some(slice_subrange(s, wanted.len(), s.len()))
    } else {
        None
    }
}

/// `s` with every `from` replaced by `to`.
pub open spec fn with_replaced(s: Seq<char>, from: char, to: char) -> Seq<char> {
    s.map_values(|ch: char| if ch == from { to } else { ch })
}

/// Replaces every `from` by `to`.
pub fn replace_char(s: &[char], from: char, to: char) -> (r: String)
    ensures
        r@ == with_replaced(s@, from, to),
{
    let mut out = String::new();
    let mut i: usize = 0;
    while i < s.len()
        invariant
            i <= s@.len(),
            out@ == with_replaced(s@, from, to).take(i as int),
        decreases s@.len() - i,
    {
        let ch = s[i];
        out.push(if ch == from { to } else { ch });
        proof {
            assert(out@ =~= with_replaced(s@, from, to).take(i + 1));
        }
        i += 1;
    }
    assert(out@ =~= with_replaced(s@, from, to));
    out
}

// ---------------------------------------------------------------------------
// Letter case
// ---------------------------------------------------------------------------

/// The upper-case form of an ASCII letter; any other character itself.
pub open spec fn upper_char(ch: char) -> char {
    if 'a' <= ch <= 'z' {
        ((ch as u32 - 32) as u32) as char
    } else {
        ch
    }
}

/// The lower-case form of an ASCII letter; any other character itself.
pub open spec fn lower_char(ch: char) -> char {
    if 'A' <= ch <= 'Z' {
        ((ch as u32 + 32) as u32) as char
    } else {
        ch
    }
}

/// `s` with its ASCII letters in upper case.
pub open spec fn upper(s: Seq<char>) -> Seq<char> {
    s.map_values(|ch: char| upper_char(ch))
}

/// `s` with its ASCII letters in lower case.
pub open spec fn lower(s: Seq<char>) -> Seq<char> {
    s.map_values(|ch: char| lower_char(ch))
}

/// Puts ASCII letters in upper case.
pub fn to_upper(s: &[char]) -> (r: Vec<char>)
    ensures
        r@ == upper(s@),
{
    let mut out: Vec<char> = Vec::new();
    let mut i: usize = 0;
    while i < s.len()
        invariant
            i <= s@.len(),
            out@ == upper(s@).take(i as int),
        decreases s@.len() - i,
    {
        let ch = s[i];
        out.push(
            if 'a' <= ch && ch <= 'z' {
                ((ch as u8) - 32) as char
            } else {
                ch
            },
        );
        assert(out@ =~= upper(s@).take(i + 1));
        i += 1;
    }
    assert(out@ =~= upper(s@));
    out
}

/// Puts ASCII letters in lower case.
pub fn to_lower(s: &[char]) -> (r: Vec<char>)
    ensures
        r@ == lower(s@),
{
    let mut out: Vec<char> = Vec::new();
    let mut i: usize = 0;
    while i < s.len()
        invariant
            i <= s@.len(),
            out@ == lower(s@).take(i as int),
        decreases s@.len() - i,
    {
        let ch = s[i];
        out.push(
            if 'A' <= ch && ch <= 'Z' {
                ((ch as u8) + 32) as char
            } else {
                ch
            },
        );
        assert(out@ =~= lower(s@).take(i + 1));
        i += 1;
    }
    assert(out@ =~= lower(s@));
    out
}

} // verus!
