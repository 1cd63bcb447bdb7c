//! Laws about text: what is cut off, taken apart, found and replaced, said of
//! the characters themselves.
use vstd::prelude::*;

use crate::escape::truncated;
use crate::number::{all_digits, read_signed, read_unsigned, value_of};
use crate::text::{
    after, after_word, before, first_word, last_match, last_match_is_last, lines_of, lower,
    mentions, nonblank, occurs_at, pieces, position_at, position_is_first, trimmed, trimmed_end,
    trimmed_end_of, trimmed_start, upper, white, with_replaced, without_cr, word_length,
};

verus! {

// ---------------------------------------------------------------------------
// White space
// ---------------------------------------------------------------------------

/// Whether a text is made of white space alone.
pub open spec fn blank(s: Seq<char>) -> bool {
    forall|i: int| 0 <= i < s.len() ==> white(#[trigger] s[i])
}

/// Whether neither end of a text is white space.
pub open spec fn tight(s: Seq<char>) -> bool {
    s.len() > 0 ==> !white(s[0]) && !white(s.last())
}

proof fn start_cut(s: Seq<char>) -> (k: int)
    ensures
        0 <= k <= s.len(),
        trimmed_start(s) == s.skip(k),
        forall|i: int| 0 <= i < k ==> white(#[trigger] s[i]),
        k < s.len() ==> !white(s[k]),
    decreases s.len(),
{
    if s.len() > 0 && white(s[0]) {
        let rest = s.skip(1);
        let k = start_cut(rest);
        assert(rest.skip(k) =~= s.skip(k + 1));
        assert forall|i: int| 0 <= i < k + 1 implies white(#[trigger] s[i]) by {
            if i > 0 {
                assert(rest[i - 1] == s[i]);
            }
        }
        if k < rest.len() {
            assert(rest[k] == s[k + 1]);
        }
        k + 1
    } else {
        assert(s.skip(0) =~= s);
        0
    }
}

proof fn end_cut(s: Seq<char>) -> (n: int)
    ensures
        0 <= n <= s.len(),
        trimmed_end(s) == s.take(n),
        forall|i: int| n <= i < s.len() ==> white(#[trigger] s[i]),
        n > 0 ==> !white(s[n - 1]),
    decreases s.len(),
{
    if s.len() > 0 && white(s.last()) {
        let rest = s.drop_last();
        let n = end_cut(rest);
        assert(rest.take(n) =~= s.take(n));
        assert forall|i: int| n <= i < s.len() implies white(#[trigger] s[i]) by {
            if i < rest.len() {
                assert(rest[i] == s[i]);
            }
        }
        n
    } else {
        assert(s.take(s.len() as int) =~= s);
        s.len() as int
    }
}

/// Trimming gives back exactly the text between blank ends: whatever blank text
/// stands around a text whose own ends are not white, the text is left.
pub proof fn trimming_leaves_the_text(front: Seq<char>, s: Seq<char>, back: Seq<char>)
    requires
        blank(front),
        blank(back),
        tight(s),
    ensures
        trimmed(front + s + back) == s,
{
    let whole = front + s + back;
    let a = front.len() as int;
    let b = a + s.len();
    let k = start_cut(whole);
    let rest = whole.skip(k);
    let n = end_cut(rest);
    if s.len() == 0 {
        assert forall|i: int| 0 <= i < whole.len() implies white(#[trigger] whole[i]) by {
            if i < a {
                assert(whole[i] == front[i]);
            } else {
                assert(whole[i] == back[i - a]);
            }
        }
        assert(k == whole.len());
        assert(rest.take(n) =~= s);
    } else {
        assert(whole[a] == s[0]);
        assert(whole[b - 1] == s.last());
        assert forall|i: int| 0 <= i < a implies white(#[trigger] whole[i]) by {
            assert(whole[i] == front[i]);
        }
        assert forall|i: int| b <= i < whole.len() implies white(#[trigger] whole[i]) by {
            assert(whole[i] == back[i - b]);
        }
        assert(k == a) by {
            if k < a {
                assert(white(whole[k]));
            }
            if k > a {
                assert(white(whole[a]));
            }
        }
        assert(n == s.len()) by {
            if n > s.len() {
                assert(rest[n - 1] == whole[a + n - 1]);
            }
            if n < s.len() {
                assert(rest[s.len() - 1] == whole[b - 1]);
            }
        }
        assert(rest.take(n) =~= s);
    }
}

/// A text whose ends are not white is not changed by trimming, and a blank text
/// is cut to nothing.
pub proof fn tight_text_is_kept(s: Seq<char>)
    ensures
        tight(s) ==> trimmed(s) == s,
        blank(s) ==> trimmed(s) == Seq::<char>::empty(),
        tight(s) && s.len() > 0 ==> nonblank(Some(s)) == Some(s),
        blank(s) ==> nonblank(Some(s)) is None,
{
    let none = Seq::<char>::empty();
    if tight(s) {
        trimming_leaves_the_text(none, s, none);
        assert(none + s + none =~= s);
    }
    if blank(s) {
        trimming_leaves_the_text(s, none, none);
        assert(s + none + none =~= s);
    }
}

/// Whether a text is blank can be told from what trimming leaves.
pub proof fn only_blank_text_is_cut_to_nothing(s: Seq<char>)
    ensures
        trimmed(s).len() == 0 <==> blank(s),
{
    tight_text_is_kept(s);
    if trimmed(s).len() == 0 {
        let k = start_cut(s);
        let rest = s.skip(k);
        let n = end_cut(rest);
        if k < s.len() {
            assert(rest[0] == s[k]);
            assert(white(rest[0]));
        }
    }
}

/// A text is what trimming leaves of it, with white space before it and after it.
pub proof fn text_is_trimmed_from(s: Seq<char>) -> (ends: (Seq<char>, Seq<char>))
    ensures
        blank(ends.0),
        blank(ends.1),
        s == ends.0 + trimmed(s) + ends.1,
        tight(trimmed(s)),
{
    let k = start_cut(s);
    let rest = s.skip(k);
    let n = end_cut(rest);
    let front = s.take(k);
    let back = rest.skip(n);
    assert(s =~= front + rest.take(n) + back);
    assert forall|i: int| 0 <= i < back.len() implies white(#[trigger] back[i]) by {
        assert(back[i] == rest[n + i]);
    }
    (front, back)
}

/// White space is what Unicode says it is.
pub proof fn white_space_is_known(ch: char)
    ensures
        white(ch) <==> seq![
            9int,
            10,
            11,
            12,
            13,
            32,
            133,
            160,
            5760,
            8192,
            8193,
            8194,
            8195,
            8196,
            8197,
            8198,
            8199,
            8200,
            8201,
            8202,
            8232,
            8233,
            8239,
            8287,
            12288,
        ].contains(ch as int),
{
    let codes = seq![
        9int,
        10,
        11,
        12,
        13,
        32,
        133,
        160,
        5760,
        8192,
        8193,
        8194,
        8195,
        8196,
        8197,
        8198,
        8199,
        8200,
        8201,
        8202,
        8232,
        8233,
        8239,
        8287,
        12288,
    ];
    assert(codes[0] == 9);
    assert(codes[1] == 10);
    assert(codes[2] == 11);
    assert(codes[3] == 12);
    assert(codes[4] == 13);
    assert(codes[5] == 32);
    assert(codes[6] == 133);
    assert(codes[7] == 160);
    assert(codes[8] == 5760);
    assert(codes[9] == 8192);
    assert(codes[10] == 8193);
    assert(codes[11] == 8194);
    assert(codes[12] == 8195);
    assert(codes[13] == 8196);
    assert(codes[14] == 8197);
    assert(codes[15] == 8198);
    assert(codes[16] == 8199);
    assert(codes[17] == 8200);
    assert(codes[18] == 8201);
    assert(codes[19] == 8202);
    assert(codes[20] == 8232);
    assert(codes[21] == 8233);
    assert(codes[22] == 8239);
    assert(codes[23] == 8287);
    assert(codes[24] == 12288);
}

/// Cutting a character off the end leaves the text before its last run.
pub proof fn cutting_the_end_leaves_the_text(s: Seq<char>, ch: char, n: nat)
    requires
        s.len() > 0 ==> s.last() != ch,
    ensures
        trimmed_end_of(s + Seq::new(n, |i: int| ch), ch) == s,
    decreases n,
{
    let run = Seq::new(n, |i: int| ch);
    if n == 0 {
        assert(s + run =~= s);
    } else {
        let shorter = Seq::new((n - 1) as nat, |i: int| ch);
        assert((s + run).drop_last() =~= s + shorter);
        assert((s + run).last() == ch);
        cutting_the_end_leaves_the_text(s, ch, (n - 1) as nat);
    }
}

// ---------------------------------------------------------------------------
// Taking apart
// ---------------------------------------------------------------------------

/// A text is parted at the first of a character: what stands before it, and
/// what stands after it. Without one, all of it stands before.
pub proof fn text_is_parted_at_the_first(a: Seq<char>, ch: char, b: Seq<char>)
    requires
        !a.contains(ch),
    ensures
        before(a + seq![ch] + b, ch) == a,
        after(a + seq![ch] + b, ch) == b,
        before(a, ch) == a,
        after(a, ch) == Seq::<char>::empty(),
{
    let whole = a + seq![ch] + b;
    assert forall|i: int| 0 <= i < a.len() implies whole[i] != ch && a[i] != ch by {
        assert(a.contains(a[i]));
        assert(whole[i] == a[i]);
    }
    position_at(whole, ch, a.len() as int);
    position_at(a, ch, a.len() as int);
    assert(before(whole, ch) =~= a);
    assert(after(whole, ch) =~= b);
    assert(before(a, ch) =~= a);
}

/// A list of texts with a character between each two.
pub open spec fn joined(list: Seq<Seq<char>>, ch: char) -> Seq<char>
    decreases list.len(),
{
    if list.len() == 0 {
        Seq::empty()
    } else if list.len() == 1 {
        list[0]
    } else {
        list[0] + seq![ch] + joined(list.skip(1), ch)
    }
}

/// Splitting a joined list gives the list back.
pub proof fn splitting_undoes_joining(list: Seq<Seq<char>>, ch: char)
    requires
        list.len() > 0,
        forall|i: int| 0 <= i < list.len() ==> !(#[trigger] list[i]).contains(ch),
    ensures
        pieces(joined(list, ch), ch) == list,
    decreases list.len(),
{
    let s = joined(list, ch);
    if list.len() == 1 {
        position_is_first(s, ch);
        assert(seq![s] =~= list);
    } else {
        let rest = list.skip(1);
        assert forall|i: int| 0 <= i < rest.len() implies !(#[trigger] rest[i]).contains(ch) by {
            assert(rest[i] == list[i + 1]);
        }
        splitting_undoes_joining(rest, ch);
        let tail = joined(rest, ch);
        text_is_parted_at_the_first(list[0], ch, tail);
        assert(s[list[0].len() as int] == ch);
        assert(s.contains(ch));
        position_is_first(s, ch);
        assert(seq![list[0]] + rest =~= list);
    }
}

/// A line ends with a line feed, before which a carriage return may stand; the
/// last line needs no end.
pub proof fn lines_are_parted_at_line_feeds(line: Seq<char>, rest: Seq<char>)
    requires
        !line.contains('\n'),
    ensures
        lines_of(line + seq!['\r', '\n'] + rest) == seq![line] + lines_of(rest),
        (line.len() == 0 || line.last() != '\r') ==> lines_of(line + seq!['\n'] + rest) == seq![
            line,
        ] + lines_of(rest),
        line.len() > 0 ==> lines_of(line) == seq![line],
        lines_of(Seq::<char>::empty()) == Seq::<Seq<char>>::empty(),
{
    let ended = line.push('\r');
    assert forall|i: int| 0 <= i < ended.len() implies ended[i] != '\n' by {
        if i < line.len() {
            assert(line.contains(line[i]));
        }
    }
    text_is_parted_at_the_first(ended, '\n', rest);
    assert(ended + seq!['\n'] + rest =~= line + seq!['\r', '\n'] + rest);
    assert(without_cr(ended) =~= line);
    let whole = line + seq!['\r', '\n'] + rest;
    assert(whole[line.len() as int + 1] == '\n');
    assert(whole.contains('\n'));
    position_is_first(whole, '\n');
    text_is_parted_at_the_first(line, '\n', rest);
    let plain = line + seq!['\n'] + rest;
    assert(plain[line.len() as int] == '\n');
    assert(plain.contains('\n'));
    position_is_first(plain, '\n');
    position_is_first(line, '\n');
}

proof fn word_ends(word: Seq<char>, rest: Seq<char>)
    requires
        forall|i: int| 0 <= i < word.len() ==> !white(#[trigger] word[i]),
        rest.len() > 0 ==> white(rest[0]),
    ensures
        word_length(word + rest) == word.len(),
    decreases word.len(),
{
    let whole = word + rest;
    if word.len() > 0 {
        let tail = word.skip(1);
        assert forall|i: int| 0 <= i < tail.len() implies !white(#[trigger] tail[i]) by {
            assert(tail[i] == word[i + 1]);
        }
        word_ends(tail, rest);
        assert(whole.skip(1) =~= tail + rest);
        assert(whole[0] == word[0]);
    } else {
        assert(whole =~= rest);
    }
}

/// The first word of a text is what stands between white space, all of it.
pub proof fn first_word_is_found(front: Seq<char>, word: Seq<char>, rest: Seq<char>)
    requires
        blank(front),
        word.len() > 0,
        forall|i: int| 0 <= i < word.len() ==> !white(#[trigger] word[i]),
        rest.len() > 0 ==> white(rest[0]),
    ensures
        first_word(front + word + rest) == word,
        after_word(front + word + rest) == rest,
{
    let whole = front + word + rest;
    let k = start_cut(whole);
    assert(whole[front.len() as int] == word[0]);
    assert forall|i: int| 0 <= i < front.len() implies white(#[trigger] whole[i]) by {
        assert(whole[i] == front[i]);
    }
    assert(k == front.len()) by {
        if k < front.len() {
            assert(white(whole[k]));
        }
        if k > front.len() {
            assert(white(whole[front.len() as int]));
        }
    }
    assert(whole.skip(k) =~= word + rest);
    word_ends(word, rest);
    assert((word + rest).take(word.len() as int) =~= word);
    assert((word + rest).skip(word.len() as int) =~= rest);
}

// ---------------------------------------------------------------------------
// Changing
// ---------------------------------------------------------------------------

/// Replacing a character changes the places that hold it and no others.
pub proof fn only_the_character_is_replaced(s: Seq<char>, from: char, to: char)
    ensures
        with_replaced(s, from, to).len() == s.len(),
        forall|i: int|
            0 <= i < s.len() ==> #[trigger] with_replaced(s, from, to)[i] == (if s[i] == from {
                to
            } else {
                s[i]
            }),
{
}

/// The letters of ASCII change their case, and no other character changes.
pub proof fn only_ascii_letters_change_case(s: Seq<char>)
    ensures
        lower(s).len() == s.len(),
        upper(s).len() == s.len(),
        forall|i: int|
            0 <= i < s.len() ==> (#[trigger] lower(s)[i]) as int == (if 65 <= s[i] as int <= 90 {
                s[i] as int + 32
            } else {
                s[i] as int
            }),
        forall|i: int|
            0 <= i < s.len() ==> (#[trigger] upper(s)[i]) as int == (if 97 <= s[i] as int <= 122 {
                s[i] as int - 32
            } else {
                s[i] as int
            }),
{
}

/// A text that is not too long is shown in full; of a longer one, the first
/// characters are shown, and an ellipsis.
pub proof fn only_long_text_is_cut(s: Seq<char>, max: nat)
    ensures
        s.len() <= max ==> truncated(s, max) == s,
        s.len() > max ==> truncated(s, max).len() == max + 3 && truncated(s, max).take(max as int)
            == s.take(max as int) && truncated(s, max).skip(max as int) == seq!['.', '.', '.'],
{
    reveal_strlit("...");
    if s.len() > max {
        assert(truncated(s, max).take(max as int) =~= s.take(max as int));
        assert(truncated(s, max).skip(max as int) =~= seq!['.', '.', '.']);
    }
}

// ---------------------------------------------------------------------------
// Searching
// ---------------------------------------------------------------------------

/// Whether a text holds another somewhere.
pub open spec fn holds(s: Seq<char>, word: Seq<char>) -> bool {
    exists|a: Seq<char>, b: Seq<char>| s == #[trigger] (a + word + b)
}

/// A word is found in a text exactly where the text holds it.
pub proof fn words_are_found_where_they_stand(s: Seq<char>, word: Seq<char>)
    ensures
        mentions(s, word) <==> holds(s, word),
{
    if mentions(s, word) {
        let i = choose|i: int| occurs_at(s, word, i);
        let a = s.take(i);
        let b = s.skip(i + word.len());
        assert(s =~= a + word + b);
    }
    if holds(s, word) {
        let (a, b) = choose|a: Seq<char>, b: Seq<char>| s == #[trigger] (a + word + b);
        let i = a.len() as int;
        assert(s.subrange(i, i + word.len()) =~= word);
        assert(occurs_at(s, word, i));
    }
}

/// The last place of a word is the one that nothing but the word's own text
/// follows without the word.
pub proof fn last_place_is_found(start: Seq<char>, word: Seq<char>, rest: Seq<char>)
    requires
        word.len() > 0,
        !holds((word + rest).skip(1), word),
    ensures
        last_match(start + (word + rest), word) == Some(start.len() as int),
{
    let area = word + rest;
    let body = start + area;
    let p = start.len() as int;
    last_match_is_last(body, word);
    assert(body.subrange(p, p + word.len()) =~= word);
    assert(occurs_at(body, word, p));
    match last_match(body, word) {
        Some(q) => {
            if q > p {
                let s = area.skip(1);
                let a = s.take(q - p - 1);
                let b = s.skip(q - p - 1 + word.len());
                assert(body.subrange(q, q + word.len()) =~= s.subrange(
                    q - p - 1,
                    q - p - 1 + word.len(),
                ));
                assert(s =~= a + word + b);
                assert(holds(s, word));
            }
            if q < p {
                assert(!occurs_at(body, word, p));
            }
        },
        None => {
            assert(mentions(body, word));
        },
    }
}

/// A word that a text does not hold has no place in it.
pub proof fn missing_words_have_no_place(s: Seq<char>, word: Seq<char>)
    ensures
        last_match(s, word) is None <==> !holds(s, word),
{
    words_are_found_where_they_stand(s, word);
    last_match_is_last(s, word);
    match last_match(s, word) {
        Some(p) => {
            assert(occurs_at(s, word, p));
        },
        None => {},
    }
}

// ---------------------------------------------------------------------------
// Numbers
// ---------------------------------------------------------------------------

/// Digits are the characters from `0` to `9`.
pub proof fn digits_are_known(s: Seq<char>)
    ensures
        all_digits(s) <==> forall|i: int|
            0 <= i < s.len() ==> 48 <= (#[trigger] s[i]) as int && s[i] as int <= 57,
{
}

/// One more digit makes ten times the number and the digit.
pub proof fn digits_count_by_tens(s: Seq<char>, d: char)
    requires
        all_digits(s),
        '0' <= d <= '9',
    ensures
        value_of(Seq::<char>::empty()) == 0,
        value_of(s.push(d)) == 10 * value_of(s) + (d as int - 48),
        all_digits(s.push(d)),
{
    assert(s.push(d).drop_last() =~= s);
    assert forall|i: int| 0 <= i < s.push(d).len() implies '0' <= #[trigger] s.push(d)[i]
        <= '9' by {
        if i < s.len() {
            assert(s.push(d)[i] == s[i]);
        }
    }
}

/// Digits are read as the number they stand for, with leading zeros and a plus
/// sign or without, up to the limit and no further. Nothing else is read.
pub proof fn digits_are_read(s: Seq<char>, max: nat)
    ensures
        s.len() > 0 && all_digits(s) && value_of(s) <= max ==> read_unsigned(s, max) == Some(
            value_of(s),
        ) && read_unsigned(seq!['+'] + s, max) == Some(value_of(s)),
        s.len() > 0 && all_digits(s) && value_of(s) > max ==> read_unsigned(s, max) is None
            && read_unsigned(seq!['+'] + s, max) is None,
        !all_digits(s) && (s.len() == 0 || s[0] != '+') ==> read_unsigned(s, max) is None,
        s.len() == 0 ==> read_unsigned(s, max) is None && read_unsigned(seq!['+'], max) is None,
        s.len() > 0 && all_digits(s) && value_of(s) <= 0x8000_0000 ==> read_signed(seq!['-'] + s)
            == Some(-(value_of(s) as int)),
        s.len() > 0 && all_digits(s) && value_of(s) <= 0x7fff_ffff ==> read_signed(s) == Some(
            value_of(s) as int,
        ),
{
    assert((seq!['+'] + s).skip(1) =~= s);
    assert((seq!['-'] + s).skip(1) =~= s);
    assert(seq!['+'].skip(1) =~= Seq::<char>::empty());
    if s.len() > 0 && all_digits(s) {
        assert('0' <= s[0] <= '9');
    }
}

} // verus!
