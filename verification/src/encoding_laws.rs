//! Laws about text inside other notations: what is written there is read back
//! unchanged, and takes up no more room than it was given.
use vstd::prelude::*;
use vstd::utf8::{
    encode_utf8, encode_utf8_decode_utf8, encode_utf8_valid_utf8, is_ascii_chars,
    is_ascii_chars_encode_utf8,
};

use crate::bridge::path_below;
use crate::escape::{
    curl_char, curl_quoted, html_char, html_escaped, json_char, json_quoted, powershell_char,
    powershell_quoted,
};
use crate::number::{hex_lower, hex_upper};
use crate::text::{
    after, before, mentions, occurs_at, pieces, position, position_at, position_is_first,
    text_of_bytes,
};
use crate::url::{
    encoded_byte, form_encoded, form_text, hex_digit, lookup, parameter, path_parameter,
    percent_decoded, starts_with_escape, unreserved, url_decoded, url_encoded,
};
use crate::windows::VIEWER_URL;
use crate::{gateway, launcher};

verus! {

// ---------------------------------------------------------------------------
// Sequences made piece by piece
// ---------------------------------------------------------------------------

/// A mapped sequence begins with what its first element is mapped to.
pub(crate) proof fn flat_map_front<A, B>(s: Seq<A>, f: spec_fn(A) -> Seq<B>)
    requires
        s.len() > 0,
    ensures
        s.flat_map(f) == f(s[0]) + s.skip(1).flat_map(f),
{
    assert(s.map_values(f).drop_first() =~= s.skip(1).map_values(f));
}

// ---------------------------------------------------------------------------
// UTF-8
// ---------------------------------------------------------------------------

/// Text that is sent as UTF-8 is read back unchanged.
pub proof fn utf8_round_trip(s: Seq<char>)
    ensures
        text_of_bytes(encode_utf8(s)) == s,
{
    encode_utf8_valid_utf8(s);
    encode_utf8_decode_utf8(s);
}

// ---------------------------------------------------------------------------
// Percent-encoding
// ---------------------------------------------------------------------------

/// Whether a character may stand in percent-encoded text.
pub open spec fn url_char(ch: char) -> bool {
    ||| 'A' <= ch <= 'Z'
    ||| 'a' <= ch <= 'z'
    ||| '0' <= ch <= '9'
    ||| ch == '-'
    ||| ch == '_'
    ||| ch == '.'
    ||| ch == '~'
    ||| ch == '%'
    ||| ch == '+'
}

/// The two ways to write a space.
pub open spec fn writes_space(space: Seq<char>) -> bool {
    space == "+"@ || space == "%20"@
}

proof fn percent_round_trip(bytes: Seq<u8>, space: Seq<char>)
    requires
        writes_space(space),
    ensures
        ({
            let encoded = bytes.flat_map(|byte: u8| encoded_byte(byte, space));
            &&& is_ascii_chars(encoded)
            &&& forall|i: int| 0 <= i < encoded.len() ==> url_char(#[trigger] encoded[i])
            &&& percent_decoded(encode_utf8(encoded)) == bytes
        }),
    decreases bytes.len(),
{
    let f = |byte: u8| encoded_byte(byte, space);
    let encoded = bytes.flat_map(f);
    reveal_strlit("+");
    reveal_strlit("%20");
    if bytes.len() == 0 {
        assert(encoded =~= Seq::empty());
        is_ascii_chars_encode_utf8(encoded);
        assert(percent_decoded(encode_utf8(encoded)) =~= bytes);
    } else {
        let byte = bytes[0];
        let first = encoded_byte(byte, space);
        let rest = bytes.skip(1).flat_map(f);
        percent_round_trip(bytes.skip(1), space);
        flat_map_front(bytes, f);
        assert(encoded == first + rest);
        assert forall|i: int| 0 <= i < encoded.len() implies url_char(#[trigger] encoded[i])
            && encoded[i] <= '\u{7f}' by {
            if i >= first.len() {
                assert(encoded[i] == rest[i - first.len()]);
                assert(url_char(rest[i - first.len()]));
            }
        }
        is_ascii_chars_encode_utf8(encoded);
        is_ascii_chars_encode_utf8(rest);
        let raw = encode_utf8(encoded);
        let n = first.len() as int;
        assert(raw.skip(n) =~= encode_utf8(rest)) by {
            assert forall|i: int| 0 <= i < rest.len() implies raw.skip(n)[i] == encode_utf8(
                rest,
            )[i] by {
                assert(encoded[n + i] == rest[i]);
            }
        }
        assert(raw[0] == encoded[0] as u8);
        if unreserved(byte) {
            assert(raw[0] == byte);
        } else if byte == 0x20 && space == "+"@ {
            assert(raw[0] == 0x2b);
        } else {
            assert(raw[1] == encoded[1] as u8);
            assert(raw[2] == encoded[2] as u8);
            let high = byte as int / 16;
            let low = byte as int % 16;
            assert(hex_digit(hex_upper(high) as u8) == Some(high as u8));
            assert(hex_digit(hex_upper(low) as u8) == Some(low as u8));
            assert(starts_with_escape(raw));
        }
        assert(percent_decoded(raw) =~= seq![byte] + percent_decoded(raw.skip(n)));
        assert(seq![byte] + bytes.skip(1) =~= bytes);
    }
}

/// Percent-encoded text is decoded to what was encoded, whichever way a space
/// was written.
pub proof fn percent_encoding_round_trip(s: Seq<char>)
    ensures
        url_decoded(form_encoded(s)) == s,
        url_decoded(url_encoded(s)) == s,
{
    percent_round_trip(encode_utf8(s), "+"@);
    percent_round_trip(encode_utf8(s), "%20"@);
    utf8_round_trip(s);
}

/// Percent-encoded text is made of letters, digits and `-_.~%+` alone. So it
/// holds no character that ends a parameter, a query or a path.
pub proof fn percent_encoding_alphabet(s: Seq<char>)
    ensures
        forall|i: int| 0 <= i < form_encoded(s).len() ==> url_char(#[trigger] form_encoded(s)[i]),
        forall|i: int| 0 <= i < url_encoded(s).len() ==> url_char(#[trigger] url_encoded(s)[i]),
{
    percent_round_trip(encode_utf8(s), "+"@);
    percent_round_trip(encode_utf8(s), "%20"@);
}

// ---------------------------------------------------------------------------
// Forms
// ---------------------------------------------------------------------------

/// The value of the first field of the given name.
pub open spec fn first_field(fields: Seq<(Seq<char>, Seq<char>)>, name: Seq<char>) -> Option<
    Seq<char>,
>
    decreases fields.len(),
{
    if fields.len() == 0 {
        None
    } else if fields[0].0 == name {
        Some(fields[0].1)
    } else {
        first_field(fields.skip(1), name)
    }
}

/// A field as it stands in a form.
spec fn field_text(field: (Seq<char>, Seq<char>)) -> Seq<char> {
    form_encoded(field.0) + "="@ + form_encoded(field.1)
}

proof fn pieces_one(s: Seq<char>, ch: char)
    requires
        !s.contains(ch),
    ensures
        pieces(s, ch) == seq![s],
{
    position_is_first(s, ch);
}

/// A piece more at the end.
proof fn pieces_append(s: Seq<char>, ch: char, last: Seq<char>)
    requires
        !last.contains(ch),
    ensures
        pieces(s + seq![ch] + last, ch) == pieces(s, ch).push(last),
    decreases s.len(),
{
    let whole = s + seq![ch] + last;
    position_is_first(s, ch);
    let p = position(s, ch);
    if p < s.len() {
        assert forall|i: int| 0 <= i < p implies whole[i] != ch by {
            assert(whole[i] == s[i]);
        }
        position_at(whole, ch, p);
        assert(before(whole, ch) =~= before(s, ch));
        assert(after(whole, ch) =~= after(s, ch) + seq![ch] + last);
        pieces_append(after(s, ch), ch, last);
        assert(pieces(whole, ch) =~= pieces(s, ch).push(last));
    } else {
        assert forall|i: int| 0 <= i < p implies whole[i] != ch by {
            assert(whole[i] == s[i]);
        }
        position_at(whole, ch, p);
        assert(before(whole, ch) =~= s);
        assert(after(whole, ch) =~= last);
        pieces_one(last, ch);
        assert(pieces(whole, ch) =~= pieces(s, ch).push(last));
    }
}

/// What a field in a form is taken apart into.
proof fn field_parts(field: (Seq<char>, Seq<char>))
    ensures
        !field_text(field).contains('&'),
        before(field_text(field), '=') == form_encoded(field.0),
        after(field_text(field), '=') == form_encoded(field.1),
{
    reveal_strlit("=");
    let key = form_encoded(field.0);
    let value = form_encoded(field.1);
    let pair = field_text(field);
    percent_encoding_alphabet(field.0);
    percent_encoding_alphabet(field.1);
    assert forall|i: int| 0 <= i < pair.len() implies pair[i] != '&' && (pair[i] == '=' ==> i
        == key.len()) by {
        if i < key.len() {
            assert(pair[i] == key[i]);
        } else if i > key.len() {
            assert(pair[i] == value[i - key.len() - 1]);
        }
    }
    position_at(pair, '=', key.len() as int);
    assert(before(pair, '=') =~= key);
    assert(after(pair, '=') =~= value);
}

proof fn form_pieces(fields: Seq<(Seq<char>, Seq<char>)>)
    requires
        fields.len() > 0,
    ensures
        pieces(form_text(fields), '&') == fields.map_values(
            |field: (Seq<char>, Seq<char>)| field_text(field),
        ),
    decreases fields.len(),
{
    let f = |field: (Seq<char>, Seq<char>)| field_text(field);
    let last = field_text(fields.last());
    field_parts(fields.last());
    if fields.len() == 1 {
        pieces_one(last, '&');
        assert(seq![last] =~= fields.map_values(f));
    } else {
        reveal_strlit("&");
        form_pieces(fields.drop_last());
        assert("&"@ =~= seq!['&']);
        pieces_append(form_text(fields.drop_last()), '&', last);
        assert(fields.drop_last().map_values(f).push(last) =~= fields.map_values(f));
    }
}

proof fn lookup_fields(fields: Seq<(Seq<char>, Seq<char>)>, name: Seq<char>)
    ensures
        lookup(
            fields.map_values(|field: (Seq<char>, Seq<char>)| field_text(field)),
            name,
        ) == first_field(fields, name),
    decreases fields.len(),
{
    let f = |field: (Seq<char>, Seq<char>)| field_text(field);
    if fields.len() > 0 {
        field_parts(fields[0]);
        percent_encoding_round_trip(fields[0].0);
        percent_encoding_round_trip(fields[0].1);
        lookup_fields(fields.skip(1), name);
        assert(fields.map_values(f).skip(1) =~= fields.skip(1).map_values(f));
    }
}

/// A form gives back the fields that it was made of. Where two fields have the
/// same name it gives the first.
pub proof fn form_round_trip(fields: Seq<(Seq<char>, Seq<char>)>, name: Seq<char>)
    requires
        fields.len() > 0,
    ensures
        parameter(form_text(fields), name) == first_field(fields, name),
{
    form_pieces(fields);
    lookup_fields(fields, name);
}

/// A form gives back the fields that it was made of after it has been sent.
pub proof fn sent_form_round_trip(fields: Seq<(Seq<char>, Seq<char>)>, name: Seq<char>)
    requires
        fields.len() > 0,
    ensures
        parameter(text_of_bytes(encode_utf8(form_text(fields))), name) == first_field(fields, name),
{
    utf8_round_trip(form_text(fields));
    form_round_trip(fields, name);
}

// ---------------------------------------------------------------------------
// The viewer
// ---------------------------------------------------------------------------

proof fn plain_bytes_decode(bytes: Seq<u8>)
    requires
        forall|i: int| 0 <= i < bytes.len() ==> #[trigger] bytes[i] != 0x2b && bytes[i] != 0x25,
    ensures
        percent_decoded(bytes) == bytes,
    decreases bytes.len(),
{
    if bytes.len() > 0 {
        assert forall|i: int| 0 <= i < bytes.skip(1).len() implies #[trigger] bytes.skip(1)[i]
            != 0x2b && bytes.skip(1)[i] != 0x25 by {
            assert(bytes.skip(1)[i] == bytes[i + 1]);
        }
        plain_bytes_decode(bytes.skip(1));
        assert(seq![bytes[0]] + bytes.skip(1) =~= bytes);
    } else {
        assert(percent_decoded(bytes) =~= bytes);
    }
}

proof fn source_parameter(encoded: Seq<char>)
    requires
        forall|i: int| 0 <= i < encoded.len() ==> url_char(#[trigger] encoded[i]),
    ensures
        path_parameter(VIEWER_URL@ + encoded, "src"@) == Some(url_decoded(encoded)),
{
    reveal_strlit("https://view.officeapps.live.com/op/view.aspx?src=");
    reveal_strlit("src");
    let path = VIEWER_URL@ + encoded;
    let query = "src="@ + encoded;
    reveal_strlit("src=");
    let p: int = 45;
    assert(path[p] == '?');
    assert forall|i: int| 0 <= i < p implies path[i] != '?' by {
        assert(path[i] == VIEWER_URL@[i]);
    }
    position_at(path, '?', p);
    assert(path.contains('?'));
    assert(after(path, '?') =~= query);
    assert forall|i: int| 0 <= i < query.len() implies query[i] != '&' by {
        if i >= 4 {
            assert(query[i] == encoded[i - 4]);
        }
    }
    pieces_one(query, '&');
    position_at(query, '=', 3);
    assert(before(query, '=') =~= "src"@);
    assert(after(query, '=') =~= encoded);
    is_ascii_chars_encode_utf8("src"@);
    plain_bytes_decode(encode_utf8("src"@));
    utf8_round_trip("src"@);
}

/// The address of the viewer names the document to show: its parameter `src`
/// is the source, in either program.
pub proof fn viewer_address_names_source(source: Seq<char>)
    ensures
        path_parameter(crate::bridge::viewer_address(source), "src"@) == Some(source),
        path_parameter(launcher::viewer_address(source), "src"@) == Some(source),
{
    percent_encoding_alphabet(source);
    percent_encoding_round_trip(source);
    source_parameter(form_encoded(source));
    source_parameter(url_encoded(source));
}

// ---------------------------------------------------------------------------
// HTML
// ---------------------------------------------------------------------------

/// Whether `s` begins with an entity of the given name.
pub open spec fn at_entity(s: Seq<char>, name: Seq<char>) -> bool {
    &&& s.len() >= name.len() + 2
    &&& s[0] == '&'
    &&& forall|i: int| 0 <= i < name.len() ==> s[i + 1] == #[trigger] name[i]
    &&& s[name.len() as int + 1] == ';'
}

/// HTML text with its five entities replaced by the characters they name.
pub open spec fn html_read(s: Seq<char>) -> Seq<char>
    decreases s.len(),
{
    if s.len() == 0 {
        Seq::empty()
    } else if at_entity(s, seq!['a', 'm', 'p']) {
        seq!['&'] + html_read(s.skip(5))
    } else if at_entity(s, seq!['l', 't']) {
        seq!['<'] + html_read(s.skip(4))
    } else if at_entity(s, seq!['g', 't']) {
        seq!['>'] + html_read(s.skip(4))
    } else if at_entity(s, seq!['q', 'u', 'o', 't']) {
        seq!['"'] + html_read(s.skip(6))
    } else if at_entity(s, seq!['#', '3', '9']) {
        seq!['\''] + html_read(s.skip(5))
    } else {
        seq![s[0]] + html_read(s.skip(1))
    }
}

/// Whether a character opens or closes a tag or an attribute.
pub open spec fn markup(ch: char) -> bool {
    ch == '<' || ch == '>' || ch == '"' || ch == '\''
}

/// What stands for a character is read as that character.
proof fn html_read_char(ch: char, rest: Seq<char>)
    ensures
        html_read(html_char(ch) + rest) == seq![ch] + html_read(rest),
        forall|i: int| 0 <= i < html_char(ch).len() ==> !markup(#[trigger] html_char(ch)[i]),
{
    reveal_strlit("&amp;");
    reveal_strlit("&lt;");
    reveal_strlit("&gt;");
    reveal_strlit("&quot;");
    reveal_strlit("&#39;");
    let whole = html_char(ch) + rest;
    assert(whole.skip(html_char(ch).len() as int) =~= rest);
    if ch == '&' {
        assert(at_entity(whole, seq!['a', 'm', 'p']));
    } else if ch == '<' {
        assert(whole[1] != seq!['a', 'm', 'p'][0]);
        assert(at_entity(whole, seq!['l', 't']));
    } else if ch == '>' {
        assert(whole[1] != seq!['a', 'm', 'p'][0]);
        assert(whole[1] != seq!['l', 't'][0]);
        assert(at_entity(whole, seq!['g', 't']));
    } else if ch == '"' {
        assert(whole[1] != seq!['a', 'm', 'p'][0]);
        assert(whole[1] != seq!['l', 't'][0]);
        assert(whole[1] != seq!['g', 't'][0]);
        assert(at_entity(whole, seq!['q', 'u', 'o', 't']));
    } else if ch == '\'' {
        assert(whole[1] != seq!['a', 'm', 'p'][0]);
        assert(whole[1] != seq!['l', 't'][0]);
        assert(whole[1] != seq!['g', 't'][0]);
        assert(whole[1] != seq!['q', 'u', 'o', 't'][0]);
        assert(at_entity(whole, seq!['#', '3', '9']));
    } else {
        assert(whole[0] == ch);
    }
}

/// Escaped text shows as what it was before, and holds none of the characters
/// that open or close a tag or an attribute.
pub proof fn html_round_trip(s: Seq<char>)
    ensures
        html_read(html_escaped(s)) == s,
        forall|i: int| 0 <= i < html_escaped(s).len() ==> !markup(#[trigger] html_escaped(s)[i]),
    decreases s.len(),
{
    let escaped = html_escaped(s);
    if s.len() == 0 {
        assert(escaped =~= Seq::empty());
        assert(html_read(escaped) =~= s);
    } else {
        let first = html_char(s[0]);
        let rest = html_escaped(s.skip(1));
        html_round_trip(s.skip(1));
        flat_map_front(s, |ch: char| html_char(ch));
        html_read_char(s[0], rest);
        assert forall|i: int| 0 <= i < escaped.len() implies !markup(#[trigger] escaped[i]) by {
            if i < first.len() {
                assert(escaped[i] == first[i]);
            } else {
                assert(escaped[i] == rest[i - first.len()]);
            }
        }
        assert(seq![s[0]] + s.skip(1) =~= s);
    }
}

// ---------------------------------------------------------------------------
// Pages
// ---------------------------------------------------------------------------

/// How often a character stands in a text.
pub open spec fn occurrences(s: Seq<char>, ch: char) -> nat
    decreases s.len(),
{
    if s.len() == 0 {
        0
    } else {
        occurrences(s.drop_last(), ch) + (if s.last() == ch {
            1nat
        } else {
            0nat
        })
    }
}

proof fn occurrences_add(a: Seq<char>, b: Seq<char>, ch: char)
    ensures
        occurrences(a + b, ch) == occurrences(a, ch) + occurrences(b, ch),
    decreases b.len(),
{
    if b.len() == 0 {
        assert(a + b =~= a);
    } else {
        assert((a + b).drop_last() =~= a + b.drop_last());
        assert((a + b).last() == b.last());
        occurrences_add(a, b.drop_last(), ch);
    }
}

proof fn no_occurrences(s: Seq<char>, ch: char)
    requires
        forall|i: int| 0 <= i < s.len() ==> #[trigger] s[i] != ch,
    ensures
        occurrences(s, ch) == 0,
    decreases s.len(),
{
    if s.len() > 0 {
        let rest = s.drop_last();
        assert forall|i: int| 0 <= i < rest.len() implies #[trigger] rest[i] != ch by {
            assert(rest[i] == s[i]);
        }
        no_occurrences(rest, ch);
    }
}

/// Escaped text at the end of a page adds no markup.
proof fn escaped_text_adds_no_markup(page: Seq<char>, text: Seq<char>, ch: char)
    requires
        markup(ch),
    ensures
        occurrences(page + html_escaped(text), ch) == occurrences(page, ch),
{
    html_round_trip(text);
    assert forall|i: int| 0 <= i < html_escaped(text).len() implies #[trigger] html_escaped(text)[i]
        != ch by {
        assert(!markup(html_escaped(text)[i]));
    }
    no_occurrences(html_escaped(text), ch);
    occurrences_add(page, html_escaped(text), ch);
}

/// The markup of the line of a launcher page that repeats the prompt.
spec fn launcher_line_markup(given: bool, ch: char) -> nat {
    if given {
        occurrences("<p><strong>입력:</strong> <code>"@, ch) + occurrences("</code></p>"@, ch)
    } else {
        0
    }
}

proof fn launcher_page_markup(
    source: Seq<char>,
    action: Seq<char>,
    message: Seq<char>,
    prompt: Option<Seq<char>>,
    ch: char,
)
    requires
        markup(ch),
    ensures
        occurrences(launcher::result_page(source, action, message, prompt), ch) == occurrences(
            launcher::RESULT_START@,
            ch,
        ) + occurrences(launcher::RESULT_AFTER_ACTION@, ch) + occurrences(
            launcher::RESULT_AFTER_SOURCE@,
            ch,
        ) + launcher_line_markup(prompt is Some, ch) + occurrences(
            launcher::RESULT_AFTER_PROMPT@,
            ch,
        ) + occurrences(launcher::RESULT_END@, ch),
{
    let line = launcher::prompt_line(prompt);
    match prompt {
        Some(p) => {
            let start = "<p><strong>입력:</strong> <code>"@;
            escaped_text_adds_no_markup(start, p, ch);
            occurrences_add(start + html_escaped(p), "</code></p>"@, ch);
        },
        None => {},
    }
    assert(occurrences(line, ch) == launcher_line_markup(prompt is Some, ch));
    let a = launcher::RESULT_START@;
    let b = a + html_escaped(action);
    let c = b + launcher::RESULT_AFTER_ACTION@;
    let d = c + html_escaped(source);
    let e = d + launcher::RESULT_AFTER_SOURCE@;
    let f = e + line;
    let g = f + launcher::RESULT_AFTER_PROMPT@;
    let h = g + html_escaped(message);
    escaped_text_adds_no_markup(a, action, ch);
    occurrences_add(b, launcher::RESULT_AFTER_ACTION@, ch);
    escaped_text_adds_no_markup(c, source, ch);
    occurrences_add(d, launcher::RESULT_AFTER_SOURCE@, ch);
    occurrences_add(e, line, ch);
    occurrences_add(f, launcher::RESULT_AFTER_PROMPT@, ch);
    escaped_text_adds_no_markup(g, message, ch);
    occurrences_add(h, launcher::RESULT_END@, ch);
}

/// What is shown on a page of results of the launcher adds no markup to it: two
/// such pages, both with a prompt or both without, hold each of the characters
/// that open or close a tag or an attribute equally often.
pub proof fn launcher_results_add_no_markup(
    source: Seq<char>,
    action: Seq<char>,
    message: Seq<char>,
    prompt: Option<Seq<char>>,
    other_source: Seq<char>,
    other_action: Seq<char>,
    other_message: Seq<char>,
    other_prompt: Option<Seq<char>>,
    ch: char,
)
    requires
        prompt is Some <==> other_prompt is Some,
        markup(ch),
    ensures
        occurrences(launcher::result_page(source, action, message, prompt), ch) == occurrences(
            launcher::result_page(other_source, other_action, other_message, other_prompt),
            ch,
        ),
{
    launcher_page_markup(source, action, message, prompt, ch);
    launcher_page_markup(other_source, other_action, other_message, other_prompt, ch);
}

/// The markup of the line of a gateway page that repeats the prompt.
spec fn gateway_line_markup(given: bool, ch: char) -> nat {
    if given {
        occurrences("<p><strong>프롬프트:</strong> <code>"@, ch) + occurrences("</code></p>"@, ch)
    } else {
        0
    }
}

proof fn gateway_page_markup(
    title: Seq<char>,
    message: Seq<char>,
    agent_url: Seq<char>,
    prompt: Seq<char>,
    prefix: Seq<char>,
    ch: char,
)
    requires
        markup(ch),
    ensures
        occurrences(
            gateway::result_page(title, message, agent_url, prompt, prefix),
            ch,
        ) == occurrences(gateway::RESULT_START@, ch) + occurrences(
            gateway::RESULT_AFTER_TITLE@,
            ch,
        ) + occurrences(gateway::RESULT_AFTER_AGENT@, ch) + gateway_line_markup(
            prompt.len() > 0,
            ch,
        ) + occurrences(gateway::RESULT_AFTER_PROMPT@, ch) + occurrences(
            gateway::RESULT_AFTER_MESSAGE@,
            ch,
        ) + occurrences(gateway::RESULT_END@, ch),
{
    let line = gateway::prompt_line(prompt);
    if prompt.len() > 0 {
        let start = "<p><strong>프롬프트:</strong> <code>"@;
        escaped_text_adds_no_markup(start, prompt, ch);
        occurrences_add(start + html_escaped(prompt), "</code></p>"@, ch);
    }
    assert(occurrences(line, ch) == gateway_line_markup(prompt.len() > 0, ch));
    let home = path_below(prefix, "/"@);
    let a = gateway::RESULT_START@;
    let b = a + html_escaped(title);
    let c = b + gateway::RESULT_AFTER_TITLE@;
    let d = c + html_escaped(agent_url);
    let e = d + gateway::RESULT_AFTER_AGENT@;
    let f = e + line;
    let g = f + gateway::RESULT_AFTER_PROMPT@;
    let h = g + html_escaped(message);
    let i = h + gateway::RESULT_AFTER_MESSAGE@;
    let j = i + html_escaped(home);
    escaped_text_adds_no_markup(a, title, ch);
    occurrences_add(b, gateway::RESULT_AFTER_TITLE@, ch);
    escaped_text_adds_no_markup(c, agent_url, ch);
    occurrences_add(d, gateway::RESULT_AFTER_AGENT@, ch);
    occurrences_add(e, line, ch);
    occurrences_add(f, gateway::RESULT_AFTER_PROMPT@, ch);
    escaped_text_adds_no_markup(g, message, ch);
    occurrences_add(h, gateway::RESULT_AFTER_MESSAGE@, ch);
    escaped_text_adds_no_markup(i, home, ch);
    occurrences_add(j, gateway::RESULT_END@, ch);
}

/// The same of the pages of results of the gateway, where an empty prompt counts
/// as none.
pub proof fn gateway_results_add_no_markup(
    title: Seq<char>,
    message: Seq<char>,
    agent_url: Seq<char>,
    prompt: Seq<char>,
    prefix: Seq<char>,
    other_title: Seq<char>,
    other_message: Seq<char>,
    other_agent_url: Seq<char>,
    other_prompt: Seq<char>,
    other_prefix: Seq<char>,
    ch: char,
)
    requires
        prompt.len() > 0 <==> other_prompt.len() > 0,
        markup(ch),
    ensures
        occurrences(
            gateway::result_page(title, message, agent_url, prompt, prefix),
            ch,
        ) == occurrences(
            gateway::result_page(
                other_title,
                other_message,
                other_agent_url,
                other_prompt,
                other_prefix,
            ),
            ch,
        ),
{
    gateway_page_markup(title, message, agent_url, prompt, prefix, ch);
    gateway_page_markup(other_title, other_message, other_agent_url, other_prompt, other_prefix, ch);
}

/// The constant parts of a page of results of the launcher do not hold the
/// first letter of the label of the prompt, and none that text follows ends like
/// the opening tag of the label.
proof fn launcher_constants()
    ensures
        !launcher::RESULT_START@.contains('입'),
        launcher::RESULT_START@.len() >= 2,
        launcher::RESULT_START@[launcher::RESULT_START@.len() - 2] == '1',
        !launcher::RESULT_AFTER_ACTION@.contains('입'),
        launcher::RESULT_AFTER_ACTION@.len() >= 2,
        launcher::RESULT_AFTER_ACTION@.last() == ' ',
        !launcher::RESULT_AFTER_SOURCE@.contains('입'),
        !launcher::RESULT_AFTER_PROMPT@.contains('입'),
        launcher::RESULT_AFTER_PROMPT@.len() >= 2,
        launcher::RESULT_AFTER_PROMPT@[launcher::RESULT_AFTER_PROMPT@.len() - 2] == 'e',
        !launcher::RESULT_END@.contains('입'),
{
    reveal_strlit(
        r#"<!doctype html>
<html lang="ko">
<head>
  <meta charset="utf-8">
  <meta name="viewport" content="width=device-width, initial-scale=1">
  <title>실행 결과</title>
  <style>
    body {
      margin: 0;
      font-family: system-ui, -apple-system, BlinkMacSystemFont, "Segoe UI", "Malgun Gothic", sans-serif;
      color: #111827;
      background: #f5f7fb;
    }
    main {
      width: min(780px, calc(100vw - 32px));
      margin: 48px auto;
      background: #ffffff;
      border: 1px solid #d7dde8;
      border-radius: 8px;
      padding: 28px;
      box-shadow: 0 16px 36px rgba(31, 41, 55, 0.08);
    }
    h1 { margin: 0 0 10px; font-size: 26px; letter-spacing: 0; }
    p { line-height: 1.55; color: #4b5563; }
    code { background: #eef2f7; padding: 2px 5px; border-radius: 4px; }
    pre {
      white-space: pre-wrap;
      overflow-wrap: anywhere;
      background: #111827;
      color: #f9fafb;
      padding: 14px;
      border-radius: 6px;
    }
    a {
      display: inline-flex;
      align-items: center;
      justify-content: center;
      min-height: 40px;
      padding: 0 14px;
      border-radius: 6px;
      background: #2563eb;
      color: white;
      text-decoration: none;
      font-weight: 650;
    }
  </style>
</head>
<body>
  <main>
    <h1>"#,
    );
    reveal_strlit(
        r#"</h1>
    <p><strong>경로:</strong> "#,
    );
    reveal_strlit(
        r#"</p>
    "#,
    );
    reveal_strlit(
        r#"
    <pre>"#,
    );
    reveal_strlit(
        r#"</pre>
    <a href="/">돌아가기</a>
  </main>
</body>
</html>
"#,
    );
}

/// Without a prompt its label stands nowhere on a page.
proof fn no_label_without_prompt(
    source: Seq<char>,
    action: Seq<char>,
    message: Seq<char>,
    i: int,
)
    ensures
        !occurs_at(
            launcher::result_page(source, action, message, None),
            "<strong>입력:</strong>"@,
            i,
        ),
{
    let label = "<strong>입력:</strong>"@;
    let page = launcher::result_page(source, action, message, None);
    reveal_strlit("<strong>입력:</strong>");
    launcher_constants();
    html_round_trip(source);
    html_round_trip(action);
    html_round_trip(message);
    let c1 = launcher::RESULT_START@;
    let t1 = html_escaped(action);
    let c2 = launcher::RESULT_AFTER_ACTION@;
    let t2 = html_escaped(source);
    let c3 = launcher::RESULT_AFTER_SOURCE@;
    let c4 = launcher::RESULT_AFTER_PROMPT@;
    let t3 = html_escaped(message);
    let c5 = launcher::RESULT_END@;
    assert(page =~= c1 + t1 + c2 + t2 + c3 + c4 + t3 + c5);
    if occurs_at(page, label, i) {
        let q = i + 8;
        assert(page.subrange(i, i + label.len())[6] == page[q - 2]);
        assert(page.subrange(i, i + label.len())[7] == page[q - 1]);
        assert(page.subrange(i, i + label.len())[8] == page[q]);
        assert(page[q - 2] == 'g' && page[q - 1] == '>' && page[q] == '입');
        let n1 = c1.len() as int;
        let n2 = n1 + t1.len();
        let n3 = n2 + c2.len();
        let n4 = n3 + t2.len();
        let n5 = n4 + c3.len();
        let n6 = n5 + c4.len();
        let n7 = n6 + t3.len();
        if q < n1 {
            assert(c1.contains(c1[q]));
        } else if q < n2 {
            if q > n1 {
                assert(page[q - 1] == t1[q - 1 - n1]);
            } else {
                assert(page[q - 2] == c1[n1 - 2]);
            }
        } else if q < n3 {
            assert(page[q] == c2[q - n2]);
            assert(c2.contains(c2[q - n2]));
        } else if q < n4 {
            if q > n3 {
                assert(page[q - 1] == t2[q - 1 - n3]);
            } else {
                assert(page[q - 1] == c2[c2.len() - 1]);
            }
        } else if q < n5 {
            assert(page[q] == c3[q - n4]);
            assert(c3.contains(c3[q - n4]));
        } else if q < n6 {
            assert(page[q] == c4[q - n5]);
            assert(c4.contains(c4[q - n5]));
        } else if q < n7 {
            if q > n6 {
                assert(page[q - 1] == t3[q - 1 - n6]);
            } else {
                assert(page[q - 2] == c4[c4.len() - 2]);
            }
        } else {
            assert(page[q] == c5[q - n7]);
            assert(c5.contains(c5[q - n7]));
        }
    }
}

/// The label of the prompt stands on a page of results of the launcher exactly
/// where a prompt is given, also an empty one.
pub proof fn launcher_shows_the_prompt_given(
    source: Seq<char>,
    action: Seq<char>,
    message: Seq<char>,
    prompt: Option<Seq<char>>,
)
    ensures
        mentions(
            launcher::result_page(source, action, message, prompt),
            "<strong>입력:</strong>"@,
        ) <==> prompt is Some,
{
    let label = "<strong>입력:</strong>"@;
    let page = launcher::result_page(source, action, message, prompt);
    reveal_strlit("<strong>입력:</strong>");
    reveal_strlit("<p><strong>입력:</strong> <code>");
    match prompt {
        Some(p) => {
            let front = launcher::RESULT_START@ + html_escaped(action)
                + launcher::RESULT_AFTER_ACTION@ + html_escaped(source)
                + launcher::RESULT_AFTER_SOURCE@;
            let at = front.len() as int + 3;
            let start = "<p><strong>입력:</strong> <code>"@;
            assert forall|k: int| 0 <= k < label.len() implies page[at + k] == #[trigger] label[k]
                by {
                assert(page[at + k] == start[3 + k]);
            }
            assert(page.subrange(at, at + label.len()) =~= label);
            assert(occurs_at(page, label, at));
        },
        None => {
            if mentions(page, label) {
                let i = choose|i: int| occurs_at(page, label, i);
                no_label_without_prompt(source, action, message, i);
            }
        },
    }
}

// ---------------------------------------------------------------------------
// Quoted strings
// ---------------------------------------------------------------------------

/// A character before what has been read of a string.
pub open spec fn and_then_read(ch: char, read: Option<(Seq<char>, Seq<char>)>) -> Option<
    (Seq<char>, Seq<char>),
> {
    match read {
        Some((content, rest)) => Some((seq![ch] + content, rest)),
        None => None,
    }
}

/// Reads what follows the opening quote of a string in single quotes, in which
/// a quote is written twice: the contents, and what follows the string.
pub open spec fn single_quoted_tail(s: Seq<char>) -> Option<(Seq<char>, Seq<char>)>
    decreases s.len(),
{
    if s.len() == 0 {
        None
    } else if s[0] != '\'' {
        and_then_read(s[0], single_quoted_tail(s.skip(1)))
    } else if s.len() > 1 && s[1] == '\'' {
        and_then_read('\'', single_quoted_tail(s.skip(2)))
    } else {
        Some((Seq::empty(), s.skip(1)))
    }
}

/// Reads a string in single quotes at the start of `s`.
pub open spec fn read_single_quoted(s: Seq<char>) -> Option<(Seq<char>, Seq<char>)> {
    if s.len() > 0 && s[0] == '\'' {
        single_quoted_tail(s.skip(1))
    } else {
        None
    }
}

proof fn single_quoted_body(s: Seq<char>, rest: Seq<char>)
    requires
        rest.len() == 0 || rest[0] != '\'',
    ensures
        single_quoted_tail(
            s.flat_map(|ch: char| powershell_char(ch)) + seq!['\''] + rest,
        ) == Some((s, rest)),
    decreases s.len(),
{
    let f = |ch: char| powershell_char(ch);
    let whole = s.flat_map(f) + seq!['\''] + rest;
    if s.len() == 0 {
        assert(s.flat_map(f) =~= Seq::empty());
        assert(whole =~= seq!['\''] + rest);
        assert(whole.skip(1) =~= rest);
        assert(s =~= Seq::empty());
    } else {
        let first = powershell_char(s[0]);
        let next = s.skip(1).flat_map(f) + seq!['\''] + rest;
        single_quoted_body(s.skip(1), rest);
        flat_map_front(s, f);
        assert(whole =~= first + next);
        assert(whole.skip(first.len() as int) =~= next);
        assert(seq![s[0]] + s.skip(1) =~= s);
    }
}

/// A string in single quotes ends where it should, whatever it holds: reading
/// gives back the text, and what stood behind the string.
pub proof fn single_quotes_round_trip(s: Seq<char>, rest: Seq<char>)
    requires
        rest.len() == 0 || rest[0] != '\'',
    ensures
        read_single_quoted(powershell_quoted(s) + rest) == Some((s, rest)),
{
    single_quoted_body(s, rest);
    let whole = powershell_quoted(s) + rest;
    assert(whole.skip(1) =~= s.flat_map(|ch: char| powershell_char(ch)) + seq!['\''] + rest);
}

/// Reads what follows the opening quote of a value in a curl configuration
/// file: a backslash stands before a quote, before itself, and before the
/// letter that stands for a line feed.
pub open spec fn curl_tail(s: Seq<char>) -> Option<(Seq<char>, Seq<char>)>
    decreases s.len(),
{
    if s.len() == 0 {
        None
    } else if s[0] == '"' {
        Some((Seq::empty(), s.skip(1)))
    } else if s[0] != '\\' {
        and_then_read(s[0], curl_tail(s.skip(1)))
    } else if s.len() == 1 {
        None
    } else if s[1] == 'n' {
        and_then_read('\n', curl_tail(s.skip(2)))
    } else {
        and_then_read(s[1], curl_tail(s.skip(2)))
    }
}

/// Reads a quoted value of a curl configuration file at the start of `s`.
pub open spec fn read_curl_quoted(s: Seq<char>) -> Option<(Seq<char>, Seq<char>)> {
    if s.len() > 0 && s[0] == '"' {
        curl_tail(s.skip(1))
    } else {
        None
    }
}

proof fn curl_body(s: Seq<char>, rest: Seq<char>)
    ensures
        curl_tail(s.flat_map(|ch: char| curl_char(ch)) + seq!['"'] + rest) == Some((s, rest)),
        !s.flat_map(|ch: char| curl_char(ch)).contains('\n'),
    decreases s.len(),
{
    let f = |ch: char| curl_char(ch);
    let body = s.flat_map(f);
    let whole = body + seq!['"'] + rest;
    if s.len() == 0 {
        assert(body =~= Seq::empty());
        assert(whole =~= seq!['"'] + rest);
        assert(whole.skip(1) =~= rest);
        assert(s =~= Seq::empty());
    } else {
        reveal_strlit("\\\\");
        reveal_strlit("\\\"");
        reveal_strlit("\\n");
        let first = curl_char(s[0]);
        let tail = s.skip(1).flat_map(f);
        let next = tail + seq!['"'] + rest;
        curl_body(s.skip(1), rest);
        flat_map_front(s, f);
        assert forall|i: int| 0 <= i < body.len() implies body[i] != '\n' by {
            if i >= first.len() {
                assert(body[i] == tail[i - first.len()]);
                assert(tail.contains(tail[i - first.len()]));
            }
        }
        assert(whole =~= first + next);
        assert(whole.skip(first.len() as int) =~= next);
        assert(seq![s[0]] + s.skip(1) =~= s);
    }
}

/// A value in a curl configuration file is read back as it was, whatever it
/// holds, and stays on its line.
pub proof fn curl_round_trip(s: Seq<char>, rest: Seq<char>)
    ensures
        read_curl_quoted(curl_quoted(s) + rest) == Some((s, rest)),
        !curl_quoted(s).contains('\n'),
{
    curl_body(s, rest);
    let body = s.flat_map(|ch: char| curl_char(ch));
    let whole = curl_quoted(s) + rest;
    assert(whole.skip(1) =~= body + seq!['"'] + rest);
    assert forall|i: int| 0 <= i < curl_quoted(s).len() implies curl_quoted(s)[i] != '\n' by {
        if 0 < i < curl_quoted(s).len() - 1 {
            assert(curl_quoted(s)[i] == body[i - 1]);
            assert(body.contains(body[i - 1]));
        }
    }
}

/// The value of a hexadecimal digit.
pub open spec fn hex_char_value(ch: char) -> Option<u8> {
    if '0' <= ch <= '9' {
        Some((ch as int - 48) as u8)
    } else if 'a' <= ch <= 'f' {
        Some((ch as int - 87) as u8)
    } else if 'A' <= ch <= 'F' {
        Some((ch as int - 55) as u8)
    } else {
        None
    }
}

/// The character below U+0100 that the four digits of an escape name, if they
/// do.
pub open spec fn escaped_char(s: Seq<char>) -> Option<char> {
    if s.len() >= 4 && s[0] == '0' && s[1] == '0' && hex_char_value(s[2]) is Some
        && hex_char_value(s[3]) is Some {
        Some((hex_char_value(s[2])->0 * 16 + hex_char_value(s[3])->0) as u8 as char)
    } else {
        None
    }
}

/// Reads what follows the opening quote of a JSON string. A control character
/// may not stand in one, and of the escapes those are read that this crate
/// writes.
pub open spec fn json_tail(s: Seq<char>) -> Option<(Seq<char>, Seq<char>)>
    decreases s.len(),
{
    if s.len() == 0 || s[0] <= '\u{1f}' {
        None
    } else if s[0] == '"' {
        Some((Seq::empty(), s.skip(1)))
    } else if s[0] != '\\' {
        and_then_read(s[0], json_tail(s.skip(1)))
    } else if s.len() == 1 {
        None
    } else if s[1] == '"' || s[1] == '\\' {
        and_then_read(s[1], json_tail(s.skip(2)))
    } else if s[1] == 'n' {
        and_then_read('\n', json_tail(s.skip(2)))
    } else if s[1] == 'r' {
        and_then_read('\r', json_tail(s.skip(2)))
    } else if s[1] == 't' {
        and_then_read('\t', json_tail(s.skip(2)))
    } else if s[1] == 'u' && s.len() >= 6 {
        match escaped_char(s.skip(2)) {
            Some(ch) => and_then_read(ch, json_tail(s.skip(6))),
            None => None,
        }
    } else {
        None
    }
}

/// Reads a JSON string at the start of `s`.
pub open spec fn read_json_string(s: Seq<char>) -> Option<(Seq<char>, Seq<char>)> {
    if s.len() > 0 && s[0] == '"' {
        json_tail(s.skip(1))
    } else {
        None
    }
}

/// The escape of a control character names it.
proof fn control_char_escape(ch: char)
    requires
        ch <= '\u{1f}',
    ensures
        escaped_char(
            seq!['0', '0', hex_lower(ch as int / 16), hex_lower(ch as int % 16)],
        ) == Some(ch),
{
    let high = ch as int / 16;
    let low = ch as int % 16;
    assert(hex_char_value(hex_lower(high)) == Some(high as u8));
    assert(hex_char_value(hex_lower(low)) == Some(low as u8));
}

proof fn json_body(s: Seq<char>, rest: Seq<char>)
    ensures
        json_tail(s.flat_map(|ch: char| json_char(ch)) + seq!['"'] + rest) == Some((s, rest)),
    decreases s.len(),
{
    let f = |ch: char| json_char(ch);
    let whole = s.flat_map(f) + seq!['"'] + rest;
    if s.len() == 0 {
        assert(s.flat_map(f) =~= Seq::empty());
        assert(whole =~= seq!['"'] + rest);
        assert(whole.skip(1) =~= rest);
        assert(s =~= Seq::empty());
    } else {
        reveal_strlit("\\\\");
        reveal_strlit("\\\"");
        reveal_strlit("\\n");
        reveal_strlit("\\r");
        reveal_strlit("\\t");
        reveal_strlit("\\u00");
        let ch = s[0];
        let first = json_char(ch);
        let next = s.skip(1).flat_map(f) + seq!['"'] + rest;
        json_body(s.skip(1), rest);
        flat_map_front(s, f);
        assert(whole =~= first + next);
        assert(whole.skip(first.len() as int) =~= next);
        assert(seq![ch] + s.skip(1) =~= s);
        if first.len() == 6 {
            control_char_escape(ch);
            assert(whole.skip(2).take(4) =~= seq![
                '0',
                '0',
                hex_lower(ch as int / 16),
                hex_lower(ch as int % 16),
            ]);
            assert(escaped_char(whole.skip(2).take(4)) == escaped_char(whole.skip(2)));
        }
    }
}

/// A JSON string is read back as it was, whatever it holds.
pub proof fn json_round_trip(s: Seq<char>, rest: Seq<char>)
    ensures
        read_json_string(json_quoted(s) + rest) == Some((s, rest)),
{
    json_body(s, rest);
    let whole = json_quoted(s) + rest;
    assert(whole.skip(1) =~= s.flat_map(|ch: char| json_char(ch)) + seq!['"'] + rest);
}

} // verus!
