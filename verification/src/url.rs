//! Percent-encoding and the parameters of URLs and submitted forms.
use vstd::prelude::*;
use vstd::slice::slice_subrange;
use vstd::utf8::encode_utf8;

use crate::number::{hex_upper, hex_upper_char};
use crate::text::{
    after, before, chars_of, find_char, optional, pieces, same_text, split, string_of, text_from_bytes,
    text_of_bytes, texts,
};

verus! {

/// The value of a hexadecimal digit of either case.
pub open spec fn hex_digit(byte: u8) -> Option<u8> {
    if 0x30 <= byte <= 0x39 {
        Some((byte - 0x30) as u8)
    } else if 0x61 <= byte <= 0x66 {
        Some((byte - 0x61 + 10) as u8)
    } else if 0x41 <= byte <= 0x46 {
        Some((byte - 0x41 + 10) as u8)
    } else {
        None
    }
}

/// Reads a hexadecimal digit.
pub fn hex_value(byte: u8) -> (r: Option<u8>)
    ensures
        r == hex_digit(byte),
{
    match byte {
        0x30..=0x39 => Some(byte - 0x30),
        0x61..=0x66 => Some(byte - 0x61 + 10),
        0x41..=0x46 => Some(byte - 0x41 + 10),
        _ => None,
    }
}

/// Whether `bytes` begin with a percent sign and two hexadecimal digits.
pub open spec fn starts_with_escape(bytes: Seq<u8>) -> bool {
    bytes.len() > 2 && bytes[0] == 0x25 && hex_digit(bytes[1]) is Some && hex_digit(
        bytes[2],
    ) is Some
}

/// Undoes percent-encoding. A plus sign stands for a space, and a percent sign
/// that two hexadecimal digits do not follow stands for itself.
pub open spec fn percent_decoded(bytes: Seq<u8>) -> Seq<u8>
    decreases bytes.len(),
{
    if bytes.len() == 0 {
        Seq::empty()
    } else if bytes[0] == 0x2b {
        seq![0x20u8] + percent_decoded(bytes.skip(1))
    } else if starts_with_escape(bytes) {
        seq![(hex_digit(bytes[1])->0 * 16 + hex_digit(bytes[2])->0) as u8] + percent_decoded(
            bytes.skip(3),
        )
    } else {
        seq![bytes[0]] + percent_decoded(bytes.skip(1))
    }
}

/// The text that a percent-encoded text stands for.
pub open spec fn url_decoded(s: Seq<char>) -> Seq<char> {
    text_of_bytes(percent_decoded(encode_utf8(s)))
}

/// Undoes percent-encoding on bytes.
pub fn percent_decode(bytes: &[u8]) -> (r: Vec<u8>)
    ensures
        r@ == percent_decoded(bytes@),
{
    let mut out: Vec<u8> = Vec::new();
    let mut i: usize = 0;
    assert(bytes@.skip(0) =~= bytes@);
    while i < bytes.len()
        invariant
            i <= bytes@.len(),
            percent_decoded(bytes@) == out@ + percent_decoded(bytes@.skip(i as int)),
        decreases bytes@.len() - i,
    {
        let ghost rest = bytes@.skip(i as int);
        let ghost done = out@;
        let byte = bytes[i];
        let mut taken: usize = 1;
        if byte == 0x2b {
            out.push(0x20);
        } else if byte == 0x25 && bytes.len() - i > 2 {
            match (hex_value(bytes[i + 1]), hex_value(bytes[i + 2])) {
                (Some(high), Some(low)) => {
                    out.push(high * 16 + low);
                    taken = 3;
                },
                _ => {
                    out.push(byte);
                },
            }
        } else {
            out.push(byte);
        }
        proof {
            assert(rest.skip(taken as int) =~= bytes@.skip(i + taken));
            assert(percent_decoded(rest) == seq![out@.last()] + percent_decoded(
                rest.skip(taken as int),
            ));
            assert(out@ =~= done + seq![out@.last()]);
            assert(percent_decoded(bytes@) =~= out@ + percent_decoded(bytes@.skip(i + taken)));
        }
        i += taken;
    }
    proof {
        assert(percent_decoded(bytes@.skip(i as int)) =~= Seq::empty());
        assert(out@ =~= percent_decoded(bytes@));
    }
    out
}

/// Decodes a percent-encoded text.
pub fn url_decode(value: &str) -> (r: String)
    ensures
        r@ == url_decoded(value@),
{
    let bytes = percent_decode(value.as_bytes());
    text_from_bytes(bytes.as_slice())
}

/// Whether a byte stands for itself in a percent-encoded text.
pub open spec fn unreserved(byte: u8) -> bool {
    ||| 0x41 <= byte <= 0x5a
    ||| 0x61 <= byte <= 0x7a
    ||| 0x30 <= byte <= 0x39
    ||| byte == 0x2d
    ||| byte == 0x5f
    ||| byte == 0x2e
    ||| byte == 0x7e
}

/// What stands for a byte in a percent-encoded text that writes a space as
/// `space`.
pub open spec fn encoded_byte(byte: u8, space: Seq<char>) -> Seq<char> {
    if unreserved(byte) {
        seq![byte as char]
    } else if byte == 0x20 {
        space
    } else {
        seq!['%', hex_upper(byte as int / 16), hex_upper(byte as int % 16)]
    }
}

/// The percent-encoding of `s` that writes a space as `space`.
pub open spec fn url_encoded_with(s: Seq<char>, space: Seq<char>) -> Seq<char> {
    encode_utf8(s).flat_map(|byte: u8| encoded_byte(byte, space))
}

/// The percent-encoding used in submitted forms: a space is a plus sign.
pub open spec fn form_encoded(s: Seq<char>) -> Seq<char> {
    url_encoded_with(s, "+"@)
}

/// The percent-encoding used inside URLs: a space is `%20`.
pub open spec fn url_encoded(s: Seq<char>) -> Seq<char> {
    url_encoded_with(s, "%20"@)
}

/// Percent-encodes `value`, writing a space as `space`.
pub fn url_encode_with(value: &str, space: &str) -> (r: String)
    ensures
        r@ == url_encoded_with(value@, space@),
{
    let bytes = value.as_bytes();
    let ghost f = |byte: u8| encoded_byte(byte, space@);
    let mut out = String::new();
    let mut i: usize = 0;
    while i < bytes.len()
        invariant
            i <= bytes@.len(),
            f == (|byte: u8| encoded_byte(byte, space@)),
            out@ == bytes@.take(i as int).flat_map(f),
        decreases bytes@.len() - i,
    {
        let ghost done = out@;
        let byte = bytes[i];
        match byte {
            0x41..=0x5a | 0x61..=0x7a | 0x30..=0x39 | 0x2d | 0x5f | 0x2e | 0x7e => {
                out.push(byte as char)
            },
            0x20 => out.append(space),
            _ => {
                out.push('%');
                out.push(hex_upper_char(byte / 16));
                out.push(hex_upper_char(byte % 16));
            },
        }
        proof {
            assert(out@ =~= done + encoded_byte(byte, space@));
            bytes@.lemma_flat_map_take_append(f, i as int);
        }
        i += 1;
    }
    assert(bytes@.take(i as int) =~= bytes@);
    out
}

/// The value of the first parameter of the given name in a list of
/// `key=value` pairs; a pair without an equals sign has the empty value.
pub open spec fn lookup(pairs: Seq<Seq<char>>, name: Seq<char>) -> Option<Seq<char>>
    decreases pairs.len(),
{
    if pairs.len() == 0 {
        None
    } else if url_decoded(before(pairs[0], '=')) == name {
        Some(url_decoded(after(pairs[0], '=')))
    } else {
        lookup(pairs.skip(1), name)
    }
}

/// The value of a parameter of a query string.
pub open spec fn parameter(query: Seq<char>, name: Seq<char>) -> Option<Seq<char>> {
    lookup(pieces(query, '&'), name)
}

/// The value of a parameter of a URL path.
pub open spec fn path_parameter(path: Seq<char>, name: Seq<char>) -> Option<Seq<char>> {
    if path.contains('?') {
        parameter(after(path, '?'), name)
    } else {
        None
    }
}

/// Looks a parameter up in a query string.
pub fn query_param(query: &str, name: &str) -> (r: Option<String>)
    ensures
        optional(r) == parameter(query@, name@),
{
    let chars = chars_of(query);
    let pairs = split(chars.as_slice(), '&');
    let ghost all = texts(pairs@);
    assert(all.skip(0) =~= all);
    let mut i: usize = 0;
    while i < pairs.len()
        invariant
            i <= pairs@.len(),
            all == texts(pairs@),
            all == pieces(query@, '&'),
            lookup(all, name@) == lookup(all.skip(i as int), name@),
        decreases pairs@.len() - i,
    {
        let pair = chars_of(pairs[i].as_str());
        assert(pair@ == all.skip(i as int)[0]);
        let p = find_char(pair.as_slice(), '=');
        let key = string_of(slice_subrange(pair.as_slice(), 0, p));
        assert(key@ =~= before(pair@, '='));
        if same_text(url_decode(key.as_str()).as_str(), name) {
            let value = if p < pair.len() {
                string_of(slice_subrange(pair.as_slice(), p + 1, pair.len()))
            } else {
                String::new()
            };
            assert(value@ =~= after(pair@, '='));
            return Some(url_decode(value.as_str()));
        }
        assert(all.skip(i as int).skip(1) =~= all.skip(i + 1));
        i += 1;
    }
    None
}

/// Looks a parameter up in the query part of a URL path.
pub fn query_value(path: &str, name: &str) -> (r: Option<String>)
    ensures
        optional(r) == path_parameter(path@, name@),
{
    let chars = chars_of(path);
    let p = find_char(chars.as_slice(), '?');
    if p < chars.len() {
        let query = string_of(slice_subrange(chars.as_slice(), p + 1, chars.len()));
        assert(query@ =~= after(path@, '?'));
        query_param(query.as_str(), name)
    } else {
        None
    }
}

/// Looks a parameter up in a submitted form.
pub fn form_value(body: &[u8], name: &str) -> (r: Option<String>)
    ensures
        optional(r) == parameter(text_of_bytes(body@), name@),
{
    let text = text_from_bytes(body);
    query_param(text.as_str(), name)
}

/// A list of fields as a submitted form.
pub open spec fn form_text(fields: Seq<(Seq<char>, Seq<char>)>) -> Seq<char>
    decreases fields.len(),
{
    if fields.len() == 0 {
        Seq::empty()
    } else {
        let pair = form_encoded(fields.last().0) + "="@ + form_encoded(fields.last().1);
        if fields.len() == 1 {
            pair
        } else {
            form_text(fields.drop_last()) + "&"@ + pair
        }
    }
}

/// The contents of a list of fields.
pub open spec fn field_texts(fields: Seq<(&str, &str)>) -> Seq<(Seq<char>, Seq<char>)> {
    fields.map_values(|field: (&str, &str)| (field.0@, field.1@))
}

/// Writes a list of fields as a submitted form.
pub fn form_body(fields: &[(&str, &str)]) -> (r: String)
    ensures
        r@ == form_text(field_texts(fields@)),
{
    let ghost all = field_texts(fields@);
    let mut out = String::new();
    let mut i: usize = 0;
    while i < fields.len()
        invariant
            i <= fields@.len(),
            all == field_texts(fields@),
            out@ == form_text(all.take(i as int)),
        decreases fields@.len() - i,
    {
        let ghost done = out@;
        let (key, value) = fields[i];
        if i > 0 {
            out.append("&");
        }
        out.append(url_encode_with(key, "+").as_str());
        out.append("=");
        out.append(url_encode_with(value, "+").as_str());
        proof {
            let next = all.take(i + 1);
            assert(next.drop_last() =~= all.take(i as int));
            assert(next.last() == (key@, value@));
            assert(out@ =~= form_text(next));
        }
        i += 1;
    }
    assert(all.take(i as int) =~= all);
    out
}

} // verus!
