//! Writing text inside other notations: HTML, JSON, curl configuration files
//! and PowerShell.
use vstd::prelude::*;

use crate::number::{hex_lower, hex_lower_char};

verus! {

/// What stands for `ch` in HTML text and attribute values.
pub open spec fn html_char(ch: char) -> Seq<char> {
    if ch == '&' {
        "&amp;"@
    } else if ch == '<' {
        "&lt;"@
    } else if ch == '>' {
        "&gt;"@
    } else if ch == '"' {
        "&quot;"@
    } else if ch == '\'' {
        "&#39;"@
    } else {
        seq![ch]
    }
}

/// `s` as HTML text.
pub open spec fn html_escaped(s: Seq<char>) -> Seq<char> {
    s.flat_map(|ch: char| html_char(ch))
}

/// Writes `value` as HTML text.
pub fn html_escape(value: &str) -> (r: String)
    ensures
        r@ == html_escaped(value@),
{
    let ghost f = |ch: char| html_char(ch);
    let mut out = String::new();
    for ch in it: value.chars()
        invariant
            it.seq() == value@,
            f == (|ch: char| html_char(ch)),
            out@ == value@.take(it.index()).flat_map(f),
    {
        let ghost done = out@;
        match ch {
            '&' => out.append("&amp;"),
            '<' => out.append("&lt;"),
            '>' => out.append("&gt;"),
            '"' => out.append("&quot;"),
            '\'' => out.append("&#39;"),
            _ => out.push(ch),
        }
        proof {
            assert(out@ =~= done + html_char(ch));
            value@.lemma_flat_map_take_append(f, it.index());
        }
    }
    assert(value@.take(value@.len() as int) =~= value@);
    out
}

/// What stands for `ch` inside a JSON string.
pub open spec fn json_char(ch: char) -> Seq<char> {
    if ch == '"' {
        "\\\""@
    } else if ch == '\\' {
        "\\\\"@
    } else if ch == '\n' {
        "\\n"@
    } else if ch == '\r' {
        "\\r"@
    } else if ch == '\t' {
        "\\t"@
    } else if ch <= '\u{1f}' {
        "\\u00"@ + seq![hex_lower(ch as int / 16), hex_lower(ch as int % 16)]
    } else {
        seq![ch]
    }
}

/// `s` as a JSON string, quotes included.
pub open spec fn json_quoted(s: Seq<char>) -> Seq<char> {
    seq!['"'] + s.flat_map(|ch: char| json_char(ch)) + seq!['"']
}

/// Appends what stands for `ch` inside a JSON string.
fn push_json_char(out: &mut String, ch: char)
    ensures
        final(out)@ == old(out)@ + json_char(ch),
{
    match ch {
        '"' => out.append("\\\""),
        '\\' => out.append("\\\\"),
        '\n' => out.append("\\n"),
        '\r' => out.append("\\r"),
        '\t' => out.append("\\t"),
        _ => {
            if ch <= '\u{1f}' {
                let code: u8 = ch as u8;
                out.append("\\u00");
                out.push(hex_lower_char(code / 16));
                out.push(hex_lower_char(code % 16));
            } else {
                out.push(ch);
            }
        },
    }
    assert(out@ =~= old(out)@ + json_char(ch));
}

/// Writes `value` as a JSON string.
pub fn json_string(value: &str) -> (r: String)
    ensures
        r@ == json_quoted(value@),
{
    let ghost f = |ch: char| json_char(ch);
    let mut out = String::new();
    out.push('"');
    for ch in it: value.chars()
        invariant
            it.seq() == value@,
            f == (|ch: char| json_char(ch)),
            out@ == seq!['"'] + value@.take(it.index()).flat_map(f),
    {
        let ghost done = value@.take(it.index()).flat_map(f);
        push_json_char(&mut out, ch);
        proof {
            value@.lemma_flat_map_take_append(f, it.index());
            assert(out@ =~= seq!['"'] + (done + json_char(ch)));
        }
    }
    assert(value@.take(value@.len() as int) =~= value@);
    out.push('"');
    assert(out@ =~= json_quoted(value@));
    out
}

/// What stands for `ch` inside a quoted value of a curl configuration file.
pub open spec fn curl_char(ch: char) -> Seq<char> {
    if ch == '\\' {
        "\\\\"@
    } else if ch == '"' {
        "\\\""@
    } else if ch == '\n' {
        "\\n"@
    } else {
        seq![ch]
    }
}

/// `s` as a quoted value of a curl configuration file.
pub open spec fn curl_quoted(s: Seq<char>) -> Seq<char> {
    seq!['"'] + s.flat_map(|ch: char| curl_char(ch)) + seq!['"']
}

/// Writes `value` as a quoted value of a curl configuration file.
pub fn curl_config_string(value: &str) -> (r: String)
    ensures
        r@ == curl_quoted(value@),
{
    let ghost f = |ch: char| curl_char(ch);
    let mut out = String::new();
    out.push('"');
    for ch in it: value.chars()
        invariant
            it.seq() == value@,
            f == (|ch: char| curl_char(ch)),
            out@ == seq!['"'] + value@.take(it.index()).flat_map(f),
    {
        let ghost done = value@.take(it.index()).flat_map(f);
        match ch {
            '\\' => out.append("\\\\"),
            '"' => out.append("\\\""),
            '\n' => out.append("\\n"),
            _ => out.push(ch),
        }
        proof {
            value@.lemma_flat_map_take_append(f, it.index());
            assert(out@ =~= seq!['"'] + (done + curl_char(ch)));
        }
    }
    assert(value@.take(value@.len() as int) =~= value@);
    out.push('"');
    assert(out@ =~= curl_quoted(value@));
    out
}

/// What stands for `ch` inside a single-quoted PowerShell string.
pub open spec fn powershell_char(ch: char) -> Seq<char> {
    if ch == '\'' {
        seq!['\'', '\'']
    } else {
        seq![ch]
    }
}

/// `s` as a single-quoted PowerShell string.
pub open spec fn powershell_quoted(s: Seq<char>) -> Seq<char> {
    seq!['\''] + s.flat_map(|ch: char| powershell_char(ch)) + seq!['\'']
}

/// Writes `value` as a single-quoted PowerShell string.
pub fn powershell_single_quote(value: &str) -> (r: String)
    ensures
        r@ == powershell_quoted(value@),
{
    let ghost f = |ch: char| powershell_char(ch);
    let mut out = String::new();
    out.push('\'');
    for ch in it: value.chars()
        invariant
            it.seq() == value@,
            f == (|ch: char| powershell_char(ch)),
            out@ == seq!['\''] + value@.take(it.index()).flat_map(f),
    {
        let ghost done = value@.take(it.index()).flat_map(f);
        if ch == '\'' {
            out.push('\'');
        }
        out.push(ch);
        proof {
            value@.lemma_flat_map_take_append(f, it.index());
            assert(out@ =~= seq!['\''] + (done + powershell_char(ch)));
        }
    }
    assert(value@.take(value@.len() as int) =~= value@);
    out.push('\'');
    assert(out@ =~= powershell_quoted(value@));
    out
}

/// At most `max` characters of `s`, with an ellipsis where some are left out.
pub open spec fn truncated(s: Seq<char>, max: nat) -> Seq<char> {
    if s.len() <= max {
        s
    } else {
        s.take(max as int) + "..."@
    }
}

/// Cuts `value` to `max_chars` characters.
pub fn truncate(value: &str, max_chars: usize) -> (r: String)
    ensures
        r@ == truncated(value@, max_chars as nat),
{
    let mut out = String::new();
    let mut count: usize = 0;
    for ch in it: value.chars()
        invariant
            it.seq() == value@,
            count == it.index(),
            count <= max_chars,
            out@ == value@.take(count as int),
    {
        if count >= max_chars {
            out.append("...");
            return out;
        }
        out.push(ch);
        count += 1;
    }
    assert(value@.take(value@.len() as int) =~= value@);
    out
}

} // verus!
