//! Laws about requests: what a path, a form and a head say, which requests the
//! programs act on, and what becomes of what was submitted.
use vstd::prelude::*;
use vstd::utf8::encode_utf8;

use crate::agent::{
    agent_step, request_parameter, AgentSettingsModel, AgentStepModel, TargetModel,
};
use crate::bridge::{path_below, route_below, route_prefix};
use crate::encoding_laws::{
    first_field, form_round_trip, sent_form_round_trip, utf8_round_trip,
};
use crate::gateway::{gateway_step, GatewaySettingsModel, GatewayStepModel};
use crate::http::{
    declared_length, field, first_match, first_match_is_first, head_of, head_terminator,
    header_fields, read_step, reading_nothing, target_of, ReadOutcome, ReaderModel, RequestModel,
    ResponseModel,
};
use crate::launcher::{launcher_step, ActionModel, LauncherSettingsModel, LauncherStepModel};
use crate::number::{all_digits, value_of};
use crate::reading_laws::{message, pieces_do_not_matter, read_all};
use crate::serving_laws::{delivered, gateway_requests_reach_the_agent};
use crate::text::{
    after, after_word, before, first_word, lines_of, lower, occurs_at, pieces, text_of_bytes, white,
};
use crate::text_laws::{
    blank, cutting_the_end_leaves_the_text, digits_are_read, first_word_is_found,
    lines_are_parted_at_line_feeds, text_is_parted_at_the_first, tight, tight_text_is_kept,
    trimming_leaves_the_text,
};
use crate::url::{form_text, parameter, path_parameter, url_decoded};

verus! {

// ---------------------------------------------------------------------------
// Routes
// ---------------------------------------------------------------------------

/// Whether `tail` is what may follow the route in a path: nothing, or a query.
pub open spec fn query_or_nothing(tail: Seq<char>) -> bool {
    tail.len() > 0 ==> tail[0] == '?'
}

proof fn route_of(route: Seq<char>, tail: Seq<char>)
    requires
        !route.contains('?'),
        query_or_nothing(tail),
    ensures
        before(route + tail, '?') == route,
{
    if tail.len() > 0 {
        text_is_parted_at_the_first(route, '?', tail.skip(1));
        assert(route + seq!['?'] + tail.skip(1) =~= route + tail);
    } else {
        text_is_parted_at_the_first(route, '?', tail);
        assert(route + tail =~= route);
    }
}

/// Without a prefix the route is the path up to its query.
pub proof fn paths_are_routes_without_a_prefix(route: Seq<char>, tail: Seq<char>)
    requires
        !route.contains('?'),
        query_or_nothing(tail),
    ensures
        route_below(Seq::empty(), route + tail) == route,
        path_below(Seq::empty(), route) == route,
{
    route_of(route, tail);
}

/// Below a prefix the route is what follows the prefix, from the slash on; the
/// prefix alone is the root. A path that goes on otherwise after the prefix, or
/// does not begin with it, is its own route.
pub proof fn paths_are_routes_below_a_prefix(
    prefix: Seq<char>,
    rest: Seq<char>,
    tail: Seq<char>,
    other: Seq<char>,
)
    requires
        prefix.len() > 0,
        !prefix.contains('?'),
        !rest.contains('?'),
        !other.contains('?'),
        query_or_nothing(tail),
        !(prefix.len() <= other.len() && other.take(prefix.len() as int) == prefix),
    ensures
        rest.len() == 0 ==> route_below(prefix, prefix + rest + tail) == seq!['/'],
        rest.len() > 0 && rest[0] == '/' ==> route_below(prefix, prefix + rest + tail) == rest,
        rest.len() > 0 && rest[0] != '/' ==> route_below(prefix, prefix + rest + tail) == prefix
            + rest,
        route_below(prefix, other + tail) == other,
        rest != seq!['/'] ==> path_below(prefix, rest) == prefix + rest,
        path_below(prefix, seq!['/']) == prefix,
{
    let route = prefix + rest;
    reveal_strlit("/");
    assert("/"@ =~= seq!['/']);
    assert forall|i: int| 0 <= i < route.len() implies route[i] != '?' by {
        if i < prefix.len() {
            assert(prefix.contains(prefix[i]));
        } else {
            assert(rest.contains(rest[i - prefix.len()]));
        }
    }
    route_of(route, tail);
    route_of(other, tail);
    assert(route.subrange(0, prefix.len() as int) =~= prefix);
    assert(route.skip(prefix.len() as int) =~= rest);
    if rest.len() == 0 {
        assert(route =~= prefix);
    } else {
        assert(route.len() != prefix.len());
        assert(route[prefix.len() as int] == rest[0]);
    }
    if other == prefix {
        assert(other.take(prefix.len() as int) =~= prefix);
    }
    if prefix.len() <= other.len() {
        assert(other.subrange(0, prefix.len() as int) =~= other.take(prefix.len() as int));
    }
}

/// Several slashes.
pub open spec fn slashes(n: nat) -> Seq<char> {
    Seq::new(n, |i: int| '/')
}

/// The prefix is the name that is set, with one slash before it and none after
/// it, and without the white space around it.
pub proof fn prefixes_are_tidied(front: Seq<char>, name: Seq<char>, n: nat, back: Seq<char>)
    requires
        blank(front),
        blank(back),
        name.len() > 0,
        tight(name),
        name.last() != '/',
    ensures
        name[0] != '/' ==> route_prefix(Some(front + (name + slashes(n)) + back)) == seq!['/']
            + name,
        name[0] == '/' ==> route_prefix(Some(front + (name + slashes(n)) + back)) == name,
{
    reveal_strlit("/");
    assert("/"@ =~= seq!['/']);
    let s = name + slashes(n);
    assert(s[0] == name[0]);
    assert(s.last() == if n > 0 {
        '/'
    } else {
        name.last()
    });
    trimming_leaves_the_text(front, s, back);
    cutting_the_end_leaves_the_text(name, '/', n);
}

/// Without a setting, or with slashes and white space alone, there is no prefix.
pub proof fn no_prefix_is_made_up(front: Seq<char>, n: nat, back: Seq<char>)
    requires
        blank(front),
        blank(back),
    ensures
        route_prefix(None).len() == 0,
        route_prefix(Some(front + slashes(n) + back)).len() == 0,
{
    let s = slashes(n);
    trimming_leaves_the_text(front, s, back);
    cutting_the_end_leaves_the_text(Seq::empty(), '/', n);
    assert(Seq::<char>::empty() + s =~= s);
}

// ---------------------------------------------------------------------------
// Parameters
// ---------------------------------------------------------------------------

proof fn nothing_is_in_an_empty_form(name: Seq<char>)
    requires
        name.len() > 0,
    ensures
        parameter(Seq::empty(), name) is None,
        parameter(text_of_bytes(encode_utf8(Seq::empty())), name) is None,
{
    let none = Seq::<char>::empty();
    utf8_round_trip(none);
    nothing_decodes_to_nothing();
    crate::text::position_is_first(none, '=');
    assert(before(none, '=') =~= none);
    first_pair(none, none, name);
}

/// The parameters of a path are the fields of its query: the first of the name,
/// with its whole value. Without a query there are none.
pub proof fn path_parameters_are_read(
    route: Seq<char>,
    fields: Seq<(Seq<char>, Seq<char>)>,
    name: Seq<char>,
)
    requires
        !route.contains('?'),
        name.len() > 0,
    ensures
        path_parameter(route + seq!['?'] + form_text(fields), name) == first_field(fields, name),
        path_parameter(route, name) is None,
{
    let path = route + seq!['?'] + form_text(fields);
    text_is_parted_at_the_first(route, '?', form_text(fields));
    assert(path[route.len() as int] == '?');
    if fields.len() > 0 {
        form_round_trip(fields, name);
    } else {
        nothing_is_in_an_empty_form(name);
    }
}

/// The parameters of a submitted form are its fields: the first of the name,
/// with its whole value.
pub proof fn form_parameters_are_read(fields: Seq<(Seq<char>, Seq<char>)>, name: Seq<char>)
    requires
        name.len() > 0,
    ensures
        parameter(text_of_bytes(encode_utf8(form_text(fields))), name) == first_field(fields, name),
{
    if fields.len() > 0 {
        sent_form_round_trip(fields, name);
    } else {
        nothing_is_in_an_empty_form(name);
    }
}

/// The parameters of a query are looked up from the first pair on: a pair whose
/// decoded name is the one that is sought gives its decoded value, all that
/// follows the first equals sign, and the empty value without one. Other pairs
/// are passed over.
pub proof fn pairs_are_looked_up(
    key: Seq<char>,
    value: Seq<char>,
    rest: Seq<char>,
    name: Seq<char>,
    route: Seq<char>,
)
    requires
        !key.contains('='),
        !key.contains('&'),
        !value.contains('&'),
        !route.contains('?'),
    ensures
        url_decoded(key) == name ==> parameter(key + seq!['='] + value, name) == Some(
            url_decoded(value),
        ) && parameter(key + seq!['='] + value + seq!['&'] + rest, name) == Some(
            url_decoded(value),
        ) && parameter(key, name) == Some(Seq::<char>::empty()) && parameter(
            key + seq!['&'] + rest,
            name,
        ) == Some(Seq::<char>::empty()),
        url_decoded(key) != name ==> parameter(key + seq!['='] + value, name) is None && parameter(
            key + seq!['='] + value + seq!['&'] + rest,
            name,
        ) == parameter(rest, name) && parameter(key, name) is None && parameter(
            key + seq!['&'] + rest,
            name,
        ) == parameter(rest, name),
        path_parameter(route + seq!['?'] + rest, name) == parameter(rest, name),
{
    let pair = key + seq!['='] + value;
    text_is_parted_at_the_first(key, '=', value);
    text_is_parted_at_the_first(route, '?', rest);
    assert((route + seq!['?'] + rest)[route.len() as int] == '?');
    assert(!pair.contains('&')) by {
        assert forall|i: int| 0 <= i < pair.len() implies pair[i] != '&' by {
            if i < key.len() {
                assert(key.contains(key[i]));
            } else if i > key.len() {
                assert(value.contains(value[i - key.len() - 1]));
            }
        }
    }
    first_pair(pair, rest, name);
    first_pair(key, rest, name);
    nothing_decodes_to_nothing();
}

proof fn first_pair(pair: Seq<char>, rest: Seq<char>, name: Seq<char>)
    requires
        !pair.contains('&'),
    ensures
        url_decoded(before(pair, '=')) == name ==> parameter(pair, name) == Some(
            url_decoded(after(pair, '=')),
        ) && parameter(pair + seq!['&'] + rest, name) == Some(url_decoded(after(pair, '='))),
        url_decoded(before(pair, '=')) != name ==> parameter(pair, name) is None && parameter(
            pair + seq!['&'] + rest,
            name,
        ) == parameter(rest, name),
{
    let whole = pair + seq!['&'] + rest;
    crate::text::position_is_first(pair, '&');
    assert(pieces(pair, '&') =~= seq![pair]);
    assert(seq![pair].skip(1) =~= Seq::empty());
    assert(crate::url::lookup(seq![pair].skip(1), name) is None);
    text_is_parted_at_the_first(pair, '&', rest);
    assert(whole[pair.len() as int] == '&');
    assert(whole.contains('&'));
    crate::text::position_is_first(whole, '&');
    assert(pieces(whole, '&') == seq![pair] + pieces(rest, '&'));
    assert((seq![pair] + pieces(rest, '&')).skip(1) =~= pieces(rest, '&'));
}

proof fn nothing_decodes_to_nothing()
    ensures
        url_decoded(Seq::empty()) == Seq::<char>::empty(),
{
    let none = Seq::<char>::empty();
    utf8_round_trip(none);
    assert(encode_utf8(none).len() == 0) by {
        reveal_with_fuel(encode_utf8, 2);
    }
    assert(encode_utf8(none) =~= Seq::<u8>::empty());
    assert(crate::url::percent_decoded(encode_utf8(none)) =~= Seq::<u8>::empty());
}

/// Whether a request submits the given fields: `form` in its body, and `query` in
/// its path.
pub open spec fn submits(
    request: RequestModel,
    route: Seq<char>,
    query: Seq<(Seq<char>, Seq<char>)>,
    form: Seq<(Seq<char>, Seq<char>)>,
) -> bool {
    &&& !route.contains('?')
    &&& request.body == encode_utf8(form_text(form))
    &&& request.path == route + seq!['?'] + form_text(query) || (query.len() == 0 && request.path
        == route)
}

/// A field of the form counts before one of the path.
pub proof fn forms_count_before_queries(
    request: RequestModel,
    route: Seq<char>,
    query: Seq<(Seq<char>, Seq<char>)>,
    form: Seq<(Seq<char>, Seq<char>)>,
    name: Seq<char>,
)
    requires
        submits(request, route, query, form),
        name.len() > 0,
    ensures
        request_parameter(request, name) == (match first_field(form, name) {
            Some(value) => Some(value),
            None => first_field(query, name),
        }),
        path_parameter(request.path, name) == first_field(query, name),
        parameter(text_of_bytes(request.body), name) == first_field(form, name),
        before(request.path, '?') == route,
{
    form_parameters_are_read(form, name);
    path_parameters_are_read(route, query, name);
    text_is_parted_at_the_first(route, '?', form_text(query));
}

// ---------------------------------------------------------------------------
// Heads
// ---------------------------------------------------------------------------

/// A field holds what it was last set to, and setting one leaves the others.
pub proof fn fields_hold_what_was_set(
    headers: Map<Seq<char>, Seq<char>>,
    name: Seq<char>,
    value: Seq<char>,
    other: Seq<char>,
)
    ensures
        field(headers.insert(name, value), name) == Some(value),
        other != name ==> field(headers.insert(name, value), other) == field(headers, other),
        field(Map::empty(), other) is None,
{
}

/// A header line sets the field that it names, in small letters and without the
/// white space around it, to its value, which may hold colons. It changes no
/// other field, and a line without a colon changes none.
pub proof fn header_lines_set_fields(
    lines: Seq<Seq<char>>,
    before_name: Seq<char>,
    name: Seq<char>,
    after_name: Seq<char>,
    before_value: Seq<char>,
    value: Seq<char>,
    after_value: Seq<char>,
)
    requires
        blank(before_name),
        blank(after_name),
        blank(before_value),
        blank(after_value),
        tight(name),
        tight(value),
        !name.contains(':'),
    ensures
        ({
            let line = (before_name + name + after_name) + seq![':'] + (before_value + value
                + after_value);
            header_fields(lines.push(line)) == header_fields(lines).insert(lower(name), value)
        }),
        header_fields(lines.push(name)) == header_fields(lines),
        header_fields(Seq::<Seq<char>>::empty()) == Map::<Seq<char>, Seq<char>>::empty(),
{
    let left = before_name + name + after_name;
    let right = before_value + value + after_value;
    let line = left + seq![':'] + right;
    assert forall|i: int| 0 <= i < left.len() implies left[i] != ':' by {
        if i < before_name.len() {
            assert(white(before_name[i]));
        } else if i < before_name.len() + name.len() {
            assert(name.contains(name[i - before_name.len()]));
        } else {
            assert(white(after_name[i - before_name.len() - name.len()]));
        }
    }
    text_is_parted_at_the_first(left, ':', right);
    assert(line[left.len() as int] == ':');
    trimming_leaves_the_text(before_name, name, after_name);
    trimming_leaves_the_text(before_value, value, after_value);
    assert(lines.push(line).drop_last() =~= lines);
    assert(lines.push(name).drop_last() =~= lines);
}

/// The first line of a head names the method and the path, all of each; without
/// a path it is the root. The other lines are header lines.
pub proof fn heads_are_read(
    method: Seq<char>,
    path: Seq<char>,
    version: Seq<char>,
    more: Seq<char>,
)
    requires
        method.len() > 0,
        forall|i: int| 0 <= i < method.len() ==> !white(#[trigger] method[i]),
        path.len() > 0,
        forall|i: int| 0 <= i < path.len() ==> !white(#[trigger] path[i]),
        !version.contains('\n'),
    ensures
        ({
            let line = method + seq![' '] + path + seq![' '] + version;
            let text = line + seq!['\r', '\n'] + more;
            &&& head_of(text).method == method
            &&& head_of(text).path == path
            &&& head_of(text).headers == header_fields(lines_of(more))
        }),
        target_of(method) == seq!['/'],
{
    let tail = seq![' '] + version;
    let rest = seq![' '] + path + tail;
    let line = method + seq![' '] + path + seq![' '] + version;
    assert forall|i: int| 0 <= i < line.len() implies line[i] != '\n' by {
        if i < method.len() {
            assert(line[i] == method[i]);
        } else if i == method.len() {
        } else if i < method.len() + 1 + path.len() {
            assert(line[i] == path[i - method.len() - 1]);
        } else if method.len() + 1 + path.len() < i < line.len() {
            assert(line[i] == version[i - method.len() - path.len() - 2]);
            assert(version.contains(version[i - method.len() - path.len() - 2]));
        }
    }
    let none = Seq::<char>::empty();
    assert(line =~= none + method + rest);
    first_word_is_found(none, method, rest);
    assert(rest =~= seq![' '] + path + tail);
    first_word_is_found(seq![' '], path, tail);
    lines_are_parted_at_line_feeds(line, more);
    assert((seq![line] + lines_of(more)).skip(1) =~= lines_of(more));
    reveal_strlit("/");
    assert("/"@ =~= seq!['/']);
    assert(none + method + none =~= method);
    first_word_is_found(none, method, none);
    assert(after_word(method) =~= none);
    crate::text_laws::only_blank_text_is_cut_to_nothing(none);
    assert(first_word(none) =~= none);
}

/// The length of a body is the number that its head declares, and zero where it
/// declares none.
pub proof fn declared_lengths_are_read(headers: Map<Seq<char>, Seq<char>>, digits: Seq<char>)
    requires
        digits.len() > 0,
        all_digits(digits),
        value_of(digits) <= usize::MAX,
    ensures
        field(headers, "content-length"@) == Some(digits) ==> declared_length(headers) == value_of(
            digits,
        ),
        field(headers, "content-length"@) is None ==> declared_length(headers) == 0,
        field(headers, "content-length"@) matches Some(s) && !all_digits(s) && s.len() > 0 && s[0]
            != '+' ==> declared_length(headers) == 0,
{
    digits_are_read(digits, usize::MAX as nat);
    match field(headers, "content-length"@) {
        Some(s) => digits_are_read(s, usize::MAX as nat),
        None => {},
    }
}

// ---------------------------------------------------------------------------
// Reading
// ---------------------------------------------------------------------------

/// Whether a line ends at place `k` and an empty one follows it.
pub open spec fn blank_line_at(s: Seq<u8>, k: int) -> bool {
    0 <= k && k + 4 <= s.len() && s[k] == 13 && s[k + 1] == 10 && s[k + 2] == 13 && s[k + 3] == 10
}

/// Whether the first blank line of `head`, a blank line and `rest` is the one
/// between the two.
pub open spec fn first_blank_line(head: Seq<u8>, rest: Seq<u8>) -> bool {
    let whole = head + seq![13u8, 10, 13, 10] + rest;
    forall|k: int| 0 <= k < head.len() ==> !#[trigger] blank_line_at(whole, k)
}

proof fn blank_line_is_found(head: Seq<u8>, rest: Seq<u8>)
    requires
        first_blank_line(head, rest),
    ensures
        first_match(message(head, rest), head_terminator()) == Some(head.len() as int),
{
    let whole = message(head, rest);
    let end = head_terminator();
    let n = head.len() as int;
    assert(whole =~= head + seq![13u8, 10, 13, 10] + rest);
    first_match_is_first(whole, end);
    assert(whole.subrange(n, n + 4) =~= end);
    assert(occurs_at(whole, end, n));
    match first_match(whole, end) {
        Some(p) => {
            if p < n {
                let part = whole.subrange(p, p + 4);
                assert(part[0] == 13 && part[1] == 10 && part[2] == 13 && part[3] == 10);
                assert(blank_line_at(whole, p));
            }
            if p > n {
                assert(!occurs_at(whole, end, n));
            }
        },
        None => {},
    }
}

/// A request is read as it was sent, however its bytes are cut into pieces: the
/// head is the text before the first blank line, and the body is all that the
/// head declares of what comes after it.
pub proof fn requests_are_read_whole(
    head: Seq<char>,
    body: Seq<u8>,
    more: Seq<u8>,
    chunks: Seq<Seq<u8>>,
)
    requires
        first_blank_line(encode_utf8(head), body + more),
        encode_utf8(head).len() + 3 <= 65536,
        encode_utf8(head).len() + 4 + body.len() + more.len() <= usize::MAX,
        declared_length(head_of(head).headers) == body.len(),
        forall|i: int| 0 <= i < chunks.len() ==> (#[trigger] chunks[i]).len() > 0,
        chunks.flatten() == encode_utf8(head) + seq![13u8, 10, 13, 10] + (body + more),
    ensures
        read_all(reading_nothing(), chunks) matches ReadOutcome::Ready(request) && request.method
            == head_of(head).method && request.path == head_of(head).path && request.headers
            == head_of(head).headers && request.body == body,
{
    let bytes = encode_utf8(head);
    let rest = body + more;
    utf8_round_trip(head);
    blank_line_is_found(bytes, rest);
    assert(message(bytes, rest) =~= bytes + seq![13u8, 10, 13, 10] + rest);
    pieces_do_not_matter(bytes, rest, chunks);
    assert(rest.take(body.len() as int) =~= body);
    if more.len() == 0 {
        assert(rest =~= body);
    }
}

/// Where fewer bytes come than the head declares, the end of the input makes the
/// body of those that came.
pub proof fn short_bodies_are_read(
    head: Seq<char>,
    body: Seq<u8>,
    chunks: Seq<Seq<u8>>,
)
    requires
        first_blank_line(encode_utf8(head), body),
        encode_utf8(head).len() + 3 <= 65536,
        encode_utf8(head).len() + 4 + body.len() <= usize::MAX,
        declared_length(head_of(head).headers) >= body.len(),
        forall|i: int| 0 <= i < chunks.len() ==> (#[trigger] chunks[i]).len() > 0,
        chunks.flatten() == encode_utf8(head) + seq![13u8, 10, 13, 10] + body,
    ensures
        read_all(reading_nothing(), chunks.push(Seq::empty())) matches ReadOutcome::Ready(request)
            && request.method == head_of(head).method && request.path == head_of(head).path
            && request.headers == head_of(head).headers && request.body == body,
{
    let bytes = encode_utf8(head);
    utf8_round_trip(head);
    blank_line_is_found(bytes, body);
    assert(message(bytes, body) =~= bytes + seq![13u8, 10, 13, 10] + body);
    pieces_do_not_matter(bytes, body, chunks);
}

/// Input without a blank line is read on up to 65536 bytes; beyond that, and at
/// its end, all of it is the head. Input that ends before it begins is no
/// request.
pub proof fn open_heads_are_read_on(data: Seq<u8>, chunk: Seq<u8>)
    requires
        forall|k: int| !#[trigger] blank_line_at(data + chunk, k),
        data.len() + chunk.len() <= usize::MAX - 4,
    ensures
        ({
            let outcome = read_step(ReaderModel { data, head: None }, chunk);
            let all = data + chunk;
            let said = head_of(text_of_bytes(all));
            &&& all.len() == 0 ==> outcome is Closed
            &&& 0 < chunk.len() && all.len() <= 65536 ==> (outcome matches ReadOutcome::More(next)
                && next.data == all && next.head is None)
            &&& all.len() > 65536 || (chunk.len() == 0 && all.len() > 0) ==> (
            outcome matches ReadOutcome::More(next) && next.data == all && next.head == Some(
                (all.len() as int, said),
            ))
        }),
{
    let all = data + chunk;
    first_match_is_first(all, head_terminator());
    match first_match(all, head_terminator()) {
        Some(p) => {
            let part = all.subrange(p, p + 4);
            assert(part[0] == 13 && part[1] == 10 && part[2] == 13 && part[3] == 10);
            assert(blank_line_at(all, p));
        },
        None => {},
    }
    assert(all.take(all.len() as int) =~= all);
}

// ---------------------------------------------------------------------------
// What the agent serves
// ---------------------------------------------------------------------------

/// Whether a response is a plain text with the given status.
pub open spec fn plain(response: ResponseModel, status: Seq<char>, text: Seq<char>) -> bool {
    response.status == status && response.content_type == "text/plain; charset=utf-8"@
        && text_of_bytes(response.body) == text
}

/// Whether a request shows a token: the whole of it, in the header or in the
/// query of its path.
pub open spec fn shows_token(request: RequestModel, token: Seq<char>) -> bool {
    ||| field(request.headers, "x-excel-bridge-token"@) == Some(token)
    ||| path_parameter(request.path, "token"@) == Some(token)
}

/// The agent acts on the requests below that show the token, and on no others.
/// Those that do not show it are refused, and everything else is not found.
pub proof fn agent_serves(request: RequestModel, settings: AgentSettingsModel)
    ensures
        ({
            let route = route_below(route_prefix(settings.path_prefix), request.path);
            let step = agent_step(request, settings);
            let get = request.method == "GET"@;
            let either = get || request.method == "POST"@;
            let known = match settings.token {
                Some(token) => shows_token(request, token),
                None => shows_token(request, Seq::empty()),
            };
            let asked_by_either = seq![
                "/run"@,
                "/run-computer"@,
                "/open-google-sheets"@,
                "/open-ms-excel-web"@,
                "/open-ms-office-viewer"@,
            ].contains(route);
            &&& get && route == "/health"@ ==> (step matches AgentStepModel::Respond(response)
                && plain(response, "200 OK"@, "agent ok\n"@))
            &&& known && either && route == "/run"@ ==> step is Classify
            &&& known && either && route == "/run-computer"@ ==> step is UseComputer
            &&& known && get && route == "/open-excel"@ ==> step == AgentStepModel::Open(
                TargetModel::Excel,
            )
            &&& known && either && route == "/open-google-sheets"@ ==> step
                == AgentStepModel::Open(TargetModel::GoogleSheets)
            &&& known && either && route == "/open-ms-excel-web"@ ==> step == AgentStepModel::Open(
                TargetModel::ExcelWeb,
            )
            &&& known && either && route == "/open-ms-office-viewer"@ ==> (
            step matches AgentStepModel::Open(TargetModel::Viewer(_)))
            &&& !known && ((either && asked_by_either) || (get && route == "/open-excel"@)) ==> (
            step matches AgentStepModel::Respond(response) && plain(
                response,
                "401 Unauthorized"@,
                "unauthorized\n"@,
            ))
            &&& !(get && (route == "/health"@ || route == "/open-excel"@)) && !(either
                && asked_by_either) ==> (step matches AgentStepModel::Respond(response) && plain(
                response,
                "404 Not Found"@,
                "not found\n"@,
            ))
        }),
{
    utf8_round_trip("agent ok\n"@);
    utf8_round_trip("unauthorized\n"@);
    utf8_round_trip("not found\n"@);
    let routes = seq![
        "/run"@,
        "/run-computer"@,
        "/open-google-sheets"@,
        "/open-ms-excel-web"@,
        "/open-ms-office-viewer"@,
    ];
    assert(routes[0] == "/run"@ && routes[1] == "/run-computer"@ && routes[2]
        == "/open-google-sheets"@ && routes[3] == "/open-ms-excel-web"@ && routes[4]
        == "/open-ms-office-viewer"@);
    reveal_routes();
}

proof fn reveal_routes()
    ensures
        "GET"@.len() == 3,
        "POST"@.len() == 4,
        "/"@.len() == 1,
        "/health"@.len() == 7,
        "/run"@.len() == 4,
        "/run-computer"@.len() == 13,
        "/open-excel"@.len() == 11,
        "/open-csv"@.len() == 9,
        "/open-google-sheets"@.len() == 19,
        "/create-gsheet"@.len() == 14,
        "/open-ms-excel-web"@.len() == 18,
        "/open-ms-office-viewer"@.len() == 22,
        "/prompt"@.len() == 7,
        "/prompt-computer"@.len() == 16,
        "/sample.xlsx"@.len() == 12,
        "/health"@ != "/prompt"@,
        !"/"@.contains('?'),
        !"/health"@.contains('?'),
        !"/run"@.contains('?'),
        !"/run-computer"@.contains('?'),
        !"/open-excel"@.contains('?'),
        !"/open-csv"@.contains('?'),
        !"/open-google-sheets"@.contains('?'),
        !"/create-gsheet"@.contains('?'),
        !"/open-ms-excel-web"@.contains('?'),
        !"/open-ms-office-viewer"@.contains('?'),
        !"/prompt"@.contains('?'),
        !"/prompt-computer"@.contains('?'),
        !"/sample.xlsx"@.contains('?'),
{
    reveal_strlit("GET");
    reveal_strlit("POST");
    reveal_strlit("/");
    reveal_strlit("/health");
    reveal_strlit("/run");
    reveal_strlit("/run-computer");
    reveal_strlit("/open-excel");
    reveal_strlit("/open-csv");
    reveal_strlit("/open-google-sheets");
    reveal_strlit("/create-gsheet");
    reveal_strlit("/open-ms-excel-web");
    reveal_strlit("/open-ms-office-viewer");
    reveal_strlit("/prompt");
    reveal_strlit("/prompt-computer");
    reveal_strlit("/sample.xlsx");
    assert("/health"@[1] != "/prompt"@[1]);
}

/// A prompt is the field `prompt` of the form, or else of the path, whole and as
/// it is; without one, it asks for Excel.
pub proof fn agent_takes_the_prompt(
    request: RequestModel,
    settings: AgentSettingsModel,
    route: Seq<char>,
    query: Seq<(Seq<char>, Seq<char>)>,
    form: Seq<(Seq<char>, Seq<char>)>,
)
    requires
        submits(request, route, query, form),
    ensures
        ({
            let prompt = match first_field(form, "prompt"@) {
                Some(p) => p,
                None => match first_field(query, "prompt"@) {
                    Some(p) => p,
                    None => "엑셀 실행해줘"@,
                },
            };
            let source = match first_field(form, "src"@) {
                Some(s) => Some(s),
                None => first_field(query, "src"@),
            };
            &&& agent_step(request, settings) matches AgentStepModel::Classify(p) ==> p == prompt
            &&& agent_step(request, settings) matches AgentStepModel::UseComputer(p) ==> p
                == prompt
            &&& agent_step(request, settings) matches AgentStepModel::Open(
                TargetModel::Viewer(s),
            ) ==> s == source
        }),
{
    reveal_strlit("prompt");
    reveal_strlit("src");
    forms_count_before_queries(request, route, query, form, "prompt"@);
    forms_count_before_queries(request, route, query, form, "src"@);
}

/// The token may stand in the query of the path, and has to be there whole.
pub proof fn tokens_are_compared_whole(
    request: RequestModel,
    route: Seq<char>,
    query: Seq<(Seq<char>, Seq<char>)>,
    form: Seq<(Seq<char>, Seq<char>)>,
    token: Seq<char>,
)
    requires
        submits(request, route, query, form),
    ensures
        shows_token(request, token) <==> field(request.headers, "x-excel-bridge-token"@) == Some(
            token,
        ) || first_field(query, "token"@) == Some(token),
{
    reveal_strlit("token");
    forms_count_before_queries(request, route, query, form, "token"@);
}

// ---------------------------------------------------------------------------
// What the launcher serves
// ---------------------------------------------------------------------------

/// The launcher acts on the requests below, and on no others.
pub proof fn launcher_serves(request: RequestModel, settings: LauncherSettingsModel)
    ensures
        ({
            let route = before(request.path, '?');
            let step = launcher_step(request, settings);
            let get = request.method == "GET"@;
            let post = request.method == "POST"@;
            &&& get && route == "/health"@ ==> (step matches LauncherStepModel::Respond(answer)
                && answer.status == "200 OK"@ && answer.content_type
                == "text/plain; charset=utf-8"@ && answer.body == "ok\n"@)
            &&& get && route == "/"@ ==> (step matches LauncherStepModel::Respond(answer)
                && answer.status == "200 OK"@ && answer.content_type
                == "text/html; charset=utf-8"@ && answer.body == crate::launcher::index_page(
                settings.model,
            ))
            &&& get && route == "/open-excel"@ ==> step == LauncherStepModel::Open(
                ActionModel::Excel,
            )
            &&& get && route == "/open-csv"@ ==> step == LauncherStepModel::Open(ActionModel::Csv)
            &&& get && route == "/open-google-sheets"@ ==> step == LauncherStepModel::Open(
                ActionModel::GoogleSheets,
            )
            &&& (get || post) && route == "/create-gsheet"@ ==> step == LauncherStepModel::Open(
                ActionModel::NewGoogleSheets,
            )
            &&& get && route == "/open-ms-excel-web"@ ==> step == LauncherStepModel::Open(
                ActionModel::ExcelWeb,
            )
            &&& get && route == "/open-ms-office-viewer"@ ==> (
            step matches LauncherStepModel::Open(ActionModel::Viewer(s)) && s == path_parameter(
                request.path,
                "src"@,
            ))
            &&& !(get && (route == "/health"@ || route == "/"@ || route == "/open-excel"@ || route
                == "/open-csv"@ || route == "/open-google-sheets"@ || route
                == "/open-ms-excel-web"@ || route == "/open-ms-office-viewer"@)) && !((get || post)
                && (route == "/create-gsheet"@ || route == "/prompt"@)) ==> (
            step matches LauncherStepModel::Respond(answer) && answer.status == "404 Not Found"@
                && answer.content_type == "text/plain; charset=utf-8"@ && answer.body
                == "not found\n"@)
        }),
{
    reveal_routes();
}

/// A prompt is classified whole, without the white space around it: it is the
/// field of the form where it is posted, and that of the path where it is got.
pub proof fn launcher_takes_the_prompt(
    request: RequestModel,
    settings: LauncherSettingsModel,
    query: Seq<(Seq<char>, Seq<char>)>,
    form: Seq<(Seq<char>, Seq<char>)>,
    front: Seq<char>,
    p: Seq<char>,
    back: Seq<char>,
)
    requires
        submits(request, "/prompt"@, query, form),
        blank(front),
        blank(back),
        tight(p),
        p.len() > 0,
    ensures
        request.method == "POST"@ && first_field(form, "prompt"@) == Some(front + p + back)
            ==> launcher_step(request, settings) == LauncherStepModel::Classify(p),
        request.method == "GET"@ && first_field(query, "prompt"@) == Some(front + p + back)
            ==> launcher_step(request, settings) == LauncherStepModel::Classify(p),
{
    reveal_strlit("prompt");
    reveal_routes();
    forms_count_before_queries(request, "/prompt"@, query, form, "prompt"@);
    trimming_leaves_the_text(front, p, back);
}

/// A missing or blank prompt is refused.
pub proof fn launcher_refuses_blank_prompts(
    request: RequestModel,
    settings: LauncherSettingsModel,
    query: Seq<(Seq<char>, Seq<char>)>,
    form: Seq<(Seq<char>, Seq<char>)>,
)
    requires
        submits(request, "/prompt"@, query, form),
        request.method == "POST"@ && (first_field(form, "prompt"@) matches Some(s) ==> blank(s)) || (
        request.method == "GET"@ && (first_field(query, "prompt"@) matches Some(s) ==> blank(s))),
    ensures
        launcher_step(request, settings) matches LauncherStepModel::Respond(answer)
            && answer.status == "400 Bad Request"@ && answer.content_type
            == "text/html; charset=utf-8"@ && answer.body == crate::launcher::result_page(
            "OpenAI 프롬프트"@,
            "실패"@,
            "프롬프트가 비어 있습니다."@,
            Some(Seq::empty()),
        ),
{
    reveal_strlit("prompt");
    reveal_routes();
    forms_count_before_queries(request, "/prompt"@, query, form, "prompt"@);
    match first_field(form, "prompt"@) {
        Some(s) => tight_text_is_kept(s),
        None => {},
    }
    match first_field(query, "prompt"@) {
        Some(s) => tight_text_is_kept(s),
        None => {},
    }
}

/// The document that the launcher is asked to view is the field `src` of the
/// path, whole.
pub proof fn launcher_takes_the_document(
    request: RequestModel,
    settings: LauncherSettingsModel,
    query: Seq<(Seq<char>, Seq<char>)>,
    form: Seq<(Seq<char>, Seq<char>)>,
)
    requires
        submits(request, "/open-ms-office-viewer"@, query, form),
        request.method == "GET"@,
    ensures
        launcher_step(request, settings) == LauncherStepModel::Open(
            ActionModel::Viewer(first_field(query, "src"@)),
        ),
{
    reveal_strlit("src");
    reveal_routes();
    forms_count_before_queries(request, "/open-ms-office-viewer"@, query, form, "src"@);
}

// ---------------------------------------------------------------------------
// What the gateway serves
// ---------------------------------------------------------------------------

/// Several forms are passed on, each to its endpoint of the agent; pages are
/// answered at once, and nothing else is served.
pub proof fn gateway_serves(
    request: RequestModel,
    agent_url: Seq<char>,
    settings: GatewaySettingsModel,
    sample: Seq<u8>,
)
    ensures
        ({
            let prefix = route_prefix(settings.path_prefix);
            let route = route_below(prefix, request.path);
            let step = gateway_step(request, agent_url, settings, sample);
            let get = request.method == "GET"@;
            let post = request.method == "POST"@;
            &&& get && route == "/health"@ ==> (step matches GatewayStepModel::Respond(response)
                && plain(response, "200 OK"@, "gateway ok\n"@))
            &&& get && route == "/"@ ==> (step matches GatewayStepModel::Respond(response)
                && response.status == "200 OK"@ && response.content_type
                == "text/html; charset=utf-8"@ && text_of_bytes(response.body)
                == crate::gateway::index_page(agent_url, prefix))
            &&& get && route == "/sample.xlsx"@ ==> (step matches GatewayStepModel::Respond(
                response,
            ) && response.status == "200 OK"@ && response.content_type
                == "application/vnd.openxmlformats-officedocument.spreadsheetml.sheet"@
                && response.body == sample)
            &&& (get || post) && (route == "/open-google-sheets"@ || route
                == "/open-ms-excel-web"@ || route == "/open-ms-office-viewer"@) ==> step is Forward
            &&& !(get && (route == "/health"@ || route == "/"@ || route == "/sample.xlsx"@)) && !(
            post && (route == "/prompt"@ || route == "/prompt-computer"@)) && !((get || post) && (
            route == "/open-google-sheets"@ || route == "/open-ms-excel-web"@ || route
                == "/open-ms-office-viewer"@)) ==> (step matches GatewayStepModel::Respond(response)
                && plain(response, "404 Not Found"@, "not found\n"@))
        }),
{
    reveal_routes();
    utf8_round_trip("gateway ok\n"@);
    utf8_round_trip("not found\n"@);
    utf8_round_trip(crate::gateway::index_page(agent_url, route_prefix(settings.path_prefix)));
}

/// The address of an endpoint below the address of the agent, which may end with
/// slashes.
proof fn agent_address(base: Seq<char>, n: nat)
    requires
        base.len() > 0 ==> base.last() != '/',
    ensures
        crate::text::trimmed_end_of(base + slashes(n), '/') == base,
{
    cutting_the_end_leaves_the_text(base, '/', n);
}

/// A prompt that is submitted to the gateway reaches the agent whole, however
/// long it is and without the white space around it, to be classified.
pub proof fn prompts_reach_the_agent_whole(
    request: RequestModel,
    base: Seq<char>,
    n: nat,
    settings: GatewaySettingsModel,
    sample: Seq<u8>,
    route: Seq<char>,
    query: Seq<(Seq<char>, Seq<char>)>,
    form: Seq<(Seq<char>, Seq<char>)>,
    front: Seq<char>,
    p: Seq<char>,
    back: Seq<char>,
    received: RequestModel,
    agent: AgentSettingsModel,
)
    requires
        request.method == "POST"@,
        submits(request, route, query, form),
        route_below(route_prefix(settings.path_prefix), request.path) == "/prompt"@,
        first_field(form, "prompt"@) == Some(front + p + back),
        blank(front),
        blank(back),
        tight(p),
        p.len() > 0,
        base.len() > 0 ==> base.last() != '/',
    ensures
        ({
            let step = gateway_step(request, base + slashes(n), settings, sample);
            &&& step matches GatewayStepModel::Forward(pending) && {
                &&& pending.prompt == p
                &&& pending.done == "Vultr -> Tailscale -> 로컬 Excel"@
                &&& pending.failed == "Agent 호출 실패"@
                &&& pending.forward.url == base + "/"@ + "run"@
                &&& pending.forward.timeout == "30"@
                &&& pending.forward.form == form_text(seq![("prompt"@, p)])
                &&& delivered(received, pending.forward, "run"@, agent) ==> agent_step(
                    received,
                    agent,
                ) == AgentStepModel::Classify(p)
            }
        }),
{
    let agent_url = base + slashes(n);
    reveal_strlit("prompt");
    reveal_routes();
    reveal_strlit("run");
    reveal_strlit("run-computer");
    forms_count_before_queries(request, route, query, form, "prompt"@);
    trimming_leaves_the_text(front, p, back);
    agent_address(base, n);
    match gateway_step(request, agent_url, settings, sample) {
        GatewayStepModel::Forward(pending) => {
            if delivered(received, pending.forward, "run"@, agent) {
                gateway_requests_reach_the_agent(
                    request,
                    agent_url,
                    settings,
                    sample,
                    crate::gateway::Endpoint::Prompt,
                    received,
                    agent,
                );
            }
        },
        _ => {},
    }
}

/// A prompt that is submitted to the gateway reaches the agent whole, however
/// long it is and without the white space around it, for the use of the computer.
pub proof fn computer_prompts_reach_the_agent_whole(
    request: RequestModel,
    base: Seq<char>,
    n: nat,
    settings: GatewaySettingsModel,
    sample: Seq<u8>,
    route: Seq<char>,
    query: Seq<(Seq<char>, Seq<char>)>,
    form: Seq<(Seq<char>, Seq<char>)>,
    front: Seq<char>,
    p: Seq<char>,
    back: Seq<char>,
    received: RequestModel,
    agent: AgentSettingsModel,
)
    requires
        request.method == "POST"@,
        submits(request, route, query, form),
        route_below(route_prefix(settings.path_prefix), request.path) == "/prompt-computer"@,
        first_field(form, "prompt"@) == Some(front + p + back),
        blank(front),
        blank(back),
        tight(p),
        p.len() > 0,
        base.len() > 0 ==> base.last() != '/',
    ensures
        ({
            let step = gateway_step(request, base + slashes(n), settings, sample);
            &&& step matches GatewayStepModel::Forward(pending) && {
                &&& pending.prompt == p
                &&& pending.done == "Vultr -> Tailscale -> OpenAI Computer Use -> 로컬 Excel"@
                &&& pending.failed == "Computer Use Agent 호출 실패"@
                &&& pending.forward.url == base + "/"@ + "run-computer"@
                &&& pending.forward.timeout == "100"@
                &&& pending.forward.form == form_text(seq![("prompt"@, p)])
                &&& delivered(received, pending.forward, "run-computer"@, agent) ==> agent_step(
                    received,
                    agent,
                ) == AgentStepModel::UseComputer(p)
            }
        }),
{
    let agent_url = base + slashes(n);
    reveal_strlit("prompt");
    reveal_routes();
    reveal_strlit("run");
    reveal_strlit("run-computer");
    forms_count_before_queries(request, route, query, form, "prompt"@);
    trimming_leaves_the_text(front, p, back);
    agent_address(base, n);
    match gateway_step(request, agent_url, settings, sample) {
        GatewayStepModel::Forward(pending) => {
            if delivered(received, pending.forward, "run-computer"@, agent) {
                gateway_requests_reach_the_agent(
                    request,
                    agent_url,
                    settings,
                    sample,
                    crate::gateway::Endpoint::PromptComputer,
                    received,
                    agent,
                );
            }
        },
        _ => {},
    }
}

/// A missing or blank prompt is not passed on.
pub proof fn gateway_refuses_blank_prompts(
    request: RequestModel,
    agent_url: Seq<char>,
    settings: GatewaySettingsModel,
    sample: Seq<u8>,
    route: Seq<char>,
    query: Seq<(Seq<char>, Seq<char>)>,
    form: Seq<(Seq<char>, Seq<char>)>,
)
    requires
        request.method == "POST"@,
        submits(request, route, query, form),
        route_below(route_prefix(settings.path_prefix), request.path) == "/prompt"@ || route_below(
            route_prefix(settings.path_prefix),
            request.path,
        ) == "/prompt-computer"@,
        first_field(form, "prompt"@) matches Some(s) ==> blank(s),
    ensures
        gateway_step(request, agent_url, settings, sample) matches GatewayStepModel::Respond(
            response,
        ) && response.status == "400 Bad Request"@ && response.content_type
            == "text/html; charset=utf-8"@ && text_of_bytes(response.body)
            == crate::gateway::result_page(
            "프롬프트 오류"@,
            "프롬프트가 비어 있습니다."@,
            agent_url,
            Seq::empty(),
            route_prefix(settings.path_prefix),
        ),
{
    reveal_strlit("prompt");
    reveal_routes();
    forms_count_before_queries(request, route, query, form, "prompt"@);
    match first_field(form, "prompt"@) {
        Some(s) => tight_text_is_kept(s),
        None => {},
    }
    utf8_round_trip(
        crate::gateway::result_page(
            "프롬프트 오류"@,
            "프롬프트가 비어 있습니다."@,
            agent_url,
            Seq::empty(),
            route_prefix(settings.path_prefix),
        ),
    );
}

/// A page that is asked of the gateway is opened by the agent.
pub proof fn sheets_reach_the_agent(
    request: RequestModel,
    base: Seq<char>,
    n: nat,
    settings: GatewaySettingsModel,
    sample: Seq<u8>,
    received: RequestModel,
    agent: AgentSettingsModel,
)
    requires
        request.method == "POST"@ || request.method == "GET"@,
        route_below(route_prefix(settings.path_prefix), request.path) == "/open-google-sheets"@,
        base.len() > 0 ==> base.last() != '/',
    ensures
        ({
            let step = gateway_step(request, base + slashes(n), settings, sample);
            &&& step matches GatewayStepModel::Forward(pending) && {
                &&& pending.prompt.len() == 0
                &&& pending.done == "Vultr -> Tailscale -> Google Sheets"@
                &&& pending.failed == "Google Sheets Agent 호출 실패"@
                &&& pending.forward.url == base + "/"@ + "open-google-sheets"@
                &&& pending.forward.timeout == "30"@
                &&& delivered(received, pending.forward, "open-google-sheets"@, agent) ==> agent_step(
                    received,
                    agent,
                ) == AgentStepModel::Open(TargetModel::GoogleSheets)
            }
        }),
{
    let agent_url = base + slashes(n);
    reveal_routes();
    reveal_strlit("open-google-sheets");
    reveal_strlit("run-computer");
    agent_address(base, n);
    match gateway_step(request, agent_url, settings, sample) {
        GatewayStepModel::Forward(pending) => {
            if delivered(received, pending.forward, "open-google-sheets"@, agent) {
                gateway_requests_reach_the_agent(
                    request,
                    agent_url,
                    settings,
                    sample,
                    crate::gateway::Endpoint::OpenGoogleSheets,
                    received,
                    agent,
                );
            }
        },
        _ => {},
    }
}

/// A page that is asked of the gateway is opened by the agent.
pub proof fn excel_web_reaches_the_agent(
    request: RequestModel,
    base: Seq<char>,
    n: nat,
    settings: GatewaySettingsModel,
    sample: Seq<u8>,
    received: RequestModel,
    agent: AgentSettingsModel,
)
    requires
        request.method == "POST"@ || request.method == "GET"@,
        route_below(route_prefix(settings.path_prefix), request.path) == "/open-ms-excel-web"@,
        base.len() > 0 ==> base.last() != '/',
    ensures
        ({
            let step = gateway_step(request, base + slashes(n), settings, sample);
            &&& step matches GatewayStepModel::Forward(pending) && {
                &&& pending.prompt.len() == 0
                &&& pending.done == "Vultr -> Tailscale -> Microsoft Excel for the web"@
                &&& pending.failed == "Microsoft Excel Web Agent 호출 실패"@
                &&& pending.forward.url == base + "/"@ + "open-ms-excel-web"@
                &&& pending.forward.timeout == "30"@
                &&& delivered(received, pending.forward, "open-ms-excel-web"@, agent) ==> agent_step(
                    received,
                    agent,
                ) == AgentStepModel::Open(TargetModel::ExcelWeb)
            }
        }),
{
    let agent_url = base + slashes(n);
    reveal_routes();
    reveal_strlit("open-ms-excel-web");
    reveal_strlit("run-computer");
    agent_address(base, n);
    match gateway_step(request, agent_url, settings, sample) {
        GatewayStepModel::Forward(pending) => {
            if delivered(received, pending.forward, "open-ms-excel-web"@, agent) {
                gateway_requests_reach_the_agent(
                    request,
                    agent_url,
                    settings,
                    sample,
                    crate::gateway::Endpoint::OpenExcelWeb,
                    received,
                    agent,
                );
            }
        },
        _ => {},
    }
}

/// The document that is asked of the gateway is the one that the agent views:
/// the field `src` of the form, or else of the path, or else the sample workbook,
/// which the gateway itself serves at its public address or at the host that the
/// request was sent to.
pub proof fn documents_reach_the_agent_whole(
    request: RequestModel,
    base: Seq<char>,
    n: nat,
    settings: GatewaySettingsModel,
    sample: Seq<u8>,
    route: Seq<char>,
    query: Seq<(Seq<char>, Seq<char>)>,
    form: Seq<(Seq<char>, Seq<char>)>,
    received: RequestModel,
    agent: AgentSettingsModel,
)
    requires
        request.method == "POST"@ || request.method == "GET"@,
        submits(request, route, query, form),
        route_below(route_prefix(settings.path_prefix), request.path) == "/open-ms-office-viewer"@,
        base.len() > 0 ==> base.last() != '/',
    ensures
        ({
            let step = gateway_step(request, base + slashes(n), settings, sample);
            let source = match first_field(form, "src"@) {
                Some(s) => s,
                None => match first_field(query, "src"@) {
                    Some(s) => s,
                    None => crate::gateway::sample_url(
                        settings.public_url,
                        field(request.headers, "host"@),
                    ),
                },
            };
            &&& step matches GatewayStepModel::Forward(pending) && {
                &&& pending.prompt.len() == 0
                &&& pending.done == "Vultr -> Tailscale -> Microsoft Office Web Viewer"@
                &&& pending.failed == "Microsoft Office Web Viewer Agent 호출 실패"@
                &&& pending.forward.url == base + "/"@ + "open-ms-office-viewer"@
                &&& pending.forward.timeout == "30"@
                &&& pending.forward.form == form_text(seq![("src"@, source)])
                &&& delivered(received, pending.forward, "open-ms-office-viewer"@, agent)
                    ==> agent_step(received, agent) == AgentStepModel::Open(
                    TargetModel::Viewer(Some(source)),
                )
            }
        }),
{
    let agent_url = base + slashes(n);
    reveal_strlit("src");
    reveal_routes();
    reveal_strlit("open-ms-office-viewer");
    reveal_strlit("run-computer");
    forms_count_before_queries(request, route, query, form, "src"@);
    agent_address(base, n);
    match gateway_step(request, agent_url, settings, sample) {
        GatewayStepModel::Forward(pending) => {
            if delivered(received, pending.forward, "open-ms-office-viewer"@, agent) {
                gateway_requests_reach_the_agent(
                    request,
                    agent_url,
                    settings,
                    sample,
                    crate::gateway::Endpoint::OpenViewer,
                    received,
                    agent,
                );
            }
        },
        _ => {},
    }
}

/// The sample workbook is at the public address that is set, without the slashes
/// and the white space around it; without one, at the host that was asked, and
/// without that on this machine.
pub proof fn sample_workbooks_have_an_address(
    front: Seq<char>,
    public: Seq<char>,
    n: nat,
    back: Seq<char>,
    unset: Option<Seq<char>>,
    host: Option<Seq<char>>,
)
    requires
        blank(front),
        blank(back),
        public.len() > 0,
        tight(public),
        public.last() != '/',
        unset matches Some(s) ==> blank(s),
    ensures
        crate::gateway::sample_url(Some(front + (public + slashes(n)) + back), host) == public
            + "/sample.xlsx"@,
        host matches Some(name) ==> crate::gateway::sample_url(unset, host) == "http://"@ + name
            + "/sample.xlsx"@,
        host is None ==> crate::gateway::sample_url(unset, host)
            == "http://127.0.0.1:8878/sample.xlsx"@,
{
    let s = public + slashes(n);
    assert(s[0] == public[0]);
    assert(s.last() == if n > 0 {
        '/'
    } else {
        public.last()
    });
    trimming_leaves_the_text(front, s, back);
    cutting_the_end_leaves_the_text(public, '/', n);
    match unset {
        Some(t) => tight_text_is_kept(t),
        None => {},
    }
    reveal_strlit("http://");
    reveal_strlit("127.0.0.1:8878");
    reveal_strlit("/sample.xlsx");
    reveal_strlit("http://127.0.0.1:8878/sample.xlsx");
    assert("http://"@ + "127.0.0.1:8878"@ + "/sample.xlsx"@
        =~= "http://127.0.0.1:8878/sample.xlsx"@);
}

} // verus!
