//! Laws about numbers and about reading requests.
use vstd::prelude::*;

use crate::http::{
    body_of, declared_length, first_match, first_match_is_first, head_of, head_terminator,
    header_fields, read_step, reading_nothing, request_length, request_with, response_head,
    ReadOutcome, ReaderModel, RequestModel, HEAD_LIMIT,
};
use crate::number::{all_digits, decimal, read_signed, read_unsigned, signed_decimal, value_of};
use crate::temp::{after_attempt, temp_name, TempOutcome, TempStepModel, ATTEMPTS};
use crate::text::{
    after, before, lines_of, lower, occurs_at, position_at, position_is_first, text_of_bytes,
    trimmed, trimmed_end, trimmed_start, without_cr,
};

verus! {

// ---------------------------------------------------------------------------
// Numbers
// ---------------------------------------------------------------------------

pub(crate) proof fn decimal_value(n: nat)
    ensures
        decimal(n).len() > 0,
        all_digits(decimal(n)),
        value_of(decimal(n)) == n,
    decreases n,
{
    if n < 10 {
        let s = decimal(n);
        assert(s.drop_last() =~= Seq::empty());
        assert(value_of(s.drop_last()) == 0);
    } else {
        decimal_value(n / 10);
        let s = decimal(n);
        assert(s.drop_last() =~= decimal(n / 10));
        assert forall|i: int| 0 <= i < s.len() implies '0' <= #[trigger] s[i] <= '9' by {
            if i < s.len() - 1 {
                assert(s[i] == decimal(n / 10)[i]);
            }
        }
    }
}

/// A number in decimal is read back as that number.
pub proof fn decimal_round_trip(n: nat, max: nat)
    requires
        n <= max,
    ensures
        read_unsigned(decimal(n), max) == Some(n),
{
    decimal_value(n);
    assert('0' <= decimal(n)[0] <= '9');
}

/// A coordinate in decimal is read back as that number.
pub proof fn signed_round_trip(n: i32)
    ensures
        read_signed(signed_decimal(n as int)) == Some(n as int),
{
    if n < 0 {
        let m = (-(n as int)) as nat;
        decimal_value(m);
        assert(signed_decimal(n as int).skip(1) =~= decimal(m));
    } else {
        decimal_round_trip(n as nat, 0x7fff_ffff);
        decimal_value(n as nat);
        assert('0' <= decimal(n as nat)[0] <= '9');
    }
}

/// Different numbers are written differently.
pub proof fn decimal_is_injective(m: nat, n: nat)
    requires
        decimal(m) == decimal(n),
    ensures
        m == n,
{
    decimal_value(m);
    decimal_value(n);
}

// ---------------------------------------------------------------------------
// Names of files
// ---------------------------------------------------------------------------

/// Every attempt at a file tries another name.
pub proof fn attempts_try_different_names(
    prefix: Seq<char>,
    suffix: Seq<char>,
    process: nat,
    stamp: nat,
    first: nat,
    second: nat,
)
    requires
        first != second,
    ensures
        temp_name(prefix, suffix, process, stamp, first) != temp_name(
            prefix,
            suffix,
            process,
            stamp,
            second,
        ),
{
    let start = prefix + "-"@ + decimal(process) + "-"@ + decimal(stamp) + "-"@;
    let a = temp_name(prefix, suffix, process, stamp, first);
    let b = temp_name(prefix, suffix, process, stamp, second);
    assert(a =~= start + decimal(first) + suffix);
    assert(b =~= start + decimal(second) + suffix);
    if a == b {
        let n = decimal(first).len();
        assert(a.len() == start.len() + n + suffix.len());
        assert(b.len() == start.len() + decimal(second).len() + suffix.len());
        assert(a.skip(start.len() as int).take(n as int) =~= decimal(first));
        assert(b.skip(start.len() as int).take(n as int) =~= decimal(second));
        decimal_is_injective(first, second);
    }
}

/// A file is tried again only where its name was taken, under the next number,
/// and never more than the set number of times.
pub proof fn attempts_are_limited(attempt: nat, shown: Seq<char>, outcome: TempOutcome)
    ensures
        match after_attempt(attempt, shown, outcome) {
            TempStepModel::Retry(next) => outcome is Taken && next == attempt + 1 && next
                < ATTEMPTS,
            TempStepModel::Done => outcome is Written,
            TempStepModel::Failed(_) => !(outcome is Written),
        },
{
}

// ---------------------------------------------------------------------------
// Requests that come in pieces
// ---------------------------------------------------------------------------

/// What comes of several pieces of input.
pub open spec fn read_all(state: ReaderModel, chunks: Seq<Seq<u8>>) -> ReadOutcome
    decreases chunks.len(),
{
    if chunks.len() == 0 {
        ReadOutcome::More(state)
    } else {
        match read_step(state, chunks[0]) {
            ReadOutcome::More(next) => read_all(next, chunks.skip(1)),
            outcome => outcome,
        }
    }
}

/// The bytes of a request: a head, the blank line that ends it, and what comes
/// after.
pub open spec fn message(head: Seq<u8>, rest: Seq<u8>) -> Seq<u8> {
    head + head_terminator() + rest
}

/// Whether the head of a request can be told from its bytes: it ends where it
/// should, and it is not too long.
pub open spec fn well_formed(head: Seq<u8>, rest: Seq<u8>) -> bool {
    &&& first_match(message(head, rest), head_terminator()) == Some(head.len() as int)
    &&& head.len() + 3 <= HEAD_LIMIT
    &&& message(head, rest).len() <= usize::MAX
}

/// How long the body is that a head declares.
pub open spec fn declared_by(head: Seq<u8>) -> nat {
    declared_length(head_of(text_of_bytes(head)).headers)
}

/// The body of a request: of what comes after the head, as much as the head
/// declares, or all of it where less comes.
pub open spec fn sent_body(head: Seq<u8>, rest: Seq<u8>) -> Seq<u8> {
    if declared_by(head) < rest.len() {
        rest.take(declared_by(head) as int)
    } else {
        rest
    }
}

/// The request that a head and what comes after it make.
pub open spec fn sent_request(head: Seq<u8>, rest: Seq<u8>) -> RequestModel {
    let said = head_of(text_of_bytes(head));
    RequestModel {
        method: said.method,
        path: said.path,
        headers: said.headers,
        body: sent_body(head, rest),
    }
}

/// Where the head ends in the beginning of a request.
proof fn head_end_of_part(head: Seq<u8>, rest: Seq<u8>, n: int)
    requires
        well_formed(head, rest),
        0 <= n <= message(head, rest).len(),
    ensures
        first_match(message(head, rest).take(n), head_terminator()) == (if n >= head.len() + 4 {
            Some(head.len() as int)
        } else {
            None
        }),
{
    let whole = message(head, rest);
    let part = whole.take(n);
    let mark = head_terminator();
    first_match_is_first(whole, mark);
    first_match_is_first(part, mark);
    assert forall|j: int| occurs_at(part, mark, j) implies occurs_at(whole, mark, j) && j + 4
        <= n by {
        assert(part.subrange(j, j + 4) =~= whole.subrange(j, j + 4));
    }
    if n >= head.len() + 4 {
        let h = head.len() as int;
        assert(part.subrange(h, h + 4) =~= whole.subrange(h, h + 4));
        assert(occurs_at(part, mark, h));
        match first_match(part, mark) {
            Some(p) => {
                assert(occurs_at(whole, mark, p));
                assert(!(p < h));
                assert(!(h < p));
            },
            None => {},
        }
    } else {
        match first_match(part, mark) {
            Some(p) => {
                assert(occurs_at(whole, mark, p));
                assert(p >= head.len());
            },
            None => {},
        }
    }
}

/// How far reading has come after the first `n` bytes of a request.
spec fn reader_after(head: Seq<u8>, rest: Seq<u8>, n: int) -> ReaderModel {
    ReaderModel {
        data: message(head, rest).take(n),
        head: if n >= head.len() + 4 {
            Some((head.len() as int, head_of(text_of_bytes(head))))
        } else {
            None
        },
    }
}

/// Whether the first `n` bytes of a request hold its head and the declared
/// length of its body.
spec fn complete_after(head: Seq<u8>, n: int) -> bool {
    n >= head.len() + 4 && n >= request_length(
        head.len() as int,
        head_of(text_of_bytes(head)),
    )
}

proof fn read_step_of_part(head: Seq<u8>, rest: Seq<u8>, n: int, chunk: Seq<u8>)
    requires
        well_formed(head, rest),
        0 <= n,
        chunk.len() > 0,
        n + chunk.len() <= message(head, rest).len(),
        chunk == message(head, rest).subrange(n, n + chunk.len()),
    ensures
        read_step(reader_after(head, rest, n), chunk) == (if complete_after(
            head,
            n + chunk.len(),
        ) {
            ReadOutcome::Ready(sent_request(head, rest))
        } else {
            ReadOutcome::More(reader_after(head, rest, n + chunk.len()))
        }),
{
    let whole = message(head, rest);
    let state = reader_after(head, rest, n);
    let m = n + chunk.len();
    let data = state.data + chunk;
    assert(data =~= whole.take(m));
    head_end_of_part(head, rest, m);
    let h = head.len() as int;
    let said = head_of(text_of_bytes(head));
    if m >= h + 4 {
        assert(data.take(h) =~= head);
        if complete_after(head, m) {
            assert(body_of(data, h, said) =~= sent_body(head, rest));
        }
    }
}

/// The end of the input makes a request ready whose head is known.
proof fn read_step_of_end(head: Seq<u8>, rest: Seq<u8>)
    requires
        well_formed(head, rest),
        rest.len() < declared_by(head),
    ensures
        read_step(
            reader_after(head, rest, message(head, rest).len() as int),
            Seq::empty(),
        ) == ReadOutcome::Ready(sent_request(head, rest)),
{
    let whole = message(head, rest);
    let n = whole.len() as int;
    let h = head.len() as int;
    assert(whole.take(n) + Seq::<u8>::empty() =~= whole);
    assert(body_of(whole, h, head_of(text_of_bytes(head))) =~= rest);
}

proof fn read_rest(head: Seq<u8>, rest: Seq<u8>, n: int, chunks: Seq<Seq<u8>>, end: Seq<Seq<u8>>)
    requires
        well_formed(head, rest),
        0 <= n <= message(head, rest).len(),
        n > 0 ==> !complete_after(head, n),
        forall|i: int| 0 <= i < chunks.len() ==> (#[trigger] chunks[i]).len() > 0,
        chunks.flatten() == message(head, rest).skip(n),
        rest.len() < declared_by(head) ==> end == seq![Seq::<u8>::empty()],
    ensures
        read_all(reader_after(head, rest, n), chunks + end) == ReadOutcome::Ready(
            sent_request(head, rest),
        ),
    decreases chunks.len(),
{
    let whole = message(head, rest);
    let pieces = chunks + end;
    if chunks.len() == 0 {
        assert(chunks.flatten() =~= Seq::empty());
        assert(n == whole.len());
        assert(pieces =~= end);
        if rest.len() >= declared_by(head) {
            assert(complete_after(head, n));
        }
        read_step_of_end(head, rest);
    } else {
        let chunk = chunks[0];
        let others = chunks.skip(1);
        assert(others =~= chunks.drop_first());
        assert(chunks.flatten() == chunk + others.flatten());
        let m = n + chunk.len();
        assert(whole.skip(n).len() == chunk.len() + others.flatten().len());
        assert(chunk =~= whole.skip(n).take(chunk.len() as int));
        assert(chunk =~= whole.subrange(n, m));
        assert(others.flatten() =~= whole.skip(n).skip(chunk.len() as int));
        assert(others.flatten() =~= whole.skip(m));
        read_step_of_part(head, rest, n, chunk);
        assert(pieces[0] == chunk);
        assert(pieces.skip(1) =~= others + end);
        if !complete_after(head, m) {
            assert forall|i: int| 0 <= i < others.len() implies (#[trigger] others[i]).len()
                > 0 by {
                assert(others[i] == chunks[i + 1]);
            }
            read_rest(head, rest, m, others, end);
        }
    }
}

/// What is read of a request does not depend on how its bytes were cut into
/// pieces on the way. It has the head that was sent, and as much of what came
/// after as the head declares: more is left out, and where the input ends
/// earlier the body is what came. Only in the last case is the end of the input,
/// an empty piece, waited for.
pub proof fn pieces_do_not_matter(head: Seq<u8>, rest: Seq<u8>, chunks: Seq<Seq<u8>>)
    requires
        well_formed(head, rest),
        forall|i: int| 0 <= i < chunks.len() ==> (#[trigger] chunks[i]).len() > 0,
        chunks.flatten() == message(head, rest),
    ensures
        read_all(reading_nothing(), chunks.push(Seq::empty())) == ReadOutcome::Ready(
            sent_request(head, rest),
        ),
        declared_by(head) <= rest.len() ==> read_all(reading_nothing(), chunks)
            == ReadOutcome::Ready(sent_request(head, rest)),
{
    let whole = message(head, rest);
    let end = seq![Seq::<u8>::empty()];
    assert(whole.skip(0) =~= whole);
    assert(whole.take(0) =~= Seq::empty());
    assert(reader_after(head, rest, 0) == reading_nothing());
    read_rest(head, rest, 0, chunks, end);
    assert(chunks + end =~= chunks.push(Seq::empty()));
    if declared_by(head) <= rest.len() {
        read_rest(head, rest, 0, chunks, Seq::empty());
        assert(chunks + Seq::<Seq<u8>>::empty() =~= chunks);
    }
}

proof fn read_open_head(data: Seq<u8>, n: int, chunks: Seq<Seq<u8>>, end: Seq<Seq<u8>>)
    requires
        first_match(data, head_terminator()) is None,
        data.len() <= HEAD_LIMIT,
        0 <= n <= data.len(),
        forall|i: int| 0 <= i < chunks.len() ==> (#[trigger] chunks[i]).len() > 0,
        chunks.flatten() == data.skip(n),
    ensures
        read_all(ReaderModel { data: data.take(n), head: None }, chunks + end) == read_all(
            ReaderModel { data, head: None },
            end,
        ),
    decreases chunks.len(),
{
    let pieces = chunks + end;
    if chunks.len() == 0 {
        assert(chunks.flatten() =~= Seq::empty());
        assert(data.take(n) =~= data);
        assert(pieces =~= end);
    } else {
        let chunk = chunks[0];
        let others = chunks.skip(1);
        assert(others =~= chunks.drop_first());
        assert(chunks.flatten() == chunk + others.flatten());
        let m = n + chunk.len();
        assert(data.skip(n).len() == chunk.len() + others.flatten().len());
        assert(chunk =~= data.skip(n).take(chunk.len() as int));
        assert(others.flatten() =~= data.skip(n).skip(chunk.len() as int));
        assert(others.flatten() =~= data.skip(m));
        let part = data.take(m);
        assert(data.take(n) + chunk =~= part);
        let mark = head_terminator();
        first_match_is_first(data, mark);
        first_match_is_first(part, mark);
        assert forall|j: int| occurs_at(part, mark, j) implies occurs_at(data, mark, j) by {
            assert(part.subrange(j, j + 4) =~= data.subrange(j, j + 4));
        }
        assert(first_match(part, mark) is None);
        assert(pieces[0] == chunk);
        assert(pieces.skip(1) =~= others + end);
        assert forall|i: int| 0 <= i < others.len() implies (#[trigger] others[i]).len() > 0 by {
            assert(others[i] == chunks[i + 1]);
        }
        read_open_head(data, m, others, end);
    }
}

/// The same where the input ends before the head does: all that came is the
/// head, and the body is empty. The end of the input is read twice, once for
/// the head and once for the body.
pub proof fn pieces_of_an_open_head_do_not_matter(data: Seq<u8>, chunks: Seq<Seq<u8>>)
    requires
        first_match(data, head_terminator()) is None,
        0 < data.len() <= HEAD_LIMIT,
        forall|i: int| 0 <= i < chunks.len() ==> (#[trigger] chunks[i]).len() > 0,
        chunks.flatten() == data,
    ensures
        read_all(
            reading_nothing(),
            chunks.push(Seq::empty()).push(Seq::empty()),
        ) == ReadOutcome::Ready(request_with(head_of(text_of_bytes(data)), Seq::empty())),
{
    let none = Seq::<u8>::empty();
    let end = seq![none, none];
    assert(data.skip(0) =~= data);
    assert(data.take(0) =~= Seq::empty());
    read_open_head(data, 0, chunks, end);
    assert(chunks + end =~= chunks.push(none).push(none));
    let said = head_of(text_of_bytes(data));
    let state = ReaderModel { data, head: None };
    let known = ReaderModel { data, head: Some((data.len() as int, said)) };
    assert(data + none =~= data);
    assert(data.take(data.len() as int) =~= data);
    assert(read_step(state, none) == ReadOutcome::More(known));
    assert(body_of(data, data.len() as int, said) =~= none);
    assert(end.skip(1) =~= seq![none]);
    assert(end.skip(1).skip(1) =~= Seq::empty());
    assert(read_all(state, end) == read_all(known, end.skip(1)));
}

/// A request whose bytes stop coming is still answered: once the head is
/// known, the end of the input makes the request ready with the body that came.
pub proof fn cut_off_body_is_ready(state: ReaderModel)
    requires
        state.head is Some,
        state.data.len() > 0,
    ensures
        read_step(state, Seq::empty()) == ReadOutcome::Ready(
            request_with(
                (state.head->0).1,
                body_of(state.data, (state.head->0).0, (state.head->0).1),
            ),
        ),
{
    assert(state.data + Seq::<u8>::empty() =~= state.data);
}

// ---------------------------------------------------------------------------
// Responses
// ---------------------------------------------------------------------------

/// A line that ends with a carriage return and a line feed.
proof fn first_line_of(line: Seq<char>, rest: Seq<char>)
    requires
        !line.contains('\n'),
    ensures
        lines_of(line + seq!['\r', '\n'] + rest) == seq![line] + lines_of(rest),
{
    let whole = line + seq!['\r', '\n'] + rest;
    let p = line.len() + 1;
    assert forall|i: int| 0 <= i < p implies whole[i] != '\n' by {
        if i < line.len() {
            assert(whole[i] == line[i]);
            assert(line.contains(line[i]));
        }
    }
    position_at(whole, '\n', p as int);
    assert(before(whole, '\n') =~= line.push('\r'));
    assert(without_cr(before(whole, '\n')) =~= line);
    assert(after(whole, '\n') =~= rest);
}

proof fn only_line(line: Seq<char>)
    requires
        line.len() > 0,
        !line.contains('\n'),
    ensures
        lines_of(line) == seq![line],
{
    position_is_first(line, '\n');
}

/// The white space before a number is dropped.
proof fn trimmed_number(n: nat)
    ensures
        trimmed(seq![' '] + decimal(n)) == decimal(n),
{
    decimal_value(n);
    let s = seq![' '] + decimal(n);
    assert(s.skip(1) =~= decimal(n));
    assert('0' <= decimal(n)[0] <= '9');
    assert('0' <= decimal(n)[decimal(n).len() - 1] <= '9');
    assert(trimmed_start(s) == trimmed_start(s.skip(1)));
    assert(trimmed_start(decimal(n)) == decimal(n));
}

/// The head of a response, without the blank line that ends it, declares the
/// length of the body.
pub proof fn responses_declare_their_length(
    status: Seq<char>,
    content_type: Seq<char>,
    length: nat,
)
    requires
        !status.contains('\n'),
        !content_type.contains('\n'),
        length <= usize::MAX,
    ensures
        ({
            let head = response_head(status, content_type, length);
            declared_length(head_of(head.take(head.len() - 4)).headers) == length
        }),
{
    reveal_strlit("HTTP/1.1 ");
    reveal_strlit("\r\nContent-Type: ");
    reveal_strlit("\r\nContent-Length: ");
    reveal_strlit("\r\nConnection: close\r\n\r\n");
    reveal_strlit("content-length");
    let crlf = seq!['\r', '\n'];
    let first = "HTTP/1.1 "@ + status;
    let kind = "\r\nContent-Type: "@.skip(2) + content_type;
    let size = "\r\nContent-Length: "@.skip(2) + decimal(length);
    let close = "\r\nConnection: close\r\n\r\n"@.subrange(2, 19);
    let head = response_head(status, content_type, length);
    let text = head.take(head.len() - 4);
    assert(text =~= first + crlf + (kind + crlf + (size + crlf + close)));
    decimal_value(length);
    assert forall|i: int| 0 <= i < first.len() implies first[i] != '\n' by {
        if i >= 9 {
            assert(first[i] == status[i - 9]);
            assert(status.contains(status[i - 9]));
        }
    }
    assert forall|i: int| 0 <= i < kind.len() implies kind[i] != '\n' by {
        if i >= 14 {
            assert(kind[i] == content_type[i - 14]);
            assert(content_type.contains(content_type[i - 14]));
        }
    }
    assert forall|i: int| 0 <= i < size.len() implies size[i] != '\n' by {
        if i >= 16 {
            assert('0' <= decimal(length)[i - 16] <= '9');
        }
    }
    first_line_of(first, kind + crlf + (size + crlf + close));
    first_line_of(kind, size + crlf + close);
    first_line_of(size, close);
    only_line(close);
    let lines = lines_of(text);
    assert(lines =~= seq![first, kind, size, close]);
    let rest = lines.skip(1);
    assert(rest =~= seq![kind, size, close]);
    // The last two fields of the head.
    position_at(close, ':', 10);
    assert(close.contains(close[10]));
    let close_name = close.take(10);
    assert(trimmed_start(close_name) == close_name);
    assert(trimmed_end(close_name) == close_name);
    assert(lower(close_name)[2] != "content-length"@[2] || lower(close_name).len() != 14);
    let sized = rest.drop_last();
    assert(sized =~= seq![kind, size]);
    position_at(size, ':', 14);
    assert(size.contains(size[14]));
    let size_name = size.take(14);
    assert(trimmed_start(size_name) == size_name);
    assert(trimmed_end(size_name) == size_name);
    assert(lower(size_name) =~= "content-length"@);
    assert(after(size, ':') =~= seq![' '] + decimal(length));
    trimmed_number(length);
    decimal_round_trip(length, usize::MAX as nat);
    assert(before(size, ':') =~= size_name);
    assert(before(close, ':') =~= close_name);
    assert(sized.last() == size && rest.last() == close);
    assert(header_fields(sized) == header_fields(sized.drop_last()).insert(
        "content-length"@,
        decimal(length),
    ));
    assert(header_fields(rest) == header_fields(sized).insert(
        lower(close_name),
        trimmed(after(close, ':')),
    ));
}

} // verus!
