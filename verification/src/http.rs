//! HTTP requests, read piece by piece, and HTTP responses.
use vstd::prelude::*;
use vstd::slice::{slice_subrange, slice_to_vec};
use vstd::utf8::encode_utf8;

use crate::number::{decimal, parse_unsigned, push_decimal, read_unsigned};
use crate::text::{
    after, after_word, before, chars_of, copy_text, find_char, first_word, lines_of, lower,
    occurs_at, optional_str, same_text, split_lines, string_of, take_word, text_from_bytes,
    text_of_bytes, texts, to_lower, trim, trimmed,
};

verus! {

// ---------------------------------------------------------------------------
// Header fields
// ---------------------------------------------------------------------------

/// The header fields of a request: one value for each name. A field that is
/// given again replaces the earlier one.
#[derive(Debug)]
pub struct Headers {
    entries: Vec<(String, String)>,
}

/// The fields that a list of names and values sets, in order.
spec fn fields_set(entries: Seq<(String, String)>) -> Map<Seq<char>, Seq<char>>
    decreases entries.len(),
{
    if entries.len() == 0 {
        Map::empty()
    } else {
        fields_set(entries.drop_last()).insert(entries.last().0@, entries.last().1@)
    }
}

impl View for Headers {
    type V = Map<Seq<char>, Seq<char>>;

    closed spec fn view(&self) -> Map<Seq<char>, Seq<char>> {
        fields_set(self.entries@)
    }
}

/// The value that a map holds for a name.
pub open spec fn field(headers: Map<Seq<char>, Seq<char>>, name: Seq<char>) -> Option<Seq<char>> {
    if headers.dom().contains(name) {
        Some(headers[name])
    } else {
        None
    }
}

impl Headers {
    /// No header fields.
    pub fn new() -> (r: Headers)
        ensures
            r@ == Map::<Seq<char>, Seq<char>>::empty(),
    {
        Headers { entries: Vec::new() }
    }

    /// Sets a field.
    pub fn insert(&mut self, name: String, value: String)
        ensures
            final(self)@ == old(self)@.insert(name@, value@),
    {
        let ghost before = self.entries@;
        self.entries.push((name, value));
        assert(self.entries@.drop_last() =~= before);
    }

    /// The value of a field.
    pub fn get(&self, name: &str) -> (r: Option<&str>)
        ensures
            optional_str(r) == field(self@, name@),
    {
        let mut n: usize = self.entries.len();
        assert(self.entries@.take(n as int) =~= self.entries@);
        while n > 0
            invariant
                n <= self.entries@.len(),
                field(self@, name@) == field(fields_set(self.entries@.take(n as int)), name@),
            decreases n,
        {
            let ghost head = self.entries@.take(n as int);
            assert(head.drop_last() =~= self.entries@.take(n - 1));
            let entry = &self.entries[n - 1];
            if same_text(entry.0.as_str(), name) {
                return Some(entry.1.as_str());
            }
            n -= 1;
        }
        None
    }
}

// ---------------------------------------------------------------------------
// The head of a request
// ---------------------------------------------------------------------------

/// What the head of a request says.
pub struct HeadModel {
    pub method: Seq<char>,
    pub path: Seq<char>,
    pub headers: Map<Seq<char>, Seq<char>>,
}

/// The header fields that a list of lines sets. The name of a field stands
/// before the first colon of its line, in any letter case; lines without a
/// colon set nothing.
pub open spec fn header_fields(lines: Seq<Seq<char>>) -> Map<Seq<char>, Seq<char>>
    decreases lines.len(),
{
    if lines.len() == 0 {
        Map::empty()
    } else if lines.last().contains(':') {
        header_fields(lines.drop_last()).insert(
            lower(trimmed(before(lines.last(), ':'))),
            trimmed(after(lines.last(), ':')),
        )
    } else {
        header_fields(lines.drop_last())
    }
}

/// The target in a request line: its second word, or `/`.
pub open spec fn target_of(line: Seq<char>) -> Seq<char> {
    let word = first_word(after_word(line));
    if word.len() == 0 {
        "/"@
    } else {
        word
    }
}

/// The first line of a list, empty where there is none.
pub open spec fn first_line(lines: Seq<Seq<char>>) -> Seq<char> {
    if lines.len() == 0 {
        Seq::empty()
    } else {
        lines[0]
    }
}

/// The lines of a list after the first.
pub open spec fn other_lines(lines: Seq<Seq<char>>) -> Seq<Seq<char>> {
    if lines.len() == 0 {
        Seq::empty()
    } else {
        lines.skip(1)
    }
}

/// What the text of a request head says.
pub open spec fn head_of(text: Seq<char>) -> HeadModel {
    let lines = lines_of(text);
    HeadModel {
        method: first_word(first_line(lines)),
        path: target_of(first_line(lines)),
        headers: header_fields(other_lines(lines)),
    }
}

/// How long the body of a request is said to be: zero where nothing usable is
/// said.
pub open spec fn declared_length(headers: Map<Seq<char>, Seq<char>>) -> nat {
    match field(headers, "content-length"@) {
        Some(value) => match read_unsigned(value, usize::MAX as nat) {
            Some(n) => n,
            None => 0,
        },
        None => 0,
    }
}

/// The head of a request.
#[derive(Debug)]
pub struct Head {
    pub method: String,
    pub path: String,
    pub headers: Headers,
}

impl View for Head {
    type V = HeadModel;

    open spec fn view(&self) -> HeadModel {
        HeadModel { method: self.method@, path: self.path@, headers: self.headers@ }
    }
}

/// Reads the text of a request head.
pub fn parse_head(text: &str) -> (r: Head)
    ensures
        r@ == head_of(text@),
{
    let chars = chars_of(text);
    let lines = split_lines(chars.as_slice());
    let ghost all = texts(lines@);
    let first: Vec<char> = if lines.len() > 0 {
        chars_of(lines[0].as_str())
    } else {
        Vec::new()
    };
    assert(first@ =~= first_line(all));
    let (method, rest) = take_word(first.as_slice());
    let (target, _) = take_word(rest);
    let path = if target.len() > 0 {
        string_of(target)
    } else {
        copy_text("/")
    };
    let mut headers = Headers::new();
    let mut i: usize = 1;
    while i < lines.len()
        invariant
            1 <= i,
            all == texts(lines@),
            i <= lines@.len() || i == 1,
            headers@ == header_fields(other_lines(all).take(i - 1)),
        decreases lines@.len() - i,
    {
        let line = chars_of(lines[i].as_str());
        let p = find_char(line.as_slice(), ':');
        proof {
            let next = other_lines(all).take(i as int);
            assert(next.drop_last() =~= other_lines(all).take(i - 1));
            assert(next.last() == line@);
        }
        if p < line.len() {
            let name = to_lower(trim(slice_subrange(line.as_slice(), 0, p)));
            let value = string_of(trim(slice_subrange(line.as_slice(), p + 1, line.len())));
            headers.insert(string_of(name.as_slice()), value);
        }
        i += 1;
    }
    proof {
        assert(other_lines(all).take(i - 1) =~= other_lines(all));
    }
    Head { method: string_of(method), path, headers }
}

/// The declared length of the body.
pub fn content_length(headers: &Headers) -> (r: usize)
    ensures
        r == declared_length(headers@),
{
    match headers.get("content-length") {
        Some(value) => {
            let chars = chars_of(value);
            match parse_unsigned(chars.as_slice(), usize::MAX as u64) {
                Some(n) => n as usize,
                None => 0,
            }
        },
        None => 0,
    }
}

// ---------------------------------------------------------------------------
// Reading a request
// ---------------------------------------------------------------------------

/// The first place, no earlier than `i`, where `pattern` stands in `s`.
pub open spec fn first_match_from(s: Seq<u8>, pattern: Seq<u8>, i: int) -> Option<int>
    decreases s.len() - i + 1,
{
    if i + pattern.len() > s.len() {
        None
    } else if occurs_at(s, pattern, i) {
        Some(i)
    } else {
        first_match_from(s, pattern, i + 1)
    }
}

/// The first place where `pattern` stands in `s`.
pub open spec fn first_match(s: Seq<u8>, pattern: Seq<u8>) -> Option<int> {
    first_match_from(s, pattern, 0)
}

/// `first_match` is a match, it is the first one, and it is `None` only where
/// there is no match.
pub proof fn first_match_is_first(s: Seq<u8>, pattern: Seq<u8>)
    ensures
        match first_match(s, pattern) {
            Some(p) => occurs_at(s, pattern, p) && forall|j: int|
                j < p ==> !occurs_at(s, pattern, j),
            None => forall|j: int| !occurs_at(s, pattern, j),
        },
{
    first_match_from_is_first(s, pattern, 0);
}

proof fn first_match_from_is_first(s: Seq<u8>, pattern: Seq<u8>, i: int)
    requires
        0 <= i,
    ensures
        match first_match_from(s, pattern, i) {
            Some(p) => i <= p && occurs_at(s, pattern, p) && forall|j: int|
                i <= j < p ==> !occurs_at(s, pattern, j),
            None => forall|j: int| i <= j ==> !occurs_at(s, pattern, j),
        },
    decreases s.len() - i + 1,
{
    if i + pattern.len() <= s.len() && !occurs_at(s, pattern, i) {
        first_match_from_is_first(s, pattern, i + 1);
    }
}

/// Finds the first place where `needle` stands in `haystack`.
pub fn find_bytes(haystack: &[u8], needle: &[u8]) -> (r: Option<usize>)
    requires
        needle@.len() > 0,
    ensures
        match r {
            Some(p) => first_match(haystack@, needle@) == Some(p as int) && p + needle@.len()
                <= haystack@.len(),
            None => first_match(haystack@, needle@) is None,
        },
{
    let mut i: usize = 0;
    while needle.len() <= haystack.len() - i
        invariant
            needle@.len() > 0,
            i <= haystack@.len(),
            first_match(haystack@, needle@) == first_match_from(haystack@, needle@, i as int),
        decreases haystack@.len() - i,
    {
        if same_bytes(slice_subrange(haystack, i, i + needle.len()), needle) {
            return Some(i);
        }
        i += 1;
    }
    None
}

/// Whether two runs of bytes are the same.
pub fn same_bytes(a: &[u8], b: &[u8]) -> (r: bool)
    ensures
        r == (a@ == b@),
{
    if a.len() != b.len() {
        return false;
    }
    let mut i: usize = 0;
    while i < a.len()
        invariant
            i <= a@.len() == b@.len(),
            forall|j: int| 0 <= j < i ==> a@[j] == b@[j],
        decreases a@.len() - i,
    {
        if a[i] != b[i] {
            return false;
        }
        i += 1;
    }
    assert(a@ =~= b@);
    true
}

/// Appends bytes.
pub fn push_bytes(out: &mut Vec<u8>, bytes: &[u8])
    ensures
        final(out)@ == old(out)@ + bytes@,
{
    let mut i: usize = 0;
    while i < bytes.len()
        invariant
            i <= bytes@.len(),
            out@ == old(out)@ + bytes@.take(i as int),
        decreases bytes@.len() - i,
    {
        out.push(bytes[i]);
        proof {
            assert(out@ =~= old(out)@ + bytes@.take(i + 1));
        }
        i += 1;
    }
    assert(bytes@.take(i as int) =~= bytes@);
}

/// The blank line that ends the head of a request.
pub open spec fn head_terminator() -> Seq<u8> {
    seq![13u8, 10u8, 13u8, 10u8]
}

/// A request head without an end is cut off once more than this many bytes
/// have come.
pub const HEAD_LIMIT: usize = 65536;

/// Where the head ends in the bytes received so far, if that is decided: at
/// the blank line, or with the last byte where the head has grown too long or
/// nothing more will come.
pub open spec fn head_end(data: Seq<u8>, closed: bool) -> Option<int> {
    match first_match(data, head_terminator()) {
        Some(p) => Some(p),
        None => if data.len() > HEAD_LIMIT || closed {
            Some(data.len() as int)
        } else {
            None
        },
    }
}

/// The sum of two sizes, no more than the largest size.
pub open spec fn capped_sum(a: int, b: int) -> int {
    if a + b > usize::MAX {
        usize::MAX as int
    } else {
        a + b
    }
}

/// Where the body begins after a head that ends at `end`.
pub open spec fn body_start(end: int) -> int {
    capped_sum(end, 4)
}

/// How many bytes a request takes whose head ends at `end`.
pub open spec fn request_length(end: int, head: HeadModel) -> int {
    capped_sum(body_start(end), declared_length(head.headers) as int)
}

/// The body in the bytes received: as much of the declared length as came.
pub open spec fn body_of(data: Seq<u8>, end: int, head: HeadModel) -> Seq<u8> {
    let stop = if request_length(end, head) < data.len() {
        request_length(end, head)
    } else {
        data.len() as int
    };
    if body_start(end) <= stop {
        data.subrange(body_start(end), stop)
    } else {
        Seq::empty()
    }
}

/// What a request says.
pub struct RequestModel {
    pub method: Seq<char>,
    pub path: Seq<char>,
    pub headers: Map<Seq<char>, Seq<char>>,
    pub body: Seq<u8>,
}

/// The request that a head and a body make.
pub open spec fn request_with(head: HeadModel, body: Seq<u8>) -> RequestModel {
    RequestModel { method: head.method, path: head.path, headers: head.headers, body }
}

/// A request.
#[derive(Debug)]
pub struct HttpRequest {
    pub method: String,
    pub path: String,
    pub headers: Headers,
    pub body: Vec<u8>,
}

impl View for HttpRequest {
    type V = RequestModel;

    open spec fn view(&self) -> RequestModel {
        RequestModel {
            method: self.method@,
            path: self.path@,
            headers: self.headers@,
            body: self.body@,
        }
    }
}

/// How far the reading of a request has come: the bytes received, and the head
/// with the place where it ends once that is decided.
pub struct ReaderModel {
    pub data: Seq<u8>,
    pub head: Option<(int, HeadModel)>,
}

/// What comes of one more piece of input.
pub enum ReadOutcome {
    /// More input is needed.
    More(ReaderModel),
    /// The peer closed the connection without sending anything.
    Closed,
    /// The request is complete.
    Ready(RequestModel),
}

/// Reading before anything has come.
pub open spec fn reading_nothing() -> ReaderModel {
    ReaderModel { data: Seq::empty(), head: None }
}

/// The head of the request, where it is decided.
pub open spec fn head_after(state: ReaderModel, chunk: Seq<u8>) -> Option<(int, HeadModel)> {
    let data = state.data + chunk;
    match state.head {
        Some(head) => Some(head),
        None => match head_end(data, chunk.len() == 0) {
            Some(end) => Some((end, head_of(text_of_bytes(data.take(end))))),
            None => None,
        },
    }
}

/// What one more piece of input does. An empty piece means that the peer sends
/// nothing more. Once the head is known the request is complete when all of
/// its declared length has come, or when nothing more comes.
pub open spec fn read_step(state: ReaderModel, chunk: Seq<u8>) -> ReadOutcome {
    let data = state.data + chunk;
    if data.len() == 0 {
        ReadOutcome::Closed
    } else {
        match head_after(state, chunk) {
            None => ReadOutcome::More(ReaderModel { data, head: None }),
            Some((end, head)) => if data.len() >= request_length(end, head) || (state.head is Some
                && chunk.len() == 0) {
                ReadOutcome::Ready(request_with(head, body_of(data, end, head)))
            } else {
                ReadOutcome::More(ReaderModel { data, head: Some((end, head)) })
            },
        }
    }
}

/// A request that is being read.
#[derive(Debug)]
pub struct RequestReader {
    data: Vec<u8>,
    head: Option<(usize, Head)>,
}

impl View for RequestReader {
    type V = ReaderModel;

    closed spec fn view(&self) -> ReaderModel {
        ReaderModel {
            data: self.data@,
            head: match self.head {
                Some((end, head)) => Some((end as int, head@)),
                None => None,
            },
        }
    }
}

/// What came of one more piece of input.
#[derive(Debug)]
pub enum ReadProgress {
    More(RequestReader),
    Closed,
    Ready(HttpRequest),
}

impl View for ReadProgress {
    type V = ReadOutcome;

    open spec fn view(&self) -> ReadOutcome {
        match *self {
            ReadProgress::More(reader) => ReadOutcome::More(reader@),
            ReadProgress::Closed => ReadOutcome::Closed,
            ReadProgress::Ready(request) => ReadOutcome::Ready(request@),
        }
    }
}

impl RequestReader {
    /// Starts to read a request.
    pub fn new() -> (r: RequestReader)
        ensures
            r@ == reading_nothing(),
    {
        let r = RequestReader { data: Vec::new(), head: None };
        assert(r@.data =~= Seq::empty());
        r
    }

    /// Takes the next piece of input; an empty piece when there is no more.
    pub fn feed(self, chunk: &[u8]) -> (r: ReadProgress)
        ensures
            r@ == read_step(self@, chunk@),
    {
        let mut data = self.data;
        let known = self.head;
        push_bytes(&mut data, chunk);
        if data.len() == 0 {
            return ReadProgress::Closed;
        }
        let had_head = known.is_some();
        let decided: Option<(usize, Head)> = match known {
            Some(found) => Some(found),
            None => {
                let terminator: [u8; 4] = [13, 10, 13, 10];
                assert(terminator@ =~= head_terminator());
                let end: Option<usize> = match find_bytes(data.as_slice(), &terminator) {
                    Some(p) => Some(p),
                    None => if data.len() > HEAD_LIMIT || chunk.len() == 0 {
                        Some(data.len())
                    } else {
                        None
                    },
                };
                match end {
                    Some(end) => {
                        let head_bytes = slice_subrange(data.as_slice(), 0, end);
                        assert(head_bytes@ =~= data@.take(end as int));
                        let text = text_from_bytes(head_bytes);
                        Some((end, parse_head(text.as_str())))
                    },
                    None => None,
                }
            },
        };
        match decided {
            None => {
                let r = RequestReader { data, head: None };
                ReadProgress::More(r)
            },
            Some((end, head)) => {
                let start = end.saturating_add(4);
                let length = start.saturating_add(content_length(&head.headers));
                if data.len() >= length || (had_head && chunk.len() == 0) {
                    let stop = if length < data.len() {
                        length
                    } else {
                        data.len()
                    };
                    let body = if start <= stop {
                        slice_to_vec(slice_subrange(data.as_slice(), start, stop))
                    } else {
                        Vec::new()
                    };
                    assert(body@ =~= body_of(data@, end as int, head@));
                    ReadProgress::Ready(
                        HttpRequest {
                            method: head.method,
                            path: head.path,
                            headers: head.headers,
                            body,
                        },
                    )
                } else {
                    ReadProgress::More(RequestReader { data, head: Some((end, head)) })
                }
            },
        }
    }
}

// ---------------------------------------------------------------------------
// Responses
// ---------------------------------------------------------------------------

/// What a response says.
pub struct ResponseModel {
    pub status: Seq<char>,
    pub content_type: Seq<char>,
    pub body: Seq<u8>,
}

/// A response.
#[derive(Debug)]
pub struct Response {
    pub status: &'static str,
    pub content_type: &'static str,
    pub body: Vec<u8>,
}

impl View for Response {
    type V = ResponseModel;

    open spec fn view(&self) -> ResponseModel {
        ResponseModel {
            status: self.status@,
            content_type: self.content_type@,
            body: self.body@,
        }
    }
}

/// A response in plain text.
pub open spec fn text_response(status: Seq<char>, body: Seq<char>) -> ResponseModel {
    ResponseModel { status, content_type: "text/plain; charset=utf-8"@, body: encode_utf8(body) }
}

/// A response in HTML.
pub open spec fn html_response(status: Seq<char>, body: Seq<char>) -> ResponseModel {
    ResponseModel { status, content_type: "text/html; charset=utf-8"@, body: encode_utf8(body) }
}

/// Makes a response in plain text.
pub fn text(status: &'static str, body: &str) -> (r: Response)
    ensures
        r@ == text_response(status@, body@),
{
    Response {
        status,
        content_type: "text/plain; charset=utf-8",
        body: slice_to_vec(body.as_bytes()),
    }
}

/// Makes a response in HTML.
pub fn html(status: &'static str, body: &str) -> (r: Response)
    ensures
        r@ == html_response(status@, body@),
{
    Response {
        status,
        content_type: "text/html; charset=utf-8",
        body: slice_to_vec(body.as_bytes()),
    }
}

/// Makes a response of any type.
pub fn binary(status: &'static str, content_type: &'static str, body: Vec<u8>) -> (r: Response)
    ensures
        r@ == (ResponseModel { status: status@, content_type: content_type@, body: body@ }),
{
    Response { status, content_type, body }
}

/// The head of a response.
pub open spec fn response_head(status: Seq<char>, content_type: Seq<char>, length: nat) -> Seq<
    char,
> {
    "HTTP/1.1 "@ + status + "\r\nContent-Type: "@ + content_type + "\r\nContent-Length: "@
        + decimal(length) + "\r\nConnection: close\r\n\r\n"@
}

/// The bytes of a response.
pub open spec fn response_bytes(response: ResponseModel) -> Seq<u8> {
    encode_utf8(
        response_head(response.status, response.content_type, response.body.len()),
    ) + response.body
}

/// Writes a response.
pub fn write_response(status: &str, content_type: &str, body: &[u8]) -> (r: Vec<u8>)
    ensures
        r@ == response_bytes(
            (ResponseModel { status: status@, content_type: content_type@, body: body@ }),
        ),
{
    let mut head = String::new();
    head.append("HTTP/1.1 ");
    head.append(status);
    head.append("\r\nContent-Type: ");
    head.append(content_type);
    head.append("\r\nContent-Length: ");
    push_decimal(&mut head, body.len() as u128);
    head.append("\r\nConnection: close\r\n\r\n");
    assert(head@ =~= response_head(status@, content_type@, body@.len()));
    let mut out = slice_to_vec(head.as_str().as_bytes());
    push_bytes(&mut out, body);
    out
}

} // verus!
