use web_excel_launcher::http::{
    binary, content_length, find_bytes, html, parse_head, text, write_response, HttpRequest,
    ReadProgress, RequestReader,
};

fn read(chunks: &[&[u8]]) -> Option<HttpRequest> {
    let mut reader = RequestReader::new();
    for chunk in chunks {
        match reader.feed(chunk) {
            ReadProgress::More(next) => reader = next,
            ReadProgress::Ready(request) => return Some(request),
            ReadProgress::Closed => panic!("closed"),
        }
    }
    None
}

const MESSAGE: &[u8] =
    b"POST /prompt?x=1 HTTP/1.1\r\nHost: a:1\r\nContent-Length: 8\r\n\r\nprompt=a";

fn check(request: &HttpRequest) {
    assert_eq!(request.method, "POST");
    assert_eq!(request.path, "/prompt?x=1");
    assert_eq!(request.headers.get("host"), Some("a:1"));
    assert_eq!(request.headers.get("content-length"), Some("8"));
    assert_eq!(request.headers.get("Host"), None);
    assert_eq!(request.body, b"prompt=a");
}

#[test]
fn reads_a_request_at_once() {
    check(&read(&[MESSAGE]).unwrap());
}

#[test]
fn pieces_make_no_difference() {
    for cut in 1..MESSAGE.len() {
        check(&read(&[&MESSAGE[..cut], &MESSAGE[cut..]]).unwrap());
        assert!(read(&[&MESSAGE[..cut]]).is_none());
    }
    let bytes: Vec<&[u8]> = MESSAGE.chunks(1).collect();
    check(&read(&bytes).unwrap());
}

#[test]
fn pieces_make_no_difference_to_other_lengths() {
    let head = "POST / HTTP/1.1\r\nContent-Length: 5\r\n\r\n";
    for (rest, body) in [("", ""), ("abc", "abc"), ("abcde", "abcde"), ("abcdefg", "abcde")] {
        let whole = format!("{}{}", head, rest).into_bytes();
        for size in 1..whole.len() + 1 {
            let mut chunks: Vec<&[u8]> = whole.chunks(size).collect();
            chunks.push(b"");
            assert_eq!(read(&chunks).unwrap().body, body.as_bytes());
        }
    }
    let open: &[u8] = b"GET /a HTTP/1.1\r\nContent-Length: 5\r\n";
    for size in 1..open.len() + 1 {
        let mut chunks: Vec<&[u8]> = open.chunks(size).collect();
        chunks.push(b"");
        assert!(read(&chunks).is_none());
        chunks.push(b"");
        let request = read(&chunks).unwrap();
        assert_eq!(request.path, "/a");
        assert!(request.body.is_empty());
    }
}

#[test]
fn more_than_declared_is_left_out() {
    let mut longer = MESSAGE.to_vec();
    longer.extend_from_slice(b"&more=1");
    check(&read(&[&longer]).unwrap());
}

#[test]
fn a_connection_may_close_early() {
    assert!(matches!(RequestReader::new().feed(b""), ReadProgress::Closed));
    // In the body: what came of it counts.
    let request = read(&[&MESSAGE[..MESSAGE.len() - 3], b""]).unwrap();
    assert_eq!(request.body, b"promp");
    // In the head: the rest of the head counts, and the body is empty.
    let request = read(&[b"GET /health HT", b"", b""]).unwrap();
    assert_eq!(request.method, "GET");
    assert_eq!(request.path, "/health");
    assert!(request.body.is_empty());
}

#[test]
fn an_endless_head_is_cut_off() {
    let long = vec![b'a'; 65536];
    assert!(read(&[&long]).is_none());
    let mut reader = match RequestReader::new().feed(&long) {
        ReadProgress::More(reader) => reader,
        _ => panic!("not enough came"),
    };
    reader = match reader.feed(b"a") {
        ReadProgress::More(reader) => reader,
        _ => panic!("four more bytes are waited for"),
    };
    match reader.feed(b"bcde") {
        ReadProgress::Ready(request) => {
            assert_eq!(request.method.len(), 65537);
            assert_eq!(request.path, "/");
            assert!(request.body.is_empty());
        },
        _ => panic!("the request is complete"),
    }
}

#[test]
fn reads_heads() {
    let head = parse_head("GET /a b\r\nX:1\r\n x : 2 : 3 \nno colon\r\nY:");
    assert_eq!(head.method, "GET");
    assert_eq!(head.path, "/a");
    assert_eq!(head.headers.get("x"), Some("2 : 3"));
    assert_eq!(head.headers.get("y"), Some(""));
    assert_eq!(head.headers.get("no colon"), None);
    let empty = parse_head("");
    assert_eq!(empty.method, "");
    assert_eq!(empty.path, "/");
    assert_eq!(parse_head("GET").path, "/");
}

#[test]
fn reads_declared_lengths() {
    for (line, expected) in [
        ("Content-Length: 12", 12),
        ("content-length:+7", 7),
        ("CONTENT-LENGTH : 007", 7),
        ("Content-Length: x", 0),
        ("Content-Length: -1", 0),
        ("Content-Length:", 0),
        ("Content-Length: 99999999999999999999", 0),
        ("Length: 5", 0),
        ("Content-Length: 1\r\nContent-Length: 2", 2),
        ("Content-Length: 1\r\nContent-Length: x", 0),
    ] {
        let head = parse_head(&format!("POST / HTTP/1.1\r\n{}", line));
        assert_eq!(content_length(&head.headers), expected, "{}", line);
    }
}

#[test]
fn finds_bytes() {
    assert_eq!(find_bytes(b"a\r\n\r\nb\r\n\r\n", b"\r\n\r\n"), Some(1));
    assert_eq!(find_bytes(b"aab", b"ab"), Some(1));
    assert_eq!(find_bytes(b"ab", b"abc"), None);
    assert_eq!(find_bytes(b"", b"a"), None);
    assert_eq!(find_bytes(b"abc", b"d"), None);
}

#[test]
fn writes_responses() {
    let response = text("200 OK", "엑셀\n");
    assert_eq!(response.status, "200 OK");
    assert_eq!(response.content_type, "text/plain; charset=utf-8");
    assert_eq!(response.body, "엑셀\n".as_bytes());
    assert_eq!(
        write_response(response.status, response.content_type, &response.body),
        "HTTP/1.1 200 OK\r\nContent-Type: text/plain; charset=utf-8\r\nContent-Length: 7\r\nConnection: close\r\n\r\n엑셀\n"
            .as_bytes()
    );
    assert_eq!(html("404 Not Found", "").content_type, "text/html; charset=utf-8");
    let workbook = binary("200 OK", "application/x", vec![0, 255]);
    assert_eq!(
        write_response(workbook.status, workbook.content_type, &workbook.body),
        b"HTTP/1.1 200 OK\r\nContent-Type: application/x\r\nContent-Length: 2\r\nConnection: close\r\n\r\n\x00\xff"
    );
}

#[test]
fn responses_declare_the_length_of_their_body() {
    for n in [0usize, 1, 9, 10, 12345] {
        let bytes = write_response("200 OK", "text/plain", &vec![b'x'; n]);
        let end = find_bytes(&bytes, b"\r\n\r\n").unwrap();
        let head = parse_head(&String::from_utf8_lossy(&bytes[..end]));
        assert_eq!(content_length(&head.headers), n);
        assert_eq!(bytes.len(), end + 4 + n);
    }
}
