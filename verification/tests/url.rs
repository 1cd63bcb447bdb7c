use web_excel_launcher::bridge;
use web_excel_launcher::launcher;
use web_excel_launcher::url::{
    form_body, form_value, hex_value, query_param, query_value, url_decode,
};

#[test]
fn reads_hex_digits() {
    assert_eq!(hex_value(b'0'), Some(0));
    assert_eq!(hex_value(b'9'), Some(9));
    assert_eq!(hex_value(b'a'), Some(10));
    assert_eq!(hex_value(b'f'), Some(15));
    assert_eq!(hex_value(b'A'), Some(10));
    assert_eq!(hex_value(b'F'), Some(15));
    for byte in [b'/', b':', b'@', b'G', b'`', b'g', b' ', 0xff] {
        assert_eq!(hex_value(byte), None);
    }
}

#[test]
fn decodes_percent_encoding() {
    assert_eq!(url_decode(""), "");
    assert_eq!(url_decode("a+b%20c"), "a b c");
    assert_eq!(url_decode("%EC%97%91%ec%85%80"), "엑셀");
    assert_eq!(url_decode("100%"), "100%");
    assert_eq!(url_decode("%4"), "%4");
    assert_eq!(url_decode("%41"), "A");
    assert_eq!(url_decode("%zz%41"), "%zzA");
    assert_eq!(url_decode("%%41"), "%A");
    assert_eq!(url_decode("%2B%2b"), "++");
    assert_eq!(url_decode("한글"), "한글");
    assert_eq!(url_decode("%FF"), "\u{fffd}");
    assert_eq!(url_decode("%ED%95"), String::from_utf8_lossy(&[0xed, 0x95]));
}

#[test]
fn encodes_for_forms_and_for_addresses() {
    assert_eq!(bridge::url_encode("a b&c=d/한"), "a+b%26c%3Dd%2F%ED%95%9C");
    assert_eq!(launcher::url_encode("a b&c=d/한"), "a%20b%26c%3Dd%2F%ED%95%9C");
    assert_eq!(bridge::url_encode("AZaz09-_.~"), "AZaz09-_.~");
    assert_eq!(launcher::url_encode("AZaz09-_.~"), "AZaz09-_.~");
    assert_eq!(bridge::url_encode("+%"), "%2B%25");
    assert_eq!(launcher::url_encode("\u{0}\u{7f}"), "%00%7F");
}

#[test]
fn encoded_text_is_decoded_to_itself() {
    let mut all = String::new();
    for code in 0u32..0x3000 {
        if let Some(ch) = char::from_u32(code) {
            all.push(ch);
        }
    }
    all.push_str("엑셀 실행해줘 \u{10ffff}");
    assert_eq!(url_decode(&bridge::url_encode(&all)), all);
    assert_eq!(url_decode(&launcher::url_encode(&all)), all);
    let alphabet = |ch: char| ch.is_ascii_alphanumeric() || "-_.~%+".contains(ch);
    assert!(bridge::url_encode(&all).chars().all(alphabet));
    assert!(launcher::url_encode(&all).chars().all(alphabet));
}

#[test]
fn looks_parameters_up() {
    let some = |s: &str| Some(s.to_string());
    assert_eq!(query_param("prompt=a+b&x=1", "prompt"), some("a b"));
    assert_eq!(query_param("prompt=a+b&x=1", "x"), some("1"));
    assert_eq!(query_param("prompt=a", "y"), None);
    assert_eq!(query_param("x=1&x=2", "x"), some("1"));
    assert_eq!(query_param("flag", "flag"), some(""));
    assert_eq!(query_param("a=b=c", "a"), some("b=c"));
    assert_eq!(query_param("%70rompt=x", "prompt"), some("x"));
    assert_eq!(query_param("", ""), some(""));
    assert_eq!(query_param("", "x"), None);
}

#[test]
fn looks_parameters_of_paths_and_forms_up() {
    assert_eq!(query_value("/run?token=t&prompt=p", "token"), Some("t".to_string()));
    assert_eq!(query_value("/run", "token"), None);
    assert_eq!(query_value("/run?", ""), Some("".to_string()));
    assert_eq!(query_value("/a?b=c?d", "b"), Some("c?d".to_string()));
    assert_eq!(
        form_value("prompt=%EC%97%91%EC%85%80".as_bytes(), "prompt"),
        Some("엑셀".to_string())
    );
    assert_eq!(form_value(b"prompt=a\xff", "prompt"), Some("a\u{fffd}".to_string()));
    assert_eq!(form_value(b"", "prompt"), None);
}

#[test]
fn forms_give_their_fields_back() {
    let fields = [("prompt", "a&b=c d+e%"), ("src", "https://x/?y=1&z=2"), ("prompt", "second")];
    let form = form_body(&fields);
    assert_eq!(
        form,
        "prompt=a%26b%3Dc+d%2Be%25&src=https%3A%2F%2Fx%2F%3Fy%3D1%26z%3D2&prompt=second"
    );
    assert_eq!(form_value(form.as_bytes(), "prompt"), Some("a&b=c d+e%".to_string()));
    assert_eq!(form_value(form.as_bytes(), "src"), Some("https://x/?y=1&z=2".to_string()));
    assert_eq!(form_value(form.as_bytes(), "token"), None);
    assert_eq!(form_body(&[]), "");
}

#[test]
fn viewer_addresses_name_their_source() {
    let source = "https://a.example/web excel/sample.xlsx?x=1&y=2";
    assert_eq!(
        bridge::microsoft_office_viewer_url(source),
        "https://view.officeapps.live.com/op/view.aspx?src=https%3A%2F%2Fa.example%2Fweb+excel%2Fsample.xlsx%3Fx%3D1%26y%3D2"
    );
    assert_eq!(
        launcher::microsoft_office_viewer_url(source),
        "https://view.officeapps.live.com/op/view.aspx?src=https%3A%2F%2Fa.example%2Fweb%20excel%2Fsample.xlsx%3Fx%3D1%26y%3D2"
    );
    for url in [
        bridge::microsoft_office_viewer_url(source),
        launcher::microsoft_office_viewer_url(source),
    ] {
        assert_eq!(query_value(&url, "src"), Some(source.to_string()));
    }
}
