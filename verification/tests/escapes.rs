use web_excel_launcher::escape::{
    curl_config_string, html_escape, json_string, powershell_single_quote, truncate,
};

#[test]
fn escapes_html() {
    assert_eq!(
        html_escape("<a href=\"x\">Tom & 'Jerry'</a>"),
        "&lt;a href=&quot;x&quot;&gt;Tom &amp; &#39;Jerry&#39;&lt;/a&gt;"
    );
    assert_eq!(html_escape("엑셀 실행해줘"), "엑셀 실행해줘");
    assert_eq!(html_escape("&amp;"), "&amp;amp;");
    assert_eq!(html_escape(""), "");
}

#[test]
fn escaped_html_holds_no_markup() {
    let escaped = html_escape("<>&\"'<>&\"'");
    assert!(!escaped.contains(['<', '>', '"', '\'']));
    let back = escaped
        .replace("&lt;", "<")
        .replace("&gt;", ">")
        .replace("&quot;", "\"")
        .replace("&#39;", "'")
        .replace("&amp;", "&");
    assert_eq!(back, "<>&\"'<>&\"'");
}

#[test]
fn writes_json_strings() {
    assert_eq!(json_string(""), "\"\"");
    assert_eq!(json_string("요청: 엑셀"), "\"요청: 엑셀\"");
    assert_eq!(
        json_string("a\"b\\c\nd\re\tf\u{0}g\u{8}h\u{1f}i\u{7f}"),
        "\"a\\\"b\\\\c\\nd\\re\\tf\\u0000g\\u0008h\\u001fi\u{7f}\""
    );
    assert_eq!(json_string("/ '"), "\"/ '\"");
}

#[test]
fn json_strings_hold_no_control_characters() {
    let mut all = String::new();
    for code in 0u8..128 {
        all.push(code as char);
    }
    let quoted = json_string(&all);
    assert!(quoted.chars().all(|ch| ch >= ' '));
    let inner = &quoted[1..quoted.len() - 1];
    assert!(!inner.replace("\\\\", "").replace("\\\"", "").contains('"'));
}

#[test]
fn writes_curl_values() {
    assert_eq!(curl_config_string("30"), "\"30\"");
    assert_eq!(
        curl_config_string("Authorization: Bearer a\"b\\c\nurl = x"),
        "\"Authorization: Bearer a\\\"b\\\\c\\nurl = x\""
    );
    assert_eq!(curl_config_string("\\n"), "\"\\\\n\"");
    assert_eq!(curl_config_string("\t\r"), "\"\t\r\"");
}

#[test]
fn curl_values_stay_on_their_line() {
    assert!(!curl_config_string("a\nb\n\nc").contains('\n'));
}

#[test]
fn writes_single_quoted_strings() {
    assert_eq!(powershell_single_quote(""), "''");
    assert_eq!(powershell_single_quote("C:\\a b.csv"), "'C:\\a b.csv'");
    assert_eq!(powershell_single_quote("it's '' $x"), "'it''s '''' $x'");
}

#[test]
fn single_quoted_strings_are_read_back() {
    for s in ["", "'", "''", "a'b", "https://x/?q='a b'"] {
        let quoted = powershell_single_quote(s);
        assert!(quoted.starts_with('\'') && quoted.ends_with('\''));
        assert_eq!(quoted[1..quoted.len() - 1].replace("''", "'"), s);
    }
}

#[test]
fn truncates_by_characters() {
    assert_eq!(truncate("", 0), "");
    assert_eq!(truncate("abc", 0), "...");
    assert_eq!(truncate("abc", 2), "ab...");
    assert_eq!(truncate("abc", 3), "abc");
    assert_eq!(truncate("abc", 4), "abc");
    assert_eq!(truncate("한국어", 2), "한국...");
    assert_eq!(truncate(&"x".repeat(801), 800).len(), 803);
}
