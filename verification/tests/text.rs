use web_excel_launcher::number::{parse_signed, parse_unsigned, push_decimal, push_signed};
use web_excel_launcher::text::{
    chars_of, find_char, find_last, has_text, is_white, replace_char, same_text, split,
    split_lines, string_of, strip_prefix, take_word, text_from_bytes, to_lower, to_upper,
    trim_end_of, trim_setting, trim_text,
};

const SAMPLES: [&str; 18] = [
    "",
    " ",
    "a",
    " a ",
    "\t a b \r\n",
    "\u{3000}엑셀 실행해줘\u{a0}",
    "a\nb",
    "a\r\nb\r\n",
    "a\r",
    "\n",
    "\n\n",
    "\r\n\r\n",
    "a\n\nb\n",
    "GET /a?b=c HTTP/1.1",
    "\u{85}x\u{2028}y\u{2029}",
    "one  two\tthree",
    "\u{200b}zero width\u{200b}",
    "a\rb\r\nc",
];

#[test]
fn white_space_is_that_of_unicode() {
    let mut code: u32 = 0;
    while code <= 0x10ffff {
        if let Some(ch) = char::from_u32(code) {
            assert_eq!(is_white(ch), ch.is_whitespace(), "U+{:04X}", code);
        }
        code += 1;
    }
}

#[test]
fn trims_like_the_standard_library() {
    for s in SAMPLES {
        assert_eq!(trim_text(s), s.trim(), "{:?}", s);
        let chars = chars_of(s);
        assert_eq!(string_of(trim_end_of(&chars, '\n')), s.trim_end_matches('\n'));
    }
    assert_eq!(string_of(trim_end_of(&chars_of("http://a//"), '/')), "http://a");
}

#[test]
fn splits_lines_like_the_standard_library() {
    for s in SAMPLES {
        let expected: Vec<&str> = s.lines().collect();
        assert_eq!(split_lines(&chars_of(s)), expected, "{:?}", s);
    }
}

#[test]
fn splits_at_characters_like_the_standard_library() {
    for s in ["", "&", "a&b", "&a&&b&", "a=b&c=d", "가&나"] {
        let expected: Vec<&str> = s.split('&').collect();
        assert_eq!(split(&chars_of(s), '&'), expected, "{:?}", s);
    }
}

#[test]
fn takes_words_like_the_standard_library() {
    for s in SAMPLES {
        let mut words = s.split_whitespace();
        let chars = chars_of(s);
        let (first, rest) = take_word(&chars);
        let (second, _) = take_word(rest);
        assert_eq!(string_of(first), words.next().unwrap_or(""));
        assert_eq!(string_of(second), words.next().unwrap_or(""));
    }
}

#[test]
fn finds_text_like_the_standard_library() {
    for (s, pattern) in [
        ("abcabc", "abc"),
        ("abcabc", "abd"),
        ("abc", "abcd"),
        ("aaa", "aa"),
        ("", "a"),
        ("한글 한글", "한글"),
        ("x", ""),
    ] {
        let expected = s.rfind(pattern).map(|p| s[..p].chars().count());
        assert_eq!(find_last(&chars_of(s), &chars_of(pattern)), expected);
        assert_eq!(has_text(&chars_of(s), pattern), s.contains(pattern));
        assert_eq!(
            strip_prefix(&chars_of(s), pattern).map(string_of),
            s.strip_prefix(pattern).map(str::to_string)
        );
    }
    assert_eq!(find_char(&chars_of("a:b:c"), ':'), 1);
    assert_eq!(find_char(&chars_of("abc"), ':'), 3);
}

#[test]
fn changes_only_ascii_letters() {
    let s = "Win+R äÄ 가Z{[@`~";
    assert_eq!(string_of(&to_upper(&chars_of(s))), s.to_ascii_uppercase());
    assert_eq!(string_of(&to_lower(&chars_of(s))), s.to_ascii_lowercase());
    assert_eq!(replace_char(&chars_of("a/b/c"), '/', '\\'), "a\\b\\c");
}

#[test]
fn compares_texts() {
    assert!(same_text("", ""));
    assert!(same_text("한글", "한글"));
    assert!(!same_text("한글", "한"));
    assert!(!same_text("한", "한글"));
    assert!(!same_text("a", "b"));
}

#[test]
fn blank_settings_count_as_missing() {
    assert_eq!(trim_setting(None), None);
    assert_eq!(trim_setting(Some("")), None);
    assert_eq!(trim_setting(Some(" \t")), None);
    assert_eq!(trim_setting(Some(" x y ")), Some("x y".to_string()));
}

#[test]
fn repairs_bytes_that_are_no_text() {
    for bytes in [
        &b"plain"[..],
        &b"\xea\xb0\x80"[..],
        &b"a\xffb"[..],
        &b"\xea\xb0"[..],
        &b"\xf0\x9f\x98"[..],
        &b"\xc0\x80x"[..],
    ] {
        assert_eq!(text_from_bytes(bytes), String::from_utf8_lossy(bytes));
    }
    assert_eq!(text_from_bytes(b"a\xffb"), "a\u{fffd}b");
}

#[test]
fn reads_numbers_like_the_standard_library() {
    for s in [
        "", "0", "007", "42", "+42", "-42", "+", "-", "++1", "4 2", " 42", "65535", "65536",
        "99999999999999999999", "٣", "2147483647", "2147483648", "-2147483648", "-2147483649", "-0",
    ] {
        let chars = chars_of(s);
        assert_eq!(parse_unsigned(&chars, 65535), s.parse::<u16>().ok().map(u64::from), "{:?}", s);
        assert_eq!(
            parse_unsigned(&chars, usize::MAX as u64),
            s.parse::<usize>().ok().map(|n| n as u64)
        );
        assert_eq!(parse_signed(&chars), s.parse::<i32>().ok(), "{:?}", s);
    }
}

#[test]
fn numbers_are_read_back() {
    for n in [0u128, 7, 10, 199, 65535, u64::MAX as u128, u128::MAX] {
        let mut out = String::from("n=");
        push_decimal(&mut out, n);
        assert_eq!(out, format!("n={}", n));
    }
    for n in [0i32, 5, -5, i32::MAX, i32::MIN] {
        let mut out = String::new();
        push_signed(&mut out, n);
        assert_eq!(out, format!("{}", n));
        assert_eq!(parse_signed(&chars_of(&out)), Some(n));
    }
}
