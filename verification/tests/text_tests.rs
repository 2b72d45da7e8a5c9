use aigw_console::text::{
    chars_of, contains_char, int_to_text, join, parse_u16, parse_u64, split_chars, string_of,
    text_eq, trim,
};

fn s(v: &[char]) -> String {
    string_of(v)
}

#[test]
fn split_on_separator_like_str_split() {
    let cs = chars_of("a:b::c");
    let parts: Vec<String> = split_chars(&cs, ':').iter().map(|p| s(p)).collect();
    assert_eq!(parts, vec!["a", "b", "", "c"]);
    let empty = chars_of("");
    assert_eq!(split_chars(&empty, ':').len(), 1);
}

#[test]
fn join_puts_separator_between() {
    let v = vec!["a".to_string(), "b".to_string(), "c".to_string()];
    assert_eq!(join(&v, ","), "a,b,c");
    assert_eq!(join(&vec![], ","), "");
    assert_eq!(join(&vec!["x".to_string()], ","), "x");
}

#[test]
fn parse_u16_like_str_parse() {
    assert_eq!(parse_u16(&chars_of("8080")), Some(8080));
    assert_eq!(parse_u16(&chars_of("+80")), Some(80));
    assert_eq!(parse_u16(&chars_of("65535")), Some(65535));
    assert_eq!(parse_u16(&chars_of("65536")), None);
    assert_eq!(parse_u16(&chars_of("")), None);
    assert_eq!(parse_u16(&chars_of("+")), None);
    assert_eq!(parse_u16(&chars_of("-1")), None);
    assert_eq!(parse_u16(&chars_of(" 80")), None);
    for t in ["0", "1", "443", "007", "+65535", "65536", "1a", ""] {
        assert_eq!(parse_u16(&chars_of(t)), t.parse::<u16>().ok(), "{}", t);
    }
}

#[test]
fn parse_u64_like_str_parse() {
    assert_eq!(parse_u64(&chars_of("18446744073709551615")), Some(u64::MAX));
    assert_eq!(parse_u64(&chars_of("18446744073709551616")), None);
    assert_eq!(parse_u64(&chars_of("42")), Some(42));
}

#[test]
fn trim_like_str_trim() {
    for t in ["  a b  ", "\t\nx\r", "", "   ", "a", "\u{3000}y\u{a0}"] {
        assert_eq!(s(&trim(&chars_of(t))), t.trim(), "{:?}", t);
    }
}

#[test]
fn int_to_text_like_to_string() {
    for v in [0i64, 7, -7, 10, 1234567890, i64::MAX, i64::MIN] {
        assert_eq!(int_to_text(v), v.to_string());
    }
}

#[test]
fn small_text_helpers() {
    assert!(contains_char(&chars_of("a@b"), '@'));
    assert!(!contains_char(&chars_of("ab"), '@'));
    assert!(text_eq("x", "x"));
    assert!(!text_eq("x", "y"));
}
