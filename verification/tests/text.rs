use web_search_mcp::text::{
    decimal_string, join_strings, parse_unsigned_upto, split_on, str_contains, str_is_blank,
    strip_trailing_char, trimmed,
};
use web_search_mcp::UrlParams;

#[test]
fn parses_like_str_parse() {
    assert_eq!(parse_unsigned_upto("8080", 65535), Some(8080));
    assert_eq!(parse_unsigned_upto("+1", 65535), Some(1));
    assert_eq!(parse_unsigned_upto("0065535", 65535), Some(65535));
    assert_eq!(parse_unsigned_upto("65536", 65535), None);
    assert_eq!(parse_unsigned_upto("", 65535), None);
    assert_eq!(parse_unsigned_upto("+", 65535), None);
    assert_eq!(parse_unsigned_upto("-1", 65535), None);
    assert_eq!(parse_unsigned_upto(" 1", 65535), None);
    assert_eq!(parse_unsigned_upto("4294967295", 4294967295), Some(4294967295));
    assert_eq!(parse_unsigned_upto("4294967296", 4294967295), None);
    for s in ["0", "7", "123", "99999", "+0", "12a", "++3"] {
        assert_eq!(parse_unsigned_upto(s, 65535), s.parse::<u16>().ok().map(|v| v as u64), "{}", s);
    }
}

#[test]
fn decimal_like_to_string() {
    for v in [0u64, 9, 10, 1234567890, u64::MAX] {
        assert_eq!(decimal_string(v), v.to_string());
    }
}

#[test]
fn trim_and_blank_like_std() {
    for s in ["", "  ", " a b ", "\u{3000}x\u{2003}", "\t\nq\r", "x"] {
        assert_eq!(trimmed(s), s.trim(), "{:?}", s);
        assert_eq!(str_is_blank(s), s.trim().is_empty(), "{:?}", s);
    }
}

#[test]
fn split_join_contains_strip() {
    assert_eq!(split_on("a,,b,", ','), vec!["a", "", "b", ""]);
    assert_eq!(split_on("", ','), vec![""]);
    let parts = vec!["x".to_string(), "y".to_string(), "z".to_string()];
    assert_eq!(join_strings(&parts, ", "), "x, y, z");
    assert_eq!(join_strings(&Vec::new(), ", "), "");
    assert!(str_contains("application/json, text/event-stream", "text/event-stream"));
    assert!(!str_contains("text/event", "text/event-stream"));
    assert!(str_contains("abc", ""));
    assert_eq!(strip_trailing_char("https://a.b///", '/'), "https://a.b");
    assert_eq!(strip_trailing_char("///", '/'), "");
}

#[test]
fn url_params_insert_replaces() {
    let mut p = UrlParams::new();
    assert_eq!(p.get("a"), None);
    p.insert("a".to_string(), "1".to_string());
    p.insert("b".to_string(), "2".to_string());
    p.insert("a".to_string(), "3".to_string());
    assert_eq!(p.get("a").map(|s| s.as_str()), Some("3"));
    assert_eq!(p.get("b").map(|s| s.as_str()), Some("2"));
}
