use gws_mcp::json::JsonValue;
use gws_mcp::text::{
    decimal, join_strings, parses_usize, path_join, replace_char, split_char, trim_str, words_of,
};

fn s(t: &str) -> String {
    t.to_string()
}

fn chars(t: &str) -> Vec<char> {
    t.chars().collect()
}

#[test]
fn trim_removes_unicode_white_space() {
    assert_eq!(trim_str("  \t hello world \n"), "hello world");
    assert_eq!(trim_str("\u{a0}x\u{3000}"), "x");
    assert_eq!(trim_str("   "), "");
}

#[test]
fn split_keeps_empty_pieces() {
    let parts = split_char(&chars("a,,b,"), ',');
    let got: Vec<String> = parts.iter().map(|p| p.iter().collect()).collect();
    assert_eq!(got, vec![s("a"), s(""), s("b"), s("")]);
    let whole = split_char(&chars("abc"), ',');
    assert_eq!(whole.len(), 1);
}

#[test]
fn words_split_on_white_space_runs() {
    let w = words_of(&chars("  GET /cb?code=1  HTTP/1.1 "));
    let got: Vec<String> = w.iter().map(|p| p.iter().collect()).collect();
    assert_eq!(got, vec![s("GET"), s("/cb?code=1"), s("HTTP/1.1")]);
}

#[test]
fn replace_char_replaces_every_occurrence() {
    let r: String = replace_char(&chars("a.b.c"), '.', &chars("_")).iter().collect();
    assert_eq!(r, "a_b_c");
}

#[test]
fn join_with_separator() {
    assert_eq!(join_strings(&vec![s("a"), s("b"), s("c")], " "), "a b c");
    assert_eq!(join_strings(&vec![], "; "), "");
}

#[test]
fn decimal_text() {
    assert_eq!(decimal(0), "0");
    assert_eq!(decimal(1234567), "1234567");
    assert_eq!(decimal(u64::MAX), u64::MAX.to_string());
}

#[test]
fn usize_parsing_accepts_plus_and_digits_only() {
    assert!(parses_usize(&chars("123")));
    assert!(parses_usize(&chars("+7")));
    assert!(!parses_usize(&chars("")));
    assert!(!parses_usize(&chars("+")));
    assert!(!parses_usize(&chars("-1")));
    assert!(!parses_usize(&chars("12a")));
}

#[test]
fn path_join_like_pathbuf() {
    assert_eq!(path_join("/home/u", "x"), "/home/u/x");
    assert_eq!(path_join("/home/u/", "x"), "/home/u/x");
    assert_eq!(path_join("", "x"), "x");
    assert_eq!(path_join("/home/u", "/etc"), "/etc");
}

#[test]
fn json_lookup_and_copy() {
    let v = JsonValue::Object(vec![
        (s("a"), JsonValue::Number(s("1"))),
        (s("b"), JsonValue::Array(vec![JsonValue::String(s("x")), JsonValue::Null])),
    ]);
    assert_eq!(v.get_key("a"), Some(&JsonValue::Number(s("1"))));
    assert_eq!(v.get_key("zz"), None);
    let b = v.get_key("b").unwrap();
    assert!(b.is_array());
    assert_eq!(b.get_index(0).and_then(|x| x.as_str()), Some(&s("x")));
    assert_eq!(b.get_index(5), None);
    assert_eq!(v.duplicate(), v);
    assert_eq!(JsonValue::Null.get_key("a"), None);
}
