use oks::text::{
    chain, char_is_whitespace, decimal, ends_with, file_stem, find_char, join_path,
    padded_decimal, same_text, starts_with, strip_whitespace,
};

#[test]
fn whitespace_is_what_rust_calls_whitespace() {
    for code in 0u32..=0x10ffff {
        if let Some(c) = char::from_u32(code) {
            assert_eq!(char_is_whitespace(c), c.is_whitespace(), "U+{:04X}", code);
        }
    }
}

#[test]
fn strip_whitespace_keeps_the_rest_in_order() {
    assert_eq!(strip_whitespace(""), "");
    assert_eq!(strip_whitespace(" \t\r\n"), "");
    assert_eq!(strip_whitespace("ab cd\n"), "abcd");
    assert_eq!(strip_whitespace("  a\u{a0}b\u{2003}c\u{3000} "), "abc");
    assert_eq!(strip_whitespace("h\u{e9}llo w\u{f6}rld"), "h\u{e9}llow\u{f6}rld");
    let line = "01 23\t45\n";
    let expected: String = line.chars().filter(|c| !c.is_whitespace()).collect();
    assert_eq!(strip_whitespace(line), expected);
}

#[test]
fn same_text_compares_characters() {
    assert!(same_text("", ""));
    assert!(same_text("abc", "abc"));
    assert!(!same_text("abc", "abd"));
    assert!(!same_text("abc", "ab"));
    assert!(!same_text("", "a"));
    assert!(same_text("h\u{e9}", "h\u{e9}"));
    assert!(!same_text("h\u{e9}", "he"));
}

#[test]
fn suffix_and_prefix() {
    assert!(ends_with("a.keyspec.json", ".keyspec.json"));
    assert!(ends_with(".keyspec.json", ".keyspec.json"));
    assert!(!ends_with("keyspec.json", ".keyspec.json"));
    assert!(!ends_with("a.keyspec.json.bak", ".keyspec.json"));
    assert!(ends_with("anything", ""));
    assert!(ends_with("", ""));
    assert!(!ends_with("", "a"));
    assert!(starts_with("0002secret", "0002"));
    assert!(starts_with("0002", "0002"));
    assert!(!starts_with("002", "0002"));
    assert!(!starts_with("1002secret", "0002"));
    assert!(starts_with("abc", ""));
    assert!(ends_with("na\u{ef}ve.json", "\u{ef}ve.json"));
}

#[test]
fn find_char_gives_the_first_place() {
    assert_eq!(find_char("a.b.c", '.'), Some(1));
    assert_eq!(find_char(".hidden", '.'), Some(0));
    assert_eq!(find_char("none", '.'), None);
    assert_eq!(find_char("", '.'), None);
    assert_eq!(find_char("\u{e9}\u{e9}.x", '.'), Some(2));
}

#[test]
fn file_stem_stops_at_the_first_dot() {
    assert_eq!(file_stem("request.csrspec.json"), "request");
    assert_eq!(file_stem("a.b.c"), "a");
    assert_eq!(file_stem("plain"), "plain");
    assert_eq!(file_stem(".hidden"), "");
    assert_eq!(file_stem(""), "");
    assert_eq!(file_stem("trailing."), "trailing");
}

#[test]
fn decimal_writes_numbers_as_rust_does() {
    for n in [0u64, 1, 9, 10, 11, 99, 100, 999, 1000, 1001, 65535, 4294967295, u64::MAX] {
        assert_eq!(decimal(n), n.to_string());
    }
    assert_eq!(decimal(1000), "1000");
    assert_eq!(decimal(18446744073709551615), "18446744073709551615");
}

#[test]
fn padded_decimal_fills_with_zeros() {
    assert_eq!(padded_decimal(1, 4), "0001");
    assert_eq!(padded_decimal(0, 4), "0000");
    assert_eq!(padded_decimal(42, 4), "0042");
    assert_eq!(padded_decimal(999, 4), "0999");
    assert_eq!(padded_decimal(1000, 4), "1000");
    assert_eq!(padded_decimal(65535, 4), "65535");
    assert_eq!(padded_decimal(7, 0), "7");
    assert_eq!(padded_decimal(7, 1), "7");
    assert_eq!(padded_decimal(7, 10), "0000000007");
    for n in [0u64, 5, 17, 123, 4660, 99999] {
        assert_eq!(padded_decimal(n, 4), format!("{:04}", n));
        assert_eq!(padded_decimal(n, 4), format!("{:#04}", n));
    }
}

#[test]
fn join_and_chain() {
    assert_eq!(join_path("ca-state", "root"), "ca-state/root");
    assert_eq!(join_path("", "x"), "/x");
    assert_eq!(join_path("a/b", "c.pem"), "a/b/c.pem");
    assert_eq!(chain("stem", ".cert.pem"), "stem.cert.pem");
    assert_eq!(chain("", ""), "");
}
