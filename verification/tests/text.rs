use tokio_otp::text::{
    ascii_lowercase, chars_of, decimal_text, hex_text, joined, same_but_for_case, same_text,
    string_of, without_suffix, wrapped,
};

#[test]
fn texts_are_taken_apart_and_put_together() {
    assert_eq!(chars_of("a\u{e9}\u{1f600}"), vec!['a', '\u{e9}', '\u{1f600}']);
    assert_eq!(string_of(&vec!['x', '\u{e9}']), "x\u{e9}");
    assert_eq!(string_of(&Vec::new()), "");
    assert_eq!(joined("ab", "cd"), "abcd");
    assert_eq!(wrapped("<", "x", ">"), "<x>");
    assert!(same_text("abc", "abc"));
    assert!(!same_text("abc", "abd"));
    assert!(!same_text("abc", "ab"));
}

#[test]
fn numbers_are_written_out() {
    assert_eq!(decimal_text(0), "0");
    assert_eq!(decimal_text(10), "10");
    assert_eq!(decimal_text(907), "907");
    assert_eq!(decimal_text(u128::MAX), u128::MAX.to_string());
    assert_eq!(hex_text(&[]), "");
    assert_eq!(hex_text(&[0x00, 0x9f, 0xff]), "009fff");
}

#[test]
fn letter_case_is_folded_for_ascii_only() {
    assert_eq!(ascii_lowercase("AbZ[@\u{c9}"), "abz[@\u{c9}");
    assert!(same_but_for_case("BEARER", "bearer"));
    assert!(!same_but_for_case("\u{c9}", "\u{e9}"));
    assert!(!same_but_for_case("a", "aa"));
}

#[test]
fn suffixes_are_cut_off() {
    assert_eq!(without_suffix("host:80", ":80"), Some("host".to_owned()));
    assert_eq!(without_suffix(":80", ":80"), Some(String::new()));
    assert_eq!(without_suffix("host:8080", ":80"), None);
    assert_eq!(without_suffix("80", ":80"), None);
}
