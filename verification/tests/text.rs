use tunnel_lifecycle::text::{
    decimal_string, has_prefix, lower_char, push_decimal, replace_all, to_ascii_lowercase,
};

#[test]
fn lowering_changes_ascii_capitals_only() {
    assert_eq!(to_ascii_lowercase("MyBox-01_Z"), "mybox-01_z");
    assert_eq!(to_ascii_lowercase("\u{c9}COLE"), "\u{c9}cole");
    assert_eq!(to_ascii_lowercase(""), "");
    assert_eq!(lower_char('A'), 'a');
    assert_eq!(lower_char('Z'), 'z');
    assert_eq!(lower_char('@'), '@');
    assert_eq!(lower_char('['), '[');
}

#[test]
fn lowering_agrees_with_the_standard_library() {
    for s in ["Hello World", "ABCxyz123", "\u{df}\u{e9}\u{c9}", "A-Z_a-z"] {
        assert_eq!(to_ascii_lowercase(s), s.to_ascii_lowercase());
    }
}

#[test]
fn numerals_have_no_leading_zeros() {
    assert_eq!(decimal_string(0), "0");
    assert_eq!(decimal_string(7), "7");
    assert_eq!(decimal_string(10), "10");
    assert_eq!(decimal_string(31545), "31545");
    assert_eq!(decimal_string(u32::MAX), "4294967295");
}

#[test]
fn a_numeral_is_appended_to_what_is_there() {
    let mut s = String::from("pv=");
    push_decimal(&mut s, 12);
    assert_eq!(s, "pv=12");
}

#[test]
fn prefixes_are_recognised() {
    assert!(has_prefix("pv=3", "pv="));
    assert!(has_prefix("pv=", "pv="));
    assert!(has_prefix("anything", ""));
    assert!(!has_prefix("pv", "pv="));
    assert!(!has_prefix("xpv=3", "pv="));
    assert!(!has_prefix("", "p"));
}

#[test]
fn every_occurrence_is_replaced() {
    assert_eq!(
        replace_all("https://host-{port}.example/{port}", "{port}", "8080"),
        "https://host-8080.example/8080"
    );
    assert_eq!(replace_all("no token here", "{port}", "1"), "no token here");
    assert_eq!(replace_all("aaaa", "aa", "b"), "bb");
    assert_eq!(replace_all("aaa", "aa", "b"), "ba");
    assert_eq!(replace_all("", "a", "b"), "");
    assert_eq!(replace_all("abc", "abc", ""), "");
}

#[test]
fn an_empty_pattern_occurs_nowhere() {
    assert_eq!(replace_all("abc", "", "x"), "abc");
}

#[test]
fn replacing_agrees_with_the_standard_library() {
    for (s, from, to) in [
        ("{port}{port}", "{port}", "9"),
        ("x{port", "{port}", "9"),
        ("{{port}}", "{port}", "{port}"),
        ("abcabcab", "abc", "ab"),
    ] {
        assert_eq!(replace_all(s, from, to), s.replace(from, to));
    }
}
