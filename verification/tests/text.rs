use havoc::text::{find, from_chars, parse_u32, str_eq, to_chars, u32_to_string, u64_to_string};

#[test]
fn characters_round_trip() {
    let chars = to_chars("h\u{e9}llo");
    assert_eq!(chars, vec!['h', '\u{e9}', 'l', 'l', 'o']);
    assert_eq!(from_chars(&chars, 1, 4), "\u{e9}ll");
    assert_eq!(from_chars(&chars, 2, 2), "");
    assert!(str_eq("abc", "abc"));
    assert!(!str_eq("abc", "abd"));
}

#[test]
fn find_returns_the_first_occurrence() {
    let hay = to_chars("abcabcabc");
    assert_eq!(find(&hay, &to_chars("bc")), Some(1));
    assert_eq!(find(&hay, &to_chars("abc")), Some(0));
    assert_eq!(find(&hay, &to_chars("cab")), Some(2));
    assert_eq!(find(&hay, &to_chars("abcabcabc")), Some(0));
    assert_eq!(find(&hay, &to_chars("")), Some(0));
    assert_eq!(find(&hay, &to_chars("abd")), None);
    assert_eq!(find(&hay, &to_chars("abcabcabca")), None);
    assert_eq!(find(&to_chars(""), &to_chars("")), Some(0));
    assert_eq!(find(&to_chars(""), &to_chars("a")), None);
    assert_eq!(find(&to_chars("xxab"), &to_chars("ab")), Some(2));
}

#[test]
fn decimal_numerals_are_read() {
    assert_eq!(parse_u32("0"), Some(0));
    assert_eq!(parse_u32("42"), Some(42));
    assert_eq!(parse_u32("007"), Some(7));
    assert_eq!(parse_u32("4294967295"), Some(u32::MAX));
    assert_eq!(parse_u32("4294967296"), None);
    assert_eq!(parse_u32("99999999999999999999"), None);
    assert_eq!(parse_u32(""), None);
    assert_eq!(parse_u32("+1"), None);
    assert_eq!(parse_u32("-1"), None);
    assert_eq!(parse_u32("1a"), None);
    assert_eq!(parse_u32("\u{661}\u{662}"), None);
}

#[test]
fn numbers_are_written_in_base_ten() {
    assert_eq!(u32_to_string(0), "0");
    assert_eq!(u32_to_string(7), "7");
    assert_eq!(u32_to_string(10), "10");
    assert_eq!(u32_to_string(4294967295), "4294967295");
    assert_eq!(u64_to_string(18446744073709551615), "18446744073709551615");
    for n in [0u32, 1, 9, 10, 99, 100, 12345, 1000000, u32::MAX] {
        assert_eq!(u32_to_string(n), n.to_string());
        assert_eq!(parse_u32(&u32_to_string(n)), Some(n));
    }
}
