use narrator::text::{chars_eq, chars_of, occurs_at_exec, parse_decimal, string_of, text_eq};

#[test]
fn chars_and_strings_convert_both_ways() {
    assert_eq!(chars_of("aあ😀"), vec!['a', 'あ', '😀']);
    assert_eq!(string_of(&vec!['a', 'あ', '😀']), "aあ😀");
    assert_eq!(chars_of(""), Vec::<char>::new());
    assert_eq!(string_of(&vec![]), "");
}

#[test]
fn texts_are_equal_when_their_characters_are() {
    assert!(text_eq("abc", "abc"));
    assert!(text_eq("", ""));
    assert!(!text_eq("abc", "abd"));
    assert!(!text_eq("abc", "ab"));
    assert!(!text_eq("ab", "abc"));
    assert!(chars_eq(&vec!['x'], &vec!['x']));
    assert!(!chars_eq(&vec!['x'], &vec!['y']));
}

#[test]
fn occurrence_is_checked_at_the_given_position() {
    let text = chars_of("hello");
    assert!(occurs_at_exec(&text, 0, &chars_of("he")));
    assert!(occurs_at_exec(&text, 3, &chars_of("lo")));
    assert!(occurs_at_exec(&text, 5, &chars_of("")));
    assert!(!occurs_at_exec(&text, 6, &chars_of("")));
    assert!(!occurs_at_exec(&text, 4, &chars_of("lo")));
    assert!(!occurs_at_exec(&text, 1, &chars_of("he")));
    assert!(!occurs_at_exec(&text, 0, &chars_of("hello!")));
}

#[test]
fn decimal_numerals_are_read() {
    assert_eq!(parse_decimal("0"), Some(0));
    assert_eq!(parse_decimal("42"), Some(42));
    assert_eq!(parse_decimal("007"), Some(7));
    assert_eq!(parse_decimal("18446744073709551615"), Some(u64::MAX));
}

#[test]
fn what_is_no_numeral_is_not_read() {
    assert_eq!(parse_decimal(""), None);
    assert_eq!(parse_decimal("-1"), None);
    assert_eq!(parse_decimal("+1"), None);
    assert_eq!(parse_decimal("1 "), None);
    assert_eq!(parse_decimal("1a"), None);
    assert_eq!(parse_decimal("１２"), None);
}

#[test]
fn numerals_beyond_64_bits_are_not_read() {
    assert_eq!(parse_decimal("18446744073709551616"), None);
    assert_eq!(parse_decimal("99999999999999999999999"), None);
    assert_eq!(parse_decimal("000018446744073709551615"), Some(u64::MAX));
}
