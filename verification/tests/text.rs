use d2b_clip_picker::text::{
    chars_of, contains_text, decimal, find_char, is_control, is_space, same_text, signed_decimal,
    text_of, trim,
};

#[test]
fn characters_are_classified_as_unicode_does() {
    for c in '\0'..='\u{3100}' {
        assert_eq!(is_control(c), c.is_control(), "{c:?}");
        assert_eq!(is_space(c), c.is_whitespace(), "{c:?}");
    }
}

#[test]
fn texts_are_compared_and_searched() {
    assert!(same_text("é", "é"));
    assert!(!same_text("e", "é"));
    assert!(contains_text("haystack", "stack"));
    assert!(contains_text("haystack", ""));
    assert!(!contains_text("hay", "haystack"));
    assert!(!contains_text("haystack", "stick"));
    assert_eq!(find_char(&['a', 'b', 'a'], 'b'), 1);
    assert_eq!(find_char(&['a', 'b', 'a'], 'c'), 3);
}

#[test]
fn texts_are_taken_apart_and_put_together() {
    let chars = chars_of("aé\u{1f4dd}");
    assert_eq!(chars, vec!['a', 'é', '\u{1f4dd}']);
    assert_eq!(text_of(&chars), "aé\u{1f4dd}");
    assert_eq!(trim(&[' ', '\t', 'x', ' ', 'y', '\u{a0}']), vec!['x', ' ', 'y']);
    assert_eq!(trim(&[' ', ' ']), Vec::<char>::new());
}

#[test]
fn numbers_are_written_in_decimal() {
    assert_eq!(decimal(0), "0");
    assert_eq!(decimal(18_432), "18432");
    assert_eq!(decimal(u64::MAX), "18446744073709551615");
    assert_eq!(signed_decimal(i32::MIN), "-2147483648");
    assert_eq!(signed_decimal(-1), "-1");
    assert_eq!(signed_decimal(420), "420");
}
