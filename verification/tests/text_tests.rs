use gnostic::text::{chars_of, cut_text, decimal_text, signed_decimal_text, split_text, text_of};

#[test]
fn decimal_text_renders_numbers() {
    assert_eq!(decimal_text(0), "0");
    assert_eq!(decimal_text(7), "7");
    assert_eq!(decimal_text(10), "10");
    assert_eq!(decimal_text(1234567890), "1234567890");
    assert_eq!(decimal_text(u64::MAX), "18446744073709551615");
}

#[test]
fn signed_decimal_text_renders_signs() {
    assert_eq!(signed_decimal_text(0), "0");
    assert_eq!(signed_decimal_text(-1), "-1");
    assert_eq!(signed_decimal_text(42), "42");
    assert_eq!(signed_decimal_text(i64::MAX), "9223372036854775807");
    assert_eq!(signed_decimal_text(i64::MIN), "-9223372036854775808");
}

#[test]
fn cut_text_cuts_at_the_first_occurrence() {
    assert_eq!(cut_text("a#b#c", '#'), ("a".to_string(), Some("b#c".to_string())));
    assert_eq!(cut_text("#x", '#'), (String::new(), Some("x".to_string())));
    assert_eq!(cut_text("x#", '#'), ("x".to_string(), Some(String::new())));
    assert_eq!(cut_text("plain", '#'), ("plain".to_string(), None));
    assert_eq!(cut_text("", '#'), (String::new(), None));
}

#[test]
fn split_text_gives_one_piece_more_than_separators() {
    assert_eq!(split_text("", '/'), vec![""]);
    assert_eq!(split_text("/", '/'), vec!["", ""]);
    assert_eq!(split_text("/defs/Widget", '/'), vec!["", "defs", "Widget"]);
    assert_eq!(split_text("a//b/", '/'), vec!["a", "", "b", ""]);
    assert_eq!(split_text("no separators", '/'), vec!["no separators"]);
}

#[test]
fn chars_and_text_of_handle_wide_characters() {
    let chars = chars_of("aé€😀");
    assert_eq!(chars, vec!['a', 'é', '€', '😀']);
    assert_eq!(text_of(&chars, 1, 3), "é€");
    assert_eq!(text_of(&chars, 0, 4), "aé€😀");
    assert_eq!(text_of(&chars, 2, 2), "");
}
