use aec_bridge::text::{
    align_left, align_right, comes_before, contains_text, decimal, eq_ignore_ascii_case, join,
    same_optional_text, same_text, signed_decimal, starts_with, strip_prefix, trim,
};

#[test]
fn numbers_are_written_in_decimal() {
    for number in [0u64, 9, 10, 99, 100, 48_000, u64::MAX] {
        assert_eq!(decimal(number), number.to_string());
    }
    for number in [0i32, -1, 500, i32::MIN, i32::MAX] {
        assert_eq!(signed_decimal(number), number.to_string());
    }
}

#[test]
fn texts_compare_as_the_standard_library_does() {
    let texts = ["", "a", "A", "ab", "b", "\u{e4}", "\u{c4}", "mic", "Mic ", "z"];
    for left in texts {
        for right in texts {
            assert_eq!(same_text(left, right), left == right);
            assert_eq!(comes_before(left, right), left < right);
            assert_eq!(eq_ignore_ascii_case(left, right), left.eq_ignore_ascii_case(right));
            assert_eq!(contains_text(left, right), left.contains(right));
            assert_eq!(starts_with(left, right), left.starts_with(right));
            assert_eq!(strip_prefix(left, right), left.strip_prefix(right));
            assert_eq!(
                same_optional_text(&Some(left.to_owned()), &Some(right.to_owned())),
                left == right
            );
        }
    }
    assert!(same_optional_text(&None, &None));
    assert!(!same_optional_text(&None, &Some(String::new())));
}

#[test]
fn white_space_is_trimmed() {
    for text in ["", " ", "a", "  a b\t", "\u{2003}help\u{a0}", "\n\r x"] {
        assert_eq!(trim(text), text.trim());
    }
}

#[test]
fn exactly_white_space_is_white() {
    let listed = |c: char| {
        matches!(
            c as u32,
            0x9..=0xd | 0x20 | 0x85 | 0xa0 | 0x1680 | 0x2000..=0x200a | 0x2028 | 0x2029 | 0x202f | 0x205f | 0x3000
        )
    };
    for c in '\0'..=char::MAX {
        assert_eq!(c.is_whitespace(), listed(c), "{}", c as u32);
    }
    for c in '\0'..='\u{3100}' {
        assert_eq!(trim(&c.to_string()).is_empty(), listed(c));
    }
}

#[test]
fn texts_are_padded_and_joined() {
    assert_eq!(align_right("1.5", 8), format!("{:>8}", "1.5"));
    assert_eq!(align_right("123456789", 8), "123456789");
    assert_eq!(align_left("handoff", 10), format!("{:<10}", "handoff"));
    assert_eq!(align_left("", 2), "  ");
    assert_eq!(join(&vec![], ", "), "");
    assert_eq!(join(&vec!["a".to_owned(), "b".to_owned()], ", "), "a, b");
}
