use snapture::text::{
    count_lines, decimal_string, eq_ignore_ascii_case, is_blank, signed_decimal_string, trim,
};

#[test]
fn trims_unicode_white_space_on_both_sides() {
    assert_eq!(trim("  hello world \n"), "hello world");
    assert_eq!(trim("\u{3000}\tx\u{a0}"), "x");
    assert_eq!(trim("inner  space"), "inner  space");
    assert_eq!(trim("   "), "");
    assert_eq!(trim(""), "");
}

#[test]
fn blank_means_only_white_space() {
    assert!(is_blank(""));
    assert!(is_blank(" \n\t\u{2003}"));
    assert!(!is_blank(" a "));
}

#[test]
fn counts_lines_like_str_lines() {
    for text in ["", "a", "a\n", "a\nb", "\n", "\n\n", "a\r\nb\r\n", "x\n\ny"] {
        assert_eq!(count_lines(text), text.lines().count(), "text {text:?}");
    }
}

#[test]
fn ascii_case_folding_matches_std() {
    for (a, b) in [("png", "PNG"), ("PnG", "pNg"), ("png", "pngx"), ("ä", "Ä"), ("", "")] {
        assert_eq!(eq_ignore_ascii_case(a, b), a.eq_ignore_ascii_case(b), "{a} {b}");
    }
}

#[test]
fn renders_numbers_in_decimal() {
    for n in [0u64, 7, 10, 42, 1000, u64::MAX] {
        assert_eq!(decimal_string(n), n.to_string());
    }
    for n in [0i64, -1, -42, 255, i64::MIN, i64::MAX] {
        assert_eq!(signed_decimal_string(n), n.to_string());
    }
}
