use kfs::string::{kfs_string_helpers_marker, strcmp, strlen};

#[test]
fn strlen_empty_string() {
    let input = [0u8];
    let len = strlen(&input);
    assert_eq!(len, 0);
}

#[test]
fn strlen_regular_string() {
    let input = *b"kernel\0";
    let len = strlen(&input);
    assert_eq!(len, 6);
}

#[test]
fn strcmp_equal_strings() {
    let lhs = *b"42\0";
    let rhs = *b"42\0";
    let cmp = strcmp(&lhs, &rhs);
    assert_eq!(cmp, 0);
}

#[test]
fn strcmp_lexicographic_less() {
    let lhs = *b"abc\0";
    let rhs = *b"abd\0";
    let cmp = strcmp(&lhs, &rhs);
    assert!(cmp < 0);
}

#[test]
fn strcmp_lexicographic_greater() {
    let lhs = *b"abe\0";
    let rhs = *b"abd\0";
    let cmp = strcmp(&lhs, &rhs);
    assert!(cmp > 0);
}

#[test]
fn strcmp_prefix() {
    let lhs = *b"ab\0";
    let rhs = *b"abc\0";
    let cmp = strcmp(&lhs, &rhs);
    assert!(cmp < 0);
}

#[test]
fn strlen_stops_at_first_zero() {
    let input = *b"ab\0cd\0";
    assert_eq!(strlen(&input), 2);
}

#[test]
fn strcmp_returns_byte_difference() {
    assert_eq!(strcmp(b"abc\0", b"abd\0"), -1);
    assert_eq!(strcmp(b"abe\0", b"abc\0"), 2);
    assert_eq!(strcmp(b"abc\0", b"ab\0"), i32::from(b'c'));
}

#[test]
fn strcmp_widens_extreme_bytes() {
    assert_eq!(strcmp(&[0xFFu8, 0u8], &[0u8]), 255);
    assert_eq!(strcmp(&[0u8], &[0xFFu8, 0u8]), -255);
}

#[test]
fn strcmp_ignores_bytes_after_terminators() {
    assert_eq!(strcmp(b"xy\0abc", b"xy\0zz"), 0);
}

#[test]
fn strcmp_with_itself_is_zero() {
    let s = *b"kernel\0";
    assert_eq!(strcmp(&s, &s), 0);
}

#[test]
fn string_marker_value() {
    assert_eq!(kfs_string_helpers_marker(), 0);
}
