use compact_bytes::order::bytes_equal;
use compact_bytes::order::lex_cmp_bytes;
use std::cmp::Ordering;

#[test]
fn lex_cmp_first_difference_decides() {
    assert_eq!(lex_cmp_bytes(&[1, 2], &[1, 3]), Ordering::Less);
    assert_eq!(lex_cmp_bytes(&[1, 3], &[1, 2]), Ordering::Greater);
    assert_eq!(lex_cmp_bytes(b"abc", b"abd"), Ordering::Less);
}

#[test]
fn lex_cmp_prefix_comes_first() {
    assert_eq!(lex_cmp_bytes(&[1], &[1, 0]), Ordering::Less);
    assert_eq!(lex_cmp_bytes(&[1, 0], &[1]), Ordering::Greater);
    assert_eq!(lex_cmp_bytes(b"", b"a"), Ordering::Less);
}

#[test]
fn lex_cmp_equal_contents() {
    assert_eq!(lex_cmp_bytes(b"", b""), Ordering::Equal);
    assert_eq!(lex_cmp_bytes(b"same", b"same"), Ordering::Equal);
}

#[test]
fn bytes_equal_compares_content() {
    assert!(bytes_equal(b"", b""));
    assert!(bytes_equal(b"abc", b"abc"));
    assert!(!bytes_equal(b"abc", b"abd"));
    assert!(!bytes_equal(b"abc", b"abcd"));
}
