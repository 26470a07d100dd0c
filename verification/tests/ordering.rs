use core::cmp::Ordering;
use kroos::lex_cmp;

#[test]
fn lex_cmp_differing_byte_decides() {
    assert_eq!(lex_cmp(b"abc", b"abd"), Ordering::Less);
    assert_eq!(lex_cmp(b"abd", b"abc"), Ordering::Greater);
    assert_eq!(lex_cmp(b"abc", b"abc"), Ordering::Equal);
}

#[test]
fn lex_cmp_prefix_is_less() {
    assert_eq!(lex_cmp(b"ab", b"abc"), Ordering::Less);
    assert_eq!(lex_cmp(b"abc", b"ab"), Ordering::Greater);
}

#[test]
fn lex_cmp_empty_cases() {
    assert_eq!(lex_cmp(b"", b""), Ordering::Equal);
    assert_eq!(lex_cmp(b"", b"a"), Ordering::Less);
    assert_eq!(lex_cmp(b"a", b""), Ordering::Greater);
}

#[test]
fn lex_cmp_first_byte_dominates_length() {
    assert_eq!(lex_cmp(b"b", b"azzz"), Ordering::Greater);
    assert_eq!(lex_cmp(&[0, 255], &[1]), Ordering::Less);
}
