use loft::text::{bytes_contain, bytes_end_with, bytes_eq, bytes_match_at, decimal, str_eq};

#[test]
fn decimal_writes_numbers_without_leading_zeros() {
    assert_eq!(decimal(0), "0");
    assert_eq!(decimal(7), "7");
    assert_eq!(decimal(10), "10");
    assert_eq!(decimal(1_048_576), "1048576");
    assert_eq!(decimal(u64::MAX), "18446744073709551615");
    for n in [0u64, 9, 10, 99, 100, 101, 12345, 4294967295, 1 << 40] {
        assert_eq!(decimal(n), n.to_string());
    }
}

#[test]
fn strings_and_bytes_are_compared_exactly() {
    assert!(str_eq("", ""));
    assert!(str_eq("ready", "ready"));
    assert!(!str_eq("ready", "Ready"));
    assert!(!str_eq("ready", "read"));
    assert!(str_eq("é", "é"));
    assert!(bytes_eq(&[1, 2], &[1, 2]));
    assert!(!bytes_eq(&[1, 2], &[1, 3]));
    assert!(!bytes_eq(&[1, 2], &[1]));
}

#[test]
fn bytes_are_searched() {
    assert!(bytes_contain(b"google-chrome", b"chrome"));
    assert!(bytes_contain(b"chrome", b"chrome"));
    assert!(bytes_contain(b"abc", b""));
    assert!(bytes_contain(b"", b""));
    assert!(!bytes_contain(b"chrom", b"chrome"));
    assert!(!bytes_contain(b"chr-ome", b"chrome"));
    assert!(bytes_end_with(b"x.appimage", b".appimage"));
    assert!(!bytes_end_with(b"x.appimage ", b".appimage"));
    assert!(bytes_end_with(b"x", b""));
    assert!(bytes_match_at(b"abcd", b"bc", 1));
    assert!(!bytes_match_at(b"abcd", b"bc", 2));
}
