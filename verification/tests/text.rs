use perceptia::text::{digit, integer, natural};

#[test]
fn digits_are_the_decimal_digits() {
    let all: Vec<&str> = (0..10).map(digit).collect();
    assert_eq!(all, vec!["0", "1", "2", "3", "4", "5", "6", "7", "8", "9"]);
}

#[test]
fn naturals_are_written_as_the_standard_library_writes_them() {
    for number in [0, 1, 9, 10, 11, 99, 100, 101, 4096, 65535, 1_000_000, u64::MAX] {
        assert_eq!(natural(number), format!("{}", number));
    }
    assert_eq!(natural(42), "42");
    assert_eq!(natural(u64::MAX), "18446744073709551615");
}

#[test]
fn integers_are_written_with_their_sign() {
    for number in [0, 1, -1, 9, -9, 10, -10, -16, 12345, -12345, i64::MAX, i64::MIN] {
        assert_eq!(integer(number), format!("{}", number));
    }
    assert_eq!(integer(-16), "-16");
    assert_eq!(integer(i64::MIN), "-9223372036854775808");
}
