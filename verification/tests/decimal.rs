use pidfile::format_decimal;

#[test]
fn zero_is_a_single_digit() {
    assert_eq!(format_decimal(0), b"0".to_vec());
}

#[test]
fn single_digits() {
    assert_eq!(format_decimal(7), b"7".to_vec());
    assert_eq!(format_decimal(9), b"9".to_vec());
}

#[test]
fn powers_of_ten_keep_their_zeros() {
    assert_eq!(format_decimal(10), b"10".to_vec());
    assert_eq!(format_decimal(100), b"100".to_vec());
    assert_eq!(format_decimal(1_000_000_000), b"1000000000".to_vec());
}

#[test]
fn five_digits() {
    assert_eq!(format_decimal(12345), b"12345".to_vec());
    assert_eq!(format_decimal(12345).len(), 5);
}

#[test]
fn largest_value_has_ten_digits() {
    assert_eq!(format_decimal(u32::MAX), b"4294967295".to_vec());
}

#[test]
fn only_digits_and_no_line_end() {
    for n in [0u32, 1, 9, 10, 99, 101, 4242, 65535, 65536, 999_999_999, u32::MAX] {
        let bytes = format_decimal(n);
        assert!(!bytes.is_empty());
        assert!(bytes.iter().all(|b| b.is_ascii_digit()));
        assert!(bytes.len() == 1 || bytes[0] != b'0');
    }
}

#[test]
fn agrees_with_the_standard_formatter() {
    for n in [0u32, 5, 10, 42, 4242, 12345, 70000, 999_999_999, 4_000_000_000, u32::MAX] {
        assert_eq!(format_decimal(n), format!("{}", n).into_bytes());
    }
}

#[test]
fn reads_back_as_the_same_number() {
    for n in [0u32, 8, 19, 4242, 123_456_789, u32::MAX] {
        let text = String::from_utf8(format_decimal(n)).unwrap();
        assert_eq!(text.parse::<u32>().unwrap(), n);
    }
}
