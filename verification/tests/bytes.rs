use careful_resume::bytes::{format_u64, parse_u64, same_bytes};

#[test]
fn byte_strings_are_compared_whole() {
    assert!(same_bytes(b"", b""));
    assert!(same_bytes(b"GET", b"GET"));
    assert!(!same_bytes(b"GET", b"GE"));
    assert!(!same_bytes(b"GET", b"GEt"));
}

#[test]
fn numbers_are_read_as_the_standard_library_reads_them() {
    let texts = [
        "", "+", "-", "+-1", "++1", "0", "7", "+7", "-0", "0042", "1048576", " 1", "1 ", "1a", "a1",
        "18446744073709551615", "+18446744073709551615", "18446744073709551616",
        "18446744073709551625", "99999999999999999999", "000000000000000000000000000000000001",
        "184467440737095516150", "1_000", "0x10",
    ];
    for text in texts {
        assert_eq!(parse_u64(text.as_bytes()), text.parse::<u64>().ok(), "{text:?}");
        assert_eq!(parse_u64(text.as_bytes()), u64::from_str_radix(text, 10).ok(), "{text:?}");
    }
}

#[test]
fn bytes_that_are_no_text_are_no_number() {
    assert_eq!(parse_u64(&[0x31, 0xff]), None);
    assert_eq!(parse_u64("\u{0661}".as_bytes()), None);
}

#[test]
fn numbers_are_written_as_the_standard_library_writes_them() {
    for n in [0, 1, 9, 10, 99, 100, 1_048_576, 1_073_741_824, u64::MAX] {
        assert_eq!(format_u64(n), n.to_string().into_bytes());
    }
}

#[test]
fn a_written_number_is_read_back() {
    for n in [0, 5, 10, 65_535, u64::MAX - 1, u64::MAX] {
        assert_eq!(parse_u64(&format_u64(n)), Some(n));
    }
}
