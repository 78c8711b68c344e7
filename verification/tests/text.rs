use isupipe::text::{decimal, to_lower_hex};

#[test]
fn integers_are_written_in_decimal() {
    assert_eq!(decimal(0), "0");
    assert_eq!(decimal(7), "7");
    assert_eq!(decimal(10), "10");
    assert_eq!(decimal(1_700_874_000), "1700874000");
    assert_eq!(decimal(-1), "-1");
    assert_eq!(decimal(-120), "-120");
    assert_eq!(decimal(i64::MAX), "9223372036854775807");
    assert_eq!(decimal(i64::MIN), "-9223372036854775808");
}

#[test]
fn decimal_text_agrees_with_the_standard_library() {
    for value in [-1_000_001i64, -99, -10, -9, 9, 99, 100, 101, 65_536, 4_294_967_296] {
        assert_eq!(decimal(value), value.to_string());
    }
}

#[test]
fn bytes_are_written_in_lower_case_hexadecimal() {
    assert_eq!(to_lower_hex(&Vec::new()), "");
    assert_eq!(to_lower_hex(&vec![0]), "00");
    assert_eq!(to_lower_hex(&vec![0x0f, 0xf0, 0xab, 0x09]), "0ff0ab09");
    assert_eq!(to_lower_hex(&vec![0xde, 0xad, 0xbe, 0xef, 0xff]), "deadbeefff");
}
