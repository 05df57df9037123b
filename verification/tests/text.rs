//! Decimal text and keys.

use wat_ir::text::parse_usize;
use wat_ir::text::u64_to_string;
use wat_ir::text::usize_to_string;
use wat_ir::validator::try_name_to_index;

#[test]
fn numbers_are_written_in_decimal() {
    assert_eq!(usize_to_string(0), "0");
    assert_eq!(usize_to_string(7), "7");
    assert_eq!(usize_to_string(10), "10");
    assert_eq!(usize_to_string(65536), "65536");
    assert_eq!(usize_to_string(usize::MAX), usize::MAX.to_string());
    assert_eq!(u64_to_string(u64::MAX), "18446744073709551615");
    assert_eq!(u64_to_string(1_000_000_007), "1000000007");
}

#[test]
fn keys_that_are_numbers() {
    assert_eq!(parse_usize("0"), Some(0));
    assert_eq!(parse_usize("42"), Some(42));
    assert_eq!(parse_usize("007"), Some(7));
    assert_eq!(parse_usize("+5"), Some(5));
    assert_eq!(parse_usize(&usize::MAX.to_string()), Some(usize::MAX));
    assert_eq!(parse_usize("000000000000000000000000000000012"), Some(12));
}

#[test]
fn keys_that_are_names() {
    assert_eq!(parse_usize(""), None);
    assert_eq!(parse_usize("+"), None);
    assert_eq!(parse_usize("-1"), None);
    assert_eq!(parse_usize("-0"), None);
    assert_eq!(parse_usize("++1"), None);
    assert_eq!(parse_usize("1+"), None);
    assert_eq!(parse_usize("12a"), None);
    assert_eq!(parse_usize("a12"), None);
    assert_eq!(parse_usize(" 1"), None);
    assert_eq!(parse_usize("1.0"), None);
    assert_eq!(parse_usize("٣"), None);
    assert_eq!(parse_usize("99999999999999999999999999"), None);
    assert_eq!(parse_usize("18446744073709551616"), None);
}

#[test]
fn keys_read_like_the_standard_parser() {
    for key in ["0", "1", "+1", "-1", "", "+", "x", "0x10", "1_000", "00", "4294967296", "18446744073709551615", "١"] {
        assert_eq!(parse_usize(key), key.parse::<usize>().ok(), "key {:?}", key);
    }
}

#[test]
fn written_numbers_read_back() {
    for n in [0usize, 1, 9, 10, 11, 99, 100, 12345, usize::MAX - 1, usize::MAX] {
        assert_eq!(parse_usize(&usize_to_string(n)), Some(n));
    }
}

#[test]
fn name_to_index() {
    assert_eq!(try_name_to_index("3"), Ok(3));
    assert_eq!(try_name_to_index("three"), Err("three"));
    assert_eq!(try_name_to_index(""), Err(""));
}
