use nbt_compress::number::parse_integer;

#[test]
fn plain_digits_are_read() {
    assert_eq!(parse_integer(b"0"), Some(0));
    assert_eq!(parse_integer(b"7"), Some(7));
    assert_eq!(parse_integer(b"50"), Some(50));
    assert_eq!(parse_integer(b"20000"), Some(20000));
}

#[test]
fn leading_zeros_are_accepted() {
    assert_eq!(parse_integer(b"007"), Some(7));
    assert_eq!(parse_integer(b"00000000000000000000000000000000012"), Some(12));
    assert_eq!(parse_integer(b"-000"), Some(0));
}

#[test]
fn one_sign_is_accepted() {
    assert_eq!(parse_integer(b"+5"), Some(5));
    assert_eq!(parse_integer(b"-5"), Some(-5));
    assert_eq!(parse_integer(b"-1"), Some(-1));
}

#[test]
fn more_than_one_sign_is_refused() {
    assert_eq!(parse_integer(b"++5"), None);
    assert_eq!(parse_integer(b"--5"), None);
    assert_eq!(parse_integer(b"+-5"), None);
    assert_eq!(parse_integer(b"5-"), None);
}

#[test]
fn text_without_digits_is_refused() {
    assert_eq!(parse_integer(b""), None);
    assert_eq!(parse_integer(b"+"), None);
    assert_eq!(parse_integer(b"-"), None);
}

#[test]
fn other_bytes_are_refused() {
    assert_eq!(parse_integer(b"12a"), None);
    assert_eq!(parse_integer(b"a12"), None);
    assert_eq!(parse_integer(b" 12"), None);
    assert_eq!(parse_integer(b"12 "), None);
    assert_eq!(parse_integer(b"1_000"), None);
    assert_eq!(parse_integer(b"1.5"), None);
    assert_eq!(parse_integer(b"0x10"), None);
    assert_eq!(parse_integer(b"/"), None);
    assert_eq!(parse_integer(b":"), None);
    assert_eq!(parse_integer("\u{0663}".as_bytes()), None);
}

#[test]
fn the_range_is_that_of_i32() {
    assert_eq!(parse_integer(b"2147483647"), Some(i32::MAX));
    assert_eq!(parse_integer(b"+2147483647"), Some(i32::MAX));
    assert_eq!(parse_integer(b"2147483648"), None);
    assert_eq!(parse_integer(b"-2147483648"), Some(i32::MIN));
    assert_eq!(parse_integer(b"-2147483649"), None);
    assert_eq!(parse_integer(b"4294967296"), None);
    assert_eq!(parse_integer(b"18446744073709551616"), None);
    assert_eq!(parse_integer(b"99999999999999999999999999999999999999999"), None);
    assert_eq!(parse_integer(b"-99999999999999999999999999999999999999999"), None);
}

#[test]
fn parse_integer_agrees_with_std() {
    let texts = [
        "", "0", "1", "-1", "+1", "10", "-10", "+", "-", "1a", "2147483647", "2147483648",
        "-2147483648", "-2147483649", "000123", "12345678901", "+-1", " 1", "1 ",
    ];
    for text in texts {
        assert_eq!(parse_integer(text.as_bytes()), text.parse::<i32>().ok(), "{:?}", text);
    }
}
