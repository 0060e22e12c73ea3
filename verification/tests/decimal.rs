use omnikv::decimal::{i64_to_decimal, parse_i64, parse_u16, u64_to_decimal};

#[test]
fn formats_like_to_string() {
    for x in [0i64, 7, -7, 10, 123456, -1000, i64::MAX, i64::MIN] {
        assert_eq!(i64_to_decimal(x), x.to_string());
    }
    for x in [0u64, 9, 10, 99, 100, u64::MAX] {
        assert_eq!(u64_to_decimal(x), x.to_string());
    }
}

#[test]
fn parses_like_std_i64() {
    let cases = [
        "0", "42", "-42", "+42", "", "-", "+", "--1", "+-1", "-+1", "1a", " 1", "007",
        "9223372036854775807", "9223372036854775808", "-9223372036854775808",
        "-9223372036854775809", "99999999999999999999999", "١٢",
    ];
    for c in cases {
        assert_eq!(parse_i64(c), c.parse::<i64>().ok(), "input {:?}", c);
    }
}

#[test]
fn parses_like_std_u16() {
    let cases = ["0", "3", "+3", "-3", "", "+", "65535", "65536", "00012", "x1", "1 "];
    for c in cases {
        assert_eq!(parse_u16(c), c.parse::<u16>().ok(), "input {:?}", c);
    }
}

#[test]
fn i64_round_trip() {
    for x in [0i64, 1, -1, 5000, -5000, i64::MAX, i64::MIN] {
        assert_eq!(parse_i64(&i64_to_decimal(x)), Some(x));
    }
}

#[test]
fn u16_round_trip() {
    for x in [0u16, 1, 8001, u16::MAX] {
        assert_eq!(parse_u16(&u64_to_decimal(x as u64)), Some(x));
    }
}

