use discord2::decimal::{parse_u64, u64_to_string};
use discord2::text::{join, obscure, str_eq};
use discord2::time::DateTime;
use discord2::visitor::StringOrInteger;
use discord2::wire::{DecodeError, Primitive};

#[test]
fn obscure_shows_length_only() {
    assert_eq!(obscure(""), "");
    assert_eq!(obscure("secret"), "******");
    assert_eq!(obscure("é"), "**");
    assert_eq!(obscure("*"), "*");
}

#[test]
fn join_puts_between() {
    assert_eq!(join(&vec![], "&"), "");
    assert_eq!(join(&vec!["a".to_owned()], "&"), "a");
    assert_eq!(join(&vec!["a".to_owned(), "b".to_owned()], "&"), "a&b");
    assert_eq!(join(&vec!["a".to_owned(), String::new(), "c".to_owned()], ", "), "a, , c");
    assert_eq!(join(&vec![String::new(), String::new()], "-"), "-");
}

#[test]
fn str_eq_is_equality() {
    assert!(str_eq("", ""));
    assert!(str_eq("NEWS", "NEWS"));
    assert!(!str_eq("NEWS", "NEW"));
    assert!(!str_eq("NEWS", "NEWT"));
    assert!(!str_eq("é", "e"));
    assert!(str_eq("é", "é"));
}

#[test]
fn decimal_text() {
    for n in [0u64, 5, 9, 10, 11, 99, 100, 101, 1420070400000, u64::MAX - 1, u64::MAX] {
        assert_eq!(u64_to_string(n), n.to_string());
        assert_eq!(parse_u64(&u64_to_string(n)), Some(n));
    }
    for txt in ["0", "00", "+0", "+00017", "18446744073709551615", "+18446744073709551615", "000000000000000000000000000001"] {
        assert_eq!(parse_u64(txt), txt.parse::<u64>().ok());
        assert!(parse_u64(txt).is_some());
    }
    for txt in ["", "+", "++1", "+-1", "-0", "1 ", " 1", "1_0", "0x10", "1e3", "1.0", "18446744073709551616", "99999999999999999999", "１２", "1\u{0}"] {
        assert_eq!(parse_u64(txt), None);
        assert!(txt.parse::<u64>().is_err());
    }
}

#[test]
fn visitor_takes_text_and_integers() {
    let v = StringOrInteger;
    assert_eq!(v.visit_str("123456799"), Ok(123456799));
    assert_eq!(v.visit_string("123456799".to_owned()), Ok(123456799));
    assert_eq!(v.visit_str("abc"), Err(DecodeError::InvalidFormat));
    assert_eq!(v.visit_i8(-1), Err(DecodeError::InvalidFormat));
    assert_eq!(v.visit_i8(i8::MAX), Ok(127));
    assert_eq!(v.visit_i16(-1), Err(DecodeError::InvalidFormat));
    assert_eq!(v.visit_i16(i16::MAX), Ok(32767));
    assert_eq!(v.visit_i32(i32::MIN), Err(DecodeError::InvalidFormat));
    assert_eq!(v.visit_i32(i32::MAX), Ok(2147483647));
    assert_eq!(v.visit_i64(i64::MIN), Err(DecodeError::InvalidFormat));
    assert_eq!(v.visit_i64(i64::MAX), Ok(9223372036854775807));
    assert_eq!(v.visit_i64(0), Ok(0));
    assert_eq!(v.visit_u8(u8::MAX), Ok(255));
    assert_eq!(v.visit_u16(u16::MAX), Ok(65535));
    assert_eq!(v.visit_u32(u32::MAX), Ok(4294967295));
    assert_eq!(v.visit_u64(u64::MAX), Ok(u64::MAX));
    assert_eq!(v.visit(&Primitive::Text("7".to_owned())), Ok(7));
    assert_eq!(v.visit(&Primitive::Unsigned(7)), Ok(7));
    assert_eq!(v.visit(&Primitive::Signed(7)), Ok(7));
    assert_eq!(v.visit(&Primitive::Signed(-7)), Err(DecodeError::InvalidFormat));
    assert_eq!(v.visit(&Primitive::Null), Err(DecodeError::TypeMismatch));
    assert_eq!(v.visit(&Primitive::Bool(true)), Err(DecodeError::TypeMismatch));
    assert_eq!(v.visit(&Primitive::Composite), Err(DecodeError::TypeMismatch));
}

#[test]
fn date_time_in_milliseconds() {
    let t = DateTime::from_timestamp_millis(1462015105796);
    assert_eq!(t, DateTime { seconds: 1462015105, nanos: 796_000_000, offset_seconds: 0 });
    assert_eq!(t.timestamp_millis(), 1462015105796);
    assert_eq!(DateTime::from_timestamp_millis(0).timestamp_millis(), 0);
    assert_eq!(DateTime::from_timestamp_millis(999), DateTime { seconds: 0, nanos: 999_000_000, offset_seconds: 0 });
    let t = DateTime { seconds: -1, nanos: 999_999_999, offset_seconds: -3600 };
    assert_eq!(t.timestamp_millis(), -1);
    let t = DateTime { seconds: 10, nanos: 1_500_000_000, offset_seconds: 0 };
    assert_eq!(t.timestamp_millis(), 11_500);
    let t = DateTime { seconds: i64::MAX, nanos: u32::MAX, offset_seconds: 0 };
    assert_eq!(t.timestamp_millis(), (i64::MAX as i128) * 1000 + 4294);
    let t = DateTime { seconds: i64::MIN, nanos: 0, offset_seconds: 0 };
    assert_eq!(t.timestamp_millis(), (i64::MIN as i128) * 1000);
    let t = DateTime::from_timestamp_millis(u64::MAX);
    assert_eq!(t.seconds, (u64::MAX / 1000) as i64);
    assert_eq!(t.nanos, 615_000_000);
}
