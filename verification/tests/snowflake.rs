use chrono::{TimeZone, Utc};

use discord2::snowflake::{AnyId, Id, Snowflake, EPOCH};
use discord2::time::DateTime;
use discord2::wire::{DecodeError, Primitive};

use std::collections::hash_map::DefaultHasher;
use std::hash::{Hash, Hasher};
use std::str::FromStr;

#[allow(non_snake_case)]
fn TestSnowflake(raw: u64) -> AnyId {
    AnyId::from_raw(raw)
}

#[derive(Debug)]
struct Sample;

type SampleId = Id<Sample>;

const EXAMPLE: u64 = 0b0000001001110001000001100101101011000001000000100000000000000111;

fn date_time(dt: chrono::DateTime<Utc>) -> DateTime {
    DateTime {
        seconds: dt.timestamp(),
        nanos: dt.timestamp_subsec_nanos(),
        offset_seconds: 0,
    }
}

#[test]
fn increment() {
    let s = TestSnowflake(EXAMPLE);
    assert_eq!(s.increment(), 0b111);
}

#[test]
fn process_id() {
    let s = TestSnowflake(EXAMPLE);
    assert_eq!(s.process_id(), 0);
}

#[test]
fn worker_id() {
    let s = TestSnowflake(EXAMPLE);
    assert_eq!(s.worker_id(), 1);
}

#[test]
fn timestamp() {
    let s = TestSnowflake(EXAMPLE);
    let expected = Utc.with_ymd_and_hms(2016, 4, 30, 11, 18, 25).unwrap()
        + chrono::Duration::milliseconds(796);
    assert_eq!(s.timestamp(), date_time(expected));
}

#[test]
fn from_date_time() {
    let expected = Utc.with_ymd_and_hms(2016, 4, 30, 11, 18, 25).unwrap()
        + chrono::Duration::milliseconds(796);
    let s = AnyId::from_date_time(date_time(expected)).unwrap();
    assert_eq!(s.timestamp(), date_time(expected));
}

#[test]
fn deserialize_string() {
    let id = SampleId::deserialize(&Primitive::Text("123456799".to_owned())).unwrap();
    assert_eq!(id, SampleId::from(123456799));
}

#[test]
fn deserialize_integer() {
    let id = SampleId::deserialize(&Primitive::Unsigned(123456799)).unwrap();
    assert_eq!(id, SampleId::from(123456799));
}

#[test]
fn known_identifier_fields() {
    let id = AnyId::from(175928847299117063);
    assert_eq!(u64::from(id), EXAMPLE);
    let at = id.timestamp();
    assert_eq!(at.seconds * 1000 + i64::from(at.nanos / 1_000_000), 1462015105796);
    assert_eq!(at, DateTime { seconds: 1462015105, nanos: 796_000_000, offset_seconds: 0 });
    assert_eq!(id.worker_id(), 1);
    assert_eq!(id.process_id(), 0);
    assert_eq!(id.increment(), 7);

    let id = AnyId::from(41771983423143937);
    let at = id.timestamp();
    assert_eq!(at, DateTime { seconds: 1430029616, nanos: 934_000_000, offset_seconds: 0 });
    assert_eq!(id.worker_id(), 0);
    assert_eq!(id.process_id(), 0);
    assert_eq!(id.increment(), 1);
}

#[test]
fn text_round_trip() {
    for n in [0u64, 1, 9, 10, 99, 100, 41771983423143937, u64::MAX] {
        let id = AnyId::from(n);
        assert_eq!(id.to_string(), n.to_string());
        assert_eq!(id.to_string().parse::<u64>().unwrap(), n);
        assert_eq!(AnyId::from_str(&n.to_string()).unwrap(), id);
    }
}

#[test]
fn parse_rejects_what_is_no_number() {
    for txt in ["", "+", "-1", "12a", " 12", "18446744073709551616", "١٢٣"] {
        assert_eq!(AnyId::parse(txt), Err(DecodeError::InvalidFormat));
        assert!(txt.parse::<u64>().is_err());
    }
    assert_eq!(AnyId::parse("+007"), Ok(AnyId::from(7)));
    assert_eq!("+007".parse::<u64>().unwrap(), 7);
    assert_eq!(AnyId::parse("18446744073709551615"), Ok(AnyId::from(u64::MAX)));
}

#[test]
fn decode_refuses_other_kinds() {
    assert_eq!(SampleId::deserialize(&Primitive::Null), Err(DecodeError::TypeMismatch));
    assert_eq!(SampleId::deserialize(&Primitive::Bool(true)), Err(DecodeError::TypeMismatch));
    assert_eq!(SampleId::deserialize(&Primitive::Composite), Err(DecodeError::TypeMismatch));
    assert_eq!(SampleId::deserialize(&Primitive::Signed(-5)), Err(DecodeError::InvalidFormat));
    assert_eq!(SampleId::deserialize(&Primitive::Signed(5)), Ok(SampleId::from(5)));
    assert_eq!(
        SampleId::deserialize(&Primitive::Text("x".to_owned())),
        Err(DecodeError::InvalidFormat)
    );
}

#[test]
fn encode_is_text() {
    assert_eq!(SampleId::from(123456799).serialize(), Primitive::Text("123456799".to_owned()));
}

#[test]
fn from_date_time_limits() {
    let before = DateTime { seconds: (EPOCH / 1000) as i64 - 1, nanos: 999_999_999, offset_seconds: 0 };
    assert_eq!(AnyId::from_date_time(before), None);
    let at = DateTime { seconds: (EPOCH / 1000) as i64, nanos: 0, offset_seconds: 0 };
    assert_eq!(AnyId::from_date_time(at), Some(AnyId::from(0)));
    let one = DateTime { seconds: (EPOCH / 1000) as i64, nanos: 1_999_999, offset_seconds: 3600 };
    assert_eq!(AnyId::from_date_time(one), Some(AnyId::from(1 << 22)));
    let last_ms = EPOCH + (1u64 << 42) - 1;
    let last = DateTime {
        seconds: (last_ms / 1000) as i64,
        nanos: ((last_ms % 1000) * 1_000_000) as u32,
        offset_seconds: 0,
    };
    assert_eq!(AnyId::from_date_time(last), Some(AnyId::from(((1u64 << 42) - 1) << 22)));
    assert_eq!(AnyId::from_date_time(last).unwrap().timestamp(), last);
    let over_ms = EPOCH + (1u64 << 42);
    let over = DateTime {
        seconds: (over_ms / 1000) as i64,
        nanos: ((over_ms % 1000) * 1_000_000) as u32,
        offset_seconds: 0,
    };
    assert_eq!(AnyId::from_date_time(over), None);
    let far = DateTime { seconds: i64::MAX, nanos: u32::MAX, offset_seconds: 0 };
    assert_eq!(AnyId::from_date_time(far), None);
    let long_ago = DateTime { seconds: i64::MIN, nanos: 0, offset_seconds: 0 };
    assert_eq!(AnyId::from_date_time(long_ago), None);
}

fn hash_of<T: Hash>(t: &T) -> u64 {
    let mut h = DefaultHasher::new();
    t.hash(&mut h);
    h.finish()
}

#[derive(Debug)]
struct Other;

#[test]
fn kind_leaves_no_mark() {
    let a = Id::<Sample>::from(41771983423143937);
    let b = Id::<Other>::from(41771983423143937);
    assert_eq!(AnyId::from(a), AnyId::from(b));
    assert_eq!(hash_of(&AnyId::from(a)), hash_of(&AnyId::from(b)));
    assert_eq!(hash_of(&a), hash_of(&41771983423143937u64));
    assert_eq!(hash_of(&a), hash_of(&b));
    assert_eq!(u64::from(a), u64::from(b));
    assert_eq!(Id::<Other>::from(AnyId::from(a)), b);
    assert!(Id::<Sample>::from(1) < Id::<Sample>::from(2));
    assert!(Id::<Sample>::from(2) > Id::<Sample>::from(1));
    assert!(Id::<Sample>::from(2) != Id::<Sample>::from(1));
}
