#![allow(non_snake_case, dead_code, deprecated, unused_imports)]

use chrono::{Offset, TimeZone, Utc};

use discord2::emoji::Emoji;
use discord2::enums::IntegerEnum;
use discord2::enums::StringEnum;
use discord2::flags::Flags;
use discord2::image::Image;
use discord2::resources::user::UserFlags;
use discord2::snowflake::AnyId;
use discord2::snowflake::Id;
use discord2::time::DateTime;
use discord2::wire::DecodeError;
use discord2::wire::Primitive;

use serde_json::Value;

use std::convert::TryFrom;

/// The value that `text` holds.
fn json(text: &str) -> Value {
    serde_json::from_str(text).unwrap()
}

/// The primitive that the value is, as the library tells primitives apart.
fn prim(v: &Value) -> Primitive {
    match v {
        Value::Null => Primitive::Null,
        Value::Bool(b) => Primitive::Bool(*b),
        Value::Number(n) => match (n.as_u64(), n.as_i64()) {
            (Some(u), _) => Primitive::Unsigned(u),
            (None, Some(i)) => Primitive::Signed(i),
            (None, None) => Primitive::Composite,
        },
        Value::String(s) => Primitive::Text(s.clone()),
        Value::Array(_) | Value::Object(_) => Primitive::Composite,
    }
}

fn object(v: &Value) -> Result<(), DecodeError> {
    if v.is_object() {
        Ok(())
    } else {
        Err(DecodeError::TypeMismatch)
    }
}

fn only_keys(v: &Value, keys: &[&str]) -> Result<(), DecodeError> {
    match v.as_object() {
        Some(map) if map.keys().all(|k| keys.contains(&k.as_str())) => Ok(()),
        _ => Err(DecodeError::TypeMismatch),
    }
}

/// What stands under `key`, null where nothing does.
fn field(v: &Value, key: &str) -> Value {
    v.get(key).cloned().unwrap_or(Value::Null)
}

fn text(v: &Value) -> Result<String, DecodeError> {
    v.as_str().map(str::to_owned).ok_or(DecodeError::TypeMismatch)
}

fn flag(v: &Value) -> Result<bool, DecodeError> {
    v.as_bool().ok_or(DecodeError::TypeMismatch)
}

fn num(v: &Value) -> Result<u64, DecodeError> {
    v.as_u64().ok_or(DecodeError::TypeMismatch)
}

fn num32(v: &Value) -> Result<u32, DecodeError> {
    u32::try_from(num(v)?).map_err(|_| DecodeError::InvalidFormat)
}

fn closed<T: TryFrom<u64>>(v: &Value) -> Result<T, DecodeError> {
    T::try_from(num(v)?).map_err(|_| DecodeError::InvalidFormat)
}

fn opt<T>(
    v: &Value,
    read: impl Fn(&Value) -> Result<T, DecodeError>,
) -> Result<Option<T>, DecodeError> {
    if v.is_null() {
        Ok(None)
    } else {
        read(v).map(Some)
    }
}

fn list<T>(
    v: &Value,
    read: impl Fn(&Value) -> Result<T, DecodeError>,
) -> Result<Vec<T>, DecodeError> {
    v.as_array().ok_or(DecodeError::TypeMismatch)?.iter().map(read).collect()
}

/// The moment that `dt` names, as the library holds it.
fn date_time<Tz: TimeZone>(dt: &chrono::DateTime<Tz>) -> DateTime {
    DateTime {
        seconds: dt.timestamp(),
        nanos: dt.timestamp_subsec_nanos(),
        offset_seconds: dt.offset().fix().local_minus_utc(),
    }
}

fn moment(v: &Value) -> Result<DateTime, DecodeError> {
    let raw = v.as_str().ok_or(DecodeError::TypeMismatch)?;
    match chrono::DateTime::parse_from_rfc3339(raw) {
        Ok(dt) => Ok(date_time(&dt)),
        Err(_) => Err(DecodeError::InvalidFormat),
    }
}

fn b_emoji_Emoji(v: &Value) -> Result<discord2::emoji::Emoji, DecodeError> {
    object(v)?;
    Ok(discord2::emoji::Emoji {
        id: opt(&field(v, "id"), |x| Id::deserialize(&prim(x)))?,
        name: opt(&field(v, "name"), |x| text(x))?,
        roles: opt(&field(v, "roles"), |x| list(x, |x| Id::deserialize(&prim(x))))?,
        user: opt(&field(v, "user"), |x| b_user_User(x))?,
        require_colons: opt(&field(v, "require_colons"), |x| flag(x))?,
        managed: opt(&field(v, "managed"), |x| flag(x))?,
        animated: opt(&field(v, "animated"), |x| flag(x))?,
        available: opt(&field(v, "available"), |x| flag(x))?,
    })
}

fn b_user_User(v: &Value) -> Result<discord2::user::User, DecodeError> {
    object(v)?;
    Ok(discord2::user::User {
        id: Id::deserialize(&prim(&field(v, "id")))?,
        username: text(&field(v, "username"))?,
        discriminator: text(&field(v, "discriminator"))?,
        avatar: opt(&field(v, "avatar"), |x| text(x))?,
        bot: opt(&field(v, "bot"), |x| flag(x))?,
        system: opt(&field(v, "system"), |x| flag(x))?,
        mfa_enabled: opt(&field(v, "mfa_enabled"), |x| flag(x))?,
        locale: opt(&field(v, "locale"), |x| text(x))?,
        verified: opt(&field(v, "verified"), |x| flag(x))?,
        email: opt(&field(v, "email"), |x| text(x))?,
        flags: opt(&field(v, "flags"), |x| num(x))?,
        premium_kind: opt(&field(v, "premium_type"), |x| num(x).map(From::from))?,
        public_flags: opt(&field(v, "public_flags"), |x| num(x))?,
    })
}

#[test]
fn deserialize_emoji() {
    let json = json(
        r#"{
        "id": "41771983429993937",
        "name": "LUL",
        "roles": ["41771983429993000", "41771983429993111"],
        "user": {
            "username": "Luigi",
            "discriminator": "0002",
            "id": "96008815106887111",
            "avatar": "5500909a3274e1812beb4e8de6631111",
            "public_flags": 131328
        },
        "require_colons": true,
        "managed": false,
        "animated": false
    }"#,
    );

    let emoji: Emoji = b_emoji_Emoji(&json).unwrap();

    assert_eq!(emoji.id(), Some(41771983429993937.into()));
    assert_eq!(emoji.name(), Some("LUL"));
    assert_eq!(
        emoji.roles(),
        Some(&[41771983429993000u64.into(), 41771983429993111u64.into()]
            as &[_])
    );
    assert_eq!(emoji.require_colons(), Some(true));
    assert_eq!(emoji.managed(), Some(false));
    assert_eq!(emoji.animated(), Some(false));

    let user = emoji.user().unwrap();
    assert_eq!(user.username(), "Luigi");
    assert_eq!(user.discriminator(), "0002");
    assert_eq!(user.id(), 96008815106887111.into());
    assert_eq!(user.avatar(), Some("5500909a3274e1812beb4e8de6631111"));
    assert_eq!(
        user.public_flags(),
        Some(
            UserFlags::HOUSE_BALANCE
                | UserFlags::EARLY_VERIFIED_BOT_DEVELOPER
        )
    );
}

#[test]
fn deserialize_emoji_gateway_reaction_standard() {
    let json = json(
        r#"{
        "id": null,
        "name": "🔥"
    }"#,
    );

    let emoji: Emoji = b_emoji_Emoji(&json).unwrap();

    assert_eq!(emoji.id(), None);
    assert_eq!(emoji.name(), Some("\u{1F525}"));
}

#[test]
fn deserialize_emoji_gateway_reaction_custom() {
    let json = json(
        r#"{
        "id": "41771983429993937",
        "name": "LUL",
        "animated": true
    }"#,
    );

    let emoji: Emoji = b_emoji_Emoji(&json).unwrap();

    assert_eq!(emoji.id(), Some(41771983429993937.into()));
    assert_eq!(emoji.name(), Some("LUL"));
    assert_eq!(emoji.animated(), Some(true))
}

#[test]
fn deserialize_emoji_gateway_reaction_custom2() {
    let json = json(
        r#"{
        "id": "41771983429993937",
        "name": null
    }"#,
    );

    let emoji: Emoji = b_emoji_Emoji(&json).unwrap();

    assert_eq!(emoji.id(), Some(41771983429993937.into()));
    assert_eq!(emoji.name(), None);
}
