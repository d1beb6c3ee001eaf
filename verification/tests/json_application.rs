#![allow(non_snake_case, dead_code, deprecated, unused_imports)]

use chrono::{Offset, TimeZone, Utc};

use discord2::enums::IntegerEnum;
use discord2::enums::StringEnum;
use discord2::flags::Flags;
use discord2::image::Image;
use discord2::resources::application::Application;
use discord2::snowflake::AnyId;
use discord2::snowflake::Id;
use discord2::time::DateTime;
use discord2::wire::DecodeError;
use discord2::wire::Primitive;

use serde_json::Value;

use std::convert::TryFrom;

/// The value that `text` holds.
fn json(text: &str) -> Value {
    serde_json::from_str(text).unwrap()
}

/// The primitive that the value is, as the library tells primitives apart.
fn prim(v: &Value) -> Primitive {
    match v {
        Value::Null => Primitive::Null,
        Value::Bool(b) => Primitive::Bool(*b),
        Value::Number(n) => match (n.as_u64(), n.as_i64()) {
            (Some(u), _) => Primitive::Unsigned(u),
            (None, Some(i)) => Primitive::Signed(i),
            (None, None) => Primitive::Composite,
        },
        Value::String(s) => Primitive::Text(s.clone()),
        Value::Array(_) | Value::Object(_) => Primitive::Composite,
    }
}

fn object(v: &Value) -> Result<(), DecodeError> {
    if v.is_object() {
        Ok(())
    } else {
        Err(DecodeError::TypeMismatch)
    }
}

fn only_keys(v: &Value, keys: &[&str]) -> Result<(), DecodeError> {
    match v.as_object() {
        Some(map) if map.keys().all(|k| keys.contains(&k.as_str())) => Ok(()),
        _ => Err(DecodeError::TypeMismatch),
    }
}

/// What stands under `key`, null where nothing does.
fn field(v: &Value, key: &str) -> Value {
    v.get(key).cloned().unwrap_or(Value::Null)
}

fn text(v: &Value) -> Result<String, DecodeError> {
    v.as_str().map(str::to_owned).ok_or(DecodeError::TypeMismatch)
}

fn flag(v: &Value) -> Result<bool, DecodeError> {
    v.as_bool().ok_or(DecodeError::TypeMismatch)
}

fn num(v: &Value) -> Result<u64, DecodeError> {
    v.as_u64().ok_or(DecodeError::TypeMismatch)
}

fn num32(v: &Value) -> Result<u32, DecodeError> {
    u32::try_from(num(v)?).map_err(|_| DecodeError::InvalidFormat)
}

fn closed<T: TryFrom<u64>>(v: &Value) -> Result<T, DecodeError> {
    T::try_from(num(v)?).map_err(|_| DecodeError::InvalidFormat)
}

fn opt<T>(
    v: &Value,
    read: impl Fn(&Value) -> Result<T, DecodeError>,
) -> Result<Option<T>, DecodeError> {
    if v.is_null() {
        Ok(None)
    } else {
        read(v).map(Some)
    }
}

fn list<T>(
    v: &Value,
    read: impl Fn(&Value) -> Result<T, DecodeError>,
) -> Result<Vec<T>, DecodeError> {
    v.as_array().ok_or(DecodeError::TypeMismatch)?.iter().map(read).collect()
}

/// The moment that `dt` names, as the library holds it.
fn date_time<Tz: TimeZone>(dt: &chrono::DateTime<Tz>) -> DateTime {
    DateTime {
        seconds: dt.timestamp(),
        nanos: dt.timestamp_subsec_nanos(),
        offset_seconds: dt.offset().fix().local_minus_utc(),
    }
}

fn moment(v: &Value) -> Result<DateTime, DecodeError> {
    let raw = v.as_str().ok_or(DecodeError::TypeMismatch)?;
    match chrono::DateTime::parse_from_rfc3339(raw) {
        Ok(dt) => Ok(date_time(&dt)),
        Err(_) => Err(DecodeError::InvalidFormat),
    }
}

fn b_teams_TeamMember(v: &Value) -> Result<discord2::teams::TeamMember, DecodeError> {
    object(v)?;
    Ok(discord2::teams::TeamMember {
        membership_state: IntegerEnum::deserialize(&prim(&field(v, "membership_state")))?,
        permissions: list(&field(v, "permissions"), |x| text(x))?,
        team_id: Id::deserialize(&prim(&field(v, "team_id")))?,
        user: b_r_user_User(&field(v, "user"))?,
    })
}

fn b_teams_Team(v: &Value) -> Result<discord2::teams::Team, DecodeError> {
    object(v)?;
    Ok(discord2::teams::Team {
        id: Id::deserialize(&prim(&field(v, "id")))?,
        icon: opt(&field(v, "icon"), |x| text(x))?,
        members: list(&field(v, "members"), |x| b_teams_TeamMember(x))?,
        name: opt(&field(v, "name"), |x| text(x))?,
        owner_user_id: opt(&field(v, "owner_user_id"), |x| Id::deserialize(&prim(x)))?,
    })
}

fn b_r_user_User(v: &Value) -> Result<discord2::resources::user::User, DecodeError> {
    object(v)?;
    Ok(discord2::resources::user::User {
        id: Id::deserialize(&prim(&field(v, "id")))?,
        username: text(&field(v, "username"))?,
        discriminator: text(&field(v, "discriminator"))?,
        avatar: opt(&field(v, "avatar"), |x| text(x))?,
        bot: opt(&field(v, "bot"), |x| flag(x))?,
        system: opt(&field(v, "system"), |x| flag(x))?,
        mfa_enabled: opt(&field(v, "mfa_enabled"), |x| flag(x))?,
        locale: opt(&field(v, "locale"), |x| text(x))?,
        verified: opt(&field(v, "verified"), |x| flag(x))?,
        email: opt(&field(v, "email"), |x| text(x))?,
        flags: opt(&field(v, "flags"), |x| IntegerEnum::deserialize(&prim(x)))?,
        premium_kind: opt(&field(v, "premium_type"), |x| IntegerEnum::deserialize(&prim(x)))?,
        public_flags: opt(&field(v, "public_flags"), |x| IntegerEnum::deserialize(&prim(x)))?,
    })
}

fn b_r_application_Application(v: &Value) -> Result<discord2::resources::application::Application, DecodeError> {
    object(v)?;
    Ok(discord2::resources::application::Application {
        id: Id::deserialize(&prim(&field(v, "id")))?,
        name: text(&field(v, "name"))?,
        icon: opt(&field(v, "icon"), |x| text(x))?,
        description: text(&field(v, "description"))?,
        rpc_origins: opt(&field(v, "rpc_origins"), |x| list(x, |x| text(x)))?,
        bot_public: flag(&field(v, "bot_public"))?,
        bot_require_code_grant: flag(&field(v, "bot_require_code_grant"))?,
        terms_of_service_url: opt(&field(v, "terms_of_service_url"), |x| text(x))?,
        privacy_policy_url: opt(&field(v, "privacy_policy_url"), |x| text(x))?,
        owner: b_r_user_User(&field(v, "owner"))?,
        summary: text(&field(v, "summary"))?,
        verify_key: text(&field(v, "verify_key"))?,
        team: opt(&field(v, "team"), |x| b_teams_Team(x))?,
        guild_id: opt(&field(v, "guild_id"), |x| Id::deserialize(&prim(x)))?,
        primary_sku_id: opt(&field(v, "primary_sku_id"), |x| Id::deserialize(&prim(x)))?,
        slug: opt(&field(v, "slug"), |x| text(x))?,
        cover_image: opt(&field(v, "cover_image"), |x| text(x))?,
        flags: opt(&field(v, "flags"), |x| IntegerEnum::deserialize(&prim(x)))?,
    })
}

#[test]
fn application_deserialize_application() {
    let json = json(
        r#"{
        "bot_public": true,
        "bot_require_code_grant": false,
        "cover_image": "31deabb7e45b6c8ecfef77d2f99c81a5",
        "description": "Test",
        "guild_id": "290926798626357260",
        "icon": null,
        "id": "172150183260323840",
        "name": "Baba O-Riley",
        "owner": {
            "avatar": null,
            "discriminator": "1738",
            "flags": 1024,
            "id": "172150183260323840",
            "username": "i own a bot"
        },
        "primary_sku_id": "172150183260323840",
        "slug": "test",
        "summary": "This is a game",
        "team": {
            "icon": "dd9b7dcfdf5351b9c3de0fe167bacbe1",
            "id": "531992624043786253",
            "members": [
            {
                "membership_state": 2,
                "permissions": ["*"],
                "team_id": "531992624043786253",
                "user": {
                    "avatar": "d9e261cd35999608eb7e3de1fae3688b",
                    "discriminator": "0001",
                    "id": "511972282709709995",
                    "username": "Mr Owner"
                }
            }
            ]
        },
        "verify_key": "1e0a356058d627ca38a5c8c9648818061d49e49bd9da9e3ab17d98ad4d6bg2u8"
    }"#,
    );

    let app: Application = b_r_application_Application(&json).unwrap();

    assert_eq!(app.bot_public(), true);
    assert_eq!(app.bot_require_code_grant(), false);
    assert_eq!(
        app.cover_image().unwrap().bare_path(),
        "app-icons/172150183260323840/31deabb7e45b6c8ecfef77d2f99c81a5"
    );
    assert_eq!(app.description(), "Test");
    assert_eq!(app.guild_id(), Some(290926798626357260.into()));
    assert!(app.icon().is_none());
    assert_eq!(app.name(), "Baba O-Riley");

    assert_eq!(app.primary_sku_id(), Some(172150183260323840.into()));
    assert_eq!(app.slug(), Some("test"));
    assert_eq!(app.summary(), "This is a game");

    assert_eq!(
        app.verify_key(),
        "1e0a356058d627ca38a5c8c9648818061d49e49bd9da9e3ab17d98ad4d6bg2u8"
    );

    let owner = app.owner();
    assert_eq!(owner.username(), "i own a bot");
    assert_eq!(owner.discriminator(), "1738");
    assert_eq!(owner.id(), 172150183260323840.into());
}
