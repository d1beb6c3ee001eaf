#![allow(non_snake_case, dead_code, deprecated, unused_imports)]

use chrono::{Offset, TimeZone, Utc};

use discord2::audit_log::AuditLog;
use discord2::audit_log::AuditLogChange;
use discord2::audit_log::AuditLogEvent;
use discord2::audit_log::AuditLogIntegration;
use discord2::audit_log::AuditLogRole;
use discord2::enums::IntegerEnum;
use discord2::enums::StringEnum;
use discord2::flags::Flags;
use discord2::image::Image;
use discord2::resources::channel::ChannelId;
use discord2::snowflake::AnyId;
use discord2::snowflake::Id;
use discord2::time::DateTime;
use discord2::wire::DecodeError;
use discord2::wire::Primitive;

use serde_json::Value;

use std::convert::TryFrom;

/// The value that `text` holds.
fn json(text: &str) -> Value {
    serde_json::from_str(text).unwrap()
}

/// The primitive that the value is, as the library tells primitives apart.
fn prim(v: &Value) -> Primitive {
    match v {
        Value::Null => Primitive::Null,
        Value::Bool(b) => Primitive::Bool(*b),
        Value::Number(n) => match (n.as_u64(), n.as_i64()) {
            (Some(u), _) => Primitive::Unsigned(u),
            (None, Some(i)) => Primitive::Signed(i),
            (None, None) => Primitive::Composite,
        },
        Value::String(s) => Primitive::Text(s.clone()),
        Value::Array(_) | Value::Object(_) => Primitive::Composite,
    }
}

fn object(v: &Value) -> Result<(), DecodeError> {
    if v.is_object() {
        Ok(())
    } else {
        Err(DecodeError::TypeMismatch)
    }
}

fn only_keys(v: &Value, keys: &[&str]) -> Result<(), DecodeError> {
    match v.as_object() {
        Some(map) if map.keys().all(|k| keys.contains(&k.as_str())) => Ok(()),
        _ => Err(DecodeError::TypeMismatch),
    }
}

/// What stands under `key`, null where nothing does.
fn field(v: &Value, key: &str) -> Value {
    v.get(key).cloned().unwrap_or(Value::Null)
}

fn text(v: &Value) -> Result<String, DecodeError> {
    v.as_str().map(str::to_owned).ok_or(DecodeError::TypeMismatch)
}

fn flag(v: &Value) -> Result<bool, DecodeError> {
    v.as_bool().ok_or(DecodeError::TypeMismatch)
}

fn num(v: &Value) -> Result<u64, DecodeError> {
    v.as_u64().ok_or(DecodeError::TypeMismatch)
}

fn num32(v: &Value) -> Result<u32, DecodeError> {
    u32::try_from(num(v)?).map_err(|_| DecodeError::InvalidFormat)
}

fn closed<T: TryFrom<u64>>(v: &Value) -> Result<T, DecodeError> {
    T::try_from(num(v)?).map_err(|_| DecodeError::InvalidFormat)
}

fn opt<T>(
    v: &Value,
    read: impl Fn(&Value) -> Result<T, DecodeError>,
) -> Result<Option<T>, DecodeError> {
    if v.is_null() {
        Ok(None)
    } else {
        read(v).map(Some)
    }
}

fn list<T>(
    v: &Value,
    read: impl Fn(&Value) -> Result<T, DecodeError>,
) -> Result<Vec<T>, DecodeError> {
    v.as_array().ok_or(DecodeError::TypeMismatch)?.iter().map(read).collect()
}

/// The moment that `dt` names, as the library holds it.
fn date_time<Tz: TimeZone>(dt: &chrono::DateTime<Tz>) -> DateTime {
    DateTime {
        seconds: dt.timestamp(),
        nanos: dt.timestamp_subsec_nanos(),
        offset_seconds: dt.offset().fix().local_minus_utc(),
    }
}

fn moment(v: &Value) -> Result<DateTime, DecodeError> {
    let raw = v.as_str().ok_or(DecodeError::TypeMismatch)?;
    match chrono::DateTime::parse_from_rfc3339(raw) {
        Ok(dt) => Ok(date_time(&dt)),
        Err(_) => Err(DecodeError::InvalidFormat),
    }
}

fn b_r_user_User(v: &Value) -> Result<discord2::resources::user::User, DecodeError> {
    object(v)?;
    Ok(discord2::resources::user::User {
        id: Id::deserialize(&prim(&field(v, "id")))?,
        username: text(&field(v, "username"))?,
        discriminator: text(&field(v, "discriminator"))?,
        avatar: opt(&field(v, "avatar"), |x| text(x))?,
        bot: opt(&field(v, "bot"), |x| flag(x))?,
        system: opt(&field(v, "system"), |x| flag(x))?,
        mfa_enabled: opt(&field(v, "mfa_enabled"), |x| flag(x))?,
        locale: opt(&field(v, "locale"), |x| text(x))?,
        verified: opt(&field(v, "verified"), |x| flag(x))?,
        email: opt(&field(v, "email"), |x| text(x))?,
        flags: opt(&field(v, "flags"), |x| IntegerEnum::deserialize(&prim(x)))?,
        premium_kind: opt(&field(v, "premium_type"), |x| IntegerEnum::deserialize(&prim(x)))?,
        public_flags: opt(&field(v, "public_flags"), |x| IntegerEnum::deserialize(&prim(x)))?,
    })
}

fn b_r_channel_ThreadMetadata(v: &Value) -> Result<discord2::resources::channel::ThreadMetadata, DecodeError> {
    object(v)?;
    Ok(discord2::resources::channel::ThreadMetadata {
        archived: flag(&field(v, "archived"))?,
        archiver_id: opt(&field(v, "archiver_id"), |x| Id::deserialize(&prim(x)))?,
        auto_archive_duration: num(&field(v, "auto_archive_duration"))?,
        archive_timestamp: moment(&field(v, "archive_timestamp"))?,
        locked: opt(&field(v, "locked"), |x| flag(x))?,
    })
}

fn b_r_channel_ThreadMember(v: &Value) -> Result<discord2::resources::channel::ThreadMember, DecodeError> {
    object(v)?;
    Ok(discord2::resources::channel::ThreadMember {
        id: Id::deserialize(&prim(&field(v, "id")))?,
        user_id: Id::deserialize(&prim(&field(v, "user_id")))?,
        join_timestamp: moment(&field(v, "join_timestamp"))?,
        flags: IntegerEnum::deserialize(&prim(&field(v, "flags")))?,
    })
}

fn b_r_channel_OverwriteId(v: &Value) -> Result<discord2::resources::channel::OverwriteId, DecodeError> {
    let pair = discord2::resources::channel::OverwriteIdHelper {
        id: AnyId::deserialize(&prim(&field(v, "id")))?,
        kind: num(&field(v, "type"))?,
    };
    pair.try_into_id().ok_or(DecodeError::InvalidFormat)
}

fn b_r_channel_Overwrite(v: &Value) -> Result<discord2::resources::channel::Overwrite, DecodeError> {
    object(v)?;
    Ok(discord2::resources::channel::Overwrite {
        id: b_r_channel_OverwriteId(v)?,
        allow: text(&field(v, "allow"))?,
        deny: text(&field(v, "deny"))?,
    })
}

fn b_r_channel_Channel(v: &Value) -> Result<discord2::resources::channel::Channel, DecodeError> {
    object(v)?;
    Ok(discord2::resources::channel::Channel {
        id: Id::deserialize(&prim(&field(v, "id")))?,
        kind: opt(&field(v, "type"), |x| IntegerEnum::deserialize(&prim(x)))?,
        guild_id: opt(&field(v, "guild_id"), |x| Id::deserialize(&prim(x)))?,
        position: opt(&field(v, "position"), |x| num(x))?,
        permission_overwrites: opt(&field(v, "permission_overwrites"), |x| list(x, |x| b_r_channel_Overwrite(x)))?,
        name: opt(&field(v, "name"), |x| text(x))?,
        topic: opt(&field(v, "topic"), |x| text(x))?,
        nsfw: opt(&field(v, "nsfw"), |x| flag(x))?,
        last_message_id: opt(&field(v, "last_message_id"), |x| Id::deserialize(&prim(x)))?,
        bitrate: opt(&field(v, "bitrate"), |x| num(x))?,
        user_limit: opt(&field(v, "user_limit"), |x| num(x))?,
        rate_limit_per_user: opt(&field(v, "rate_limit_per_user"), |x| num(x))?,
        recipients: opt(&field(v, "recipients"), |x| list(x, |x| b_r_user_User(x)))?,
        icon: opt(&field(v, "icon"), |x| text(x))?,
        owner_id: opt(&field(v, "owner_id"), |x| Id::deserialize(&prim(x)))?,
        application_id: opt(&field(v, "application_id"), |x| Id::deserialize(&prim(x)))?,
        parent_id: opt(&field(v, "parent_id"), |x| Id::deserialize(&prim(x)))?,
        last_pin_timestamp: opt(&field(v, "last_pin_timestamp"), |x| moment(x))?,
        rtc_region: opt(&field(v, "rtc_region"), |x| text(x))?,
        video_quality_mode: opt(&field(v, "video_quality_mode"), |x| IntegerEnum::deserialize(&prim(x)))?,
        message_count: opt(&field(v, "message_count"), |x| num(x))?,
        member_count: opt(&field(v, "member_count"), |x| num(x))?,
        thread_metadata: opt(&field(v, "thread_metadata"), |x| b_r_channel_ThreadMetadata(x))?,
        member: opt(&field(v, "member"), |x| b_r_channel_ThreadMember(x))?,
    })
}

fn b_r_webhook_SourceGuild(v: &Value) -> Result<discord2::resources::webhook::SourceGuild, DecodeError> {
    object(v)?;
    Ok(discord2::resources::webhook::SourceGuild {
        id: Id::deserialize(&prim(&field(v, "id")))?,
        name: opt(&field(v, "name"), |x| text(x))?,
        icon: opt(&field(v, "icon"), |x| text(x))?,
    })
}

fn b_r_webhook_Webhook(v: &Value) -> Result<discord2::resources::webhook::Webhook, DecodeError> {
    object(v)?;
    Ok(discord2::resources::webhook::Webhook {
        id: Id::deserialize(&prim(&field(v, "id")))?,
        kind: IntegerEnum::deserialize(&prim(&field(v, "type")))?,
        guild_id: opt(&field(v, "guild_id"), |x| Id::deserialize(&prim(x)))?,
        channel_id: opt(&field(v, "channel_id"), |x| Id::deserialize(&prim(x)))?,
        user: opt(&field(v, "user"), |x| b_r_user_User(x))?,
        name: opt(&field(v, "name"), |x| text(x))?,
        avatar: opt(&field(v, "avatar"), |x| text(x))?,
        token: opt(&field(v, "token"), |x| text(x))?,
        application_id: opt(&field(v, "application_id"), |x| Id::deserialize(&prim(x)))?,
        source_guild: opt(&field(v, "source_guild"), |x| b_r_webhook_SourceGuild(x))?,
        source_channel: opt(&field(v, "source_channel"), |x| b_r_channel_Channel(x))?,
        url: opt(&field(v, "url"), |x| text(x))?,
    })
}

fn b_guild_integration_IntegrationAccount(v: &Value) -> Result<discord2::guild::integration::IntegrationAccount, DecodeError> {
    object(v)?;
    Ok(discord2::guild::integration::IntegrationAccount {
        id: Id::deserialize(&prim(&field(v, "id")))?,
        name: text(&field(v, "name"))?,
    })
}

fn b_user_User(v: &Value) -> Result<discord2::user::User, DecodeError> {
    object(v)?;
    Ok(discord2::user::User {
        id: Id::deserialize(&prim(&field(v, "id")))?,
        username: text(&field(v, "username"))?,
        discriminator: text(&field(v, "discriminator"))?,
        avatar: opt(&field(v, "avatar"), |x| text(x))?,
        bot: opt(&field(v, "bot"), |x| flag(x))?,
        system: opt(&field(v, "system"), |x| flag(x))?,
        mfa_enabled: opt(&field(v, "mfa_enabled"), |x| flag(x))?,
        locale: opt(&field(v, "locale"), |x| text(x))?,
        verified: opt(&field(v, "verified"), |x| flag(x))?,
        email: opt(&field(v, "email"), |x| text(x))?,
        flags: opt(&field(v, "flags"), |x| num(x))?,
        premium_kind: opt(&field(v, "premium_type"), |x| num(x).map(From::from))?,
        public_flags: opt(&field(v, "public_flags"), |x| num(x))?,
    })
}

fn b_audit_log_AuditLogRole(v: &Value) -> Result<discord2::audit_log::AuditLogRole, DecodeError> {
    object(v)?;
    Ok(discord2::audit_log::AuditLogRole {
        id: Id::deserialize(&prim(&field(v, "id")))?,
        name: text(&field(v, "name"))?,
    })
}

fn b_audit_log_AuditEntryInfo(v: &Value) -> Result<discord2::audit_log::AuditEntryInfo, DecodeError> {
    object(v)?;
    Ok(discord2::audit_log::AuditEntryInfo {
        delete_member_days: opt(&field(v, "delete_member_days"), |x| text(x))?,
        members_removed: opt(&field(v, "members_removed"), |x| text(x))?,
        channel_id: opt(&field(v, "channel_id"), |x| Id::deserialize(&prim(x)))?,
        message_id: opt(&field(v, "message_id"), |x| Id::deserialize(&prim(x)))?,
        count: opt(&field(v, "count"), |x| text(x))?,
        id: opt(&field(v, "id"), |x| AnyId::deserialize(&prim(x)))?,
        kind: opt(&field(v, "type"), |x| StringEnum::deserialize(&prim(x)))?,
        role_name: opt(&field(v, "role_name"), |x| text(x))?,
    })
}

fn b_audit_log_AuditLogKindValue(v: &Value) -> Result<discord2::audit_log::AuditLogKindValue, DecodeError> {
    if let Ok(x) = IntegerEnum::deserialize(&prim(v)) {
        return Ok(discord2::audit_log::AuditLogKindValue::ChannelKind(x));
    }
    text(v).map(discord2::audit_log::AuditLogKindValue::String)
}

fn values<T>(
    raw: &discord2::audit_log::RawAuditLogChange,
    read: impl Fn(&Value) -> Result<T, DecodeError>,
) -> Result<discord2::audit_log::AuditLogValues<T>, DecodeError> {
    let new = match &raw.new_value {
        Some(x) => Some(read(x)?),
        None => None,
    };
    let old = match &raw.old_value {
        Some(x) => Some(read(x)?),
        None => None,
    };
    Ok(discord2::audit_log::AuditLogValues { new, old })
}

fn b_audit_log_AuditLogChange(v: &Value) -> Result<discord2::audit_log::AuditLogChange, DecodeError> {
    object(v)?;
    let raw = discord2::audit_log::RawAuditLogChange {
        key: text(&field(v, "key"))?,
        new_value: v.get("new_value").cloned(),
        old_value: v.get("old_value").cloned(),
    };
    let (key, raw) = raw.kind().map_err(|_| DecodeError::InvalidFormat)?;
    Ok(match key {
        discord2::audit_log::AuditLogChangeKey::Name => {
            discord2::audit_log::AuditLogChange::Name(values(&raw, |x| text(x))?)
        }
        discord2::audit_log::AuditLogChangeKey::Description => {
            discord2::audit_log::AuditLogChange::Description(values(&raw, |x| text(x))?)
        }
        discord2::audit_log::AuditLogChangeKey::IconHash => {
            discord2::audit_log::AuditLogChange::IconHash(values(&raw, |x| text(x))?)
        }
        discord2::audit_log::AuditLogChangeKey::SplashHash => {
            discord2::audit_log::AuditLogChange::SplashHash(values(&raw, |x| text(x))?)
        }
        discord2::audit_log::AuditLogChangeKey::DiscoverySplashHash => {
            discord2::audit_log::AuditLogChange::DiscoverySplashHash(values(&raw, |x| text(x))?)
        }
        discord2::audit_log::AuditLogChangeKey::BannerHash => {
            discord2::audit_log::AuditLogChange::BannerHash(values(&raw, |x| text(x))?)
        }
        discord2::audit_log::AuditLogChangeKey::OwnerId => {
            discord2::audit_log::AuditLogChange::OwnerId(values(&raw, |x| Id::deserialize(&prim(x)))?)
        }
        discord2::audit_log::AuditLogChangeKey::Region => {
            discord2::audit_log::AuditLogChange::Region(values(&raw, |x| text(x))?)
        }
        discord2::audit_log::AuditLogChangeKey::PreferredLocale => {
            discord2::audit_log::AuditLogChange::PreferredLocale(values(&raw, |x| text(x))?)
        }
        discord2::audit_log::AuditLogChangeKey::AfkChannelId => {
            discord2::audit_log::AuditLogChange::AfkChannelId(values(&raw, |x| Id::deserialize(&prim(x)))?)
        }
        discord2::audit_log::AuditLogChangeKey::AfkTimeout => {
            discord2::audit_log::AuditLogChange::AfkTimeout(values(&raw, |x| num(x))?)
        }
        discord2::audit_log::AuditLogChangeKey::RulesChannelId => {
            discord2::audit_log::AuditLogChange::RulesChannelId(values(&raw, |x| Id::deserialize(&prim(x)))?)
        }
        discord2::audit_log::AuditLogChangeKey::PublicUpdatesChannelId => {
            discord2::audit_log::AuditLogChange::PublicUpdatesChannelId(values(&raw, |x| Id::deserialize(&prim(x)))?)
        }
        discord2::audit_log::AuditLogChangeKey::MfaLevel => {
            discord2::audit_log::AuditLogChange::MfaLevel(values(&raw, |x| IntegerEnum::deserialize(&prim(x)))?)
        }
        discord2::audit_log::AuditLogChangeKey::VerificationLevel => {
            discord2::audit_log::AuditLogChange::VerificationLevel(values(&raw, |x| IntegerEnum::deserialize(&prim(x)))?)
        }
        discord2::audit_log::AuditLogChangeKey::ExplicitContentFilter => {
            discord2::audit_log::AuditLogChange::ExplicitContentFilter(values(&raw, |x| IntegerEnum::deserialize(&prim(x)))?)
        }
        discord2::audit_log::AuditLogChangeKey::DefaultMessageNotifications => {
            discord2::audit_log::AuditLogChange::DefaultMessageNotifications(values(&raw, |x| IntegerEnum::deserialize(&prim(x)))?)
        }
        discord2::audit_log::AuditLogChangeKey::VanityUrlCode => {
            discord2::audit_log::AuditLogChange::VanityUrlCode(values(&raw, |x| text(x))?)
        }
        discord2::audit_log::AuditLogChangeKey::RoleAdd => {
            discord2::audit_log::AuditLogChange::RoleAdd(values(&raw, |x| b_audit_log_AuditLogRole(x))?)
        }
        discord2::audit_log::AuditLogChangeKey::RoleRemove => {
            discord2::audit_log::AuditLogChange::RoleRemove(values(&raw, |x| b_audit_log_AuditLogRole(x))?)
        }
        discord2::audit_log::AuditLogChangeKey::PruneDeleteDays => {
            discord2::audit_log::AuditLogChange::PruneDeleteDays(values(&raw, |x| num(x))?)
        }
        discord2::audit_log::AuditLogChangeKey::WidgetEnabled => {
            discord2::audit_log::AuditLogChange::WidgetEnabled(values(&raw, |x| flag(x))?)
        }
        discord2::audit_log::AuditLogChangeKey::WidgetChannelId => {
            discord2::audit_log::AuditLogChange::WidgetChannelId(values(&raw, |x| Id::deserialize(&prim(x)))?)
        }
        discord2::audit_log::AuditLogChangeKey::SystemChannelId => {
            discord2::audit_log::AuditLogChange::SystemChannelId(values(&raw, |x| Id::deserialize(&prim(x)))?)
        }
        discord2::audit_log::AuditLogChangeKey::Position => {
            discord2::audit_log::AuditLogChange::Position(values(&raw, |x| num(x))?)
        }
        discord2::audit_log::AuditLogChangeKey::Topic => {
            discord2::audit_log::AuditLogChange::Topic(values(&raw, |x| text(x))?)
        }
        discord2::audit_log::AuditLogChangeKey::Bitrate => {
            discord2::audit_log::AuditLogChange::Bitrate(values(&raw, |x| num(x))?)
        }
        discord2::audit_log::AuditLogChangeKey::PermissionOverwrites => {
            discord2::audit_log::AuditLogChange::PermissionOverwrites(values(&raw, |x| list(x, |x| b_r_channel_Overwrite(x)))?)
        }
        discord2::audit_log::AuditLogChangeKey::Nsfw => {
            discord2::audit_log::AuditLogChange::Nsfw(values(&raw, |x| flag(x))?)
        }
        discord2::audit_log::AuditLogChangeKey::ApplicationId => {
            discord2::audit_log::AuditLogChange::ApplicationId(values(&raw, |x| Id::deserialize(&prim(x)))?)
        }
        discord2::audit_log::AuditLogChangeKey::RateLimitPerUser => {
            discord2::audit_log::AuditLogChange::RateLimitPerUser(values(&raw, |x| num(x))?)
        }
        discord2::audit_log::AuditLogChangeKey::Permissions => {
            discord2::audit_log::AuditLogChange::Permissions(values(&raw, |x| text(x))?)
        }
        discord2::audit_log::AuditLogChangeKey::Color => {
            discord2::audit_log::AuditLogChange::Color(values(&raw, |x| num32(x))?)
        }
        discord2::audit_log::AuditLogChangeKey::Hoist => {
            discord2::audit_log::AuditLogChange::Hoist(values(&raw, |x| flag(x))?)
        }
        discord2::audit_log::AuditLogChangeKey::Mentionable => {
            discord2::audit_log::AuditLogChange::Mentionable(values(&raw, |x| flag(x))?)
        }
        discord2::audit_log::AuditLogChangeKey::Allow => {
            discord2::audit_log::AuditLogChange::Allow(values(&raw, |x| text(x))?)
        }
        discord2::audit_log::AuditLogChangeKey::Deny => {
            discord2::audit_log::AuditLogChange::Deny(values(&raw, |x| text(x))?)
        }
        discord2::audit_log::AuditLogChangeKey::Code => {
            discord2::audit_log::AuditLogChange::Code(values(&raw, |x| text(x))?)
        }
        discord2::audit_log::AuditLogChangeKey::ChannelId => {
            discord2::audit_log::AuditLogChange::ChannelId(values(&raw, |x| Id::deserialize(&prim(x)))?)
        }
        discord2::audit_log::AuditLogChangeKey::InviterId => {
            discord2::audit_log::AuditLogChange::InviterId(values(&raw, |x| Id::deserialize(&prim(x)))?)
        }
        discord2::audit_log::AuditLogChangeKey::MaxUses => {
            discord2::audit_log::AuditLogChange::MaxUses(values(&raw, |x| num(x))?)
        }
        discord2::audit_log::AuditLogChangeKey::Uses => {
            discord2::audit_log::AuditLogChange::Uses(values(&raw, |x| num(x))?)
        }
        discord2::audit_log::AuditLogChangeKey::MaxAge => {
            discord2::audit_log::AuditLogChange::MaxAge(values(&raw, |x| num(x))?)
        }
        discord2::audit_log::AuditLogChangeKey::Temporary => {
            discord2::audit_log::AuditLogChange::Temporary(values(&raw, |x| flag(x))?)
        }
        discord2::audit_log::AuditLogChangeKey::Deaf => {
            discord2::audit_log::AuditLogChange::Deaf(values(&raw, |x| flag(x))?)
        }
        discord2::audit_log::AuditLogChangeKey::Mute => {
            discord2::audit_log::AuditLogChange::Mute(values(&raw, |x| flag(x))?)
        }
        discord2::audit_log::AuditLogChangeKey::Nick => {
            discord2::audit_log::AuditLogChange::Nick(values(&raw, |x| text(x))?)
        }
        discord2::audit_log::AuditLogChangeKey::AvatarHash => {
            discord2::audit_log::AuditLogChange::AvatarHash(values(&raw, |x| text(x))?)
        }
        discord2::audit_log::AuditLogChangeKey::Id => {
            discord2::audit_log::AuditLogChange::Id(values(&raw, |x| AnyId::deserialize(&prim(x)))?)
        }
        discord2::audit_log::AuditLogChangeKey::Kind => {
            discord2::audit_log::AuditLogChange::Kind(values(&raw, |x| b_audit_log_AuditLogKindValue(x))?)
        }
        discord2::audit_log::AuditLogChangeKey::EnableEmoticons => {
            discord2::audit_log::AuditLogChange::EnableEmoticons(values(&raw, |x| flag(x))?)
        }
        discord2::audit_log::AuditLogChangeKey::ExpireBehavior => {
            discord2::audit_log::AuditLogChange::ExpireBehavior(values(&raw, |x| IntegerEnum::deserialize(&prim(x)))?)
        }
        discord2::audit_log::AuditLogChangeKey::ExpireGracePeriod => {
            discord2::audit_log::AuditLogChange::ExpireGracePeriod(values(&raw, |x| num(x))?)
        }
        discord2::audit_log::AuditLogChangeKey::UserLimit => {
            discord2::audit_log::AuditLogChange::UserLimit(values(&raw, |x| num(x))?)
        }
    })
}

fn b_audit_log_AuditLogEntry(v: &Value) -> Result<discord2::audit_log::AuditLogEntry, DecodeError> {
    object(v)?;
    Ok(discord2::audit_log::AuditLogEntry {
        id: Id::deserialize(&prim(&field(v, "id")))?,
        target_id: opt(&field(v, "target_id"), |x| AnyId::deserialize(&prim(x)))?,
        user_id: opt(&field(v, "user_id"), |x| Id::deserialize(&prim(x)))?,
        changes: opt(&field(v, "changes"), |x| list(x, |x| b_audit_log_AuditLogChange(x)))?,
        action_kind: IntegerEnum::deserialize(&prim(&field(v, "action_type")))?,
        options: opt(&field(v, "options"), |x| b_audit_log_AuditEntryInfo(x))?,
        reason: opt(&field(v, "reason"), |x| text(x))?,
    })
}

fn b_audit_log_AuditLogIntegration(v: &Value) -> Result<discord2::audit_log::AuditLogIntegration, DecodeError> {
    object(v)?;
    Ok(discord2::audit_log::AuditLogIntegration {
        id: Id::deserialize(&prim(&field(v, "id")))?,
        name: text(&field(v, "name"))?,
        kind: text(&field(v, "type"))?,
        account: b_guild_integration_IntegrationAccount(&field(v, "account"))?,
    })
}

fn b_audit_log_AuditLog(v: &Value) -> Result<discord2::audit_log::AuditLog, DecodeError> {
    object(v)?;
    Ok(discord2::audit_log::AuditLog {
        webhooks: list(&field(v, "webhooks"), |x| b_r_webhook_Webhook(x))?,
        users: list(&field(v, "users"), |x| b_user_User(x))?,
        audit_log_entries: list(&field(v, "audit_log_entries"), |x| b_audit_log_AuditLogEntry(x))?,
        integrations: list(&field(v, "integrations"), |x| b_audit_log_AuditLogIntegration(x))?,
    })
}

#[test]
fn deserialize_audit_log_role() {
    let json = json(
        r#"{
        "name": "I am a role",
        "id": "584120723283509258"
    }"#,
    );

    let role: AuditLogRole = b_audit_log_AuditLogRole(&json).unwrap();

    assert_eq!(role.name(), "I am a role");
    assert_eq!(role.id(), 584120723283509258.into());
}

#[test]
fn deserialize_audit_log_integration() {
    let json = json(
        r#"{
        "id": "33590653072239123",
        "name": "A Name",
        "type": "twitch",
        "account": {
            "name": "twitchusername",
            "id": "1234567"
        }
    }"#,
    );

    let int: AuditLogIntegration = b_audit_log_AuditLogIntegration(&json).unwrap();

    assert_eq!(int.id(), 33590653072239123.into());
    assert_eq!(int.name(), "A Name");
    assert_eq!(int.kind(), "twitch");
    assert_eq!(int.account().name(), "twitchusername");
    assert_eq!(int.account().id(), 1234567.into());
}

#[test]
fn deserialize_audit_log() {
    let json = json(
        r#"{
        "audit_log_entries": [
        {
            "action_type": 31,
            "changes": [
            {
                "key": "permissions",
                "new_value": "6546771521",
                "old_value": "4399287873"
            }
            ],
            "id": "845138997059863333",
            "target_id": "843299980508444444",
            "user_id": "144232857852837888"
        },
        {
            "action_type": 74,
            "id": "843340438576666666",
            "options": {
                "channel_id": "843299980508444444",
                "message_id": "843340436517158932"
            },
            "target_id": "843299027126666666",
            "user_id": "843299027126666666"
        },
        {
            "action_type": 11,
            "changes": [
            {
                "key": "topic",
                "new_value": "jecehzjzzyzm6ovuwqthx78i8",
                "old_value": "zntdmn9wsfhoxresszxmueun7"
            },
            {
                "key": "name",
                "new_value": "y5ce0w0v7tjog2dpi8ewmdthi",
                "old_value": "yn7fexsrik59uu87qimoglptb"
            }
            ],
            "id": "843340115815311111",
            "target_id": "843299980508444444",
            "user_id": "843299027126666666"
        },
        {
            "action_type": 12,
            "changes": [
            {
                "key": "name",
                "old_value": "knybvzdqcj5gbiblwb6niltnw"
            },
            {
                "key": "type",
                "old_value": 0
            },
            {
                "key": "permission_overwrites",
                "old_value": []
            },
            {
                "key": "nsfw",
                "old_value": false
            },
            {
                "key": "rate_limit_per_user",
                "old_value": 0
            }
            ],
            "id": "843340114334583333",
            "target_id": "843340112879955555",
            "user_id": "843299027126666666"
        },
        {
            "action_type": 10,
            "changes": [
            {
                "key": "name",
                "new_value": "knybvzdqcj5gbiblwb6niltnw"
            },
            {
                "key": "type",
                "new_value": 0
            },
            {
                "key": "permission_overwrites",
                "new_value": []
            },
            {
                "key": "nsfw",
                "new_value": false
            },
            {
                "key": "rate_limit_per_user",
                "new_value": 0
            }
            ],
            "id": "843340113316413333",
            "target_id": "843340112877777777",
            "user_id": "843299027126666666"
        },
        {
            "action_type": 42,
            "changes": [
            {
                "key": "code",
                "old_value": "aAAaAAA"
            },
            {
                "key": "channel_id",
                "old_value": "843299980508444444"
            },
            {
                "key": "inviter_id",
                "old_value": "843299027126666666"
            },
            {
                "key": "uses",
                "old_value": 0
            },
            {
                "key": "max_uses",
                "old_value": 3
            },
            {
                "key": "max_age",
                "old_value": 500
            },
            {
                "key": "temporary",
                "old_value": false
            }
            ],
            "id": "843340112103700000",
            "target_id": null,
            "user_id": "843299027126666666"
        },
        {
            "action_type": 40,
            "changes": [
            {
                "key": "code",
                "new_value": "aAAaAAA"
            },
            {
                "key": "channel_id",
                "new_value": "843299980508444444"
            },
            {
                "key": "inviter_id",
                "new_value": "843299027126666666"
            },
            {
                "key": "uses",
                "new_value": 0
            },
            {
                "key": "max_uses",
                "new_value": 3
            },
            {
                "key": "max_age",
                "new_value": 500
            },
            {
                "key": "temporary",
                "new_value": false
            }
            ],
            "id": "843340110657777777",
            "target_id": null,
            "user_id": "843299027126666666"
        }
        ],
        "integrations": [],
        "users": [
        {
            "avatar": "162f914fb3f39a5cb344d20f40e744a8",
            "discriminator": "1234",
            "id": "144232812345678888",
            "public_flags": 0,
            "username": "some-user"
        },
        {
            "avatar": null,
            "bot": true,
            "discriminator": "4321",
            "id": "843299027126666666",
            "public_flags": 0,
            "username": "discord-next-testing"
        }
        ],
        "webhooks": []
    }"#,
    );

    let log: AuditLog = b_audit_log_AuditLog(&json).unwrap();

    let entries = log.audit_log_entries();
    assert_eq!(entries.len(), 7);
    assert_eq!(entries[0].action_kind(), AuditLogEvent::RoleUpdate);
    assert_eq!(entries[0].id(), 845138997059863333.into());
    assert_eq!(entries[0].target_id(), Some(843299980508444444.into()));
    assert_eq!(entries[0].user_id(), Some(144232857852837888.into()));

    let changes = entries[0].changes().unwrap();
    assert_eq!(changes.len(), 1);
    assert!(matches!(changes[0], AuditLogChange::Permissions(_)));

    assert_eq!(entries[1].action_kind(), AuditLogEvent::MessagePin);
    assert_eq!(entries[1].id(), 843340438576666666.into());
    assert_eq!(entries[1].target_id(), Some(843299027126666666.into()));
    assert_eq!(entries[1].user_id(), Some(843299027126666666.into()));
    assert!(entries[1].changes().is_none());

    let options = entries[1].options().unwrap();
    assert_eq!(options.channel_id(), Some(843299980508444444.into()));
    assert_eq!(options.message_id(), Some(843340436517158932.into()));

    assert_eq!(entries[2].action_kind(), AuditLogEvent::ChannelUpdate);
    assert_eq!(entries[2].id(), 843340115815311111.into());
    assert_eq!(entries[2].target_id(), Some(843299980508444444.into()));
    assert_eq!(entries[2].user_id(), Some(843299027126666666.into()));

    let changes = entries[2].changes().unwrap();
    assert_eq!(changes.len(), 2);
    assert!(matches!(changes[0], AuditLogChange::Topic(_)));
    assert!(matches!(changes[1], AuditLogChange::Name(_)));

    assert_eq!(entries[3].action_kind(), AuditLogEvent::ChannelDelete);
    assert_eq!(entries[3].id(), 843340114334583333.into());
    assert_eq!(entries[3].target_id(), Some(843340112879955555.into()));
    assert_eq!(entries[3].user_id(), Some(843299027126666666.into()));

    let changes = entries[3].changes().unwrap();
    assert_eq!(changes.len(), 5);
    assert!(matches!(changes[0], AuditLogChange::Name(_)));
    assert!(matches!(changes[1], AuditLogChange::Kind(_)));
    assert!(matches!(changes[2], AuditLogChange::PermissionOverwrites(_)));
    assert!(matches!(changes[3], AuditLogChange::Nsfw(_)));
    assert!(matches!(changes[4], AuditLogChange::RateLimitPerUser(_)));

    assert_eq!(entries[4].action_kind(), AuditLogEvent::ChannelCreate);
    assert_eq!(entries[4].id(), 843340113316413333.into());
    assert_eq!(entries[4].target_id(), Some(843340112877777777.into()));
    assert_eq!(entries[4].user_id(), Some(843299027126666666.into()));

    let changes = entries[4].changes().unwrap();
    assert_eq!(changes.len(), 5);
    assert!(matches!(changes[0], AuditLogChange::Name(_)));
    assert!(matches!(changes[1], AuditLogChange::Kind(_)));
    assert!(matches!(changes[2], AuditLogChange::PermissionOverwrites(_)));
    assert!(matches!(changes[3], AuditLogChange::Nsfw(_)));
    assert!(matches!(changes[4], AuditLogChange::RateLimitPerUser(_)));

    assert_eq!(entries[5].action_kind(), AuditLogEvent::InviteDelete);
    assert_eq!(entries[5].id(), 843340112103700000.into());
    assert_eq!(entries[5].target_id(), None);
    assert_eq!(entries[5].user_id(), Some(843299027126666666.into()));

    let changes = entries[5].changes().unwrap();
    assert_eq!(changes.len(), 7);
    assert!(matches!(changes[0], AuditLogChange::Code(_)));
    assert!(matches!(changes[1], AuditLogChange::ChannelId(_)));
    assert!(matches!(changes[2], AuditLogChange::InviterId(_)));
    assert!(matches!(changes[3], AuditLogChange::Uses(_)));
    assert!(matches!(changes[4], AuditLogChange::MaxUses(_)));
    assert!(matches!(changes[5], AuditLogChange::MaxAge(_)));
    assert!(matches!(changes[6], AuditLogChange::Temporary(_)));

    assert_eq!(entries[6].action_kind(), AuditLogEvent::InviteCreate);
    assert_eq!(entries[6].id(), 843340110657777777.into());
    assert_eq!(entries[6].target_id(), None);
    assert_eq!(entries[6].user_id(), Some(843299027126666666.into()));

    let changes = entries[6].changes().unwrap();
    assert_eq!(changes.len(), 7);
    assert!(matches!(changes[0], AuditLogChange::Code(_)));
    assert!(matches!(changes[1], AuditLogChange::ChannelId(_)));
    assert!(matches!(changes[2], AuditLogChange::InviterId(_)));
    assert!(matches!(changes[3], AuditLogChange::Uses(_)));
    assert!(matches!(changes[4], AuditLogChange::MaxUses(_)));
    assert!(matches!(changes[5], AuditLogChange::MaxAge(_)));
    assert!(matches!(changes[6], AuditLogChange::Temporary(_)));

    assert!(log.integrations().is_empty());
    assert!(log.webhooks().is_empty());

    let users = log.users();
    assert_eq!(users.len(), 2);
}
