#![allow(non_snake_case, dead_code, deprecated, unused_imports)]

use chrono::{Offset, TimeZone, Utc};

use discord2::enums::IntegerEnum;
use discord2::enums::StringEnum;
use discord2::flags::Flags;
use discord2::image::Image;
use discord2::resources::guild::AvailableGuild;
use discord2::resources::guild::DefaultMessageNotificationLevel;
use discord2::resources::guild::ExplicitContentFilterLevel;
use discord2::resources::guild::Guild;
use discord2::resources::guild::GuildFeature;
use discord2::resources::guild::MfaLevel;
use discord2::resources::guild::PremiumTier;
use discord2::resources::guild::SystemChannelFlags;
use discord2::resources::guild::UnavailableGuild;
use discord2::resources::guild::VerificationLevel;
use discord2::resources::guild::WelcomeScreen;
use discord2::snowflake::AnyId;
use discord2::snowflake::Id;
use discord2::time::DateTime;
use discord2::wire::DecodeError;
use discord2::wire::Primitive;

use serde_json::Value;

use std::convert::TryFrom;

/// The value that `text` holds.
fn json(text: &str) -> Value {
    serde_json::from_str(text).unwrap()
}

/// The primitive that the value is, as the library tells primitives apart.
fn prim(v: &Value) -> Primitive {
    match v {
        Value::Null => Primitive::Null,
        Value::Bool(b) => Primitive::Bool(*b),
        Value::Number(n) => match (n.as_u64(), n.as_i64()) {
            (Some(u), _) => Primitive::Unsigned(u),
            (None, Some(i)) => Primitive::Signed(i),
            (None, None) => Primitive::Composite,
        },
        Value::String(s) => Primitive::Text(s.clone()),
        Value::Array(_) | Value::Object(_) => Primitive::Composite,
    }
}

fn object(v: &Value) -> Result<(), DecodeError> {
    if v.is_object() {
        Ok(())
    } else {
        Err(DecodeError::TypeMismatch)
    }
}

fn only_keys(v: &Value, keys: &[&str]) -> Result<(), DecodeError> {
    match v.as_object() {
        Some(map) if map.keys().all(|k| keys.contains(&k.as_str())) => Ok(()),
        _ => Err(DecodeError::TypeMismatch),
    }
}

/// What stands under `key`, null where nothing does.
fn field(v: &Value, key: &str) -> Value {
    v.get(key).cloned().unwrap_or(Value::Null)
}

fn text(v: &Value) -> Result<String, DecodeError> {
    v.as_str().map(str::to_owned).ok_or(DecodeError::TypeMismatch)
}

fn flag(v: &Value) -> Result<bool, DecodeError> {
    v.as_bool().ok_or(DecodeError::TypeMismatch)
}

fn num(v: &Value) -> Result<u64, DecodeError> {
    v.as_u64().ok_or(DecodeError::TypeMismatch)
}

fn num32(v: &Value) -> Result<u32, DecodeError> {
    u32::try_from(num(v)?).map_err(|_| DecodeError::InvalidFormat)
}

fn closed<T: TryFrom<u64>>(v: &Value) -> Result<T, DecodeError> {
    T::try_from(num(v)?).map_err(|_| DecodeError::InvalidFormat)
}

fn opt<T>(
    v: &Value,
    read: impl Fn(&Value) -> Result<T, DecodeError>,
) -> Result<Option<T>, DecodeError> {
    if v.is_null() {
        Ok(None)
    } else {
        read(v).map(Some)
    }
}

fn list<T>(
    v: &Value,
    read: impl Fn(&Value) -> Result<T, DecodeError>,
) -> Result<Vec<T>, DecodeError> {
    v.as_array().ok_or(DecodeError::TypeMismatch)?.iter().map(read).collect()
}

/// The moment that `dt` names, as the library holds it.
fn date_time<Tz: TimeZone>(dt: &chrono::DateTime<Tz>) -> DateTime {
    DateTime {
        seconds: dt.timestamp(),
        nanos: dt.timestamp_subsec_nanos(),
        offset_seconds: dt.offset().fix().local_minus_utc(),
    }
}

fn moment(v: &Value) -> Result<DateTime, DecodeError> {
    let raw = v.as_str().ok_or(DecodeError::TypeMismatch)?;
    match chrono::DateTime::parse_from_rfc3339(raw) {
        Ok(dt) => Ok(date_time(&dt)),
        Err(_) => Err(DecodeError::InvalidFormat),
    }
}

fn b_permissions_Role(v: &Value) -> Result<discord2::permissions::Role, DecodeError> {
    object(v)?;
    Ok(discord2::permissions::Role {
        id: Id::deserialize(&prim(&field(v, "id")))?,
        name: text(&field(v, "name"))?,
        color: num32(&field(v, "color"))?,
        hoist: flag(&field(v, "hoist"))?,
        position: num(&field(v, "position"))?,
        permissions: StringEnum::deserialize(&prim(&field(v, "permissions")))?,
        managed: flag(&field(v, "managed"))?,
        mentionable: flag(&field(v, "mentionable"))?,
        tags: opt(&field(v, "tags"), |x| list(x, |x| b_permissions_RoleTag(x)))?,
    })
}

fn b_permissions_RoleTag(v: &Value) -> Result<discord2::permissions::RoleTag, DecodeError> {
    object(v)?;
    let bot_id = opt(&field(v, "bot_id"), |x| Id::deserialize(&prim(x)))?;
    let integration_id = opt(&field(v, "integration_id"), |x| Id::deserialize(&prim(x)))?;
    let premium = only_keys(v, &["bot_id", "integration_id"]).is_err();
    if premium && !field(v, "premium_subscriber").is_null() {
        return Err(DecodeError::TypeMismatch);
    }
    Ok(discord2::permissions::RoleTag::new(bot_id, integration_id, premium))
}

fn b_r_user_User(v: &Value) -> Result<discord2::resources::user::User, DecodeError> {
    object(v)?;
    Ok(discord2::resources::user::User {
        id: Id::deserialize(&prim(&field(v, "id")))?,
        username: text(&field(v, "username"))?,
        discriminator: text(&field(v, "discriminator"))?,
        avatar: opt(&field(v, "avatar"), |x| text(x))?,
        bot: opt(&field(v, "bot"), |x| flag(x))?,
        system: opt(&field(v, "system"), |x| flag(x))?,
        mfa_enabled: opt(&field(v, "mfa_enabled"), |x| flag(x))?,
        locale: opt(&field(v, "locale"), |x| text(x))?,
        verified: opt(&field(v, "verified"), |x| flag(x))?,
        email: opt(&field(v, "email"), |x| text(x))?,
        flags: opt(&field(v, "flags"), |x| IntegerEnum::deserialize(&prim(x)))?,
        premium_kind: opt(&field(v, "premium_type"), |x| IntegerEnum::deserialize(&prim(x)))?,
        public_flags: opt(&field(v, "public_flags"), |x| IntegerEnum::deserialize(&prim(x)))?,
    })
}

fn b_r_channel_ThreadMetadata(v: &Value) -> Result<discord2::resources::channel::ThreadMetadata, DecodeError> {
    object(v)?;
    Ok(discord2::resources::channel::ThreadMetadata {
        archived: flag(&field(v, "archived"))?,
        archiver_id: opt(&field(v, "archiver_id"), |x| Id::deserialize(&prim(x)))?,
        auto_archive_duration: num(&field(v, "auto_archive_duration"))?,
        archive_timestamp: moment(&field(v, "archive_timestamp"))?,
        locked: opt(&field(v, "locked"), |x| flag(x))?,
    })
}

fn b_r_channel_ThreadMember(v: &Value) -> Result<discord2::resources::channel::ThreadMember, DecodeError> {
    object(v)?;
    Ok(discord2::resources::channel::ThreadMember {
        id: Id::deserialize(&prim(&field(v, "id")))?,
        user_id: Id::deserialize(&prim(&field(v, "user_id")))?,
        join_timestamp: moment(&field(v, "join_timestamp"))?,
        flags: IntegerEnum::deserialize(&prim(&field(v, "flags")))?,
    })
}

fn b_r_channel_OverwriteId(v: &Value) -> Result<discord2::resources::channel::OverwriteId, DecodeError> {
    let pair = discord2::resources::channel::OverwriteIdHelper {
        id: AnyId::deserialize(&prim(&field(v, "id")))?,
        kind: num(&field(v, "type"))?,
    };
    pair.try_into_id().ok_or(DecodeError::InvalidFormat)
}

fn b_r_channel_Overwrite(v: &Value) -> Result<discord2::resources::channel::Overwrite, DecodeError> {
    object(v)?;
    Ok(discord2::resources::channel::Overwrite {
        id: b_r_channel_OverwriteId(v)?,
        allow: text(&field(v, "allow"))?,
        deny: text(&field(v, "deny"))?,
    })
}

fn b_r_channel_Channel(v: &Value) -> Result<discord2::resources::channel::Channel, DecodeError> {
    object(v)?;
    Ok(discord2::resources::channel::Channel {
        id: Id::deserialize(&prim(&field(v, "id")))?,
        kind: opt(&field(v, "type"), |x| IntegerEnum::deserialize(&prim(x)))?,
        guild_id: opt(&field(v, "guild_id"), |x| Id::deserialize(&prim(x)))?,
        position: opt(&field(v, "position"), |x| num(x))?,
        permission_overwrites: opt(&field(v, "permission_overwrites"), |x| list(x, |x| b_r_channel_Overwrite(x)))?,
        name: opt(&field(v, "name"), |x| text(x))?,
        topic: opt(&field(v, "topic"), |x| text(x))?,
        nsfw: opt(&field(v, "nsfw"), |x| flag(x))?,
        last_message_id: opt(&field(v, "last_message_id"), |x| Id::deserialize(&prim(x)))?,
        bitrate: opt(&field(v, "bitrate"), |x| num(x))?,
        user_limit: opt(&field(v, "user_limit"), |x| num(x))?,
        rate_limit_per_user: opt(&field(v, "rate_limit_per_user"), |x| num(x))?,
        recipients: opt(&field(v, "recipients"), |x| list(x, |x| b_r_user_User(x)))?,
        icon: opt(&field(v, "icon"), |x| text(x))?,
        owner_id: opt(&field(v, "owner_id"), |x| Id::deserialize(&prim(x)))?,
        application_id: opt(&field(v, "application_id"), |x| Id::deserialize(&prim(x)))?,
        parent_id: opt(&field(v, "parent_id"), |x| Id::deserialize(&prim(x)))?,
        last_pin_timestamp: opt(&field(v, "last_pin_timestamp"), |x| moment(x))?,
        rtc_region: opt(&field(v, "rtc_region"), |x| text(x))?,
        video_quality_mode: opt(&field(v, "video_quality_mode"), |x| IntegerEnum::deserialize(&prim(x)))?,
        message_count: opt(&field(v, "message_count"), |x| num(x))?,
        member_count: opt(&field(v, "member_count"), |x| num(x))?,
        thread_metadata: opt(&field(v, "thread_metadata"), |x| b_r_channel_ThreadMetadata(x))?,
        member: opt(&field(v, "member"), |x| b_r_channel_ThreadMember(x))?,
    })
}

fn b_r_guild_WelcomeScreen(v: &Value) -> Result<discord2::resources::guild::WelcomeScreen, DecodeError> {
    object(v)?;
    Ok(discord2::resources::guild::WelcomeScreen {
        description: opt(&field(v, "description"), |x| text(x))?,
        welcome_channels: list(&field(v, "welcome_channels"), |x| b_r_guild_WelcomeScreenChannel(x))?,
    })
}

fn b_r_guild_WelcomeScreenChannel(v: &Value) -> Result<discord2::resources::guild::WelcomeScreenChannel, DecodeError> {
    object(v)?;
    Ok(discord2::resources::guild::WelcomeScreenChannel {
        channel_id: Id::deserialize(&prim(&field(v, "channel_id")))?,
        description: text(&field(v, "description"))?,
        emoji_id: opt(&field(v, "emoji_id"), |x| Id::deserialize(&prim(x)))?,
        emoji_name: opt(&field(v, "emoji_name"), |x| text(x))?,
    })
}

fn b_r_guild_Guild(v: &Value) -> Result<discord2::resources::guild::Guild, DecodeError> {
    if let Ok(x) = b_r_guild_AvailableGuild(v) {
        return Ok(discord2::resources::guild::Guild::Available(x));
    }
    b_r_guild_UnavailableGuild(v).map(discord2::resources::guild::Guild::Unavailable)
}

fn b_r_guild_UnavailableGuild(v: &Value) -> Result<discord2::resources::guild::UnavailableGuild, DecodeError> {
    object(v)?;
    only_keys(v, &["id", "unavailable"])?;
    discord2::resources::guild::read_unavailable(field(v, "unavailable").as_bool())?;
    Ok(discord2::resources::guild::UnavailableGuild {
        id: Id::deserialize(&prim(&field(v, "id")))?,
    })
}

fn b_r_guild_AvailableGuild(v: &Value) -> Result<discord2::resources::guild::AvailableGuild, DecodeError> {
    object(v)?;
    discord2::resources::guild::read_available(field(v, "unavailable").as_bool())?;
    Ok(discord2::resources::guild::AvailableGuild {
        id: Id::deserialize(&prim(&field(v, "id")))?,
        name: text(&field(v, "name"))?,
        icon: opt(&field(v, "icon"), |x| text(x))?,
        icon_hash: opt(&field(v, "icon_hash"), |x| text(x))?,
        splash: opt(&field(v, "splash"), |x| text(x))?,
        discovery_splash: opt(&field(v, "discovery_splash"), |x| text(x))?,
        owner: opt(&field(v, "owner"), |x| flag(x))?,
        owner_id: Id::deserialize(&prim(&field(v, "owner_id")))?,
        permissions: opt(&field(v, "permissions"), |x| text(x))?,
        region: text(&field(v, "region"))?,
        afk_channel_id: opt(&field(v, "afk_channel_id"), |x| Id::deserialize(&prim(x)))?,
        afk_timeout: num(&field(v, "afk_timeout"))?,
        widget_enabled: opt(&field(v, "widget_enabled"), |x| flag(x))?,
        widget_channel_id: opt(&field(v, "widget_channel_id"), |x| Id::deserialize(&prim(x)))?,
        verification_level: IntegerEnum::deserialize(&prim(&field(v, "verification_level")))?,
        default_message_notifications: IntegerEnum::deserialize(&prim(&field(v, "default_message_notifications")))?,
        explicit_content_filter: IntegerEnum::deserialize(&prim(&field(v, "explicit_content_filter")))?,
        roles: list(&field(v, "roles"), |x| b_permissions_Role(x))?,
        emojis: list(&field(v, "emojis"), |x| b_emoji_Emoji(x))?,
        features: list(&field(v, "features"), |x| StringEnum::deserialize(&prim(x)))?,
        mfa_level: IntegerEnum::deserialize(&prim(&field(v, "mfa_level")))?,
        application_id: opt(&field(v, "application_id"), |x| Id::deserialize(&prim(x)))?,
        system_channel_id: opt(&field(v, "system_channel_id"), |x| Id::deserialize(&prim(x)))?,
        system_channel_flags: IntegerEnum::deserialize(&prim(&field(v, "system_channel_flags")))?,
        rules_channel_id: opt(&field(v, "rules_channel_id"), |x| Id::deserialize(&prim(x)))?,
        joined_at: opt(&field(v, "joined_at"), |x| moment(x))?,
        large: opt(&field(v, "large"), |x| flag(x))?,
        member_count: opt(&field(v, "member_count"), |x| num(x))?,
        voice_states: opt(&field(v, "voice_states"), |x| list(x, |x| b_r_voice_VoiceState(x)))?,
        members: opt(&field(v, "members"), |x| list(x, |x| b_r_guild_GuildMember(x)))?,
        channels: opt(&field(v, "channels"), |x| list(x, |x| b_r_channel_Channel(x)))?,
        threads: opt(&field(v, "threads"), |x| list(x, |x| b_r_channel_Channel(x)))?,
        max_presences: opt(&field(v, "max_presences"), |x| num(x))?,
        max_members: opt(&field(v, "max_members"), |x| num(x))?,
        vanity_url_code: opt(&field(v, "vanity_url_code"), |x| text(x))?,
        description: opt(&field(v, "description"), |x| text(x))?,
        banner: opt(&field(v, "banner"), |x| text(x))?,
        premium_tier: IntegerEnum::deserialize(&prim(&field(v, "premium_tier")))?,
        premium_subscription_count: opt(&field(v, "premium_subscription_count"), |x| num(x))?,
        preferred_locale: text(&field(v, "preferred_locale"))?,
        public_updates_channel_id: opt(&field(v, "public_updates_channel_id"), |x| Id::deserialize(&prim(x)))?,
        max_video_channel_users: opt(&field(v, "max_video_channel_users"), |x| num(x))?,
        approximate_member_count: opt(&field(v, "approximate_member_count"), |x| num(x))?,
        welcome_screen: opt(&field(v, "welcome_screen"), |x| b_r_guild_WelcomeScreen(x))?,
        nsfw: opt(&field(v, "nsfw"), |x| flag(x))?,
    })
}

fn b_r_guild_GuildMember(v: &Value) -> Result<discord2::resources::guild::GuildMember, DecodeError> {
    object(v)?;
    Ok(discord2::resources::guild::GuildMember {
        user: opt(&field(v, "user"), |x| b_r_user_User(x))?,
        nick: opt(&field(v, "nick"), |x| text(x))?,
        roles: list(&field(v, "roles"), |x| Id::deserialize(&prim(x)))?,
        joined_at: moment(&field(v, "joined_at"))?,
        premium_since: opt(&field(v, "premium_since"), |x| moment(x))?,
        deaf: flag(&field(v, "deaf"))?,
        mute: flag(&field(v, "mute"))?,
        pending: opt(&field(v, "pending"), |x| flag(x))?,
        permissions: opt(&field(v, "permissions"), |x| text(x))?,
    })
}

fn b_r_voice_VoiceState(v: &Value) -> Result<discord2::resources::voice::VoiceState, DecodeError> {
    object(v)?;
    Ok(discord2::resources::voice::VoiceState {
        guild_id: opt(&field(v, "guild_id"), |x| Id::deserialize(&prim(x)))?,
        channel_id: opt(&field(v, "channel_id"), |x| Id::deserialize(&prim(x)))?,
        user_id: Id::deserialize(&prim(&field(v, "user_id")))?,
        member: opt(&field(v, "member"), |x| b_r_guild_GuildMember(x))?,
        session_id: text(&field(v, "session_id"))?,
        deaf: flag(&field(v, "deaf"))?,
        mute: flag(&field(v, "mute"))?,
        self_deaf: flag(&field(v, "self_deaf"))?,
        self_mute: flag(&field(v, "self_mute"))?,
        self_stream: opt(&field(v, "self_stream"), |x| flag(x))?,
        self_video: opt(&field(v, "self_video"), |x| flag(x))?,
        suppress: flag(&field(v, "suppress"))?,
        request_to_speak_timestamp: opt(&field(v, "request_to_speak_timestamp"), |x| moment(x))?,
    })
}

fn b_emoji_Emoji(v: &Value) -> Result<discord2::emoji::Emoji, DecodeError> {
    object(v)?;
    Ok(discord2::emoji::Emoji {
        id: opt(&field(v, "id"), |x| Id::deserialize(&prim(x)))?,
        name: opt(&field(v, "name"), |x| text(x))?,
        roles: opt(&field(v, "roles"), |x| list(x, |x| Id::deserialize(&prim(x))))?,
        user: opt(&field(v, "user"), |x| b_user_User(x))?,
        require_colons: opt(&field(v, "require_colons"), |x| flag(x))?,
        managed: opt(&field(v, "managed"), |x| flag(x))?,
        animated: opt(&field(v, "animated"), |x| flag(x))?,
        available: opt(&field(v, "available"), |x| flag(x))?,
    })
}

fn b_user_User(v: &Value) -> Result<discord2::user::User, DecodeError> {
    object(v)?;
    Ok(discord2::user::User {
        id: Id::deserialize(&prim(&field(v, "id")))?,
        username: text(&field(v, "username"))?,
        discriminator: text(&field(v, "discriminator"))?,
        avatar: opt(&field(v, "avatar"), |x| text(x))?,
        bot: opt(&field(v, "bot"), |x| flag(x))?,
        system: opt(&field(v, "system"), |x| flag(x))?,
        mfa_enabled: opt(&field(v, "mfa_enabled"), |x| flag(x))?,
        locale: opt(&field(v, "locale"), |x| text(x))?,
        verified: opt(&field(v, "verified"), |x| flag(x))?,
        email: opt(&field(v, "email"), |x| text(x))?,
        flags: opt(&field(v, "flags"), |x| num(x))?,
        premium_kind: opt(&field(v, "premium_type"), |x| num(x).map(From::from))?,
        public_flags: opt(&field(v, "public_flags"), |x| num(x))?,
    })
}

#[test]
fn guild_deserialize_guild_features() {
    let json = json(
        r#"["ANIMATED_ICON", "BANNER", "FLOOP"]"#,
    );

    let features: Vec<StringEnum<GuildFeature>> =
        list(&json, |x| StringEnum::deserialize(&prim(x))).unwrap();

    assert_eq!(features.len(), 3);
    assert_eq!(features[0].unwrap(), GuildFeature::AnimatedIcon);
    assert_eq!(features[1].unwrap(), GuildFeature::Banner);
    assert_eq!(features[2].to_string(), "FLOOP");
}

#[test]
fn guild_deserialize_guild_available() {
    let json = json(
        r#"{
        "id": "197038439483310086",
        "name": "Discord Testers",
        "icon": "f64c482b807da4f539cff778d174971c",
        "description": "The official place to report Discord Bugs!",
        "splash": null,
        "discovery_splash": null,
        "features": [
            "ANIMATED_ICON",
            "VERIFIED",
            "NEWS",
            "VANITY_URL",
            "DISCOVERABLE",
            "MORE_EMOJI",
            "INVITE_SPLASH",
            "BANNER",
            "COMMUNITY"
        ],
        "emojis": [],
        "banner": "9b6439a7de04f1d26af92f84ac9e1e4a",
        "owner_id": "73193882359173120",
        "application_id": null,
        "region": "us-west",
        "afk_channel_id": null,
        "afk_timeout": 300,
        "system_channel_id": null,
        "widget_enabled": true,
        "widget_channel_id": null,
        "verification_level": 3,
        "roles": [],
        "default_message_notifications": 1,
        "mfa_level": 1,
        "explicit_content_filter": 2,
        "max_presences": 40000,
        "max_members": 250000,
        "vanity_url_code": "discord-testers",
        "premium_tier": 3,
        "premium_subscription_count": 33,
        "system_channel_flags": 0,
        "preferred_locale": "en-US",
        "rules_channel_id": "441688182833020939",
        "public_updates_channel_id": "281283303326089216"
    }"#,
    );

    let guild: Guild = b_r_guild_Guild(&json).unwrap();
    let avail = guild.into_available().unwrap();

    assert_eq!(avail.id(), 197038439483310086.into());
    assert_eq!(avail.name(), "Discord Testers");
    assert_eq!(avail.icon(), Some("f64c482b807da4f539cff778d174971c"));
    assert_eq!(
        avail.description(),
        Some("The official place to report Discord Bugs!")
    );

    assert!(avail.splash().is_none());
    assert!(avail.discovery_splash().is_none());

    let features: Vec<_> = avail.try_features().to_vec();
    assert_eq!(features.len(), 9);
    assert_eq!(features[0].unwrap(), GuildFeature::AnimatedIcon);
    assert_eq!(features[1].unwrap(), GuildFeature::Verified);
    assert_eq!(features[2].unwrap(), GuildFeature::News);
    assert_eq!(features[3].unwrap(), GuildFeature::VanityUrl);
    assert_eq!(features[4].unwrap(), GuildFeature::Discoverable);
    assert_eq!(features[5].to_string(), "MORE_EMOJI");
    assert_eq!(features[6].unwrap(), GuildFeature::InviteSplash);
    assert_eq!(features[7].unwrap(), GuildFeature::Banner);
    assert_eq!(features[8].unwrap(), GuildFeature::Community);

    assert!(avail.emojis().is_empty());

    assert_eq!(avail.banner(), Some("9b6439a7de04f1d26af92f84ac9e1e4a"));
    assert_eq!(avail.owner_id(), 73193882359173120.into());
    assert_eq!(avail.application_id(), None);
    assert_eq!(avail.region(), "us-west");
    assert_eq!(avail.afk_channel_id(), None);
    assert_eq!(avail.afk_timeout(), 300);
    assert_eq!(avail.system_channel_id(), None);
    assert_eq!(avail.widget_enabled(), Some(true));
    assert_eq!(avail.widget_channel_id(), None);
    assert_eq!(avail.verification_level(), VerificationLevel::High);
    assert!(avail.roles().is_empty());
    assert_eq!(
        avail.default_message_notifications(),
        DefaultMessageNotificationLevel::OnlyMentions
    );
    assert_eq!(avail.mfa_level(), MfaLevel::Elevated);
    assert_eq!(
        avail.explicit_content_filter(),
        ExplicitContentFilterLevel::AllMembers
    );
    assert_eq!(avail.max_presences(), Some(40_000));
    assert_eq!(avail.max_members(), Some(250_000));
    assert_eq!(avail.vanity_url_code(), Some("discord-testers"));
    assert_eq!(avail.premium_tier(), PremiumTier::Tier3);
    assert_eq!(avail.premium_subscription_count(), Some(33));
    assert_eq!(avail.system_channel_flags(), SystemChannelFlags::empty());
    assert_eq!(avail.preferred_locale(), "en-US");
    assert_eq!(avail.rules_channel_id(), Some(441688182833020939.into()));
    assert_eq!(
        avail.public_updates_channel_id(),
        Some(281283303326089216.into())
    );
}

#[test]
fn guild_deserialize_guild_unavailable() {
    let json = json(
        r#"{
        "id": "41771983423143937",
        "unavailable": true
    }"#,
    );

    let guild: Guild = b_r_guild_Guild(&json).unwrap();
    let unavailable = guild.into_unavailable().unwrap();
    assert_eq!(unavailable.id(), 41771983423143937.into());
    assert_eq!(unavailable.unavailable(), true);
}

#[test]
fn guild_deserialize_unavailable_guild_available() {
    let json = json(
        r#"{
        "id": "41771983423143937",
        "unavailable": false
    }"#,
    );

    let guild: Result<UnavailableGuild, _> = b_r_guild_UnavailableGuild(&json);
    guild.unwrap_err();
}

#[test]
fn guild_deserialize_available_guild_unavailable() {
    let json = json(
        r#"{
        "unavailable": true,
        "id": "197038439483310086",
        "name": "Discord Testers",
        "icon": "f64c482b807da4f539cff778d174971c",
        "description": "The official place to report Discord Bugs!",
        "splash": null,
        "discovery_splash": null,
        "features": [
            "ANIMATED_ICON",
            "VERIFIED",
            "NEWS",
            "VANITY_URL",
            "DISCOVERABLE",
            "MORE_EMOJI",
            "INVITE_SPLASH",
            "BANNER",
            "COMMUNITY"
        ],
        "emojis": [],
        "banner": "9b6439a7de04f1d26af92f84ac9e1e4a",
        "owner_id": "73193882359173120",
        "application_id": null,
        "region": "us-west",
        "afk_channel_id": null,
        "afk_timeout": 300,
        "system_channel_id": null,
        "widget_enabled": true,
        "widget_channel_id": null,
        "verification_level": 3,
        "roles": [],
        "default_message_notifications": 1,
        "mfa_level": 1,
        "explicit_content_filter": 2,
        "max_presences": 40000,
        "max_members": 250000,
        "vanity_url_code": "discord-testers",
        "premium_tier": 3,
        "premium_subscription_count": 33,
        "system_channel_flags": 0,
        "preferred_locale": "en-US",
        "rules_channel_id": "441688182833020939",
        "public_updates_channel_id": "281283303326089216"
    }"#,
    );

    let guild: Result<AvailableGuild, _> = b_r_guild_AvailableGuild(&json);
    guild.unwrap_err();
}

#[test]
fn guild_deserialize_welcome_screen() {
    let json = json(
        r#"{
        "description": "Discord Developers...",
        "welcome_channels": [
        {
            "channel_id": "697138785317814292",
            "description": "Follow for official Discord API updates",
            "emoji_id": null,
            "emoji_name": "📡"
        },
        {
            "channel_id": "697236247739105340",
            "description": "Get help with Bot Verifications",
            "emoji_id": null,
            "emoji_name": "📸"
        },
        {
            "channel_id": "697489244649816084",
            "description": "Create amazing things with Discord's API",
            "emoji_id": null,
            "emoji_name": "🔬"
        },
        {
            "channel_id": "613425918748131338",
            "description": "Integrate Discord into your game",
            "emoji_id": null,
            "emoji_name": "🎮"
        },
        {
            "channel_id": "646517734150242346",
            "description": "Find more places to help you on your quest",
            "emoji_id": null,
            "emoji_name": "🔦"
        }
        ]
    }"#,
    );

    let scrn: WelcomeScreen = b_r_guild_WelcomeScreen(&json).unwrap();

    assert_eq!(scrn.description(), Some("Discord Developers..."));

    let channels = scrn.welcome_channels();
    assert_eq!(channels.len(), 5);

    assert_eq!(channels[0].channel_id(), 697138785317814292.into());
    assert_eq!(
        channels[0].description(),
        "Follow for official Discord API updates"
    );
    assert_eq!(channels[0].emoji_id(), None);
    assert_eq!(channels[0].emoji_name(), Some("\u{1F4E1}"));

    assert_eq!(channels[1].channel_id(), 697236247739105340.into());
    assert_eq!(
        channels[1].description(),
        "Get help with Bot Verifications"
    );
    assert_eq!(channels[1].emoji_id(), None);
    assert_eq!(channels[1].emoji_name(), Some("\u{1F4F8}"));

    assert_eq!(channels[2].channel_id(), 697489244649816084.into());
    assert_eq!(
        channels[2].description(),
        "Create amazing things with Discord's API"
    );
    assert_eq!(channels[2].emoji_id(), None);
    assert_eq!(channels[2].emoji_name(), Some("\u{1F52C}"));

    assert_eq!(channels[3].channel_id(), 613425918748131338.into());
    assert_eq!(
        channels[3].description(),
        "Integrate Discord into your game"
    );
    assert_eq!(channels[3].emoji_id(), None);
    assert_eq!(channels[3].emoji_name(), Some("\u{1F3AE}"));

    assert_eq!(channels[4].channel_id(), 646517734150242346.into());
    assert_eq!(
        channels[4].description(),
        "Find more places to help you on your quest"
    );
    assert_eq!(channels[4].emoji_id(), None);
    assert_eq!(channels[4].emoji_name(), Some("\u{1F526}"));
}
