//! The audit log of a guild: who changed what.

use vstd::prelude::*;
use core::str::FromStr;

use crate::application::ApplicationId;
use crate::borrow::{opt_ref, opt_slice, opt_str, same_items, same_text, same_value};
use crate::entity;
use crate::enums::{
    EnumFromIntegerError, Inner, IntegerEnum, ParseEnumError, ReadWireString, StringEnum,
    WireInteger, WireString,
};
use crate::permissions::RoleId;
use crate::resources::channel::{ChannelId, ChannelKind, MessageId, Overwrite};
use crate::resources::guild::{
    DefaultMessageNotificationLevel, ExplicitContentFilterLevel, IntegrationAccount,
    IntegrationExpireBehavior, IntegrationId, MfaLevel, VerificationLevel,
};
use crate::resources::webhook::Webhook;
use crate::snowflake::{AnyId, Id};
use crate::text::str_eq;
use crate::user::{User, UserId};

verus! {

/// A value of any shape, as `serde_json` holds it. Nothing here looks
/// inside one: a change carries its values through to the one who knows
/// what type they are of.
#[verifier::external_type_specification]
#[verifier::external_body]
pub struct ExValue(serde_json::Value);

/// Why the key of a change could not be read.
#[derive(Debug)]
pub enum FromRawAuditLogChangeError {
    /// The key of the change is none that is known.
    UnrecognizedKind { change: RawAuditLogChange },
}

/// A role as a change names it.
#[derive(Debug, Clone)]
pub struct AuditLogRole {
    pub id: RoleId,
    pub name: String,
}

impl AuditLogRole {
    pub fn id(&self) -> (r: RoleId)
        ensures
            r == self.id,
    {
        self.id
    }

    pub fn name(&self) -> (r: &str)
        ensures
            r@ == self.name@,
    {
        self.name.as_str()
    }
}

/// Whether an overwrite that was changed is for a role or for a member.
#[derive(Debug, Clone, Copy, Hash, Eq, PartialEq, Structural)]
pub enum EntityKind {
    Role,
    Member,
}

impl ReadWireString for EntityKind {
    open spec fn of_text(text: Seq<char>) -> Option<Self> {
        if text == "0"@ {
            Some(EntityKind::Role)
        } else if text == "1"@ {
            Some(EntityKind::Member)
        } else {
            None
        }
    }

    fn read_wire(text: &str) -> (r: Option<Self>) {
        if str_eq(text, "0") {
            Some(EntityKind::Role)
        } else if str_eq(text, "1") {
            Some(EntityKind::Member)
        } else {
            None
        }
    }
}

impl WireString for EntityKind {
    open spec fn text(self) -> Seq<char> {
        match self {
            EntityKind::Role => "0"@,
            EntityKind::Member => "1"@,
        }
    }

    proof fn lemma_text_is_read_back(self) {
        reveal_strlit("0");
        reveal_strlit("1");
        assert("0"@.len() == 1 && "0"@[0] == '0');
        assert("1"@.len() == 1 && "1"@[0] == '1');
    }

    proof fn lemma_of_text_is_exact(text: Seq<char>) {
    }

    fn as_wire(&self) -> (r: &str) {
        match self {
            EntityKind::Role => "0",
            EntityKind::Member => "1",
        }
    }
}

impl EntityKind {
    /// The string that the value travels as.
    pub fn as_ref(&self) -> (r: &str)
        ensures
            r@ == self.text(),
    {
        self.as_wire()
    }

    /// As it is shown: the string that the value travels as.
    pub fn to_string(&self) -> (r: String)
        ensures
            r@ == self.text(),
    {
        self.as_wire().to_owned()
    }

    /// The value that `txt` names, or `txt` back where it names none.
    pub fn parse(txt: &str) -> (r: Result<Self, ParseEnumError>)
        ensures
            match r {
                Ok(v) => Self::of_text(txt@) == Some(v),
                Err(e) => Self::of_text(txt@) is None && e.raw@ == txt@,
            },
    {
        match Self::read_wire(txt) {
            Some(v) => Ok(v),
            None => Err(ParseEnumError::new(txt.to_owned())),
        }
    }
}

impl FromStr for EntityKind {
    type Err = ParseEnumError;

    fn from_str(txt: &str) -> (r: Result<Self, ParseEnumError>)
        ensures
            match r {
                Ok(v) => Self::of_text(txt@) == Some(v),
                Err(e) => Self::of_text(txt@) is None && e.raw@ == txt@,
            },
    {
        Self::parse(txt)
    }
}

/// What an entry says beyond its changes; which of it is there depends on what
/// was done.
#[derive(Debug, Clone)]
pub struct AuditEntryInfo {
    pub delete_member_days: Option<String>,
    pub members_removed: Option<String>,
    pub channel_id: Option<ChannelId>,
    pub message_id: Option<MessageId>,
    pub count: Option<String>,
    pub id: Option<AnyId>,
    pub kind: Option<StringEnum<EntityKind>>,
    pub role_name: Option<String>,
}

impl AuditEntryInfo {
    pub fn delete_member_days(&self) -> (r: Option<&str>)
        ensures
            same_text(r, self.delete_member_days),
    {
        opt_str(&self.delete_member_days)
    }

    pub fn members_removed(&self) -> (r: Option<&str>)
        ensures
            same_text(r, self.members_removed),
    {
        opt_str(&self.members_removed)
    }

    pub fn channel_id(&self) -> (r: Option<ChannelId>)
        ensures
            r == self.channel_id,
    {
        self.channel_id
    }

    pub fn message_id(&self) -> (r: Option<MessageId>)
        ensures
            r == self.message_id,
    {
        self.message_id
    }

    pub fn count(&self) -> (r: Option<&str>)
        ensures
            same_text(r, self.count),
    {
        opt_str(&self.count)
    }

    pub fn id(&self) -> (r: Option<AnyId>)
        ensures
            r == self.id,
    {
        self.id
    }

    pub fn try_kind(&self) -> (r: Option<Result<EntityKind, ParseEnumError>>)
        ensures
            r == match self.kind {
                Some(e) => Some(e.spec_try_unwrap()),
                None => None,
            },
    {
        match &self.kind {
            Some(e) => Some(e.try_unwrap()),
            None => None,
        }
    }

    pub fn kind(&self) -> (r: Option<EntityKind>)
        requires
            self.kind matches Some(e) ==> e.0 is Parsed,
        ensures
            r == match self.kind {
                Some(e) => Some(e.0->Parsed_0),
                None => None,
            },
    {
        match &self.kind {
            Some(e) => Some(e.unwrap()),
            None => None,
        }
    }

    pub fn role_name(&self) -> (r: Option<&str>)
        ensures
            same_text(r, self.role_name),
    {
        opt_str(&self.role_name)
    }
}

/// The kind of a channel or of an integration, whichever a change of kind is
/// about.
#[derive(Debug, Clone)]
pub enum AuditLogKindValue {
    ChannelKind(IntegerEnum<ChannelKind>),
    String(String),
}

/// The value of something before a change and after it. One of the two is
/// absent where the thing was made or removed.
#[derive(Debug, Clone, Copy, Hash)]
pub struct AuditLogValues<T> {
    pub new: Option<T>,
    pub old: Option<T>,
}

/// A change as it travels: the key that says what changed, and the values
/// before and after, whose type depends on the key.
#[derive(Debug)]
pub struct RawAuditLogChange {
    pub key: String,
    pub new_value: Option<serde_json::Value>,
    pub old_value: Option<serde_json::Value>,
}

impl RawAuditLogChange {
    pub fn key(&self) -> (r: &str)
        ensures
            r@ == self.key@,
    {
        self.key.as_str()
    }

    /// What the change is about: the first step of reading it. A change
    /// whose key is none that is known comes back whole inside the error.
    pub fn kind(self) -> (r: Result<(AuditLogChangeKey, RawAuditLogChange), FromRawAuditLogChangeError>)
        ensures
            match r {
                Ok((k, raw)) => AuditLogChangeKey::of_text(self.key@) == Some(k) && raw == self,
                Err(e) => AuditLogChangeKey::of_text(self.key@) is None && e == (
                    FromRawAuditLogChangeError::UnrecognizedKind { change: self }),
            },
    {
        match AuditLogChangeKey::read_wire(self.key.as_str()) {
            Some(k) => Ok((k, self)),
            None => Err(FromRawAuditLogChangeError::UnrecognizedKind { change: self }),
        }
    }
}

/// A change of one property of a thing.
#[derive(Debug, Clone)]
pub enum AuditLogChange {
    Name(AuditLogValues<String>),
    Description(AuditLogValues<String>),
    IconHash(AuditLogValues<String>),
    SplashHash(AuditLogValues<String>),
    DiscoverySplashHash(AuditLogValues<String>),
    BannerHash(AuditLogValues<String>),
    OwnerId(AuditLogValues<UserId>),
    Region(AuditLogValues<String>),
    PreferredLocale(AuditLogValues<String>),
    AfkChannelId(AuditLogValues<ChannelId>),
    AfkTimeout(AuditLogValues<u64>),
    RulesChannelId(AuditLogValues<ChannelId>),
    PublicUpdatesChannelId(AuditLogValues<ChannelId>),
    MfaLevel(AuditLogValues<IntegerEnum<MfaLevel>>),
    VerificationLevel(AuditLogValues<IntegerEnum<VerificationLevel>>),
    ExplicitContentFilter(AuditLogValues<IntegerEnum<ExplicitContentFilterLevel>>),
    DefaultMessageNotifications(AuditLogValues<IntegerEnum<DefaultMessageNotificationLevel>>),
    VanityUrlCode(AuditLogValues<String>),
    RoleAdd(AuditLogValues<AuditLogRole>),
    RoleRemove(AuditLogValues<AuditLogRole>),
    PruneDeleteDays(AuditLogValues<u64>),
    WidgetEnabled(AuditLogValues<bool>),
    WidgetChannelId(AuditLogValues<ChannelId>),
    SystemChannelId(AuditLogValues<ChannelId>),
    Position(AuditLogValues<u64>),
    Topic(AuditLogValues<String>),
    Bitrate(AuditLogValues<u64>),
    PermissionOverwrites(AuditLogValues<Vec<Overwrite>>),
    Nsfw(AuditLogValues<bool>),
    ApplicationId(AuditLogValues<ApplicationId>),
    RateLimitPerUser(AuditLogValues<u64>),
    Permissions(AuditLogValues<String>),
    Color(AuditLogValues<u32>),
    Hoist(AuditLogValues<bool>),
    Mentionable(AuditLogValues<bool>),
    Allow(AuditLogValues<String>),
    Deny(AuditLogValues<String>),
    Code(AuditLogValues<String>),
    ChannelId(AuditLogValues<ChannelId>),
    InviterId(AuditLogValues<UserId>),
    MaxUses(AuditLogValues<u64>),
    Uses(AuditLogValues<u64>),
    MaxAge(AuditLogValues<u64>),
    Temporary(AuditLogValues<bool>),
    Deaf(AuditLogValues<bool>),
    Mute(AuditLogValues<bool>),
    Nick(AuditLogValues<String>),
    AvatarHash(AuditLogValues<String>),
    Id(AuditLogValues<AnyId>),
    Kind(AuditLogValues<AuditLogKindValue>),
    EnableEmoticons(AuditLogValues<bool>),
    ExpireBehavior(AuditLogValues<IntegerEnum<IntegrationExpireBehavior>>),
    ExpireGracePeriod(AuditLogValues<u64>),
    UserLimit(AuditLogValues<u64>),
}

impl AuditLogChange {
    /// What the change is about.
    pub open spec fn spec_key(self) -> AuditLogChangeKey {
        match self {
            AuditLogChange::Name(_) => AuditLogChangeKey::Name,
            AuditLogChange::Description(_) => AuditLogChangeKey::Description,
            AuditLogChange::IconHash(_) => AuditLogChangeKey::IconHash,
            AuditLogChange::SplashHash(_) => AuditLogChangeKey::SplashHash,
            AuditLogChange::DiscoverySplashHash(_) => AuditLogChangeKey::DiscoverySplashHash,
            AuditLogChange::BannerHash(_) => AuditLogChangeKey::BannerHash,
            AuditLogChange::OwnerId(_) => AuditLogChangeKey::OwnerId,
            AuditLogChange::Region(_) => AuditLogChangeKey::Region,
            AuditLogChange::PreferredLocale(_) => AuditLogChangeKey::PreferredLocale,
            AuditLogChange::AfkChannelId(_) => AuditLogChangeKey::AfkChannelId,
            AuditLogChange::AfkTimeout(_) => AuditLogChangeKey::AfkTimeout,
            AuditLogChange::RulesChannelId(_) => AuditLogChangeKey::RulesChannelId,
            AuditLogChange::PublicUpdatesChannelId(_) => AuditLogChangeKey::PublicUpdatesChannelId,
            AuditLogChange::MfaLevel(_) => AuditLogChangeKey::MfaLevel,
            AuditLogChange::VerificationLevel(_) => AuditLogChangeKey::VerificationLevel,
            AuditLogChange::ExplicitContentFilter(_) => AuditLogChangeKey::ExplicitContentFilter,
            AuditLogChange::DefaultMessageNotifications(_) => AuditLogChangeKey::DefaultMessageNotifications,
            AuditLogChange::VanityUrlCode(_) => AuditLogChangeKey::VanityUrlCode,
            AuditLogChange::RoleAdd(_) => AuditLogChangeKey::RoleAdd,
            AuditLogChange::RoleRemove(_) => AuditLogChangeKey::RoleRemove,
            AuditLogChange::PruneDeleteDays(_) => AuditLogChangeKey::PruneDeleteDays,
            AuditLogChange::WidgetEnabled(_) => AuditLogChangeKey::WidgetEnabled,
            AuditLogChange::WidgetChannelId(_) => AuditLogChangeKey::WidgetChannelId,
            AuditLogChange::SystemChannelId(_) => AuditLogChangeKey::SystemChannelId,
            AuditLogChange::Position(_) => AuditLogChangeKey::Position,
            AuditLogChange::Topic(_) => AuditLogChangeKey::Topic,
            AuditLogChange::Bitrate(_) => AuditLogChangeKey::Bitrate,
            AuditLogChange::PermissionOverwrites(_) => AuditLogChangeKey::PermissionOverwrites,
            AuditLogChange::Nsfw(_) => AuditLogChangeKey::Nsfw,
            AuditLogChange::ApplicationId(_) => AuditLogChangeKey::ApplicationId,
            AuditLogChange::RateLimitPerUser(_) => AuditLogChangeKey::RateLimitPerUser,
            AuditLogChange::Permissions(_) => AuditLogChangeKey::Permissions,
            AuditLogChange::Color(_) => AuditLogChangeKey::Color,
            AuditLogChange::Hoist(_) => AuditLogChangeKey::Hoist,
            AuditLogChange::Mentionable(_) => AuditLogChangeKey::Mentionable,
            AuditLogChange::Allow(_) => AuditLogChangeKey::Allow,
            AuditLogChange::Deny(_) => AuditLogChangeKey::Deny,
            AuditLogChange::Code(_) => AuditLogChangeKey::Code,
            AuditLogChange::ChannelId(_) => AuditLogChangeKey::ChannelId,
            AuditLogChange::InviterId(_) => AuditLogChangeKey::InviterId,
            AuditLogChange::MaxUses(_) => AuditLogChangeKey::MaxUses,
            AuditLogChange::Uses(_) => AuditLogChangeKey::Uses,
            AuditLogChange::MaxAge(_) => AuditLogChangeKey::MaxAge,
            AuditLogChange::Temporary(_) => AuditLogChangeKey::Temporary,
            AuditLogChange::Deaf(_) => AuditLogChangeKey::Deaf,
            AuditLogChange::Mute(_) => AuditLogChangeKey::Mute,
            AuditLogChange::Nick(_) => AuditLogChangeKey::Nick,
            AuditLogChange::AvatarHash(_) => AuditLogChangeKey::AvatarHash,
            AuditLogChange::Id(_) => AuditLogChangeKey::Id,
            AuditLogChange::Kind(_) => AuditLogChangeKey::Kind,
            AuditLogChange::EnableEmoticons(_) => AuditLogChangeKey::EnableEmoticons,
            AuditLogChange::ExpireBehavior(_) => AuditLogChangeKey::ExpireBehavior,
            AuditLogChange::ExpireGracePeriod(_) => AuditLogChangeKey::ExpireGracePeriod,
            AuditLogChange::UserLimit(_) => AuditLogChangeKey::UserLimit,
        }
    }

    /// What the change is about.
    pub fn key(&self) -> (r: AuditLogChangeKey)
        ensures
            r == self.spec_key(),
    {
        match self {
            AuditLogChange::Name(_) => AuditLogChangeKey::Name,
            AuditLogChange::Description(_) => AuditLogChangeKey::Description,
            AuditLogChange::IconHash(_) => AuditLogChangeKey::IconHash,
            AuditLogChange::SplashHash(_) => AuditLogChangeKey::SplashHash,
            AuditLogChange::DiscoverySplashHash(_) => AuditLogChangeKey::DiscoverySplashHash,
            AuditLogChange::BannerHash(_) => AuditLogChangeKey::BannerHash,
            AuditLogChange::OwnerId(_) => AuditLogChangeKey::OwnerId,
            AuditLogChange::Region(_) => AuditLogChangeKey::Region,
            AuditLogChange::PreferredLocale(_) => AuditLogChangeKey::PreferredLocale,
            AuditLogChange::AfkChannelId(_) => AuditLogChangeKey::AfkChannelId,
            AuditLogChange::AfkTimeout(_) => AuditLogChangeKey::AfkTimeout,
            AuditLogChange::RulesChannelId(_) => AuditLogChangeKey::RulesChannelId,
            AuditLogChange::PublicUpdatesChannelId(_) => AuditLogChangeKey::PublicUpdatesChannelId,
            AuditLogChange::MfaLevel(_) => AuditLogChangeKey::MfaLevel,
            AuditLogChange::VerificationLevel(_) => AuditLogChangeKey::VerificationLevel,
            AuditLogChange::ExplicitContentFilter(_) => AuditLogChangeKey::ExplicitContentFilter,
            AuditLogChange::DefaultMessageNotifications(_) => AuditLogChangeKey::DefaultMessageNotifications,
            AuditLogChange::VanityUrlCode(_) => AuditLogChangeKey::VanityUrlCode,
            AuditLogChange::RoleAdd(_) => AuditLogChangeKey::RoleAdd,
            AuditLogChange::RoleRemove(_) => AuditLogChangeKey::RoleRemove,
            AuditLogChange::PruneDeleteDays(_) => AuditLogChangeKey::PruneDeleteDays,
            AuditLogChange::WidgetEnabled(_) => AuditLogChangeKey::WidgetEnabled,
            AuditLogChange::WidgetChannelId(_) => AuditLogChangeKey::WidgetChannelId,
            AuditLogChange::SystemChannelId(_) => AuditLogChangeKey::SystemChannelId,
            AuditLogChange::Position(_) => AuditLogChangeKey::Position,
            AuditLogChange::Topic(_) => AuditLogChangeKey::Topic,
            AuditLogChange::Bitrate(_) => AuditLogChangeKey::Bitrate,
            AuditLogChange::PermissionOverwrites(_) => AuditLogChangeKey::PermissionOverwrites,
            AuditLogChange::Nsfw(_) => AuditLogChangeKey::Nsfw,
            AuditLogChange::ApplicationId(_) => AuditLogChangeKey::ApplicationId,
            AuditLogChange::RateLimitPerUser(_) => AuditLogChangeKey::RateLimitPerUser,
            AuditLogChange::Permissions(_) => AuditLogChangeKey::Permissions,
            AuditLogChange::Color(_) => AuditLogChangeKey::Color,
            AuditLogChange::Hoist(_) => AuditLogChangeKey::Hoist,
            AuditLogChange::Mentionable(_) => AuditLogChangeKey::Mentionable,
            AuditLogChange::Allow(_) => AuditLogChangeKey::Allow,
            AuditLogChange::Deny(_) => AuditLogChangeKey::Deny,
            AuditLogChange::Code(_) => AuditLogChangeKey::Code,
            AuditLogChange::ChannelId(_) => AuditLogChangeKey::ChannelId,
            AuditLogChange::InviterId(_) => AuditLogChangeKey::InviterId,
            AuditLogChange::MaxUses(_) => AuditLogChangeKey::MaxUses,
            AuditLogChange::Uses(_) => AuditLogChangeKey::Uses,
            AuditLogChange::MaxAge(_) => AuditLogChangeKey::MaxAge,
            AuditLogChange::Temporary(_) => AuditLogChangeKey::Temporary,
            AuditLogChange::Deaf(_) => AuditLogChangeKey::Deaf,
            AuditLogChange::Mute(_) => AuditLogChangeKey::Mute,
            AuditLogChange::Nick(_) => AuditLogChangeKey::Nick,
            AuditLogChange::AvatarHash(_) => AuditLogChangeKey::AvatarHash,
            AuditLogChange::Id(_) => AuditLogChangeKey::Id,
            AuditLogChange::Kind(_) => AuditLogChangeKey::Kind,
            AuditLogChange::EnableEmoticons(_) => AuditLogChangeKey::EnableEmoticons,
            AuditLogChange::ExpireBehavior(_) => AuditLogChangeKey::ExpireBehavior,
            AuditLogChange::ExpireGracePeriod(_) => AuditLogChangeKey::ExpireGracePeriod,
            AuditLogChange::UserLimit(_) => AuditLogChangeKey::UserLimit,
        }
    }
}

/// What of a thing a change is about. Each travels as the key that the change
/// stands under.
#[derive(Debug, Clone, Copy, Hash, Eq, PartialEq, Structural)]
pub enum AuditLogChangeKey {
    Name,
    Description,
    IconHash,
    SplashHash,
    DiscoverySplashHash,
    BannerHash,
    OwnerId,
    Region,
    PreferredLocale,
    AfkChannelId,
    AfkTimeout,
    RulesChannelId,
    PublicUpdatesChannelId,
    MfaLevel,
    VerificationLevel,
    ExplicitContentFilter,
    DefaultMessageNotifications,
    VanityUrlCode,
    RoleAdd,
    RoleRemove,
    PruneDeleteDays,
    WidgetEnabled,
    WidgetChannelId,
    SystemChannelId,
    Position,
    Topic,
    Bitrate,
    PermissionOverwrites,
    Nsfw,
    ApplicationId,
    RateLimitPerUser,
    Permissions,
    Color,
    Hoist,
    Mentionable,
    Allow,
    Deny,
    Code,
    ChannelId,
    InviterId,
    MaxUses,
    Uses,
    MaxAge,
    Temporary,
    Deaf,
    Mute,
    Nick,
    AvatarHash,
    Id,
    Kind,
    EnableEmoticons,
    ExpireBehavior,
    ExpireGracePeriod,
    UserLimit,
}

impl ReadWireString for AuditLogChangeKey {
    open spec fn of_text(text: Seq<char>) -> Option<Self> {
        if text == "name"@ {
            Some(AuditLogChangeKey::Name)
        } else if text == "description"@ {
            Some(AuditLogChangeKey::Description)
        } else if text == "icon_hash"@ {
            Some(AuditLogChangeKey::IconHash)
        } else if text == "splash_hash"@ {
            Some(AuditLogChangeKey::SplashHash)
        } else if text == "discovery_splash_hash"@ {
            Some(AuditLogChangeKey::DiscoverySplashHash)
        } else if text == "banner_hash"@ {
            Some(AuditLogChangeKey::BannerHash)
        } else if text == "owner_id"@ {
            Some(AuditLogChangeKey::OwnerId)
        } else if text == "region"@ {
            Some(AuditLogChangeKey::Region)
        } else if text == "preferred_locale"@ {
            Some(AuditLogChangeKey::PreferredLocale)
        } else if text == "afk_channel_id"@ {
            Some(AuditLogChangeKey::AfkChannelId)
        } else if text == "afk_timeout"@ {
            Some(AuditLogChangeKey::AfkTimeout)
        } else if text == "rules_channel_id"@ {
            Some(AuditLogChangeKey::RulesChannelId)
        } else if text == "public_updates_channel_id"@ {
            Some(AuditLogChangeKey::PublicUpdatesChannelId)
        } else if text == "mfa_level"@ {
            Some(AuditLogChangeKey::MfaLevel)
        } else if text == "verification_level"@ {
            Some(AuditLogChangeKey::VerificationLevel)
        } else if text == "explicit_content_filter"@ {
            Some(AuditLogChangeKey::ExplicitContentFilter)
        } else if text == "default_message_notifications"@ {
            Some(AuditLogChangeKey::DefaultMessageNotifications)
        } else if text == "vanity_url_code"@ {
            Some(AuditLogChangeKey::VanityUrlCode)
        } else if text == "$add"@ {
            Some(AuditLogChangeKey::RoleAdd)
        } else if text == "$remove"@ {
            Some(AuditLogChangeKey::RoleRemove)
        } else if text == "prune_delete_days"@ {
            Some(AuditLogChangeKey::PruneDeleteDays)
        } else if text == "widget_enabled"@ {
            Some(AuditLogChangeKey::WidgetEnabled)
        } else if text == "widget_channel_id"@ {
            Some(AuditLogChangeKey::WidgetChannelId)
        } else if text == "system_channel_id"@ {
            Some(AuditLogChangeKey::SystemChannelId)
        } else if text == "position"@ {
            Some(AuditLogChangeKey::Position)
        } else if text == "topic"@ {
            Some(AuditLogChangeKey::Topic)
        } else if text == "bitrate"@ {
            Some(AuditLogChangeKey::Bitrate)
        } else if text == "permission_overwrites"@ {
            Some(AuditLogChangeKey::PermissionOverwrites)
        } else if text == "nsfw"@ {
            Some(AuditLogChangeKey::Nsfw)
        } else if text == "application_id"@ {
            Some(AuditLogChangeKey::ApplicationId)
        } else if text == "rate_limit_per_user"@ {
            Some(AuditLogChangeKey::RateLimitPerUser)
        } else if text == "permissions"@ {
            Some(AuditLogChangeKey::Permissions)
        } else if text == "color"@ {
            Some(AuditLogChangeKey::Color)
        } else if text == "hoist"@ {
            Some(AuditLogChangeKey::Hoist)
        } else if text == "mentionable"@ {
            Some(AuditLogChangeKey::Mentionable)
        } else if text == "allow"@ {
            Some(AuditLogChangeKey::Allow)
        } else if text == "deny"@ {
            Some(AuditLogChangeKey::Deny)
        } else if text == "code"@ {
            Some(AuditLogChangeKey::Code)
        } else if text == "channel_id"@ {
            Some(AuditLogChangeKey::ChannelId)
        } else if text == "inviter_id"@ {
            Some(AuditLogChangeKey::InviterId)
        } else if text == "max_uses"@ {
            Some(AuditLogChangeKey::MaxUses)
        } else if text == "uses"@ {
            Some(AuditLogChangeKey::Uses)
        } else if text == "max_age"@ {
            Some(AuditLogChangeKey::MaxAge)
        } else if text == "temporary"@ {
            Some(AuditLogChangeKey::Temporary)
        } else if text == "deaf"@ {
            Some(AuditLogChangeKey::Deaf)
        } else if text == "mute"@ {
            Some(AuditLogChangeKey::Mute)
        } else if text == "nick"@ {
            Some(AuditLogChangeKey::Nick)
        } else if text == "avatar_hash"@ {
            Some(AuditLogChangeKey::AvatarHash)
        } else if text == "id"@ {
            Some(AuditLogChangeKey::Id)
        } else if text == "type"@ {
            Some(AuditLogChangeKey::Kind)
        } else if text == "enable_emoticons"@ {
            Some(AuditLogChangeKey::EnableEmoticons)
        } else if text == "expire_behavior"@ {
            Some(AuditLogChangeKey::ExpireBehavior)
        } else if text == "expire_grace_period"@ {
            Some(AuditLogChangeKey::ExpireGracePeriod)
        } else if text == "user_limit"@ {
            Some(AuditLogChangeKey::UserLimit)
        } else {
            None
        }
    }

    fn read_wire(text: &str) -> (r: Option<Self>) {
        if str_eq(text, "name") {
            Some(AuditLogChangeKey::Name)
        } else if str_eq(text, "description") {
            Some(AuditLogChangeKey::Description)
        } else if str_eq(text, "icon_hash") {
            Some(AuditLogChangeKey::IconHash)
        } else if str_eq(text, "splash_hash") {
            Some(AuditLogChangeKey::SplashHash)
        } else if str_eq(text, "discovery_splash_hash") {
            Some(AuditLogChangeKey::DiscoverySplashHash)
        } else if str_eq(text, "banner_hash") {
            Some(AuditLogChangeKey::BannerHash)
        } else if str_eq(text, "owner_id") {
            Some(AuditLogChangeKey::OwnerId)
        } else if str_eq(text, "region") {
            Some(AuditLogChangeKey::Region)
        } else if str_eq(text, "preferred_locale") {
            Some(AuditLogChangeKey::PreferredLocale)
        } else if str_eq(text, "afk_channel_id") {
            Some(AuditLogChangeKey::AfkChannelId)
        } else if str_eq(text, "afk_timeout") {
            Some(AuditLogChangeKey::AfkTimeout)
        } else if str_eq(text, "rules_channel_id") {
            Some(AuditLogChangeKey::RulesChannelId)
        } else if str_eq(text, "public_updates_channel_id") {
            Some(AuditLogChangeKey::PublicUpdatesChannelId)
        } else if str_eq(text, "mfa_level") {
            Some(AuditLogChangeKey::MfaLevel)
        } else if str_eq(text, "verification_level") {
            Some(AuditLogChangeKey::VerificationLevel)
        } else if str_eq(text, "explicit_content_filter") {
            Some(AuditLogChangeKey::ExplicitContentFilter)
        } else if str_eq(text, "default_message_notifications") {
            Some(AuditLogChangeKey::DefaultMessageNotifications)
        } else if str_eq(text, "vanity_url_code") {
            Some(AuditLogChangeKey::VanityUrlCode)
        } else if str_eq(text, "$add") {
            Some(AuditLogChangeKey::RoleAdd)
        } else if str_eq(text, "$remove") {
            Some(AuditLogChangeKey::RoleRemove)
        } else if str_eq(text, "prune_delete_days") {
            Some(AuditLogChangeKey::PruneDeleteDays)
        } else if str_eq(text, "widget_enabled") {
            Some(AuditLogChangeKey::WidgetEnabled)
        } else if str_eq(text, "widget_channel_id") {
            Some(AuditLogChangeKey::WidgetChannelId)
        } else if str_eq(text, "system_channel_id") {
            Some(AuditLogChangeKey::SystemChannelId)
        } else if str_eq(text, "position") {
            Some(AuditLogChangeKey::Position)
        } else if str_eq(text, "topic") {
            Some(AuditLogChangeKey::Topic)
        } else if str_eq(text, "bitrate") {
            Some(AuditLogChangeKey::Bitrate)
        } else if str_eq(text, "permission_overwrites") {
            Some(AuditLogChangeKey::PermissionOverwrites)
        } else if str_eq(text, "nsfw") {
            Some(AuditLogChangeKey::Nsfw)
        } else if str_eq(text, "application_id") {
            Some(AuditLogChangeKey::ApplicationId)
        } else if str_eq(text, "rate_limit_per_user") {
            Some(AuditLogChangeKey::RateLimitPerUser)
        } else if str_eq(text, "permissions") {
            Some(AuditLogChangeKey::Permissions)
        } else if str_eq(text, "color") {
            Some(AuditLogChangeKey::Color)
        } else if str_eq(text, "hoist") {
            Some(AuditLogChangeKey::Hoist)
        } else if str_eq(text, "mentionable") {
            Some(AuditLogChangeKey::Mentionable)
        } else if str_eq(text, "allow") {
            Some(AuditLogChangeKey::Allow)
        } else if str_eq(text, "deny") {
            Some(AuditLogChangeKey::Deny)
        } else if str_eq(text, "code") {
            Some(AuditLogChangeKey::Code)
        } else if str_eq(text, "channel_id") {
            Some(AuditLogChangeKey::ChannelId)
        } else if str_eq(text, "inviter_id") {
            Some(AuditLogChangeKey::InviterId)
        } else if str_eq(text, "max_uses") {
            Some(AuditLogChangeKey::MaxUses)
        } else if str_eq(text, "uses") {
            Some(AuditLogChangeKey::Uses)
        } else if str_eq(text, "max_age") {
            Some(AuditLogChangeKey::MaxAge)
        } else if str_eq(text, "temporary") {
            Some(AuditLogChangeKey::Temporary)
        } else if str_eq(text, "deaf") {
            Some(AuditLogChangeKey::Deaf)
        } else if str_eq(text, "mute") {
            Some(AuditLogChangeKey::Mute)
        } else if str_eq(text, "nick") {
            Some(AuditLogChangeKey::Nick)
        } else if str_eq(text, "avatar_hash") {
            Some(AuditLogChangeKey::AvatarHash)
        } else if str_eq(text, "id") {
            Some(AuditLogChangeKey::Id)
        } else if str_eq(text, "type") {
            Some(AuditLogChangeKey::Kind)
        } else if str_eq(text, "enable_emoticons") {
            Some(AuditLogChangeKey::EnableEmoticons)
        } else if str_eq(text, "expire_behavior") {
            Some(AuditLogChangeKey::ExpireBehavior)
        } else if str_eq(text, "expire_grace_period") {
            Some(AuditLogChangeKey::ExpireGracePeriod)
        } else if str_eq(text, "user_limit") {
            Some(AuditLogChangeKey::UserLimit)
        } else {
            None
        }
    }
}

impl WireString for AuditLogChangeKey {
    open spec fn text(self) -> Seq<char> {
        match self {
            AuditLogChangeKey::Name => "name"@,
            AuditLogChangeKey::Description => "description"@,
            AuditLogChangeKey::IconHash => "icon_hash"@,
            AuditLogChangeKey::SplashHash => "splash_hash"@,
            AuditLogChangeKey::DiscoverySplashHash => "discovery_splash_hash"@,
            AuditLogChangeKey::BannerHash => "banner_hash"@,
            AuditLogChangeKey::OwnerId => "owner_id"@,
            AuditLogChangeKey::Region => "region"@,
            AuditLogChangeKey::PreferredLocale => "preferred_locale"@,
            AuditLogChangeKey::AfkChannelId => "afk_channel_id"@,
            AuditLogChangeKey::AfkTimeout => "afk_timeout"@,
            AuditLogChangeKey::RulesChannelId => "rules_channel_id"@,
            AuditLogChangeKey::PublicUpdatesChannelId => "public_updates_channel_id"@,
            AuditLogChangeKey::MfaLevel => "mfa_level"@,
            AuditLogChangeKey::VerificationLevel => "verification_level"@,
            AuditLogChangeKey::ExplicitContentFilter => "explicit_content_filter"@,
            AuditLogChangeKey::DefaultMessageNotifications => "default_message_notifications"@,
            AuditLogChangeKey::VanityUrlCode => "vanity_url_code"@,
            AuditLogChangeKey::RoleAdd => "$add"@,
            AuditLogChangeKey::RoleRemove => "$remove"@,
            AuditLogChangeKey::PruneDeleteDays => "prune_delete_days"@,
            AuditLogChangeKey::WidgetEnabled => "widget_enabled"@,
            AuditLogChangeKey::WidgetChannelId => "widget_channel_id"@,
            AuditLogChangeKey::SystemChannelId => "system_channel_id"@,
            AuditLogChangeKey::Position => "position"@,
            AuditLogChangeKey::Topic => "topic"@,
            AuditLogChangeKey::Bitrate => "bitrate"@,
            AuditLogChangeKey::PermissionOverwrites => "permission_overwrites"@,
            AuditLogChangeKey::Nsfw => "nsfw"@,
            AuditLogChangeKey::ApplicationId => "application_id"@,
            AuditLogChangeKey::RateLimitPerUser => "rate_limit_per_user"@,
            AuditLogChangeKey::Permissions => "permissions"@,
            AuditLogChangeKey::Color => "color"@,
            AuditLogChangeKey::Hoist => "hoist"@,
            AuditLogChangeKey::Mentionable => "mentionable"@,
            AuditLogChangeKey::Allow => "allow"@,
            AuditLogChangeKey::Deny => "deny"@,
            AuditLogChangeKey::Code => "code"@,
            AuditLogChangeKey::ChannelId => "channel_id"@,
            AuditLogChangeKey::InviterId => "inviter_id"@,
            AuditLogChangeKey::MaxUses => "max_uses"@,
            AuditLogChangeKey::Uses => "uses"@,
            AuditLogChangeKey::MaxAge => "max_age"@,
            AuditLogChangeKey::Temporary => "temporary"@,
            AuditLogChangeKey::Deaf => "deaf"@,
            AuditLogChangeKey::Mute => "mute"@,
            AuditLogChangeKey::Nick => "nick"@,
            AuditLogChangeKey::AvatarHash => "avatar_hash"@,
            AuditLogChangeKey::Id => "id"@,
            AuditLogChangeKey::Kind => "type"@,
            AuditLogChangeKey::EnableEmoticons => "enable_emoticons"@,
            AuditLogChangeKey::ExpireBehavior => "expire_behavior"@,
            AuditLogChangeKey::ExpireGracePeriod => "expire_grace_period"@,
            AuditLogChangeKey::UserLimit => "user_limit"@,
        }
    }

    proof fn lemma_text_is_read_back(self) {
        reveal_strlit("name");
        reveal_strlit("description");
        reveal_strlit("icon_hash");
        reveal_strlit("splash_hash");
        reveal_strlit("discovery_splash_hash");
        reveal_strlit("banner_hash");
        reveal_strlit("owner_id");
        reveal_strlit("region");
        reveal_strlit("preferred_locale");
        reveal_strlit("afk_channel_id");
        reveal_strlit("afk_timeout");
        reveal_strlit("rules_channel_id");
        reveal_strlit("public_updates_channel_id");
        reveal_strlit("mfa_level");
        reveal_strlit("verification_level");
        reveal_strlit("explicit_content_filter");
        reveal_strlit("default_message_notifications");
        reveal_strlit("vanity_url_code");
        reveal_strlit("$add");
        reveal_strlit("$remove");
        reveal_strlit("prune_delete_days");
        reveal_strlit("widget_enabled");
        reveal_strlit("widget_channel_id");
        reveal_strlit("system_channel_id");
        reveal_strlit("position");
        reveal_strlit("topic");
        reveal_strlit("bitrate");
        reveal_strlit("permission_overwrites");
        reveal_strlit("nsfw");
        reveal_strlit("application_id");
        reveal_strlit("rate_limit_per_user");
        reveal_strlit("permissions");
        reveal_strlit("color");
        reveal_strlit("hoist");
        reveal_strlit("mentionable");
        reveal_strlit("allow");
        reveal_strlit("deny");
        reveal_strlit("code");
        reveal_strlit("channel_id");
        reveal_strlit("inviter_id");
        reveal_strlit("max_uses");
        reveal_strlit("uses");
        reveal_strlit("max_age");
        reveal_strlit("temporary");
        reveal_strlit("deaf");
        reveal_strlit("mute");
        reveal_strlit("nick");
        reveal_strlit("avatar_hash");
        reveal_strlit("id");
        reveal_strlit("type");
        reveal_strlit("enable_emoticons");
        reveal_strlit("expire_behavior");
        reveal_strlit("expire_grace_period");
        reveal_strlit("user_limit");
        assert("name"@.len() == 4 && "name"@[0] == 'n' && "name"@[2] == 'm');
        assert("description"@.len() == 11 && "description"@[0] == 'd' && "description"@[2] == 's');
        assert("icon_hash"@.len() == 9 && "icon_hash"@[0] == 'i' && "icon_hash"@[2] == 'o');
        assert("splash_hash"@.len() == 11 && "splash_hash"@[0] == 's' && "splash_hash"@[2] == 'l');
        assert("discovery_splash_hash"@.len() == 21 && "discovery_splash_hash"@[0] == 'd' && "discovery_splash_hash"@[2] == 's');
        assert("banner_hash"@.len() == 11 && "banner_hash"@[0] == 'b' && "banner_hash"@[2] == 'n');
        assert("owner_id"@.len() == 8 && "owner_id"@[0] == 'o' && "owner_id"@[2] == 'n');
        assert("region"@.len() == 6 && "region"@[0] == 'r' && "region"@[2] == 'g');
        assert("preferred_locale"@.len() == 16 && "preferred_locale"@[0] == 'p' && "preferred_locale"@[2] == 'e');
        assert("afk_channel_id"@.len() == 14 && "afk_channel_id"@[0] == 'a' && "afk_channel_id"@[2] == 'k');
        assert("afk_timeout"@.len() == 11 && "afk_timeout"@[0] == 'a' && "afk_timeout"@[2] == 'k');
        assert("rules_channel_id"@.len() == 16 && "rules_channel_id"@[0] == 'r' && "rules_channel_id"@[2] == 'l');
        assert("public_updates_channel_id"@.len() == 25 && "public_updates_channel_id"@[0] == 'p' && "public_updates_channel_id"@[2] == 'b');
        assert("mfa_level"@.len() == 9 && "mfa_level"@[0] == 'm' && "mfa_level"@[2] == 'a');
        assert("verification_level"@.len() == 18 && "verification_level"@[0] == 'v' && "verification_level"@[2] == 'r');
        assert("explicit_content_filter"@.len() == 23 && "explicit_content_filter"@[0] == 'e' && "explicit_content_filter"@[2] == 'p');
        assert("default_message_notifications"@.len() == 29 && "default_message_notifications"@[0] == 'd' && "default_message_notifications"@[2] == 'f');
        assert("vanity_url_code"@.len() == 15 && "vanity_url_code"@[0] == 'v' && "vanity_url_code"@[2] == 'n');
        assert("$add"@.len() == 4 && "$add"@[0] == '$' && "$add"@[2] == 'd');
        assert("$remove"@.len() == 7 && "$remove"@[0] == '$' && "$remove"@[2] == 'e');
        assert("prune_delete_days"@.len() == 17 && "prune_delete_days"@[0] == 'p' && "prune_delete_days"@[2] == 'u');
        assert("widget_enabled"@.len() == 14 && "widget_enabled"@[0] == 'w' && "widget_enabled"@[2] == 'd');
        assert("widget_channel_id"@.len() == 17 && "widget_channel_id"@[0] == 'w' && "widget_channel_id"@[2] == 'd');
        assert("system_channel_id"@.len() == 17 && "system_channel_id"@[0] == 's' && "system_channel_id"@[2] == 's');
        assert("position"@.len() == 8 && "position"@[0] == 'p' && "position"@[2] == 's');
        assert("topic"@.len() == 5 && "topic"@[0] == 't' && "topic"@[2] == 'p');
        assert("bitrate"@.len() == 7 && "bitrate"@[0] == 'b' && "bitrate"@[2] == 't');
        assert("permission_overwrites"@.len() == 21 && "permission_overwrites"@[0] == 'p' && "permission_overwrites"@[2] == 'r');
        assert("nsfw"@.len() == 4 && "nsfw"@[0] == 'n' && "nsfw"@[2] == 'f');
        assert("application_id"@.len() == 14 && "application_id"@[0] == 'a' && "application_id"@[2] == 'p');
        assert("rate_limit_per_user"@.len() == 19 && "rate_limit_per_user"@[0] == 'r' && "rate_limit_per_user"@[2] == 't');
        assert("permissions"@.len() == 11 && "permissions"@[0] == 'p' && "permissions"@[2] == 'r');
        assert("color"@.len() == 5 && "color"@[0] == 'c' && "color"@[2] == 'l');
        assert("hoist"@.len() == 5 && "hoist"@[0] == 'h' && "hoist"@[2] == 'i');
        assert("mentionable"@.len() == 11 && "mentionable"@[0] == 'm' && "mentionable"@[2] == 'n');
        assert("allow"@.len() == 5 && "allow"@[0] == 'a' && "allow"@[2] == 'l');
        assert("deny"@.len() == 4 && "deny"@[0] == 'd' && "deny"@[2] == 'n');
        assert("code"@.len() == 4 && "code"@[0] == 'c' && "code"@[2] == 'd');
        assert("channel_id"@.len() == 10 && "channel_id"@[0] == 'c' && "channel_id"@[2] == 'a');
        assert("inviter_id"@.len() == 10 && "inviter_id"@[0] == 'i' && "inviter_id"@[2] == 'v');
        assert("max_uses"@.len() == 8 && "max_uses"@[0] == 'm' && "max_uses"@[2] == 'x');
        assert("uses"@.len() == 4 && "uses"@[0] == 'u' && "uses"@[2] == 'e');
        assert("max_age"@.len() == 7 && "max_age"@[0] == 'm' && "max_age"@[2] == 'x');
        assert("temporary"@.len() == 9 && "temporary"@[0] == 't' && "temporary"@[2] == 'm');
        assert("deaf"@.len() == 4 && "deaf"@[0] == 'd' && "deaf"@[2] == 'a');
        assert("mute"@.len() == 4 && "mute"@[0] == 'm' && "mute"@[2] == 't');
        assert("nick"@.len() == 4 && "nick"@[0] == 'n' && "nick"@[2] == 'c');
        assert("avatar_hash"@.len() == 11 && "avatar_hash"@[0] == 'a' && "avatar_hash"@[2] == 'a');
        assert("id"@.len() == 2 && "id"@[0] == 'i');
        assert("type"@.len() == 4 && "type"@[0] == 't' && "type"@[2] == 'p');
        assert("enable_emoticons"@.len() == 16 && "enable_emoticons"@[0] == 'e' && "enable_emoticons"@[2] == 'a');
        assert("expire_behavior"@.len() == 15 && "expire_behavior"@[0] == 'e' && "expire_behavior"@[2] == 'p');
        assert("expire_grace_period"@.len() == 19 && "expire_grace_period"@[0] == 'e' && "expire_grace_period"@[2] == 'p');
        assert("user_limit"@.len() == 10 && "user_limit"@[0] == 'u' && "user_limit"@[2] == 'e');
    }

    proof fn lemma_of_text_is_exact(text: Seq<char>) {
    }

    fn as_wire(&self) -> (r: &str) {
        match self {
            AuditLogChangeKey::Name => "name",
            AuditLogChangeKey::Description => "description",
            AuditLogChangeKey::IconHash => "icon_hash",
            AuditLogChangeKey::SplashHash => "splash_hash",
            AuditLogChangeKey::DiscoverySplashHash => "discovery_splash_hash",
            AuditLogChangeKey::BannerHash => "banner_hash",
            AuditLogChangeKey::OwnerId => "owner_id",
            AuditLogChangeKey::Region => "region",
            AuditLogChangeKey::PreferredLocale => "preferred_locale",
            AuditLogChangeKey::AfkChannelId => "afk_channel_id",
            AuditLogChangeKey::AfkTimeout => "afk_timeout",
            AuditLogChangeKey::RulesChannelId => "rules_channel_id",
            AuditLogChangeKey::PublicUpdatesChannelId => "public_updates_channel_id",
            AuditLogChangeKey::MfaLevel => "mfa_level",
            AuditLogChangeKey::VerificationLevel => "verification_level",
            AuditLogChangeKey::ExplicitContentFilter => "explicit_content_filter",
            AuditLogChangeKey::DefaultMessageNotifications => "default_message_notifications",
            AuditLogChangeKey::VanityUrlCode => "vanity_url_code",
            AuditLogChangeKey::RoleAdd => "$add",
            AuditLogChangeKey::RoleRemove => "$remove",
            AuditLogChangeKey::PruneDeleteDays => "prune_delete_days",
            AuditLogChangeKey::WidgetEnabled => "widget_enabled",
            AuditLogChangeKey::WidgetChannelId => "widget_channel_id",
            AuditLogChangeKey::SystemChannelId => "system_channel_id",
            AuditLogChangeKey::Position => "position",
            AuditLogChangeKey::Topic => "topic",
            AuditLogChangeKey::Bitrate => "bitrate",
            AuditLogChangeKey::PermissionOverwrites => "permission_overwrites",
            AuditLogChangeKey::Nsfw => "nsfw",
            AuditLogChangeKey::ApplicationId => "application_id",
            AuditLogChangeKey::RateLimitPerUser => "rate_limit_per_user",
            AuditLogChangeKey::Permissions => "permissions",
            AuditLogChangeKey::Color => "color",
            AuditLogChangeKey::Hoist => "hoist",
            AuditLogChangeKey::Mentionable => "mentionable",
            AuditLogChangeKey::Allow => "allow",
            AuditLogChangeKey::Deny => "deny",
            AuditLogChangeKey::Code => "code",
            AuditLogChangeKey::ChannelId => "channel_id",
            AuditLogChangeKey::InviterId => "inviter_id",
            AuditLogChangeKey::MaxUses => "max_uses",
            AuditLogChangeKey::Uses => "uses",
            AuditLogChangeKey::MaxAge => "max_age",
            AuditLogChangeKey::Temporary => "temporary",
            AuditLogChangeKey::Deaf => "deaf",
            AuditLogChangeKey::Mute => "mute",
            AuditLogChangeKey::Nick => "nick",
            AuditLogChangeKey::AvatarHash => "avatar_hash",
            AuditLogChangeKey::Id => "id",
            AuditLogChangeKey::Kind => "type",
            AuditLogChangeKey::EnableEmoticons => "enable_emoticons",
            AuditLogChangeKey::ExpireBehavior => "expire_behavior",
            AuditLogChangeKey::ExpireGracePeriod => "expire_grace_period",
            AuditLogChangeKey::UserLimit => "user_limit",
        }
    }
}

impl AuditLogChangeKey {
    /// The string that the value travels as.
    pub fn as_ref(&self) -> (r: &str)
        ensures
            r@ == self.text(),
    {
        self.as_wire()
    }

    /// As it is shown: the string that the value travels as.
    pub fn to_string(&self) -> (r: String)
        ensures
            r@ == self.text(),
    {
        self.as_wire().to_owned()
    }

    /// The value that `txt` names, or `txt` back where it names none.
    pub fn parse(txt: &str) -> (r: Result<Self, ParseEnumError>)
        ensures
            match r {
                Ok(v) => Self::of_text(txt@) == Some(v),
                Err(e) => Self::of_text(txt@) is None && e.raw@ == txt@,
            },
    {
        match Self::read_wire(txt) {
            Some(v) => Ok(v),
            None => Err(ParseEnumError::new(txt.to_owned())),
        }
    }
}

impl FromStr for AuditLogChangeKey {
    type Err = ParseEnumError;

    fn from_str(txt: &str) -> (r: Result<Self, ParseEnumError>)
        ensures
            match r {
                Ok(v) => Self::of_text(txt@) == Some(v),
                Err(e) => Self::of_text(txt@) is None && e.raw@ == txt@,
            },
    {
        Self::parse(txt)
    }
}

/// What was done.
#[derive(Debug, Clone, Copy, Eq, PartialEq, Structural)]
pub enum AuditLogEvent {
    GuildUpdate,
    ChannelCreate,
    ChannelUpdate,
    ChannelDelete,
    ChannelOverwriteCreate,
    ChannelOverwriteUpdate,
    ChannelOverwriteDelete,
    MemberKick,
    MemberPrune,
    MemberBanAdd,
    MemberBanRemove,
    MemberUpdate,
    MemberRoleUpdate,
    MemberMove,
    MemberDisconnect,
    BotAdd,
    RoleCreate,
    RoleUpdate,
    RoleDelete,
    InviteCreate,
    InviteUpdate,
    InviteDelete,
    WebhookCreate,
    WebhookUpdate,
    WebhookDelete,
    EmojiCreate,
    EmojiUpdate,
    EmojiDelete,
    MessageDelete,
    MessageBulkDelete,
    MessagePin,
    MessageUnpin,
    IntegrationCreate,
    IntegrationUpdate,
    IntegrationDelete,
}

impl WireInteger for AuditLogEvent {
    open spec fn valid(self) -> bool {
        true
    }

    open spec fn code(self) -> u64 {
        match self {
            AuditLogEvent::GuildUpdate => 1,
            AuditLogEvent::ChannelCreate => 10,
            AuditLogEvent::ChannelUpdate => 11,
            AuditLogEvent::ChannelDelete => 12,
            AuditLogEvent::ChannelOverwriteCreate => 13,
            AuditLogEvent::ChannelOverwriteUpdate => 14,
            AuditLogEvent::ChannelOverwriteDelete => 15,
            AuditLogEvent::MemberKick => 20,
            AuditLogEvent::MemberPrune => 21,
            AuditLogEvent::MemberBanAdd => 22,
            AuditLogEvent::MemberBanRemove => 23,
            AuditLogEvent::MemberUpdate => 24,
            AuditLogEvent::MemberRoleUpdate => 25,
            AuditLogEvent::MemberMove => 26,
            AuditLogEvent::MemberDisconnect => 27,
            AuditLogEvent::BotAdd => 28,
            AuditLogEvent::RoleCreate => 30,
            AuditLogEvent::RoleUpdate => 31,
            AuditLogEvent::RoleDelete => 32,
            AuditLogEvent::InviteCreate => 40,
            AuditLogEvent::InviteUpdate => 41,
            AuditLogEvent::InviteDelete => 42,
            AuditLogEvent::WebhookCreate => 50,
            AuditLogEvent::WebhookUpdate => 51,
            AuditLogEvent::WebhookDelete => 52,
            AuditLogEvent::EmojiCreate => 60,
            AuditLogEvent::EmojiUpdate => 61,
            AuditLogEvent::EmojiDelete => 62,
            AuditLogEvent::MessageDelete => 72,
            AuditLogEvent::MessageBulkDelete => 73,
            AuditLogEvent::MessagePin => 74,
            AuditLogEvent::MessageUnpin => 75,
            AuditLogEvent::IntegrationCreate => 80,
            AuditLogEvent::IntegrationUpdate => 81,
            AuditLogEvent::IntegrationDelete => 82,
        }
    }

    open spec fn of_code(raw: u64) -> Option<Self> {
        if raw == 1 {
            Some(AuditLogEvent::GuildUpdate)
        } else if raw == 10 {
            Some(AuditLogEvent::ChannelCreate)
        } else if raw == 11 {
            Some(AuditLogEvent::ChannelUpdate)
        } else if raw == 12 {
            Some(AuditLogEvent::ChannelDelete)
        } else if raw == 13 {
            Some(AuditLogEvent::ChannelOverwriteCreate)
        } else if raw == 14 {
            Some(AuditLogEvent::ChannelOverwriteUpdate)
        } else if raw == 15 {
            Some(AuditLogEvent::ChannelOverwriteDelete)
        } else if raw == 20 {
            Some(AuditLogEvent::MemberKick)
        } else if raw == 21 {
            Some(AuditLogEvent::MemberPrune)
        } else if raw == 22 {
            Some(AuditLogEvent::MemberBanAdd)
        } else if raw == 23 {
            Some(AuditLogEvent::MemberBanRemove)
        } else if raw == 24 {
            Some(AuditLogEvent::MemberUpdate)
        } else if raw == 25 {
            Some(AuditLogEvent::MemberRoleUpdate)
        } else if raw == 26 {
            Some(AuditLogEvent::MemberMove)
        } else if raw == 27 {
            Some(AuditLogEvent::MemberDisconnect)
        } else if raw == 28 {
            Some(AuditLogEvent::BotAdd)
        } else if raw == 30 {
            Some(AuditLogEvent::RoleCreate)
        } else if raw == 31 {
            Some(AuditLogEvent::RoleUpdate)
        } else if raw == 32 {
            Some(AuditLogEvent::RoleDelete)
        } else if raw == 40 {
            Some(AuditLogEvent::InviteCreate)
        } else if raw == 41 {
            Some(AuditLogEvent::InviteUpdate)
        } else if raw == 42 {
            Some(AuditLogEvent::InviteDelete)
        } else if raw == 50 {
            Some(AuditLogEvent::WebhookCreate)
        } else if raw == 51 {
            Some(AuditLogEvent::WebhookUpdate)
        } else if raw == 52 {
            Some(AuditLogEvent::WebhookDelete)
        } else if raw == 60 {
            Some(AuditLogEvent::EmojiCreate)
        } else if raw == 61 {
            Some(AuditLogEvent::EmojiUpdate)
        } else if raw == 62 {
            Some(AuditLogEvent::EmojiDelete)
        } else if raw == 72 {
            Some(AuditLogEvent::MessageDelete)
        } else if raw == 73 {
            Some(AuditLogEvent::MessageBulkDelete)
        } else if raw == 74 {
            Some(AuditLogEvent::MessagePin)
        } else if raw == 75 {
            Some(AuditLogEvent::MessageUnpin)
        } else if raw == 80 {
            Some(AuditLogEvent::IntegrationCreate)
        } else if raw == 81 {
            Some(AuditLogEvent::IntegrationUpdate)
        } else if raw == 82 {
            Some(AuditLogEvent::IntegrationDelete)
        } else {
            None
        }
    }

    proof fn lemma_code_is_read_back(self) {
    }

    proof fn lemma_of_code_is_exact(raw: u64) {
    }

    fn to_wire(self) -> (raw: u64) {
        match self {
            AuditLogEvent::GuildUpdate => 1,
            AuditLogEvent::ChannelCreate => 10,
            AuditLogEvent::ChannelUpdate => 11,
            AuditLogEvent::ChannelDelete => 12,
            AuditLogEvent::ChannelOverwriteCreate => 13,
            AuditLogEvent::ChannelOverwriteUpdate => 14,
            AuditLogEvent::ChannelOverwriteDelete => 15,
            AuditLogEvent::MemberKick => 20,
            AuditLogEvent::MemberPrune => 21,
            AuditLogEvent::MemberBanAdd => 22,
            AuditLogEvent::MemberBanRemove => 23,
            AuditLogEvent::MemberUpdate => 24,
            AuditLogEvent::MemberRoleUpdate => 25,
            AuditLogEvent::MemberMove => 26,
            AuditLogEvent::MemberDisconnect => 27,
            AuditLogEvent::BotAdd => 28,
            AuditLogEvent::RoleCreate => 30,
            AuditLogEvent::RoleUpdate => 31,
            AuditLogEvent::RoleDelete => 32,
            AuditLogEvent::InviteCreate => 40,
            AuditLogEvent::InviteUpdate => 41,
            AuditLogEvent::InviteDelete => 42,
            AuditLogEvent::WebhookCreate => 50,
            AuditLogEvent::WebhookUpdate => 51,
            AuditLogEvent::WebhookDelete => 52,
            AuditLogEvent::EmojiCreate => 60,
            AuditLogEvent::EmojiUpdate => 61,
            AuditLogEvent::EmojiDelete => 62,
            AuditLogEvent::MessageDelete => 72,
            AuditLogEvent::MessageBulkDelete => 73,
            AuditLogEvent::MessagePin => 74,
            AuditLogEvent::MessageUnpin => 75,
            AuditLogEvent::IntegrationCreate => 80,
            AuditLogEvent::IntegrationUpdate => 81,
            AuditLogEvent::IntegrationDelete => 82,
        }
    }

    fn from_wire(raw: u64) -> (r: Option<Self>) {
        match raw {
            1 => Some(AuditLogEvent::GuildUpdate),
            10 => Some(AuditLogEvent::ChannelCreate),
            11 => Some(AuditLogEvent::ChannelUpdate),
            12 => Some(AuditLogEvent::ChannelDelete),
            13 => Some(AuditLogEvent::ChannelOverwriteCreate),
            14 => Some(AuditLogEvent::ChannelOverwriteUpdate),
            15 => Some(AuditLogEvent::ChannelOverwriteDelete),
            20 => Some(AuditLogEvent::MemberKick),
            21 => Some(AuditLogEvent::MemberPrune),
            22 => Some(AuditLogEvent::MemberBanAdd),
            23 => Some(AuditLogEvent::MemberBanRemove),
            24 => Some(AuditLogEvent::MemberUpdate),
            25 => Some(AuditLogEvent::MemberRoleUpdate),
            26 => Some(AuditLogEvent::MemberMove),
            27 => Some(AuditLogEvent::MemberDisconnect),
            28 => Some(AuditLogEvent::BotAdd),
            30 => Some(AuditLogEvent::RoleCreate),
            31 => Some(AuditLogEvent::RoleUpdate),
            32 => Some(AuditLogEvent::RoleDelete),
            40 => Some(AuditLogEvent::InviteCreate),
            41 => Some(AuditLogEvent::InviteUpdate),
            42 => Some(AuditLogEvent::InviteDelete),
            50 => Some(AuditLogEvent::WebhookCreate),
            51 => Some(AuditLogEvent::WebhookUpdate),
            52 => Some(AuditLogEvent::WebhookDelete),
            60 => Some(AuditLogEvent::EmojiCreate),
            61 => Some(AuditLogEvent::EmojiUpdate),
            62 => Some(AuditLogEvent::EmojiDelete),
            72 => Some(AuditLogEvent::MessageDelete),
            73 => Some(AuditLogEvent::MessageBulkDelete),
            74 => Some(AuditLogEvent::MessagePin),
            75 => Some(AuditLogEvent::MessageUnpin),
            80 => Some(AuditLogEvent::IntegrationCreate),
            81 => Some(AuditLogEvent::IntegrationUpdate),
            82 => Some(AuditLogEvent::IntegrationDelete),
            _ => None,
        }
    }
}

impl From<AuditLogEvent> for u64 {
    fn from(u: AuditLogEvent) -> (r: u64) {
        u.to_wire()
    }
}

impl vstd::std_specs::convert::FromSpecImpl<AuditLogEvent> for u64 {
    open spec fn obeys_from_spec() -> bool {
        true
    }

    open spec fn from_spec(u: AuditLogEvent) -> u64 {
        u.code()
    }
}

impl TryFrom<u64> for AuditLogEvent {
    type Error = EnumFromIntegerError;

    fn try_from(u: u64) -> (r: Result<Self, EnumFromIntegerError>) {
        match Self::from_wire(u) {
            Some(v) => Ok(v),
            None => Err(EnumFromIntegerError::new(u)),
        }
    }
}

impl vstd::std_specs::convert::TryFromSpecImpl<u64> for AuditLogEvent {
    open spec fn obeys_try_from_spec() -> bool {
        true
    }

    open spec fn try_from_spec(u: u64) -> Result<Self, EnumFromIntegerError> {
        match Self::of_code(u) {
            Some(v) => Ok(v),
            None => Err(EnumFromIntegerError { raw: u }),
        }
    }
}

/// The identifier of an entry of the audit log.
pub type AuditLogEntryId = Id<entity::AuditLogEntry>;

/// One thing that one user did.
#[derive(Debug, Clone)]
pub struct AuditLogEntry {
    pub id: AuditLogEntryId,
    pub target_id: Option<AnyId>,
    pub user_id: Option<UserId>,
    pub changes: Option<Vec<AuditLogChange>>,
    pub action_kind: IntegerEnum<AuditLogEvent>,
    pub options: Option<AuditEntryInfo>,
    pub reason: Option<String>,
}

impl AuditLogEntry {
    pub fn id(&self) -> (r: AuditLogEntryId)
        ensures
            r == self.id,
    {
        self.id
    }

    pub fn target_id(&self) -> (r: Option<AnyId>)
        ensures
            r == self.target_id,
    {
        self.target_id
    }

    pub fn user_id(&self) -> (r: Option<UserId>)
        ensures
            r == self.user_id,
    {
        self.user_id
    }

    pub fn changes(&self) -> (r: Option<&[AuditLogChange]>)
        ensures
            same_items(r, self.changes),
    {
        opt_slice(&self.changes)
    }

    pub fn try_action_kind(&self) -> (r: Result<AuditLogEvent, EnumFromIntegerError>)
        ensures
            r == self.action_kind.spec_try_unwrap(),
    {
        self.action_kind.try_unwrap()
    }

    pub fn action_kind(&self) -> (r: AuditLogEvent)
        requires
            self.action_kind.0 is Parsed,
        ensures
            self.action_kind.0 == Inner::<AuditLogEvent, u64>::Parsed(r),
    {
        self.action_kind.unwrap()
    }

    pub fn options(&self) -> (r: Option<&AuditEntryInfo>)
        ensures
            same_value(r, self.options),
    {
        opt_ref(&self.options)
    }

    pub fn reason(&self) -> (r: Option<&str>)
        ensures
            same_text(r, self.reason),
    {
        opt_str(&self.reason)
    }
}

/// An integration as the audit log names it.
#[derive(Debug, Clone)]
pub struct AuditLogIntegration {
    pub id: IntegrationId,
    pub name: String,
    pub kind: String,
    pub account: IntegrationAccount,
}

impl AuditLogIntegration {
    pub fn id(&self) -> (r: IntegrationId)
        ensures
            r == self.id,
    {
        self.id
    }

    pub fn name(&self) -> (r: &str)
        ensures
            r@ == self.name@,
    {
        self.name.as_str()
    }

    pub fn kind(&self) -> (r: &str)
        ensures
            r@ == self.kind@,
    {
        self.kind.as_str()
    }

    pub fn account(&self) -> (r: &IntegrationAccount)
        ensures
            *r == self.account,
    {
        &self.account
    }
}

/// A stretch of a guild's audit log, with everything its entries name.
#[derive(Debug, Clone)]
pub struct AuditLog {
    pub webhooks: Vec<Webhook>,
    pub users: Vec<User>,
    pub audit_log_entries: Vec<AuditLogEntry>,
    pub integrations: Vec<AuditLogIntegration>,
}

impl AuditLog {
    pub fn webhooks(&self) -> (r: &[Webhook])
        ensures
            r@ == self.webhooks@,
    {
        self.webhooks.as_slice()
    }

    pub fn users(&self) -> (r: &[User])
        ensures
            r@ == self.users@,
    {
        self.users.as_slice()
    }

    pub fn audit_log_entries(&self) -> (r: &[AuditLogEntry])
        ensures
            r@ == self.audit_log_entries@,
    {
        self.audit_log_entries.as_slice()
    }

    pub fn integrations(&self) -> (r: &[AuditLogIntegration])
        ensures
            r@ == self.integrations@,
    {
        self.integrations.as_slice()
    }
}

} // verus!
