//! Guilds, with their settings held in enumerations that have a place for
//! what they do not know.

pub mod integration;

use vstd::prelude::*;

use crate::application::ApplicationId;
use crate::borrow::{opt_ref, opt_slice, opt_str, same_items, same_text, same_value};
use crate::emoji::{Emoji, EmojiId};
use crate::entity;
use crate::permissions::{Role, RoleId};
use crate::resources::channel::{Channel, ChannelId};
use crate::resources::voice::VoiceState;
use crate::snowflake::Id;
use crate::text::str_eq;
use crate::time::DateTime;
use crate::user::{User, UserId};
use crate::wire::{DecodeError, Primitive};

pub use self::integration::{
    Integration, IntegrationAccount, IntegrationAccountId, IntegrationApplication,
    IntegrationApplicationId, IntegrationExpireBehavior, IntegrationId,
};

verus! {

/// The identifier of a guild.
pub type GuildId = Id<entity::Guild>;

/// What a guild asks of an account before its owner may write.
#[derive(Debug, Clone, Copy, Eq, PartialEq, Structural)]
pub enum VerificationLevel {
    Nil,
    Low,
    Medium,
    High,
    VeryHigh,
    Other(u64),
}

impl VerificationLevel {
    /// The integer that each value travels as.
    pub open spec fn code(self) -> u64 {
        match self {
            VerificationLevel::Nil => 0,
            VerificationLevel::Low => 1,
            VerificationLevel::Medium => 2,
            VerificationLevel::High => 3,
            VerificationLevel::VeryHigh => 4,
            VerificationLevel::Other(other) => other,
        }
    }

    /// The value that travels as `raw`: the one named for it, or `Other`
    /// with the integer inside.
    pub open spec fn of_code(raw: u64) -> Self {
        if raw == 0 {
            VerificationLevel::Nil
        } else if raw == 1 {
            VerificationLevel::Low
        } else if raw == 2 {
            VerificationLevel::Medium
        } else if raw == 3 {
            VerificationLevel::High
        } else if raw == 4 {
            VerificationLevel::VeryHigh
        } else {
            VerificationLevel::Other(raw)
        }
    }

    /// Whether the value is one that was read or could have been: a
    /// named one, or `Other` with an integer that no name stands for.
    pub open spec fn canonical(self) -> bool {
        self matches VerificationLevel::Other(other) ==> Self::of_code(other) is Other
    }

    /// Whatever integer comes in goes out again.
    pub proof fn lemma_round_trip(raw: u64)
        ensures
            Self::of_code(raw).code() == raw,
            Self::of_code(raw).canonical(),
    {
    }

    /// A value that is written and read again is the same value.
    pub proof fn lemma_read_back(self)
        requires
            self.canonical(),
        ensures
            Self::of_code(self.code()) == self,
    {
    }

    /// An integer that no name stands for is kept inside `Other`.
    pub proof fn lemma_unknown(raw: u64)
        requires
            raw != 0,
            raw != 1,
            raw != 2,
            raw != 3,
            raw != 4,
        ensures
            Self::of_code(raw) == VerificationLevel::Other(raw),
    {
    }

    /// Reads a value from the wire, where it must stand as an integer that
    /// is not negative.
    pub fn deserialize(value: &Primitive) -> (r: Result<Self, DecodeError>)
        ensures
            r == match *value {
                Primitive::Unsigned(raw) => Ok::<Self, DecodeError>(Self::of_code(raw)),
                Primitive::Signed(raw) => if raw >= 0 {
                    Ok(Self::of_code(raw as u64))
                } else {
                    Err(DecodeError::InvalidFormat)
                },
                _ => Err(DecodeError::TypeMismatch),
            },
    {
        match value {
            Primitive::Unsigned(raw) => Ok(Self::from(*raw)),
            Primitive::Signed(raw) => if *raw >= 0 {
                Ok(Self::from(*raw as u64))
            } else {
                Err(DecodeError::InvalidFormat)
            },
            _ => Err(DecodeError::TypeMismatch),
        }
    }

    /// The wire form: an integer.
    pub fn serialize(&self) -> (r: Primitive)
        ensures
            r == Primitive::Unsigned(self.code()),
    {
        Primitive::Unsigned(u64::from(*self))
    }
}

impl From<VerificationLevel> for u64 {
    fn from(u: VerificationLevel) -> (r: u64) {
        match u {
            VerificationLevel::Nil => 0,
            VerificationLevel::Low => 1,
            VerificationLevel::Medium => 2,
            VerificationLevel::High => 3,
            VerificationLevel::VeryHigh => 4,
            VerificationLevel::Other(other) => other,
        }
    }
}

impl vstd::std_specs::convert::FromSpecImpl<VerificationLevel> for u64 {
    open spec fn obeys_from_spec() -> bool {
        true
    }

    open spec fn from_spec(u: VerificationLevel) -> u64 {
        u.code()
    }
}

impl From<u64> for VerificationLevel {
    fn from(u: u64) -> (r: Self) {
        match u {
            0 => VerificationLevel::Nil,
            1 => VerificationLevel::Low,
            2 => VerificationLevel::Medium,
            3 => VerificationLevel::High,
            4 => VerificationLevel::VeryHigh,
            other => VerificationLevel::Other(other),
        }
    }
}

impl vstd::std_specs::convert::FromSpecImpl<u64> for VerificationLevel {
    open spec fn obeys_from_spec() -> bool {
        true
    }

    open spec fn from_spec(u: u64) -> Self {
        Self::of_code(u)
    }
}

/// Which messages a member is notified of unless the member chooses.
#[derive(Debug, Clone, Copy, Eq, PartialEq, Structural)]
pub enum DefaultMessageNotificationLevel {
    AllMessages,
    OnlyMentions,
    Other(u64),
}

impl DefaultMessageNotificationLevel {
    /// The integer that each value travels as.
    pub open spec fn code(self) -> u64 {
        match self {
            DefaultMessageNotificationLevel::AllMessages => 0,
            DefaultMessageNotificationLevel::OnlyMentions => 1,
            DefaultMessageNotificationLevel::Other(other) => other,
        }
    }

    /// The value that travels as `raw`: the one named for it, or `Other`
    /// with the integer inside.
    pub open spec fn of_code(raw: u64) -> Self {
        if raw == 0 {
            DefaultMessageNotificationLevel::AllMessages
        } else if raw == 1 {
            DefaultMessageNotificationLevel::OnlyMentions
        } else {
            DefaultMessageNotificationLevel::Other(raw)
        }
    }

    /// Whether the value is one that was read or could have been: a
    /// named one, or `Other` with an integer that no name stands for.
    pub open spec fn canonical(self) -> bool {
        self matches DefaultMessageNotificationLevel::Other(other) ==> Self::of_code(other) is Other
    }

    /// Whatever integer comes in goes out again.
    pub proof fn lemma_round_trip(raw: u64)
        ensures
            Self::of_code(raw).code() == raw,
            Self::of_code(raw).canonical(),
    {
    }

    /// A value that is written and read again is the same value.
    pub proof fn lemma_read_back(self)
        requires
            self.canonical(),
        ensures
            Self::of_code(self.code()) == self,
    {
    }

    /// An integer that no name stands for is kept inside `Other`.
    pub proof fn lemma_unknown(raw: u64)
        requires
            raw != 0,
            raw != 1,
        ensures
            Self::of_code(raw) == DefaultMessageNotificationLevel::Other(raw),
    {
    }

    /// Reads a value from the wire, where it must stand as an integer that
    /// is not negative.
    pub fn deserialize(value: &Primitive) -> (r: Result<Self, DecodeError>)
        ensures
            r == match *value {
                Primitive::Unsigned(raw) => Ok::<Self, DecodeError>(Self::of_code(raw)),
                Primitive::Signed(raw) => if raw >= 0 {
                    Ok(Self::of_code(raw as u64))
                } else {
                    Err(DecodeError::InvalidFormat)
                },
                _ => Err(DecodeError::TypeMismatch),
            },
    {
        match value {
            Primitive::Unsigned(raw) => Ok(Self::from(*raw)),
            Primitive::Signed(raw) => if *raw >= 0 {
                Ok(Self::from(*raw as u64))
            } else {
                Err(DecodeError::InvalidFormat)
            },
            _ => Err(DecodeError::TypeMismatch),
        }
    }

    /// The wire form: an integer.
    pub fn serialize(&self) -> (r: Primitive)
        ensures
            r == Primitive::Unsigned(self.code()),
    {
        Primitive::Unsigned(u64::from(*self))
    }
}

impl From<DefaultMessageNotificationLevel> for u64 {
    fn from(u: DefaultMessageNotificationLevel) -> (r: u64) {
        match u {
            DefaultMessageNotificationLevel::AllMessages => 0,
            DefaultMessageNotificationLevel::OnlyMentions => 1,
            DefaultMessageNotificationLevel::Other(other) => other,
        }
    }
}

impl vstd::std_specs::convert::FromSpecImpl<DefaultMessageNotificationLevel> for u64 {
    open spec fn obeys_from_spec() -> bool {
        true
    }

    open spec fn from_spec(u: DefaultMessageNotificationLevel) -> u64 {
        u.code()
    }
}

impl From<u64> for DefaultMessageNotificationLevel {
    fn from(u: u64) -> (r: Self) {
        match u {
            0 => DefaultMessageNotificationLevel::AllMessages,
            1 => DefaultMessageNotificationLevel::OnlyMentions,
            other => DefaultMessageNotificationLevel::Other(other),
        }
    }
}

impl vstd::std_specs::convert::FromSpecImpl<u64> for DefaultMessageNotificationLevel {
    open spec fn obeys_from_spec() -> bool {
        true
    }

    open spec fn from_spec(u: u64) -> Self {
        Self::of_code(u)
    }
}

/// Whose media a guild scans.
#[derive(Debug, Clone, Copy, PartialEq, Eq, Hash, Structural)]
pub enum ExplicitContentFilterLevel {
    Disabled,
    MembersWithoutRoles,
    AllMembers,
    Other(u64),
}

impl ExplicitContentFilterLevel {
    /// The integer that each value travels as.
    pub open spec fn code(self) -> u64 {
        match self {
            ExplicitContentFilterLevel::Disabled => 0,
            ExplicitContentFilterLevel::MembersWithoutRoles => 1,
            ExplicitContentFilterLevel::AllMembers => 2,
            ExplicitContentFilterLevel::Other(other) => other,
        }
    }

    /// The value that travels as `raw`: the one named for it, or `Other`
    /// with the integer inside.
    pub open spec fn of_code(raw: u64) -> Self {
        if raw == 0 {
            ExplicitContentFilterLevel::Disabled
        } else if raw == 1 {
            ExplicitContentFilterLevel::MembersWithoutRoles
        } else if raw == 2 {
            ExplicitContentFilterLevel::AllMembers
        } else {
            ExplicitContentFilterLevel::Other(raw)
        }
    }

    /// Whether the value is one that was read or could have been: a
    /// named one, or `Other` with an integer that no name stands for.
    pub open spec fn canonical(self) -> bool {
        self matches ExplicitContentFilterLevel::Other(other) ==> Self::of_code(other) is Other
    }

    /// Whatever integer comes in goes out again.
    pub proof fn lemma_round_trip(raw: u64)
        ensures
            Self::of_code(raw).code() == raw,
            Self::of_code(raw).canonical(),
    {
    }

    /// A value that is written and read again is the same value.
    pub proof fn lemma_read_back(self)
        requires
            self.canonical(),
        ensures
            Self::of_code(self.code()) == self,
    {
    }

    /// An integer that no name stands for is kept inside `Other`.
    pub proof fn lemma_unknown(raw: u64)
        requires
            raw != 0,
            raw != 1,
            raw != 2,
        ensures
            Self::of_code(raw) == ExplicitContentFilterLevel::Other(raw),
    {
    }

    /// Reads a value from the wire, where it must stand as an integer that
    /// is not negative.
    pub fn deserialize(value: &Primitive) -> (r: Result<Self, DecodeError>)
        ensures
            r == match *value {
                Primitive::Unsigned(raw) => Ok::<Self, DecodeError>(Self::of_code(raw)),
                Primitive::Signed(raw) => if raw >= 0 {
                    Ok(Self::of_code(raw as u64))
                } else {
                    Err(DecodeError::InvalidFormat)
                },
                _ => Err(DecodeError::TypeMismatch),
            },
    {
        match value {
            Primitive::Unsigned(raw) => Ok(Self::from(*raw)),
            Primitive::Signed(raw) => if *raw >= 0 {
                Ok(Self::from(*raw as u64))
            } else {
                Err(DecodeError::InvalidFormat)
            },
            _ => Err(DecodeError::TypeMismatch),
        }
    }

    /// The wire form: an integer.
    pub fn serialize(&self) -> (r: Primitive)
        ensures
            r == Primitive::Unsigned(self.code()),
    {
        Primitive::Unsigned(u64::from(*self))
    }
}

impl From<ExplicitContentFilterLevel> for u64 {
    fn from(u: ExplicitContentFilterLevel) -> (r: u64) {
        match u {
            ExplicitContentFilterLevel::Disabled => 0,
            ExplicitContentFilterLevel::MembersWithoutRoles => 1,
            ExplicitContentFilterLevel::AllMembers => 2,
            ExplicitContentFilterLevel::Other(other) => other,
        }
    }
}

impl vstd::std_specs::convert::FromSpecImpl<ExplicitContentFilterLevel> for u64 {
    open spec fn obeys_from_spec() -> bool {
        true
    }

    open spec fn from_spec(u: ExplicitContentFilterLevel) -> u64 {
        u.code()
    }
}

impl From<u64> for ExplicitContentFilterLevel {
    fn from(u: u64) -> (r: Self) {
        match u {
            0 => ExplicitContentFilterLevel::Disabled,
            1 => ExplicitContentFilterLevel::MembersWithoutRoles,
            2 => ExplicitContentFilterLevel::AllMembers,
            other => ExplicitContentFilterLevel::Other(other),
        }
    }
}

impl vstd::std_specs::convert::FromSpecImpl<u64> for ExplicitContentFilterLevel {
    open spec fn obeys_from_spec() -> bool {
        true
    }

    open spec fn from_spec(u: u64) -> Self {
        Self::of_code(u)
    }
}

/// Something a guild has been given that not every guild has.
#[derive(Debug, Clone, Eq, PartialEq, Hash)]
pub enum GuildFeature {
    AnimatedIcon,
    Banner,
    Commerce,
    Community,
    Discoverable,
    Featurable,
    InviteSplash,
    MemberVerificationGateEnabled,
    News,
    Partnered,
    PreviewEnabled,
    VanityUrl,
    Verified,
    VipRegions,
    WelcomeScreenEnabled,
    Other(String),
}

impl GuildFeature {
    /// The string that each value travels as.
    pub open spec fn text(self) -> Seq<char> {
        match self {
            GuildFeature::AnimatedIcon => "ANIMATED_ICON"@,
            GuildFeature::Banner => "BANNER"@,
            GuildFeature::Commerce => "COMMERCE"@,
            GuildFeature::Community => "COMMUNITY"@,
            GuildFeature::Discoverable => "DISCOVERABLE"@,
            GuildFeature::Featurable => "FEATURABLE"@,
            GuildFeature::InviteSplash => "INVITE_SPLASH"@,
            GuildFeature::MemberVerificationGateEnabled => "MEMBER_VERIFICATION_GATE_ENABLED"@,
            GuildFeature::News => "NEWS"@,
            GuildFeature::Partnered => "PARTNERED"@,
            GuildFeature::PreviewEnabled => "PREVIEW_ENABLED"@,
            GuildFeature::VanityUrl => "VANITY_URL"@,
            GuildFeature::Verified => "VERIFIED"@,
            GuildFeature::VipRegions => "VIP_REGIONS"@,
            GuildFeature::WelcomeScreenEnabled => "WELCOME_SCREEN_ENABLED"@,
            GuildFeature::Other(s) => s@,
        }
    }

    /// The value that travels as `s`: the one named by it, or `Other` with
    /// the string inside.
    pub open spec fn of_text(s: String) -> Self {
        if s@ == "ANIMATED_ICON"@ {
            GuildFeature::AnimatedIcon
        } else if s@ == "BANNER"@ {
            GuildFeature::Banner
        } else if s@ == "COMMERCE"@ {
            GuildFeature::Commerce
        } else if s@ == "COMMUNITY"@ {
            GuildFeature::Community
        } else if s@ == "DISCOVERABLE"@ {
            GuildFeature::Discoverable
        } else if s@ == "FEATURABLE"@ {
            GuildFeature::Featurable
        } else if s@ == "INVITE_SPLASH"@ {
            GuildFeature::InviteSplash
        } else if s@ == "MEMBER_VERIFICATION_GATE_ENABLED"@ {
            GuildFeature::MemberVerificationGateEnabled
        } else if s@ == "NEWS"@ {
            GuildFeature::News
        } else if s@ == "PARTNERED"@ {
            GuildFeature::Partnered
        } else if s@ == "PREVIEW_ENABLED"@ {
            GuildFeature::PreviewEnabled
        } else if s@ == "VANITY_URL"@ {
            GuildFeature::VanityUrl
        } else if s@ == "VERIFIED"@ {
            GuildFeature::Verified
        } else if s@ == "VIP_REGIONS"@ {
            GuildFeature::VipRegions
        } else if s@ == "WELCOME_SCREEN_ENABLED"@ {
            GuildFeature::WelcomeScreenEnabled
        } else {
            GuildFeature::Other(s)
        }
    }

    /// Whether the value is a named one.
    pub open spec fn named(self) -> bool {
        !(self is Other)
    }

    /// Whatever string comes in goes out again.
    pub proof fn lemma_round_trip(s: String)
        ensures
            Self::of_text(s).text() == s@,
    {
    }

    /// A named value that is written and read again is the same value.
    pub proof fn lemma_read_back(self, s: String)
        requires
            self.named(),
            s@ == self.text(),
        ensures
            Self::of_text(s) == self,
    {
        reveal_strlit("ANIMATED_ICON");
        reveal_strlit("BANNER");
        reveal_strlit("COMMERCE");
        reveal_strlit("COMMUNITY");
        reveal_strlit("DISCOVERABLE");
        reveal_strlit("FEATURABLE");
        reveal_strlit("INVITE_SPLASH");
        reveal_strlit("MEMBER_VERIFICATION_GATE_ENABLED");
        reveal_strlit("NEWS");
        reveal_strlit("PARTNERED");
        reveal_strlit("PREVIEW_ENABLED");
        reveal_strlit("VANITY_URL");
        reveal_strlit("VERIFIED");
        reveal_strlit("VIP_REGIONS");
        reveal_strlit("WELCOME_SCREEN_ENABLED");
        assert("ANIMATED_ICON"@.len() == 13 && "ANIMATED_ICON"@[0] == 'A');
        assert("BANNER"@.len() == 6 && "BANNER"@[0] == 'B');
        assert("COMMERCE"@.len() == 8 && "COMMERCE"@[0] == 'C');
        assert("COMMUNITY"@.len() == 9 && "COMMUNITY"@[0] == 'C');
        assert("DISCOVERABLE"@.len() == 12 && "DISCOVERABLE"@[0] == 'D');
        assert("FEATURABLE"@.len() == 10 && "FEATURABLE"@[0] == 'F');
        assert("INVITE_SPLASH"@.len() == 13 && "INVITE_SPLASH"@[0] == 'I');
        assert("MEMBER_VERIFICATION_GATE_ENABLED"@.len() == 32 && "MEMBER_VERIFICATION_GATE_ENABLED"@[0] == 'M');
        assert("NEWS"@.len() == 4 && "NEWS"@[0] == 'N');
        assert("PARTNERED"@.len() == 9 && "PARTNERED"@[0] == 'P');
        assert("PREVIEW_ENABLED"@.len() == 15 && "PREVIEW_ENABLED"@[0] == 'P');
        assert("VANITY_URL"@.len() == 10 && "VANITY_URL"@[0] == 'V');
        assert("VERIFIED"@.len() == 8 && "VERIFIED"@[0] == 'V');
        assert("VIP_REGIONS"@.len() == 11 && "VIP_REGIONS"@[0] == 'V');
        assert("WELCOME_SCREEN_ENABLED"@.len() == 22 && "WELCOME_SCREEN_ENABLED"@[0] == 'W');
    }

    /// A string that is no name is kept inside `Other`.
    pub proof fn lemma_unknown(s: String)
        requires
            s@ != "ANIMATED_ICON"@,
            s@ != "BANNER"@,
            s@ != "COMMERCE"@,
            s@ != "COMMUNITY"@,
            s@ != "DISCOVERABLE"@,
            s@ != "FEATURABLE"@,
            s@ != "INVITE_SPLASH"@,
            s@ != "MEMBER_VERIFICATION_GATE_ENABLED"@,
            s@ != "NEWS"@,
            s@ != "PARTNERED"@,
            s@ != "PREVIEW_ENABLED"@,
            s@ != "VANITY_URL"@,
            s@ != "VERIFIED"@,
            s@ != "VIP_REGIONS"@,
            s@ != "WELCOME_SCREEN_ENABLED"@,
        ensures
            Self::of_text(s) == GuildFeature::Other(s),
    {
    }

    /// The string that the value travels as.
    pub fn into_string(self) -> (r: String)
        ensures
            r@ == self.text(),
    {
        match self {
            GuildFeature::AnimatedIcon => "ANIMATED_ICON".to_owned(),
            GuildFeature::Banner => "BANNER".to_owned(),
            GuildFeature::Commerce => "COMMERCE".to_owned(),
            GuildFeature::Community => "COMMUNITY".to_owned(),
            GuildFeature::Discoverable => "DISCOVERABLE".to_owned(),
            GuildFeature::Featurable => "FEATURABLE".to_owned(),
            GuildFeature::InviteSplash => "INVITE_SPLASH".to_owned(),
            GuildFeature::MemberVerificationGateEnabled => "MEMBER_VERIFICATION_GATE_ENABLED".to_owned(),
            GuildFeature::News => "NEWS".to_owned(),
            GuildFeature::Partnered => "PARTNERED".to_owned(),
            GuildFeature::PreviewEnabled => "PREVIEW_ENABLED".to_owned(),
            GuildFeature::VanityUrl => "VANITY_URL".to_owned(),
            GuildFeature::Verified => "VERIFIED".to_owned(),
            GuildFeature::VipRegions => "VIP_REGIONS".to_owned(),
            GuildFeature::WelcomeScreenEnabled => "WELCOME_SCREEN_ENABLED".to_owned(),
            GuildFeature::Other(s) => s,
        }
    }

    /// Reads a value from the wire, where it must stand as a string.
    pub fn deserialize(value: &Primitive) -> (r: Result<Self, DecodeError>)
        ensures
            r == match *value {
                Primitive::Text(s) => Ok::<Self, DecodeError>(Self::of_text(s)),
                _ => Err(DecodeError::TypeMismatch),
            },
    {
        match value {
            Primitive::Text(s) => Ok(Self::from(s.clone())),
            _ => Err(DecodeError::TypeMismatch),
        }
    }

    /// The wire form: a string.
    pub fn serialize(self) -> (r: Primitive)
        ensures
            r matches Primitive::Text(s) && s@ == self.text(),
    {
        Primitive::Text(self.into_string())
    }
}

impl From<String> for GuildFeature {
    fn from(s: String) -> (r: Self) {
        if str_eq(s.as_str(), "ANIMATED_ICON") {
            GuildFeature::AnimatedIcon
        } else if str_eq(s.as_str(), "BANNER") {
            GuildFeature::Banner
        } else if str_eq(s.as_str(), "COMMERCE") {
            GuildFeature::Commerce
        } else if str_eq(s.as_str(), "COMMUNITY") {
            GuildFeature::Community
        } else if str_eq(s.as_str(), "DISCOVERABLE") {
            GuildFeature::Discoverable
        } else if str_eq(s.as_str(), "FEATURABLE") {
            GuildFeature::Featurable
        } else if str_eq(s.as_str(), "INVITE_SPLASH") {
            GuildFeature::InviteSplash
        } else if str_eq(s.as_str(), "MEMBER_VERIFICATION_GATE_ENABLED") {
            GuildFeature::MemberVerificationGateEnabled
        } else if str_eq(s.as_str(), "NEWS") {
            GuildFeature::News
        } else if str_eq(s.as_str(), "PARTNERED") {
            GuildFeature::Partnered
        } else if str_eq(s.as_str(), "PREVIEW_ENABLED") {
            GuildFeature::PreviewEnabled
        } else if str_eq(s.as_str(), "VANITY_URL") {
            GuildFeature::VanityUrl
        } else if str_eq(s.as_str(), "VERIFIED") {
            GuildFeature::Verified
        } else if str_eq(s.as_str(), "VIP_REGIONS") {
            GuildFeature::VipRegions
        } else if str_eq(s.as_str(), "WELCOME_SCREEN_ENABLED") {
            GuildFeature::WelcomeScreenEnabled
        } else {
            GuildFeature::Other(s)
        }
    }
}

impl vstd::std_specs::convert::FromSpecImpl<String> for GuildFeature {
    open spec fn obeys_from_spec() -> bool {
        true
    }

    open spec fn from_spec(s: String) -> Self {
        Self::of_text(s)
    }
}

impl From<GuildFeature> for String {
    fn from(f: GuildFeature) -> (r: String)
        ensures
            r@ == f.text(),
    {
        f.into_string()
    }
}

impl vstd::std_specs::convert::FromSpecImpl<GuildFeature> for String {
    open spec fn obeys_from_spec() -> bool {
        false
    }

    open spec fn from_spec(f: GuildFeature) -> String {
        arbitrary()
    }
}

/// Whether a guild asks its moderators for a second factor.
#[derive(Debug, Clone, Copy, Eq, PartialEq, Hash, Structural)]
pub enum MfaLevel {
    Nil,
    Elevated,
    Other(u64),
}

impl MfaLevel {
    /// The integer that each value travels as.
    pub open spec fn code(self) -> u64 {
        match self {
            MfaLevel::Nil => 0,
            MfaLevel::Elevated => 1,
            MfaLevel::Other(other) => other,
        }
    }

    /// The value that travels as `raw`: the one named for it, or `Other`
    /// with the integer inside.
    pub open spec fn of_code(raw: u64) -> Self {
        if raw == 0 {
            MfaLevel::Nil
        } else if raw == 1 {
            MfaLevel::Elevated
        } else {
            MfaLevel::Other(raw)
        }
    }

    /// Whether the value is one that was read or could have been: a
    /// named one, or `Other` with an integer that no name stands for.
    pub open spec fn canonical(self) -> bool {
        self matches MfaLevel::Other(other) ==> Self::of_code(other) is Other
    }

    /// Whatever integer comes in goes out again.
    pub proof fn lemma_round_trip(raw: u64)
        ensures
            Self::of_code(raw).code() == raw,
            Self::of_code(raw).canonical(),
    {
    }

    /// A value that is written and read again is the same value.
    pub proof fn lemma_read_back(self)
        requires
            self.canonical(),
        ensures
            Self::of_code(self.code()) == self,
    {
    }

    /// An integer that no name stands for is kept inside `Other`.
    pub proof fn lemma_unknown(raw: u64)
        requires
            raw != 0,
            raw != 1,
        ensures
            Self::of_code(raw) == MfaLevel::Other(raw),
    {
    }

    /// Reads a value from the wire, where it must stand as an integer that
    /// is not negative.
    pub fn deserialize(value: &Primitive) -> (r: Result<Self, DecodeError>)
        ensures
            r == match *value {
                Primitive::Unsigned(raw) => Ok::<Self, DecodeError>(Self::of_code(raw)),
                Primitive::Signed(raw) => if raw >= 0 {
                    Ok(Self::of_code(raw as u64))
                } else {
                    Err(DecodeError::InvalidFormat)
                },
                _ => Err(DecodeError::TypeMismatch),
            },
    {
        match value {
            Primitive::Unsigned(raw) => Ok(Self::from(*raw)),
            Primitive::Signed(raw) => if *raw >= 0 {
                Ok(Self::from(*raw as u64))
            } else {
                Err(DecodeError::InvalidFormat)
            },
            _ => Err(DecodeError::TypeMismatch),
        }
    }

    /// The wire form: an integer.
    pub fn serialize(&self) -> (r: Primitive)
        ensures
            r == Primitive::Unsigned(self.code()),
    {
        Primitive::Unsigned(u64::from(*self))
    }
}

impl From<MfaLevel> for u64 {
    fn from(u: MfaLevel) -> (r: u64) {
        match u {
            MfaLevel::Nil => 0,
            MfaLevel::Elevated => 1,
            MfaLevel::Other(other) => other,
        }
    }
}

impl vstd::std_specs::convert::FromSpecImpl<MfaLevel> for u64 {
    open spec fn obeys_from_spec() -> bool {
        true
    }

    open spec fn from_spec(u: MfaLevel) -> u64 {
        u.code()
    }
}

impl From<u64> for MfaLevel {
    fn from(u: u64) -> (r: Self) {
        match u {
            0 => MfaLevel::Nil,
            1 => MfaLevel::Elevated,
            other => MfaLevel::Other(other),
        }
    }
}

impl vstd::std_specs::convert::FromSpecImpl<u64> for MfaLevel {
    open spec fn obeys_from_spec() -> bool {
        true
    }

    open spec fn from_spec(u: u64) -> Self {
        Self::of_code(u)
    }
}

/// How high boosts have lifted a guild.
#[derive(Debug, Clone, Copy, Eq, PartialEq, Structural)]
pub enum PremiumTier {
    Nil,
    Tier1,
    Tier2,
    Tier3,
    Other(u64),
}

impl PremiumTier {
    /// The integer that each value travels as.
    pub open spec fn code(self) -> u64 {
        match self {
            PremiumTier::Nil => 0,
            PremiumTier::Tier1 => 1,
            PremiumTier::Tier2 => 2,
            PremiumTier::Tier3 => 3,
            PremiumTier::Other(other) => other,
        }
    }

    /// The value that travels as `raw`: the one named for it, or `Other`
    /// with the integer inside.
    pub open spec fn of_code(raw: u64) -> Self {
        if raw == 0 {
            PremiumTier::Nil
        } else if raw == 1 {
            PremiumTier::Tier1
        } else if raw == 2 {
            PremiumTier::Tier2
        } else if raw == 3 {
            PremiumTier::Tier3
        } else {
            PremiumTier::Other(raw)
        }
    }

    /// Whether the value is one that was read or could have been: a
    /// named one, or `Other` with an integer that no name stands for.
    pub open spec fn canonical(self) -> bool {
        self matches PremiumTier::Other(other) ==> Self::of_code(other) is Other
    }

    /// Whatever integer comes in goes out again.
    pub proof fn lemma_round_trip(raw: u64)
        ensures
            Self::of_code(raw).code() == raw,
            Self::of_code(raw).canonical(),
    {
    }

    /// A value that is written and read again is the same value.
    pub proof fn lemma_read_back(self)
        requires
            self.canonical(),
        ensures
            Self::of_code(self.code()) == self,
    {
    }

    /// An integer that no name stands for is kept inside `Other`.
    pub proof fn lemma_unknown(raw: u64)
        requires
            raw != 0,
            raw != 1,
            raw != 2,
            raw != 3,
        ensures
            Self::of_code(raw) == PremiumTier::Other(raw),
    {
    }

    /// Reads a value from the wire, where it must stand as an integer that
    /// is not negative.
    pub fn deserialize(value: &Primitive) -> (r: Result<Self, DecodeError>)
        ensures
            r == match *value {
                Primitive::Unsigned(raw) => Ok::<Self, DecodeError>(Self::of_code(raw)),
                Primitive::Signed(raw) => if raw >= 0 {
                    Ok(Self::of_code(raw as u64))
                } else {
                    Err(DecodeError::InvalidFormat)
                },
                _ => Err(DecodeError::TypeMismatch),
            },
    {
        match value {
            Primitive::Unsigned(raw) => Ok(Self::from(*raw)),
            Primitive::Signed(raw) => if *raw >= 0 {
                Ok(Self::from(*raw as u64))
            } else {
                Err(DecodeError::InvalidFormat)
            },
            _ => Err(DecodeError::TypeMismatch),
        }
    }

    /// The wire form: an integer.
    pub fn serialize(&self) -> (r: Primitive)
        ensures
            r == Primitive::Unsigned(self.code()),
    {
        Primitive::Unsigned(u64::from(*self))
    }
}

impl From<PremiumTier> for u64 {
    fn from(u: PremiumTier) -> (r: u64) {
        match u {
            PremiumTier::Nil => 0,
            PremiumTier::Tier1 => 1,
            PremiumTier::Tier2 => 2,
            PremiumTier::Tier3 => 3,
            PremiumTier::Other(other) => other,
        }
    }
}

impl vstd::std_specs::convert::FromSpecImpl<PremiumTier> for u64 {
    open spec fn obeys_from_spec() -> bool {
        true
    }

    open spec fn from_spec(u: PremiumTier) -> u64 {
        u.code()
    }
}

impl From<u64> for PremiumTier {
    fn from(u: u64) -> (r: Self) {
        match u {
            0 => PremiumTier::Nil,
            1 => PremiumTier::Tier1,
            2 => PremiumTier::Tier2,
            3 => PremiumTier::Tier3,
            other => PremiumTier::Other(other),
        }
    }
}

impl vstd::std_specs::convert::FromSpecImpl<u64> for PremiumTier {
    open spec fn obeys_from_spec() -> bool {
        true
    }

    open spec fn from_spec(u: u64) -> Self {
        Self::of_code(u)
    }
}

/// What a guild shows to those who have just joined.
#[derive(Debug, Clone)]
pub struct WelcomeScreen {
    pub description: Option<String>,
    pub welcome_channels: Vec<WelcomeScreenChannel>,
}

impl WelcomeScreen {
    pub fn description(&self) -> (r: Option<&str>)
        ensures
            same_text(r, self.description),
    {
        opt_str(&self.description)
    }

    pub fn welcome_channels(&self) -> (r: &[WelcomeScreenChannel])
        ensures
            r@ == self.welcome_channels@,
    {
        self.welcome_channels.as_slice()
    }
}

/// A channel that the welcome screen points to.
#[derive(Debug, Clone)]
pub struct WelcomeScreenChannel {
    pub channel_id: ChannelId,
    pub description: String,
    pub emoji_id: Option<EmojiId>,
    pub emoji_name: Option<String>,
}

impl WelcomeScreenChannel {
    pub fn channel_id(&self) -> (r: ChannelId)
        ensures
            r == self.channel_id,
    {
        self.channel_id
    }

    pub fn description(&self) -> (r: &str)
        ensures
            r@ == self.description@,
    {
        self.description.as_str()
    }

    pub fn emoji_id(&self) -> (r: Option<EmojiId>)
        ensures
            r == self.emoji_id,
    {
        self.emoji_id
    }

    pub fn emoji_name(&self) -> (r: Option<&str>)
        ensures
            same_text(r, self.emoji_name),
    {
        opt_str(&self.emoji_name)
    }
}

/// A guild, or what is known of one that cannot be reached.
#[derive(Debug, Clone)]
pub enum Guild {
    Available(AvailableGuild),
    Unavailable(UnavailableGuild),
}

impl Guild {
    /// The identifier of the guild.
    pub fn id(&self) -> (r: GuildId)
        ensures
            r == match *self {
                Guild::Available(a) => a.id,
                Guild::Unavailable(u) => u.id,
            },
    {
        match self {
            Self::Available(a) => a.id,
            Self::Unavailable(u) => u.id,
        }
    }

    /// Whether the guild cannot be reached now.
    pub fn unavailable(&self) -> (r: bool)
        ensures
            r == (self is Unavailable),
    {
        match self {
            Self::Unavailable(u) => u.unavailable(),
            Self::Available(a) => a.unavailable(),
        }
    }

    /// The guild, where it can be reached.
    pub fn into_available(self) -> (r: Option<AvailableGuild>)
        ensures
            r == match self {
                Guild::Available(a) => Some(a),
                _ => None,
            },
    {
        match self {
            Self::Available(a) => Some(a),
            _ => None,
        }
    }

    /// The guild, where it can be reached.
    pub fn as_available(&self) -> (r: Option<&AvailableGuild>)
        ensures
            match r {
                Some(a) => *self == Guild::Available(*a),
                None => !(self is Available),
            },
    {
        match self {
            Self::Available(a) => Some(a),
            _ => None,
        }
    }

    /// What is known of the guild, where it cannot be reached.
    pub fn into_unavailable(self) -> (r: Option<UnavailableGuild>)
        ensures
            r == match self {
                Guild::Unavailable(u) => Some(u),
                _ => None,
            },
    {
        match self {
            Self::Unavailable(u) => Some(u),
            _ => None,
        }
    }

    /// What is known of the guild, where it cannot be reached.
    pub fn as_unavailable(&self) -> (r: Option<&UnavailableGuild>)
        ensures
            match r {
                Some(u) => *self == Guild::Unavailable(*u),
                None => !(self is Unavailable),
            },
    {
        match self {
            Self::Unavailable(u) => Some(u),
            _ => None,
        }
    }
}

/// What is known of a guild that cannot be reached: that it is there.
#[derive(Debug, Clone)]
pub struct UnavailableGuild {
    pub id: GuildId,
}

impl UnavailableGuild {
    pub fn id(&self) -> (r: GuildId)
        ensures
            r == self.id,
    {
        self.id
    }

    pub fn unavailable(&self) -> (r: bool)
        ensures
            r == true,
    {
        true
    }
}

/// A guild.
#[derive(Debug, Clone)]
pub struct AvailableGuild {
    pub id: GuildId,
    pub name: String,
    pub icon: Option<String>,
    pub icon_hash: Option<String>,
    pub splash: Option<String>,
    pub discovery_splash: Option<String>,
    pub owner: Option<bool>,
    pub owner_id: UserId,
    pub permissions: Option<String>,
    pub region: String,
    pub afk_channel_id: Option<ChannelId>,
    pub afk_timeout: u64,
    pub widget_enabled: Option<bool>,
    pub widget_channel_id: Option<ChannelId>,
    pub verification_level: VerificationLevel,
    pub default_message_notifications: DefaultMessageNotificationLevel,
    pub explicit_content_filter: ExplicitContentFilterLevel,
    pub roles: Vec<Role>,
    pub emojis: Vec<Emoji>,
    pub features: Vec<GuildFeature>,
    pub mfa_level: MfaLevel,
    pub application_id: Option<ApplicationId>,
    pub system_channel_id: Option<ChannelId>,
    pub system_channel_flags: u64,
    pub rules_channel_id: Option<ChannelId>,
    pub joined_at: Option<DateTime>,
    pub large: Option<bool>,
    pub member_count: Option<u64>,
    pub voice_states: Option<Vec<VoiceState>>,
    pub members: Option<Vec<GuildMember>>,
    pub channels: Option<Vec<Channel>>,
    pub threads: Option<Vec<Channel>>,
    pub max_presences: Option<u64>,
    pub max_members: Option<u64>,
    pub vanity_url_code: Option<String>,
    pub description: Option<String>,
    pub banner: Option<String>,
    pub premium_tier: PremiumTier,
    pub premium_subscription_count: Option<u64>,
    pub preferred_locale: String,
    pub public_updates_channel_id: Option<ChannelId>,
    pub max_video_channel_users: Option<u64>,
    pub approximate_member_count: Option<u64>,
    pub welcome_screen: Option<WelcomeScreen>,
    pub nsfw: Option<bool>,
}

impl AvailableGuild {
    pub fn id(&self) -> (r: GuildId)
        ensures
            r == self.id,
    {
        self.id
    }

    pub fn unavailable(&self) -> (r: bool)
        ensures
            r == false,
    {
        false
    }

    pub fn name(&self) -> (r: &str)
        ensures
            r@ == self.name@,
    {
        self.name.as_str()
    }

    pub fn icon(&self) -> (r: Option<&str>)
        ensures
            same_text(r, self.icon),
    {
        opt_str(&self.icon)
    }

    pub fn icon_hash(&self) -> (r: Option<&str>)
        ensures
            same_text(r, self.icon_hash),
    {
        opt_str(&self.icon_hash)
    }

    pub fn splash(&self) -> (r: Option<&str>)
        ensures
            same_text(r, self.splash),
    {
        opt_str(&self.splash)
    }

    pub fn discovery_splash(&self) -> (r: Option<&str>)
        ensures
            same_text(r, self.discovery_splash),
    {
        opt_str(&self.discovery_splash)
    }

    pub fn owner(&self) -> (r: Option<bool>)
        ensures
            r == self.owner,
    {
        self.owner
    }

    pub fn owner_id(&self) -> (r: UserId)
        ensures
            r == self.owner_id,
    {
        self.owner_id
    }

    pub fn permissions(&self) -> (r: Option<&str>)
        ensures
            same_text(r, self.permissions),
    {
        opt_str(&self.permissions)
    }

    pub fn region(&self) -> (r: &str)
        ensures
            r@ == self.region@,
    {
        self.region.as_str()
    }

    pub fn afk_channel_id(&self) -> (r: Option<ChannelId>)
        ensures
            r == self.afk_channel_id,
    {
        self.afk_channel_id
    }

    pub fn afk_timeout(&self) -> (r: u64)
        ensures
            r == self.afk_timeout,
    {
        self.afk_timeout
    }

    pub fn widget_enabled(&self) -> (r: Option<bool>)
        ensures
            r == self.widget_enabled,
    {
        self.widget_enabled
    }

    pub fn widget_channel_id(&self) -> (r: Option<ChannelId>)
        ensures
            r == self.widget_channel_id,
    {
        self.widget_channel_id
    }

    pub fn verification_level(&self) -> (r: VerificationLevel)
        ensures
            r == self.verification_level,
    {
        self.verification_level
    }

    pub fn default_message_notifications(&self) -> (r: DefaultMessageNotificationLevel)
        ensures
            r == self.default_message_notifications,
    {
        self.default_message_notifications
    }

    pub fn explicit_content_filter(&self) -> (r: ExplicitContentFilterLevel)
        ensures
            r == self.explicit_content_filter,
    {
        self.explicit_content_filter
    }

    pub fn roles(&self) -> (r: &[Role])
        ensures
            r@ == self.roles@,
    {
        self.roles.as_slice()
    }

    pub fn emojis(&self) -> (r: &[Emoji])
        ensures
            r@ == self.emojis@,
    {
        self.emojis.as_slice()
    }

    pub fn features(&self) -> (r: &[GuildFeature])
        ensures
            r@ == self.features@,
    {
        self.features.as_slice()
    }

    pub fn mfa_level(&self) -> (r: MfaLevel)
        ensures
            r == self.mfa_level,
    {
        self.mfa_level
    }

    pub fn application_id(&self) -> (r: Option<ApplicationId>)
        ensures
            r == self.application_id,
    {
        self.application_id
    }

    pub fn system_channel_id(&self) -> (r: Option<ChannelId>)
        ensures
            r == self.system_channel_id,
    {
        self.system_channel_id
    }

    pub fn system_channel_flags(&self) -> (r: u64)
        ensures
            r == self.system_channel_flags,
    {
        self.system_channel_flags
    }

    pub fn rules_channel_id(&self) -> (r: Option<ChannelId>)
        ensures
            r == self.rules_channel_id,
    {
        self.rules_channel_id
    }

    pub fn joined_at(&self) -> (r: Option<DateTime>)
        ensures
            r == self.joined_at,
    {
        self.joined_at
    }

    pub fn large(&self) -> (r: Option<bool>)
        ensures
            r == self.large,
    {
        self.large
    }

    pub fn member_count(&self) -> (r: Option<u64>)
        ensures
            r == self.member_count,
    {
        self.member_count
    }

    pub fn voice_states(&self) -> (r: Option<&[VoiceState]>)
        ensures
            same_items(r, self.voice_states),
    {
        opt_slice(&self.voice_states)
    }

    pub fn members(&self) -> (r: Option<&[GuildMember]>)
        ensures
            same_items(r, self.members),
    {
        opt_slice(&self.members)
    }

    pub fn channels(&self) -> (r: Option<&[Channel]>)
        ensures
            same_items(r, self.channels),
    {
        opt_slice(&self.channels)
    }

    pub fn threads(&self) -> (r: Option<&[Channel]>)
        ensures
            same_items(r, self.threads),
    {
        opt_slice(&self.threads)
    }

    pub fn max_presences(&self) -> (r: Option<u64>)
        ensures
            r == self.max_presences,
    {
        self.max_presences
    }

    pub fn max_members(&self) -> (r: Option<u64>)
        ensures
            r == self.max_members,
    {
        self.max_members
    }

    pub fn vanity_url_code(&self) -> (r: Option<&str>)
        ensures
            same_text(r, self.vanity_url_code),
    {
        opt_str(&self.vanity_url_code)
    }

    pub fn description(&self) -> (r: Option<&str>)
        ensures
            same_text(r, self.description),
    {
        opt_str(&self.description)
    }

    pub fn banner(&self) -> (r: Option<&str>)
        ensures
            same_text(r, self.banner),
    {
        opt_str(&self.banner)
    }

    pub fn premium_tier(&self) -> (r: PremiumTier)
        ensures
            r == self.premium_tier,
    {
        self.premium_tier
    }

    pub fn premium_subscription_count(&self) -> (r: Option<u64>)
        ensures
            r == self.premium_subscription_count,
    {
        self.premium_subscription_count
    }

    pub fn preferred_locale(&self) -> (r: &str)
        ensures
            r@ == self.preferred_locale@,
    {
        self.preferred_locale.as_str()
    }

    pub fn public_updates_channel_id(&self) -> (r: Option<ChannelId>)
        ensures
            r == self.public_updates_channel_id,
    {
        self.public_updates_channel_id
    }

    pub fn max_video_channel_users(&self) -> (r: Option<u64>)
        ensures
            r == self.max_video_channel_users,
    {
        self.max_video_channel_users
    }

    pub fn approximate_member_count(&self) -> (r: Option<u64>)
        ensures
            r == self.approximate_member_count,
    {
        self.approximate_member_count
    }

    pub fn welcome_screen(&self) -> (r: Option<&WelcomeScreen>)
        ensures
            same_value(r, self.welcome_screen),
    {
        opt_ref(&self.welcome_screen)
    }

    pub fn nsfw(&self) -> (r: Option<bool>)
        ensures
            r == self.nsfw,
    {
        self.nsfw
    }
}

/// A user as a member of a guild.
#[derive(Debug, Clone)]
pub struct GuildMember {
    pub user: Option<User>,
    pub nick: Option<String>,
    pub roles: Vec<RoleId>,
    pub joined_at: DateTime,
    pub premium_since: Option<DateTime>,
    pub deaf: bool,
    pub mute: bool,
    pub pending: Option<bool>,
    pub permissions: Option<String>,
}

} // verus!
