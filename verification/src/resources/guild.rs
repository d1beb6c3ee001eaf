//! Guilds.

use vstd::prelude::*;
use core::str::FromStr;

use crate::borrow::{opt_ref, opt_slice, opt_str, same_items, same_text, same_value};
use crate::emoji::Emoji;
use crate::emoji::EmojiId;
use crate::entity;
use crate::enums::{
    EnumFromIntegerError, Inner, IntegerEnum, ParseEnumError, ReadWireString, StringEnum,
    WireInteger, WireString,
};
use crate::flags::{spec_from_bits, Flags};
use crate::permissions::{Role, RoleId};
use crate::resources::application::ApplicationId;
use crate::resources::channel::{Channel, ChannelId};
use crate::resources::user::{User, UserId};
use crate::resources::voice::VoiceState;
use crate::snowflake::Id;
use crate::text::str_eq;
use crate::time::DateTime;
use crate::wire::DecodeError;

pub use crate::guild::integration::{
    Integration, IntegrationAccount, IntegrationAccountId, IntegrationApplication,
    IntegrationApplicationId, IntegrationExpireBehavior, IntegrationId,
};

verus! {

/// Reads the mark of a guild that cannot be reached: the field must be there
/// and must be true.
pub fn read_unavailable(value: Option<bool>) -> (r: Result<(), DecodeError>)
    ensures
        r == if value == Some(true) {
            Ok::<(), DecodeError>(())
        } else {
            Err(DecodeError::InvalidFormat)
        },
{
    let value = match value {
        Some(v) => v,
        None => false,
    };
    if value {
        Ok(())
    } else {
        Err(DecodeError::InvalidFormat)
    }
}

/// Reads the mark of a guild that can be reached: the field is not there,
/// or it is false.
pub fn read_available(value: Option<bool>) -> (r: Result<(), DecodeError>)
    ensures
        r == if value == Some(true) {
            Err::<(), DecodeError>(DecodeError::InvalidFormat)
        } else {
            Ok(())
        },
{
    let value = match value {
        Some(v) => v,
        None => false,
    };
    if value {
        Err(DecodeError::InvalidFormat)
    } else {
        Ok(())
    }
}

/// The identifier of a guild.
pub type GuildId = Id<entity::Guild>;

/// What a guild asks of an account before its owner may write.
#[derive(Debug, Clone, Copy, Eq, PartialEq, Structural)]
pub enum VerificationLevel {
    Nil,
    Low,
    Medium,
    High,
    VeryHigh,
}

impl WireInteger for VerificationLevel {
    open spec fn valid(self) -> bool {
        true
    }

    open spec fn code(self) -> u64 {
        match self {
            VerificationLevel::Nil => 0,
            VerificationLevel::Low => 1,
            VerificationLevel::Medium => 2,
            VerificationLevel::High => 3,
            VerificationLevel::VeryHigh => 4,
        }
    }

    open spec fn of_code(raw: u64) -> Option<Self> {
        if raw == 0 {
            Some(VerificationLevel::Nil)
        } else if raw == 1 {
            Some(VerificationLevel::Low)
        } else if raw == 2 {
            Some(VerificationLevel::Medium)
        } else if raw == 3 {
            Some(VerificationLevel::High)
        } else if raw == 4 {
            Some(VerificationLevel::VeryHigh)
        } else {
            None
        }
    }

    proof fn lemma_code_is_read_back(self) {
    }

    proof fn lemma_of_code_is_exact(raw: u64) {
    }

    fn to_wire(self) -> (raw: u64) {
        match self {
            VerificationLevel::Nil => 0,
            VerificationLevel::Low => 1,
            VerificationLevel::Medium => 2,
            VerificationLevel::High => 3,
            VerificationLevel::VeryHigh => 4,
        }
    }

    fn from_wire(raw: u64) -> (r: Option<Self>) {
        match raw {
            0 => Some(VerificationLevel::Nil),
            1 => Some(VerificationLevel::Low),
            2 => Some(VerificationLevel::Medium),
            3 => Some(VerificationLevel::High),
            4 => Some(VerificationLevel::VeryHigh),
            _ => None,
        }
    }
}

impl From<VerificationLevel> for u64 {
    fn from(u: VerificationLevel) -> (r: u64) {
        u.to_wire()
    }
}

impl vstd::std_specs::convert::FromSpecImpl<VerificationLevel> for u64 {
    open spec fn obeys_from_spec() -> bool {
        true
    }

    open spec fn from_spec(u: VerificationLevel) -> u64 {
        u.code()
    }
}

impl TryFrom<u64> for VerificationLevel {
    type Error = EnumFromIntegerError;

    fn try_from(u: u64) -> (r: Result<Self, EnumFromIntegerError>) {
        match Self::from_wire(u) {
            Some(v) => Ok(v),
            None => Err(EnumFromIntegerError::new(u)),
        }
    }
}

impl vstd::std_specs::convert::TryFromSpecImpl<u64> for VerificationLevel {
    open spec fn obeys_try_from_spec() -> bool {
        true
    }

    open spec fn try_from_spec(u: u64) -> Result<Self, EnumFromIntegerError> {
        match Self::of_code(u) {
            Some(v) => Ok(v),
            None => Err(EnumFromIntegerError { raw: u }),
        }
    }
}

/// Which messages a member is notified of unless the member chooses.
#[derive(Debug, Clone, Copy, Eq, PartialEq, Structural)]
pub enum DefaultMessageNotificationLevel {
    AllMessages,
    OnlyMentions,
}

impl WireInteger for DefaultMessageNotificationLevel {
    open spec fn valid(self) -> bool {
        true
    }

    open spec fn code(self) -> u64 {
        match self {
            DefaultMessageNotificationLevel::AllMessages => 0,
            DefaultMessageNotificationLevel::OnlyMentions => 1,
        }
    }

    open spec fn of_code(raw: u64) -> Option<Self> {
        if raw == 0 {
            Some(DefaultMessageNotificationLevel::AllMessages)
        } else if raw == 1 {
            Some(DefaultMessageNotificationLevel::OnlyMentions)
        } else {
            None
        }
    }

    proof fn lemma_code_is_read_back(self) {
    }

    proof fn lemma_of_code_is_exact(raw: u64) {
    }

    fn to_wire(self) -> (raw: u64) {
        match self {
            DefaultMessageNotificationLevel::AllMessages => 0,
            DefaultMessageNotificationLevel::OnlyMentions => 1,
        }
    }

    fn from_wire(raw: u64) -> (r: Option<Self>) {
        match raw {
            0 => Some(DefaultMessageNotificationLevel::AllMessages),
            1 => Some(DefaultMessageNotificationLevel::OnlyMentions),
            _ => None,
        }
    }
}

impl From<DefaultMessageNotificationLevel> for u64 {
    fn from(u: DefaultMessageNotificationLevel) -> (r: u64) {
        u.to_wire()
    }
}

impl vstd::std_specs::convert::FromSpecImpl<DefaultMessageNotificationLevel> for u64 {
    open spec fn obeys_from_spec() -> bool {
        true
    }

    open spec fn from_spec(u: DefaultMessageNotificationLevel) -> u64 {
        u.code()
    }
}

impl TryFrom<u64> for DefaultMessageNotificationLevel {
    type Error = EnumFromIntegerError;

    fn try_from(u: u64) -> (r: Result<Self, EnumFromIntegerError>) {
        match Self::from_wire(u) {
            Some(v) => Ok(v),
            None => Err(EnumFromIntegerError::new(u)),
        }
    }
}

impl vstd::std_specs::convert::TryFromSpecImpl<u64> for DefaultMessageNotificationLevel {
    open spec fn obeys_try_from_spec() -> bool {
        true
    }

    open spec fn try_from_spec(u: u64) -> Result<Self, EnumFromIntegerError> {
        match Self::of_code(u) {
            Some(v) => Ok(v),
            None => Err(EnumFromIntegerError { raw: u }),
        }
    }
}

/// Whose media a guild scans.
#[derive(Debug, Clone, Copy, PartialEq, Eq, Hash, Structural)]
pub enum ExplicitContentFilterLevel {
    Disabled,
    MembersWithoutRoles,
    AllMembers,
}

impl WireInteger for ExplicitContentFilterLevel {
    open spec fn valid(self) -> bool {
        true
    }

    open spec fn code(self) -> u64 {
        match self {
            ExplicitContentFilterLevel::Disabled => 0,
            ExplicitContentFilterLevel::MembersWithoutRoles => 1,
            ExplicitContentFilterLevel::AllMembers => 2,
        }
    }

    open spec fn of_code(raw: u64) -> Option<Self> {
        if raw == 0 {
            Some(ExplicitContentFilterLevel::Disabled)
        } else if raw == 1 {
            Some(ExplicitContentFilterLevel::MembersWithoutRoles)
        } else if raw == 2 {
            Some(ExplicitContentFilterLevel::AllMembers)
        } else {
            None
        }
    }

    proof fn lemma_code_is_read_back(self) {
    }

    proof fn lemma_of_code_is_exact(raw: u64) {
    }

    fn to_wire(self) -> (raw: u64) {
        match self {
            ExplicitContentFilterLevel::Disabled => 0,
            ExplicitContentFilterLevel::MembersWithoutRoles => 1,
            ExplicitContentFilterLevel::AllMembers => 2,
        }
    }

    fn from_wire(raw: u64) -> (r: Option<Self>) {
        match raw {
            0 => Some(ExplicitContentFilterLevel::Disabled),
            1 => Some(ExplicitContentFilterLevel::MembersWithoutRoles),
            2 => Some(ExplicitContentFilterLevel::AllMembers),
            _ => None,
        }
    }
}

impl From<ExplicitContentFilterLevel> for u64 {
    fn from(u: ExplicitContentFilterLevel) -> (r: u64) {
        u.to_wire()
    }
}

impl vstd::std_specs::convert::FromSpecImpl<ExplicitContentFilterLevel> for u64 {
    open spec fn obeys_from_spec() -> bool {
        true
    }

    open spec fn from_spec(u: ExplicitContentFilterLevel) -> u64 {
        u.code()
    }
}

impl TryFrom<u64> for ExplicitContentFilterLevel {
    type Error = EnumFromIntegerError;

    fn try_from(u: u64) -> (r: Result<Self, EnumFromIntegerError>) {
        match Self::from_wire(u) {
            Some(v) => Ok(v),
            None => Err(EnumFromIntegerError::new(u)),
        }
    }
}

impl vstd::std_specs::convert::TryFromSpecImpl<u64> for ExplicitContentFilterLevel {
    open spec fn obeys_try_from_spec() -> bool {
        true
    }

    open spec fn try_from_spec(u: u64) -> Result<Self, EnumFromIntegerError> {
        match Self::of_code(u) {
            Some(v) => Ok(v),
            None => Err(EnumFromIntegerError { raw: u }),
        }
    }
}

/// Something a guild has been given that not every guild has.
#[derive(Debug, Clone, Copy, Eq, PartialEq, Hash, Structural)]
pub enum GuildFeature {
    AnimatedIcon,
    Banner,
    Commerce,
    Community,
    Discoverable,
    Featurable,
    InviteSplash,
    MemberVerificationGateEnabled,
    News,
    Partnered,
    PreviewEnabled,
    VanityUrl,
    Verified,
    VipRegions,
    WelcomeScreenEnabled,
}

impl ReadWireString for GuildFeature {
    open spec fn of_text(text: Seq<char>) -> Option<Self> {
        if text == "ANIMATED_ICON"@ {
            Some(GuildFeature::AnimatedIcon)
        } else if text == "BANNER"@ {
            Some(GuildFeature::Banner)
        } else if text == "COMMERCE"@ {
            Some(GuildFeature::Commerce)
        } else if text == "COMMUNITY"@ {
            Some(GuildFeature::Community)
        } else if text == "DISCOVERABLE"@ {
            Some(GuildFeature::Discoverable)
        } else if text == "FEATURABLE"@ {
            Some(GuildFeature::Featurable)
        } else if text == "INVITE_SPLASH"@ {
            Some(GuildFeature::InviteSplash)
        } else if text == "MEMBER_VERIFICATION_GATE_ENABLED"@ {
            Some(GuildFeature::MemberVerificationGateEnabled)
        } else if text == "NEWS"@ {
            Some(GuildFeature::News)
        } else if text == "PARTNERED"@ {
            Some(GuildFeature::Partnered)
        } else if text == "PREVIEW_ENABLED"@ {
            Some(GuildFeature::PreviewEnabled)
        } else if text == "VANITY_URL"@ {
            Some(GuildFeature::VanityUrl)
        } else if text == "VERIFIED"@ {
            Some(GuildFeature::Verified)
        } else if text == "VIP_REGIONS"@ {
            Some(GuildFeature::VipRegions)
        } else if text == "WELCOME_SCREEN_ENABLED"@ {
            Some(GuildFeature::WelcomeScreenEnabled)
        } else {
            None
        }
    }

    fn read_wire(text: &str) -> (r: Option<Self>) {
        if str_eq(text, "ANIMATED_ICON") {
            Some(GuildFeature::AnimatedIcon)
        } else if str_eq(text, "BANNER") {
            Some(GuildFeature::Banner)
        } else if str_eq(text, "COMMERCE") {
            Some(GuildFeature::Commerce)
        } else if str_eq(text, "COMMUNITY") {
            Some(GuildFeature::Community)
        } else if str_eq(text, "DISCOVERABLE") {
            Some(GuildFeature::Discoverable)
        } else if str_eq(text, "FEATURABLE") {
            Some(GuildFeature::Featurable)
        } else if str_eq(text, "INVITE_SPLASH") {
            Some(GuildFeature::InviteSplash)
        } else if str_eq(text, "MEMBER_VERIFICATION_GATE_ENABLED") {
            Some(GuildFeature::MemberVerificationGateEnabled)
        } else if str_eq(text, "NEWS") {
            Some(GuildFeature::News)
        } else if str_eq(text, "PARTNERED") {
            Some(GuildFeature::Partnered)
        } else if str_eq(text, "PREVIEW_ENABLED") {
            Some(GuildFeature::PreviewEnabled)
        } else if str_eq(text, "VANITY_URL") {
            Some(GuildFeature::VanityUrl)
        } else if str_eq(text, "VERIFIED") {
            Some(GuildFeature::Verified)
        } else if str_eq(text, "VIP_REGIONS") {
            Some(GuildFeature::VipRegions)
        } else if str_eq(text, "WELCOME_SCREEN_ENABLED") {
            Some(GuildFeature::WelcomeScreenEnabled)
        } else {
            None
        }
    }
}

impl WireString for GuildFeature {
    open spec fn text(self) -> Seq<char> {
        match self {
            GuildFeature::AnimatedIcon => "ANIMATED_ICON"@,
            GuildFeature::Banner => "BANNER"@,
            GuildFeature::Commerce => "COMMERCE"@,
            GuildFeature::Community => "COMMUNITY"@,
            GuildFeature::Discoverable => "DISCOVERABLE"@,
            GuildFeature::Featurable => "FEATURABLE"@,
            GuildFeature::InviteSplash => "INVITE_SPLASH"@,
            GuildFeature::MemberVerificationGateEnabled => "MEMBER_VERIFICATION_GATE_ENABLED"@,
            GuildFeature::News => "NEWS"@,
            GuildFeature::Partnered => "PARTNERED"@,
            GuildFeature::PreviewEnabled => "PREVIEW_ENABLED"@,
            GuildFeature::VanityUrl => "VANITY_URL"@,
            GuildFeature::Verified => "VERIFIED"@,
            GuildFeature::VipRegions => "VIP_REGIONS"@,
            GuildFeature::WelcomeScreenEnabled => "WELCOME_SCREEN_ENABLED"@,
        }
    }

    proof fn lemma_text_is_read_back(self) {
        reveal_strlit("ANIMATED_ICON");
        reveal_strlit("BANNER");
        reveal_strlit("COMMERCE");
        reveal_strlit("COMMUNITY");
        reveal_strlit("DISCOVERABLE");
        reveal_strlit("FEATURABLE");
        reveal_strlit("INVITE_SPLASH");
        reveal_strlit("MEMBER_VERIFICATION_GATE_ENABLED");
        reveal_strlit("NEWS");
        reveal_strlit("PARTNERED");
        reveal_strlit("PREVIEW_ENABLED");
        reveal_strlit("VANITY_URL");
        reveal_strlit("VERIFIED");
        reveal_strlit("VIP_REGIONS");
        reveal_strlit("WELCOME_SCREEN_ENABLED");
        assert("ANIMATED_ICON"@.len() == 13 && "ANIMATED_ICON"@[0] == 'A');
        assert("BANNER"@.len() == 6 && "BANNER"@[0] == 'B');
        assert("COMMERCE"@.len() == 8 && "COMMERCE"@[0] == 'C');
        assert("COMMUNITY"@.len() == 9 && "COMMUNITY"@[0] == 'C');
        assert("DISCOVERABLE"@.len() == 12 && "DISCOVERABLE"@[0] == 'D');
        assert("FEATURABLE"@.len() == 10 && "FEATURABLE"@[0] == 'F');
        assert("INVITE_SPLASH"@.len() == 13 && "INVITE_SPLASH"@[0] == 'I');
        assert("MEMBER_VERIFICATION_GATE_ENABLED"@.len() == 32 && "MEMBER_VERIFICATION_GATE_ENABLED"@[0] == 'M');
        assert("NEWS"@.len() == 4 && "NEWS"@[0] == 'N');
        assert("PARTNERED"@.len() == 9 && "PARTNERED"@[0] == 'P');
        assert("PREVIEW_ENABLED"@.len() == 15 && "PREVIEW_ENABLED"@[0] == 'P');
        assert("VANITY_URL"@.len() == 10 && "VANITY_URL"@[0] == 'V');
        assert("VERIFIED"@.len() == 8 && "VERIFIED"@[0] == 'V');
        assert("VIP_REGIONS"@.len() == 11 && "VIP_REGIONS"@[0] == 'V');
        assert("WELCOME_SCREEN_ENABLED"@.len() == 22 && "WELCOME_SCREEN_ENABLED"@[0] == 'W');
    }

    proof fn lemma_of_text_is_exact(text: Seq<char>) {
    }

    fn as_wire(&self) -> (r: &str) {
        match self {
            GuildFeature::AnimatedIcon => "ANIMATED_ICON",
            GuildFeature::Banner => "BANNER",
            GuildFeature::Commerce => "COMMERCE",
            GuildFeature::Community => "COMMUNITY",
            GuildFeature::Discoverable => "DISCOVERABLE",
            GuildFeature::Featurable => "FEATURABLE",
            GuildFeature::InviteSplash => "INVITE_SPLASH",
            GuildFeature::MemberVerificationGateEnabled => "MEMBER_VERIFICATION_GATE_ENABLED",
            GuildFeature::News => "NEWS",
            GuildFeature::Partnered => "PARTNERED",
            GuildFeature::PreviewEnabled => "PREVIEW_ENABLED",
            GuildFeature::VanityUrl => "VANITY_URL",
            GuildFeature::Verified => "VERIFIED",
            GuildFeature::VipRegions => "VIP_REGIONS",
            GuildFeature::WelcomeScreenEnabled => "WELCOME_SCREEN_ENABLED",
        }
    }
}

impl GuildFeature {
    /// The string that the value travels as.
    pub fn as_ref(&self) -> (r: &str)
        ensures
            r@ == self.text(),
    {
        self.as_wire()
    }

    /// As it is shown: the string that the value travels as.
    pub fn to_string(&self) -> (r: String)
        ensures
            r@ == self.text(),
    {
        self.as_wire().to_owned()
    }

    /// The value that `txt` names, or `txt` back where it names none.
    pub fn parse(txt: &str) -> (r: Result<Self, ParseEnumError>)
        ensures
            match r {
                Ok(v) => Self::of_text(txt@) == Some(v),
                Err(e) => Self::of_text(txt@) is None && e.raw@ == txt@,
            },
    {
        match Self::read_wire(txt) {
            Some(v) => Ok(v),
            None => Err(ParseEnumError::new(txt.to_owned())),
        }
    }
}

impl FromStr for GuildFeature {
    type Err = ParseEnumError;

    fn from_str(txt: &str) -> (r: Result<Self, ParseEnumError>)
        ensures
            match r {
                Ok(v) => Self::of_text(txt@) == Some(v),
                Err(e) => Self::of_text(txt@) is None && e.raw@ == txt@,
            },
    {
        Self::parse(txt)
    }
}

/// Whether a guild asks its moderators for a second factor.
#[derive(Debug, Clone, Copy, Eq, PartialEq, Hash, Structural)]
pub enum MfaLevel {
    Nil,
    Elevated,
}

impl WireInteger for MfaLevel {
    open spec fn valid(self) -> bool {
        true
    }

    open spec fn code(self) -> u64 {
        match self {
            MfaLevel::Nil => 0,
            MfaLevel::Elevated => 1,
        }
    }

    open spec fn of_code(raw: u64) -> Option<Self> {
        if raw == 0 {
            Some(MfaLevel::Nil)
        } else if raw == 1 {
            Some(MfaLevel::Elevated)
        } else {
            None
        }
    }

    proof fn lemma_code_is_read_back(self) {
    }

    proof fn lemma_of_code_is_exact(raw: u64) {
    }

    fn to_wire(self) -> (raw: u64) {
        match self {
            MfaLevel::Nil => 0,
            MfaLevel::Elevated => 1,
        }
    }

    fn from_wire(raw: u64) -> (r: Option<Self>) {
        match raw {
            0 => Some(MfaLevel::Nil),
            1 => Some(MfaLevel::Elevated),
            _ => None,
        }
    }
}

impl From<MfaLevel> for u64 {
    fn from(u: MfaLevel) -> (r: u64) {
        u.to_wire()
    }
}

impl vstd::std_specs::convert::FromSpecImpl<MfaLevel> for u64 {
    open spec fn obeys_from_spec() -> bool {
        true
    }

    open spec fn from_spec(u: MfaLevel) -> u64 {
        u.code()
    }
}

impl TryFrom<u64> for MfaLevel {
    type Error = EnumFromIntegerError;

    fn try_from(u: u64) -> (r: Result<Self, EnumFromIntegerError>) {
        match Self::from_wire(u) {
            Some(v) => Ok(v),
            None => Err(EnumFromIntegerError::new(u)),
        }
    }
}

impl vstd::std_specs::convert::TryFromSpecImpl<u64> for MfaLevel {
    open spec fn obeys_try_from_spec() -> bool {
        true
    }

    open spec fn try_from_spec(u: u64) -> Result<Self, EnumFromIntegerError> {
        match Self::of_code(u) {
            Some(v) => Ok(v),
            None => Err(EnumFromIntegerError { raw: u }),
        }
    }
}

/// How high boosts have lifted a guild.
#[derive(Debug, Clone, Copy, Eq, PartialEq, Hash, Structural)]
pub enum PremiumTier {
    Nil,
    Tier1,
    Tier2,
    Tier3,
}

impl WireInteger for PremiumTier {
    open spec fn valid(self) -> bool {
        true
    }

    open spec fn code(self) -> u64 {
        match self {
            PremiumTier::Nil => 0,
            PremiumTier::Tier1 => 1,
            PremiumTier::Tier2 => 2,
            PremiumTier::Tier3 => 3,
        }
    }

    open spec fn of_code(raw: u64) -> Option<Self> {
        if raw == 0 {
            Some(PremiumTier::Nil)
        } else if raw == 1 {
            Some(PremiumTier::Tier1)
        } else if raw == 2 {
            Some(PremiumTier::Tier2)
        } else if raw == 3 {
            Some(PremiumTier::Tier3)
        } else {
            None
        }
    }

    proof fn lemma_code_is_read_back(self) {
    }

    proof fn lemma_of_code_is_exact(raw: u64) {
    }

    fn to_wire(self) -> (raw: u64) {
        match self {
            PremiumTier::Nil => 0,
            PremiumTier::Tier1 => 1,
            PremiumTier::Tier2 => 2,
            PremiumTier::Tier3 => 3,
        }
    }

    fn from_wire(raw: u64) -> (r: Option<Self>) {
        match raw {
            0 => Some(PremiumTier::Nil),
            1 => Some(PremiumTier::Tier1),
            2 => Some(PremiumTier::Tier2),
            3 => Some(PremiumTier::Tier3),
            _ => None,
        }
    }
}

impl From<PremiumTier> for u64 {
    fn from(u: PremiumTier) -> (r: u64) {
        u.to_wire()
    }
}

impl vstd::std_specs::convert::FromSpecImpl<PremiumTier> for u64 {
    open spec fn obeys_from_spec() -> bool {
        true
    }

    open spec fn from_spec(u: PremiumTier) -> u64 {
        u.code()
    }
}

impl TryFrom<u64> for PremiumTier {
    type Error = EnumFromIntegerError;

    fn try_from(u: u64) -> (r: Result<Self, EnumFromIntegerError>) {
        match Self::from_wire(u) {
            Some(v) => Ok(v),
            None => Err(EnumFromIntegerError::new(u)),
        }
    }
}

impl vstd::std_specs::convert::TryFromSpecImpl<u64> for PremiumTier {
    open spec fn obeys_try_from_spec() -> bool {
        true
    }

    open spec fn try_from_spec(u: u64) -> Result<Self, EnumFromIntegerError> {
        match Self::of_code(u) {
            Some(v) => Ok(v),
            None => Err(EnumFromIntegerError { raw: u }),
        }
    }
}

/// What a guild shows to those who have just joined.
#[derive(Debug, Clone)]
pub struct WelcomeScreen {
    pub description: Option<String>,
    pub welcome_channels: Vec<WelcomeScreenChannel>,
}

impl WelcomeScreen {
    pub fn description(&self) -> (r: Option<&str>)
        ensures
            same_text(r, self.description),
    {
        opt_str(&self.description)
    }

    pub fn welcome_channels(&self) -> (r: &[WelcomeScreenChannel])
        ensures
            r@ == self.welcome_channels@,
    {
        self.welcome_channels.as_slice()
    }
}

/// A channel that the welcome screen points to.
#[derive(Debug, Clone)]
pub struct WelcomeScreenChannel {
    pub channel_id: ChannelId,
    pub description: String,
    pub emoji_id: Option<EmojiId>,
    pub emoji_name: Option<String>,
}

impl WelcomeScreenChannel {
    pub fn channel_id(&self) -> (r: ChannelId)
        ensures
            r == self.channel_id,
    {
        self.channel_id
    }

    pub fn description(&self) -> (r: &str)
        ensures
            r@ == self.description@,
    {
        self.description.as_str()
    }

    pub fn emoji_id(&self) -> (r: Option<EmojiId>)
        ensures
            r == self.emoji_id,
    {
        self.emoji_id
    }

    pub fn emoji_name(&self) -> (r: Option<&str>)
        ensures
            same_text(r, self.emoji_name),
    {
        opt_str(&self.emoji_name)
    }
}

/// A guild, or what is known of one that cannot be reached.
#[derive(Debug, Clone)]
pub enum Guild {
    Available(AvailableGuild),
    Unavailable(UnavailableGuild),
}

impl Guild {
    /// The identifier of the guild.
    pub fn id(&self) -> (r: GuildId)
        ensures
            r == match *self {
                Guild::Available(a) => a.id,
                Guild::Unavailable(u) => u.id,
            },
    {
        match self {
            Self::Available(a) => a.id,
            Self::Unavailable(u) => u.id,
        }
    }

    /// Whether the guild cannot be reached now.
    pub fn unavailable(&self) -> (r: bool)
        ensures
            r == (self is Unavailable),
    {
        match self {
            Self::Unavailable(u) => u.unavailable(),
            Self::Available(a) => a.unavailable(),
        }
    }

    /// The guild, where it can be reached.
    pub fn into_available(self) -> (r: Option<AvailableGuild>)
        ensures
            r == match self {
                Guild::Available(a) => Some(a),
                _ => None,
            },
    {
        match self {
            Self::Available(a) => Some(a),
            _ => None,
        }
    }

    /// The guild, where it can be reached.
    pub fn as_available(&self) -> (r: Option<&AvailableGuild>)
        ensures
            match r {
                Some(a) => *self == Guild::Available(*a),
                None => !(self is Available),
            },
    {
        match self {
            Self::Available(a) => Some(a),
            _ => None,
        }
    }

    /// What is known of the guild, where it cannot be reached.
    pub fn into_unavailable(self) -> (r: Option<UnavailableGuild>)
        ensures
            r == match self {
                Guild::Unavailable(u) => Some(u),
                _ => None,
            },
    {
        match self {
            Self::Unavailable(u) => Some(u),
            _ => None,
        }
    }

    /// What is known of the guild, where it cannot be reached.
    pub fn as_unavailable(&self) -> (r: Option<&UnavailableGuild>)
        ensures
            match r {
                Some(u) => *self == Guild::Unavailable(*u),
                None => !(self is Unavailable),
            },
    {
        match self {
            Self::Unavailable(u) => Some(u),
            _ => None,
        }
    }
}

/// The notices that a guild keeps out of its system channel.
#[derive(Debug, Clone, Copy, PartialEq, Eq, Structural, PartialOrd, Ord, Hash)]
pub struct SystemChannelFlags {
    bits: u64,
}

impl SystemChannelFlags {
    pub const SUPRESS_JOIN_NOTIFICATIONS: u64 = 1 << 0;
    pub const SUPRESS_PREMIUM_SUBSCRIPTIONS: u64 = 1 << 1;
    pub const SUPRESS_GUILD_REMINDER_NOTIFICATIONS: u64 = 1 << 2;

    /// Every flag that has a name.
    pub const ALL: u64 = Self::SUPRESS_JOIN_NOTIFICATIONS
        | Self::SUPRESS_PREMIUM_SUBSCRIPTIONS
        | Self::SUPRESS_GUILD_REMINDER_NOTIFICATIONS;

    /// The set that holds the flags `bits`.
    pub closed spec fn of(bits: u64) -> Self {
        SystemChannelFlags { bits }
    }

    /// The flags that the set holds.
    pub closed spec fn flags(self) -> u64 {
        self.bits
    }

    /// A set is the flags it was made of, and nothing more.
    pub broadcast proof fn lemma_of_flags(bits: u64)
        ensures
            #[trigger] Self::of(bits).flags() == bits,
    {
    }

    /// A set is made of its flags alone.
    pub broadcast proof fn lemma_flags_of(self)
        ensures
            #[trigger] Self::of(self.flags()) == self,
    {
    }
}

impl Flags for SystemChannelFlags {
    open spec fn bits_of(self) -> u64 {
        self.flags()
    }

    open spec fn with_bits(bits: u64) -> Self {
        Self::of(bits)
    }

    open spec fn named() -> u64 {
        Self::ALL
    }

    proof fn lemma_with_bits(bits: u64) {
    }

    proof fn lemma_bits_are_all(self) {
    }

    fn named_bits() -> (r: u64) {
        Self::ALL
    }

    fn bits(&self) -> (r: u64) {
        self.bits
    }

    fn from_bits_truncate(bits: u64) -> (r: Self) {
        SystemChannelFlags { bits: bits & Self::ALL }
    }
}

impl core::ops::BitOr for SystemChannelFlags {
    type Output = SystemChannelFlags;

    fn bitor(self, other: SystemChannelFlags) -> (r: SystemChannelFlags) {
        SystemChannelFlags { bits: self.bits | other.bits }
    }
}

impl vstd::std_specs::ops::BitOrSpecImpl for SystemChannelFlags {
    open spec fn obeys_bitor_spec() -> bool {
        true
    }

    open spec fn bitor_req(self, other: SystemChannelFlags) -> bool {
        true
    }

    open spec fn bitor_spec(self, other: SystemChannelFlags) -> SystemChannelFlags {
        Self::of(self.flags() | other.flags())
    }
}

impl core::ops::BitAnd for SystemChannelFlags {
    type Output = SystemChannelFlags;

    fn bitand(self, other: SystemChannelFlags) -> (r: SystemChannelFlags) {
        SystemChannelFlags { bits: self.bits & other.bits }
    }
}

impl vstd::std_specs::ops::BitAndSpecImpl for SystemChannelFlags {
    open spec fn obeys_bitand_spec() -> bool {
        true
    }

    open spec fn bitand_req(self, other: SystemChannelFlags) -> bool {
        true
    }

    open spec fn bitand_spec(self, other: SystemChannelFlags) -> SystemChannelFlags {
        Self::of(self.flags() & other.flags())
    }
}

impl core::ops::BitXor for SystemChannelFlags {
    type Output = SystemChannelFlags;

    fn bitxor(self, other: SystemChannelFlags) -> (r: SystemChannelFlags) {
        SystemChannelFlags { bits: self.bits ^ other.bits }
    }
}

impl vstd::std_specs::ops::BitXorSpecImpl for SystemChannelFlags {
    open spec fn obeys_bitxor_spec() -> bool {
        true
    }

    open spec fn bitxor_req(self, other: SystemChannelFlags) -> bool {
        true
    }

    open spec fn bitxor_spec(self, other: SystemChannelFlags) -> SystemChannelFlags {
        Self::of(self.flags() ^ other.flags())
    }
}

impl core::ops::Not for SystemChannelFlags {
    type Output = SystemChannelFlags;

    fn not(self) -> (r: SystemChannelFlags) {
        SystemChannelFlags { bits: !self.bits & Self::ALL }
    }
}

impl vstd::std_specs::ops::NotSpecImpl for SystemChannelFlags {
    open spec fn obeys_not_spec() -> bool {
        true
    }

    open spec fn not_req(self) -> bool {
        true
    }

    open spec fn not_spec(self) -> SystemChannelFlags {
        Self::of(!self.flags() & Self::ALL)
    }
}

impl From<SystemChannelFlags> for u64 {
    fn from(f: SystemChannelFlags) -> (r: u64) {
        f.bits
    }
}

impl vstd::std_specs::convert::FromSpecImpl<SystemChannelFlags> for u64 {
    open spec fn obeys_from_spec() -> bool {
        true
    }

    open spec fn from_spec(f: SystemChannelFlags) -> u64 {
        f.flags()
    }
}

impl TryFrom<u64> for SystemChannelFlags {
    type Error = EnumFromIntegerError;

    fn try_from(u: u64) -> (r: Result<Self, EnumFromIntegerError>) {
        if u & !Self::ALL == 0 {
            Ok(SystemChannelFlags { bits: u })
        } else {
            Err(EnumFromIntegerError::new(u))
        }
    }
}

impl vstd::std_specs::convert::TryFromSpecImpl<u64> for SystemChannelFlags {
    open spec fn obeys_try_from_spec() -> bool {
        true
    }

    open spec fn try_from_spec(u: u64) -> Result<Self, EnumFromIntegerError> {
        match spec_from_bits::<Self>(u) {
            Some(f) => Ok(f),
            None => Err(EnumFromIntegerError { raw: u }),
        }
    }
}

impl WireInteger for SystemChannelFlags {
    open spec fn valid(self) -> bool {
        self.flags() & !Self::ALL == 0
    }

    open spec fn code(self) -> u64 {
        self.flags()
    }

    open spec fn of_code(raw: u64) -> Option<Self> {
        spec_from_bits::<Self>(raw)
    }

    proof fn lemma_code_is_read_back(self) {
    }

    proof fn lemma_of_code_is_exact(raw: u64) {
    }

    fn to_wire(self) -> (raw: u64) {
        self.bits
    }

    fn from_wire(raw: u64) -> (r: Option<Self>) {
        if raw & !Self::ALL == 0 {
            Some(SystemChannelFlags { bits: raw })
        } else {
            None
        }
    }
}

/// What is known of a guild that cannot be reached: that it is there.
#[derive(Debug, Clone)]
pub struct UnavailableGuild {
    pub id: GuildId,
}

impl UnavailableGuild {
    pub fn id(&self) -> (r: GuildId)
        ensures
            r == self.id,
    {
        self.id
    }

    pub fn unavailable(&self) -> (r: bool)
        ensures
            r == true,
    {
        true
    }
}

/// A guild.
#[derive(Debug, Clone)]
pub struct AvailableGuild {
    pub id: GuildId,
    pub name: String,
    pub icon: Option<String>,
    pub icon_hash: Option<String>,
    pub splash: Option<String>,
    pub discovery_splash: Option<String>,
    pub owner: Option<bool>,
    pub owner_id: UserId,
    pub permissions: Option<String>,
    pub region: String,
    pub afk_channel_id: Option<ChannelId>,
    pub afk_timeout: u64,
    pub widget_enabled: Option<bool>,
    pub widget_channel_id: Option<ChannelId>,
    pub verification_level: IntegerEnum<VerificationLevel>,
    pub default_message_notifications: IntegerEnum<DefaultMessageNotificationLevel>,
    pub explicit_content_filter: IntegerEnum<ExplicitContentFilterLevel>,
    pub roles: Vec<Role>,
    pub emojis: Vec<Emoji>,
    pub features: Vec<StringEnum<GuildFeature>>,
    pub mfa_level: IntegerEnum<MfaLevel>,
    pub application_id: Option<ApplicationId>,
    pub system_channel_id: Option<ChannelId>,
    pub system_channel_flags: IntegerEnum<SystemChannelFlags>,
    pub rules_channel_id: Option<ChannelId>,
    pub joined_at: Option<DateTime>,
    pub large: Option<bool>,
    pub member_count: Option<u64>,
    pub voice_states: Option<Vec<VoiceState>>,
    pub members: Option<Vec<GuildMember>>,
    pub channels: Option<Vec<Channel>>,
    pub threads: Option<Vec<Channel>>,
    pub max_presences: Option<u64>,
    pub max_members: Option<u64>,
    pub vanity_url_code: Option<String>,
    pub description: Option<String>,
    pub banner: Option<String>,
    pub premium_tier: IntegerEnum<PremiumTier>,
    pub premium_subscription_count: Option<u64>,
    pub preferred_locale: String,
    pub public_updates_channel_id: Option<ChannelId>,
    pub max_video_channel_users: Option<u64>,
    pub approximate_member_count: Option<u64>,
    pub welcome_screen: Option<WelcomeScreen>,
    pub nsfw: Option<bool>,
}

impl AvailableGuild {
    pub fn id(&self) -> (r: GuildId)
        ensures
            r == self.id,
    {
        self.id
    }

    pub fn unavailable(&self) -> (r: bool)
        ensures
            r == false,
    {
        false
    }

    pub fn name(&self) -> (r: &str)
        ensures
            r@ == self.name@,
    {
        self.name.as_str()
    }

    pub fn icon(&self) -> (r: Option<&str>)
        ensures
            same_text(r, self.icon),
    {
        opt_str(&self.icon)
    }

    pub fn icon_hash(&self) -> (r: Option<&str>)
        ensures
            same_text(r, self.icon_hash),
    {
        opt_str(&self.icon_hash)
    }

    pub fn splash(&self) -> (r: Option<&str>)
        ensures
            same_text(r, self.splash),
    {
        opt_str(&self.splash)
    }

    pub fn discovery_splash(&self) -> (r: Option<&str>)
        ensures
            same_text(r, self.discovery_splash),
    {
        opt_str(&self.discovery_splash)
    }

    pub fn owner(&self) -> (r: Option<bool>)
        ensures
            r == self.owner,
    {
        self.owner
    }

    pub fn owner_id(&self) -> (r: UserId)
        ensures
            r == self.owner_id,
    {
        self.owner_id
    }

    pub fn permissions(&self) -> (r: Option<&str>)
        ensures
            same_text(r, self.permissions),
    {
        opt_str(&self.permissions)
    }

    pub fn region(&self) -> (r: &str)
        ensures
            r@ == self.region@,
    {
        self.region.as_str()
    }

    pub fn afk_channel_id(&self) -> (r: Option<ChannelId>)
        ensures
            r == self.afk_channel_id,
    {
        self.afk_channel_id
    }

    pub fn afk_timeout(&self) -> (r: u64)
        ensures
            r == self.afk_timeout,
    {
        self.afk_timeout
    }

    pub fn widget_enabled(&self) -> (r: Option<bool>)
        ensures
            r == self.widget_enabled,
    {
        self.widget_enabled
    }

    pub fn widget_channel_id(&self) -> (r: Option<ChannelId>)
        ensures
            r == self.widget_channel_id,
    {
        self.widget_channel_id
    }

    pub fn try_verification_level(&self) -> (r: Result<VerificationLevel, EnumFromIntegerError>)
        ensures
            r == self.verification_level.spec_try_unwrap(),
    {
        self.verification_level.try_unwrap()
    }

    pub fn verification_level(&self) -> (r: VerificationLevel)
        requires
            self.verification_level.0 is Parsed,
        ensures
            self.verification_level.0 == Inner::<VerificationLevel, u64>::Parsed(r),
    {
        self.verification_level.unwrap()
    }

    pub fn try_default_message_notifications(&self) -> (r: Result<DefaultMessageNotificationLevel, EnumFromIntegerError>)
        ensures
            r == self.default_message_notifications.spec_try_unwrap(),
    {
        self.default_message_notifications.try_unwrap()
    }

    pub fn default_message_notifications(&self) -> (r: DefaultMessageNotificationLevel)
        requires
            self.default_message_notifications.0 is Parsed,
        ensures
            self.default_message_notifications.0 == Inner::<DefaultMessageNotificationLevel, u64>::Parsed(r),
    {
        self.default_message_notifications.unwrap()
    }

    pub fn try_explicit_content_filter(&self) -> (r: Result<ExplicitContentFilterLevel, EnumFromIntegerError>)
        ensures
            r == self.explicit_content_filter.spec_try_unwrap(),
    {
        self.explicit_content_filter.try_unwrap()
    }

    pub fn explicit_content_filter(&self) -> (r: ExplicitContentFilterLevel)
        requires
            self.explicit_content_filter.0 is Parsed,
        ensures
            self.explicit_content_filter.0 == Inner::<ExplicitContentFilterLevel, u64>::Parsed(r),
    {
        self.explicit_content_filter.unwrap()
    }

    pub fn roles(&self) -> (r: &[Role])
        ensures
            r@ == self.roles@,
    {
        self.roles.as_slice()
    }

    pub fn emojis(&self) -> (r: &[Emoji])
        ensures
            r@ == self.emojis@,
    {
        self.emojis.as_slice()
    }

    /// The features of the guild as they came, those without a name among
    /// them.
    pub fn try_features(&self) -> (r: &[StringEnum<GuildFeature>])
        ensures
            r@ == self.features@,
    {
        self.features.as_slice()
    }

    /// The features of the guild. Only for a guild whose features are all
    /// known to have a name.
    pub fn features(&self) -> (r: Vec<GuildFeature>)
        requires
            forall|i: int| 0 <= i < self.features@.len() ==> (#[trigger] self.features@[i]).0 is Parsed,
        ensures
            r@.len() == self.features@.len(),
            forall|i: int|
                0 <= i < r@.len() ==> self.features@[i].0 == Inner::<GuildFeature, String>::Parsed(
                    #[trigger] r@[i],
                ),
    {
        let mut out: Vec<GuildFeature> = Vec::new();
        let n = self.features.len();
        let mut i: usize = 0;
        while i < n
            invariant
                i <= n,
                n == self.features@.len(),
                out@.len() == i,
                forall|j: int|
                    0 <= j < self.features@.len() ==> (#[trigger] self.features@[j]).0 is Parsed,
                forall|j: int|
                    0 <= j < i ==> self.features@[j].0 == Inner::<GuildFeature, String>::Parsed(
                        #[trigger] out@[j],
                    ),
            decreases n - i,
        {
            out.push(self.features[i].unwrap());
            i += 1;
        }
        out
    }

    pub fn try_mfa_level(&self) -> (r: Result<MfaLevel, EnumFromIntegerError>)
        ensures
            r == self.mfa_level.spec_try_unwrap(),
    {
        self.mfa_level.try_unwrap()
    }

    pub fn mfa_level(&self) -> (r: MfaLevel)
        requires
            self.mfa_level.0 is Parsed,
        ensures
            self.mfa_level.0 == Inner::<MfaLevel, u64>::Parsed(r),
    {
        self.mfa_level.unwrap()
    }

    pub fn application_id(&self) -> (r: Option<ApplicationId>)
        ensures
            r == self.application_id,
    {
        self.application_id
    }

    pub fn system_channel_id(&self) -> (r: Option<ChannelId>)
        ensures
            r == self.system_channel_id,
    {
        self.system_channel_id
    }

    pub fn try_system_channel_flags(&self) -> (r: Result<SystemChannelFlags, EnumFromIntegerError>)
        ensures
            r == self.system_channel_flags.spec_try_unwrap(),
    {
        self.system_channel_flags.try_unwrap()
    }

    pub fn system_channel_flags(&self) -> (r: SystemChannelFlags)
        requires
            self.system_channel_flags.0 is Parsed,
        ensures
            self.system_channel_flags.0 == Inner::<SystemChannelFlags, u64>::Parsed(r),
    {
        self.system_channel_flags.unwrap()
    }

    pub fn rules_channel_id(&self) -> (r: Option<ChannelId>)
        ensures
            r == self.rules_channel_id,
    {
        self.rules_channel_id
    }

    pub fn joined_at(&self) -> (r: Option<DateTime>)
        ensures
            r == self.joined_at,
    {
        self.joined_at
    }

    pub fn large(&self) -> (r: Option<bool>)
        ensures
            r == self.large,
    {
        self.large
    }

    pub fn member_count(&self) -> (r: Option<u64>)
        ensures
            r == self.member_count,
    {
        self.member_count
    }

    pub fn voice_states(&self) -> (r: Option<&[VoiceState]>)
        ensures
            same_items(r, self.voice_states),
    {
        opt_slice(&self.voice_states)
    }

    pub fn members(&self) -> (r: Option<&[GuildMember]>)
        ensures
            same_items(r, self.members),
    {
        opt_slice(&self.members)
    }

    pub fn channels(&self) -> (r: Option<&[Channel]>)
        ensures
            same_items(r, self.channels),
    {
        opt_slice(&self.channels)
    }

    pub fn threads(&self) -> (r: Option<&[Channel]>)
        ensures
            same_items(r, self.threads),
    {
        opt_slice(&self.threads)
    }

    pub fn max_presences(&self) -> (r: Option<u64>)
        ensures
            r == self.max_presences,
    {
        self.max_presences
    }

    pub fn max_members(&self) -> (r: Option<u64>)
        ensures
            r == self.max_members,
    {
        self.max_members
    }

    pub fn vanity_url_code(&self) -> (r: Option<&str>)
        ensures
            same_text(r, self.vanity_url_code),
    {
        opt_str(&self.vanity_url_code)
    }

    pub fn description(&self) -> (r: Option<&str>)
        ensures
            same_text(r, self.description),
    {
        opt_str(&self.description)
    }

    pub fn banner(&self) -> (r: Option<&str>)
        ensures
            same_text(r, self.banner),
    {
        opt_str(&self.banner)
    }

    pub fn try_premium_tier(&self) -> (r: Result<PremiumTier, EnumFromIntegerError>)
        ensures
            r == self.premium_tier.spec_try_unwrap(),
    {
        self.premium_tier.try_unwrap()
    }

    pub fn premium_tier(&self) -> (r: PremiumTier)
        requires
            self.premium_tier.0 is Parsed,
        ensures
            self.premium_tier.0 == Inner::<PremiumTier, u64>::Parsed(r),
    {
        self.premium_tier.unwrap()
    }

    pub fn premium_subscription_count(&self) -> (r: Option<u64>)
        ensures
            r == self.premium_subscription_count,
    {
        self.premium_subscription_count
    }

    pub fn preferred_locale(&self) -> (r: &str)
        ensures
            r@ == self.preferred_locale@,
    {
        self.preferred_locale.as_str()
    }

    pub fn public_updates_channel_id(&self) -> (r: Option<ChannelId>)
        ensures
            r == self.public_updates_channel_id,
    {
        self.public_updates_channel_id
    }

    pub fn max_video_channel_users(&self) -> (r: Option<u64>)
        ensures
            r == self.max_video_channel_users,
    {
        self.max_video_channel_users
    }

    pub fn approximate_member_count(&self) -> (r: Option<u64>)
        ensures
            r == self.approximate_member_count,
    {
        self.approximate_member_count
    }

    pub fn welcome_screen(&self) -> (r: Option<&WelcomeScreen>)
        ensures
            same_value(r, self.welcome_screen),
    {
        opt_ref(&self.welcome_screen)
    }

    pub fn nsfw(&self) -> (r: Option<bool>)
        ensures
            r == self.nsfw,
    {
        self.nsfw
    }
}

/// A user as a member of a guild.
#[derive(Debug, Clone)]
pub struct GuildMember {
    pub user: Option<User>,
    pub nick: Option<String>,
    pub roles: Vec<RoleId>,
    pub joined_at: DateTime,
    pub premium_since: Option<DateTime>,
    pub deaf: bool,
    pub mute: bool,
    pub pending: Option<bool>,
    pub permissions: Option<String>,
}

} // verus!
