//! Roles and what they permit.

use vstd::prelude::*;
use core::str::FromStr;

use crate::borrow::{opt_slice, same_items};
use crate::decimal::{decimal, parse_u64, spec_parse_u64, u64_to_string};
use crate::entity;
use crate::enums::{
    EnumFromIntegerError, Inner, ParseEnumError, ReadWireString, StringEnum, WireInteger,
};
use crate::flags::{spec_from_bits, Flags};
use crate::resources::guild::{GuildId, IntegrationId};
use crate::resources::user::BotId;
use crate::snowflake::Id;

verus! {

/// The identifier of a role.
pub type RoleId = Id<entity::Role>;

impl Id<entity::Role> {
    /// The role that every member of the guild `guild_id` has: its
    /// identifier is the guild's.
    pub fn everyone(guild_id: GuildId) -> (r: Self)
        ensures
            r == Self::of(guild_id.value()),
    {
        let id: u64 = guild_id.into();
        id.into()
    }
}

/// A role of a guild: a name, a colour and a set of permissions that members
/// are given together.
#[derive(Debug, Clone)]
pub struct Role {
    pub id: RoleId,
    pub name: String,
    pub color: u32,
    pub hoist: bool,
    pub position: u64,
    pub permissions: StringEnum<Permissions>,
    pub managed: bool,
    pub mentionable: bool,
    pub tags: Option<Vec<RoleTag>>,
}

impl Role {
    pub fn id(&self) -> (r: RoleId)
        ensures
            r == self.id,
    {
        self.id
    }

    pub fn name(&self) -> (r: &str)
        ensures
            r@ == self.name@,
    {
        self.name.as_str()
    }

    pub fn color(&self) -> (r: u32)
        ensures
            r == self.color,
    {
        self.color
    }

    pub fn hoist(&self) -> (r: bool)
        ensures
            r == self.hoist,
    {
        self.hoist
    }

    pub fn position(&self) -> (r: u64)
        ensures
            r == self.position,
    {
        self.position
    }

    pub fn try_permissions(&self) -> (r: Result<Permissions, ParseEnumError>)
        ensures
            r == self.permissions.spec_try_unwrap(),
    {
        self.permissions.try_unwrap()
    }

    pub fn permissions(&self) -> (r: Permissions)
        requires
            self.permissions.0 is Parsed,
        ensures
            self.permissions.0 == Inner::<Permissions, String>::Parsed(r),
    {
        self.permissions.unwrap()
    }

    pub fn managed(&self) -> (r: bool)
        ensures
            r == self.managed,
    {
        self.managed
    }

    pub fn mentionable(&self) -> (r: bool)
        ensures
            r == self.mentionable,
    {
        self.mentionable
    }

    pub fn tags(&self) -> (r: Option<&[RoleTag]>)
        ensures
            same_items(r, self.tags),
    {
        opt_slice(&self.tags)
    }
}

/// What sets a role apart: the bot or integration it belongs to, or that it is
/// the role of those who boost the guild.
#[derive(Debug, Clone)]
pub struct RoleTag {
    pub bot_id: Option<BotId>,
    pub integration_id: Option<IntegrationId>,
    pub premium_subscriber: bool,
}

impl RoleTag {
    pub fn bot_id(&self) -> (r: Option<BotId>)
        ensures
            r == self.bot_id,
    {
        self.bot_id
    }

    pub fn integration_id(&self) -> (r: Option<IntegrationId>)
        ensures
            r == self.integration_id,
    {
        self.integration_id
    }

    pub fn premium_subscriber(&self) -> (r: bool)
        ensures
            r == self.premium_subscriber,
    {
        self.premium_subscriber
    }

    /// A tag made of its parts. On the wire, `premium_subscriber` is true
    /// where the key of that name is there, whatever stands under it.
    pub fn new(
        bot_id: Option<BotId>,
        integration_id: Option<IntegrationId>,
        premium_subscriber: bool,
    ) -> (r: Self)
        ensures
            r == (RoleTag { bot_id, integration_id, premium_subscriber }),
    {
        RoleTag { bot_id, integration_id, premium_subscriber }
    }
}

/// What a member may do. The set travels as the base-ten text of its bits.
#[derive(Debug, Clone, Copy, PartialEq, Eq, Structural, PartialOrd, Ord, Hash)]
pub struct Permissions {
    bits: u64,
}

impl Permissions {
    pub const CREATE_INSTANT_INVITE: u64 = 1 << 0;
    pub const KICK_MEMBERS: u64 = 1 << 1;
    pub const BAN_MEMBERS: u64 = 1 << 2;
    pub const ADMINISTRATOR: u64 = 1 << 3;
    pub const MANAGE_CHANNELS: u64 = 1 << 4;
    pub const MANAGE_GUILD: u64 = 1 << 5;
    pub const ADD_REACTIONS: u64 = 1 << 6;
    pub const VIEW_AUDIT_LOG: u64 = 1 << 7;
    pub const PRIORITY_SPEAKER: u64 = 1 << 8;
    pub const STREAM: u64 = 1 << 9;
    pub const VIEW_CHANNEL: u64 = 1 << 10;
    pub const SEND_MESSAGES: u64 = 1 << 11;
    pub const SEND_TTS_MESSAGES: u64 = 1 << 12;
    pub const MANAGE_MESSAGES: u64 = 1 << 13;
    pub const EMBED_LINKS: u64 = 1 << 14;
    pub const ATTACH_FILES: u64 = 1 << 15;
    pub const READ_MESSAGE_HISTORY: u64 = 1 << 16;
    pub const MENTION_EVERYONE: u64 = 1 << 17;
    pub const USE_EXTERNAL_EMOJIS: u64 = 1 << 18;
    pub const VIEW_GUILD_INSIGHTS: u64 = 1 << 19;
    pub const CONNECT: u64 = 1 << 20;
    pub const SPEAK: u64 = 1 << 21;
    pub const MUTE_MEMBERS: u64 = 1 << 22;
    pub const DEAFEN_MEMBERS: u64 = 1 << 23;
    pub const MOVE_MEMBERS: u64 = 1 << 24;
    pub const USE_VAD: u64 = 1 << 25;
    pub const CHANGE_NICKNAME: u64 = 1 << 26;
    pub const MANAGE_NICKNAMES: u64 = 1 << 27;
    pub const MANAGE_ROLES: u64 = 1 << 28;
    pub const MANAGE_WEBHOOKS: u64 = 1 << 29;
    pub const MANAGE_EMOJIS: u64 = 1 << 30;
    pub const USE_SLASH_COMMANDS: u64 = 1 << 31;
    pub const REQUEST_TO_SPEAK: u64 = 1 << 32;
    pub const MANAGE_THREADS: u64 = 1 << 34;
    pub const USE_PUBLIC_THREADS: u64 = 1 << 35;
    pub const USE_PRIVATE_THREADS: u64 = 1 << 36;

    /// Every flag that has a name.
    pub const ALL: u64 = Self::CREATE_INSTANT_INVITE
        | Self::KICK_MEMBERS
        | Self::BAN_MEMBERS
        | Self::ADMINISTRATOR
        | Self::MANAGE_CHANNELS
        | Self::MANAGE_GUILD
        | Self::ADD_REACTIONS
        | Self::VIEW_AUDIT_LOG
        | Self::PRIORITY_SPEAKER
        | Self::STREAM
        | Self::VIEW_CHANNEL
        | Self::SEND_MESSAGES
        | Self::SEND_TTS_MESSAGES
        | Self::MANAGE_MESSAGES
        | Self::EMBED_LINKS
        | Self::ATTACH_FILES
        | Self::READ_MESSAGE_HISTORY
        | Self::MENTION_EVERYONE
        | Self::USE_EXTERNAL_EMOJIS
        | Self::VIEW_GUILD_INSIGHTS
        | Self::CONNECT
        | Self::SPEAK
        | Self::MUTE_MEMBERS
        | Self::DEAFEN_MEMBERS
        | Self::MOVE_MEMBERS
        | Self::USE_VAD
        | Self::CHANGE_NICKNAME
        | Self::MANAGE_NICKNAMES
        | Self::MANAGE_ROLES
        | Self::MANAGE_WEBHOOKS
        | Self::MANAGE_EMOJIS
        | Self::USE_SLASH_COMMANDS
        | Self::REQUEST_TO_SPEAK
        | Self::MANAGE_THREADS
        | Self::USE_PUBLIC_THREADS
        | Self::USE_PRIVATE_THREADS;

    /// The set that holds the flags `bits`.
    pub closed spec fn of(bits: u64) -> Self {
        Permissions { bits }
    }

    /// The flags that the set holds.
    pub closed spec fn flags(self) -> u64 {
        self.bits
    }

    /// A set is the flags it was made of, and nothing more.
    pub broadcast proof fn lemma_of_flags(bits: u64)
        ensures
            #[trigger] Self::of(bits).flags() == bits,
    {
    }

    /// A set is made of its flags alone.
    pub broadcast proof fn lemma_flags_of(self)
        ensures
            #[trigger] Self::of(self.flags()) == self,
    {
    }
}

impl Flags for Permissions {
    open spec fn bits_of(self) -> u64 {
        self.flags()
    }

    open spec fn with_bits(bits: u64) -> Self {
        Self::of(bits)
    }

    open spec fn named() -> u64 {
        Self::ALL
    }

    proof fn lemma_with_bits(bits: u64) {
    }

    proof fn lemma_bits_are_all(self) {
    }

    fn named_bits() -> (r: u64) {
        Self::ALL
    }

    fn bits(&self) -> (r: u64) {
        self.bits
    }

    fn from_bits_truncate(bits: u64) -> (r: Self) {
        Permissions { bits: bits & Self::ALL }
    }
}

impl core::ops::BitOr for Permissions {
    type Output = Permissions;

    fn bitor(self, other: Permissions) -> (r: Permissions) {
        Permissions { bits: self.bits | other.bits }
    }
}

impl vstd::std_specs::ops::BitOrSpecImpl for Permissions {
    open spec fn obeys_bitor_spec() -> bool {
        true
    }

    open spec fn bitor_req(self, other: Permissions) -> bool {
        true
    }

    open spec fn bitor_spec(self, other: Permissions) -> Permissions {
        Self::of(self.flags() | other.flags())
    }
}

impl core::ops::BitAnd for Permissions {
    type Output = Permissions;

    fn bitand(self, other: Permissions) -> (r: Permissions) {
        Permissions { bits: self.bits & other.bits }
    }
}

impl vstd::std_specs::ops::BitAndSpecImpl for Permissions {
    open spec fn obeys_bitand_spec() -> bool {
        true
    }

    open spec fn bitand_req(self, other: Permissions) -> bool {
        true
    }

    open spec fn bitand_spec(self, other: Permissions) -> Permissions {
        Self::of(self.flags() & other.flags())
    }
}

impl core::ops::BitXor for Permissions {
    type Output = Permissions;

    fn bitxor(self, other: Permissions) -> (r: Permissions) {
        Permissions { bits: self.bits ^ other.bits }
    }
}

impl vstd::std_specs::ops::BitXorSpecImpl for Permissions {
    open spec fn obeys_bitxor_spec() -> bool {
        true
    }

    open spec fn bitxor_req(self, other: Permissions) -> bool {
        true
    }

    open spec fn bitxor_spec(self, other: Permissions) -> Permissions {
        Self::of(self.flags() ^ other.flags())
    }
}

impl core::ops::Not for Permissions {
    type Output = Permissions;

    fn not(self) -> (r: Permissions) {
        Permissions { bits: !self.bits & Self::ALL }
    }
}

impl vstd::std_specs::ops::NotSpecImpl for Permissions {
    open spec fn obeys_not_spec() -> bool {
        true
    }

    open spec fn not_req(self) -> bool {
        true
    }

    open spec fn not_spec(self) -> Permissions {
        Self::of(!self.flags() & Self::ALL)
    }
}

impl From<Permissions> for u64 {
    fn from(f: Permissions) -> (r: u64) {
        f.bits
    }
}

impl vstd::std_specs::convert::FromSpecImpl<Permissions> for u64 {
    open spec fn obeys_from_spec() -> bool {
        true
    }

    open spec fn from_spec(f: Permissions) -> u64 {
        f.flags()
    }
}

impl TryFrom<u64> for Permissions {
    type Error = EnumFromIntegerError;

    fn try_from(u: u64) -> (r: Result<Self, EnumFromIntegerError>) {
        if u & !Self::ALL == 0 {
            Ok(Permissions { bits: u })
        } else {
            Err(EnumFromIntegerError::new(u))
        }
    }
}

impl vstd::std_specs::convert::TryFromSpecImpl<u64> for Permissions {
    open spec fn obeys_try_from_spec() -> bool {
        true
    }

    open spec fn try_from_spec(u: u64) -> Result<Self, EnumFromIntegerError> {
        match spec_from_bits::<Self>(u) {
            Some(f) => Ok(f),
            None => Err(EnumFromIntegerError { raw: u }),
        }
    }
}

impl WireInteger for Permissions {
    open spec fn valid(self) -> bool {
        self.flags() & !Self::ALL == 0
    }

    open spec fn code(self) -> u64 {
        self.flags()
    }

    open spec fn of_code(raw: u64) -> Option<Self> {
        spec_from_bits::<Self>(raw)
    }

    proof fn lemma_code_is_read_back(self) {
    }

    proof fn lemma_of_code_is_exact(raw: u64) {
    }

    fn to_wire(self) -> (raw: u64) {
        self.bits
    }

    fn from_wire(raw: u64) -> (r: Option<Self>) {
        if raw & !Self::ALL == 0 {
            Some(Permissions { bits: raw })
        } else {
            None
        }
    }
}

impl ReadWireString for Permissions {
    open spec fn of_text(text: Seq<char>) -> Option<Self> {
        match spec_parse_u64(text) {
            Some(bits) => spec_from_bits::<Self>(bits),
            None => None,
        }
    }

    fn read_wire(text: &str) -> (r: Option<Self>) {
        match parse_u64(text) {
            Some(bits) => Self::from_bits(bits),
            None => None,
        }
    }
}

impl Permissions {
    /// The set as it travels: its bits in base ten.
    pub fn to_string(&self) -> (r: String)
        ensures
            r@ == decimal(self.flags() as nat),
    {
        u64_to_string(self.bits)
    }

    /// Reads a set of permissions from the base-ten text of its bits, the
    /// form it travels in. Where the text is no number, or the number has
    /// a bit that no permission stands for, the text comes back.
    pub fn parse(txt: &str) -> (r: Result<Self, ParseEnumError>)
        ensures
            match r {
                Ok(v) => <Self as ReadWireString>::of_text(txt@) == Some(v),
                Err(e) => <Self as ReadWireString>::of_text(txt@) is None && e.raw@ == txt@,
            },
    {
        match Self::read_wire(txt) {
            Some(v) => Ok(v),
            None => Err(ParseEnumError::new(txt.to_owned())),
        }
    }
}

impl FromStr for Permissions {
    type Err = ParseEnumError;

    fn from_str(txt: &str) -> (r: Result<Self, ParseEnumError>)
        ensures
            match r {
                Ok(v) => <Self as ReadWireString>::of_text(txt@) == Some(v),
                Err(e) => <Self as ReadWireString>::of_text(txt@) is None && e.raw@ == txt@,
            },
    {
        Self::parse(txt)
    }
}

} // verus!
