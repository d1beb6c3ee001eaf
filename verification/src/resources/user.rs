//! Users.

use vstd::prelude::*;

use crate::borrow::{opt_str, same_text};
use crate::entity;
use crate::enums::{EnumFromIntegerError, IntegerEnum, WireInteger};
use crate::flags::{spec_from_bits, Flags};
use crate::resources::application::ApplicationId;
use crate::snowflake::Id;

verus! {

/// The kind of thing that a bot's identifier names. No value of it is ever
/// made.
#[derive(Debug, Clone, Copy, PartialEq, Eq, PartialOrd, Ord, Hash)]
pub struct Bot {
    _p: (),
}

/// The identifier of a bot. A bot is a user, and its identifier is that user's.
pub type BotId = Id<Bot>;

impl From<BotId> for UserId {
    fn from(bid: BotId) -> (r: UserId) {
        let id: u64 = bid.into();
        id.into()
    }
}

impl vstd::std_specs::convert::FromSpecImpl<BotId> for UserId {
    open spec fn obeys_from_spec() -> bool {
        true
    }

    open spec fn from_spec(bid: BotId) -> UserId {
        Id::of(bid.value())
    }
}

impl From<UserId> for BotId {
    fn from(uid: UserId) -> (r: BotId) {
        let id: u64 = uid.into();
        id.into()
    }
}

impl vstd::std_specs::convert::FromSpecImpl<UserId> for BotId {
    open spec fn obeys_from_spec() -> bool {
        true
    }

    open spec fn from_spec(uid: UserId) -> BotId {
        Id::of(uid.value())
    }
}

/// The identifier of a user.
pub type UserId = Id<entity::User>;

impl From<UserId> for ApplicationId {
    fn from(uid: UserId) -> (r: ApplicationId) {
        let id: u64 = uid.into();
        id.into()
    }
}

impl vstd::std_specs::convert::FromSpecImpl<UserId> for ApplicationId {
    open spec fn obeys_from_spec() -> bool {
        true
    }

    open spec fn from_spec(uid: UserId) -> ApplicationId {
        Id::of(uid.value())
    }
}

/// The paid plan that a user is on.
#[derive(Debug, Clone, Copy, Eq, PartialEq, Hash, Structural)]
pub enum PremiumKind {
    Nil,
    NitroClassic,
    Nitro,
}

impl WireInteger for PremiumKind {
    open spec fn valid(self) -> bool {
        true
    }

    open spec fn code(self) -> u64 {
        match self {
            PremiumKind::Nil => 0,
            PremiumKind::NitroClassic => 1,
            PremiumKind::Nitro => 2,
        }
    }

    open spec fn of_code(raw: u64) -> Option<Self> {
        if raw == 0 {
            Some(PremiumKind::Nil)
        } else if raw == 1 {
            Some(PremiumKind::NitroClassic)
        } else if raw == 2 {
            Some(PremiumKind::Nitro)
        } else {
            None
        }
    }

    proof fn lemma_code_is_read_back(self) {
    }

    proof fn lemma_of_code_is_exact(raw: u64) {
    }

    fn to_wire(self) -> (raw: u64) {
        match self {
            PremiumKind::Nil => 0,
            PremiumKind::NitroClassic => 1,
            PremiumKind::Nitro => 2,
        }
    }

    fn from_wire(raw: u64) -> (r: Option<Self>) {
        match raw {
            0 => Some(PremiumKind::Nil),
            1 => Some(PremiumKind::NitroClassic),
            2 => Some(PremiumKind::Nitro),
            _ => None,
        }
    }
}

impl From<PremiumKind> for u64 {
    fn from(u: PremiumKind) -> (r: u64) {
        u.to_wire()
    }
}

impl vstd::std_specs::convert::FromSpecImpl<PremiumKind> for u64 {
    open spec fn obeys_from_spec() -> bool {
        true
    }

    open spec fn from_spec(u: PremiumKind) -> u64 {
        u.code()
    }
}

impl TryFrom<u64> for PremiumKind {
    type Error = EnumFromIntegerError;

    fn try_from(u: u64) -> (r: Result<Self, EnumFromIntegerError>) {
        match Self::from_wire(u) {
            Some(v) => Ok(v),
            None => Err(EnumFromIntegerError::new(u)),
        }
    }
}

impl vstd::std_specs::convert::TryFromSpecImpl<u64> for PremiumKind {
    open spec fn obeys_try_from_spec() -> bool {
        true
    }

    open spec fn try_from_spec(u: u64) -> Result<Self, EnumFromIntegerError> {
        match Self::of_code(u) {
            Some(v) => Ok(v),
            None => Err(EnumFromIntegerError { raw: u }),
        }
    }
}

/// A user of the platform, a person or a bot.
#[derive(Debug, Clone)]
pub struct User {
    pub id: UserId,
    pub username: String,
    pub discriminator: String,
    pub avatar: Option<String>,
    pub bot: Option<bool>,
    pub system: Option<bool>,
    pub mfa_enabled: Option<bool>,
    pub locale: Option<String>,
    pub verified: Option<bool>,
    pub email: Option<String>,
    pub flags: Option<IntegerEnum<UserFlags>>,
    pub premium_kind: Option<IntegerEnum<PremiumKind>>,
    pub public_flags: Option<IntegerEnum<UserFlags>>,
}

impl User {
    pub fn id(&self) -> (r: UserId)
        ensures
            r == self.id,
    {
        self.id
    }

    pub fn username(&self) -> (r: &str)
        ensures
            r@ == self.username@,
    {
        self.username.as_str()
    }

    pub fn discriminator(&self) -> (r: &str)
        ensures
            r@ == self.discriminator@,
    {
        self.discriminator.as_str()
    }

    pub fn avatar(&self) -> (r: Option<&str>)
        ensures
            same_text(r, self.avatar),
    {
        opt_str(&self.avatar)
    }

    pub fn bot(&self) -> (r: Option<bool>)
        ensures
            r == self.bot,
    {
        self.bot
    }

    pub fn system(&self) -> (r: Option<bool>)
        ensures
            r == self.system,
    {
        self.system
    }

    pub fn mfa_enabled(&self) -> (r: Option<bool>)
        ensures
            r == self.mfa_enabled,
    {
        self.mfa_enabled
    }

    pub fn locale(&self) -> (r: Option<&str>)
        ensures
            same_text(r, self.locale),
    {
        opt_str(&self.locale)
    }

    pub fn verified(&self) -> (r: Option<bool>)
        ensures
            r == self.verified,
    {
        self.verified
    }

    pub fn email(&self) -> (r: Option<&str>)
        ensures
            same_text(r, self.email),
    {
        opt_str(&self.email)
    }

    pub fn try_flags(&self) -> (r: Option<Result<UserFlags, EnumFromIntegerError>>)
        ensures
            r == match self.flags {
                Some(e) => Some(e.spec_try_unwrap()),
                None => None,
            },
    {
        match self.flags {
            Some(e) => Some(e.try_unwrap()),
            None => None,
        }
    }

    pub fn flags(&self) -> (r: Option<UserFlags>)
        requires
            self.flags matches Some(e) ==> e.0 is Parsed,
        ensures
            r == match self.flags {
                Some(e) => Some(e.0->Parsed_0),
                None => None,
            },
    {
        match self.flags {
            Some(e) => Some(e.unwrap()),
            None => None,
        }
    }

    pub fn try_premium_kind(&self) -> (r: Option<Result<PremiumKind, EnumFromIntegerError>>)
        ensures
            r == match self.premium_kind {
                Some(e) => Some(e.spec_try_unwrap()),
                None => None,
            },
    {
        match self.premium_kind {
            Some(e) => Some(e.try_unwrap()),
            None => None,
        }
    }

    pub fn premium_kind(&self) -> (r: Option<PremiumKind>)
        requires
            self.premium_kind matches Some(e) ==> e.0 is Parsed,
        ensures
            r == match self.premium_kind {
                Some(e) => Some(e.0->Parsed_0),
                None => None,
            },
    {
        match self.premium_kind {
            Some(e) => Some(e.unwrap()),
            None => None,
        }
    }

    pub fn try_public_flags(&self) -> (r: Option<Result<UserFlags, EnumFromIntegerError>>)
        ensures
            r == match self.public_flags {
                Some(e) => Some(e.spec_try_unwrap()),
                None => None,
            },
    {
        match self.public_flags {
            Some(e) => Some(e.try_unwrap()),
            None => None,
        }
    }

    pub fn public_flags(&self) -> (r: Option<UserFlags>)
        requires
            self.public_flags matches Some(e) ==> e.0 is Parsed,
        ensures
            r == match self.public_flags {
                Some(e) => Some(e.0->Parsed_0),
                None => None,
            },
    {
        match self.public_flags {
            Some(e) => Some(e.unwrap()),
            None => None,
        }
    }
}

/// The badges on a user's account.
#[derive(Debug, Clone, Copy, PartialEq, Eq, Structural, PartialOrd, Ord, Hash)]
pub struct UserFlags {
    bits: u64,
}

impl UserFlags {
    pub const NONE: u64 = 0;
    pub const DISCORD_EMPLOYEE: u64 = 1 << 0;
    pub const PARTNERED_SERVER_OWNER: u64 = 1 << 1;
    pub const HYPE_SQUAD_EVENTS: u64 = 1 << 2;
    pub const BUG_HUNTER_LEVEL_1: u64 = 1 << 3;
    pub const HOUSE_BRAVERY: u64 = 1 << 6;
    pub const HOUSE_BRILLIANCE: u64 = 1 << 7;
    pub const HOUSE_BALANCE: u64 = 1 << 8;
    pub const EARLY_SUPPORTER: u64 = 1 << 9;
    pub const TEAM_USER: u64 = 1 << 10;
    pub const BUG_HUNTER_LEVEL_2: u64 = 1 << 14;
    pub const VERIFIED_BOT: u64 = 1 << 16;
    pub const EARLY_VERIFIED_BOT_DEVELOPER: u64 = 1 << 17;

    /// Every flag that has a name.
    pub const ALL: u64 = Self::NONE
        | Self::DISCORD_EMPLOYEE
        | Self::PARTNERED_SERVER_OWNER
        | Self::HYPE_SQUAD_EVENTS
        | Self::BUG_HUNTER_LEVEL_1
        | Self::HOUSE_BRAVERY
        | Self::HOUSE_BRILLIANCE
        | Self::HOUSE_BALANCE
        | Self::EARLY_SUPPORTER
        | Self::TEAM_USER
        | Self::BUG_HUNTER_LEVEL_2
        | Self::VERIFIED_BOT
        | Self::EARLY_VERIFIED_BOT_DEVELOPER;

    /// The set that holds the flags `bits`.
    pub closed spec fn of(bits: u64) -> Self {
        UserFlags { bits }
    }

    /// The flags that the set holds.
    pub closed spec fn flags(self) -> u64 {
        self.bits
    }

    /// A set is the flags it was made of, and nothing more.
    pub broadcast proof fn lemma_of_flags(bits: u64)
        ensures
            #[trigger] Self::of(bits).flags() == bits,
    {
    }

    /// A set is made of its flags alone.
    pub broadcast proof fn lemma_flags_of(self)
        ensures
            #[trigger] Self::of(self.flags()) == self,
    {
    }
}

impl Flags for UserFlags {
    open spec fn bits_of(self) -> u64 {
        self.flags()
    }

    open spec fn with_bits(bits: u64) -> Self {
        Self::of(bits)
    }

    open spec fn named() -> u64 {
        Self::ALL
    }

    proof fn lemma_with_bits(bits: u64) {
    }

    proof fn lemma_bits_are_all(self) {
    }

    fn named_bits() -> (r: u64) {
        Self::ALL
    }

    fn bits(&self) -> (r: u64) {
        self.bits
    }

    fn from_bits_truncate(bits: u64) -> (r: Self) {
        UserFlags { bits: bits & Self::ALL }
    }
}

impl core::ops::BitOr for UserFlags {
    type Output = UserFlags;

    fn bitor(self, other: UserFlags) -> (r: UserFlags) {
        UserFlags { bits: self.bits | other.bits }
    }
}

impl vstd::std_specs::ops::BitOrSpecImpl for UserFlags {
    open spec fn obeys_bitor_spec() -> bool {
        true
    }

    open spec fn bitor_req(self, other: UserFlags) -> bool {
        true
    }

    open spec fn bitor_spec(self, other: UserFlags) -> UserFlags {
        Self::of(self.flags() | other.flags())
    }
}

impl core::ops::BitAnd for UserFlags {
    type Output = UserFlags;

    fn bitand(self, other: UserFlags) -> (r: UserFlags) {
        UserFlags { bits: self.bits & other.bits }
    }
}

impl vstd::std_specs::ops::BitAndSpecImpl for UserFlags {
    open spec fn obeys_bitand_spec() -> bool {
        true
    }

    open spec fn bitand_req(self, other: UserFlags) -> bool {
        true
    }

    open spec fn bitand_spec(self, other: UserFlags) -> UserFlags {
        Self::of(self.flags() & other.flags())
    }
}

impl core::ops::BitXor for UserFlags {
    type Output = UserFlags;

    fn bitxor(self, other: UserFlags) -> (r: UserFlags) {
        UserFlags { bits: self.bits ^ other.bits }
    }
}

impl vstd::std_specs::ops::BitXorSpecImpl for UserFlags {
    open spec fn obeys_bitxor_spec() -> bool {
        true
    }

    open spec fn bitxor_req(self, other: UserFlags) -> bool {
        true
    }

    open spec fn bitxor_spec(self, other: UserFlags) -> UserFlags {
        Self::of(self.flags() ^ other.flags())
    }
}

impl core::ops::Not for UserFlags {
    type Output = UserFlags;

    fn not(self) -> (r: UserFlags) {
        UserFlags { bits: !self.bits & Self::ALL }
    }
}

impl vstd::std_specs::ops::NotSpecImpl for UserFlags {
    open spec fn obeys_not_spec() -> bool {
        true
    }

    open spec fn not_req(self) -> bool {
        true
    }

    open spec fn not_spec(self) -> UserFlags {
        Self::of(!self.flags() & Self::ALL)
    }
}

impl From<UserFlags> for u64 {
    fn from(f: UserFlags) -> (r: u64) {
        f.bits
    }
}

impl vstd::std_specs::convert::FromSpecImpl<UserFlags> for u64 {
    open spec fn obeys_from_spec() -> bool {
        true
    }

    open spec fn from_spec(f: UserFlags) -> u64 {
        f.flags()
    }
}

impl TryFrom<u64> for UserFlags {
    type Error = EnumFromIntegerError;

    fn try_from(u: u64) -> (r: Result<Self, EnumFromIntegerError>) {
        if u & !Self::ALL == 0 {
            Ok(UserFlags { bits: u })
        } else {
            Err(EnumFromIntegerError::new(u))
        }
    }
}

impl vstd::std_specs::convert::TryFromSpecImpl<u64> for UserFlags {
    open spec fn obeys_try_from_spec() -> bool {
        true
    }

    open spec fn try_from_spec(u: u64) -> Result<Self, EnumFromIntegerError> {
        match spec_from_bits::<Self>(u) {
            Some(f) => Ok(f),
            None => Err(EnumFromIntegerError { raw: u }),
        }
    }
}

impl WireInteger for UserFlags {
    open spec fn valid(self) -> bool {
        self.flags() & !Self::ALL == 0
    }

    open spec fn code(self) -> u64 {
        self.flags()
    }

    open spec fn of_code(raw: u64) -> Option<Self> {
        spec_from_bits::<Self>(raw)
    }

    proof fn lemma_code_is_read_back(self) {
    }

    proof fn lemma_of_code_is_exact(raw: u64) {
    }

    fn to_wire(self) -> (raw: u64) {
        self.bits
    }

    fn from_wire(raw: u64) -> (r: Option<Self>) {
        if raw & !Self::ALL == 0 {
            Some(UserFlags { bits: raw })
        } else {
            None
        }
    }
}

} // verus!
