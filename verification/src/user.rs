//! Users, with the plan they are on held in an enumeration that has a place for what it does not know.

use vstd::prelude::*;

use crate::borrow::{opt_str, same_text};
use crate::entity;
use crate::resources::user::Bot;
use crate::snowflake::Id;
use crate::wire::{DecodeError, Primitive};

verus! {

/// The identifier of a bot. A bot is a user, and its identifier is that user's.
pub type BotId = Id<Bot>;

/// The identifier of a user.
pub type UserId = Id<entity::User>;

/// The paid plan that a user is on.
#[derive(Debug, Clone, Copy, Eq, PartialEq, Hash, Structural)]
pub enum PremiumKind {
    Nil,
    NitroClassic,
    Nitro,
    Other(u64),
}

impl PremiumKind {
    /// The integer that each value travels as.
    pub open spec fn code(self) -> u64 {
        match self {
            PremiumKind::Nil => 0,
            PremiumKind::NitroClassic => 1,
            PremiumKind::Nitro => 2,
            PremiumKind::Other(other) => other,
        }
    }

    /// The value that travels as `raw`: the one named for it, or `Other`
    /// with the integer inside.
    pub open spec fn of_code(raw: u64) -> Self {
        if raw == 0 {
            PremiumKind::Nil
        } else if raw == 1 {
            PremiumKind::NitroClassic
        } else if raw == 2 {
            PremiumKind::Nitro
        } else {
            PremiumKind::Other(raw)
        }
    }

    /// Whether the value is one that was read or could have been: a
    /// named one, or `Other` with an integer that no name stands for.
    pub open spec fn canonical(self) -> bool {
        self matches PremiumKind::Other(other) ==> Self::of_code(other) is Other
    }

    /// Whatever integer comes in goes out again.
    pub proof fn lemma_round_trip(raw: u64)
        ensures
            Self::of_code(raw).code() == raw,
            Self::of_code(raw).canonical(),
    {
    }

    /// A value that is written and read again is the same value.
    pub proof fn lemma_read_back(self)
        requires
            self.canonical(),
        ensures
            Self::of_code(self.code()) == self,
    {
    }

    /// An integer that no name stands for is kept inside `Other`.
    pub proof fn lemma_unknown(raw: u64)
        requires
            raw != 0,
            raw != 1,
            raw != 2,
        ensures
            Self::of_code(raw) == PremiumKind::Other(raw),
    {
    }

    /// Reads a value from the wire, where it must stand as an integer that
    /// is not negative.
    pub fn deserialize(value: &Primitive) -> (r: Result<Self, DecodeError>)
        ensures
            r == match *value {
                Primitive::Unsigned(raw) => Ok::<Self, DecodeError>(Self::of_code(raw)),
                Primitive::Signed(raw) => if raw >= 0 {
                    Ok(Self::of_code(raw as u64))
                } else {
                    Err(DecodeError::InvalidFormat)
                },
                _ => Err(DecodeError::TypeMismatch),
            },
    {
        match value {
            Primitive::Unsigned(raw) => Ok(Self::from(*raw)),
            Primitive::Signed(raw) => if *raw >= 0 {
                Ok(Self::from(*raw as u64))
            } else {
                Err(DecodeError::InvalidFormat)
            },
            _ => Err(DecodeError::TypeMismatch),
        }
    }

    /// The wire form: an integer.
    pub fn serialize(&self) -> (r: Primitive)
        ensures
            r == Primitive::Unsigned(self.code()),
    {
        Primitive::Unsigned(u64::from(*self))
    }
}

impl From<PremiumKind> for u64 {
    fn from(u: PremiumKind) -> (r: u64) {
        match u {
            PremiumKind::Nil => 0,
            PremiumKind::NitroClassic => 1,
            PremiumKind::Nitro => 2,
            PremiumKind::Other(other) => other,
        }
    }
}

impl vstd::std_specs::convert::FromSpecImpl<PremiumKind> for u64 {
    open spec fn obeys_from_spec() -> bool {
        true
    }

    open spec fn from_spec(u: PremiumKind) -> u64 {
        u.code()
    }
}

impl From<u64> for PremiumKind {
    fn from(u: u64) -> (r: Self) {
        match u {
            0 => PremiumKind::Nil,
            1 => PremiumKind::NitroClassic,
            2 => PremiumKind::Nitro,
            other => PremiumKind::Other(other),
        }
    }
}

impl vstd::std_specs::convert::FromSpecImpl<u64> for PremiumKind {
    open spec fn obeys_from_spec() -> bool {
        true
    }

    open spec fn from_spec(u: u64) -> Self {
        Self::of_code(u)
    }
}

/// A user of the platform, a person or a bot.
#[derive(Debug, Clone)]
pub struct User {
    pub id: UserId,
    pub username: String,
    pub discriminator: String,
    pub avatar: Option<String>,
    pub bot: Option<bool>,
    pub system: Option<bool>,
    pub mfa_enabled: Option<bool>,
    pub locale: Option<String>,
    pub verified: Option<bool>,
    pub email: Option<String>,
    pub flags: Option<u64>,
    pub premium_kind: Option<PremiumKind>,
    pub public_flags: Option<u64>,
}

impl User {
    pub fn id(&self) -> (r: UserId)
        ensures
            r == self.id,
    {
        self.id
    }

    pub fn username(&self) -> (r: &str)
        ensures
            r@ == self.username@,
    {
        self.username.as_str()
    }

    pub fn discriminator(&self) -> (r: &str)
        ensures
            r@ == self.discriminator@,
    {
        self.discriminator.as_str()
    }

    pub fn avatar(&self) -> (r: Option<&str>)
        ensures
            same_text(r, self.avatar),
    {
        opt_str(&self.avatar)
    }

    pub fn bot(&self) -> (r: Option<bool>)
        ensures
            r == self.bot,
    {
        self.bot
    }

    pub fn system(&self) -> (r: Option<bool>)
        ensures
            r == self.system,
    {
        self.system
    }

    pub fn mfa_enabled(&self) -> (r: Option<bool>)
        ensures
            r == self.mfa_enabled,
    {
        self.mfa_enabled
    }

    pub fn locale(&self) -> (r: Option<&str>)
        ensures
            same_text(r, self.locale),
    {
        opt_str(&self.locale)
    }

    pub fn verified(&self) -> (r: Option<bool>)
        ensures
            r == self.verified,
    {
        self.verified
    }

    pub fn email(&self) -> (r: Option<&str>)
        ensures
            same_text(r, self.email),
    {
        opt_str(&self.email)
    }

    pub fn flags(&self) -> (r: Option<u64>)
        ensures
            r == self.flags,
    {
        self.flags
    }

    pub fn premium_kind(&self) -> (r: Option<PremiumKind>)
        ensures
            r == self.premium_kind,
    {
        self.premium_kind
    }

    pub fn public_flags(&self) -> (r: Option<u64>)
        ensures
            r == self.public_flags,
    {
        self.public_flags
    }
}

} // verus!
