//! Links between a guild and outside services.

use vstd::prelude::*;

use crate::borrow::{opt_ref, opt_str, same_text, same_value};
use crate::entity;
use crate::enums::{EnumFromIntegerError, IntegerEnum, WireInteger};
use crate::permissions::RoleId;
use crate::snowflake::Id;
use crate::time::DateTime;
use crate::user::User;

verus! {

/// What happens to a member whose subscription runs out.
#[derive(Debug, Clone, Copy, Eq, PartialEq, Structural)]
pub enum IntegrationExpireBehavior {
    RemoveRole,
    Kick,
}

impl WireInteger for IntegrationExpireBehavior {
    open spec fn valid(self) -> bool {
        true
    }

    open spec fn code(self) -> u64 {
        match self {
            IntegrationExpireBehavior::RemoveRole => 0,
            IntegrationExpireBehavior::Kick => 1,
        }
    }

    open spec fn of_code(raw: u64) -> Option<Self> {
        if raw == 0 {
            Some(IntegrationExpireBehavior::RemoveRole)
        } else if raw == 1 {
            Some(IntegrationExpireBehavior::Kick)
        } else {
            None
        }
    }

    proof fn lemma_code_is_read_back(self) {
    }

    proof fn lemma_of_code_is_exact(raw: u64) {
    }

    fn to_wire(self) -> (raw: u64) {
        match self {
            IntegrationExpireBehavior::RemoveRole => 0,
            IntegrationExpireBehavior::Kick => 1,
        }
    }

    fn from_wire(raw: u64) -> (r: Option<Self>) {
        match raw {
            0 => Some(IntegrationExpireBehavior::RemoveRole),
            1 => Some(IntegrationExpireBehavior::Kick),
            _ => None,
        }
    }
}

impl From<IntegrationExpireBehavior> for u64 {
    fn from(u: IntegrationExpireBehavior) -> (r: u64) {
        u.to_wire()
    }
}

impl vstd::std_specs::convert::FromSpecImpl<IntegrationExpireBehavior> for u64 {
    open spec fn obeys_from_spec() -> bool {
        true
    }

    open spec fn from_spec(u: IntegrationExpireBehavior) -> u64 {
        u.code()
    }
}

impl TryFrom<u64> for IntegrationExpireBehavior {
    type Error = EnumFromIntegerError;

    fn try_from(u: u64) -> (r: Result<Self, EnumFromIntegerError>) {
        match Self::from_wire(u) {
            Some(v) => Ok(v),
            None => Err(EnumFromIntegerError::new(u)),
        }
    }
}

impl vstd::std_specs::convert::TryFromSpecImpl<u64> for IntegrationExpireBehavior {
    open spec fn obeys_try_from_spec() -> bool {
        true
    }

    open spec fn try_from_spec(u: u64) -> Result<Self, EnumFromIntegerError> {
        match Self::of_code(u) {
            Some(v) => Ok(v),
            None => Err(EnumFromIntegerError { raw: u }),
        }
    }
}

/// The identifier of an integration.
pub type IntegrationId = Id<entity::Integration>;

/// A link between a guild and an outside service.
#[derive(Debug, Clone)]
pub struct Integration {
    pub id: IntegrationId,
    pub name: String,
    pub kind: String,
    pub enabled: bool,
    pub syncing: Option<bool>,
    pub role_id: Option<RoleId>,
    pub enable_emoticons: Option<bool>,
    pub expire_behavior: Option<IntegerEnum<IntegrationExpireBehavior>>,
    pub expire_grace_period: Option<u64>,
    pub user: Option<User>,
    pub account: IntegrationAccount,
    pub synced_at: DateTime,
    pub subscriber_count: Option<u64>,
    pub revoked: Option<bool>,
    pub application: Option<IntegrationApplication>,
}

impl Integration {
    pub fn id(&self) -> (r: IntegrationId)
        ensures
            r == self.id,
    {
        self.id
    }

    pub fn name(&self) -> (r: &str)
        ensures
            r@ == self.name@,
    {
        self.name.as_str()
    }

    pub fn kind(&self) -> (r: &str)
        ensures
            r@ == self.kind@,
    {
        self.kind.as_str()
    }

    pub fn enabled(&self) -> (r: bool)
        ensures
            r == self.enabled,
    {
        self.enabled
    }

    pub fn syncing(&self) -> (r: Option<bool>)
        ensures
            r == self.syncing,
    {
        self.syncing
    }

    pub fn role_id(&self) -> (r: Option<RoleId>)
        ensures
            r == self.role_id,
    {
        self.role_id
    }

    pub fn enable_emoticons(&self) -> (r: Option<bool>)
        ensures
            r == self.enable_emoticons,
    {
        self.enable_emoticons
    }

    pub fn try_expire_behavior(&self) -> (r: Option<Result<IntegrationExpireBehavior, EnumFromIntegerError>>)
        ensures
            r == match self.expire_behavior {
                Some(e) => Some(e.spec_try_unwrap()),
                None => None,
            },
    {
        match self.expire_behavior {
            Some(e) => Some(e.try_unwrap()),
            None => None,
        }
    }

    pub fn expire_behavior(&self) -> (r: Option<IntegrationExpireBehavior>)
        requires
            self.expire_behavior matches Some(e) ==> e.0 is Parsed,
        ensures
            r == match self.expire_behavior {
                Some(e) => Some(e.0->Parsed_0),
                None => None,
            },
    {
        match self.expire_behavior {
            Some(e) => Some(e.unwrap()),
            None => None,
        }
    }

    pub fn expire_grace_period(&self) -> (r: Option<u64>)
        ensures
            r == self.expire_grace_period,
    {
        self.expire_grace_period
    }

    pub fn user(&self) -> (r: Option<&User>)
        ensures
            same_value(r, self.user),
    {
        opt_ref(&self.user)
    }

    pub fn account(&self) -> (r: &IntegrationAccount)
        ensures
            *r == self.account,
    {
        &self.account
    }

    pub fn synced_at(&self) -> (r: DateTime)
        ensures
            r == self.synced_at,
    {
        self.synced_at
    }

    pub fn subscriber_count(&self) -> (r: Option<u64>)
        ensures
            r == self.subscriber_count,
    {
        self.subscriber_count
    }

    pub fn revoked(&self) -> (r: Option<bool>)
        ensures
            r == self.revoked,
    {
        self.revoked
    }

    pub fn application(&self) -> (r: Option<&IntegrationApplication>)
        ensures
            same_value(r, self.application),
    {
        opt_ref(&self.application)
    }
}

/// The identifier of an account on an outside service.
pub type IntegrationAccountId = Id<entity::IntegrationAccount>;

/// The account on the outside service that an integration is for.
#[derive(Debug, Clone)]
pub struct IntegrationAccount {
    pub id: IntegrationAccountId,
    pub name: String,
}

impl IntegrationAccount {
    pub fn id(&self) -> (r: IntegrationAccountId)
        ensures
            r == self.id,
    {
        self.id
    }

    pub fn name(&self) -> (r: &str)
        ensures
            r@ == self.name@,
    {
        self.name.as_str()
    }
}

/// The identifier of the application behind an integration.
pub type IntegrationApplicationId = Id<entity::IntegrationApplication>;

/// The application behind an integration.
#[derive(Debug, Clone)]
pub struct IntegrationApplication {
    pub id: IntegrationApplicationId,
    pub name: String,
    pub icon: Option<String>,
    pub description: String,
    pub summary: String,
    pub bot: Option<User>,
}

impl IntegrationApplication {
    pub fn id(&self) -> (r: IntegrationApplicationId)
        ensures
            r == self.id,
    {
        self.id
    }

    pub fn name(&self) -> (r: &str)
        ensures
            r@ == self.name@,
    {
        self.name.as_str()
    }

    pub fn icon(&self) -> (r: Option<&str>)
        ensures
            same_text(r, self.icon),
    {
        opt_str(&self.icon)
    }

    pub fn description(&self) -> (r: &str)
        ensures
            r@ == self.description@,
    {
        self.description.as_str()
    }

    pub fn summary(&self) -> (r: &str)
        ensures
            r@ == self.summary@,
    {
        self.summary.as_str()
    }

    pub fn bot(&self) -> (r: Option<&User>)
        ensures
            same_value(r, self.bot),
    {
        opt_ref(&self.bot)
    }
}

} // verus!
