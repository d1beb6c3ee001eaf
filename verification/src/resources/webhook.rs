//! Webhooks.

use vstd::prelude::*;

use crate::borrow::{opt_ref, opt_str, same_text, same_value};
use crate::entity;
use crate::enums::{EnumFromIntegerError, Inner, IntegerEnum, WireInteger};
use crate::resources::application::ApplicationId;
use crate::resources::channel::{Channel, ChannelId};
use crate::resources::guild::GuildId;
use crate::resources::user::User;
use crate::snowflake::Id;

verus! {

/// The identifier of a webhook.
pub type WebhookId = Id<entity::Webhook>;

/// The guild that a webhook carries messages over from.
#[derive(Debug, Clone)]
pub struct SourceGuild {
    pub id: GuildId,
    pub name: Option<String>,
    pub icon: Option<String>,
}

impl SourceGuild {
    pub fn id(&self) -> (r: GuildId)
        ensures
            r == self.id,
    {
        self.id
    }

    pub fn name(&self) -> (r: Option<&str>)
        ensures
            same_text(r, self.name),
    {
        opt_str(&self.name)
    }

    pub fn icon(&self) -> (r: Option<&str>)
        ensures
            same_text(r, self.icon),
    {
        opt_str(&self.icon)
    }
}

/// A way to put messages into a channel from outside.
#[derive(Debug, Clone)]
pub struct Webhook {
    pub id: WebhookId,
    pub kind: IntegerEnum<WebhookKind>,
    pub guild_id: Option<GuildId>,
    pub channel_id: Option<ChannelId>,
    pub user: Option<User>,
    pub name: Option<String>,
    pub avatar: Option<String>,
    pub token: Option<String>,
    pub application_id: Option<ApplicationId>,
    pub source_guild: Option<SourceGuild>,
    pub source_channel: Option<Channel>,
    pub url: Option<String>,
}

impl Webhook {
    pub fn id(&self) -> (r: WebhookId)
        ensures
            r == self.id,
    {
        self.id
    }

    pub fn try_kind(&self) -> (r: Result<WebhookKind, EnumFromIntegerError>)
        ensures
            r == self.kind.spec_try_unwrap(),
    {
        self.kind.try_unwrap()
    }

    pub fn kind(&self) -> (r: WebhookKind)
        requires
            self.kind.0 is Parsed,
        ensures
            self.kind.0 == Inner::<WebhookKind, u64>::Parsed(r),
    {
        self.kind.unwrap()
    }

    pub fn guild_id(&self) -> (r: Option<GuildId>)
        ensures
            r == self.guild_id,
    {
        self.guild_id
    }

    pub fn channel_id(&self) -> (r: Option<ChannelId>)
        ensures
            r == self.channel_id,
    {
        self.channel_id
    }

    pub fn user(&self) -> (r: Option<&User>)
        ensures
            same_value(r, self.user),
    {
        opt_ref(&self.user)
    }

    pub fn name(&self) -> (r: Option<&str>)
        ensures
            same_text(r, self.name),
    {
        opt_str(&self.name)
    }

    pub fn avatar(&self) -> (r: Option<&str>)
        ensures
            same_text(r, self.avatar),
    {
        opt_str(&self.avatar)
    }

    pub fn token(&self) -> (r: Option<&str>)
        ensures
            same_text(r, self.token),
    {
        opt_str(&self.token)
    }

    pub fn application_id(&self) -> (r: Option<ApplicationId>)
        ensures
            r == self.application_id,
    {
        self.application_id
    }

    pub fn source_guild(&self) -> (r: Option<&SourceGuild>)
        ensures
            same_value(r, self.source_guild),
    {
        opt_ref(&self.source_guild)
    }

    pub fn source_channel(&self) -> (r: Option<&Channel>)
        ensures
            same_value(r, self.source_channel),
    {
        opt_ref(&self.source_channel)
    }

    pub fn url(&self) -> (r: Option<&str>)
        ensures
            same_text(r, self.url),
    {
        opt_str(&self.url)
    }
}

/// What puts messages in through a webhook.
#[derive(Debug, Clone, Copy, PartialEq, Eq, Structural)]
pub enum WebhookKind {
    Incoming,
    ChannelFollower,
    Application,
}

impl WireInteger for WebhookKind {
    open spec fn valid(self) -> bool {
        true
    }

    open spec fn code(self) -> u64 {
        match self {
            WebhookKind::Incoming => 1,
            WebhookKind::ChannelFollower => 2,
            WebhookKind::Application => 3,
        }
    }

    open spec fn of_code(raw: u64) -> Option<Self> {
        if raw == 1 {
            Some(WebhookKind::Incoming)
        } else if raw == 2 {
            Some(WebhookKind::ChannelFollower)
        } else if raw == 3 {
            Some(WebhookKind::Application)
        } else {
            None
        }
    }

    proof fn lemma_code_is_read_back(self) {
    }

    proof fn lemma_of_code_is_exact(raw: u64) {
    }

    fn to_wire(self) -> (raw: u64) {
        match self {
            WebhookKind::Incoming => 1,
            WebhookKind::ChannelFollower => 2,
            WebhookKind::Application => 3,
        }
    }

    fn from_wire(raw: u64) -> (r: Option<Self>) {
        match raw {
            1 => Some(WebhookKind::Incoming),
            2 => Some(WebhookKind::ChannelFollower),
            3 => Some(WebhookKind::Application),
            _ => None,
        }
    }
}

impl From<WebhookKind> for u64 {
    fn from(u: WebhookKind) -> (r: u64) {
        u.to_wire()
    }
}

impl vstd::std_specs::convert::FromSpecImpl<WebhookKind> for u64 {
    open spec fn obeys_from_spec() -> bool {
        true
    }

    open spec fn from_spec(u: WebhookKind) -> u64 {
        u.code()
    }
}

impl TryFrom<u64> for WebhookKind {
    type Error = EnumFromIntegerError;

    fn try_from(u: u64) -> (r: Result<Self, EnumFromIntegerError>) {
        match Self::from_wire(u) {
            Some(v) => Ok(v),
            None => Err(EnumFromIntegerError::new(u)),
        }
    }
}

impl vstd::std_specs::convert::TryFromSpecImpl<u64> for WebhookKind {
    open spec fn obeys_try_from_spec() -> bool {
        true
    }

    open spec fn try_from_spec(u: u64) -> Result<Self, EnumFromIntegerError> {
        match Self::of_code(u) {
            Some(v) => Ok(v),
            None => Err(EnumFromIntegerError { raw: u }),
        }
    }
}

} // verus!
