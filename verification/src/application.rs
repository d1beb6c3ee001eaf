//! Applications, with their flags held as the integer they travel as.

pub mod commands;

use vstd::prelude::*;

use crate::borrow::{opt_ref, opt_slice, opt_str, same_items, same_text, same_value};
use crate::entity;
use crate::game_sdk::SkuId;
use crate::guild::GuildId;
use crate::snowflake::Id;
use crate::teams::Team;
use crate::user::User;

pub use self::commands::{
    ApplicationCommand, ApplicationCommandId, ApplicationCommandOption,
    ApplicationCommandOptionChoice, ApplicationCommandOptionKind, ChoiceValue,
    EditApplicationCommand, NewApplicationCommand,
};

verus! {

/// The identifier of an application.
pub type ApplicationId = Id<entity::Application>;

/// An application that has been registered with the platform.
#[derive(Debug, Clone)]
pub struct Application {
    pub id: ApplicationId,
    pub name: String,
    pub icon: Option<String>,
    pub description: String,
    pub rpc_origins: Option<Vec<String>>,
    pub bot_public: bool,
    pub bot_require_code_grant: bool,
    pub terms_of_service_url: Option<String>,
    pub privacy_policy_url: Option<String>,
    pub owner: User,
    pub summary: String,
    pub verify_key: String,
    pub team: Option<Team>,
    pub guild_id: Option<GuildId>,
    pub primary_sku_id: Option<SkuId>,
    pub slug: Option<String>,
    pub cover_image: Option<String>,
    pub flags: Option<u64>,
}

impl Application {
    pub fn id(&self) -> (r: ApplicationId)
        ensures
            r == self.id,
    {
        self.id
    }

    pub fn name(&self) -> (r: &str)
        ensures
            r@ == self.name@,
    {
        self.name.as_str()
    }

    pub fn icon(&self) -> (r: Option<&str>)
        ensures
            same_text(r, self.icon),
    {
        opt_str(&self.icon)
    }

    pub fn description(&self) -> (r: &str)
        ensures
            r@ == self.description@,
    {
        self.description.as_str()
    }

    pub fn rpc_origins(&self) -> (r: Option<&[String]>)
        ensures
            same_items(r, self.rpc_origins),
    {
        opt_slice(&self.rpc_origins)
    }

    pub fn bot_public(&self) -> (r: bool)
        ensures
            r == self.bot_public,
    {
        self.bot_public
    }

    pub fn bot_require_code_grant(&self) -> (r: bool)
        ensures
            r == self.bot_require_code_grant,
    {
        self.bot_require_code_grant
    }

    pub fn terms_of_service_url(&self) -> (r: Option<&str>)
        ensures
            same_text(r, self.terms_of_service_url),
    {
        opt_str(&self.terms_of_service_url)
    }

    pub fn privacy_policy_url(&self) -> (r: Option<&str>)
        ensures
            same_text(r, self.privacy_policy_url),
    {
        opt_str(&self.privacy_policy_url)
    }

    pub fn owner(&self) -> (r: &User)
        ensures
            *r == self.owner,
    {
        &self.owner
    }

    pub fn summary(&self) -> (r: &str)
        ensures
            r@ == self.summary@,
    {
        self.summary.as_str()
    }

    pub fn verify_key(&self) -> (r: &str)
        ensures
            r@ == self.verify_key@,
    {
        self.verify_key.as_str()
    }

    pub fn team(&self) -> (r: Option<&Team>)
        ensures
            same_value(r, self.team),
    {
        opt_ref(&self.team)
    }

    pub fn guild_id(&self) -> (r: Option<GuildId>)
        ensures
            r == self.guild_id,
    {
        self.guild_id
    }

    pub fn primary_sku_id(&self) -> (r: Option<SkuId>)
        ensures
            r == self.primary_sku_id,
    {
        self.primary_sku_id
    }

    pub fn slug(&self) -> (r: Option<&str>)
        ensures
            same_text(r, self.slug),
    {
        opt_str(&self.slug)
    }

    pub fn cover_image(&self) -> (r: Option<&str>)
        ensures
            same_text(r, self.cover_image),
    {
        opt_str(&self.cover_image)
    }

    pub fn flags(&self) -> (r: Option<u64>)
        ensures
            r == self.flags,
    {
        self.flags
    }
}

} // verus!
