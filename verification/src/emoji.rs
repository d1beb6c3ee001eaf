//! Emoji.

use vstd::prelude::*;

use crate::borrow::{opt_ref, opt_slice, opt_str, same_items, same_text, same_value};
use crate::entity;
use crate::permissions::RoleId;
use crate::snowflake::Id;
use crate::user::User;

verus! {

/// The identifier of a custom emoji.
pub type EmojiId = Id<entity::Emoji>;

/// An emoji: a custom one of a guild, or a standard one, which has a name and
/// no identifier.
#[derive(Debug, Clone)]
pub struct Emoji {
    pub id: Option<EmojiId>,
    pub name: Option<String>,
    pub roles: Option<Vec<RoleId>>,
    pub user: Option<User>,
    pub require_colons: Option<bool>,
    pub managed: Option<bool>,
    pub animated: Option<bool>,
    pub available: Option<bool>,
}

impl Emoji {
    pub fn id(&self) -> (r: Option<EmojiId>)
        ensures
            r == self.id,
    {
        self.id
    }

    pub fn name(&self) -> (r: Option<&str>)
        ensures
            same_text(r, self.name),
    {
        opt_str(&self.name)
    }

    pub fn roles(&self) -> (r: Option<&[RoleId]>)
        ensures
            same_items(r, self.roles),
    {
        opt_slice(&self.roles)
    }

    pub fn user(&self) -> (r: Option<&User>)
        ensures
            same_value(r, self.user),
    {
        opt_ref(&self.user)
    }

    pub fn require_colons(&self) -> (r: Option<bool>)
        ensures
            r == self.require_colons,
    {
        self.require_colons
    }

    pub fn managed(&self) -> (r: Option<bool>)
        ensures
            r == self.managed,
    {
        self.managed
    }

    pub fn animated(&self) -> (r: Option<bool>)
        ensures
            r == self.animated,
    {
        self.animated
    }

    pub fn available(&self) -> (r: Option<bool>)
        ensures
            r == self.available,
    {
        self.available
    }
}

} // verus!
