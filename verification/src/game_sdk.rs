//! What the game side of the platform shares with the rest.

use vstd::prelude::*;

use crate::entity;
use crate::snowflake::Id;

verus! {

/// The identifier of something an application sells.
pub type SkuId = Id<entity::Sku>;

} // verus!
