//! Typed values of a chat platform's REST interface: snowflake identifiers,
//! enumerations and flag sets that survive values they do not know, and the
//! resources built from them.

pub mod application;
pub mod audit_log;
pub mod borrow;
pub mod channel;
pub mod decimal;
pub mod discord;
pub mod emoji;
pub mod entity;
pub mod enums;
pub mod flags;
pub mod game_sdk;
pub mod guild;
pub mod image;
pub mod permissions;
pub mod resources;
pub mod snowflake;
pub mod teams;
pub mod text;
pub mod time;
pub mod user;
pub mod visitor;
pub mod wire;

pub use self::discord::{requests, Config, Token};
