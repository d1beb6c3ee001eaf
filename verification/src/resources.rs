//! The resources of the platform, with every enumeration held in a wrapper
//! that keeps what it has no name for.

pub mod application;
pub mod channel;
pub mod guild;
pub mod user;
pub mod voice;
pub mod webhook;

pub use crate::audit_log;
pub use crate::emoji;
