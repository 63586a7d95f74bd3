//! Version 1 of the invite and message payloads.
pub mod validation;
pub mod invite;
pub mod message;
pub mod protocol;

pub use protocol::V1;
