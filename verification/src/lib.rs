//! GhostLayer: end to end encryption for chat platforms that do not have it.
//!
//! The library builds and reads the versioned text frames that carry invite
//! keys and encrypted messages, derives the shared key of two identities,
//! encrypts and decrypts message text, and keeps the friend list that the
//! browser extension stores.
pub mod text;
pub mod encoding;
pub mod primitives;
pub mod protocol;
pub mod parser;
pub mod json;
pub mod types;
pub mod storage;
pub mod crypto;
pub mod identity;
pub mod friends;
pub mod clipboard;
pub mod icons;
