//! Core logic of the chat server: session cookies, message encryption at
//! rest, roles and permissions, channel access rules and key-bundle checks.
//! Everything here is plain computation; the socket and database plumbing
//! lives in the application crate.

pub mod cookie;
pub mod codec;
pub mod crypto_manager;
pub mod message_crypto;
pub mod text;
pub mod ids;
pub mod permissions;
pub mod session;
pub mod passwords;
pub mod user;
pub mod admin;
pub mod channel;
pub mod channels;
pub mod keys;
