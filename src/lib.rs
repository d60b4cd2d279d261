//! Session-authenticated account and item management: credential hashing,
//! signed session tokens, the session cookie, identity resolution and an
//! owner-scoped item store.

pub mod models;
pub mod password;
pub mod token;
pub mod db;
pub mod cookie;
pub mod auth;
pub mod identity;
pub mod items;
