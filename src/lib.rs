//! A small service mesh: a gateway that rewrites and forwards requests, an
//! identity service that registers users and issues signed session tokens,
//! and resource services that accept a token only while it verifies and its
//! session record is live.

pub mod error;
pub mod gateway;
pub mod identity;
pub mod laws;
pub mod password;
pub mod resource;
pub mod session;
pub mod text;
pub mod token;
