//! Client core for a document provider that may defer delivery: an OAuth
//! credential cache, the bounded polling protocol that resolves a deferred
//! document, and the plain-value configuration and wire types around them.

pub mod auth;
mod clock;
pub mod config;
pub mod delivery;
pub mod errors;
pub mod kafka;
pub mod qrp;
pub mod retry;
pub mod storage;
pub mod text;
