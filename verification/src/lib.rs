//! Credential handling for a small desktop application: a keyring-backed
//! token store and an advisory JWT expiry check.

pub mod jwt;
pub mod store;
