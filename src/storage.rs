//! Storage of users, credentials, login sessions and public keys.

pub mod memory;
