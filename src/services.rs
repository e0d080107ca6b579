//! Services built on the directory.

pub mod signature;
pub mod user;
