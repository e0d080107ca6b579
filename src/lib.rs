//! Core of a dashboard backend: an authenticated WebSocket session state
//! machine, the ed25519 challenge protocol it relies on, and an in-memory
//! key/user directory.

pub mod config;
pub mod crypto;
pub mod dev;
pub mod errors;
pub mod handlers;
pub mod models;
pub mod numbers;
pub mod services;
pub mod storage;
