//! Connection and request handlers.

pub mod auth;
pub mod user;
pub mod websocket;
