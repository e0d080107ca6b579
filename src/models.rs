//! Data types of users and of the WebSocket protocol.

pub mod user;
pub mod websocket;
