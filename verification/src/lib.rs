//! The state machine of a chat-room panel: a roster of connected users and a
//! feed of messages, driven by frames of JSON text.

pub mod chat;
pub mod json;
pub mod protocol;
pub mod render;
pub mod roster;
pub mod text;
