//! A relay between a chat platform's slash command and a remote query
//! service: the request that is sent, how the service's answer is judged,
//! and how a reply is rendered into a chat message with attachments.

pub mod client;
pub mod config;
pub mod handler;
pub mod json;
pub mod listing;
pub mod message;
pub mod render;
pub mod text;
pub mod types;
