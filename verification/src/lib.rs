//! Protocol client core for the ICQ web messaging service: request building,
//! event decoding and the reconciliation of server state into local chats.

pub mod chat_info;
pub mod client;
pub mod escape;
pub mod events;
pub mod files;
pub mod json;
pub mod logging;
pub mod messages;
pub mod plugin;
pub mod poller;
pub mod protocol;
pub mod reconciler;
pub mod session;
pub mod system;
pub mod text;
