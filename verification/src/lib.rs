//! Core logic of a chat bot that bridges a Discord guild and a Twitch
//! channel: credential lifecycle (token expiry bookkeeping, a key/value
//! token store, the one-shot interactive authorization flow) and the
//! auto-reconnecting realtime event-stream client.

pub mod api;
pub mod config;
pub mod eventsub;
pub mod json;
pub mod store;
pub mod strings;
pub mod time;
pub mod tokens;
pub mod twitch;
pub mod utils;
