//! Core of a chat bot: classifies inbound server events, extracts command
//! invocations from chat messages by a configured prefix, resolves them
//! against a fixed command vocabulary by prefix matching in declaration
//! order, and decides the reply each command produces.

pub mod commands;
pub mod config;
pub mod dispatch;
pub mod events;
pub mod extract;
pub mod pipeline;
pub mod resolve;

pub use commands::BotCommand;
