//! The bot framework: dispatch decisions, the prefix command registry, and
//! the payloads a handler's context sends.

pub mod bot;
pub mod command;
pub mod context;
