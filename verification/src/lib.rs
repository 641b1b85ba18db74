//! A Discord bot library: data models, REST routing and rate limiting,
//! gateway and voice protocol state machines, and text helpers.

pub mod text;
pub mod bot;
pub mod cache;
pub mod error;
pub mod snowflake;
pub mod json;
pub mod gateway;
pub mod http;
pub mod models;
pub mod intents;
pub mod interactions;
pub mod permissions;
pub mod utils;
pub mod voice;
