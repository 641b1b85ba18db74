//! Discord data models and the builders for outgoing payloads.

pub mod allowed_mentions;
pub mod automod;
pub mod channel;
pub mod embed;
pub mod emoji;
pub mod entitlement;
pub mod guild;
pub mod interaction;
pub mod invite;
pub mod member;
pub mod message;
pub mod poll;
pub mod role;
pub mod scheduled_event;
pub mod stage;
pub mod sticker;
pub mod thread;
pub mod user;
pub mod voice;
pub mod webhook;
