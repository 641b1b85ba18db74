//! Helpers for Discord's text conventions: CDN URLs, mentions and
//! timestamps.

pub mod cdn;
pub mod mention;
pub mod timestamp;
