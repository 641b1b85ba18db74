//! Stage instances.

use vstd::prelude::*;
use crate::snowflake::Snowflake;

verus! {

/// A live stage instance.
#[derive(Debug, Clone)]
pub struct StageInstance {
    /// The stage instance's snowflake ID.
    pub id: Snowflake,
    /// The guild the Stage lives in.
    pub guild_id: Snowflake,
    /// The Stage channel this instance is associated with.
    pub channel_id: Snowflake,
    /// The topic of the Stage instance (1–120 characters).
    pub topic: String,
    /// Privacy level.  2 = GUILD_ONLY (the only non-deprecated value).
    pub privacy_level: u8,
    /// The ID of the scheduled event that created this Stage, if any.
    pub guild_scheduled_event_id: Option<Snowflake>,
}

} // verus!
