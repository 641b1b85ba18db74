//! Stickers.

use vstd::prelude::*;
use crate::models::user::User;
use crate::snowflake::Snowflake;

verus! {

/// A sticker.
#[derive(Debug)]
pub struct Sticker {
    /// The sticker's snowflake ID.
    pub id: Snowflake,
    /// The name of the sticker.
    pub name: String,
    /// Description of the sticker.
    pub description: Option<String>,
    /// Autocomplete/suggestion tags for the sticker (max 200 characters).
    pub tags: String,
    /// Sticker type: 1 = STANDARD (Discord-owned), 2 = GUILD (uploaded).
    pub kind: u8,
    /// Format type: 1 = PNG, 2 = APNG, 3 = LOTTIE, 4 = GIF.
    pub format_type: u8,
    /// Whether the sticker is available for use.
    pub available: Option<bool>,
    /// The guild that owns this sticker.  `None` for standard stickers.
    pub guild_id: Option<Snowflake>,
    /// The user who uploaded the sticker, if included.
    pub user: Option<User>,
    /// The sticker's sort order within its pack.
    pub sort_value: Option<u32>,
}

impl Clone for Sticker {
    fn clone(&self) -> (r: Self)
        ensures
            r == *self,
    {
        Sticker {
            id: self.id,
            name: self.name.clone(),
            description: self.description.clone(),
            tags: self.tags.clone(),
            kind: self.kind,
            format_type: self.format_type,
            available: self.available,
            guild_id: self.guild_id,
            user: self.user.clone(),
            sort_value: self.sort_value,
        }
    }
}

} // verus!
