//! Users.

use vstd::prelude::*;
use crate::snowflake::Snowflake;

verus! {

/// A Discord user.
#[derive(Debug)]
pub struct User {
    /// The user's unique snowflake ID.
    pub id: Snowflake,
    /// The user's username (not unique across the platform).
    pub username: String,
    /// The user's four-digit tag. `"0"` for migrated accounts without a tag.
    pub discriminator: String,
    /// The user's display name, if one has been set.
    pub global_name: Option<String>,
    /// The user's avatar hash, or `None` if they have no custom avatar.
    pub avatar: Option<String>,
    /// Whether this user is a bot account.
    pub bot: bool,
    /// Whether this user is an official Discord system user.
    pub system: bool,
}

impl Clone for User {
    fn clone(&self) -> (r: Self)
        ensures
            r == *self,
    {
        User {
            id: self.id,
            username: self.username.clone(),
            discriminator: self.discriminator.clone(),
            global_name: self.global_name.clone(),
            avatar: self.avatar.clone(),
            bot: self.bot,
            system: self.system,
        }
    }
}

} // verus!
