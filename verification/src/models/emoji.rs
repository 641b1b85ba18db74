//! Emoji.

use vstd::prelude::*;
use crate::models::user::User;
use crate::snowflake::Snowflake;

verus! {

/// A custom or standard emoji.
#[derive(Debug)]
pub struct Emoji {
    /// The emoji's snowflake ID.  `None` for standard Unicode emoji.
    pub id: Option<Snowflake>,
    /// The emoji name, or the Unicode character for standard emoji.
    pub name: Option<String>,
    /// Role IDs that are allowed to use this emoji.
    pub roles: Vec<Snowflake>,
    /// The user who uploaded this emoji, if included.
    pub user: Option<User>,
    /// Whether this emoji must be wrapped in colons.
    pub require_colons: Option<bool>,
    /// Whether this emoji is managed by an integration.
    pub managed: Option<bool>,
    /// Whether this emoji is animated.
    pub animated: Option<bool>,
    /// Whether this emoji can be used (may be `false` if the guild lost boosts).
    pub available: Option<bool>,
}

impl Emoji {
    /// Whether emoji `a` holds the same data as emoji `b`: every field
    /// equal, the role IDs as a sequence.
    pub open spec fn same(a: Emoji, b: Emoji) -> bool {
        &&& a.id == b.id
        &&& a.name == b.name
        &&& a.roles@ == b.roles@
        &&& a.user == b.user
        &&& a.require_colons == b.require_colons
        &&& a.managed == b.managed
        &&& a.animated == b.animated
        &&& a.available == b.available
    }
}

impl Clone for Emoji {
    fn clone(&self) -> (r: Self)
        ensures
            Emoji::same(r, *self),
    {
        let roles = self.roles.clone();
        assert(roles@ =~= self.roles@);
        Emoji {
            id: self.id,
            name: self.name.clone(),
            roles,
            user: self.user.clone(),
            require_colons: self.require_colons,
            managed: self.managed,
            animated: self.animated,
            available: self.available,
        }
    }
}

} // verus!
