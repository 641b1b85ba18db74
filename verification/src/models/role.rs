//! Roles.

use vstd::prelude::*;
use crate::snowflake::Snowflake;

verus! {

/// A guild role.
#[derive(Debug)]
pub struct Role {
    /// The role's unique snowflake ID.
    pub id: Snowflake,
    /// The role's display name.
    pub name: String,
    /// The role's display colour as a packed RGB integer (`0xRRGGBB`).
    pub color: u32,
    /// Whether members with this role are shown separately in the member list.
    pub hoist: bool,
    /// The role's position in the hierarchy (higher = more powerful).
    pub position: i32,
    /// The permissions bit-string for this role.
    pub permissions: String,
    /// Whether this role is managed by an integration and cannot be manually assigned.
    pub managed: bool,
    /// Whether anyone can mention this role with `@role`.
    pub mentionable: bool,
}

impl Clone for Role {
    fn clone(&self) -> (r: Self)
        ensures
            r == *self,
    {
        Role {
            id: self.id,
            name: self.name.clone(),
            color: self.color,
            hoist: self.hoist,
            position: self.position,
            permissions: self.permissions.clone(),
            managed: self.managed,
            mentionable: self.mentionable,
        }
    }
}

} // verus!
