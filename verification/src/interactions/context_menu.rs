//! Context-menu command definitions.
//!
//! Context-menu commands surface as "Apps" in the right-click menu on users
//! ([`UserCommand`]) or messages ([`MessageCommand`]).  They are registered
//! the same way as slash commands but with `type = 2` or `type = 3`.

use vstd::prelude::*;
use crate::models::interaction::ApplicationCommandType;
use crate::snowflake::Snowflake;

verus! {

/// A command in the context menu of a user.
#[derive(Debug, Clone)]
pub struct UserCommand {
    pub name: String,
    pub kind: ApplicationCommandType,
    pub default_member_permissions: Option<String>,
    pub id: Option<Snowflake>,
}

impl UserCommand {
    /// A user command shown as `name`.
    pub fn new(name: String) -> (r: Self)
        ensures
            r == (UserCommand { name, kind: ApplicationCommandType::User, default_member_permissions: None, id: None }),
    {
        UserCommand { name, kind: ApplicationCommandType::User, default_member_permissions: None, id: None }
    }

    /// Set the permissions a member needs by default.
    pub fn default_member_permissions(self, perms: String) -> (r: Self)
        ensures
            r == (UserCommand { default_member_permissions: Some(perms), ..self }),
    {
        UserCommand { default_member_permissions: Some(perms), ..self }
    }
}

/// A command in the context menu of a message.
#[derive(Debug, Clone)]
pub struct MessageCommand {
    pub name: String,
    pub kind: ApplicationCommandType,
    pub default_member_permissions: Option<String>,
    pub id: Option<Snowflake>,
}

impl MessageCommand {
    /// A message command shown as `name`.
    pub fn new(name: String) -> (r: Self)
        ensures
            r == (MessageCommand { name, kind: ApplicationCommandType::Message, default_member_permissions: None, id: None }),
    {
        MessageCommand { name, kind: ApplicationCommandType::Message, default_member_permissions: None, id: None }
    }

    /// Set the permissions a member needs by default.
    pub fn default_member_permissions(self, perms: String) -> (r: Self)
        ensures
            r == (MessageCommand { default_member_permissions: Some(perms), ..self }),
    {
        MessageCommand { default_member_permissions: Some(perms), ..self }
    }
}

} // verus!
