//! Guild members.

use vstd::prelude::*;
use crate::models::user::User;
use crate::snowflake::Snowflake;

verus! {

/// A user's membership in a guild.
#[derive(Debug)]
pub struct Member {
    /// The underlying user, if included in the payload.
    pub user: Option<User>,
    /// The member's guild-specific nickname, if set.
    pub nick: Option<String>,
    /// The member's guild-specific avatar hash, if set.
    pub avatar: Option<String>,
    /// IDs of the roles assigned to this member.
    pub roles: Vec<Snowflake>,
    /// ISO 8601 timestamp of when this user joined the guild.
    pub joined_at: String,
    /// Whether the member has been server-deafened in voice channels.
    pub deaf: bool,
    /// Whether the member has been server-muted in voice channels.
    pub mute: bool,
    /// Whether the member has not yet passed the guild's membership screening.
    pub pending: bool,
}

impl Member {
    /// Whether member `a` holds the same data as member `b`: every field
    /// equal, the role IDs as a sequence.
    pub open spec fn same(a: Member, b: Member) -> bool {
        &&& a.user == b.user
        &&& a.nick == b.nick
        &&& a.avatar == b.avatar
        &&& a.roles@ == b.roles@
        &&& a.joined_at == b.joined_at
        &&& a.deaf == b.deaf
        &&& a.mute == b.mute
        &&& a.pending == b.pending
    }
}

impl Clone for Member {
    fn clone(&self) -> (r: Self)
        ensures
            Member::same(r, *self),
    {
        let roles = self.roles.clone();
        assert(roles@ =~= self.roles@);
        Member {
            user: self.user.clone(),
            nick: self.nick.clone(),
            avatar: self.avatar.clone(),
            roles,
            joined_at: self.joined_at.clone(),
            deaf: self.deaf,
            mute: self.mute,
            pending: self.pending,
        }
    }
}

} // verus!
