//! Which mentions Discord should parse in a message.

use vstd::prelude::*;
use crate::snowflake::Snowflake;

verus! {

/// Controls which mentions Discord should parse in a message.
#[derive(Debug, Clone)]
pub struct AllowedMentions {
    /// Mention types Discord should parse automatically.
    pub parse: Vec<String>,
    /// Explicitly allowed role mentions.
    pub roles: Vec<Snowflake>,
    /// Explicitly allowed user mentions.
    pub users: Vec<Snowflake>,
    /// Whether the author of the referenced message should be mentioned.
    pub replied_user: Option<bool>,
}

impl AllowedMentions {
    /// Whether the value allows nothing beyond Discord's defaults.
    pub open spec fn is_unset(self) -> bool {
        &&& self.parse@.len() == 0
        &&& self.roles@.len() == 0
        &&& self.users@.len() == 0
        &&& self.replied_user is None
    }

    /// `a` is `b` with one more mention type, `kind`, to parse.
    pub open spec fn parses_one_more(a: AllowedMentions, b: AllowedMentions, kind: Seq<char>) -> bool {
        &&& a.parse@.len() == b.parse@.len() + 1
        &&& a.parse@.drop_last() == b.parse@
        &&& a.parse@.last()@ == kind
        &&& a == (AllowedMentions { parse: a.parse, ..b })
    }
}

impl Default for AllowedMentions {
    fn default() -> (r: Self)
        ensures
            r.is_unset(),
    {
        AllowedMentions { parse: Vec::new(), roles: Vec::new(), users: Vec::new(), replied_user: None }
    }
}

/// Builder for [`AllowedMentions`].
#[derive(Debug, Clone)]
pub struct AllowedMentionsBuilder {
    inner: AllowedMentions,
}

impl View for AllowedMentionsBuilder {
    type V = AllowedMentions;

    /// The value built so far.
    closed spec fn view(&self) -> AllowedMentions {
        self.inner
    }
}

impl Default for AllowedMentionsBuilder {
    fn default() -> (r: Self)
        ensures
            r@.is_unset(),
    {
        AllowedMentionsBuilder { inner: AllowedMentions::default() }
    }
}

impl AllowedMentionsBuilder {
    /// Start building a new [`AllowedMentions`] value.
    pub fn new() -> (r: Self)
        ensures
            r@.is_unset(),
    {
        Self::default()
    }

    /// Allow `@everyone` / `@here` mentions.
    pub fn everyone(self) -> (r: Self)
        ensures
            AllowedMentions::parses_one_more(r@, self@, "everyone"@),
    {
        let mut inner = self.inner;
        inner.parse.push("everyone".to_owned());
        assert(inner.parse@.drop_last() =~= self.inner.parse@);
        AllowedMentionsBuilder { inner }
    }

    /// Allow user mentions to be parsed automatically.
    pub fn users(self) -> (r: Self)
        ensures
            AllowedMentions::parses_one_more(r@, self@, "users"@),
    {
        let mut inner = self.inner;
        inner.parse.push("users".to_owned());
        assert(inner.parse@.drop_last() =~= self.inner.parse@);
        AllowedMentionsBuilder { inner }
    }

    /// Allow role mentions to be parsed automatically.
    pub fn roles(self) -> (r: Self)
        ensures
            AllowedMentions::parses_one_more(r@, self@, "roles"@),
    {
        let mut inner = self.inner;
        inner.parse.push("roles".to_owned());
        assert(inner.parse@.drop_last() =~= self.inner.parse@);
        AllowedMentionsBuilder { inner }
    }

    /// Restrict allowed user mentions to specific user IDs.
    pub fn allow_user(self, user_id: Snowflake) -> (r: Self)
        ensures
            r@.users@ == self@.users@.push(user_id),
            r@ == (AllowedMentions { users: r@.users, ..self@ }),
    {
        let mut inner = self.inner;
        inner.users.push(user_id);
        AllowedMentionsBuilder { inner }
    }

    /// Restrict allowed role mentions to specific role IDs.
    pub fn allow_role(self, role_id: Snowflake) -> (r: Self)
        ensures
            r@.roles@ == self@.roles@.push(role_id),
            r@ == (AllowedMentions { roles: r@.roles, ..self@ }),
    {
        let mut inner = self.inner;
        inner.roles.push(role_id);
        AllowedMentionsBuilder { inner }
    }

    /// Control whether replies mention the author of the referenced message.
    pub fn replied_user(self, replied_user: bool) -> (r: Self)
        ensures
            r@ == (AllowedMentions { replied_user: Some(replied_user), ..self@ }),
    {
        AllowedMentionsBuilder { inner: AllowedMentions { replied_user: Some(replied_user), ..self.inner } }
    }

    /// Finish the builder.
    pub fn build(self) -> (r: AllowedMentions)
        ensures
            r == self@,
    {
        self.inner
    }
}

} // verus!
