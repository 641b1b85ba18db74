//! Threads.

use vstd::prelude::*;
use vstd::std_specs::convert::{FromSpecImpl, TryFromSpecImpl};
use crate::snowflake::Snowflake;

verus! {

/// Thread-specific metadata attached to a thread channel.
#[derive(Debug)]
pub struct ThreadMetadata {
    /// Whether the thread is archived.
    pub archived: bool,
    /// Duration in minutes before the thread is auto-archived.  One of 60, 1440, 4320, 10080.
    pub auto_archive_duration: u32,
    /// ISO 8601 timestamp of when the thread was archived (or its last activity).
    pub archive_timestamp: String,
    /// Whether the thread is locked; only moderators can un-archive a locked thread.
    pub locked: bool,
    /// Whether non-moderators can invite other members to a private thread.
    pub invitable: Option<bool>,
    /// ISO 8601 creation timestamp (only present for threads created after 2022-01-09).
    pub create_timestamp: Option<String>,
}

impl Clone for ThreadMetadata {
    fn clone(&self) -> (r: Self)
        ensures
            r == *self,
    {
        ThreadMetadata {
            archived: self.archived,
            auto_archive_duration: self.auto_archive_duration,
            archive_timestamp: self.archive_timestamp.clone(),
            locked: self.locked,
            invitable: self.invitable,
            create_timestamp: self.create_timestamp.clone(),
        }
    }
}

/// A member's participation record in a thread.
#[derive(Debug, Clone)]
pub struct ThreadMember {
    /// The ID of the thread.
    pub id: Option<Snowflake>,
    /// The ID of the user.
    pub user_id: Option<Snowflake>,
    /// ISO 8601 timestamp of when the user joined the thread.
    pub join_timestamp: String,
    /// Any user-thread settings bitfield (currently unused by Discord).
    pub flags: u64,
}

/// A Discord thread channel (news thread, public thread, or private thread).
#[derive(Debug)]
pub struct Thread {
    /// The thread's snowflake ID.
    pub id: Snowflake,
    /// The guild the thread belongs to.
    pub guild_id: Option<Snowflake>,
    /// The parent channel the thread was created in.
    pub parent_id: Option<Snowflake>,
    /// The user who created the thread.
    pub owner_id: Option<Snowflake>,
    /// The thread name.
    pub name: String,
    /// Channel type: 10 = NEWS_THREAD, 11 = PUBLIC_THREAD, 12 = PRIVATE_THREAD.
    pub kind: u8,
    /// Approximate member count, capped at 50.
    pub member_count: Option<u32>,
    /// Approximate message count, capped at 50.
    pub message_count: Option<u32>,
    /// Total number of messages ever sent in the thread (not decremented by deletes).
    pub total_message_sent: Option<u32>,
    /// Thread-specific metadata.
    pub thread_metadata: Option<ThreadMetadata>,
    /// IDs of tags applied to a forum/media thread (max 5).
    pub applied_tags: Vec<Snowflake>,
    /// Channel flags bitfield.
    pub flags: Option<u64>,
    /// Slowmode: seconds a user must wait between messages.
    pub rate_limit_per_user: Option<u32>,
    /// The ID of the last message sent in this thread.
    pub last_message_id: Option<Snowflake>,
}

impl Thread {
    /// Whether thread `a` holds the same data as thread `b`: every field
    /// equal, the applied tags as a sequence.
    pub open spec fn same(a: Thread, b: Thread) -> bool {
        &&& a.id == b.id
        &&& a.guild_id == b.guild_id
        &&& a.parent_id == b.parent_id
        &&& a.owner_id == b.owner_id
        &&& a.name == b.name
        &&& a.kind == b.kind
        &&& a.member_count == b.member_count
        &&& a.message_count == b.message_count
        &&& a.total_message_sent == b.total_message_sent
        &&& a.thread_metadata == b.thread_metadata
        &&& a.applied_tags@ == b.applied_tags@
        &&& a.flags == b.flags
        &&& a.rate_limit_per_user == b.rate_limit_per_user
        &&& a.last_message_id == b.last_message_id
    }
}

impl Clone for Thread {
    fn clone(&self) -> (r: Self)
        ensures
            Thread::same(r, *self),
    {
        let applied_tags = self.applied_tags.clone();
        assert(applied_tags@ =~= self.applied_tags@);
        Thread {
            id: self.id,
            guild_id: self.guild_id,
            parent_id: self.parent_id,
            owner_id: self.owner_id,
            name: self.name.clone(),
            kind: self.kind,
            member_count: self.member_count,
            message_count: self.message_count,
            total_message_sent: self.total_message_sent,
            thread_metadata: self.thread_metadata.clone(),
            applied_tags,
            flags: self.flags,
            rate_limit_per_user: self.rate_limit_per_user,
            last_message_id: self.last_message_id,
        }
    }
}

/// Channel type for new thread creation.
#[derive(Debug, Clone, Copy, PartialEq, Eq, Structural)]
pub enum ThreadKind {
    /// Public thread (type 11).
    Public,
    /// Private thread (type 12).
    Private,
    /// News thread (type 10).
    News,
}

impl ThreadKind {
    /// The wire code of this thread kind.
    pub open spec fn code_spec(self) -> u8 {
        match self {
            ThreadKind::Public => 11u8,
            ThreadKind::Private => 12u8,
            ThreadKind::News => 10u8,
        }
    }

    /// The value with wire code `v`, if there is one.
    pub open spec fn from_code_spec(v: u8) -> Option<ThreadKind> {
        if v == 11u8 {
            Some(ThreadKind::Public)
        } else if v == 12u8 {
            Some(ThreadKind::Private)
        } else if v == 10u8 {
            Some(ThreadKind::News)
        } else {
            None
        }
    }
}

impl TryFrom<u8> for ThreadKind {
    type Error = &'static str;

    fn try_from(v: u8) -> (r: Result<Self, &'static str>)
        ensures
            match ThreadKind::from_code_spec(v) {
                Some(k) => r == Ok::<ThreadKind, &'static str>(k),
                None => r is Err && r->Err_0@ == "unknown thread type"@,
            },
    {
        match v {
            11 => Ok(ThreadKind::Public),
            12 => Ok(ThreadKind::Private),
            10 => Ok(ThreadKind::News),
            _ => Err("unknown thread type"),
        }
    }
}

/// The contract of `try_from` is stated on the function itself, error text
/// included; this spec is not relied on.
impl TryFromSpecImpl<u8> for ThreadKind {
    open spec fn obeys_try_from_spec() -> bool {
        false
    }

    open spec fn try_from_spec(v: u8) -> Result<ThreadKind, &'static str> {
        match ThreadKind::from_code_spec(v) {
            Some(k) => Ok(k),
            None => Err(arbitrary()),
        }
    }
}

impl From<ThreadKind> for u8 {
    fn from(v: ThreadKind) -> (r: u8)
        ensures
            r == v.code_spec(),
    {
        match v {
            ThreadKind::Public => 11,
            ThreadKind::Private => 12,
            ThreadKind::News => 10,
        }
    }
}

impl FromSpecImpl<ThreadKind> for u8 {
    open spec fn obeys_from_spec() -> bool {
        true
    }

    open spec fn from_spec(v: ThreadKind) -> u8 {
        v.code_spec()
    }
}

/// Every thread kind has exactly one wire code: decoding a value's code gives the
/// value back, and a code that decodes names a value with that code.
pub proof fn lemma_thread_kind_code_roundtrip(k: ThreadKind, v: u8)
    ensures
        ThreadKind::from_code_spec(k.code_spec()) == Some(k),
        ThreadKind::from_code_spec(v) matches Some(j) ==> j.code_spec() == v,
{
}

/// Request body for `POST /channels/{channel.id}/threads`.
///
/// Use [`ThreadCreateOptions::new`] to start with required fields and chain
/// setters to fill in the optional ones.
#[derive(Debug, Clone)]
pub struct ThreadCreateOptions {
    /// 1-100 character thread name.
    pub name: String,
    /// Thread type to create.
    pub kind: ThreadKind,
    /// Auto-archive duration in minutes (60, 1440, 4320, 10080).
    pub auto_archive_duration: Option<u32>,
    /// Slowmode in seconds (0-21600).
    pub rate_limit_per_user: Option<u32>,
    /// Whether non-moderators can add other non-moderators. Private threads only.
    pub invitable: Option<bool>,
}

impl ThreadCreateOptions {
    /// Create a new builder with the required name and thread type.
    pub fn new(name: String, kind: ThreadKind) -> (r: Self)
        ensures
            r == (ThreadCreateOptions {
                name,
                kind,
                auto_archive_duration: None,
                rate_limit_per_user: None,
                invitable: None,
            }),
    {
        Self { name, kind, auto_archive_duration: None, rate_limit_per_user: None, invitable: None }
    }

    /// Set the auto-archive duration. One of 60, 1440, 4320, 10080.
    pub fn auto_archive_duration(self, minutes: u32) -> (r: Self)
        ensures
            r == (ThreadCreateOptions { auto_archive_duration: Some(minutes), ..self }),
    {
        Self { auto_archive_duration: Some(minutes), ..self }
    }

    /// Set slowmode in seconds (0-21600).
    pub fn rate_limit_per_user(self, seconds: u32) -> (r: Self)
        ensures
            r == (ThreadCreateOptions { rate_limit_per_user: Some(seconds), ..self }),
    {
        Self { rate_limit_per_user: Some(seconds), ..self }
    }

    /// Allow non-moderators to invite others. Only meaningful for private threads.
    pub fn invitable(self, invitable: bool) -> (r: Self)
        ensures
            r == (ThreadCreateOptions { invitable: Some(invitable), ..self }),
    {
        Self { invitable: Some(invitable), ..self }
    }
}

} // verus!
