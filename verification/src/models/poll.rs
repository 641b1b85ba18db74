//! Polls.

use vstd::prelude::*;
use crate::snowflake::Snowflake;

verus! {

/// A poll attached to a message.
#[derive(Debug, Clone)]
pub struct Poll {
    /// The question of the poll.  Only `text` is supported.
    pub question: PollMedia,
    /// Each available answer.
    pub answers: Vec<PollAnswer>,
    /// Expiry timestamp (ISO 8601), or `None` if it never expires.
    pub expiry: Option<String>,
    /// Whether users can select multiple answers.
    pub allow_multiselect: bool,
    /// Layout type.  1 = DEFAULT.
    pub layout_type: u8,
    /// The results of the poll, if finalised.
    pub results: Option<PollResults>,
}

/// The text and emoji of a question or answer.
#[derive(Debug, Clone)]
pub struct PollMedia {
    /// The text content.
    pub text: Option<String>,
    /// Optional emoji.
    pub emoji: Option<PollEmoji>,
}

/// The emoji of a poll answer.
#[derive(Debug, Clone)]
pub struct PollEmoji {
    /// For custom emoji.
    pub id: Option<Snowflake>,
    /// For standard emoji.
    pub name: Option<String>,
}

/// One answer of a poll.
#[derive(Debug, Clone)]
pub struct PollAnswer {
    /// Stable ID for this answer (assigned by Discord).
    pub answer_id: Option<u32>,
    /// The displayed label and optional emoji.
    pub poll_media: PollMedia,
}

/// The results of a poll.
#[derive(Debug, Clone)]
pub struct PollResults {
    /// Whether the poll has finished and results are final.
    pub is_finalized: bool,
    /// Vote counts per answer.
    pub answer_counts: Vec<PollAnswerCount>,
}

/// The votes for one answer.
#[derive(Debug, Clone)]
pub struct PollAnswerCount {
    /// The answer ID this count belongs to.
    pub id: u32,
    /// Number of votes.
    pub count: u32,
    /// Whether the current bot user voted for this answer.
    pub me_voted: bool,
}

} // verus!
