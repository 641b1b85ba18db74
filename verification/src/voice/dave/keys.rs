//! DAVE key sets.
//!
//! DAVE is Discord's end-to-end encryption protocol for voice, built on the
//! MLS (Messaging Layer Security) standard.  Key distribution is handled
//! through the voice WebSocket.

use vstd::prelude::*;

verus! {

/// A set of DAVE per-sender encryption keys.
///
/// Each participant in the voice channel has a unique key set that is
/// distributed via MLS key packages and commit/welcome messages.
#[derive(Debug, Clone, Copy, PartialEq, Eq, Structural)]
pub struct KeySet {
    pub user_id: u64,
    pub key_id: u32,
}

/// The key set of one media sender, identified by its RTP SSRC.
#[derive(Debug, Clone, Copy, PartialEq, Eq, Structural)]
pub struct SenderKeySet {
    pub ssrc: u32,
}

impl SenderKeySet {
    /// A key set for `ssrc` that holds no keys yet.
    pub fn placeholder(ssrc: u32) -> (r: Self)
        ensures
            r.ssrc == ssrc,
    {
        SenderKeySet { ssrc }
    }
}

} // verus!
