//! A shard's reconnect policy.
//!
//! A shard runs gateway connections one after another.  When a connection
//! ends, [`Reconnector::next`] decides whether to stop, to resume the
//! session after a short delay, or to start a fresh session after an
//! exponential back-off; after [`MAX_RETRIES`] reconnects it gives up.

use vstd::prelude::*;
use vstd::arithmetic::power2::{pow2, lemma2_to64};
use crate::error::{Error, GatewayError};
use crate::gateway::connection::SessionState;

verus! {

/// How many reconnects a shard makes before it gives up.
pub const MAX_RETRIES: u32 = 5;

/// How a gateway connection ended.
#[derive(Debug)]
pub enum ConnectionOutcome {
    /// The connection closed cleanly.
    Closed,
    /// The gateway asked for a reconnect and the session can be resumed.
    Resumable(SessionState),
    /// The connection failed with this error.
    Failed(Error),
}

/// What the shard does next.
#[derive(Debug)]
pub enum ShardStep {
    /// Stop with this result.
    Finish(Result<(), Error>),
    /// Wait `delay_ms` milliseconds, then resume `session`.
    Resume { delay_ms: u64, session: SessionState },
    /// Wait `backoff_secs` seconds, then start a fresh session.
    Reconnect { backoff_secs: u64 },
}

/// The back-off before a fresh session: `2^min(attempts, 6)` seconds.
pub open spec fn backoff_secs_spec(attempts: u32) -> nat {
    pow2(if attempts < 6 { attempts as nat } else { 6 })
}

/// The back-off before a fresh session, in seconds.
pub fn backoff_secs(attempts: u32) -> (r: u64)
    ensures
        r == backoff_secs_spec(attempts),
{
    proof {
        lemma2_to64();
    }
    match attempts {
        0 => 1,
        1 => 2,
        2 => 4,
        3 => 8,
        4 => 16,
        5 => 32,
        _ => 64,
    }
}

/// Whether an error is one a shard recovers from by starting a fresh
/// session: a dropped connection (an op 7 reconnect request among them) or
/// an invalidated session (op 9).
pub open spec fn is_transient(e: Error) -> bool {
    ||| e is Gateway && e->Gateway_0 is SessionInvalidated
    ||| e is Gateway && e->Gateway_0 is Connection
}

/// The error a shard gives up with.
pub open spec fn is_give_up(e: Error) -> bool {
    e matches Error::Gateway(GatewayError::Connection(m)) && m@ == "gave up after 5 reconnect attempts"@
}

/// The reconnect state of a shard: how many reconnects it has made.
#[derive(Debug, Clone, Copy, PartialEq, Eq, Structural)]
pub struct Reconnector {
    pub attempts: u32,
}

impl Reconnector {
    /// A shard that has not reconnected yet.
    pub fn new() -> (r: Self)
        ensures
            r.attempts == 0,
    {
        Reconnector { attempts: 0 }
    }

    fn give_up() -> (e: Error)
        ensures
            is_give_up(e),
    {
        Error::Gateway(GatewayError::Connection("gave up after 5 reconnect attempts".to_owned()))
    }

    /// Decide what follows a connection that ended with `outcome`.
    ///
    /// A clean close ends the shard.  A resumable reconnect and a transient
    /// error each count one attempt; when that count reaches
    /// [`MAX_RETRIES`] the shard gives up.  Otherwise a resumable session is
    /// resumed after `500 * attempts` ms and a transient error leads to a
    /// fresh session after `2^min(attempts, 6)` s.  Any other error ends the
    /// shard with that error.
    pub fn next(&mut self, outcome: ConnectionOutcome) -> (s: ShardStep)
        requires
            old(self).attempts < MAX_RETRIES,
        ensures
            match outcome {
                ConnectionOutcome::Closed => s matches ShardStep::Finish(Ok(())) && *final(self) == *old(self),
                ConnectionOutcome::Resumable(session) => {
                    &&& final(self).attempts == old(self).attempts + 1
                    &&& final(self).attempts >= MAX_RETRIES ==> (s matches ShardStep::Finish(Err(e)) && is_give_up(e))
                    &&& final(self).attempts < MAX_RETRIES ==> s == ShardStep::Resume {
                        delay_ms: (500 * final(self).attempts) as u64,
                        session,
                    }
                },
                ConnectionOutcome::Failed(e) => if is_transient(e) {
                    &&& final(self).attempts == old(self).attempts + 1
                    &&& final(self).attempts >= MAX_RETRIES ==> (s matches ShardStep::Finish(Err(g)) && is_give_up(g))
                    &&& final(self).attempts < MAX_RETRIES ==> s == ShardStep::Reconnect {
                        backoff_secs: backoff_secs_spec(final(self).attempts) as u64,
                    }
                } else {
                    &&& s == ShardStep::Finish(Err(e))
                    &&& *final(self) == *old(self)
                },
            },
    {
        match outcome {
            ConnectionOutcome::Closed => ShardStep::Finish(Ok(())),
            ConnectionOutcome::Resumable(session) => {
                self.attempts = self.attempts + 1;
                if self.attempts >= MAX_RETRIES {
                    return ShardStep::Finish(Err(Self::give_up()));
                }
                ShardStep::Resume { delay_ms: 500 * (self.attempts as u64), session }
            },
            ConnectionOutcome::Failed(e) => {
                let transient = match &e {
                    Error::Gateway(GatewayError::SessionInvalidated { .. }) => true,
                    Error::Gateway(GatewayError::Connection(_)) => true,
                    _ => false,
                };
                if !transient {
                    return ShardStep::Finish(Err(e));
                }
                self.attempts = self.attempts + 1;
                if self.attempts >= MAX_RETRIES {
                    return ShardStep::Finish(Err(Self::give_up()));
                }
                ShardStep::Reconnect { backoff_secs: backoff_secs(self.attempts) }
            },
        }
    }
}

/// The delays a shard waits before its reconnects: a fresh session after
/// the `n`-th attempt waits `2^n` seconds (at most 16), a resumed one
/// `500 * n` ms (at most 2 s).
pub proof fn lemma_reconnect_delays(attempts: u32)
    requires
        1 <= attempts < MAX_RETRIES,
    ensures
        backoff_secs_spec(attempts) == pow2(attempts as nat),
        backoff_secs_spec(attempts) <= 16,
        500 * attempts <= 2000,
{
    lemma2_to64();
}

} // verus!
