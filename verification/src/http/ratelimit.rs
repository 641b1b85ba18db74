//! Discord rate-limit bookkeeping.
//!
//! Times are milliseconds on one monotonic clock that the caller reads and
//! passes in; durations are milliseconds.  The limiter decides how long a
//! request must wait and records what each response's headers report; the
//! application owns the lock around it and does the sleeping.

use vstd::prelude::*;
use crate::text::{parse_u64, parse_u64_spec, str_eq};

verus! {

// ── Bucket ────────────────────────────────────────────────────────────────

/// State of a single Discord rate-limit bucket.
#[derive(Debug, Clone, Copy, PartialEq, Eq, Structural)]
pub struct Bucket {
    /// Maximum requests allowed per window.
    pub limit: u32,
    /// Requests remaining in the current window.
    pub remaining: u32,
    /// When the window resets, in milliseconds on the limiter's clock.
    pub reset_at_ms: u64,
}

impl Bucket {
    /// Whether the bucket is exhausted at time `now_ms`: no request left
    /// and the window not yet reset.
    pub open spec fn exhausted_at(self, now_ms: u64) -> bool {
        self.remaining == 0 && now_ms < self.reset_at_ms
    }

    /// How long after `now_ms` the window resets; `None` if it already has.
    pub open spec fn until_reset(self, now_ms: u64) -> Option<u64> {
        if self.reset_at_ms > now_ms {
            Some((self.reset_at_ms - now_ms) as u64)
        } else {
            None
        }
    }

    /// Returns `true` if the bucket is exhausted at time `now_ms`.
    pub fn is_exhausted(&self, now_ms: u64) -> (r: bool)
        ensures
            r == self.exhausted_at(now_ms),
    {
        self.remaining == 0 && now_ms < self.reset_at_ms
    }

    /// How long after `now_ms` this bucket resets.  Returns `None` if
    /// already reset.
    pub fn time_until_reset(&self, now_ms: u64) -> (r: Option<u64>)
        ensures
            r == self.until_reset(now_ms),
    {
        if self.reset_at_ms > now_ms {
            Some(self.reset_at_ms - now_ms)
        } else {
            None
        }
    }
}

// ── Rate-limit headers ────────────────────────────────────────────────────

/// Parsed Discord rate-limit headers from an HTTP response.
#[derive(Debug, Clone)]
pub struct RateLimitHeaders {
    /// Opaque bucket identifier.
    pub bucket: Option<String>,
    /// Maximum requests in the window.
    pub limit: Option<u32>,
    /// Remaining requests in the window.
    pub remaining: Option<u32>,
    /// Time until the window resets, in milliseconds.
    pub reset_after_ms: Option<u64>,
    /// `true` if this is a global rate-limit response.
    pub global: bool,
    /// Scope of the rate limit (`"user"`, `"shared"`, or `"global"`).
    pub scope: Option<String>,
}

/// What parsing a header value as a `u32` gives.
pub open spec fn parse_u32_spec(s: Seq<char>) -> Option<u32> {
    match parse_u64_spec(s) {
        Some(v) => if v <= u32::MAX as u64 {
            Some(v as u32)
        } else {
            None
        },
        None => None,
    }
}

/// Parse a header value as a `u32`, as `str::parse::<u32>` does.
pub fn parse_u32(s: &str) -> (r: Option<u32>)
    ensures
        r == parse_u32_spec(s@),
{
    match parse_u64(s) {
        Some(v) => if v <= 4_294_967_295u64 {
            Some(v as u32)
        } else {
            None
        },
        None => None,
    }
}

/// An optional header value parsed as a `u32`; `None` when absent or
/// malformed.
pub open spec fn header_u32(v: Option<&str>) -> Option<u32> {
    match v {
        Some(s) => parse_u32_spec(s@),
        None => None,
    }
}

fn parse_header_u32(v: Option<&str>) -> (r: Option<u32>)
    ensures
        r == header_u32(v),
{
    match v {
        Some(s) => parse_u32(s),
        None => None,
    }
}

impl Default for RateLimitHeaders {
    fn default() -> (r: Self)
        ensures
            r.bucket is None,
            r.limit is None,
            r.remaining is None,
            r.reset_after_ms is None,
            !r.global,
            r.scope is None,
    {
        RateLimitHeaders {
            bucket: None,
            limit: None,
            remaining: None,
            reset_after_ms: None,
            global: false,
            scope: None,
        }
    }
}

impl RateLimitHeaders {
    /// Build the headers of a response from the values of its
    /// `x-ratelimit-*` headers: `bucket`, `limit`, `remaining`, the reset
    /// delay (already converted from seconds to milliseconds), `global` and
    /// `scope`.  A count that does not parse is treated as absent; the
    /// response is global only when `global` reads `true`.
    pub fn from_values(
        bucket: Option<String>,
        limit: Option<&str>,
        remaining: Option<&str>,
        reset_after_ms: Option<u64>,
        global: Option<&str>,
        scope: Option<String>,
    ) -> (r: Self)
        ensures
            r.bucket == bucket,
            r.limit == header_u32(limit),
            r.remaining == header_u32(remaining),
            r.reset_after_ms == reset_after_ms,
            r.global == (global matches Some(g) && g@ == "true"@),
            r.scope == scope,
    {
        let is_global = match global {
            Some(g) => str_eq(g, "true"),
            None => false,
        };
        RateLimitHeaders {
            bucket,
            limit: parse_header_u32(limit),
            remaining: parse_header_u32(remaining),
            reset_after_ms,
            global: is_global,
            scope,
        }
    }
}

// ── RateLimiter ───────────────────────────────────────────────────────────

/// Whether no two entries of a list share a key.
pub open spec fn unique_keys(entries: Seq<(String, Bucket)>) -> bool {
    forall|i: int, j: int|
        0 <= i < entries.len() && 0 <= j < entries.len() && i != j ==> (#[trigger] entries[i]).0@ != (#[trigger] entries[j]).0@
}

/// Whether some entry of a list has key `k`.
pub open spec fn has_key(entries: Seq<(String, Bucket)>, k: Seq<char>) -> bool {
    exists|i: int| 0 <= i < entries.len() && (#[trigger] entries[i]).0@ == k
}

/// The map from bucket ID to bucket that a list of entries holds.
pub open spec fn entries_map(entries: Seq<(String, Bucket)>) -> Map<Seq<char>, Bucket> {
    Map::new(
        |k: Seq<char>| has_key(entries, k),
        |k: Seq<char>| entries[choose|i: int| 0 <= i < entries.len() && (#[trigger] entries[i]).0@ == k].1,
    )
}

/// In a list without repeated keys, the entry at `i` is what the map holds
/// for its key.
proof fn lemma_entries_map_at(entries: Seq<(String, Bucket)>, i: int)
    requires
        unique_keys(entries),
        0 <= i < entries.len(),
    ensures
        entries_map(entries).contains_key(entries[i].0@),
        entries_map(entries)[entries[i].0@] == entries[i].1,
{
    let k = entries[i].0@;
    assert(has_key(entries, k));
    let j = choose|j: int| 0 <= j < entries.len() && (#[trigger] entries[j]).0@ == k;
    assert(j == i);
}

/// Rate-limit state for all Discord buckets.
///
/// A limiter is a plain value: a clone is an independent copy whose
/// buckets evolve on their own.  Requests that should share one state share
/// one limiter, for example behind an `Arc<Mutex<RateLimiter>>`, as the
/// HTTP client does.
#[derive(Debug, Clone)]
pub struct RateLimiter {
    /// Bucket ID and bucket state, each ID at most once.
    buckets: Vec<(String, Bucket)>,
    /// Global rate-limit reset time (applies across all requests).
    global_reset_ms: Option<u64>,
}

impl RateLimiter {
    /// The limiter's invariant: no bucket ID is recorded twice.
    pub closed spec fn wf(&self) -> bool {
        unique_keys(self.buckets@)
    }

    /// The state of each known bucket, by ID.
    pub closed spec fn bucket_map(&self) -> Map<Seq<char>, Bucket> {
        entries_map(self.buckets@)
    }

    /// When the global rate limit resets, if one was ever set.
    pub closed spec fn global_reset(&self) -> Option<u64> {
        self.global_reset_ms
    }

    /// Create a new, empty [`RateLimiter`].
    pub fn new() -> (r: Self)
        ensures
            r.wf(),
            r.bucket_map() == Map::<Seq<char>, Bucket>::empty(),
            r.global_reset() is None,
    {
        let r = RateLimiter { buckets: Vec::new(), global_reset_ms: None };
        assert(r.bucket_map() =~= Map::<Seq<char>, Bucket>::empty());
        r
    }

    /// The bucket recorded for `id`, if any.
    pub fn bucket(&self, id: &str) -> (r: Option<Bucket>)
        requires
            self.wf(),
        ensures
            r == (if self.bucket_map().contains_key(id@) {
                Some(self.bucket_map()[id@])
            } else {
                None
            }),
    {
        match self.find(id) {
            Some(i) => {
                proof {
                    lemma_entries_map_at(self.buckets@, i as int);
                }
                Some(self.buckets[i].1)
            },
            None => None,
        }
    }

    fn find(&self, id: &str) -> (r: Option<usize>)
        ensures
            match r {
                Some(i) => i < self.buckets@.len() && self.buckets@[i as int].0@ == id@,
                None => !has_key(self.buckets@, id@),
            },
    {
        let n = self.buckets.len();
        let mut i: usize = 0;
        while i < n
            invariant
                n == self.buckets@.len(),
                i <= n,
                forall|j: int| 0 <= j < i ==> (#[trigger] self.buckets@[j]).0@ != id@,
            decreases n - i,
        {
            if str_eq(self.buckets[i].0.as_str(), id) {
                return Some(i);
            }
            i = i + 1;
        }
        None
    }

    /// How long a request must wait for the global rate limit at time
    /// `now_ms`; `None` when no global limit is active.
    pub fn global_wait(&self, now_ms: u64) -> (r: Option<u64>)
        ensures
            r == match self.global_reset() {
                Some(reset_at) => if reset_at > now_ms {
                    Some((reset_at - now_ms) as u64)
                } else {
                    None
                },
                None => None,
            },
    {
        match self.global_reset_ms {
            Some(reset_at) => if reset_at > now_ms {
                Some(reset_at - now_ms)
            } else {
                None
            },
            None => None,
        }
    }

    /// How long a request on bucket `bucket_id` must wait at time `now_ms`:
    /// until the bucket resets, if it is exhausted.  `None` when the bucket
    /// is not known yet (first request to a route) or allows a request.
    pub fn bucket_wait(&self, bucket_id: Option<&str>, now_ms: u64) -> (r: Option<u64>)
        requires
            self.wf(),
        ensures
            r == match bucket_id {
                Some(id) => if self.bucket_map().contains_key(id@) && self.bucket_map()[id@].exhausted_at(now_ms) {
                    self.bucket_map()[id@].until_reset(now_ms)
                } else {
                    None
                },
                None => None,
            },
    {
        match bucket_id {
            Some(id) => match self.bucket(id) {
                Some(b) => if b.is_exhausted(now_ms) {
                    b.time_until_reset(now_ms)
                } else {
                    None
                },
                None => None,
            },
            None => None,
        }
    }

    /// Update the bucket state from the headers of a response completed at
    /// time `now_ms`.
    ///
    /// A global response with a reset delay sets the global limit and
    /// touches no bucket.  Otherwise, when the headers carry a bucket ID, a
    /// limit, a remaining count and a reset delay, that bucket is recorded
    /// (replacing any earlier state); when any of them is missing nothing
    /// changes.  A reset time past the clock's range is held at its end.
    pub fn update(&mut self, headers: &RateLimitHeaders, now_ms: u64)
        requires
            old(self).wf(),
        ensures
            final(self).wf(),
            headers.global ==> {
                &&& final(self).bucket_map() == old(self).bucket_map()
                &&& final(self).global_reset() == match headers.reset_after_ms {
                    Some(after) => Some(sat_add(now_ms, after)),
                    None => old(self).global_reset(),
                }
            },
            !headers.global ==> {
                &&& final(self).global_reset() == old(self).global_reset()
                &&& final(self).bucket_map() == match (headers.bucket, headers.limit, headers.remaining, headers.reset_after_ms) {
                    (Some(id), Some(limit), Some(remaining), Some(after)) => old(self).bucket_map().insert(
                        id@,
                        Bucket { limit, remaining, reset_at_ms: sat_add(now_ms, after) },
                    ),
                    _ => old(self).bucket_map(),
                }
            },
    {
        if headers.global {
            if let Some(after) = headers.reset_after_ms {
                self.global_reset_ms = Some(now_ms.saturating_add(after));
            }
            return;
        }
        match (&headers.bucket, headers.limit, headers.remaining, headers.reset_after_ms) {
            (Some(id), Some(limit), Some(remaining), Some(after)) => {
                let bucket = Bucket { limit, remaining, reset_at_ms: now_ms.saturating_add(after) };
                self.insert(id.as_str(), bucket);
            },
            _ => {},
        }
    }

    fn insert(&mut self, id: &str, bucket: Bucket)
        requires
            old(self).wf(),
        ensures
            final(self).wf(),
            final(self).bucket_map() == old(self).bucket_map().insert(id@, bucket),
            final(self).global_reset() == old(self).global_reset(),
    {
        let ghost before = self.buckets@;
        match self.find(id) {
            Some(i) => {
                let key = self.buckets[i].0.clone();
                self.buckets.set(i, (key, bucket));
                proof {
                    let after = self.buckets@;
                    assert(after =~= before.update(i as int, (before[i as int].0, bucket)));
                    assert(unique_keys(after)) by {
                        assert forall|a: int, b: int|
                            0 <= a < after.len() && 0 <= b < after.len() && a != b implies (#[trigger] after[a]).0@ != (#[trigger] after[b]).0@ by {
                            assert(before[a].0@ != before[b].0@);
                        }
                    }
                    assert forall|k: Seq<char>| #![auto] has_key(after, k) <==> has_key(before, k) by {
                        if has_key(before, k) {
                            let j = choose|j: int| 0 <= j < before.len() && (#[trigger] before[j]).0@ == k;
                            assert(after[j].0@ == k);
                        }
                        if has_key(after, k) {
                            let j = choose|j: int| 0 <= j < after.len() && (#[trigger] after[j]).0@ == k;
                            assert(before[j].0@ == k);
                        }
                    }
                    assert forall|k: Seq<char>| #[trigger] entries_map(after).contains_key(k) implies
                        entries_map(after)[k] == entries_map(before).insert(id@, bucket)[k] by {
                        let j = choose|j: int| 0 <= j < after.len() && (#[trigger] after[j]).0@ == k;
                        lemma_entries_map_at(after, j);
                        lemma_entries_map_at(before, j);
                    }
                    assert(entries_map(after) =~= entries_map(before).insert(id@, bucket));
                }
            },
            None => {
                self.buckets.push((id.to_owned(), bucket));
                proof {
                    let after = self.buckets@;
                    let n = before.len() as int;
                    assert(after =~= before.push((after[n].0, bucket)));
                    assert(unique_keys(after)) by {
                        assert forall|a: int, b: int|
                            0 <= a < after.len() && 0 <= b < after.len() && a != b implies (#[trigger] after[a]).0@ != (#[trigger] after[b]).0@ by {
                            if a < n && b < n {
                                assert(before[a].0@ != before[b].0@);
                            } else if a < n {
                                assert(after[a] == before[a]);
                            } else {
                                assert(after[b] == before[b]);
                            }
                        }
                    }
                    assert forall|k: Seq<char>| #![auto] has_key(after, k) <==> (has_key(before, k) || k == id@) by {
                        if has_key(before, k) {
                            let j = choose|j: int| 0 <= j < before.len() && (#[trigger] before[j]).0@ == k;
                            assert(after[j].0@ == k);
                        }
                        if k == id@ {
                            assert(after[n].0@ == k);
                        }
                        if has_key(after, k) {
                            let j = choose|j: int| 0 <= j < after.len() && (#[trigger] after[j]).0@ == k;
                            if j < n {
                                assert(before[j].0@ == k);
                            }
                        }
                    }
                    assert forall|k: Seq<char>| #[trigger] entries_map(after).contains_key(k) implies
                        entries_map(after)[k] == entries_map(before).insert(id@, bucket)[k] by {
                        let j = choose|j: int| 0 <= j < after.len() && (#[trigger] after[j]).0@ == k;
                        lemma_entries_map_at(after, j);
                        if j < n {
                            assert(after[j] == before[j]);
                            lemma_entries_map_at(before, j);
                        }
                    }
                    assert(entries_map(after) =~= entries_map(before).insert(id@, bucket));
                }
            },
        }
    }

    /// Register a global rate limit from a `429 Too Many Requests` response
    /// received at time `now_ms`: all requests pause for `retry_after_ms`.
    pub fn set_global_retry_after(&mut self, retry_after_ms: u64, now_ms: u64)
        requires
            old(self).wf(),
        ensures
            final(self).wf(),
            final(self).bucket_map() == old(self).bucket_map(),
            final(self).global_reset() == Some(sat_add(now_ms, retry_after_ms)),
    {
        self.global_reset_ms = Some(now_ms.saturating_add(retry_after_ms));
    }
}

/// `a + b`, held at `u64::MAX` when it would pass it.
pub open spec fn sat_add(a: u64, b: u64) -> u64 {
    if a + b <= u64::MAX {
        (a + b) as u64
    } else {
        u64::MAX
    }
}

/// What a response's headers record is what the limiter then reports: a
/// bucket recorded with no request left makes the next request on it wait
/// exactly the reset delay, and a bucket's state does not leak to another.
pub proof fn lemma_update_then_wait(
    before: Map<Seq<char>, Bucket>,
    id: Seq<char>,
    other: Seq<char>,
    limit: u32,
    now_ms: u64,
    after_ms: u64,
)
    requires
        after_ms > 0,
        now_ms + after_ms <= u64::MAX,
    ensures
        ({
            let b = Bucket { limit, remaining: 0, reset_at_ms: sat_add(now_ms, after_ms) };
            let m = before.insert(id, b);
            &&& m[id].exhausted_at(now_ms)
            &&& m[id].until_reset(now_ms) == Some(after_ms)
            &&& other != id ==> (m.contains_key(other) == before.contains_key(other)) && m[other] == before[other]
        }),
{
}

} // verus!
