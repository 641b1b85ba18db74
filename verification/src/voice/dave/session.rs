//! DAVE session — combines protocol state with per-sender key sets.
//!
//! A `DaveSession` is created when a voice channel uses E2EE and is updated
//! as members join or leave and as new MLS epochs are committed.  It tracks
//! which DAVE phase the connection is in and one key set per sender SSRC.

use vstd::prelude::*;
use crate::json::JsonValue;
use crate::voice::dave::keys::SenderKeySet;
use crate::voice::dave::protocol::{DaveEvent, DaveModel, DaveState, payload};

verus! {

/// The SSRCs of a list of key sets, in order.
pub open spec fn ssrcs(keys: Seq<SenderKeySet>) -> Seq<u32> {
    keys.map_values(|k: SenderKeySet| k.ssrc)
}

/// The key sets after registering `ssrc`: unchanged when a key set has it,
/// else with a placeholder key set for it at the end.
pub open spec fn registered(keys: Seq<SenderKeySet>, ssrc: u32) -> Seq<SenderKeySet> {
    if ssrcs(keys).contains(ssrc) {
        keys
    } else {
        keys.push(SenderKeySet { ssrc })
    }
}

/// A sender that was just registered has a key set, whatever the list held
/// before; a sender that was just removed has none.
pub proof fn lemma_register_then_lookup(keys: Seq<SenderKeySet>, ssrc: u32)
    ensures
        ssrcs(registered(keys, ssrc)).contains(ssrc),
        !ssrcs(keys.filter(|k: SenderKeySet| k.ssrc != ssrc)).contains(ssrc),
{
    if !ssrcs(keys).contains(ssrc) {
        let r = keys.push(SenderKeySet { ssrc });
        assert(ssrcs(r)[r.len() - 1] == ssrc);
    }
    let f = |k: SenderKeySet| k.ssrc != ssrc;
    let kept = keys.filter(f);
    if ssrcs(kept).contains(ssrc) {
        let j = choose|j: int| 0 <= j < ssrcs(kept).len() && ssrcs(kept)[j] == ssrc;
        assert(kept.contains(kept[j]));
        keys.lemma_filter_contains_rev(f, kept[j]);
    }
}

/// Read-only snapshot of a [`DaveSession`].
#[derive(Debug, Clone)]
pub struct DaveSessionSnapshot {
    /// Protocol negotiation state machine.
    pub state: DaveState,
    /// Per-sender key sets, indexed by SSRC.
    pub sender_keys: Vec<SenderKeySet>,
}

/// Manages DAVE E2EE state for a single voice channel session.
#[derive(Debug)]
pub struct DaveSession {
    /// Protocol negotiation state machine.
    pub state: DaveState,
    /// Per-sender key sets, indexed by SSRC.
    pub sender_keys: Vec<SenderKeySet>,
}

impl Default for DaveSession {
    fn default() -> (r: Self)
        ensures
            r.state@.phase is Inactive,
            r.sender_keys@.len() == 0,
    {
        DaveSession::new()
    }
}

impl DaveSession {
    /// Whether no two key sets share an SSRC.
    pub open spec fn wf(&self) -> bool {
        ssrcs(self.sender_keys@).no_duplicates()
    }

    /// Create an inactive DAVE session (DAVE not yet negotiated).
    pub fn new() -> (r: Self)
        ensures
            r.state@.phase is Inactive,
            r.state@.external_sender is None,
            r.state@.key_packages.len() == 0,
            r.state@.proposals.len() == 0,
            r.state@.commit_welcome is None,
            r.sender_keys@.len() == 0,
            r.wf(),
    {
        let r = DaveSession { state: DaveState::new(), sender_keys: Vec::new() };
        assert(ssrcs(r.sender_keys@) =~= Seq::<u32>::empty());
        r
    }

    /// Whether DAVE E2EE is currently active.
    pub fn is_active(&self) -> (r: bool)
        ensures
            r == (self.state@.phase is Active),
    {
        self.state.is_active()
    }

    /// Get the key set for a given SSRC, if one exists.
    pub fn get_sender_key(&self, ssrc: u32) -> (r: Option<&SenderKeySet>)
        ensures
            match r {
                Some(k) => *k == (SenderKeySet { ssrc }) && self.sender_keys@.contains(*k),
                None => !ssrcs(self.sender_keys@).contains(ssrc),
            },
    {
        let n = self.sender_keys.len();
        let mut i: usize = 0;
        while i < n
            invariant
                n == self.sender_keys@.len(),
                i <= n,
                forall|j: int| 0 <= j < i ==> (#[trigger] self.sender_keys@[j]).ssrc != ssrc,
            decreases n - i,
        {
            if self.sender_keys[i].ssrc == ssrc {
                return Some(&self.sender_keys[i]);
            }
            i = i + 1;
        }
        proof {
            if ssrcs(self.sender_keys@).contains(ssrc) {
                let j = choose|j: int| 0 <= j < ssrcs(self.sender_keys@).len() && ssrcs(self.sender_keys@)[j] == ssrc;
                assert(self.sender_keys@[j].ssrc == ssrc);
            }
        }
        None
    }

    /// Register a new sender SSRC with a placeholder key set; a known SSRC
    /// is left as it is.
    pub fn register_sender(&mut self, ssrc: u32)
        ensures
            old(self).wf() ==> final(self).wf(),
            final(self).state@ == old(self).state@,
            final(self).sender_keys@ == registered(old(self).sender_keys@, ssrc),
    {
        let known = match self.get_sender_key(ssrc) {
            Some(k) => {
                proof {
                    let j = choose|j: int| 0 <= j < self.sender_keys@.len() && self.sender_keys@[j] == *k;
                    assert(ssrcs(self.sender_keys@)[j] == ssrc);
                }
                true
            },
            None => false,
        };
        if !known {
            self.sender_keys.push(SenderKeySet::placeholder(ssrc));
            proof {
                assert(ssrcs(self.sender_keys@) =~= ssrcs(old(self).sender_keys@).push(ssrc));
            }
        }
    }

    /// Remove a sender by SSRC (e.g. when they leave the voice channel).
    /// The other key sets keep their order.
    pub fn remove_sender(&mut self, ssrc: u32)
        ensures
            old(self).wf() ==> final(self).wf(),
            final(self).state@ == old(self).state@,
            final(self).sender_keys@ == old(self).sender_keys@.filter(|k: SenderKeySet| k.ssrc != ssrc),
            !ssrcs(final(self).sender_keys@).contains(ssrc),
    {
        let ghost before = self.sender_keys@;
        let mut kept: Vec<SenderKeySet> = Vec::new();
        let n = self.sender_keys.len();
        let mut i: usize = 0;
        while i < n
            invariant
                n == self.sender_keys@.len(),
                self.sender_keys@ == before,
                i <= n,
                kept@ == before.subrange(0, i as int).filter(|k: SenderKeySet| k.ssrc != ssrc),
            decreases n - i,
        {
            let k = self.sender_keys[i];
            proof {
                assert(before.subrange(0, i + 1).drop_last() =~= before.subrange(0, i as int));
                before.subrange(0, i as int).lemma_filter_push(k, |k: SenderKeySet| k.ssrc != ssrc);
                assert(before.subrange(0, i + 1) =~= before.subrange(0, i as int).push(k));
            }
            if k.ssrc != ssrc {
                kept.push(k);
            }
            i = i + 1;
        }
        assert(before.subrange(0, n as int) =~= before);
        self.sender_keys = kept;
        proof {
            let after = self.sender_keys@;
            let f = |k: SenderKeySet| k.ssrc != ssrc;
            
            if ssrcs(before).no_duplicates() {
                assert forall|a: int, b: int| 0 <= a < ssrcs(after).len() && 0 <= b < ssrcs(after).len() && a != b
                    implies ssrcs(after)[a] != ssrcs(after)[b] by {
                    lemma_filter_keeps_unique(before, ssrc, a, b);
                }
                assert(ssrcs(after).no_duplicates());
            }
            if ssrcs(after).contains(ssrc) {
                let j = choose|j: int| 0 <= j < ssrcs(after).len() && ssrcs(after)[j] == ssrc;
                assert(after.contains(after[j]));
                before.lemma_filter_contains_rev(f, after[j]);
            }
        }
    }

    /// Apply one raw voice gateway payload into the DAVE state machine.
    pub fn apply_gateway_payload(&mut self, op: u64, d: &JsonValue) -> (r: Option<DaveEvent>)
        ensures
            final(self).sender_keys@ == old(self).sender_keys@,
            match crate::voice::dave::protocol::apply_spec(old(self).state@, op, *d) {
                Some((e, m)) => (op == 20 || op == 28) ==> r == Some(e) && final(self).state@ == m,
                None => (op == 20 || op == 28) ==> r is None && final(self).state@ == old(self).state@,
            },
            !(20 <= op <= 24 || op == 28) ==> r is None && final(self).state@ == old(self).state@,
            (21 <= op <= 24) ==> match crate::voice::dave::protocol::payload_bytes_spec(*d) {
                Some(b) => r matches Some(e) && crate::voice::dave::protocol::event_bytes(e) == Some(b) && {
                    &&& op == 21 ==> final(self).state@ == (DaveModel { external_sender: Some(b), ..old(self).state@ })
                    &&& op == 22 ==> final(self).state@ == (DaveModel {
                        key_packages: old(self).state@.key_packages.push(b),
                        ..old(self).state@
                    })
                    &&& op == 23 ==> final(self).state@ == (DaveModel {
                        proposals: old(self).state@.proposals.push(b),
                        ..old(self).state@
                    })
                    &&& op == 24 ==> final(self).state@ == (DaveModel { commit_welcome: Some(b), ..old(self).state@ })
                },
                None => r is None && final(self).state@ == old(self).state@,
            },
    {
        self.state.apply_gateway_payload(op, d)
    }

    /// Return an owned snapshot of the current DAVE session.
    pub fn snapshot(&self) -> (r: DaveSessionSnapshot)
        ensures
            r.state@ == self.state@,
            r.sender_keys@ == self.sender_keys@,
    {
        let state = self.state.clone();
        let mut keys: Vec<SenderKeySet> = Vec::new();
        let n = self.sender_keys.len();
        let mut i: usize = 0;
        while i < n
            invariant
                n == self.sender_keys@.len(),
                i <= n,
                keys@ == self.sender_keys@.subrange(0, i as int),
            decreases n - i,
        {
            keys.push(self.sender_keys[i]);
            assert(keys@ =~= self.sender_keys@.subrange(0, i + 1));
            i = i + 1;
        }
        assert(keys@ =~= self.sender_keys@);
        DaveSessionSnapshot { state, sender_keys: keys }
    }

    /// Whether we have received at least one MLS commit/welcome payload.
    pub fn has_commit_welcome(&self) -> (r: bool)
        ensures
            r == (self.state@.commit_welcome is Some),
    {
        self.state.commit_welcome.is_some()
    }

    /// Return the latest commit/welcome payload, if available.
    pub fn latest_commit_welcome(&self) -> (r: Option<&[u8]>)
        ensures
            match r {
                Some(b) => self.state@.commit_welcome == Some(b@),
                None => self.state@.commit_welcome is None,
            },
    {
        match &self.state.commit_welcome {
            Some(b) => Some(b.as_slice()),
            None => None,
        }
    }

    /// Return the number of cached key package payloads.
    pub fn key_package_count(&self) -> (r: usize)
        ensures
            r == self.state@.key_packages.len(),
    {
        self.state.key_packages.len()
    }

    /// Return the number of cached proposal payloads.
    pub fn proposal_count(&self) -> (r: usize)
        ensures
            r == self.state@.proposals.len(),
    {
        self.state.proposals.len()
    }
}

/// Keeping the key sets of a list without repeated SSRCs that do not have
/// a given SSRC leaves a list without repeated SSRCs.
proof fn lemma_filter_keeps_unique(keys: Seq<SenderKeySet>, ssrc: u32, a: int, b: int)
    requires
        ssrcs(keys).no_duplicates(),
        0 <= a < keys.filter(|k: SenderKeySet| k.ssrc != ssrc).len(),
        0 <= b < keys.filter(|k: SenderKeySet| k.ssrc != ssrc).len(),
        a != b,
    ensures
        keys.filter(|k: SenderKeySet| k.ssrc != ssrc)[a].ssrc != keys.filter(|k: SenderKeySet| k.ssrc != ssrc)[b].ssrc,
    decreases keys.len(),
{
    let f = |k: SenderKeySet| k.ssrc != ssrc;
    if keys.len() > 0 {
        let init = keys.drop_last();
        let last = keys.last();
        assert(keys =~= init.push(last));
        init.lemma_filter_push(last, f);
        assert(ssrcs(init) =~= ssrcs(keys).drop_last());
        assert(ssrcs(init).no_duplicates()) by {
            assert forall|x: int, y: int| 0 <= x < ssrcs(init).len() && 0 <= y < ssrcs(init).len() && x != y
                implies ssrcs(init)[x] != ssrcs(init)[y] by {
                assert(ssrcs(init)[x] == ssrcs(keys)[x]);
                assert(ssrcs(init)[y] == ssrcs(keys)[y]);
            }
        }
        let fi = init.filter(f);
        if f(last) {
            let fl = fi.len() as int;
            if a < fl && b < fl {
                lemma_filter_keeps_unique(init, ssrc, a, b);
            } else {
                let other = if a < fl { a } else { b };
                assert(other < fl);
                init.lemma_filter_contains_rev(f, fi[other]);
                assert(fi.contains(fi[other]));
                let j = choose|j: int| 0 <= j < init.len() && init[j] == fi[other];
                assert(ssrcs(keys)[j] == init[j].ssrc);
                assert(ssrcs(keys)[keys.len() - 1] == last.ssrc);
            }
        } else {
            lemma_filter_keeps_unique(init, ssrc, a, b);
        }
    }
}

} // verus!
