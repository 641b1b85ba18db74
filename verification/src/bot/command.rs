//! Prefix commands: a name paired with its handler, and the registry the
//! dispatch loop looks them up in.
//!
//! The handler type is left to the application (an async closure there);
//! the registry keeps at most one handler per name, a later registration
//! replacing an earlier one.

use vstd::prelude::*;
use crate::text::str_eq;

verus! {

/// A self-contained command definition — a name paired with its handler.
///
/// `name` should not include the prefix character — just the bare word
/// (e.g. `"ping"`, not `"!ping"`).
pub struct Command<H> {
    pub name: String,
    pub handler: H,
}

impl<H> Command<H> {
    /// Create a new `Command` with the given name and handler.
    pub fn new(name: String, handler: H) -> (r: Self)
        ensures
            r.name@ == name@,
            r.handler == handler,
    {
        Command { name, handler }
    }
}

/// Whether no two entries of a list share a name.
pub open spec fn unique_names<H>(entries: Seq<(String, H)>) -> bool {
    forall|i: int, j: int|
        0 <= i < entries.len() && 0 <= j < entries.len() && i != j ==> (#[trigger] entries[i]).0@ != (#[trigger] entries[j]).0@
}

/// Whether some entry of a list has name `k`.
pub open spec fn has_name<H>(entries: Seq<(String, H)>, k: Seq<char>) -> bool {
    exists|i: int| 0 <= i < entries.len() && (#[trigger] entries[i]).0@ == k
}

/// The map from name to handler that a list of entries holds.
pub open spec fn entries_map<H>(entries: Seq<(String, H)>) -> Map<Seq<char>, H> {
    Map::new(
        |k: Seq<char>| has_name(entries, k),
        |k: Seq<char>| entries[choose|i: int| 0 <= i < entries.len() && (#[trigger] entries[i]).0@ == k].1,
    )
}

proof fn lemma_entries_map_at<H>(entries: Seq<(String, H)>, i: int)
    requires
        unique_names(entries),
        0 <= i < entries.len(),
    ensures
        entries_map(entries).contains_key(entries[i].0@),
        entries_map(entries)[entries[i].0@] == entries[i].1,
{
    let k = entries[i].0@;
    assert(has_name(entries, k));
    let j = choose|j: int| 0 <= j < entries.len() && (#[trigger] entries[j]).0@ == k;
    assert(j == i);
}

/// Registry mapping command names to their handlers.
pub struct CommandRegistry<H> {
    commands: Vec<(String, H)>,
}

impl<H> CommandRegistry<H> {
    /// The registry's invariant: no name is registered twice.
    pub closed spec fn wf(&self) -> bool {
        unique_names(self.commands@)
    }

    /// The handler registered under each name.
    pub closed spec fn handlers(&self) -> Map<Seq<char>, H> {
        entries_map(self.commands@)
    }

    /// Create an empty registry.
    pub fn new() -> (r: Self)
        ensures
            r.wf(),
            r.handlers() == Map::<Seq<char>, H>::empty(),
    {
        let r = CommandRegistry { commands: Vec::new() };
        assert(r.handlers() =~= Map::<Seq<char>, H>::empty());
        r
    }

    fn find(&self, name: &str) -> (r: Option<usize>)
        ensures
            match r {
                Some(i) => i < self.commands@.len() && self.commands@[i as int].0@ == name@,
                None => !has_name(self.commands@, name@),
            },
    {
        let n = self.commands.len();
        let mut i: usize = 0;
        while i < n
            invariant
                n == self.commands@.len(),
                i <= n,
                forall|j: int| 0 <= j < i ==> (#[trigger] self.commands@[j]).0@ != name@,
            decreases n - i,
        {
            if str_eq(self.commands[i].0.as_str(), name) {
                return Some(i);
            }
            i = i + 1;
        }
        None
    }

    /// Register a command handler under `name`, replacing any handler
    /// registered under that name before.
    pub fn register(&mut self, name: String, handler: H)
        requires
            old(self).wf(),
        ensures
            final(self).wf(),
            final(self).handlers() == old(self).handlers().insert(name@, handler),
    {
        let ghost before = self.commands@;
        match self.find(name.as_str()) {
            Some(i) => {
                let ghost key = before[i as int].0;
                self.commands.set(i, (name, handler));
                proof {
                    let after = self.commands@;
                    assert(unique_names(after)) by {
                        assert forall|a: int, b: int|
                            0 <= a < after.len() && 0 <= b < after.len() && a != b implies (#[trigger] after[a]).0@ != (#[trigger] after[b]).0@ by {
                            assert(before[a].0@ != before[b].0@);
                        }
                    }
                    assert forall|k: Seq<char>| #![auto] has_name(after, k) <==> has_name(before, k) by {
                        if has_name(before, k) {
                            let j = choose|j: int| 0 <= j < before.len() && (#[trigger] before[j]).0@ == k;
                            assert(after[j].0@ == k);
                        }
                        if has_name(after, k) {
                            let j = choose|j: int| 0 <= j < after.len() && (#[trigger] after[j]).0@ == k;
                            assert(before[j].0@ == k);
                        }
                    }
                    assert forall|k: Seq<char>| #[trigger] entries_map(after).contains_key(k) implies
                        entries_map(after)[k] == entries_map(before).insert(name@, handler)[k] by {
                        let j = choose|j: int| 0 <= j < after.len() && (#[trigger] after[j]).0@ == k;
                        lemma_entries_map_at(after, j);
                        lemma_entries_map_at(before, j);
                    }
                    assert(entries_map(after) =~= entries_map(before).insert(name@, handler));
                }
            },
            None => {
                self.commands.push((name, handler));
                proof {
                    let after = self.commands@;
                    let n = before.len() as int;
                    assert(unique_names(after)) by {
                        assert forall|a: int, b: int|
                            0 <= a < after.len() && 0 <= b < after.len() && a != b implies (#[trigger] after[a]).0@ != (#[trigger] after[b]).0@ by {
                            if a < n && b < n {
                                assert(before[a].0@ != before[b].0@);
                            } else if a < n {
                                assert(after[a] == before[a]);
                            } else {
                                assert(after[b] == before[b]);
                            }
                        }
                    }
                    assert forall|k: Seq<char>| #![auto] has_name(after, k) <==> (has_name(before, k) || k == name@) by {
                        if has_name(before, k) {
                            let j = choose|j: int| 0 <= j < before.len() && (#[trigger] before[j]).0@ == k;
                            assert(after[j].0@ == k);
                        }
                        if k == name@ {
                            assert(after[n].0@ == k);
                        }
                        if has_name(after, k) {
                            let j = choose|j: int| 0 <= j < after.len() && (#[trigger] after[j]).0@ == k;
                            if j < n {
                                assert(before[j].0@ == k);
                            }
                        }
                    }
                    assert forall|k: Seq<char>| #[trigger] entries_map(after).contains_key(k) implies
                        entries_map(after)[k] == entries_map(before).insert(name@, handler)[k] by {
                        let j = choose|j: int| 0 <= j < after.len() && (#[trigger] after[j]).0@ == k;
                        lemma_entries_map_at(after, j);
                        if j < n {
                            assert(after[j] == before[j]);
                            lemma_entries_map_at(before, j);
                        }
                    }
                    assert(entries_map(after) =~= entries_map(before).insert(name@, handler));
                }
            },
        }
    }

    /// Register a pre-built [`Command`].
    pub fn add(&mut self, cmd: Command<H>)
        requires
            old(self).wf(),
        ensures
            final(self).wf(),
            final(self).handlers() == old(self).handlers().insert(cmd.name@, cmd.handler),
    {
        self.register(cmd.name, cmd.handler);
    }

    /// Look up a registered command by name. Returns `None` if not found.
    pub fn get(&self, name: &str) -> (r: Option<&H>)
        requires
            self.wf(),
        ensures
            match r {
                Some(h) => self.handlers().contains_key(name@) && self.handlers()[name@] == *h,
                None => !self.handlers().contains_key(name@),
            },
    {
        match self.find(name) {
            Some(i) => {
                proof {
                    lemma_entries_map_at(self.commands@, i as int);
                }
                Some(&self.commands[i].1)
            },
            None => None,
        }
    }
}

/// A registered handler is what a lookup of its name gives back, until the
/// name is registered again; registering a name leaves the other names'
/// handlers as they were.
pub proof fn lemma_register_then_get<H>(handlers: Map<Seq<char>, H>, name: Seq<char>, other: Seq<char>, h: H)
    ensures
        handlers.insert(name, h).contains_key(name),
        handlers.insert(name, h)[name] == h,
        other != name ==> handlers.insert(name, h).contains_key(other) == handlers.contains_key(other),
        other != name ==> handlers.insert(name, h)[other] == handlers[other],
{
}

} // verus!
