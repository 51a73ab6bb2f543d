//! The primary side of the proxy protocol: the table mapping each session
//! id to the engine connection/transaction context that serves its
//! forwarded statements. An entry is created lazily on a session's first
//! statement, removed on its disconnect notification, and reclaimed after
//! an idle period as a backstop for clients that vanished.

use vstd::prelude::*;
use vstd::pervasive::VecAdditionalExecFns;

verus! {

/// One live session: its id, the engine context designated for it, and the
/// tick of its last use (for idle reclamation).
#[derive(Clone, Copy, Debug, PartialEq, Eq, Structural)]
pub struct SessionEntry {
    pub session_id: u128,
    pub context_id: u64,
    pub last_active: u64,
}

/// The table of live sessions. Engine contexts are designated by
/// `context_id`, handed out from a counter that never repeats.
pub struct SessionTable {
    pub entries: Vec<SessionEntry>,
    pub next_context: u64,
}

/// An entry is idle at `now` once `timeout` ticks have passed since its
/// last use.
pub open spec fn expired_spec(e: SessionEntry, now: u64, timeout: u64) -> bool {
    e.last_active + timeout <= now
}

/// Whether `e` occurs among the first `n` entries of `s`.
pub open spec fn among(e: SessionEntry, s: Seq<SessionEntry>, n: int) -> bool {
    exists|j: int| 0 <= j < n && s[j] == e
}

proof fn among_witness(e: SessionEntry, s: Seq<SessionEntry>, n: int) -> (j: int)
    requires
        among(e, s, n),
    ensures
        0 <= j < n && s[j] == e,
{
    choose|j: int| 0 <= j < n && s[j] == e
}

impl SessionTable {
    /// Each session id designates at most one live entry, every context id
    /// was handed out at most once, and all of them are below the counter.
    pub open spec fn wf(self) -> bool {
        &&& forall|i: int, j: int|
            0 <= i < j < self.entries@.len() ==> (#[trigger] self.entries@[i]).session_id != (
            #[trigger] self.entries@[j]).session_id
        &&& forall|i: int, j: int|
            0 <= i < j < self.entries@.len() ==> (#[trigger] self.entries@[i]).context_id != (
            #[trigger] self.entries@[j]).context_id
        &&& forall|i: int|
            0 <= i < self.entries@.len() ==> (#[trigger] self.entries@[i]).context_id
                < self.next_context
    }

    /// Whether a live entry exists for the session.
    pub open spec fn has_session(self, session_id: u128) -> bool {
        exists|i: int|
            0 <= i < self.entries@.len() && (#[trigger] self.entries@[i]).session_id == session_id
    }

    pub fn new() -> (t: SessionTable)
        ensures
            t.wf(),
            t.entries@.len() == 0,
    {
        SessionTable { entries: Vec::new(), next_context: 0 }
    }

    /// Look up the entry for a session, creating one lazily on its first
    /// forwarded statement. Returns the context id designated for the
    /// session; an existing entry keeps its context and is marked used at
    /// `now`, so idle reclamation spares it.
    pub fn lookup_or_create(&mut self, session_id: u128, now: u64) -> (ctx: u64)
        requires
            old(self).wf(),
            old(self).next_context < u64::MAX,
        ensures
            final(self).wf(),
            final(self).has_session(session_id),
            old(self).has_session(session_id) ==> {
                &&& final(self).next_context == old(self).next_context
                &&& exists|i: int|
                    {
                        &&& 0 <= i < old(self).entries@.len()
                        &&& (#[trigger] old(self).entries@[i]).session_id == session_id
                        &&& ctx == old(self).entries@[i].context_id
                        &&& final(self).entries@ == old(self).entries@.update(
                            i,
                            SessionEntry {
                                session_id,
                                context_id: old(self).entries@[i].context_id,
                                last_active: now,
                            },
                        )
                    }
            },
            !old(self).has_session(session_id) ==> {
                &&& ctx == old(self).next_context
                &&& final(self).next_context == old(self).next_context + 1
                &&& final(self).entries@ == old(self).entries@.push(
                    SessionEntry { session_id, context_id: ctx, last_active: now },
                )
            },
    {
        let mut i: usize = 0;
        while i < self.entries.len()
            invariant
                self == old(self),
                old(self).wf(),
                i <= self.entries@.len(),
                forall|k: int|
                    0 <= k < i ==> (#[trigger] self.entries@[k]).session_id != session_id,
            decreases self.entries@.len() - i,
        {
            if self.entries[i].session_id == session_id {
                let ctx = self.entries[i].context_id;
                self.entries.set(
                    i,
                    SessionEntry { session_id, context_id: ctx, last_active: now },
                );
                proof {
                    assert(self.entries@[i as int].session_id == session_id);
                    assert forall|a: int, b: int|
                        0 <= a < b < self.entries@.len() implies (
                    #[trigger] self.entries@[a]).session_id != (
                    #[trigger] self.entries@[b]).session_id && self.entries@[a].context_id
                        != self.entries@[b].context_id by {
                        assert(old(self).entries@[a].session_id != old(self).entries@[b].session_id);
                        assert(old(self).entries@[a].context_id != old(self).entries@[b].context_id);
                        assert(a != i ==> self.entries@[a] == old(self).entries@[a]);
                        assert(b != i ==> self.entries@[b] == old(self).entries@[b]);
                    }
                    assert forall|a: int|
                        0 <= a < self.entries@.len() implies (
                    #[trigger] self.entries@[a]).context_id < self.next_context by {
                        assert(a != i ==> self.entries@[a] == old(self).entries@[a]);
                    }
                    assert(self.wf());
                }
                return ctx;
            }
            i += 1;
        }
        let ctx = self.next_context;
        self.next_context = self.next_context + 1;
        self.entries.push(SessionEntry { session_id, context_id: ctx, last_active: now });
        proof {
            let n0 = old(self).entries@.len() as int;
            assert(self.entries@[n0].session_id == session_id);
            assert(forall|k: int|
                0 <= k < n0 ==> #[trigger] self.entries@[k] == old(self).entries@[k]);
            assert forall|a: int, b: int|
                0 <= a < b < self.entries@.len() implies (
            #[trigger] self.entries@[a]).session_id != (#[trigger] self.entries@[b]).session_id
                && self.entries@[a].context_id != self.entries@[b].context_id by {
                if b < n0 {
                    assert(old(self).entries@[a].session_id != old(self).entries@[b].session_id);
                    assert(old(self).entries@[a].context_id != old(self).entries@[b].context_id);
                } else {
                    assert(self.entries@[a].session_id != session_id);
                    assert(self.entries@[a].context_id < old(self).next_context);
                }
            }
            assert forall|a: int|
                0 <= a < self.entries@.len() implies (#[trigger] self.entries@[a]).context_id
                < self.next_context by {
                if a < n0 {
                    assert(self.entries@[a].context_id < old(self).next_context);
                }
            }
            assert(self.wf());
        }
        ctx
    }

    /// Handle a disconnect notification: remove the session's entry, if
    /// any, releasing its engine context. Every other session is untouched.
    pub fn disconnect(&mut self, session_id: u128) -> (found: bool)
        requires
            old(self).wf(),
        ensures
            final(self).wf(),
            final(self).next_context == old(self).next_context,
            !final(self).has_session(session_id),
            found == old(self).has_session(session_id),
            found ==> exists|i: int|
                {
                    &&& 0 <= i < old(self).entries@.len()
                    &&& (#[trigger] old(self).entries@[i]).session_id == session_id
                    &&& final(self).entries@ == old(self).entries@.remove(i)
                },
            !found ==> final(self).entries@ == old(self).entries@,
    {
        let mut i: usize = 0;
        while i < self.entries.len()
            invariant
                self == old(self),
                old(self).wf(),
                i <= self.entries@.len(),
                forall|k: int|
                    0 <= k < i ==> (#[trigger] self.entries@[k]).session_id != session_id,
            decreases self.entries@.len() - i,
        {
            if self.entries[i].session_id == session_id {
                proof {
                    assert(old(self).entries@[i as int].session_id == session_id);
                }
                self.entries.remove(i);
                proof {
                    old(self).entries@.remove_ensures(i as int);
                    assert forall|j: int|
                        0 <= j < self.entries@.len() implies (
                    #[trigger] self.entries@[j]).session_id != session_id by {
                        if j < i {
                            assert(self.entries@[j] == old(self).entries@[j]);
                        } else {
                            assert(self.entries@[j] == old(self).entries@[j + 1]);
                        }
                    }
                    assert forall|a: int, b: int|
                        0 <= a < b < self.entries@.len() implies (
                    #[trigger] self.entries@[a]).session_id != (
                    #[trigger] self.entries@[b]).session_id && self.entries@[a].context_id
                        != self.entries@[b].context_id by {
                        let a0: int = if a < i { a } else { a + 1 };
                        let b0: int = if b < i { b } else { b + 1 };
                        assert(self.entries@[a] == old(self).entries@[a0]);
                        assert(self.entries@[b] == old(self).entries@[b0]);
                    }
                }
                return true;
            }
            i += 1;
        }
        false
    }

    /// Reclaim idle sessions: every entry idle at `now` is removed, every
    /// entry still in use is kept as it was, and no session appears twice
    /// afterwards.
    pub fn reap_idle(&mut self, now: u64, timeout: u64)
        requires
            old(self).wf(),
        ensures
            final(self).wf(),
            final(self).next_context == old(self).next_context,
            forall|k: int|
                0 <= k < final(self).entries@.len() ==> !expired_spec(
                    (#[trigger] final(self).entries@[k]),
                    now,
                    timeout,
                ),
            forall|k: int|
                0 <= k < final(self).entries@.len() ==> among(
                    (#[trigger] final(self).entries@[k]),
                    old(self).entries@,
                    old(self).entries@.len() as int,
                ),
            forall|j: int|
                0 <= j < old(self).entries@.len() && !expired_spec(
                    (#[trigger] old(self).entries@[j]),
                    now,
                    timeout,
                ) ==> among(
                    old(self).entries@[j],
                    final(self).entries@,
                    final(self).entries@.len() as int,
                ),
    {
        let n = self.entries.len();
        let mut kept: Vec<SessionEntry> = Vec::new();
        let mut i: usize = 0;
        while i < n
            invariant
                self == old(self),
                old(self).wf(),
                n == self.entries@.len(),
                i <= n,
                forall|k1: int, k2: int|
                    0 <= k1 < k2 < kept@.len() ==> (#[trigger] kept@[k1]).session_id != (
                    #[trigger] kept@[k2]).session_id,
                forall|k1: int, k2: int|
                    0 <= k1 < k2 < kept@.len() ==> (#[trigger] kept@[k1]).context_id != (
                    #[trigger] kept@[k2]).context_id,
                forall|k: int|
                    0 <= k < kept@.len() ==> !expired_spec((#[trigger] kept@[k]), now, timeout),
                forall|k: int|
                    0 <= k < kept@.len() ==> among((#[trigger] kept@[k]), self.entries@, i as int),
                forall|j: int|
                    0 <= j < i && !expired_spec((#[trigger] self.entries@[j]), now, timeout)
                        ==> among(self.entries@[j], kept@, kept@.len() as int),
            decreases n - i,
        {
            let e = self.entries[i];
            let idle = match now.checked_sub(e.last_active) {
                Some(age) => age >= timeout,
                None => false,
            };
            if !idle {
                proof {
                    assert forall|k: int|
                        0 <= k < kept@.len() implies (#[trigger] kept@[k]).session_id
                        != e.session_id && kept@[k].context_id != e.context_id by {
                        let j = among_witness(kept@[k], self.entries@, i as int);
                        assert(self.entries@[j].session_id != self.entries@[i as int].session_id);
                        assert(self.entries@[j].context_id != self.entries@[i as int].context_id);
                    }
                }
                let ghost kept0 = kept@;
                kept.push(e);
                proof {
                    assert forall|k: int|
                        0 <= k < kept@.len() implies among(
                        (#[trigger] kept@[k]),
                        self.entries@,
                        i + 1,
                    ) by {
                        if k < kept@.len() - 1 {
                            assert(kept@[k] == kept0[k]);
                            let j0 = among_witness(kept0[k], self.entries@, i as int);
                            assert(self.entries@[j0] == kept@[k]);
                        } else {
                            assert(self.entries@[i as int] == kept@[k]);
                        }
                    }
                    assert forall|j: int|
                        0 <= j < i + 1 && !expired_spec(
                            (#[trigger] self.entries@[j]),
                            now,
                            timeout,
                        ) implies among(self.entries@[j], kept@, kept@.len() as int) by {
                        if j < i {
                            let k0 = among_witness(self.entries@[j], kept0, kept0.len() as int);
                            assert(kept@[k0] == self.entries@[j]);
                        } else {
                            assert(kept@[kept@.len() - 1] == self.entries@[j]);
                        }
                    }
                }
            }
            i += 1;
        }
        self.entries = kept;
        proof {
            assert forall|a: int|
                0 <= a < self.entries@.len() implies (#[trigger] self.entries@[a]).context_id
                < self.next_context by {
                let j = among_witness(
                    self.entries@[a],
                    old(self).entries@,
                    old(self).entries@.len() as int,
                );
            }
            assert(self.wf());
        }
    }
}

} // verus!
