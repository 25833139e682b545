//! The session registry: frontend-facing public session ids drawn from one
//! monotonic space, and the two-way mapping between a terminal's public id and
//! the inner id of the PTY session behind it.

use std::collections::HashMap;
use vstd::prelude::*;

verus! {

broadcast use vstd::std_specs::hash::group_hash_axioms;

/// A session id, public (frontend-facing) or inner (the PTY manager's own).
pub type SessionId = u64;

/// Maps frontend-facing **public** session ids to the PTY manager's **inner**
/// ids, and back for terminals. A single monotonic id space keeps terminal and
/// SFTP ids from ever colliding in the frontend.
pub struct SessionRegistry {
    next: SessionId,
    pty_by_public: HashMap<SessionId, SessionId>,
    public_by_pty: HashMap<SessionId, SessionId>,
}

impl SessionRegistry {
    /// The last public id handed out; `0` before the first.
    pub closed spec fn last_id(&self) -> nat {
        self.next as nat
    }

    /// Live terminals: public id -> inner PTY id.
    pub closed spec fn terminals(&self) -> Map<SessionId, SessionId> {
        self.pty_by_public@
    }

    /// The reverse routes used on a remote exit: inner PTY id -> public id.
    pub closed spec fn exits(&self) -> Map<SessionId, SessionId> {
        self.public_by_pty@
    }

    /// Well-formedness: every live public id was handed out (it lies in
    /// `1..=last_id`), and every reverse route points back at a live terminal
    /// backed by that very inner id.
    pub closed spec fn wf(&self) -> bool {
        &&& forall|p: SessionId| #[trigger] self.pty_by_public@.contains_key(p) ==> 1 <= p <= self.next
        &&& forall|i: SessionId| #[trigger] self.public_by_pty@.contains_key(i) ==> {
            &&& self.pty_by_public@.contains_key(self.public_by_pty@[i])
            &&& self.pty_by_public@[self.public_by_pty@[i]] == i
        }
    }

    /// An empty registry: no id handed out yet, no terminals.
    pub fn new() -> (reg: Self)
        ensures
            reg.wf(),
            reg.last_id() == 0,
            reg.terminals() == Map::<SessionId, SessionId>::empty(),
            reg.exits() == Map::<SessionId, SessionId>::empty(),
    {
        SessionRegistry { next: 0, pty_by_public: HashMap::new(), public_by_pty: HashMap::new() }
    }

    /// Allocate a fresh public id from the shared monotonic space. SFTP sessions
    /// use this directly — they are keyed by their public id, with no inner
    /// mapping — so terminal and SFTP ids can never collide in the frontend.
    pub fn allocate(&mut self) -> (id: SessionId)
        requires
            old(self).wf(),
            old(self).last_id() < u64::MAX,
        ensures
            final(self).wf(),
            id == old(self).last_id() + 1,
            final(self).last_id() == id,
            !old(self).terminals().contains_key(id),
            final(self).terminals() == old(self).terminals(),
            final(self).exits() == old(self).exits(),
    {
        self.next = self.next + 1;
        self.next
    }

    /// Allocate a fresh public id for a terminal backed by PTY inner id `inner`.
    pub fn register_terminal(&mut self, inner: SessionId) -> (public: SessionId)
        requires
            old(self).wf(),
            old(self).last_id() < u64::MAX,
        ensures
            final(self).wf(),
            public == old(self).last_id() + 1,
            final(self).last_id() == public,
            !old(self).terminals().contains_key(public),
            final(self).terminals() == old(self).terminals().insert(public, inner),
            final(self).exits() == old(self).exits().insert(inner, public),
    {
        let public = self.allocate();
        self.pty_by_public.insert(public, inner);
        self.public_by_pty.insert(inner, public);
        public
    }

    /// The PTY inner id for a public id (command -> core), if the session is live.
    pub fn pty_inner(&self, public: SessionId) -> (inner: Option<SessionId>)
        ensures
            inner == (if self.terminals().contains_key(public) {
                Some(self.terminals()[public])
            } else {
                None
            }),
    {
        match self.pty_by_public.get(&public) {
            Some(inner) => Some(*inner),
            None => None,
        }
    }

    /// Drop a terminal by public id (user-initiated close), returning its inner id.
    pub fn remove_by_public(&mut self, public: SessionId) -> (inner: Option<SessionId>)
        requires
            old(self).wf(),
        ensures
            final(self).wf(),
            final(self).last_id() == old(self).last_id(),
            match inner {
                Some(i) => {
                    &&& old(self).terminals().contains_key(public)
                    &&& i == old(self).terminals()[public]
                    &&& final(self).terminals() == old(self).terminals().remove(public)
                    &&& final(self).exits() == old(self).exits().remove(i)
                },
                None => {
                    &&& !old(self).terminals().contains_key(public)
                    &&& final(self).terminals() == old(self).terminals()
                    &&& final(self).exits() == old(self).exits()
                },
            },
    {
        let inner = match self.pty_by_public.remove(&public) {
            Some(i) => i,
            None => return None,
        };
        self.public_by_pty.remove(&inner);
        Some(inner)
    }

    /// Drop a terminal by inner id (remote exit), returning its public id.
    pub fn remove_by_pty(&mut self, inner: SessionId) -> (public: Option<SessionId>)
        requires
            old(self).wf(),
        ensures
            final(self).wf(),
            final(self).last_id() == old(self).last_id(),
            match public {
                Some(p) => {
                    &&& old(self).exits().contains_key(inner)
                    &&& p == old(self).exits()[inner]
                    &&& old(self).terminals().contains_key(p)
                    &&& old(self).terminals()[p] == inner
                    &&& final(self).exits() == old(self).exits().remove(inner)
                    &&& final(self).terminals() == old(self).terminals().remove(p)
                },
                None => {
                    &&& !old(self).exits().contains_key(inner)
                    &&& final(self).terminals() == old(self).terminals()
                    &&& final(self).exits() == old(self).exits()
                },
            },
    {
        let public = match self.public_by_pty.remove(&inner) {
            Some(p) => p,
            None => return None,
        };
        self.pty_by_public.remove(&public);
        Some(public)
    }
}

impl Default for SessionRegistry {
    /// The same as [`SessionRegistry::new`].
    fn default() -> (reg: Self)
        ensures
            reg.wf(),
            reg.last_id() == 0,
            reg.terminals() == Map::<SessionId, SessionId>::empty(),
            reg.exits() == Map::<SessionId, SessionId>::empty(),
    {
        SessionRegistry::new()
    }
}

/// No live terminal uses an id beyond the last one handed out, so a freshly
/// allocated public id never collides with a live session.
pub proof fn lemma_unallocated_ids_are_free(reg: SessionRegistry, id: SessionId)
    requires
        reg.wf(),
        id > reg.last_id(),
    ensures
        !reg.terminals().contains_key(id),
{
}

/// Every reverse route points back at a live terminal backed by that inner id:
/// a remote exit always resolves to the terminal it belongs to.
pub proof fn lemma_exit_route_names_live_terminal(reg: SessionRegistry, inner: SessionId)
    requires
        reg.wf(),
        reg.exits().contains_key(inner),
    ensures
        reg.terminals().contains_key(reg.exits()[inner]),
        reg.terminals()[reg.exits()[inner]] == inner,
{
}

/// A terminal just registered resolves both ways: its public id to the inner
/// id (for commands), and the inner id back to its public id (for the exit
/// event).
pub proof fn lemma_registered_terminal_resolves_both_ways(
    before: SessionRegistry,
    after: SessionRegistry,
    inner: SessionId,
    public: SessionId,
)
    requires
        after.terminals() == before.terminals().insert(public, inner),
        after.exits() == before.exits().insert(inner, public),
    ensures
        after.terminals().contains_key(public),
        after.terminals()[public] == inner,
        after.exits().contains_key(inner),
        after.exits()[inner] == public,
{
}

/// Removing a terminal (by public id or by inner id) clears both directions
/// and leaves every other terminal exactly as it was.
pub proof fn lemma_removed_terminal_is_gone_others_intact(
    before: SessionRegistry,
    after: SessionRegistry,
    public: SessionId,
    inner: SessionId,
)
    requires
        before.wf(),
        after.terminals() == before.terminals().remove(public),
        after.exits() == before.exits().remove(inner),
    ensures
        !after.terminals().contains_key(public),
        !after.exits().contains_key(inner),
        forall|q: SessionId| q != public ==> (#[trigger] after.terminals().contains_key(q)
            <==> before.terminals().contains_key(q)),
        forall|q: SessionId| q != public && after.terminals().contains_key(q) ==>
            #[trigger] after.terminals()[q] == before.terminals()[q],
{
}

} // verus!
