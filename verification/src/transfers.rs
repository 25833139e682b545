//! SFTP transfer ownership: transfer ids allocated by the GUI, each recorded
//! with the SFTP session that issued it, so progress events reach the right tab.

use std::collections::HashMap;
use vstd::prelude::*;

use crate::registry::SessionId;

verus! {

broadcast use vstd::std_specs::hash::group_hash_axioms;

/// A transfer id allocated by the GUI for one upload or download.
pub type TransferId = u64;

/// Transfer id -> owning SFTP session, with the monotonic transfer id source.
pub struct TransferTable {
    next: TransferId,
    owner: HashMap<TransferId, SessionId>,
}

impl TransferTable {
    /// The last transfer id handed out; `0` before the first.
    pub closed spec fn last_id(&self) -> nat {
        self.next as nat
    }

    /// The owning session of every transfer still tracked.
    pub closed spec fn owners(&self) -> Map<TransferId, SessionId> {
        self.owner@
    }

    /// Every tracked transfer id was handed out (it lies in `1..=last_id`).
    pub closed spec fn wf(&self) -> bool {
        forall|t: TransferId| #[trigger] self.owner@.contains_key(t) ==> 1 <= t <= self.next
    }

    /// An empty table: no transfer allocated yet.
    pub fn new() -> (table: Self)
        ensures
            table.wf(),
            table.last_id() == 0,
            table.owners() == Map::<TransferId, SessionId>::empty(),
    {
        TransferTable { next: 0, owner: HashMap::new() }
    }

    /// Allocate a transfer id owned by `session_id`, so its progress events
    /// route back to the right tab.
    pub fn next_transfer(&mut self, session_id: SessionId) -> (id: TransferId)
        requires
            old(self).wf(),
            old(self).last_id() < u64::MAX,
        ensures
            final(self).wf(),
            id == old(self).last_id() + 1,
            final(self).last_id() == id,
            !old(self).owners().contains_key(id),
            final(self).owners() == old(self).owners().insert(id, session_id),
    {
        self.next = self.next + 1;
        let id = self.next;
        self.owner.insert(id, session_id);
        id
    }

    /// The session that owns a transfer id, for progress routing.
    pub fn transfer_session(&self, transfer_id: TransferId) -> (owner: Option<SessionId>)
        ensures
            owner == (if self.owners().contains_key(transfer_id) {
                Some(self.owners()[transfer_id])
            } else {
                None
            }),
    {
        match self.owner.get(&transfer_id) {
            Some(s) => Some(*s),
            None => None,
        }
    }

    /// An SFTP session closed: forget every transfer it owns, keep all others.
    pub fn close_sftp(&mut self, session_id: SessionId)
        requires
            old(self).wf(),
        ensures
            final(self).wf(),
            final(self).last_id() == old(self).last_id(),
            forall|t: TransferId| #[trigger] final(self).owners().contains_key(t) <==> (
                old(self).owners().contains_key(t) && old(self).owners()[t] != session_id),
            forall|t: TransferId| #[trigger] final(self).owners().contains_key(t) ==>
                final(self).owners()[t] == old(self).owners()[t],
    {
        let ghost start = self.owner@;
        let ghost next0 = self.next;
        // First pass: collect the transfers owned by the closed session. Every
        // such transfer not collected yet still lies ahead of the key iterator.
        let mut doomed: Vec<TransferId> = Vec::new();
        for t in it: self.owner.keys()
            invariant
                self.owner@ == start,
                it.seq().unref().to_set() == start.dom(),
                self.next == next0,
                forall|x: TransferId| #[trigger] start.contains_key(x) ==> 1 <= x <= next0,
                forall|j: int| 0 <= j < doomed@.len() ==> {
                    &&& start.contains_key(#[trigger] doomed@[j])
                    &&& start[doomed@[j]] == session_id
                },
                forall|x: TransferId| #[trigger] start.contains_key(x) && start[x] == session_id
                    && !doomed@.contains(x) ==> exists|j: int|
                    it.index() <= j < it.seq().len() && *it.seq()[j] == x,
        {
            let ghost i = it.index();
            let ghost d0 = doomed@;
            match self.owner.get(t) {
                Some(s) => {
                    if *s == session_id {
                        doomed.push(*t);
                    }
                },
                None => {},
            }
            assert forall|x: TransferId| #[trigger] start.contains_key(x) && start[x] == session_id
                && !doomed@.contains(x) implies exists|j: int|
                i + 1 <= j < it.seq().len() && *it.seq()[j] == x by {
                if !d0.contains(x) {
                    let j = choose|j: int| i <= j < it.seq().len() && *it.seq()[j] == x;
                    if j == i {
                        assert(doomed@[doomed@.len() - 1] == x);
                    }
                } else {
                    let k = choose|k: int| 0 <= k < d0.len() && d0[k] == x;
                    assert(doomed@[k] == x);
                }
            }
        }
        assert(forall|x: TransferId| #[trigger] start.contains_key(x) && start[x] == session_id
            ==> doomed@.contains(x));
        // Second pass: forget them.
        let n = doomed.len();
        for k in 0..n
            invariant
                n == doomed@.len(),
                forall|j: int| 0 <= j < doomed@.len() ==> {
                    &&& start.contains_key(#[trigger] doomed@[j])
                    &&& start[doomed@[j]] == session_id
                },
                forall|t: TransferId| #[trigger] self.owner@.contains_key(t) <==> (
                    start.contains_key(t) && forall|j: int| 0 <= j < k ==> #[trigger] doomed@[j] != t),
                forall|t: TransferId| #[trigger] self.owner@.contains_key(t) ==>
                    self.owner@[t] == start[t],
                self.next == next0,
                forall|x: TransferId| #[trigger] start.contains_key(x) ==> 1 <= x <= next0,
        {
            self.owner.remove(&doomed[k]);
        }
        proof {
            assert forall|t: TransferId| #[trigger] self.owner@.contains_key(t) <==> (
                start.contains_key(t) && start[t] != session_id) by {
                if start.contains_key(t) && start[t] == session_id {
                    assert(doomed@.contains(t));
                    let j = choose|j: int| 0 <= j < doomed@.len() && doomed@[j] == t;
                    assert(doomed@[j] == t);
                }
            }
        }
    }
}

} // verus!
