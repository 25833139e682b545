//! Terminal output routing. A fast server can emit its banner and prompt before
//! the frontend has recorded the new session id; that output is held per
//! terminal until the frontend acknowledges it is ready, then released in
//! arrival order. After the acknowledgement output passes straight through.

use std::collections::HashMap;
use vstd::prelude::*;

use crate::registry::SessionId;

verus! {

broadcast use vstd::std_specs::hash::group_hash_axioms;

/// One terminal's output route: chunks held back until the frontend is ready.
#[derive(Debug)]
pub struct TerminalRoute {
    pub pending: Vec<Vec<u8>>,
    pub ready: bool,
}

/// What became of one chunk of terminal output.
#[derive(Debug, PartialEq, Eq)]
pub enum Delivery {
    /// The frontend is ready: send this chunk now.
    Send(Vec<u8>),
    /// The frontend is not ready yet: the chunk was held in order.
    Held,
    /// No route exists for that terminal (unknown or closed): the chunk is dropped.
    Dropped,
}

/// Output routes of all terminals, keyed by inner PTY id.
pub struct TerminalRoutes {
    routes: HashMap<SessionId, TerminalRoute>,
}

/// The byte content of each chunk, in order.
pub open spec fn chunks_view(chunks: Seq<Vec<u8>>) -> Seq<Seq<u8>> {
    chunks.map_values(|c: Vec<u8>| c@)
}

/// The abstract state of one route: the held chunks, in order, and whether the
/// frontend has acknowledged the session.
pub open spec fn route_state(route: TerminalRoute) -> (Seq<Seq<u8>>, bool) {
    (chunks_view(route.pending@), route.ready)
}

/// The routes after a chunk of output `chunk` arrived for terminal `inner`: held
/// when the route exists and is not ready yet, no change otherwise.
pub open spec fn after_output(
    routes: Map<SessionId, (Seq<Seq<u8>>, bool)>,
    inner: SessionId,
    chunk: Seq<u8>,
) -> Map<SessionId, (Seq<Seq<u8>>, bool)> {
    if routes.contains_key(inner) && !routes[inner].1 {
        routes.insert(inner, (routes[inner].0.push(chunk), false))
    } else {
        routes
    }
}

/// The routes after the chunks `chunks` arrived for `inner`, one after another.
pub open spec fn after_outputs(
    routes: Map<SessionId, (Seq<Seq<u8>>, bool)>,
    inner: SessionId,
    chunks: Seq<Seq<u8>>,
) -> Map<SessionId, (Seq<Seq<u8>>, bool)>
    decreases chunks.len(),
{
    if chunks.len() == 0 {
        routes
    } else {
        after_output(after_outputs(routes, inner, chunks.drop_last()), inner, chunks.last())
    }
}

impl TerminalRoutes {
    /// Every route's held chunks and readiness, by inner PTY id.
    pub closed spec fn state(&self) -> Map<SessionId, (Seq<Seq<u8>>, bool)> {
        self.routes@.map_values(|r: TerminalRoute| route_state(r))
    }

    /// No routes.
    pub fn new() -> (routes: Self)
        ensures
            routes.state() == Map::<SessionId, (Seq<Seq<u8>>, bool)>::empty(),
    {
        let routes = TerminalRoutes { routes: HashMap::new() };
        assert(routes.state() =~= Map::<SessionId, (Seq<Seq<u8>>, bool)>::empty());
        routes
    }

    /// Start routing the output of terminal `inner`: nothing held, not ready.
    /// A route already under that id is replaced.
    pub fn open_route(&mut self, inner: SessionId)
        ensures
            final(self).state() == old(self).state().insert(inner, (Seq::<Seq<u8>>::empty(), false)),
    {
        let route = TerminalRoute { pending: Vec::new(), ready: false };
        assert(route_state(route) == (Seq::<Seq<u8>>::empty(), false)) by {
            assert(chunks_view(route.pending@) =~= Seq::<Seq<u8>>::empty());
        }
        self.routes.insert(inner, route);
        assert(self.state() =~= old(self).state().insert(inner, (Seq::<Seq<u8>>::empty(), false)));
    }

    /// The route of terminal `inner`, if it has one.
    pub fn route(&self, inner: SessionId) -> (route: Option<&TerminalRoute>)
        ensures
            match route {
                Some(r) => self.state().contains_key(inner) && route_state(*r) == self.state()[inner],
                None => !self.state().contains_key(inner),
            },
    {
        self.routes.get(&inner)
    }

    /// Route a chunk of output of terminal `inner`: sent on when the frontend is
    /// ready, held in order when it is not, dropped when the terminal has no route.
    pub fn send_terminal_output(&mut self, inner: SessionId, bytes: Vec<u8>) -> (d: Delivery)
        ensures
            final(self).state() == after_output(old(self).state(), inner, bytes@),
            !old(self).state().contains_key(inner) ==> d == Delivery::Dropped,
            old(self).state().contains_key(inner) && old(self).state()[inner].1 ==> d
                == Delivery::Send(bytes),
            old(self).state().contains_key(inner) && !old(self).state()[inner].1 ==> d
                == Delivery::Held,
    {
        let ready = match self.routes.get(&inner) {
            Some(route) => route.ready,
            None => {
                return Delivery::Dropped;
            },
        };
        if ready {
            return Delivery::Send(bytes);
        }
        let ghost before = self.state();
        let mut route = self.routes.remove(&inner).unwrap();
        let ghost held = chunks_view(route.pending@);
        route.pending.push(bytes);
        assert(chunks_view(route.pending@) =~= held.push(bytes@));
        self.routes.insert(inner, route);
        assert(self.state() =~= after_output(before, inner, bytes@));
        Delivery::Held
    }

    /// The frontend acknowledged terminal `inner`: mark its route ready and
    /// return the chunks held so far, in arrival order, to be sent now.
    /// `None` when the terminal has no route.
    pub fn ready_terminal(&mut self, inner: SessionId) -> (flushed: Option<Vec<Vec<u8>>>)
        ensures
            match flushed {
                Some(chunks) => {
                    &&& old(self).state().contains_key(inner)
                    &&& chunks_view(chunks@) == old(self).state()[inner].0
                    &&& final(self).state() == old(self).state().insert(
                        inner,
                        (Seq::<Seq<u8>>::empty(), true),
                    )
                },
                None => {
                    &&& !old(self).state().contains_key(inner)
                    &&& final(self).state() == old(self).state()
                },
            },
    {
        let ghost before = self.state();
        let route = match self.routes.remove(&inner) {
            Some(r) => r,
            None => {
                return None;
            },
        };
        let fresh = TerminalRoute { pending: Vec::new(), ready: true };
        assert(chunks_view(fresh.pending@) =~= Seq::<Seq<u8>>::empty());
        self.routes.insert(inner, fresh);
        assert(self.state() =~= before.insert(inner, (Seq::<Seq<u8>>::empty(), true)));
        Some(route.pending)
    }

    /// Stop routing the output of terminal `inner`; later chunks are dropped.
    pub fn close_route(&mut self, inner: SessionId)
        ensures
            final(self).state() == old(self).state().remove(inner),
    {
        self.routes.remove(&inner);
        assert(self.state() =~= old(self).state().remove(inner));
    }
}

/// Output that arrives before the frontend is ready is held, and released in
/// arrival order: after any run of chunks on a route that is not ready yet, the
/// route holds what it held before followed by exactly those chunks.
pub proof fn lemma_held_output_keeps_arrival_order(
    routes: Map<SessionId, (Seq<Seq<u8>>, bool)>,
    inner: SessionId,
    chunks: Seq<Seq<u8>>,
)
    requires
        routes.contains_key(inner),
        !routes[inner].1,
    ensures
        after_outputs(routes, inner, chunks).contains_key(inner),
        after_outputs(routes, inner, chunks)[inner] == (routes[inner].0 + chunks, false),
        forall|other: SessionId| other != inner ==> #[trigger] after_outputs(routes, inner, chunks).contains_key(other)
            == routes.contains_key(other),
    decreases chunks.len(),
{
    if chunks.len() == 0 {
        assert(routes[inner].0 + chunks =~= routes[inner].0);
    } else {
        lemma_held_output_keeps_arrival_order(routes, inner, chunks.drop_last());
        assert(routes[inner].0 + chunks.drop_last() + seq![chunks.last()] =~= routes[inner].0 + chunks);
    }
}

/// Once the frontend is ready, or when a terminal has no route, output is
/// never held: the routes stay as they are.
pub proof fn lemma_output_after_ready_is_not_held(
    routes: Map<SessionId, (Seq<Seq<u8>>, bool)>,
    inner: SessionId,
    chunk: Seq<u8>,
)
    requires
        !routes.contains_key(inner) || routes[inner].1,
    ensures
        after_output(routes, inner, chunk) == routes,
{
}

/// The byte view of a list of chunks has one entry per chunk, in order, each
/// with that chunk's bytes.
pub proof fn law_chunks_view_is_chunk_by_chunk(chunks: Seq<Vec<u8>>)
    ensures
        chunks_view(chunks).len() == chunks.len(),
        forall|i: int| 0 <= i < chunks.len() ==> #[trigger] chunks_view(chunks)[i] == chunks[i]@,
{
}

/// A route's abstract state is its held chunks, chunk by chunk, and its
/// readiness.
pub proof fn law_route_state_is_pending_and_ready(route: TerminalRoute)
    ensures
        route_state(route).1 == route.ready,
        route_state(route).0.len() == route.pending@.len(),
        forall|i: int| 0 <= i < route.pending@.len() ==> #[trigger] route_state(route).0[i]
            == route.pending@[i]@,
{
}

/// A chunk for a route that is not ready yet is appended to that route's held
/// chunks, which stays not ready; every other route stays as it is.
pub proof fn law_output_before_ready_is_appended(
    routes: Map<SessionId, (Seq<Seq<u8>>, bool)>,
    inner: SessionId,
    chunk: Seq<u8>,
)
    requires
        routes.contains_key(inner),
        !routes[inner].1,
    ensures
        after_output(routes, inner, chunk).contains_key(inner),
        after_output(routes, inner, chunk)[inner].0.len() == routes[inner].0.len() + 1,
        forall|i: int| 0 <= i < routes[inner].0.len() ==> #[trigger] after_output(
            routes,
            inner,
            chunk,
        )[inner].0[i] == routes[inner].0[i],
        after_output(routes, inner, chunk)[inner].0[routes[inner].0.len() as int] == chunk,
        !after_output(routes, inner, chunk)[inner].1,
        forall|other: SessionId| other != inner ==> (#[trigger] after_output(routes, inner, chunk).contains_key(
            other,
        ) <==> routes.contains_key(other)),
        forall|other: SessionId| other != inner && routes.contains_key(other) ==> #[trigger] after_output(
            routes,
            inner,
            chunk,
        )[other] == routes[other],
{
}

} // verus!
