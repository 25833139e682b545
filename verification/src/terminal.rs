//! The terminal lifecycle across the session registry and the output routes:
//! opening a terminal for a named host, the frontend's ready acknowledgement, a
//! user close and a remote exit. Talking to the PTY sessions themselves is left
//! to the caller, which is handed the ids it needs.

use vstd::prelude::*;

use crate::host::Host;
use crate::registry::{SessionId, SessionRegistry};
use crate::routes::TerminalRoutes;

verus! {

/// The index of the first host named `name`, if any.
pub open spec fn first_named(hosts: Seq<Host>, name: Seq<char>) -> Option<int> {
    if exists|i: int| 0 <= i < hosts.len() && #[trigger] hosts[i].name@ == name {
        Some(
            choose|i: int|
                0 <= i < hosts.len() && #[trigger] hosts[i].name@ == name && forall|j: int|
                    0 <= j < i ==> #[trigger] hosts[j].name@ != name,
        )
    } else {
        None
    }
}

/// The error text for a terminal opened on a host that is not configured.
pub open spec fn unknown_host_message(name: Seq<char>) -> Seq<char> {
    "unknown host '"@ + name + "'"@
}

/// Copy of the first host named `name`, secrets included (they stay on the
/// backend side), or `None` when no host has that name.
pub fn host_by_name(hosts: &Vec<Host>, name: &str) -> (found: Option<Host>)
    ensures
        match found {
            Some(h) => first_named(hosts@, name@) matches Some(i) && h.same_as(hosts@[i]),
            None => first_named(hosts@, name@) is None,
        },
{
    let wanted = String::from_str(name);
    let n = hosts.len();
    let mut i: usize = 0;
    while i < n
        invariant
            n == hosts@.len(),
            i <= n,
            wanted@ == name@,
            forall|j: int| 0 <= j < i ==> #[trigger] hosts@[j].name@ != name@,
        decreases n - i,
    {
        if hosts[i].name == wanted {
            proof {
                // The first match is unique: any other candidate either precedes
                // index `i` (excluded by the invariant) or follows it (and then `i`
                // itself would contradict its "no earlier match" clause).
                let k = i as int;
                let c = choose|c: int|
                    0 <= c < hosts@.len() && #[trigger] hosts@[c].name@ == name@ && forall|j: int|
                        0 <= j < c ==> #[trigger] hosts@[j].name@ != name@;
                if c > k {
                    assert(hosts@[k].name@ != name@);
                }
            }
            return Some(hosts[i].clone());
        }
        i = i + 1;
    }
    None
}

/// The host a new terminal connects to: the first host named `host_name`, or
/// the error `unknown host '<name>'`.
pub fn terminal_host(hosts: &Vec<Host>, host_name: &str) -> (host: Result<Host, String>)
    ensures
        match host {
            Ok(h) => first_named(hosts@, host_name@) matches Some(i) && h.same_as(hosts@[i]),
            Err(message) => {
                &&& first_named(hosts@, host_name@) is None
                &&& message@ == unknown_host_message(host_name@)
            },
        },
{
    match host_by_name(hosts, host_name) {
        Some(h) => Ok(h),
        None => {
            let mut message = String::from_str("unknown host '");
            message.append(host_name);
            message.append("'");
            Err(message)
        },
    }
}

/// The registration step of opening a terminal, run before its SSH task starts
/// so even a fast server cannot emit output before the route and the public id
/// exist: open the output route of PTY session `inner` and give it a public id.
pub fn register_terminal_route(
    sessions: &mut SessionRegistry,
    routes: &mut TerminalRoutes,
    inner: SessionId,
) -> (public: SessionId)
    requires
        old(sessions).wf(),
        old(sessions).last_id() < u64::MAX,
    ensures
        final(sessions).wf(),
        public == old(sessions).last_id() + 1,
        final(sessions).last_id() == public,
        !old(sessions).terminals().contains_key(public),
        final(sessions).terminals() == old(sessions).terminals().insert(public, inner),
        final(sessions).exits() == old(sessions).exits().insert(inner, public),
        final(routes).state() == old(routes).state().insert(inner, (Seq::<Seq<u8>>::empty(), false)),
{
    routes.open_route(inner);
    sessions.register_terminal(inner)
}

/// The frontend acknowledged terminal `public`: release the output held while
/// the terminal was opening, in arrival order. `None` (and no change) when the
/// id names no live terminal or its route is gone.
pub fn ready_terminal(
    sessions: &SessionRegistry,
    routes: &mut TerminalRoutes,
    public: SessionId,
) -> (flushed: Option<Vec<Vec<u8>>>)
    ensures
        !sessions.terminals().contains_key(public) ==> flushed is None && final(routes).state()
            == old(routes).state(),
        sessions.terminals().contains_key(public) ==> {
            let inner = sessions.terminals()[public];
            match flushed {
                Some(chunks) => {
                    &&& old(routes).state().contains_key(inner)
                    &&& crate::routes::chunks_view(chunks@) == old(routes).state()[inner].0
                    &&& final(routes).state() == old(routes).state().insert(
                        inner,
                        (Seq::<Seq<u8>>::empty(), true),
                    )
                },
                None => {
                    &&& !old(routes).state().contains_key(inner)
                    &&& final(routes).state() == old(routes).state()
                },
            }
        },
{
    match sessions.pty_inner(public) {
        Some(inner) => routes.ready_terminal(inner),
        None => None,
    }
}

/// User-initiated close of terminal `public`: drop its registry entries and its
/// route, so the later exit of its PTY session finds no mapping and emits no
/// exit event. Returns the inner id whose PTY session the caller closes, or
/// `None` (and no change) when the id names no live terminal.
pub fn close_terminal(
    sessions: &mut SessionRegistry,
    routes: &mut TerminalRoutes,
    public: SessionId,
) -> (inner: Option<SessionId>)
    requires
        old(sessions).wf(),
    ensures
        final(sessions).wf(),
        final(sessions).last_id() == old(sessions).last_id(),
        match inner {
            Some(i) => {
                &&& old(sessions).terminals().contains_key(public)
                &&& i == old(sessions).terminals()[public]
                &&& final(sessions).terminals() == old(sessions).terminals().remove(public)
                &&& final(sessions).exits() == old(sessions).exits().remove(i)
                &&& final(routes).state() == old(routes).state().remove(i)
            },
            None => {
                &&& !old(sessions).terminals().contains_key(public)
                &&& final(sessions).terminals() == old(sessions).terminals()
                &&& final(sessions).exits() == old(sessions).exits()
                &&& final(routes).state() == old(routes).state()
            },
        },
{
    let inner = sessions.remove_by_public(public);
    match inner {
        Some(i) => {
            routes.close_route(i);
        },
        None => {},
    }
    inner
}

/// Remote-side exit of the PTY session `inner`: drop its registry entries and
/// its route. Returns the public id to announce the exit for, or `None` when the
/// user already closed that terminal. The caller also closes the PTY session.
pub fn terminal_exited(
    sessions: &mut SessionRegistry,
    routes: &mut TerminalRoutes,
    inner: SessionId,
) -> (public: Option<SessionId>)
    requires
        old(sessions).wf(),
    ensures
        final(sessions).wf(),
        final(sessions).last_id() == old(sessions).last_id(),
        final(routes).state() == old(routes).state().remove(inner),
        match public {
            Some(p) => {
                &&& old(sessions).exits().contains_key(inner)
                &&& p == old(sessions).exits()[inner]
                &&& old(sessions).terminals().contains_key(p)
                &&& old(sessions).terminals()[p] == inner
                &&& final(sessions).exits() == old(sessions).exits().remove(inner)
                &&& final(sessions).terminals() == old(sessions).terminals().remove(p)
            },
            None => {
                &&& !old(sessions).exits().contains_key(inner)
                &&& final(sessions).terminals() == old(sessions).terminals()
                &&& final(sessions).exits() == old(sessions).exits()
            },
        },
{
    let public = sessions.remove_by_pty(inner);
    routes.close_route(inner);
    public
}

/// The first host named `name`: when some host has that name, the lookup
/// yields an index of such a host with no host of that name before it; when
/// none has, it yields nothing.
pub proof fn law_first_named_is_the_first_match(hosts: Seq<Host>, name: Seq<char>)
    ensures
        (exists|i: int| 0 <= i < hosts.len() && #[trigger] hosts[i].name@ == name) ==> (
        first_named(hosts, name) matches Some(i) && 0 <= i < hosts.len() && hosts[i].name@ == name
            && forall|j: int| 0 <= j < i ==> #[trigger] hosts[j].name@ != name),
        (forall|i: int| 0 <= i < hosts.len() ==> #[trigger] hosts[i].name@ != name) ==> first_named(
            hosts,
            name,
        ) is None,
{
    if exists|i: int| 0 <= i < hosts.len() && #[trigger] hosts[i].name@ == name {
        let w = choose|i: int| 0 <= i < hosts.len() && #[trigger] hosts[i].name@ == name;
        lemma_a_first_match_exists(hosts, name, w);
    }
}

/// Below any match there is a first one.
proof fn lemma_a_first_match_exists(hosts: Seq<Host>, name: Seq<char>, w: int)
    requires
        0 <= w < hosts.len(),
        hosts[w].name@ == name,
    ensures
        exists|i: int|
            0 <= i < hosts.len() && #[trigger] hosts[i].name@ == name && forall|j: int|
                0 <= j < i ==> #[trigger] hosts[j].name@ != name,
    decreases w,
{
    if exists|j: int| 0 <= j < w && #[trigger] hosts[j].name@ == name {
        let j = choose|j: int| 0 <= j < w && #[trigger] hosts[j].name@ == name;
        lemma_a_first_match_exists(hosts, name, j);
    } else {
        assert(forall|j: int| 0 <= j < w ==> #[trigger] hosts[j].name@ != name);
    }
}

/// The error for an unknown host reads `unknown host '`, the name, then `'`.
pub proof fn law_unknown_host_message_names_the_host(name: Seq<char>)
    ensures
        unknown_host_message(name).len() == name.len() + 15,
        unknown_host_message(name).subrange(0, 14) == "unknown host '"@,
        unknown_host_message(name).subrange(14, 14 + name.len() as int) == name,
        unknown_host_message(name)[14 + name.len() as int] == '\'',
{
    reveal_strlit("unknown host '");
    reveal_strlit("'");
    assert(unknown_host_message(name).subrange(0, 14) =~= "unknown host '"@);
    assert(unknown_host_message(name).subrange(14, 14 + name.len() as int) =~= name);
}

} // verus!
