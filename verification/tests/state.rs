use omnyssh::host::Host;
use omnyssh::registry::SessionRegistry;
use omnyssh::routes::{Delivery, TerminalRoutes};
use omnyssh::terminal::{
    close_terminal, host_by_name, ready_terminal, register_terminal_route, terminal_exited,
    terminal_host,
};
use omnyssh::transfers::TransferTable;

#[test]
fn public_ids_are_unique_and_monotonic() {
    let mut reg = SessionRegistry::default();
    let a = reg.register_terminal(1);
    let b = reg.register_terminal(2);
    let c = reg.register_terminal(3);
    assert_eq!((a, b, c), (1, 2, 3));
}

#[test]
fn distinct_inner_ids_get_distinct_public_ids() {
    // Two PTY sessions that reused an inner id space still map to unique public
    // ids — the frontend never sees a collision.
    let mut reg = SessionRegistry::default();
    let first = reg.register_terminal(1);
    let second = reg.register_terminal(1);
    assert_ne!(first, second);
}

#[test]
fn maps_public_to_inner_both_ways() {
    let mut reg = SessionRegistry::default();
    let public = reg.register_terminal(7);
    assert_eq!(reg.pty_inner(public), Some(7));
}

#[test]
fn remove_by_public_clears_both_directions() {
    let mut reg = SessionRegistry::default();
    let public = reg.register_terminal(7);
    assert_eq!(reg.remove_by_public(public), Some(7));
    assert_eq!(reg.pty_inner(public), None);
    // The reverse mapping is gone too: a late exit finds nothing to emit.
    assert_eq!(reg.remove_by_pty(7), None);
}

#[test]
fn remove_by_pty_returns_public_for_the_exit_event() {
    let mut reg = SessionRegistry::default();
    let public = reg.register_terminal(9);
    assert_eq!(reg.remove_by_pty(9), Some(public));
    assert_eq!(reg.pty_inner(public), None);
}

#[test]
fn removing_one_session_leaves_others_intact() {
    let mut reg = SessionRegistry::default();
    let a = reg.register_terminal(10);
    let b = reg.register_terminal(20);
    reg.remove_by_public(a);
    assert_eq!(reg.pty_inner(b), Some(20));
}

#[test]
fn unknown_ids_resolve_to_none() {
    let reg = SessionRegistry::default();
    assert_eq!(reg.pty_inner(999), None);
}

#[test]
fn sftp_and_terminal_ids_share_one_monotonic_space() {
    // An SFTP `allocate` and a terminal `register` draw from the same counter, so
    // the frontend never sees a terminal id collide with an SFTP id.
    let mut reg = SessionRegistry::default();
    let term = reg.register_terminal(1);
    let sftp = reg.allocate();
    let term2 = reg.register_terminal(1);
    assert_eq!((term, sftp, term2), (1, 2, 3));
    // The SFTP id has no inner PTY mapping — it is keyed by its public id directly.
    assert_eq!(reg.pty_inner(sftp), None);
}

#[test]
fn transfer_ids_are_unique_and_route_to_their_owning_session() {
    let mut state = TransferTable::new();

    // Two concurrent SFTP tabs (public ids 1 and 2) each issue transfers.
    let (a, b) = (1, 2);
    let t1 = state.next_transfer(a);
    let t2 = state.next_transfer(b);
    let t3 = state.next_transfer(a);
    assert!(
        t1 != t2 && t2 != t3 && t1 != t3,
        "transfer ids must be unique"
    );
    assert_eq!(state.transfer_session(t1), Some(a));
    assert_eq!(state.transfer_session(t2), Some(b));
    assert_eq!(state.transfer_session(t3), Some(a));
    assert_eq!(state.transfer_session(999), None);

    // Closing one session prunes only its transfers; the other tab is untouched.
    state.close_sftp(a);
    assert_eq!(state.transfer_session(t1), None);
    assert_eq!(state.transfer_session(t3), None);
    assert_eq!(state.transfer_session(t2), Some(b));
}

#[test]
fn transfer_ids_keep_counting_after_a_close() {
    let mut state = TransferTable::new();
    assert_eq!(state.next_transfer(5), 1);
    state.close_sftp(5);
    assert_eq!(state.next_transfer(5), 2);
    state.close_sftp(6);
    assert_eq!(state.transfer_session(2), Some(5));
}

fn named(name: &str) -> Host {
    Host {
        name: name.to_string(),
        ..Host::default()
    }
}

#[test]
fn terminal_output_waits_for_frontend_ready_ack() {
    let hosts = vec![named("h")];
    let mut sessions = SessionRegistry::default();
    let mut routes = TerminalRoutes::new();
    assert_eq!(terminal_host(&hosts, "h").unwrap().name, "h");
    // The PTY manager announces inner id 1 for the new session.
    let public = register_terminal_route(&mut sessions, &mut routes, 1);
    let inner = sessions.pty_inner(public).unwrap();

    assert_eq!(routes.send_terminal_output(inner, b"prompt".to_vec()), Delivery::Held);
    {
        let route = routes.route(inner).unwrap();
        assert!(!route.ready);
        assert_eq!(route.pending, vec![b"prompt".to_vec()]);
    }

    let flushed = ready_terminal(&sessions, &mut routes, public);
    assert_eq!(flushed, Some(vec![b"prompt".to_vec()]));
    let route = routes.route(inner).unwrap();
    assert!(route.ready);
    assert!(route.pending.is_empty());
}

#[test]
fn held_output_is_released_in_arrival_order_then_passes_through() {
    let mut sessions = SessionRegistry::default();
    let mut routes = TerminalRoutes::new();
    let public = register_terminal_route(&mut sessions, &mut routes, 4);
    assert_eq!(routes.send_terminal_output(4, b"banner".to_vec()), Delivery::Held);
    assert_eq!(routes.send_terminal_output(4, b"$ ".to_vec()), Delivery::Held);
    assert_eq!(
        ready_terminal(&sessions, &mut routes, public),
        Some(vec![b"banner".to_vec(), b"$ ".to_vec()])
    );
    assert_eq!(
        routes.send_terminal_output(4, b"ls".to_vec()),
        Delivery::Send(b"ls".to_vec())
    );
    // Output for an unknown terminal is dropped.
    assert_eq!(routes.send_terminal_output(5, b"x".to_vec()), Delivery::Dropped);
    // A ready acknowledgement for an unknown public id changes nothing.
    assert_eq!(ready_terminal(&sessions, &mut routes, 99), None);
}

#[test]
fn open_terminal_rejects_an_unknown_host() {
    let hosts: Vec<Host> = vec![];
    let err = terminal_host(&hosts, "nope").unwrap_err();
    assert_eq!(err, "unknown host 'nope'");
}

#[test]
fn host_lookup_takes_the_first_host_with_that_name() {
    let mut second = named("web");
    second.hostname = "10.0.0.2".to_string();
    let mut first = named("web");
    first.hostname = "10.0.0.1".to_string();
    let hosts = vec![named("db"), first, second];
    assert_eq!(host_by_name(&hosts, "web").unwrap().hostname, "10.0.0.1");
    assert!(host_by_name(&hosts, "cache").is_none());
}

#[test]
fn user_close_drops_routes_and_silences_the_later_exit() {
    let mut sessions = SessionRegistry::default();
    let mut routes = TerminalRoutes::new();
    let public = register_terminal_route(&mut sessions, &mut routes, 11);
    assert_eq!(close_terminal(&mut sessions, &mut routes, public), Some(11));
    assert!(routes.route(11).is_none());
    // The PTY task's later exit finds no mapping: nothing is announced.
    assert_eq!(terminal_exited(&mut sessions, &mut routes, 11), None);
    // Closing again is a no-op.
    assert_eq!(close_terminal(&mut sessions, &mut routes, public), None);
}

#[test]
fn remote_exit_names_the_public_id_and_prunes_the_route() {
    let mut sessions = SessionRegistry::default();
    let mut routes = TerminalRoutes::new();
    let _sftp = sessions.allocate();
    let public = register_terminal_route(&mut sessions, &mut routes, 21);
    assert_eq!(public, 2);
    assert_eq!(terminal_exited(&mut sessions, &mut routes, 21), Some(public));
    assert!(routes.route(21).is_none());
    assert_eq!(sessions.pty_inner(public), None);
}
