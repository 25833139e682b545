use omnyssh::bridge::{map_core_event, map_sftp_event, sftp_event_owner, CoreOutbound, SftpOutbound};
use omnyssh::dto::{ConnectionStatusDto, ServiceKindDto};
use omnyssh::event::{CoreEvent, DetectedService, FileEntry, MetricValue, ServiceKind, ServiceMetric};
use omnyssh::events;
use omnyssh::host::ConnectionStatus;
use omnyssh::transfers::TransferTable;

fn file(name: &str) -> FileEntry {
    FileEntry {
        name: name.to_string(),
        path: format!("/srv/{name}"),
        size: 0,
        is_dir: false,
    }
}

// Two tabs listing the SAME path resolve to DISTINCT sessions — the id comes from
// the channel's owner, not the (absent) event field.
#[test]
fn same_path_listing_stamps_distinct_sessions() {
    let listing = || CoreEvent::FileDirListed {
        path: "/srv".to_string(),
        entries: vec![file("a")],
    };
    match (
        map_sftp_event(1, listing()).unwrap(),
        map_sftp_event(2, listing()).unwrap(),
    ) {
        (SftpOutbound::DirListed(a), SftpOutbound::DirListed(b)) => {
            assert_eq!(a.path, b.path, "same remote path");
            assert_eq!(a.session_id, 1);
            assert_eq!(b.session_id, 2, "distinct sessions");
            assert_eq!(a.entries.len(), 1);
            assert_eq!(a.entries[0].name, "a");
        }
        _ => panic!("expected DirListed for both"),
    }
}

#[test]
fn connected_is_stamped_with_the_owning_session() {
    match map_sftp_event(
        5,
        CoreEvent::SftpConnected {
            host_name: "web-1".to_string(),
        },
    )
    .unwrap()
    {
        SftpOutbound::Connected(e) => {
            assert_eq!(e.session_id, 5);
            assert_eq!(e.host_name, "web-1");
        }
        _ => panic!("expected Connected"),
    }
}

#[test]
fn progress_carries_the_resolved_owner_and_transfer_id() {
    match map_sftp_event(7, CoreEvent::FileTransferProgress(42, 512, 2048)).unwrap() {
        SftpOutbound::Progress(events::TransferProgress(dto)) => {
            assert_eq!(dto.session_id, 7);
            assert_eq!(dto.transfer_id, 42);
            assert_eq!((dto.done, dto.total), (512, 2048));
        }
        _ => panic!("expected Progress"),
    }
}

#[test]
fn op_done_flattens_ok_and_error() {
    match map_sftp_event(1, CoreEvent::SftpOpDone { result: Ok(()) }).unwrap() {
        SftpOutbound::OpDone(e) => {
            assert!(e.ok);
            assert!(e.error.is_none());
        }
        _ => panic!("expected OpDone"),
    }
    match map_sftp_event(
        1,
        CoreEvent::SftpOpDone {
            result: Err("permission denied".to_string()),
        },
    )
    .unwrap()
    {
        SftpOutbound::OpDone(e) => {
            assert!(!e.ok);
            assert_eq!(e.error.as_deref(), Some("permission denied"));
        }
        _ => panic!("expected OpDone"),
    }
}

#[test]
fn unrelated_variants_never_map_to_an_sftp_event() {
    // A terminal render-nudge would never arrive here, but the catch-all keeps the
    // forwarder robust without inventing an event.
    assert!(map_sftp_event(1, CoreEvent::PtyOutput(3)).is_none());
}

#[test]
fn disconnect_and_preview_are_stamped_with_the_session() {
    match map_sftp_event(4, CoreEvent::SftpDisconnected { reason: "listing failed".to_string() })
        .unwrap()
    {
        SftpOutbound::Disconnected(e) => {
            assert_eq!(e.session_id, 4);
            assert_eq!(e.reason, "listing failed");
        }
        _ => panic!("expected Disconnected"),
    }
    match map_sftp_event(
        9,
        CoreEvent::FilePreviewReady { path: "/etc/hosts".to_string(), content: "127.0.0.1".to_string() },
    )
    .unwrap()
    {
        SftpOutbound::Preview(e) => {
            assert_eq!(e.session_id, 9);
            assert_eq!(e.path, "/etc/hosts");
            assert_eq!(e.content, "127.0.0.1");
        }
        _ => panic!("expected Preview"),
    }
}

#[test]
fn progress_is_attributed_to_the_issuing_session() {
    let mut transfers = TransferTable::new();
    let t = transfers.next_transfer(3);
    // Progress for a known transfer goes to its issuer, whichever channel it came on.
    assert_eq!(sftp_event_owner(&transfers, 8, &CoreEvent::FileTransferProgress(t, 1, 2)), 3);
    // An unknown transfer stays with the channel's own session.
    assert_eq!(sftp_event_owner(&transfers, 8, &CoreEvent::FileTransferProgress(77, 1, 2)), 8);
    // Any other event stays with the channel's own session.
    assert_eq!(
        sftp_event_owner(&transfers, 8, &CoreEvent::SftpOpDone { result: Ok(()) }),
        8
    );
}

#[test]
fn core_events_map_to_typed_ipc_events() {
    match map_core_event(CoreEvent::HostStatusChanged(
        "web".to_string(),
        ConnectionStatus::Failed("down".to_string()),
    )) {
        Some(CoreOutbound::HostStatusChanged(e)) => {
            assert_eq!(e.host_name, "web");
            assert_eq!(e.status, ConnectionStatusDto::Failed { message: "down".to_string() });
        }
        other => panic!("expected HostStatusChanged, got {other:?}"),
    }
    match map_core_event(CoreEvent::DiscoveryQuickScanDone(
        "db".to_string(),
        vec![DetectedService {
            kind: ServiceKind::PostgreSQL,
            metrics: vec![ServiceMetric { name: "connections".to_string(), value: MetricValue::Integer(12) }],
        }],
    )) {
        Some(CoreOutbound::ServicesDetected(e)) => {
            assert_eq!(e.host_name, "db");
            assert_eq!(e.services.len(), 1);
            assert_eq!(e.services[0].kind, ServiceKindDto::PostgreSQL);
            assert_eq!(e.services[0].metrics[0].value, 12);
        }
        other => panic!("expected ServicesDetected, got {other:?}"),
    }
    match map_core_event(CoreEvent::DiscoveryFailed("db".to_string(), "timeout".to_string())) {
        Some(CoreOutbound::ServicesFailed(e)) => {
            assert_eq!((e.host_name.as_str(), e.message.as_str()), ("db", "timeout"));
        }
        other => panic!("expected ServicesFailed, got {other:?}"),
    }
    match map_core_event(CoreEvent::Error("boom".to_string())) {
        Some(CoreOutbound::Error(e)) => assert_eq!(e.message, "boom"),
        other => panic!("expected Error, got {other:?}"),
    }
    assert!(matches!(map_core_event(CoreEvent::PtyExited(6)), Some(CoreOutbound::PtyExited(6))));
    assert!(map_core_event(CoreEvent::PtyOutput(6)).is_none());
    assert!(map_core_event(CoreEvent::SftpConnected { host_name: "h".to_string() }).is_none());
}
