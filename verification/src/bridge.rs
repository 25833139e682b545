//! The event bridge's decisions: which typed IPC event an engine event becomes,
//! and which session an SFTP event belongs to. Emitting is left to the caller.

use vstd::prelude::*;

use crate::dto::{
    connection_status_dto, describes_service, file_entry_dto, ConnectionStatusDto, FileEntryDto,
    ServiceDto, ServiceKindDto, TransferProgressDto,
};
use crate::event::{CoreEvent, DetectedService, FileEntry, MetricValue, ServiceKind};
use crate::host::ConnectionStatus;
use crate::events;
use crate::registry::SessionId;
use crate::transfers::TransferTable;

verus! {

/// A typed SFTP event stamped with its owning session id, ready to emit.
#[derive(Debug)]
pub enum SftpOutbound {
    Connected(events::SftpConnected),
    DirListed(events::SftpDirListed),
    OpDone(events::SftpOpDone),
    Disconnected(events::SftpDisconnected),
    Preview(events::FilePreview),
    Progress(events::TransferProgress),
}

/// A typed event from the shared engine channel, ready to emit, or a remote
/// terminal exit that the caller resolves to a public session id first.
#[derive(Debug)]
pub enum CoreOutbound {
    HostStatusChanged(events::HostStatusChanged),
    ServicesDetected(events::ServicesDetected),
    ServicesFailed(events::ServicesFailed),
    Error(events::Error),
    /// The terminal backed by this inner PTY id ended on the remote side.
    PtyExited(SessionId),
}

/// The session an outbound SFTP event is stamped with.
pub open spec fn outbound_session(out: SftpOutbound) -> u64 {
    match out {
        SftpOutbound::Connected(e) => e.session_id,
        SftpOutbound::DirListed(e) => e.session_id,
        SftpOutbound::OpDone(e) => e.session_id,
        SftpOutbound::Disconnected(e) => e.session_id,
        SftpOutbound::Preview(e) => e.session_id,
        SftpOutbound::Progress(e) => e.0.session_id,
    }
}

/// What `map_sftp_event` makes of `event` on the channel of `session_id`.
pub open spec fn sftp_outbound_matches(
    session_id: SessionId,
    event: CoreEvent,
    out: Option<SftpOutbound>,
) -> bool {
    match event {
        CoreEvent::SftpConnected { host_name } => out == Some(
            SftpOutbound::Connected(events::SftpConnected { session_id, host_name }),
        ),
        CoreEvent::FileDirListed { path, entries } => match out {
            Some(SftpOutbound::DirListed(e)) => {
                &&& e.session_id == session_id
                &&& e.path == path
                &&& e.entries@ == entries@.map_values(|f: FileEntry| file_entry_dto(f))
            },
            _ => false,
        },
        CoreEvent::SftpOpDone { result } => out == Some(
            SftpOutbound::OpDone(
                events::SftpOpDone {
                    session_id,
                    ok: result is Ok,
                    error: match result {
                        Ok(_) => None,
                        Err(message) => Some(message),
                    },
                },
            ),
        ),
        CoreEvent::SftpDisconnected { reason } => out == Some(
            SftpOutbound::Disconnected(events::SftpDisconnected { session_id, reason }),
        ),
        CoreEvent::FilePreviewReady { path, content } => out == Some(
            SftpOutbound::Preview(events::FilePreview { session_id, path, content }),
        ),
        CoreEvent::FileTransferProgress(transfer_id, done, total) => out == Some(
            SftpOutbound::Progress(
                events::TransferProgress(
                    TransferProgressDto { session_id, transfer_id, done, total },
                ),
            ),
        ),
        _ => out is None,
    }
}

/// The frontend's view of a whole listing, entry by entry.
fn file_entry_dtos(entries: &Vec<FileEntry>) -> (r: Vec<FileEntryDto>)
    ensures
        r@ == entries@.map_values(|f: FileEntry| file_entry_dto(f)),
{
    let mut out: Vec<FileEntryDto> = Vec::new();
    let n = entries.len();
    for i in 0..n
        invariant
            n == entries@.len(),
            out@ == entries@.take(i as int).map_values(|f: FileEntry| file_entry_dto(f)),
    {
        out.push(FileEntryDto::from(&entries[i]));
        assert(out@ =~= entries@.take(i + 1).map_values(|f: FileEntry| file_entry_dto(f)));
    }
    assert(entries@.take(n as int) =~= entries@);
    out
}

/// Stamp an engine SFTP event with `session_id` (its resolved owner) and map it
/// to a typed IPC event. `None` for a variant that never travels a per-session
/// SFTP channel. The session id comes from the channel's owner, never from the
/// event: two tabs listing the same path resolve to distinct sessions.
pub fn map_sftp_event(session_id: SessionId, event: CoreEvent) -> (out: Option<SftpOutbound>)
    ensures
        sftp_outbound_matches(session_id, event, out),
        out matches Some(o) ==> outbound_session(o) == session_id,
{
    match event {
        CoreEvent::SftpConnected { host_name } => Some(
            SftpOutbound::Connected(events::SftpConnected { session_id, host_name }),
        ),
        CoreEvent::FileDirListed { path, entries } => {
            let entries = file_entry_dtos(&entries);
            Some(SftpOutbound::DirListed(events::SftpDirListed { session_id, path, entries }))
        },
        CoreEvent::SftpOpDone { result } => {
            let (ok, error) = match result {
                Ok(()) => (true, None),
                Err(message) => (false, Some(message)),
            };
            Some(SftpOutbound::OpDone(events::SftpOpDone { session_id, ok, error }))
        },
        CoreEvent::SftpDisconnected { reason } => Some(
            SftpOutbound::Disconnected(events::SftpDisconnected { session_id, reason }),
        ),
        CoreEvent::FilePreviewReady { path, content } => Some(
            SftpOutbound::Preview(events::FilePreview { session_id, path, content }),
        ),
        CoreEvent::FileTransferProgress(transfer_id, done, total) => Some(
            SftpOutbound::Progress(
                events::TransferProgress(
                    TransferProgressDto { session_id, transfer_id, done, total },
                ),
            ),
        ),
        _ => None,
    }
}

/// The session an event on the SFTP channel of `session_id` belongs to: a
/// transfer's progress goes to the session that issued the transfer (when it is
/// still tracked); every other event stays with the channel's own session.
pub open spec fn sftp_event_owner_spec(
    transfers: TransferTable,
    session_id: SessionId,
    event: CoreEvent,
) -> SessionId {
    match event {
        CoreEvent::FileTransferProgress(transfer_id, _, _) => if transfers.owners().contains_key(
            transfer_id,
        ) {
            transfers.owners()[transfer_id]
        } else {
            session_id
        },
        _ => session_id,
    }
}

/// The owner to stamp an event from the SFTP channel of `session_id` with.
pub fn sftp_event_owner(
    transfers: &TransferTable,
    session_id: SessionId,
    event: &CoreEvent,
) -> (owner: SessionId)
    ensures
        owner == sftp_event_owner_spec(*transfers, session_id, *event),
{
    match event {
        CoreEvent::FileTransferProgress(transfer_id, _, _) => match transfers.transfer_session(
            *transfer_id,
        ) {
            Some(owner) => owner,
            None => session_id,
        },
        _ => session_id,
    }
}

/// The frontend's view of every detected service, in order.
fn service_dtos(services: &Vec<DetectedService>) -> (r: Vec<ServiceDto>)
    ensures
        r@.len() == services@.len(),
        forall|i: int| 0 <= i < r@.len() ==> describes_service(#[trigger] r@[i], services@[i]),
{
    let mut out: Vec<ServiceDto> = Vec::new();
    let n = services.len();
    for i in 0..n
        invariant
            n == services@.len(),
            out@.len() == i,
            forall|j: int| 0 <= j < i ==> describes_service(#[trigger] out@[j], services@[j]),
    {
        out.push(ServiceDto::from(&services[i]));
    }
    out
}

/// What `map_core_event` makes of `event`.
pub open spec fn core_outbound_matches(event: CoreEvent, out: Option<CoreOutbound>) -> bool {
    match event {
        CoreEvent::HostStatusChanged(host_name, status) => out == Some(
            CoreOutbound::HostStatusChanged(
                events::HostStatusChanged { host_name, status: connection_status_dto(status) },
            ),
        ),
        CoreEvent::DiscoveryQuickScanDone(host_name, services) => match out {
            Some(CoreOutbound::ServicesDetected(e)) => {
                &&& e.host_name == host_name
                &&& e.services@.len() == services@.len()
                &&& forall|i: int| 0 <= i < services@.len() ==> describes_service(
                    #[trigger] e.services@[i],
                    services@[i],
                )
            },
            _ => false,
        },
        CoreEvent::DiscoveryFailed(host_name, message) => out == Some(
            CoreOutbound::ServicesFailed(events::ServicesFailed { host_name, message }),
        ),
        CoreEvent::Error(message) => out == Some(CoreOutbound::Error(events::Error { message })),
        CoreEvent::PtyExited(inner) => out == Some(CoreOutbound::PtyExited(inner)),
        _ => out is None,
    }
}

/// Map an event of the shared engine channel to the typed IPC event it becomes.
/// A remote terminal exit is handed back as `PtyExited` for the caller to
/// resolve; variants produced elsewhere (SFTP results ride per-session
/// channels, terminal output rides its own route) map to `None`.
pub fn map_core_event(event: CoreEvent) -> (out: Option<CoreOutbound>)
    ensures
        core_outbound_matches(event, out),
{
    match event {
        CoreEvent::HostStatusChanged(host_name, status) => {
            let status = ConnectionStatusDto::from(&status);
            Some(CoreOutbound::HostStatusChanged(events::HostStatusChanged { host_name, status }))
        },
        CoreEvent::DiscoveryQuickScanDone(host_name, services) => {
            let services = service_dtos(&services);
            Some(CoreOutbound::ServicesDetected(events::ServicesDetected { host_name, services }))
        },
        CoreEvent::DiscoveryFailed(host_name, message) => Some(
            CoreOutbound::ServicesFailed(events::ServicesFailed { host_name, message }),
        ),
        CoreEvent::Error(message) => Some(CoreOutbound::Error(events::Error { message })),
        CoreEvent::PtyExited(inner) => Some(CoreOutbound::PtyExited(inner)),
        _ => None,
    }
}

/// Progress of a transfer reaches the session that issued it: once transfer
/// `transfer_id` is recorded for `issuer`, its progress on any SFTP channel is
/// stamped with `issuer`.
pub proof fn lemma_progress_reaches_issuing_session(
    before: TransferTable,
    after: TransferTable,
    issuer: SessionId,
    transfer_id: u64,
    channel: SessionId,
    done: u64,
    total: u64,
)
    requires
        after.owners() == before.owners().insert(transfer_id, issuer),
    ensures
        sftp_event_owner_spec(after, channel, CoreEvent::FileTransferProgress(transfer_id, done, total))
            == issuer,
{
}

/// A directory listing reaches its tab whole: stamped with the channel's
/// session and the listed path, with one entry per entry of the engine's
/// listing, in order, each with the same name, path, size and kind —
/// directories as well as files.
pub proof fn law_listing_keeps_every_entry(
    session_id: SessionId,
    path: String,
    entries: Vec<FileEntry>,
    out: Option<SftpOutbound>,
)
    requires
        sftp_outbound_matches(session_id, CoreEvent::FileDirListed { path, entries }, out),
    ensures
        match out {
            Some(SftpOutbound::DirListed(e)) => {
                &&& e.session_id == session_id
                &&& e.path == path
                &&& e.entries@.len() == entries@.len()
                &&& forall|i: int| 0 <= i < entries@.len() ==> {
                    &&& (#[trigger] e.entries@[i]).name == entries@[i].name
                    &&& e.entries@[i].path == entries@[i].path
                    &&& e.entries@[i].size == entries@[i].size
                    &&& e.entries@[i].is_dir == entries@[i].is_dir
                }
            },
            _ => false,
        },
{
}

/// Every SFTP event of a channel becomes the matching IPC event, stamped with
/// the channel's session and carrying the event's own data; events that never
/// travel an SFTP channel become nothing.
pub proof fn law_sftp_events_are_stamped_with_the_channel_session(
    session_id: SessionId,
    event: CoreEvent,
    out: Option<SftpOutbound>,
)
    requires
        sftp_outbound_matches(session_id, event, out),
    ensures
        event matches CoreEvent::SftpConnected { host_name } ==> (out matches Some(
            SftpOutbound::Connected(e),
        ) && e.session_id == session_id && e.host_name == host_name),
        event matches CoreEvent::FileDirListed { path, entries } ==> (out matches Some(
            SftpOutbound::DirListed(e),
        ) && e.session_id == session_id && e.path == path && e.entries@.len() == entries@.len()),
        event matches CoreEvent::SftpOpDone { result } ==> (out matches Some(SftpOutbound::OpDone(e))
            && e.session_id == session_id && e.ok == (result is Ok) && (result is Ok ==> e.error is None)
            && (forall|m: String| result == Err::<(), String>(m) ==> e.error == Some(m))),
        event matches CoreEvent::SftpDisconnected { reason } ==> (out matches Some(
            SftpOutbound::Disconnected(e),
        ) && e.session_id == session_id && e.reason == reason),
        event matches CoreEvent::FilePreviewReady { path, content } ==> (out matches Some(
            SftpOutbound::Preview(e),
        ) && e.session_id == session_id && e.path == path && e.content == content),
        event matches CoreEvent::FileTransferProgress(transfer_id, done, total) ==> (out matches Some(
            SftpOutbound::Progress(e),
        ) && e.0.session_id == session_id && e.0.transfer_id == transfer_id && e.0.done == done
            && e.0.total == total),
        (event is HostStatusChanged || event is DiscoveryQuickScanDone || event is DiscoveryFailed
            || event is Error || event is PtyOutput || event is PtyExited) ==> out is None,
{
}

/// Only transfer progress is re-attributed: any other event belongs to the
/// channel's own session whatever the transfer table holds; progress of a
/// tracked transfer belongs to the session that issued it, progress of an
/// untracked one to the channel's session.
pub proof fn law_only_progress_changes_owner(
    transfers: TransferTable,
    session_id: SessionId,
    event: CoreEvent,
    owner: SessionId,
)
    requires
        owner == sftp_event_owner_spec(transfers, session_id, event),
    ensures
        !(event is FileTransferProgress) ==> owner == session_id,
        event matches CoreEvent::FileTransferProgress(t, _, _) ==> (transfers.owners().contains_key(t)
            ==> owner == transfers.owners()[t]),
        event matches CoreEvent::FileTransferProgress(t, _, _) ==> (!transfers.owners().contains_key(t)
            ==> owner == session_id),
{
}

/// Every event of the shared engine channel becomes the matching IPC event
/// with the event's own data: a status change keeps the host and the status
/// variant by variant (a failure with its message), a quick-scan keeps the host
/// and one service per detected service with the same kind and metrics, a
/// failure or error keeps its text, and a remote exit keeps its inner id.
/// Events produced elsewhere become nothing.
pub proof fn law_core_events_keep_their_data(event: CoreEvent, out: Option<CoreOutbound>)
    requires
        core_outbound_matches(event, out),
    ensures
        event matches CoreEvent::HostStatusChanged(h, st) ==> (out matches Some(
            CoreOutbound::HostStatusChanged(e),
        ) && e.host_name == h && (st == ConnectionStatus::Unknown <==> e.status
            == ConnectionStatusDto::Unknown) && (st == ConnectionStatus::Connecting <==> e.status
            == ConnectionStatusDto::Connecting) && (st == ConnectionStatus::Connected <==> e.status
            == ConnectionStatusDto::Connected) && (forall|m: String| st == ConnectionStatus::Failed(m)
            <==> e.status == (ConnectionStatusDto::Failed { message: m }))),
        event matches CoreEvent::DiscoveryQuickScanDone(h, services) ==> (out matches Some(
            CoreOutbound::ServicesDetected(e),
        ) && e.host_name == h && e.services@.len() == services@.len() && forall|i: int|
            0 <= i < services@.len() ==> {
                &&& (services@[i].kind == ServiceKind::Docker <==> (#[trigger] e.services@[i]).kind
                    == ServiceKindDto::Docker)
                &&& (services@[i].kind == ServiceKind::Nginx <==> e.services@[i].kind
                    == ServiceKindDto::Nginx)
                &&& (services@[i].kind == ServiceKind::PostgreSQL <==> e.services@[i].kind
                    == ServiceKindDto::PostgreSQL)
                &&& (services@[i].kind == ServiceKind::Redis <==> e.services@[i].kind
                    == ServiceKindDto::Redis)
                &&& (services@[i].kind == ServiceKind::NodeJS <==> e.services@[i].kind
                    == ServiceKindDto::NodeJS)
                &&& e.services@[i].metrics@.len() == services@[i].metrics@.len()
                &&& forall|j: int| 0 <= j < services@[i].metrics@.len() ==> {
                    &&& (#[trigger] e.services@[i].metrics@[j]).name == services@[i].metrics@[j].name
                    &&& services@[i].metrics@[j].value == MetricValue::Integer(
                        e.services@[i].metrics@[j].value,
                    )
                }
            }),
        event matches CoreEvent::DiscoveryFailed(h, m) ==> (out matches Some(
            CoreOutbound::ServicesFailed(e),
        ) && e.host_name == h && e.message == m),
        event matches CoreEvent::Error(m) ==> (out matches Some(CoreOutbound::Error(e))
            && e.message == m),
        event matches CoreEvent::PtyExited(inner) ==> out == Some(CoreOutbound::PtyExited(inner)),
        (event is PtyOutput || event is SftpConnected || event is FileDirListed || event is SftpOpDone
            || event is SftpDisconnected || event is FilePreviewReady || event is FileTransferProgress)
            ==> out is None,
{
    match event {
        CoreEvent::DiscoveryQuickScanDone(h, services) => {
            match out {
                Some(CoreOutbound::ServicesDetected(e)) => {
                    assert forall|i: int| 0 <= i < services@.len() implies {
                        &&& e.services@[i].metrics@.len() == services@[i].metrics@.len()
                        &&& forall|j: int| 0 <= j < services@[i].metrics@.len() ==> {
                            &&& (#[trigger] e.services@[i].metrics@[j]).name
                                == services@[i].metrics@[j].name
                            &&& services@[i].metrics@[j].value == MetricValue::Integer(
                                e.services@[i].metrics@[j].value,
                            )
                        }
                    } by {
                        crate::dto::law_service_dto_keeps_kind_and_every_metric(
                            e.services@[i],
                            services@[i],
                        );
                    }
                },
                _ => {},
            }
        },
        _ => {},
    }
}

} // verus!
