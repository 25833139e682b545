//! Typed IPC events sent to the webview. Each event's wire name derives from
//! its struct name (`HostsLoaded` -> "hosts-loaded").

use vstd::prelude::*;

use crate::dto::{ConnectionStatusDto, FileEntryDto, HostDto, ServiceDto, TransferProgressDto};

verus! {

/// Full host list broadcast, emitted after the host cache is refreshed.
#[derive(Debug)]
pub struct HostsLoaded(pub Vec<HostDto>);

/// A host's connection status changed.
#[derive(Debug)]
pub struct HostStatusChanged {
    pub host_name: String,
    pub status: ConnectionStatusDto,
}

/// Services detected on a host by the discovery quick-scan.
#[derive(Debug)]
pub struct ServicesDetected {
    pub host_name: String,
    pub services: Vec<ServiceDto>,
}

/// Discovery failed for a host.
#[derive(Debug)]
pub struct ServicesFailed {
    pub host_name: String,
    pub message: String,
}

/// A terminal session's remote shell exited or its connection dropped. Carries
/// the **public** registry id; the frontend tears the tab down. User-initiated
/// closes never emit this.
#[derive(Debug)]
pub struct TerminalExited {
    pub session_id: u64,
}

/// An SFTP session connected; stamped with the session that owns the channel.
#[derive(Debug)]
pub struct SftpConnected {
    pub session_id: u64,
    pub host_name: String,
}

/// A remote directory listing completed for one SFTP tab.
#[derive(Debug)]
pub struct SftpDirListed {
    pub session_id: u64,
    pub path: String,
    pub entries: Vec<FileEntryDto>,
}

/// A mutating SFTP operation finished; the engine's `Result<(), String>` is
/// flattened to `ok` and an optional `error`.
#[derive(Debug)]
pub struct SftpOpDone {
    pub session_id: u64,
    pub ok: bool,
    pub error: Option<String>,
}

/// An SFTP operation reported a failure. It does not by itself tear the
/// session down.
#[derive(Debug)]
pub struct SftpDisconnected {
    pub session_id: u64,
    pub reason: String,
}

/// Preview text for a remote file.
#[derive(Debug)]
pub struct FilePreview {
    pub session_id: u64,
    pub path: String,
    pub content: String,
}

/// Live transfer progress, routed to its owning session.
#[derive(Debug)]
pub struct TransferProgress(pub TransferProgressDto);

/// A background error surfaced to the user.
#[derive(Debug)]
pub struct Error {
    pub message: String,
}

} // verus!
