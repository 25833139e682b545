//! Domain events produced by the SSH engine, and the plain data they carry.

use vstd::prelude::*;

use crate::host::ConnectionStatus;
use crate::registry::SessionId;
use crate::transfers::TransferId;

verus! {

/// A service kind detected on a host by the discovery quick-scan.
#[derive(Debug, Clone, Copy, PartialEq, Eq, Structural)]
pub enum ServiceKind {
    Docker,
    Nginx,
    PostgreSQL,
    Redis,
    NodeJS,
}

/// The value of one quick-scan metric. Integer-only.
#[derive(Debug, Clone, Copy, PartialEq, Eq, Structural)]
pub enum MetricValue {
    Integer(i64),
}

/// One quick-scan metric for a detected service.
#[derive(Debug)]
pub struct ServiceMetric {
    pub name: String,
    pub value: MetricValue,
}

/// A service detected on a host with its quick-scan metrics.
#[derive(Debug)]
pub struct DetectedService {
    pub kind: ServiceKind,
    pub metrics: Vec<ServiceMetric>,
}

/// A file or directory in a remote (SFTP) directory listing.
#[derive(Debug)]
pub struct FileEntry {
    pub name: String,
    pub path: String,
    pub size: u64,
    pub is_dir: bool,
}

/// An event emitted by the engine's background tasks: pollers, terminals and
/// SFTP sessions.
#[derive(Debug)]
pub enum CoreEvent {
    /// A host's connection status changed.
    HostStatusChanged(String, ConnectionStatus),
    /// The discovery quick-scan found these services on a host.
    DiscoveryQuickScanDone(String, Vec<DetectedService>),
    /// Discovery failed for a host, with a message.
    DiscoveryFailed(String, String),
    /// A background error for the user.
    Error(String),
    /// A terminal produced output (a render nudge, by inner PTY id).
    PtyOutput(SessionId),
    /// A terminal's remote shell exited or its connection dropped (inner PTY id).
    PtyExited(SessionId),
    /// An SFTP session connected to a host.
    SftpConnected { host_name: String },
    /// A remote directory listing completed.
    FileDirListed { path: String, entries: Vec<FileEntry> },
    /// A mutating SFTP operation finished.
    SftpOpDone { result: Result<(), String> },
    /// An SFTP operation reported a failure, with a reason.
    SftpDisconnected { reason: String },
    /// Preview text of a remote file.
    FilePreviewReady { path: String, content: String },
    /// Progress of a transfer: transfer id, bytes done, bytes total.
    FileTransferProgress(TransferId, u64, u64),
}

} // verus!
