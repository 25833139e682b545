//! Values crossing the IPC boundary to the webview, and their mapping from the
//! engine's types. Secret fields (`password`, key material) never appear here.

use vstd::prelude::*;

use crate::event::{DetectedService, FileEntry, MetricValue, ServiceKind, ServiceMetric};
use crate::host::{copy_text, copy_texts, ConnectionStatus, Host, HostSource};

verus! {

/// Host origin, as the frontend sees it.
#[derive(Debug, Clone, Copy, PartialEq, Eq, Structural)]
pub enum HostSourceDto {
    SshConfig,
    Manual,
}

/// A host as the frontend sees it — password and private-key material omitted.
/// `has_key` reports whether an identity file is configured; the key path itself
/// never crosses the boundary.
#[derive(Debug)]
pub struct HostDto {
    pub name: String,
    pub hostname: String,
    pub user: String,
    pub port: u16,
    pub startup_command: Option<String>,
    pub tags: Vec<String>,
    pub notes: Option<String>,
    pub source: HostSourceDto,
    pub has_key: bool,
}

/// Inbound host form payload. Builds a **manual** `Host` — SSH-config hosts are
/// read-only imports and are never saved. `password`/`identity_file` arrive here
/// but never travel back out: the outbound `HostDto` omits both.
#[derive(Debug)]
pub struct HostInputDto {
    pub name: String,
    pub hostname: String,
    pub user: String,
    pub port: u16,
    pub identity_file: Option<String>,
    pub password: Option<String>,
    pub proxy_jump: Option<String>,
    pub startup_command: Option<String>,
    pub tags: Vec<String>,
    pub notes: Option<String>,
}

/// Live connection state for a host, as the frontend sees it.
#[derive(Debug, PartialEq, Eq)]
pub enum ConnectionStatusDto {
    Unknown,
    Connecting,
    Connected,
    Failed { message: String },
}

/// A service kind, as the frontend sees it.
#[derive(Debug, Clone, Copy, PartialEq, Eq, Structural)]
pub enum ServiceKindDto {
    Docker,
    Nginx,
    PostgreSQL,
    Redis,
    NodeJS,
}

/// One quick-scan metric for a detected service.
#[derive(Debug)]
pub struct ServiceMetricDto {
    pub name: String,
    pub value: i64,
}

/// A service detected on a host with its quick-scan metrics.
#[derive(Debug)]
pub struct ServiceDto {
    pub kind: ServiceKindDto,
    pub metrics: Vec<ServiceMetricDto>,
}

/// A file or directory in an SFTP panel listing; `path` is the absolute path
/// the frontend marks entries by.
#[derive(Debug)]
pub struct FileEntryDto {
    pub name: String,
    pub path: String,
    pub size: u64,
    pub is_dir: bool,
}

/// Live progress for one SFTP upload/download: the owning session, the
/// transfer id, and byte counts (`total` is `0` when the remote size could not
/// be determined).
#[derive(Debug, Clone, Copy, PartialEq, Eq, Structural)]
pub struct TransferProgressDto {
    pub session_id: u64,
    pub transfer_id: u64,
    pub done: u64,
    pub total: u64,
}

/// PTY output bytes for a terminal session's output channel.
#[derive(Debug)]
pub struct TerminalBytes(pub Vec<u8>);

/// The frontend's name for a host origin.
pub open spec fn host_source_dto(source: HostSource) -> HostSourceDto {
    match source {
        HostSource::SshConfig => HostSourceDto::SshConfig,
        HostSource::Manual => HostSourceDto::Manual,
    }
}

/// The frontend's name for a service kind.
pub open spec fn service_kind_dto(kind: ServiceKind) -> ServiceKindDto {
    match kind {
        ServiceKind::Docker => ServiceKindDto::Docker,
        ServiceKind::Nginx => ServiceKindDto::Nginx,
        ServiceKind::PostgreSQL => ServiceKindDto::PostgreSQL,
        ServiceKind::Redis => ServiceKindDto::Redis,
        ServiceKind::NodeJS => ServiceKindDto::NodeJS,
    }
}

/// The frontend's view of a connection status.
pub open spec fn connection_status_dto(status: ConnectionStatus) -> ConnectionStatusDto {
    match status {
        ConnectionStatus::Unknown => ConnectionStatusDto::Unknown,
        ConnectionStatus::Connecting => ConnectionStatusDto::Connecting,
        ConnectionStatus::Connected => ConnectionStatusDto::Connected,
        ConnectionStatus::Failed(message) => ConnectionStatusDto::Failed { message },
    }
}

/// The frontend's view of a quick-scan metric.
pub open spec fn service_metric_dto(metric: ServiceMetric) -> ServiceMetricDto {
    ServiceMetricDto {
        name: metric.name,
        value: match metric.value {
            MetricValue::Integer(v) => v,
        },
    }
}

/// The frontend's view of a listing entry.
pub open spec fn file_entry_dto(entry: FileEntry) -> FileEntryDto {
    FileEntryDto { name: entry.name, path: entry.path, size: entry.size, is_dir: entry.is_dir }
}

/// `dto` is the frontend's view of the detected service `service`.
pub open spec fn describes_service(dto: ServiceDto, service: DetectedService) -> bool {
    &&& dto.kind == service_kind_dto(service.kind)
    &&& dto.metrics@ == service.metrics@.map_values(|m: ServiceMetric| service_metric_dto(m))
}

/// An optional form field with an exact-empty string collapsed to `None`.
pub open spec fn non_empty(field: Option<String>) -> Option<String> {
    match field {
        Some(v) => if v@.len() == 0 { None } else { Some(v) },
        None => None,
    }
}

/// Collapses an exact-empty optional form field to `None`; other values are
/// kept byte for byte (no trimming).
fn keep_non_empty(field: Option<String>) -> (r: Option<String>)
    ensures
        r == non_empty(field),
{
    match field {
        Some(v) => if v.as_str().is_empty() { None } else { Some(v) },
        None => None,
    }
}

/// `dto` is the public view of `host`: every non-secret field carried over,
/// `has_key` telling whether an identity file is configured.
pub open spec fn describes_host(dto: HostDto, host: Host) -> bool {
    &&& dto.name == host.name
    &&& dto.hostname == host.hostname
    &&& dto.user == host.user
    &&& dto.port == host.port
    &&& dto.startup_command == host.startup_command
    &&& dto.tags@ == host.tags@
    &&& dto.notes == host.notes
    &&& dto.source == host_source_dto(host.source)
    &&& dto.has_key == host.identity_file is Some
}

/// Snapshot of the cached hosts as wire values, in order, secret fields
/// dropped by the mapping.
pub fn host_dtos(hosts: &Vec<Host>) -> (dtos: Vec<HostDto>)
    ensures
        dtos@.len() == hosts@.len(),
        forall|i: int| 0 <= i < hosts@.len() ==> describes_host(#[trigger] dtos@[i], hosts@[i]),
{
    let mut out: Vec<HostDto> = Vec::new();
    let n = hosts.len();
    for i in 0..n
        invariant
            n == hosts@.len(),
            out@.len() == i,
            forall|j: int| 0 <= j < i ==> describes_host(#[trigger] out@[j], hosts@[j]),
    {
        out.push(HostDto::from(&hosts[i]));
    }
    out
}

impl HostSourceDto {
    /// The frontend's name for a host origin.
    pub fn from(source: &HostSource) -> (r: Self)
        ensures
            r == host_source_dto(*source),
    {
        match source {
            HostSource::SshConfig => HostSourceDto::SshConfig,
            HostSource::Manual => HostSourceDto::Manual,
        }
    }
}

impl HostDto {
    /// The public view of a host: every non-secret field copied, `has_key` set
    /// when an identity file is configured; password, identity file, proxy jump
    /// and internal metadata left out.
    pub fn from(host: &Host) -> (r: Self)
        ensures
            describes_host(r, *host),
    {
        HostDto {
            name: host.name.clone(),
            hostname: host.hostname.clone(),
            user: host.user.clone(),
            port: host.port,
            startup_command: copy_text(&host.startup_command),
            tags: copy_texts(&host.tags),
            notes: copy_text(&host.notes),
            source: HostSourceDto::from(&host.source),
            has_key: host.identity_file.is_some(),
        }
    }
}

impl Host {
    /// Build a **manual** host from the form payload. `source` is forced to
    /// `Manual` (the form only ever authors manual entries); blank optional
    /// fields collapse to `None` so an empty identity path never reads as
    /// `has_key` and an empty password is not persisted. Internal metadata is not
    /// accepted from the webview.
    pub fn from(dto: HostInputDto) -> (host: Host)
        ensures
            host.name == dto.name,
            host.hostname == dto.hostname,
            host.user == dto.user,
            host.port == dto.port,
            host.identity_file == non_empty(dto.identity_file),
            host.password == non_empty(dto.password),
            host.proxy_jump == non_empty(dto.proxy_jump),
            host.startup_command == non_empty(dto.startup_command),
            host.tags == dto.tags,
            host.notes == non_empty(dto.notes),
            host.source == HostSource::Manual,
            host.original_ssh_host is None,
            host.key_setup_date is None,
            host.password_auth_disabled is None,
    {
        Host {
            name: dto.name,
            hostname: dto.hostname,
            user: dto.user,
            port: dto.port,
            identity_file: keep_non_empty(dto.identity_file),
            password: keep_non_empty(dto.password),
            proxy_jump: keep_non_empty(dto.proxy_jump),
            startup_command: keep_non_empty(dto.startup_command),
            tags: dto.tags,
            notes: keep_non_empty(dto.notes),
            source: HostSource::Manual,
            original_ssh_host: None,
            key_setup_date: None,
            password_auth_disabled: None,
        }
    }
}

impl ConnectionStatusDto {
    /// The frontend's view of a connection status; a failure keeps its message.
    pub fn from(status: &ConnectionStatus) -> (r: Self)
        ensures
            r == connection_status_dto(*status),
    {
        match status {
            ConnectionStatus::Unknown => ConnectionStatusDto::Unknown,
            ConnectionStatus::Connecting => ConnectionStatusDto::Connecting,
            ConnectionStatus::Connected => ConnectionStatusDto::Connected,
            ConnectionStatus::Failed(message) => ConnectionStatusDto::Failed {
                message: message.clone(),
            },
        }
    }
}

impl ServiceKindDto {
    /// The frontend's name for a service kind.
    pub fn from(kind: &ServiceKind) -> (r: Self)
        ensures
            r == service_kind_dto(*kind),
    {
        match kind {
            ServiceKind::Docker => ServiceKindDto::Docker,
            ServiceKind::Nginx => ServiceKindDto::Nginx,
            ServiceKind::PostgreSQL => ServiceKindDto::PostgreSQL,
            ServiceKind::Redis => ServiceKindDto::Redis,
            ServiceKind::NodeJS => ServiceKindDto::NodeJS,
        }
    }
}

impl ServiceMetricDto {
    /// The frontend's view of a quick-scan metric.
    pub fn from(metric: &ServiceMetric) -> (r: Self)
        ensures
            r == service_metric_dto(*metric),
    {
        let value = match metric.value {
            MetricValue::Integer(v) => v,
        };
        ServiceMetricDto { name: metric.name.clone(), value }
    }
}

impl ServiceDto {
    /// The frontend's view of a detected service: its kind and every metric, in
    /// order.
    pub fn from(service: &DetectedService) -> (r: Self)
        ensures
            describes_service(r, *service),
    {
        let mut metrics: Vec<ServiceMetricDto> = Vec::new();
        let n = service.metrics.len();
        for i in 0..n
            invariant
                n == service.metrics@.len(),
                metrics@ == service.metrics@.take(i as int).map_values(
                    |m: ServiceMetric| service_metric_dto(m),
                ),
        {
            metrics.push(ServiceMetricDto::from(&service.metrics[i]));
            assert(metrics@ =~= service.metrics@.take(i + 1).map_values(
                |m: ServiceMetric| service_metric_dto(m),
            ));
        }
        assert(service.metrics@.take(n as int) =~= service.metrics@);
        ServiceDto { kind: ServiceKindDto::from(&service.kind), metrics }
    }
}

impl FileEntryDto {
    /// The frontend's view of a listing entry.
    pub fn from(entry: &FileEntry) -> (r: Self)
        ensures
            r == file_entry_dto(*entry),
    {
        FileEntryDto {
            name: entry.name.clone(),
            path: entry.path.clone(),
            size: entry.size,
            is_dir: entry.is_dir,
        }
    }
}

/// A host's origin reaches the frontend unchanged: an `~/.ssh/config` import
/// stays `SshConfig`, a manual host stays `Manual`.
pub proof fn law_host_source_dto_keeps_the_origin(source: HostSource)
    ensures
        source == HostSource::SshConfig <==> host_source_dto(source) == HostSourceDto::SshConfig,
        source == HostSource::Manual <==> host_source_dto(source) == HostSourceDto::Manual,
{
}

/// Each service kind keeps its name on the way to the frontend.
pub proof fn law_service_kind_dto_keeps_the_kind(kind: ServiceKind)
    ensures
        kind == ServiceKind::Docker <==> service_kind_dto(kind) == ServiceKindDto::Docker,
        kind == ServiceKind::Nginx <==> service_kind_dto(kind) == ServiceKindDto::Nginx,
        kind == ServiceKind::PostgreSQL <==> service_kind_dto(kind) == ServiceKindDto::PostgreSQL,
        kind == ServiceKind::Redis <==> service_kind_dto(kind) == ServiceKindDto::Redis,
        kind == ServiceKind::NodeJS <==> service_kind_dto(kind) == ServiceKindDto::NodeJS,
{
}

/// Each connection status keeps its variant on the way to the frontend, and a
/// failure keeps its message.
pub proof fn law_connection_status_dto_keeps_the_status(status: ConnectionStatus)
    ensures
        status == ConnectionStatus::Unknown <==> connection_status_dto(status)
            == ConnectionStatusDto::Unknown,
        status == ConnectionStatus::Connecting <==> connection_status_dto(status)
            == ConnectionStatusDto::Connecting,
        status == ConnectionStatus::Connected <==> connection_status_dto(status)
            == ConnectionStatusDto::Connected,
        forall|m: String| status == ConnectionStatus::Failed(m) <==> connection_status_dto(status)
            == (ConnectionStatusDto::Failed { message: m }),
{
}

/// A quick-scan metric keeps its name and its integer value.
pub proof fn law_service_metric_dto_keeps_name_and_value(metric: ServiceMetric)
    ensures
        service_metric_dto(metric).name == metric.name,
        metric.value == MetricValue::Integer(service_metric_dto(metric).value),
{
}

/// A listing entry keeps its name, path, size and kind (file or directory).
pub proof fn law_file_entry_dto_keeps_every_field(entry: FileEntry)
    ensures
        file_entry_dto(entry).name == entry.name,
        file_entry_dto(entry).path == entry.path,
        file_entry_dto(entry).size == entry.size,
        file_entry_dto(entry).is_dir == entry.is_dir,
{
}

/// The frontend's view of a detected service: the same kind, and one metric
/// per metric of the service, in order, each with the same name and value.
pub proof fn law_service_dto_keeps_kind_and_every_metric(dto: ServiceDto, service: DetectedService)
    requires
        describes_service(dto, service),
    ensures
        service.kind == ServiceKind::Docker <==> dto.kind == ServiceKindDto::Docker,
        service.kind == ServiceKind::Nginx <==> dto.kind == ServiceKindDto::Nginx,
        service.kind == ServiceKind::PostgreSQL <==> dto.kind == ServiceKindDto::PostgreSQL,
        service.kind == ServiceKind::Redis <==> dto.kind == ServiceKindDto::Redis,
        service.kind == ServiceKind::NodeJS <==> dto.kind == ServiceKindDto::NodeJS,
        dto.metrics@.len() == service.metrics@.len(),
        forall|i: int| 0 <= i < dto.metrics@.len() ==> {
            &&& (#[trigger] dto.metrics@[i]).name == service.metrics@[i].name
            &&& service.metrics@[i].value == MetricValue::Integer(dto.metrics@[i].value)
        },
{
}

/// The public view of a host: name, hostname, user, port, startup command,
/// tags, notes and origin as the host has them, and `has_key` exactly when an
/// identity file is configured.
pub proof fn law_host_dto_is_the_public_view(dto: HostDto, host: Host)
    requires
        describes_host(dto, host),
    ensures
        dto.name == host.name,
        dto.hostname == host.hostname,
        dto.user == host.user,
        dto.port == host.port,
        dto.startup_command == host.startup_command,
        dto.tags@.len() == host.tags@.len(),
        forall|i: int| 0 <= i < dto.tags@.len() ==> #[trigger] dto.tags@[i] == host.tags@[i],
        dto.notes == host.notes,
        host.source == HostSource::SshConfig <==> dto.source == HostSourceDto::SshConfig,
        host.source == HostSource::Manual <==> dto.source == HostSourceDto::Manual,
        dto.has_key <==> host.identity_file is Some,
{
}

/// A blank form field becomes `None`; any other value, and `None`, stay as
/// they are.
pub proof fn law_non_empty_drops_only_blank_fields(field: Option<String>)
    ensures
        field is None ==> non_empty(field) is None,
        forall|v: String| field == Some(v) && v@.len() == 0 ==> non_empty(field) is None,
        forall|v: String| field == Some(v) && v@.len() > 0 ==> non_empty(field) == Some(v),
{
}

} // verus!
