//! The host record shared by every frontend, where it came from, and its live
//! connection status.

use vstd::prelude::*;

verus! {

/// Indicates where a host entry originated.
#[derive(Debug, PartialEq, Eq, Structural, Clone, Copy)]
pub enum HostSource {
    /// Imported from `~/.ssh/config` at startup.
    SshConfig,
    /// Added manually through a host form. The default origin.
    Manual,
}

/// A single host entry used for SSH connections.
///
/// Populated either from `~/.ssh/config` or from `hosts.toml` (manual entries).
#[derive(Debug)]
pub struct Host {
    /// Display name / alias (e.g. `"web-prod-1"`).
    pub name: String,
    /// Hostname or IP address to connect to.
    pub hostname: String,
    /// SSH user. Defaults to `"root"` when not specified.
    pub user: String,
    /// SSH port. Defaults to `22` when not specified.
    pub port: u16,
    /// Path to the private key file (e.g. `~/.ssh/id_ed25519`).
    pub identity_file: Option<String>,
    /// Password for password-based authentication.
    pub password: Option<String>,
    /// ProxyJump host alias (for bastion / jump-host setups).
    pub proxy_jump: Option<String>,
    /// Command sent after an interactive terminal shell opens.
    /// Dashboard metrics and SFTP continue to use this host directly.
    pub startup_command: Option<String>,
    /// Organisational tags (e.g. `["production", "web"]`).
    pub tags: Vec<String>,
    /// Free-text notes about this host.
    pub notes: Option<String>,
    /// Where this entry came from.
    pub source: HostSource,
    /// Original host name from `~/.ssh/config` if this host was renamed.
    /// Used to prevent duplicate entries when a SSH-config host is renamed.
    pub original_ssh_host: Option<String>,
    /// Date when an SSH key was configured for this host (ISO 8601 format).
    pub key_setup_date: Option<String>,
    /// Whether password authentication has been disabled on the server.
    pub password_auth_disabled: Option<bool>,
}

/// Runtime connection status for a host. Never serialised to disk.
#[derive(Debug, PartialEq, Eq)]
pub enum ConnectionStatus {
    /// No connection attempt has been made yet.
    Unknown,
    /// A connection attempt is currently in progress.
    Connecting,
    /// The host is connected.
    Connected,
    /// The last connection attempt failed with the given message.
    Failed(String),
}

/// Two optional strings hold the same text.
pub open spec fn same_text(a: Option<String>, b: Option<String>) -> bool {
    match (a, b) {
        (Some(x), Some(y)) => x@ == y@,
        (None, None) => true,
        _ => false,
    }
}

impl Host {
    /// Two host records describe the same host: every field carries the same value.
    pub open spec fn same_as(self, other: Host) -> bool {
        &&& self.name@ == other.name@
        &&& self.hostname@ == other.hostname@
        &&& self.user@ == other.user@
        &&& self.port == other.port
        &&& same_text(self.identity_file, other.identity_file)
        &&& same_text(self.password, other.password)
        &&& same_text(self.proxy_jump, other.proxy_jump)
        &&& same_text(self.startup_command, other.startup_command)
        &&& self.tags@.len() == other.tags@.len()
        &&& forall|i: int| 0 <= i < self.tags@.len() ==> #[trigger] self.tags@[i]@ == other.tags@[i]@
        &&& same_text(self.notes, other.notes)
        &&& self.source == other.source
        &&& same_text(self.original_ssh_host, other.original_ssh_host)
        &&& same_text(self.key_setup_date, other.key_setup_date)
        &&& self.password_auth_disabled == other.password_auth_disabled
    }
}

impl Default for Host {
    /// A host with every field at its default: empty name and hostname, user
    /// `"root"`, port 22, no optional settings, no tags, and a manual origin.
    fn default() -> (host: Host)
        ensures
            host.name@.len() == 0,
            host.hostname@.len() == 0,
            host.user@ == "root"@,
            host.port == 22,
            host.identity_file is None,
            host.password is None,
            host.proxy_jump is None,
            host.startup_command is None,
            host.tags@.len() == 0,
            host.notes is None,
            host.source == HostSource::Manual,
            host.original_ssh_host is None,
            host.key_setup_date is None,
            host.password_auth_disabled is None,
    {
        Host {
            name: String::new(),
            hostname: String::new(),
            user: default_user(),
            port: default_port(),
            identity_file: None,
            password: None,
            proxy_jump: None,
            startup_command: None,
            tags: Vec::new(),
            notes: None,
            source: HostSource::default(),
            original_ssh_host: None,
            key_setup_date: None,
            password_auth_disabled: None,
        }
    }
}

impl Default for HostSource {
    /// Hosts are manual unless imported from `~/.ssh/config`.
    fn default() -> (source: Self)
        ensures
            source == HostSource::Manual,
    {
        HostSource::Manual
    }
}

impl Default for ConnectionStatus {
    /// No connection attempt has been made yet.
    fn default() -> (status: Self)
        ensures
            status == ConnectionStatus::Unknown,
    {
        ConnectionStatus::Unknown
    }
}

impl Clone for ConnectionStatus {
    /// A copy of the status; a failure keeps its message.
    fn clone(&self) -> (r: Self)
        ensures
            r == *self,
    {
        match self {
            ConnectionStatus::Unknown => ConnectionStatus::Unknown,
            ConnectionStatus::Connecting => ConnectionStatus::Connecting,
            ConnectionStatus::Connected => ConnectionStatus::Connected,
            ConnectionStatus::Failed(message) => ConnectionStatus::Failed(message.clone()),
        }
    }
}

/// Copies an optional string, keeping its text.
pub(crate) fn copy_text(s: &Option<String>) -> (r: Option<String>)
    ensures
        r == *s,
{
    match s {
        Some(v) => Some(v.clone()),
        None => None,
    }
}

/// Copies a list of strings, keeping every entry's text.
pub(crate) fn copy_texts(v: &Vec<String>) -> (r: Vec<String>)
    ensures
        r@ == v@,
{
    let mut out: Vec<String> = Vec::new();
    let n = v.len();
    for i in 0..n
        invariant
            n == v@.len(),
            out@ == v@.take(i as int),
    {
        out.push(v[i].clone());
        assert(out@ =~= v@.take(i + 1));
    }
    assert(v@.take(n as int) =~= v@);
    out
}

impl Clone for Host {
    /// A field-by-field copy of the host.
    fn clone(&self) -> (r: Self)
        ensures
            r.same_as(*self),
    {
        let tags = copy_texts(&self.tags);
        Host {
            name: self.name.clone(),
            hostname: self.hostname.clone(),
            user: self.user.clone(),
            port: self.port,
            identity_file: copy_text(&self.identity_file),
            password: copy_text(&self.password),
            proxy_jump: copy_text(&self.proxy_jump),
            startup_command: copy_text(&self.startup_command),
            tags,
            notes: copy_text(&self.notes),
            source: self.source,
            original_ssh_host: copy_text(&self.original_ssh_host),
            key_setup_date: copy_text(&self.key_setup_date),
            password_auth_disabled: self.password_auth_disabled,
        }
    }
}

/// The SSH port used when a host names none.
pub fn default_port() -> (port: u16)
    ensures
        port == 22,
{
    22
}

/// The SSH user a host gets when it names none: `"root"`.
pub fn default_user() -> (user: String)
    ensures
        user@ == "root"@,
{
    String::from_str("root")
}

/// Two optional strings hold the same text exactly when both are absent, or
/// both are present with the same characters.
pub proof fn law_same_text_means_same_characters(a: Option<String>, b: Option<String>)
    ensures
        same_text(a, b) <==> ((a is None && b is None) || (a is Some && b is Some && a->0@
            == b->0@)),
{
}

/// Two host records describe the same host exactly when every field holds the
/// same value: the texts character by character, the tags entry by entry.
pub proof fn law_same_host_means_every_field_equal(a: Host, b: Host)
    requires
        a.same_as(b),
    ensures
        a.name@ == b.name@,
        a.hostname@ == b.hostname@,
        a.user@ == b.user@,
        a.port == b.port,
        a.identity_file is Some <==> b.identity_file is Some,
        a.identity_file is Some ==> a.identity_file->0@ == b.identity_file->0@,
        a.password is Some <==> b.password is Some,
        a.password is Some ==> a.password->0@ == b.password->0@,
        a.proxy_jump is Some <==> b.proxy_jump is Some,
        a.proxy_jump is Some ==> a.proxy_jump->0@ == b.proxy_jump->0@,
        a.startup_command is Some <==> b.startup_command is Some,
        a.startup_command is Some ==> a.startup_command->0@ == b.startup_command->0@,
        a.tags@.len() == b.tags@.len(),
        forall|i: int| 0 <= i < a.tags@.len() ==> (#[trigger] a.tags@[i])@ == b.tags@[i]@,
        a.notes is Some <==> b.notes is Some,
        a.notes is Some ==> a.notes->0@ == b.notes->0@,
        a.source == b.source,
        a.original_ssh_host is Some <==> b.original_ssh_host is Some,
        a.original_ssh_host is Some ==> a.original_ssh_host->0@ == b.original_ssh_host->0@,
        a.key_setup_date is Some <==> b.key_setup_date is Some,
        a.key_setup_date is Some ==> a.key_setup_date->0@ == b.key_setup_date->0@,
        a.password_auth_disabled == b.password_auth_disabled,
{
}

} // verus!
