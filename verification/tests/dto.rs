use omnyssh::dto::{
    ConnectionStatusDto, FileEntryDto, HostDto, HostInputDto, HostSourceDto, ServiceDto,
    ServiceKindDto, ServiceMetricDto,
};
use omnyssh::event::{DetectedService, FileEntry, MetricValue, ServiceKind, ServiceMetric};
use omnyssh::host::{ConnectionStatus, Host, HostSource};

fn host_with_secret() -> Host {
    Host {
        name: "web-prod-1".to_string(),
        hostname: "10.0.0.1".to_string(),
        user: "deploy".to_string(),
        port: 2222,
        identity_file: Some("/home/me/.ssh/id_ed25519".to_string()),
        password: Some("s3cr3t-p4ss".to_string()),
        startup_command: Some("ssh -tt app@10.0.0.2 'sudo -iu developer'".to_string()),
        tags: vec!["prod".to_string()],
        notes: Some("primary".to_string()),
        source: HostSource::Manual,
        ..Host::default()
    }
}

#[test]
fn host_dto_maps_public_fields() {
    let dto = HostDto::from(&host_with_secret());
    assert_eq!(dto.name, "web-prod-1");
    assert_eq!(dto.hostname, "10.0.0.1");
    assert_eq!(dto.user, "deploy");
    assert_eq!(dto.port, 2222);
    assert_eq!(
        dto.startup_command.as_deref(),
        Some("ssh -tt app@10.0.0.2 'sudo -iu developer'")
    );
    assert_eq!(dto.tags, vec!["prod".to_string()]);
    assert_eq!(dto.notes.as_deref(), Some("primary"));
    assert!(matches!(dto.source, HostSourceDto::Manual));
    // `has_key` is derived from the identity file, which itself stays backend-side.
    assert!(dto.has_key);
}

#[test]
fn host_dto_has_key_is_false_without_identity_file() {
    let host = Host {
        identity_file: None,
        ..Host::default()
    };
    assert!(!HostDto::from(&host).has_key);
}

fn full_input() -> HostInputDto {
    HostInputDto {
        name: "web-prod-1".to_string(),
        hostname: "10.0.0.1".to_string(),
        user: "deploy".to_string(),
        port: 2222,
        identity_file: Some("/home/me/.ssh/id_ed25519".to_string()),
        password: Some("s3cr3t-p4ss".to_string()),
        proxy_jump: Some("bastion".to_string()),
        startup_command: Some("ssh -tt app@10.0.0.2 'sudo -iu developer'".to_string()),
        tags: vec!["prod".to_string()],
        notes: Some("primary".to_string()),
    }
}

#[test]
fn host_input_maps_to_a_manual_host() {
    // The form only authors manual entries; SSH-config hosts are read-only
    // imports — so `source` is forced regardless of input.
    let host = Host::from(full_input());
    assert_eq!(host.name, "web-prod-1");
    assert_eq!(host.hostname, "10.0.0.1");
    assert_eq!(host.user, "deploy");
    assert_eq!(host.port, 2222);
    assert_eq!(
        host.identity_file.as_deref(),
        Some("/home/me/.ssh/id_ed25519")
    );
    assert_eq!(host.proxy_jump.as_deref(), Some("bastion"));
    assert_eq!(
        host.startup_command.as_deref(),
        Some("ssh -tt app@10.0.0.2 'sudo -iu developer'")
    );
    assert_eq!(host.tags, vec!["prod".to_string()]);
    assert_eq!(host.notes.as_deref(), Some("primary"));
    assert_eq!(host.source, HostSource::Manual);
    // Internal metadata is never the form's to set.
    assert!(host.original_ssh_host.is_none());
    assert!(host.key_setup_date.is_none());
    assert!(host.password_auth_disabled.is_none());
}

#[test]
fn host_input_collapses_blank_optionals_to_none() {
    // An empty identity path must not read as `has_key`; an empty password/proxy/
    // notes must not persist an empty string.
    let host = Host::from(HostInputDto {
        name: "h".to_string(),
        hostname: "example.com".to_string(),
        user: "root".to_string(),
        port: 22,
        identity_file: Some(String::new()),
        password: Some(String::new()),
        proxy_jump: Some(String::new()),
        startup_command: Some(String::new()),
        tags: vec![],
        notes: Some(String::new()),
    });
    assert!(host.identity_file.is_none());
    assert!(host.password.is_none());
    assert!(host.proxy_jump.is_none());
    assert!(host.startup_command.is_none());
    assert!(host.notes.is_none());
    assert!(!HostDto::from(&host).has_key);
}

#[test]
fn host_input_keeps_the_password_verbatim() {
    // Not trimmed: its bytes are preserved as typed.
    let mut input = full_input();
    input.password = Some(" pass with spaces ".to_string());
    let host = Host::from(input);
    assert_eq!(host.password.as_deref(), Some(" pass with spaces "));
}

#[test]
fn connection_status_dto_maps_every_variant() {
    assert!(matches!(
        ConnectionStatusDto::from(&ConnectionStatus::Unknown),
        ConnectionStatusDto::Unknown
    ));
    assert!(matches!(
        ConnectionStatusDto::from(&ConnectionStatus::Connecting),
        ConnectionStatusDto::Connecting
    ));
    assert!(matches!(
        ConnectionStatusDto::from(&ConnectionStatus::Connected),
        ConnectionStatusDto::Connected
    ));
    let failed = ConnectionStatusDto::from(&ConnectionStatus::Failed("boom".to_string()));
    match failed {
        ConnectionStatusDto::Failed { message } => assert_eq!(message, "boom"),
        other => panic!("expected Failed, got {other:?}"),
    }
}

fn metric(name: &str, value: i64) -> ServiceMetric {
    ServiceMetric {
        name: name.to_string(),
        value: MetricValue::Integer(value),
    }
}

#[test]
fn service_dto_maps_kind_and_integer_metrics() {
    let service = DetectedService {
        kind: ServiceKind::Docker,
        metrics: vec![
            metric("containers_running", 4),
            metric("containers_stopped", 1),
        ],
    };
    let dto = ServiceDto::from(&service);
    assert!(matches!(dto.kind, ServiceKindDto::Docker));
    assert_eq!(dto.metrics.len(), 2);
    assert_eq!(dto.metrics[0].name, "containers_running");
    assert_eq!(dto.metrics[0].value, 4);
    assert_eq!(dto.metrics[1].name, "containers_stopped");
    assert_eq!(dto.metrics[1].value, 1);
}

#[test]
fn service_dto_keeps_an_empty_metric_list() {
    let dto = ServiceDto::from(&DetectedService {
        kind: ServiceKind::Nginx,
        metrics: vec![],
    });
    assert!(matches!(dto.kind, ServiceKindDto::Nginx));
    assert!(dto.metrics.is_empty());
}

#[test]
fn service_kind_dto_maps_every_kind() {
    let pairs = [
        (ServiceKind::Docker, ServiceKindDto::Docker),
        (ServiceKind::Nginx, ServiceKindDto::Nginx),
        (ServiceKind::PostgreSQL, ServiceKindDto::PostgreSQL),
        (ServiceKind::Redis, ServiceKindDto::Redis),
        (ServiceKind::NodeJS, ServiceKindDto::NodeJS),
    ];
    for (kind, dto) in pairs {
        assert_eq!(ServiceKindDto::from(&kind), dto);
    }
    let m = ServiceMetricDto::from(&metric("connections", -3));
    assert_eq!((m.name.as_str(), m.value), ("connections", -3));
}

#[test]
fn host_source_dto_maps_both_origins() {
    assert_eq!(HostSourceDto::from(&HostSource::SshConfig), HostSourceDto::SshConfig);
    assert_eq!(HostSourceDto::from(&HostSource::Manual), HostSourceDto::Manual);
}

#[test]
fn file_entry_dto_maps_a_file_and_a_directory() {
    let file = FileEntry {
        name: "config.toml".to_string(),
        path: "/etc/omnyssh/config.toml".to_string(),
        size: 4096,
        is_dir: false,
    };
    let dto = FileEntryDto::from(&file);
    assert_eq!(dto.name, "config.toml");
    assert_eq!(dto.path, "/etc/omnyssh/config.toml");
    assert_eq!(dto.size, 4096);
    assert!(!dto.is_dir);

    let dir = FileEntry {
        name: "..".to_string(),
        path: "/etc".to_string(),
        size: 0,
        is_dir: true,
    };
    let dto = FileEntryDto::from(&dir);
    assert!(dto.is_dir);
    assert_eq!(dto.size, 0);
}
