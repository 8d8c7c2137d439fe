use openshell::config::{BridgeTlsConfig, Config, TlsConfig};
use openshell::error::{Error, ErrorClass};
use openshell::server::{
    is_benign_tls_handshake_failure, run_server, ErrorKind, ServerEvent, ServerRun, ServerStage,
    SESSION_REAPER_SECS,
};
use std::path::PathBuf;

#[test]
fn classifies_probe_style_tls_disconnects_as_benign() {
    for kind in [ErrorKind::UnexpectedEof, ErrorKind::ConnectionReset] {
        assert!(is_benign_tls_handshake_failure(kind));
    }
}

#[test]
fn preserves_real_tls_failures_as_errors() {
    for kind in [
        ErrorKind::InvalidData,
        ErrorKind::PermissionDenied,
        ErrorKind::Other,
    ] {
        assert!(!is_benign_tls_handshake_failure(kind));
    }
}

fn config() -> Config {
    Config::new(None).with_database_url(" sqlite::memory:\n").with_ssh_handshake_secret("cafe")
}

fn tls() -> TlsConfig {
    TlsConfig {
        cert_path: PathBuf::from("/tls.crt"),
        key_path: PathBuf::from("/tls.key"),
        client_ca_path: PathBuf::from("/ca.crt"),
        allow_unauthenticated: false,
    }
}

fn bridge_tls() -> BridgeTlsConfig {
    BridgeTlsConfig {
        ca_path: PathBuf::from("/ca"),
        cert_path: PathBuf::from("/cert"),
        key_path: PathBuf::from("/key"),
    }
}

fn run_to(run: &mut ServerRun, stage: ServerStage) -> Vec<ServerStage> {
    let mut seen: Vec<ServerStage> = Vec::new();
    while run.stage() != stage {
        assert!(seen.len() < 20);
        seen.push(run.stage());
        run.advance(ServerEvent::Done);
    }
    seen
}

#[test]
fn configuration_is_checked_first() {
    let empty = run_server(Config::new(None)).unwrap_err();
    assert_eq!(empty.class, ErrorClass::Config);
    assert_eq!(empty.message, "database_url is required");
    let blank = run_server(config().with_database_url(" \t\n")).unwrap_err();
    assert_eq!(blank.message, "database_url is required");
    let open = run_server(config().with_ssh_handshake_secret("")).unwrap_err();
    assert_eq!(open.class, ErrorClass::Config);
    assert_eq!(
        open.message,
        "ssh_handshake_secret is required. Set --ssh-handshake-secret or OPENSHELL_SSH_HANDSHAKE_SECRET"
    );
}

#[test]
fn kubernetes_backend_is_started() {
    let mut run = run_server(config().with_bridge_endpoint("https://b")).unwrap();
    assert_eq!(run.database_url(), "sqlite::memory:");
    assert_eq!(
        run_to(&mut run, ServerStage::Accept),
        vec![
            ServerStage::ConnectStore,
            ServerStage::CreateSandboxClient,
            ServerStage::SpawnKubernetesTasks,
            ServerStage::SpawnSessionReaper,
            ServerStage::Bind,
            ServerStage::ListenForShutdown,
        ]
    );
    assert_eq!(SESSION_REAPER_SECS, 3600);
    assert!(run.failure().is_none());
}

#[test]
fn apple_container_backend_is_started() {
    let apple = || config().with_sandbox_backend("apple-container");
    let cases: Vec<(Config, Option<ServerStage>)> = vec![
        (apple(), None),
        (apple().with_bridge_tls(bridge_tls()), None),
        (
            apple().with_bridge_endpoint("https://b"),
            Some(ServerStage::ConnectBridgeInsecure),
        ),
        (
            apple().with_bridge_endpoint("https://b").with_bridge_tls(bridge_tls()),
            Some(ServerStage::ConnectBridge),
        ),
    ];
    for (config, bridge) in cases {
        let mut expected = vec![ServerStage::ConnectStore];
        expected.extend(bridge);
        expected.extend([
            ServerStage::SpawnSessionReaper,
            ServerStage::Bind,
            ServerStage::ListenForShutdown,
        ]);
        let mut run = run_server(config).unwrap();
        assert_eq!(run_to(&mut run, ServerStage::Accept), expected);
    }
}

#[test]
fn certificates_are_loaded_where_tls_is_configured() {
    let config = Config { tls: Some(tls()), ..config() };
    let mut run = run_server(config).unwrap();
    let seen = run_to(&mut run, ServerStage::Accept);
    assert!(seen.contains(&ServerStage::LoadTls));
    assert!(run.config().tls.is_some());
}

#[test]
fn kubernetes_client_is_set_up_by_the_configuration() {
    let config = config()
        .with_sandbox_namespace("ns")
        .with_sandbox_image("img")
        .with_sandbox_image_pull_policy("Always")
        .with_grpc_endpoint("http://e")
        .with_sandbox_ssh_port(22)
        .with_ssh_handshake_skew_secs(9)
        .with_client_tls_secret_name("t")
        .with_host_gateway_ip("10.0.0.1");
    let settings = run_server(config).unwrap().kubernetes_settings();
    assert_eq!(settings.namespace, "ns");
    assert_eq!(settings.image, "img");
    assert_eq!(settings.image_pull_policy, "Always");
    assert_eq!(settings.grpc_endpoint, "http://e");
    assert_eq!(settings.ssh_listen_addr, "0.0.0.0:22");
    assert_eq!(settings.ssh_handshake_secret, "cafe");
    assert_eq!(settings.ssh_handshake_skew_secs, 9);
    assert_eq!(settings.client_tls_secret_name, "t");
    assert_eq!(settings.host_gateway_ip, "10.0.0.1");
}

#[test]
fn failed_steps_end_a_run() {
    let error = Error::new(ErrorClass::Execution, "no store".to_string());
    let cases: Vec<(ServerStage, ServerEvent, ErrorClass, &str)> = vec![
        (
            ServerStage::ConnectStore,
            ServerEvent::StepFailed(error.clone()),
            ErrorClass::Execution,
            "no store",
        ),
        (
            ServerStage::CreateSandboxClient,
            ServerEvent::SandboxClientFailed("no cluster".to_string()),
            ErrorClass::Execution,
            "failed to create kubernetes client: no cluster",
        ),
        (
            ServerStage::Bind,
            ServerEvent::BindFailed {
                address: "0.0.0.0:8080".to_string(),
                error: "in use".to_string(),
            },
            ErrorClass::Transport,
            "failed to bind to 0.0.0.0:8080: in use",
        ),
        (
            ServerStage::LoadTls,
            ServerEvent::StepFailed(error),
            ErrorClass::Execution,
            "no store",
        ),
    ];
    for (stage, event, class, message) in cases {
        let mut run = run_server(Config { tls: Some(tls()), ..config() }).unwrap();
        run_to(&mut run, stage);
        run.advance(event);
        assert_eq!(run.stage(), ServerStage::Failed);
        assert_eq!(run.failure().unwrap().class, class);
        assert_eq!(run.failure().unwrap().message, message);
        run.advance(ServerEvent::Done);
        assert_eq!(run.stage(), ServerStage::Failed);
    }
}

#[test]
fn only_a_signal_ends_the_accepting() {
    let mut run = run_server(config()).unwrap();
    run.advance(ServerEvent::Shutdown);
    assert_eq!(run.stage(), ServerStage::ConnectStore);
    run_to(&mut run, ServerStage::Accept);
    for event in [ServerEvent::Accepted, ServerEvent::AcceptFailed, ServerEvent::Done] {
        run.advance(event);
        assert_eq!(run.stage(), ServerStage::Accept);
    }
    run.advance(ServerEvent::Shutdown);
    assert_eq!(run.stage(), ServerStage::Stopped);
    assert!(run.failure().is_none());
}

#[test]
fn operator_is_told_of_the_bridge() {
    let notice = |config: Config| run_server(config).unwrap().bridge_notice();
    let apple = || config().with_sandbox_backend("apple-container");
    assert_eq!(notice(config()), None);
    assert!(notice(apple()).unwrap().contains("no bridge endpoint configured"));
    let insecure = notice(apple().with_bridge_endpoint("https://b")).unwrap();
    assert!(insecure.starts_with("Bridge mTLS not configured"));
    let secure = apple().with_bridge_endpoint("https://b").with_bridge_tls(bridge_tls());
    assert_eq!(notice(secure), None);
}
