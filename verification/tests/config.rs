use openshell::config::{BindAddress, BridgeTlsConfig, Config, TlsConfig};
use std::path::PathBuf;

#[test]
fn config_has_its_defaults() {
    let config = Config::new(None);
    assert_eq!(
        config.bind_address,
        BindAddress::V4 { octets: [0, 0, 0, 0], port: 8080 }
    );
    assert_eq!(config.log_level, "info");
    assert!(config.tls.is_none());
    assert_eq!(config.database_url, "");
    assert_eq!(config.sandbox_namespace, "default");
    assert_eq!(config.sandbox_image, "");
    assert_eq!(config.sandbox_image_pull_policy, "");
    assert_eq!(config.grpc_endpoint, "");
    assert_eq!(config.ssh_gateway_host, "127.0.0.1");
    assert_eq!(config.ssh_gateway_port, 8080);
    assert_eq!(config.ssh_connect_path, "/connect/ssh");
    assert_eq!(config.sandbox_ssh_port, 2222);
    assert_eq!(config.ssh_handshake_secret, "");
    assert_eq!(config.ssh_handshake_skew_secs, 300);
    assert_eq!(config.ssh_session_ttl_secs, 86400);
    assert_eq!(config.client_tls_secret_name, "");
    assert_eq!(config.host_gateway_ip, "");
    assert_eq!(config.sandbox_backend, "kubernetes");
    assert_eq!(config.bridge_endpoint, "");
    assert!(config.bridge_tls.is_none());
}

#[test]
fn config_is_built_field_by_field() {
    let tls = TlsConfig {
        cert_path: PathBuf::from("/tls.crt"),
        key_path: PathBuf::from("/tls.key"),
        client_ca_path: PathBuf::from("/ca.crt"),
        allow_unauthenticated: true,
    };
    let bridge_tls = BridgeTlsConfig {
        ca_path: PathBuf::from("/b/ca"),
        cert_path: PathBuf::from("/b/cert"),
        key_path: PathBuf::from("/b/key"),
    };
    let address = BindAddress::V6 { segments: [0; 8], port: 1, flowinfo: 2, scope_id: 3 };
    let config = Config::new(Some(tls))
        .with_bind_address(address)
        .with_log_level("debug")
        .with_database_url("sqlite::memory:".to_string())
        .with_sandbox_namespace("ns")
        .with_sandbox_image("img")
        .with_sandbox_image_pull_policy("Never")
        .with_grpc_endpoint("http://e")
        .with_ssh_gateway_host("h")
        .with_ssh_gateway_port(1)
        .with_ssh_connect_path("/p")
        .with_sandbox_ssh_port(2)
        .with_ssh_handshake_secret("s")
        .with_ssh_handshake_skew_secs(3)
        .with_ssh_session_ttl_secs(0)
        .with_client_tls_secret_name("t")
        .with_host_gateway_ip("10.0.0.1")
        .with_sandbox_backend("apple-container")
        .with_bridge_endpoint("https://b")
        .with_bridge_tls(bridge_tls)
        .clone();
    assert_eq!(config.bind_address, address);
    assert_eq!(config.log_level, "debug");
    assert_eq!(config.database_url, "sqlite::memory:");
    assert_eq!(config.sandbox_namespace, "ns");
    assert_eq!(config.sandbox_image, "img");
    assert_eq!(config.sandbox_image_pull_policy, "Never");
    assert_eq!(config.grpc_endpoint, "http://e");
    assert_eq!(config.ssh_gateway_host, "h");
    assert_eq!(config.ssh_gateway_port, 1);
    assert_eq!(config.ssh_connect_path, "/p");
    assert_eq!(config.sandbox_ssh_port, 2);
    assert_eq!(config.ssh_handshake_secret, "s");
    assert_eq!(config.ssh_handshake_skew_secs, 3);
    assert_eq!(config.ssh_session_ttl_secs, 0);
    assert_eq!(config.client_tls_secret_name, "t");
    assert_eq!(config.host_gateway_ip, "10.0.0.1");
    assert_eq!(config.sandbox_backend, "apple-container");
    assert_eq!(config.bridge_endpoint, "https://b");
    let tls = config.tls.unwrap();
    assert_eq!(tls.cert_path, PathBuf::from("/tls.crt"));
    assert!(tls.allow_unauthenticated);
    assert_eq!(config.bridge_tls.unwrap().key_path, PathBuf::from("/b/key"));
}
