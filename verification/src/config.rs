//! Configuration management for OpenShell components.

use vstd::prelude::*;

use crate::text::converts_to;

verus! {

/// `std::path::PathBuf`, the path of a file. Only carried through.
#[verifier::external_type_specification]
#[verifier::external_body]
pub struct ExPathBuf(std::path::PathBuf);

/// `PathBuf::clone`: the same path.
pub assume_specification[ <std::path::PathBuf as Clone>::clone ](
    path: &std::path::PathBuf,
) -> (copy: std::path::PathBuf)
    ensures
        copy == *path,
;

/// The address of a socket.
#[derive(Debug, Clone, Copy, PartialEq, Eq)]
pub enum BindAddress {
    /// An IPv4 address and a port.
    V4 { octets: [u8; 4], port: u16 },
    /// An IPv6 address and a port, with flow information and scope.
    V6 { segments: [u16; 8], port: u16, flowinfo: u32, scope_id: u32 },
}

/// Server configuration.
#[derive(Debug, Clone)]
pub struct Config {
    /// Address to bind the server to.
    pub bind_address: BindAddress,
    /// Log level (trace, debug, info, warn, error).
    pub log_level: String,
    /// TLS configuration.  When `None`, the server listens on plaintext HTTP.
    pub tls: Option<TlsConfig>,
    /// Database URL for persistence.
    pub database_url: String,
    /// Kubernetes namespace for sandboxes.
    pub sandbox_namespace: String,
    /// Default container image for sandboxes.
    pub sandbox_image: String,
    /// Kubernetes `imagePullPolicy` for sandbox pods (e.g. `Always`,
    /// `IfNotPresent`, `Never`).  Defaults to empty, which lets Kubernetes
    /// apply its own default (`:latest` → `Always`, anything else →
    /// `IfNotPresent`).
    pub sandbox_image_pull_policy: String,
    /// gRPC endpoint for sandboxes to connect back to OpenShell.
    /// Used by sandbox pods to fetch their policy at startup.
    pub grpc_endpoint: String,
    /// Public gateway host for SSH proxy connections.
    pub ssh_gateway_host: String,
    /// Public gateway port for SSH proxy connections.
    pub ssh_gateway_port: u16,
    /// Path for SSH CONNECT/upgrade requests.
    pub ssh_connect_path: String,
    /// SSH listen port inside sandbox pods.
    pub sandbox_ssh_port: u16,
    /// Shared secret for gateway-to-sandbox SSH handshake.
    pub ssh_handshake_secret: String,
    /// Allowed clock skew for SSH handshake validation, in seconds.
    pub ssh_handshake_skew_secs: u64,
    /// TTL for SSH session tokens, in seconds. 0 disables expiry.
    pub ssh_session_ttl_secs: u64,
    /// Kubernetes secret name containing client TLS materials for sandbox pods.
    /// When set, sandbox pods get this secret mounted so they can connect to
    /// the server over mTLS.
    pub client_tls_secret_name: String,
    /// Host gateway IP for sandbox pod hostAliases.
    /// When set, sandbox pods get hostAliases entries mapping
    /// `host.docker.internal` and `host.openshell.internal` to this IP,
    /// allowing them to reach services running on the Docker host.
    pub host_gateway_ip: String,
    /// Sandbox backend: `"kubernetes"` (default) or `"apple-container"`.
    ///
    /// When set to `"apple-container"`, the server manages sandboxes via
    /// the container bridge daemon instead of the Kubernetes API.
    pub sandbox_backend: String,
    /// Endpoint of the container bridge daemon (e.g., `https://host.containers.internal:50052`).
    ///
    /// Required when `sandbox_backend` is `"apple-container"`. The gateway
    /// connects to this endpoint over mutual TLS.
    pub bridge_endpoint: String,
    /// TLS configuration for the container bridge connection.
    ///
    /// When set, the gateway authenticates to the bridge daemon using mTLS.
    /// The gateway presents `bridge_tls.cert_path` / `bridge_tls.key_path`
    /// as the client certificate and verifies the bridge's server certificate
    /// against `bridge_tls.ca_path`.
    pub bridge_tls: Option<BridgeTlsConfig>,
}

/// TLS configuration.
///
/// By default mTLS is enforced — all clients must present a certificate
/// signed by the given CA.  When `allow_unauthenticated` is `true`, the
/// TLS handshake also accepts connections without a client certificate
/// (needed for reverse-proxy deployments like Cloudflare Tunnel).
#[derive(Debug, Clone)]
pub struct TlsConfig {
    /// Path to the TLS certificate file.
    pub cert_path: std::path::PathBuf,
    /// Path to the TLS private key file.
    pub key_path: std::path::PathBuf,
    /// Path to the CA certificate file for client certificate verification (mTLS).
    /// The server requires all clients to present a valid certificate signed by
    /// this CA.
    pub client_ca_path: std::path::PathBuf,
    /// When `true`, the TLS handshake succeeds even without a client
    /// certificate.  Application-layer middleware must then enforce auth
    /// (e.g. via a CF JWT header).
    pub allow_unauthenticated: bool,
}

/// TLS configuration for the gateway-to-bridge-daemon connection.
///
/// Both sides authenticate: the bridge daemon verifies the gateway's client
/// certificate, and the gateway verifies the bridge daemon's server certificate.
/// All certificates must be signed by the same CA.
#[derive(Debug, Clone)]
pub struct BridgeTlsConfig {
    /// Path to the CA certificate for verifying the bridge daemon's server cert.
    pub ca_path: std::path::PathBuf,
    /// Path to the client certificate the gateway presents to the bridge daemon.
    pub cert_path: std::path::PathBuf,
    /// Path to the private key for the client certificate.
    pub key_path: std::path::PathBuf,
}

impl Config {
    /// Create a new config with optional TLS.
    pub fn new(tls: Option<TlsConfig>) -> (config: Self)
        ensures
            is_default_address(config.bind_address),
            config.log_level@ == "info"@,
            config.tls == tls,
            config.database_url@.len() == 0,
            config.sandbox_namespace@ == "default"@,
            config.sandbox_image@.len() == 0,
            config.sandbox_image_pull_policy@.len() == 0,
            config.grpc_endpoint@.len() == 0,
            config.ssh_gateway_host@ == "127.0.0.1"@,
            config.ssh_gateway_port == 8080,
            config.ssh_connect_path@ == "/connect/ssh"@,
            config.sandbox_ssh_port == 2222,
            config.ssh_handshake_secret@.len() == 0,
            config.ssh_handshake_skew_secs == 300,
            config.ssh_session_ttl_secs == 86400,
            config.client_tls_secret_name@.len() == 0,
            config.host_gateway_ip@.len() == 0,
            config.sandbox_backend@ == "kubernetes"@,
            config.bridge_endpoint@.len() == 0,
            config.bridge_tls is None,
    {
        Config {
            bind_address: default_bind_address(),
            log_level: default_log_level(),
            tls,
            database_url: String::new(),
            sandbox_namespace: default_sandbox_namespace(),
            sandbox_image: String::new(),
            sandbox_image_pull_policy: String::new(),
            grpc_endpoint: String::new(),
            ssh_gateway_host: default_ssh_gateway_host(),
            ssh_gateway_port: default_ssh_gateway_port(),
            ssh_connect_path: default_ssh_connect_path(),
            sandbox_ssh_port: default_sandbox_ssh_port(),
            ssh_handshake_secret: String::new(),
            ssh_handshake_skew_secs: default_ssh_handshake_skew_secs(),
            ssh_session_ttl_secs: default_ssh_session_ttl_secs(),
            client_tls_secret_name: String::new(),
            host_gateway_ip: String::new(),
            sandbox_backend: default_sandbox_backend(),
            bridge_endpoint: String::new(),
            bridge_tls: None,
        }
    }

    /// Create a new configuration with the given bind address.
    #[must_use]
    pub fn with_bind_address(self, addr: BindAddress) -> (config: Self)
        ensures
            config == (Config { bind_address: addr, ..self }),
    {
        Config { bind_address: addr, ..self }
    }

    /// Create a new configuration with the given log level.
    #[must_use]
    pub fn with_log_level<S: Into<String>>(self, level: S) -> (config: Self)
        ensures
            converts_to(level, config.log_level),
            config == (Config { log_level: config.log_level, ..self }),
    {
        Config { log_level: level.into(), ..self }
    }

    /// Create a new configuration with a database URL.
    #[must_use]
    pub fn with_database_url<S: Into<String>>(self, url: S) -> (config: Self)
        ensures
            converts_to(url, config.database_url),
            config == (Config { database_url: config.database_url, ..self }),
    {
        Config { database_url: url.into(), ..self }
    }

    /// Create a new configuration with a sandbox namespace.
    #[must_use]
    pub fn with_sandbox_namespace<S: Into<String>>(self, namespace: S) -> (config: Self)
        ensures
            converts_to(namespace, config.sandbox_namespace),
            config == (Config { sandbox_namespace: config.sandbox_namespace, ..self }),
    {
        Config { sandbox_namespace: namespace.into(), ..self }
    }

    /// Create a new configuration with a default sandbox image.
    #[must_use]
    pub fn with_sandbox_image<S: Into<String>>(self, image: S) -> (config: Self)
        ensures
            converts_to(image, config.sandbox_image),
            config == (Config { sandbox_image: config.sandbox_image, ..self }),
    {
        Config { sandbox_image: image.into(), ..self }
    }

    /// Create a new configuration with a sandbox image pull policy.
    #[must_use]
    pub fn with_sandbox_image_pull_policy<S: Into<String>>(self, policy: S) -> (config: Self)
        ensures
            converts_to(policy, config.sandbox_image_pull_policy),
            config == (Config { sandbox_image_pull_policy: config.sandbox_image_pull_policy, ..self }),
    {
        Config { sandbox_image_pull_policy: policy.into(), ..self }
    }

    /// Create a new configuration with a gRPC endpoint for sandbox callback.
    #[must_use]
    pub fn with_grpc_endpoint<S: Into<String>>(self, endpoint: S) -> (config: Self)
        ensures
            converts_to(endpoint, config.grpc_endpoint),
            config == (Config { grpc_endpoint: config.grpc_endpoint, ..self }),
    {
        Config { grpc_endpoint: endpoint.into(), ..self }
    }

    /// Create a new configuration with the SSH gateway host.
    #[must_use]
    pub fn with_ssh_gateway_host<S: Into<String>>(self, host: S) -> (config: Self)
        ensures
            converts_to(host, config.ssh_gateway_host),
            config == (Config { ssh_gateway_host: config.ssh_gateway_host, ..self }),
    {
        Config { ssh_gateway_host: host.into(), ..self }
    }

    /// Create a new configuration with the SSH gateway port.
    #[must_use]
    pub fn with_ssh_gateway_port(self, port: u16) -> (config: Self)
        ensures
            config == (Config { ssh_gateway_port: port, ..self }),
    {
        Config { ssh_gateway_port: port, ..self }
    }

    /// Create a new configuration with the SSH connect path.
    #[must_use]
    pub fn with_ssh_connect_path<S: Into<String>>(self, path: S) -> (config: Self)
        ensures
            converts_to(path, config.ssh_connect_path),
            config == (Config { ssh_connect_path: config.ssh_connect_path, ..self }),
    {
        Config { ssh_connect_path: path.into(), ..self }
    }

    /// Create a new configuration with the sandbox SSH port.
    #[must_use]
    pub fn with_sandbox_ssh_port(self, port: u16) -> (config: Self)
        ensures
            config == (Config { sandbox_ssh_port: port, ..self }),
    {
        Config { sandbox_ssh_port: port, ..self }
    }

    /// Create a new configuration with the SSH handshake secret.
    #[must_use]
    pub fn with_ssh_handshake_secret<S: Into<String>>(self, secret: S) -> (config: Self)
        ensures
            converts_to(secret, config.ssh_handshake_secret),
            config == (Config { ssh_handshake_secret: config.ssh_handshake_secret, ..self }),
    {
        Config { ssh_handshake_secret: secret.into(), ..self }
    }

    /// Create a new configuration with SSH handshake skew allowance.
    #[must_use]
    pub fn with_ssh_handshake_skew_secs(self, secs: u64) -> (config: Self)
        ensures
            config == (Config { ssh_handshake_skew_secs: secs, ..self }),
    {
        Config { ssh_handshake_skew_secs: secs, ..self }
    }

    /// Create a new configuration with the SSH session TTL.
    #[must_use]
    pub fn with_ssh_session_ttl_secs(self, secs: u64) -> (config: Self)
        ensures
            config == (Config { ssh_session_ttl_secs: secs, ..self }),
    {
        Config { ssh_session_ttl_secs: secs, ..self }
    }

    /// Set the Kubernetes secret name for sandbox client TLS materials.
    #[must_use]
    pub fn with_client_tls_secret_name<S: Into<String>>(self, name: S) -> (config: Self)
        ensures
            converts_to(name, config.client_tls_secret_name),
            config == (Config { client_tls_secret_name: config.client_tls_secret_name, ..self }),
    {
        Config { client_tls_secret_name: name.into(), ..self }
    }

    /// Set the host gateway IP for sandbox pod hostAliases.
    #[must_use]
    pub fn with_host_gateway_ip<S: Into<String>>(self, ip: S) -> (config: Self)
        ensures
            converts_to(ip, config.host_gateway_ip),
            config == (Config { host_gateway_ip: config.host_gateway_ip, ..self }),
    {
        Config { host_gateway_ip: ip.into(), ..self }
    }

    /// Set the sandbox backend (`"kubernetes"` or `"apple-container"`).
    #[must_use]
    pub fn with_sandbox_backend<S: Into<String>>(self, backend: S) -> (config: Self)
        ensures
            converts_to(backend, config.sandbox_backend),
            config == (Config { sandbox_backend: config.sandbox_backend, ..self }),
    {
        Config { sandbox_backend: backend.into(), ..self }
    }

    /// Set the container bridge daemon endpoint.
    #[must_use]
    pub fn with_bridge_endpoint<S: Into<String>>(self, endpoint: S) -> (config: Self)
        ensures
            converts_to(endpoint, config.bridge_endpoint),
            config == (Config { bridge_endpoint: config.bridge_endpoint, ..self }),
    {
        Config { bridge_endpoint: endpoint.into(), ..self }
    }

    /// Set the mTLS configuration for the bridge daemon connection.
    #[must_use]
    pub fn with_bridge_tls(self, tls: BridgeTlsConfig) -> (config: Self)
        ensures
            config == (Config { bridge_tls: Some(tls), ..self }),
    {
        Config { bridge_tls: Some(tls), ..self }
    }
}

/// Whether `address` is port 8080 on every IPv4 interface.
pub open spec fn is_default_address(address: BindAddress) -> bool {
    address matches BindAddress::V4 { octets, port } && octets@ == seq![0u8, 0, 0, 0] && port
        == 8080
}

/// Default address to bind the server to: port 8080 on every IPv4 interface.
pub fn default_bind_address() -> (address: BindAddress)
    ensures
        is_default_address(address),
{
    BindAddress::V4 { octets: [0, 0, 0, 0], port: 8080 }
}

/// Default log level.
pub fn default_log_level() -> (value: String)
    ensures
        value@ == "info"@,
{
    "info".to_string()
}

/// Default Kubernetes namespace for sandboxes.
pub fn default_sandbox_namespace() -> (value: String)
    ensures
        value@ == "default"@,
{
    "default".to_string()
}

/// Default public gateway host for SSH proxy connections.
pub fn default_ssh_gateway_host() -> (value: String)
    ensures
        value@ == "127.0.0.1"@,
{
    "127.0.0.1".to_string()
}

/// Default public gateway port for SSH proxy connections.
pub fn default_ssh_gateway_port() -> (value: u16)
    ensures
        value == 8080,
{
    8080
}

/// Default path for SSH CONNECT/upgrade requests.
pub fn default_ssh_connect_path() -> (value: String)
    ensures
        value@ == "/connect/ssh"@,
{
    "/connect/ssh".to_string()
}

/// Default SSH listen port inside sandbox pods.
pub fn default_sandbox_ssh_port() -> (value: u16)
    ensures
        value == 2222,
{
    2222
}

/// Default allowed clock skew for SSH handshakes, in seconds.
pub fn default_ssh_handshake_skew_secs() -> (value: u64)
    ensures
        value == 300,
{
    300
}

/// Default TTL for SSH session tokens: 24 hours, in seconds.
pub fn default_ssh_session_ttl_secs() -> (value: u64)
    ensures
        value == 86400,
{
    86400
}

/// Default sandbox backend.
pub fn default_sandbox_backend() -> (value: String)
    ensures
        value@ == "kubernetes"@,
{
    "kubernetes".to_string()
}

// ---------------------------------------------------------------------------
// Laws
// ---------------------------------------------------------------------------

/// The default address is every IPv4 interface, at port 8080.
pub proof fn default_address_is_every_interface(address: BindAddress)
    requires
        is_default_address(address),
    ensures
        address matches BindAddress::V4 { octets, port } && port == 8080 && octets@.len() == 4
            && forall|i: int| 0 <= i < 4 ==> #[trigger] octets@[i] == 0,
{
}

/// A new configuration manages sandboxes through Kubernetes, listens on every interface, has no
/// database and no secret yet, and takes TLS as it is given.
pub proof fn new_config_has_its_defaults(tls: Option<TlsConfig>, config: Config)
    requires
        call_ensures(Config::new, (tls,), config),
    ensures
        config.tls == tls,
        config.bridge_tls is None,
        config.bridge_endpoint@.len() == 0,
        config.sandbox_backend@ == "kubernetes"@,
        config.database_url@.len() == 0,
        config.ssh_handshake_secret@.len() == 0,
        config.log_level@ == "info"@,
        config.sandbox_namespace@ == "default"@,
        config.ssh_gateway_host@ == "127.0.0.1"@,
        config.ssh_gateway_port == 8080,
        config.ssh_connect_path@ == "/connect/ssh"@,
        config.sandbox_ssh_port == 2222,
        config.ssh_handshake_skew_secs == 300,
        config.ssh_session_ttl_secs == 24 * 60 * 60,
        config.bind_address matches BindAddress::V4 { octets, port } && port == 8080 && forall|
            i: int,
        |
            0 <= i < 4 ==> #[trigger] octets@[i] == 0,
{
    default_address_is_every_interface(config.bind_address);
}

}
