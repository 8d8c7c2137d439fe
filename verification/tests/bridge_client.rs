use openshell::config::BridgeTlsConfig;
use openshell::error::{Error, ErrorClass};
use openshell::sandbox::bridge_client::{
    after_configuring, after_parsing, bridge_settings, BridgeClient, BridgeConnection,
    ConnectStage, ContainerState, RpcFailure, BRIDGE_CONNECT_TIMEOUT_SECS, BRIDGE_DOMAIN,
    BRIDGE_RPC_TIMEOUT_SECS,
};
use openshell::status::Code;
use std::path::PathBuf;

const ENDPOINT: &str = "https://host.containers.internal:50052";

fn connected() -> BridgeClient {
    let mut connection = BridgeClient::connect_insecure(ENDPOINT);
    assert!(connection.parse_endpoint().is_some());
    connection.advance(&Ok(()));
    connection.outcome().unwrap().unwrap()
}

fn step(connection: &mut BridgeConnection) {
    if connection.stage() == ConnectStage::ParseEndpoint {
        assert!(connection.parse_endpoint().is_some());
    } else {
        connection.advance(&Ok(()));
    }
}

fn failure(code: Code) -> RpcFailure {
    RpcFailure { code, text: "down".to_string() }
}

fn check<R>(outcome: Result<R, Error>, class: ErrorClass, message: &str) {
    match outcome {
        Ok(_) => panic!("expected an error"),
        Err(error) => {
            assert_eq!(error.class, class);
            assert_eq!(error.message, message);
        }
    }
}

#[test]
fn debug_impl_shows_endpoint() {
    let display = format!("{:?}", "https://host.containers.internal:50052");
    assert!(display.contains("host.containers.internal"));
    assert_eq!(
        format!("{:?}", connected()),
        "BridgeClient { endpoint: \"https://host.containers.internal:50052\" }"
    );
}

#[test]
fn bridge_rpc_timeout_is_reasonable() {
    assert!(BRIDGE_RPC_TIMEOUT_SECS >= 10);
    assert!(BRIDGE_RPC_TIMEOUT_SECS <= 120);
}

#[test]
fn bridge_settings_are_exact() {
    assert_eq!(BRIDGE_RPC_TIMEOUT_SECS, 30);
    assert_eq!(BRIDGE_CONNECT_TIMEOUT_SECS, 10);
    assert_eq!(BRIDGE_DOMAIN, "openshell-bridge");
    assert_eq!(connected().endpoint(), ENDPOINT);
}

#[test]
fn steps_of_a_connection() {
    let mut connection = BridgeClient::connect(ENDPOINT);
    assert_eq!(connection.endpoint(), ENDPOINT);
    let mut seen: Vec<ConnectStage> = Vec::new();
    while connection.stage() != ConnectStage::ConfigureTls {
        seen.push(connection.stage());
        step(&mut connection);
    }
    assert_eq!(
        seen,
        vec![
            ConnectStage::ReadCa,
            ConnectStage::ReadCert,
            ConnectStage::ReadKey,
            ConnectStage::ParseEndpoint,
        ]
    );
    assert!(connection.outcome().is_none());
    let (stage, error) = after_configuring(None);
    assert_eq!(stage, ConnectStage::Connect);
    assert!(error.is_none());
    assert!(BridgeClient::connect(ENDPOINT).outcome().is_none());
    assert_eq!(connected().endpoint(), ENDPOINT);
}

#[test]
fn tls_settings_hold_the_right_files() {
    let settings = bridge_settings(b"ca", b"cert", b"key");
    let expected = tonic::transport::ClientTlsConfig::new()
        .ca_certificate(tonic::transport::Certificate::from_pem("ca"))
        .identity(tonic::transport::Identity::from_pem("cert", "key"))
        .domain_name("openshell-bridge");
    assert_eq!(format!("{settings:?}"), format!("{expected:?}"));
    let swapped = bridge_settings(b"cert", b"ca", b"key");
    assert_ne!(format!("{swapped:?}"), format!("{expected:?}"));
}

#[test]
fn certificates_that_are_none_are_refused() {
    let mut connection = BridgeClient::connect(ENDPOINT);
    for _ in 0..3 {
        connection.advance(&Ok(()));
    }
    let endpoint = connection.parse_endpoint().unwrap();
    connection.advance(&Ok(()));
    connection.advance(&Err("gone".to_string()));
    assert_eq!(connection.stage(), ConnectStage::ConfigureTls);
    assert!(connection.configure_tls(endpoint, b"no", b"pem", b"here").is_none());
    assert_eq!(connection.stage(), ConnectStage::Failed);
    match connection.outcome().unwrap() {
        Ok(client) => panic!("{client:?}"),
        Err(error) => {
            assert_eq!(error.class, ErrorClass::Tls);
            assert!(error.message.starts_with("failed to configure bridge TLS: "));
        }
    }
}

#[test]
fn tls_is_configured_only_where_that_is_next() {
    let mut connection = BridgeClient::connect_insecure(ENDPOINT);
    let endpoint = connection.parse_endpoint().unwrap();
    assert!(connection.configure_tls(endpoint, b"", b"", b"").is_none());
    assert_eq!(connection.stage(), ConnectStage::Connect);
    let (stage, error) = after_configuring(Some("bad"));
    assert_eq!(stage, ConnectStage::Failed);
    assert_eq!(error.unwrap().message, "failed to configure bridge TLS: bad");
}

#[test]
fn failed_steps_of_a_connection() {
    let cases = [
        (0, ErrorClass::Tls, "failed to read bridge CA cert: gone"),
        (1, ErrorClass::Tls, "failed to read bridge client cert: gone"),
        (2, ErrorClass::Tls, "failed to read bridge client key: gone"),
    ];
    for (steps, class, message) in cases {
        let mut connection = BridgeClient::connect(ENDPOINT);
        for _ in 0..steps {
            step(&mut connection);
        }
        connection.advance(&Err("gone".to_string()));
        assert_eq!(connection.stage(), ConnectStage::Failed);
        connection.advance(&Ok(()));
        check(connection.outcome().unwrap(), class, message);
    }
    let mut connection = BridgeClient::connect_insecure(ENDPOINT);
    step(&mut connection);
    connection.advance(&Err("gone".to_string()));
    check(
        connection.outcome().unwrap(),
        ErrorClass::Transport,
        "failed to connect to bridge daemon at https://host.containers.internal:50052: gone",
    );
}

#[test]
fn replies_of_the_bridge() {
    let client = connected();
    assert!(client.health(Ok(true)).unwrap());
    assert_eq!(client.create_sandbox(Ok(7)).unwrap(), 7);
    assert!(client.start_sandbox(Ok(())).is_ok());
    assert!(client.stop_sandbox(Ok(())).is_ok());
    assert!(client.delete_sandbox(Ok(())).is_ok());
    assert_eq!(client.list_sandboxes(Ok(vec![1, 2])).unwrap(), vec![1, 2]);
    assert_eq!(client.watch_sandboxes(Ok("stream")).unwrap(), "stream");
}

#[test]
fn calls_that_the_bridge_does_not_serve() {
    let client = connected();
    let unavailable = failure(Code::Unavailable);
    check(
        client.health(Err(unavailable.clone())),
        ErrorClass::Transport,
        "bridge health check failed: down",
    );
    check(
        client.create_sandbox::<u8>(Err(unavailable.clone())),
        ErrorClass::Execution,
        "bridge create_container failed: down",
    );
    check(
        client.start_sandbox(Err(unavailable.clone())),
        ErrorClass::Execution,
        "bridge start_container failed: down",
    );
    check(
        client.stop_sandbox(Err(unavailable.clone())),
        ErrorClass::Execution,
        "bridge stop_container failed: down",
    );
    check(
        client.delete_sandbox(Err(unavailable.clone())),
        ErrorClass::Execution,
        "bridge delete_container failed: down",
    );
    check(
        client.list_sandboxes::<u8>(Err(unavailable.clone())),
        ErrorClass::Execution,
        "bridge list_containers failed: down",
    );
    check(
        client.watch_sandboxes::<u8>(Err(unavailable)),
        ErrorClass::Execution,
        "bridge watch_containers failed: down",
    );
}

#[test]
fn missing_container_is_no_error() {
    let client = connected();
    assert_eq!(client.get_sandbox(Ok(1)).unwrap(), Some(1));
    assert_eq!(client.get_sandbox::<u8>(Err(failure(Code::NotFound))).unwrap(), None);
    check(
        client.get_sandbox::<u8>(Err(failure(Code::Internal))),
        ErrorClass::Execution,
        "bridge get_container failed: down",
    );
    assert!(client.is_sandbox_running(Ok(ContainerState::Running)).unwrap());
    assert!(!client.is_sandbox_running(Ok(ContainerState::NotRunning)).unwrap());
    assert!(!client.is_sandbox_running(Err(failure(Code::NotFound))).unwrap());
    check(
        client.is_sandbox_running(Err(failure(Code::Unavailable))),
        ErrorClass::Execution,
        "bridge get_container failed: down",
    );
}

#[test]
fn requests_to_the_bridge() {
    let client = connected();
    let env = vec![("K".to_string(), "v".to_string())];
    let labels = vec![("app".to_string(), "openshell".to_string())];
    let created = client.create_request("n", "img", env.clone(), labels.clone());
    assert_eq!(created.name, "n");
    assert_eq!(created.image, "img");
    assert_eq!(created.env, env);
    assert_eq!(created.labels, labels);
    let stopped = client.stop_request("n", 5);
    assert_eq!(stopped.name, "n");
    assert_eq!(stopped.timeout_secs, 5);
    let deleted = client.delete_request("n");
    assert_eq!(deleted.name, "n");
    assert!(!deleted.force);
}

#[test]
fn endpoint_is_parsed_where_that_is_next() {
    let mut connection = BridgeClient::connect(ENDPOINT);
    assert!(connection.parse_endpoint().is_none());
    assert_eq!(connection.stage(), ConnectStage::ReadCa);
    for _ in 0..3 {
        connection.advance(&Ok(()));
    }
    connection.advance(&Ok(()));
    connection.advance(&Err("gone".to_string()));
    assert_eq!(connection.stage(), ConnectStage::ParseEndpoint);
    let made = connection.parse_endpoint().unwrap();
    assert_eq!(made.uri().host(), Some("host.containers.internal"));
    assert_eq!(connection.stage(), ConnectStage::ConfigureTls);
}

#[test]
fn text_that_is_no_endpoint_is_refused() {
    for text in ["", "a b", "http://a b"] {
        let error = tonic::transport::Channel::from_shared(text.to_string()).unwrap_err();
        let mut connection = BridgeClient::connect_insecure(text);
        assert!(connection.parse_endpoint().is_none());
        assert_eq!(connection.stage(), ConnectStage::Failed);
        check(
            connection.outcome().unwrap(),
            ErrorClass::Transport,
            &format!("invalid bridge endpoint: {error}"),
        );
    }
    let mut connection = BridgeClient::connect_insecure("");
    assert!(connection.parse_endpoint().is_none());
    check(
        connection.outcome().unwrap(),
        ErrorClass::Transport,
        "invalid bridge endpoint: empty string",
    );
}

#[test]
fn parsing_is_followed_by_the_next_step() {
    let (stage, error) = after_parsing(true, None);
    assert_eq!(stage, ConnectStage::ConfigureTls);
    assert!(error.is_none());
    assert_eq!(after_parsing(false, None).0, ConnectStage::Connect);
    let (stage, error) = after_parsing(true, Some("bad"));
    assert_eq!(stage, ConnectStage::Failed);
    assert_eq!(error.unwrap().message, "invalid bridge endpoint: bad");
}

#[test]
fn requests_for_containers() {
    let client = connected();
    let labels = vec![("app".to_string(), "openshell".to_string())];
    assert_eq!(client.start_request("n").name, "n");
    assert_eq!(client.get_request("n").name, "n");
    let listed = client.list_request(labels.clone());
    assert_eq!(listed.label_selector, labels);
    assert!(listed.state_filter.is_empty());
    assert_eq!(client.watch_request(labels.clone()).label_selector, labels);
}

/// The public key of the Ed25519 key whose seed is all zeros.
const PUBLIC_KEY: [u8; 32] = [
    0x3b, 0x6a, 0x27, 0xbc, 0xce, 0xb6, 0xa4, 0x2d, 0x62, 0xa3, 0xa8, 0xd0, 0x2a, 0x6f, 0x0d, 0x73,
    0x65, 0x32, 0x15, 0x77, 0x1d, 0xe2, 0x43, 0xa6, 0x3a, 0xc0, 0x48, 0xa1, 0x8b, 0x59, 0xda, 0x29,
];

const ED25519: [u8; 5] = [0x06, 0x03, 0x2b, 0x65, 0x70];

fn der(tag: u8, parts: &[&[u8]]) -> Vec<u8> {
    let content = parts.concat();
    let mut value = vec![tag];
    if content.len() >= 128 {
        value.push(0x81);
    }
    value.push(u8::try_from(content.len()).unwrap());
    value.extend(content);
    value
}

fn pem(label: &str, bytes: &[u8]) -> Vec<u8> {
    let digits: Vec<char> = ('A'..='Z').chain('a'..='z').chain('0'..='9').chain("+/".chars()).collect();
    let mut body = String::new();
    for chunk in bytes.chunks(3) {
        let mut group: usize = 0;
        for i in 0..3 {
            group = group * 256 + *chunk.get(i).unwrap_or(&0) as usize;
        }
        for i in 0..4 {
            if i <= chunk.len() {
                body.push(digits[(group >> (18 - 6 * i)) & 63]);
            } else {
                body.push('=');
            }
        }
    }
    format!("-----BEGIN {label}-----\n{body}\n-----END {label}-----\n").into_bytes()
}

/// A certificate for the key whose seed is all zeros, with an empty signature.
fn certificate() -> Vec<u8> {
    let algorithm = der(0x30, &[&ED25519]);
    let name = der(
        0x30,
        &[&der(0x31, &[&der(0x30, &[&[0x06, 0x03, 0x55, 0x04, 0x03], &der(0x0c, &[b"openshell"])])])],
    );
    let validity =
        der(0x30, &[&der(0x17, &[b"250101000000Z"]), &der(0x17, &[b"350101000000Z"])]);
    let key = der(0x30, &[&algorithm, &der(0x03, &[&[0], &PUBLIC_KEY])]);
    let body = der(
        0x30,
        &[
            &der(0xa0, &[&[0x02, 0x01, 0x02]]),
            &[0x02, 0x01, 0x01],
            &algorithm,
            &name,
            &validity,
            &name,
            &key,
        ],
    );
    pem("CERTIFICATE", &der(0x30, &[&body, &algorithm, &der(0x03, &[&[0; 65]])]))
}

fn private_key() -> Vec<u8> {
    let seed = der(0x04, &[&der(0x04, &[&[0; 32]])]);
    pem("PRIVATE KEY", &der(0x30, &[&[0x02, 0x01, 0x00], &der(0x30, &[&ED25519]), &seed]))
}

#[test]
fn connection_is_secured_by_the_certificates() {
    let configured = |ca: &[u8], cert: &[u8], key: &[u8]| {
        let mut connection = BridgeClient::connect(ENDPOINT);
        for _ in 0..3 {
            connection.advance(&Ok(()));
        }
        let endpoint = connection.parse_endpoint().unwrap();
        let made = connection.configure_tls(endpoint, ca, cert, key);
        (made, connection)
    };
    let (made, mut connection) = configured(&certificate(), &certificate(), &private_key());
    assert_eq!(made.unwrap().uri().to_string(), format!("{ENDPOINT}/"));
    assert_eq!(connection.stage(), ConnectStage::Connect);
    connection.advance(&Ok(()));
    assert_eq!(connection.outcome().unwrap().unwrap().endpoint(), ENDPOINT);

    let (made, connection) = configured(&certificate(), &private_key(), &certificate());
    assert!(made.is_none());
    assert_eq!(connection.stage(), ConnectStage::Failed);
    let (made, connection) = configured(&private_key(), &certificate(), &certificate());
    assert!(made.is_none());
    assert_eq!(connection.stage(), ConnectStage::Failed);
}

#[test]
fn files_are_read_in_their_roles() {
    let tls = BridgeTlsConfig {
        ca_path: PathBuf::from("/pki/ca.crt"),
        cert_path: PathBuf::from("/pki/tls.crt"),
        key_path: PathBuf::from("/pki/tls.key"),
    };
    let mut connection = BridgeClient::connect(ENDPOINT);
    for path in [&tls.ca_path, &tls.cert_path, &tls.key_path] {
        assert_eq!(connection.pem_path(&tls), Some(path));
        connection.advance(&Ok(()));
    }
    assert_eq!(connection.stage(), ConnectStage::ParseEndpoint);
    assert_eq!(connection.pem_path(&tls), None);
    assert_eq!(BridgeClient::connect_insecure(ENDPOINT).pem_path(&tls), None);
}
