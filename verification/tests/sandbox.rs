use openshell::command::{CommandOutput, CommandResult};
use openshell::sandbox::apple_container::{
    image_is_available, listed_address, listed_phase, AppleContainerSandboxClient, CreateEvent,
    CreateStage, DeleteStage, SandboxCreation, NETWORK_WAIT_SECS, SANDBOX_PREFIX,
};
use openshell::sandbox::listing::{
    container_record, find_container, lists_reference, parse_containers, parse_references,
    ContainerRecord,
};
use openshell::sandbox::{Sandbox, SandboxBackend, SandboxPhase, SandboxSpec, SandboxTemplate};
use openshell::status::Code;

fn client() -> AppleContainerSandboxClient {
    AppleContainerSandboxClient::new(
        "base:latest".to_string(),
        "https://gw:8080".to_string(),
        "0.0.0.0:2222".to_string(),
        "cafe".to_string(),
        300,
    )
}

fn sandbox(image: Option<&str>) -> Sandbox {
    Sandbox {
        id: "id-1".to_string(),
        name: "dev".to_string(),
        sandbox_spec: Some(SandboxSpec {
            template: image.map(|image| SandboxTemplate { image: image.to_string() }),
            environment: vec![("K".to_string(), "v=1".to_string())],
        }),
    }
}

fn ran(success: bool, stdout: &str, stderr: &str) -> CommandResult {
    Ok(CommandOutput::from_bytes(success, stdout.as_bytes(), stderr.as_bytes()))
}

fn not_run() -> CommandResult {
    Err("no such file".to_string())
}

fn begun() -> SandboxCreation {
    client().create(&sandbox(Some("img:1"))).unwrap()
}

const IMAGES: &str = r#"[{"reference":"other:1"},{"digest":"d"},{"reference":"img:1"}]"#;

const CONTAINERS: &str = r#"[
    {"status":"running"},
    {"configuration":{"id":"openshell-sandbox-dev"},"status":"running",
     "networks":[{"ipv4Address":"192.168.65.3/24"},{"ipv4Address":"10.0.0.1/8"}]},
    {"configuration":{"id":"openshell-sandbox-dev"},"status":"stopped"},
    {"configuration":{"id":"openshell-sandbox-old"},"status":"stopped","networks":[]},
    {"configuration":{"id":"openshell-sandbox-new"},"status":"booting",
     "networks":[{"ipv4Address":"192.168.65.9"}]},
    {"configuration":{"id":"openshell-sandbox-odd"},"status":7,
     "networks":{"0":{"ipv4Address":"1.2.3.4/5"}}}
]"#;

#[test]
fn client_keeps_its_settings() {
    let client = client();
    assert_eq!(client.default_image(), "base:latest");
    assert_eq!(client.ssh_listen_addr(), "0.0.0.0:2222");
    assert_eq!(client.ssh_handshake_secret(), "cafe");
    assert_eq!(client.ssh_handshake_skew_secs(), 300);
    let backend = SandboxBackend::AppleContainer(client);
    assert_eq!(backend.default_image(), "base:latest");
    assert_eq!(backend.ssh_listen_addr(), "0.0.0.0:2222");
    assert_eq!(backend.ssh_handshake_secret(), "cafe");
    assert_eq!(backend.ssh_handshake_skew_secs(), 300);
}

#[test]
fn sandboxes_are_stored_objects() {
    let sandbox = sandbox(None);
    assert_eq!(Sandbox::object_type(), "sandbox");
    assert_eq!(sandbox.object_id(), "id-1");
    assert_eq!(sandbox.object_name(), "dev");
}

#[test]
fn gpus_are_not_supported() {
    let status = SandboxBackend::AppleContainer(client()).validate_gpu_support().unwrap_err();
    assert_eq!(status.code, Code::Unimplemented);
    assert_eq!(
        status.message,
        "GPU support is not available with the Apple Container backend"
    );
}

#[test]
fn environment_of_a_sandbox() {
    let sandbox = sandbox(None);
    let environment = client().sandbox_env_vars(&sandbox, sandbox.sandbox_spec.as_ref().unwrap());
    let expected: Vec<(String, String)> = [
        ("OPENSHELL_GRPC_ENDPOINT", "https://gw:8080"),
        ("OPENSHELL_SSH_LISTEN_ADDR", "0.0.0.0:2222"),
        ("OPENSHELL_SSH_HANDSHAKE_SECRET", "cafe"),
        ("OPENSHELL_SSH_HANDSHAKE_SKEW_SECS", "300"),
        ("OPENSHELL_SANDBOX_ID", "id-1"),
        ("OPENSHELL_SANDBOX_NAME", "dev"),
        ("K", "v=1"),
    ]
    .iter()
    .map(|(key, value)| (key.to_string(), value.to_string()))
    .collect();
    assert_eq!(environment, expected);
}

#[test]
fn sandbox_without_a_spec_is_refused() {
    let bare = Sandbox { sandbox_spec: None, ..sandbox(None) };
    let status = SandboxBackend::AppleContainer(client()).create(&bare).unwrap_err();
    assert_eq!(status.code, Code::InvalidArgument);
    assert_eq!(status.message, "sandbox spec is required");
}

#[test]
fn image_of_a_sandbox() {
    for (template, image) in [(Some("img:1"), "img:1"), (Some(""), "base:latest"), (None, "base:latest")] {
        assert_eq!(client().create(&sandbox(template)).unwrap().image(), image);
    }
}

#[test]
fn sandbox_is_created_and_started() {
    let mut creation = begun();
    assert_eq!(creation.command().unwrap(), vec!["image", "list", "--format", "json"]);
    creation.advance(&CreateEvent::Ran(ran(true, "[]", "")));
    assert_eq!(creation.command().unwrap(), vec!["image", "pull", "img:1"]);
    creation.advance(&CreateEvent::Ran(ran(true, "", "")));
    assert_eq!(
        creation.command().unwrap(),
        vec![
            "create",
            "--name",
            "openshell-sandbox-dev",
            "-d",
            "--entrypoint",
            "/bin/sh",
            "-e",
            "OPENSHELL_GRPC_ENDPOINT=https://gw:8080",
            "-e",
            "OPENSHELL_SSH_LISTEN_ADDR=0.0.0.0:2222",
            "-e",
            "OPENSHELL_SSH_HANDSHAKE_SECRET=cafe",
            "-e",
            "OPENSHELL_SSH_HANDSHAKE_SKEW_SECS=300",
            "-e",
            "OPENSHELL_SANDBOX_ID=id-1",
            "-e",
            "OPENSHELL_SANDBOX_NAME=dev",
            "-e",
            "K=v=1",
            "img:1",
            "-c",
            "exec sleep infinity",
        ]
    );
    creation.advance(&CreateEvent::Ran(ran(true, "", "")));
    assert_eq!(creation.command().unwrap(), vec!["start", "openshell-sandbox-dev"]);
    creation.advance(&CreateEvent::Ran(ran(true, "", "")));
    assert_eq!(creation.stage(), CreateStage::AwaitNetwork);
    assert!(creation.command().is_none());
    assert_eq!(NETWORK_WAIT_SECS, 2);
    creation.advance(&CreateEvent::NetworkAwaited);
    assert_eq!(creation.stage(), CreateStage::BootstrapSsh);
    assert!(creation.command().is_none());
    creation.advance(&CreateEvent::SshBootstrapped(Ok(())));
    assert_eq!(creation.stage(), CreateStage::Created);
    assert!(creation.command().is_none());
    assert!(creation.failure().is_none());
    assert!(creation.ssh_problem().is_none());
    creation.advance(&CreateEvent::Ran(not_run()));
    assert_eq!(creation.stage(), CreateStage::Created);
}

#[test]
fn ssh_server_of_a_sandbox() {
    assert_eq!(
        begun().ssh_install_arguments(),
        vec![
            "exec",
            "--uid",
            "0",
            "openshell-sandbox-dev",
            "apt-get",
            "install",
            "openssh-server",
        ]
    );
    let bootstrap = begun().ssh_bootstrap();
    assert_eq!(bootstrap.install_arguments, begun().ssh_install_arguments());
    assert_eq!(bootstrap.container_name, "openshell-sandbox-dev");
    assert_eq!(bootstrap.package, "openssh-server");
    assert_eq!(bootstrap.port, 2222);
    assert!(bootstrap.empty_passwords);
    assert_eq!(bootstrap.host_uid, 1000);
    assert_eq!(bootstrap.image_user, "sandbox");
    assert_eq!(
        bootstrap.start_arguments,
        vec![
            "exec",
            "--uid",
            "0",
            "openshell-sandbox-dev",
            "/usr/sbin/sshd",
            "-p",
            "2222",
        ]
    );
}

#[test]
fn sandbox_is_created_whatever_comes_of_its_ssh_server() {
    let mut creation = begun();
    for _ in 0..4 {
        creation.advance(&CreateEvent::Ran(ran(true, "[]", "")));
    }
    creation.advance(&CreateEvent::SshBootstrapped(Ok(())));
    creation.advance(&CreateEvent::Ran(not_run()));
    assert_eq!(creation.stage(), CreateStage::AwaitNetwork);
    creation.advance(&CreateEvent::NetworkAwaited);
    creation.advance(&CreateEvent::NetworkAwaited);
    assert_eq!(creation.stage(), CreateStage::BootstrapSsh);
    let problem = "failed to install openssh-server".to_string();
    creation.advance(&CreateEvent::SshBootstrapped(Err(problem.clone())));
    assert_eq!(creation.stage(), CreateStage::Created);
    assert!(creation.failure().is_none());
    assert_eq!(creation.ssh_problem(), Some(&problem));
}

#[test]
fn image_that_is_listed_is_not_pulled() {
    for (output, stage) in [
        (ran(true, IMAGES, ""), CreateStage::CreateContainer),
        (ran(false, IMAGES, ""), CreateStage::PullImage),
        (ran(true, "no json", ""), CreateStage::PullImage),
        (ran(true, r#"{"reference":"img:1"}"#, ""), CreateStage::PullImage),
        (ran(true, r#"[{"reference":"img:10"}]"#, ""), CreateStage::PullImage),
    ] {
        let mut creation = begun();
        creation.advance(&CreateEvent::Ran(output));
        assert_eq!(creation.stage(), stage);
    }
}

#[test]
fn failed_commands_end_a_creation() {
    let ok = ran(true, "[]", "");
    let failed = ran(false, "", "boom");
    let cases: Vec<(usize, CommandResult, Code, &str)> = vec![
        (0, not_run(), Code::Internal, "failed to list images: no such file"),
        (1, not_run(), Code::Internal, "failed to pull image: no such file"),
        (1, failed.clone(), Code::Internal, "failed to pull image 'img:1': boom"),
        (2, not_run(), Code::Internal, "failed to run container CLI: no such file"),
        (2, failed.clone(), Code::Internal, "failed to create sandbox container: boom"),
        (
            2,
            ran(false, "", "Error: container already exists"),
            Code::AlreadyExists,
            "sandbox container 'openshell-sandbox-dev' already exists",
        ),
        (
            2,
            ran(false, "", "name already in use"),
            Code::AlreadyExists,
            "sandbox container 'openshell-sandbox-dev' already exists",
        ),
        (3, not_run(), Code::Internal, "failed to start container: no such file"),
        (3, failed, Code::Internal, "failed to start sandbox container: boom"),
    ];
    for (commands, last, code, message) in cases {
        let mut creation = begun();
        for _ in 0..commands {
            creation.advance(&CreateEvent::Ran(ok.clone()));
        }
        creation.advance(&CreateEvent::Ran(last));
        assert_eq!(creation.stage(), CreateStage::Failed);
        assert_eq!(creation.failure().unwrap().code, code);
        assert_eq!(creation.failure().unwrap().message, message);
        assert!(creation.command().is_none());
    }
}

#[test]
fn sandbox_is_stopped_and_deleted() {
    let backend = SandboxBackend::AppleContainer(client());
    let mut deletion = backend.delete("dev");
    assert_eq!(deletion.command().unwrap(), vec!["stop", "openshell-sandbox-dev"]);
    deletion.advance(&not_run());
    assert_eq!(deletion.stage(), DeleteStage::DeleteContainer);
    assert_eq!(deletion.command().unwrap(), vec!["delete", "openshell-sandbox-dev"]);
    deletion.advance(&ran(true, "", ""));
    assert!(deletion.command().is_none());
    assert!(deletion.outcome().unwrap().unwrap());
}

#[test]
fn outcome_of_a_deletion() {
    let cases: Vec<(CommandResult, Result<bool, &str>)> = vec![
        (ran(false, "", "container not found"), Ok(false)),
        (ran(false, "", "it does not exist"), Ok(false)),
        (ran(false, "", "busy"), Err("failed to delete sandbox container: busy")),
        (not_run(), Err("failed to run container CLI: no such file")),
    ];
    for (deleted, expected) in cases {
        let mut deletion = client().delete("dev");
        deletion.advance(&ran(true, "", ""));
        deletion.advance(&deleted);
        match (deletion.outcome().unwrap(), expected) {
            (Ok(gone), Ok(wanted)) => assert_eq!(gone, wanted),
            (Err(status), Err(message)) => {
                assert_eq!(status.code, Code::Internal);
                assert_eq!(status.message, message);
            }
            (outcome, _) => panic!("{outcome:?}"),
        }
    }
    assert!(client().delete("dev").outcome().is_none());
}

#[test]
fn containers_are_read_from_json() {
    let records = parse_containers(CONTAINERS).unwrap();
    assert_eq!(records.len(), 6);
    assert_eq!(records[0].id, None);
    assert_eq!(records[0].status, Some("running".to_string()));
    assert_eq!(records[1].id, Some("openshell-sandbox-dev".to_string()));
    assert_eq!(records[1].ipv4_address, Some("192.168.65.3/24".to_string()));
    assert_eq!(records[3].ipv4_address, None);
    assert_eq!(records[5].status, None);
    assert_eq!(records[5].ipv4_address, Some("1.2.3.4/5".to_string()));
    let found = find_container(&records, "openshell-sandbox-dev").unwrap();
    assert_eq!(found.status, Some("running".to_string()));
    assert!(find_container(&records, "openshell-sandbox-").is_none());
}

#[test]
fn json_values_that_are_no_containers_have_nothing() {
    for text in ["null", "\"openshell-sandbox-dev\"", "[\"a\"]", "7", "{}"] {
        let value: serde_json::Value = serde_json::from_str(text).unwrap();
        let record = container_record(&value);
        assert!(record.id.is_none());
        assert!(record.status.is_none());
        assert!(record.ipv4_address.is_none());
    }
}

#[test]
fn references_are_read_from_json() {
    let references = parse_references(IMAGES).unwrap();
    assert_eq!(
        references,
        vec![Some("other:1".to_string()), None, Some("img:1".to_string())]
    );
    assert!(lists_reference(&references, "img:1"));
    assert!(!lists_reference(&references, "img"));
    assert!(image_is_available(true, &Ok(references.clone()), "img:1"));
    assert!(!image_is_available(false, &Ok(references), "img:1"));
    assert!(!image_is_available(true, &Err("no json".to_string()), "img:1"));
}

#[test]
fn malformed_json_is_an_error() {
    for text in ["", "{", "[1,]", "7"] {
        let error = serde_json::from_str::<Vec<serde_json::Value>>(text).unwrap_err().to_string();
        assert_eq!(parse_containers(text).unwrap_err(), error);
        assert_eq!(parse_references(text).unwrap_err(), error);
    }
}

#[test]
fn address_of_a_sandbox() {
    let backend = SandboxBackend::AppleContainer(client());
    let listed = ran(true, CONTAINERS, "");
    assert_eq!(
        backend.sandbox_ip(&sandbox(None), &listed).unwrap(),
        Some("192.168.65.3".to_string())
    );
    let cases = [("old", None), ("new", Some("192.168.65.9")), ("gone", None), ("", None)];
    for (name, address) in cases {
        assert_eq!(
            client().sandbox_ip(name, &listed).unwrap(),
            address.map(String::from)
        );
    }
}

#[test]
fn phase_of_a_sandbox() {
    let listed = ran(true, CONTAINERS, "");
    for (name, phase) in [
        ("dev", SandboxPhase::Ready),
        ("old", SandboxPhase::Unknown),
        ("new", SandboxPhase::Provisioning),
        ("odd", SandboxPhase::Provisioning),
    ] {
        assert_eq!(client().get_sandbox_phase(name, &listed).unwrap(), phase);
    }
    let status = client().get_sandbox_phase("gone", &listed).unwrap_err();
    assert_eq!(status.code, Code::NotFound);
    assert_eq!(status.message, "sandbox 'gone' not found");
}

#[test]
fn listing_that_fails_shows_nothing() {
    let failed = ran(false, CONTAINERS, "boom");
    assert_eq!(client().sandbox_ip("dev", &failed).unwrap(), None);
    assert_eq!(
        client().get_sandbox_phase("dev", &failed).unwrap_err().code,
        Code::NotFound
    );
    let status = client().get_sandbox_phase("dev", &not_run()).unwrap_err();
    assert_eq!(status.code, Code::Internal);
    assert_eq!(status.message, "failed to list containers: no such file");
    let status = client().sandbox_ip("dev", &ran(true, "[", "")).unwrap_err();
    assert_eq!(status.code, Code::Internal);
    assert!(status.message.starts_with("failed to parse container list JSON: EOF while parsing"));
    assert_eq!(
        client().list_arguments(),
        vec!["list", "--all", "--format", "json"]
    );
}

#[test]
fn lookups_on_records() {
    let records = vec![
        ContainerRecord { id: None, status: None, ipv4_address: None },
        ContainerRecord {
            id: Some(format!("{SANDBOX_PREFIX}a")),
            status: None,
            ipv4_address: Some("10.0.0.1/24/x".to_string()),
        },
    ];
    assert_eq!(listed_address(&records, "a"), Some("10.0.0.1".to_string()));
    assert_eq!(listed_phase(&records, "a").unwrap(), SandboxPhase::Provisioning);
    assert_eq!(listed_address(&records, "b"), None);
    assert!(listed_phase(&records, "b").is_err());
}
