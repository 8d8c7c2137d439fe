use openshell::container_runtime::{ExistingGateway, PortConflict, RuntimeType};
use openshell::deploy::{
    check_existing_deployment, extra_sans, fetch_gateway_logs, gateway_container_logs,
    gateway_handle, pki_files, DeployEvent, DeployOptions, DeployStage, Deployment,
    DEFAULT_GATEWAY_PORT,
};
use openshell::metadata::create_gateway_metadata;

fn found() -> ExistingGateway {
    ExistingGateway {
        container_exists: true,
        container_running: true,
        storage_exists: true,
        container_image: Some("native".to_string()),
    }
}

/// Run a deployment whose steps all succeed, up to a stage.
fn run_to(deployment: &mut Deployment, stage: DeployStage) -> Vec<DeployStage> {
    let mut seen: Vec<DeployStage> = Vec::new();
    while deployment.stage() != stage {
        let next = deployment.stage();
        seen.push(next);
        deployment.advance(match next {
            DeployStage::CheckExisting => DeployEvent::Existing(None),
            DeployStage::CheckPorts => DeployEvent::Ports(Vec::new()),
            DeployStage::Deployed | DeployStage::Failed => panic!("over at {next:?}"),
            _ => DeployEvent::Done,
        });
    }
    seen
}

#[test]
fn options_have_their_defaults() {
    let options = DeployOptions::new("gw");
    assert_eq!(options.name, "gw");
    assert!(options.image_ref.is_none());
    assert_eq!(options.port, 8080);
    assert_eq!(DEFAULT_GATEWAY_PORT, 8080);
    assert!(!options.disable_tls);
    assert!(!options.disable_gateway_auth);
    assert!(!options.recreate);
}

#[test]
fn options_are_set_one_by_one() {
    let options = DeployOptions::new("gw".to_string())
        .with_port(1)
        .with_disable_tls(true)
        .with_disable_gateway_auth(true)
        .with_recreate(true);
    assert_eq!(options.name, "gw");
    assert_eq!(options.port, 1);
    assert!(options.disable_tls);
    assert!(options.disable_gateway_auth);
    assert!(options.recreate);
    assert!(!options.with_recreate(false).recreate);
}

#[test]
fn gateway_is_deployed_step_by_step() {
    let mut deployment = Deployment::new(DeployOptions::new("gw").with_port(9090));
    let seen = run_to(&mut deployment, DeployStage::Deployed);
    assert_eq!(
        seen,
        vec![
            DeployStage::CheckRuntime,
            DeployStage::CheckExisting,
            DeployStage::EnsureNetwork,
            DeployStage::CheckPorts,
            DeployStage::EnsureStorage,
            DeployStage::LocateServer,
            DeployStage::GeneratePki,
            DeployStage::StorePki,
            DeployStage::WritePki,
            DeployStage::CreateGateway,
            DeployStage::StartGateway,
            DeployStage::WaitForReady,
            DeployStage::StoreMetadata,
        ]
    );
    assert!(deployment.failure().is_none());
    let handle = deployment.into_handle().unwrap();
    assert_eq!(handle.name(), "gw");
    assert_eq!(handle.gateway_endpoint(), "https://127.0.0.1:9090");
    assert_eq!(handle.metadata().gateway_port, 9090);
    assert_eq!(handle.runtime().runtime_type(), RuntimeType::AppleContainer);
}

#[test]
fn deployment_is_logged() {
    let mut deployment = Deployment::new(DeployOptions::new("gw").with_recreate(true));
    let mut lines: Vec<String> = Vec::new();
    while deployment.stage() != DeployStage::Deployed {
        lines.extend(deployment.log_line());
        deployment.advance(match deployment.stage() {
            DeployStage::CheckExisting => DeployEvent::Existing(Some(found())),
            DeployStage::CheckPorts => DeployEvent::Ports(Vec::new()),
            _ => DeployEvent::Done,
        });
    }
    assert_eq!(
        lines,
        vec![
            "[status] Checking runtime",
            "[status] Removing existing gateway",
            "[status] Initializing environment",
            "[progress] Generating TLS certificates",
            "[status] Starting gateway",
        ]
    );
}

#[test]
fn existing_gateway_stops_a_deployment() {
    let mut deployment = Deployment::new(DeployOptions::new("gw"));
    run_to(&mut deployment, DeployStage::CheckExisting);
    deployment.advance(DeployEvent::Existing(Some(found())));
    assert_eq!(deployment.stage(), DeployStage::Failed);
    assert_eq!(
        deployment.failure().unwrap(),
        "Gateway 'gw' already exists (container_running=true).\n\
         Use --recreate to destroy and redeploy, or destroy it first with:\n\n    \
         openshell gateway destroy --name gw"
    );
    deployment.advance(DeployEvent::Done);
    assert_eq!(deployment.stage(), DeployStage::Failed);
    assert!(deployment.into_handle().is_none());
}

#[test]
fn message_tells_whether_the_existing_gateway_runs() {
    let mut deployment = Deployment::new(DeployOptions::new("gw"));
    run_to(&mut deployment, DeployStage::CheckExisting);
    deployment.advance(DeployEvent::Existing(Some(ExistingGateway {
        container_running: false,
        ..found()
    })));
    assert!(deployment.failure().unwrap().contains("(container_running=false)"));
}

#[test]
fn recreation_destroys_the_existing_gateway_first() {
    let mut deployment = Deployment::new(DeployOptions::new("gw").with_recreate(true));
    run_to(&mut deployment, DeployStage::CheckExisting);
    deployment.advance(DeployEvent::Existing(Some(found())));
    assert_eq!(deployment.stage(), DeployStage::DestroyExisting);
    deployment.advance(DeployEvent::Done);
    assert_eq!(deployment.stage(), DeployStage::EnsureNetwork);
}

#[test]
fn held_ports_stop_a_deployment() {
    let mut deployment = Deployment::new(DeployOptions::new("gw"));
    let seen = run_to(&mut deployment, DeployStage::CheckPorts);
    assert!(!seen.contains(&DeployStage::EnsureStorage));
    deployment.advance(DeployEvent::Ports(vec![
        PortConflict { container_name: "a".to_string(), host_port: 8080 },
        PortConflict { container_name: "b".to_string(), host_port: 1 },
    ]));
    assert_eq!(deployment.stage(), DeployStage::Failed);
    assert_eq!(
        deployment.failure().unwrap(),
        "cannot start gateway: port 8080 is held by process \"a\", \
         port 1 is held by process \"b\"\n\n\
         Stop the conflicting process(es) first, then retry."
    );
}

#[test]
fn failure_while_creating_is_cleaned_up() {
    for stage in [
        DeployStage::LocateServer,
        DeployStage::GeneratePki,
        DeployStage::StorePki,
        DeployStage::WritePki,
        DeployStage::CreateGateway,
        DeployStage::StartGateway,
        DeployStage::WaitForReady,
        DeployStage::StoreMetadata,
    ] {
        for outcome in [DeployEvent::Done, DeployEvent::StepFailed("second".to_string())] {
            let mut deployment = Deployment::new(DeployOptions::new("gw"));
            run_to(&mut deployment, stage);
            deployment.advance(DeployEvent::StepFailed("first".to_string()));
            assert_eq!(deployment.stage(), DeployStage::CleanUp);
            deployment.advance(outcome);
            assert_eq!(deployment.stage(), DeployStage::Failed);
            assert_eq!(deployment.failure().unwrap(), "first");
        }
    }
}

#[test]
fn failure_before_anything_is_created_is_final() {
    for stage in [
        DeployStage::CheckRuntime,
        DeployStage::CheckExisting,
        DeployStage::EnsureNetwork,
        DeployStage::CheckPorts,
        DeployStage::EnsureStorage,
    ] {
        let mut deployment = Deployment::new(DeployOptions::new("gw"));
        run_to(&mut deployment, stage);
        deployment.advance(DeployEvent::StepFailed("first".to_string()));
        assert_eq!(deployment.stage(), DeployStage::Failed);
        assert_eq!(deployment.failure().unwrap(), "first");
    }
}

#[test]
fn gateway_is_configured_by_the_options() {
    let options = DeployOptions::new("gw").with_port(9090).with_disable_tls(true);
    let deployment = Deployment::new(options);
    assert_eq!(deployment.name(), "gw");
    assert_eq!(deployment.port(), 9090);
    let config = deployment.gateway_config();
    assert_eq!(config.image_ref, "native");
    assert!(config.extra_sans.is_empty());
    assert!(extra_sans().is_empty());
    assert!(config.ssh_gateway_host.is_none());
    assert_eq!(config.gateway_port, 9090);
    assert!(config.disable_tls);
    assert!(!config.disable_gateway_auth);
    assert!(config.registry_username.is_none());
    assert!(config.registry_token.is_none());
    assert!(!config.gpu);
    assert_eq!(
        deployment.gateway_metadata().gateway_endpoint,
        "http://127.0.0.1:9090"
    );
    assert_eq!(deployment.readiness_wait().address(), "127.0.0.1:9090");
}

#[test]
fn certificates_are_written_below_the_gateway() {
    let files = pki_files(Some("/h"), "gw");
    assert_eq!(files.directory, "/h/.openshell/gateways/gw/pki");
    assert_eq!(files.ca_cert, "/h/.openshell/gateways/gw/pki/ca.crt");
    assert_eq!(files.server_cert, "/h/.openshell/gateways/gw/pki/tls.crt");
    assert_eq!(files.server_key, "/h/.openshell/gateways/gw/pki/tls.key");
    assert_eq!(pki_files(None, "gw").directory, "/tmp/.openshell/gateways/gw/pki");
}

#[test]
fn existing_deployment_is_checked() {
    assert!(check_existing_deployment(None, false, false).is_none());
    assert!(check_existing_deployment(Some("7"), true, true).unwrap().container_running);
    let leftover = check_existing_deployment(None, false, true).unwrap();
    assert!(leftover.storage_exists);
    assert!(!leftover.container_running);
}

#[test]
fn recreation_destroys_leftover_storage() {
    let mut deployment = Deployment::new(DeployOptions::new("gw").with_recreate(true));
    run_to(&mut deployment, DeployStage::CheckExisting);
    deployment.advance(DeployEvent::Existing(check_existing_deployment(None, false, true)));
    assert_eq!(deployment.stage(), DeployStage::DestroyExisting);
    deployment.advance(DeployEvent::StepFailed("busy".to_string()));
    assert_eq!(deployment.stage(), DeployStage::Failed);
}

#[test]
fn handle_has_what_is_stored() {
    let handle = gateway_handle("gw", Some(create_gateway_metadata("gw", 1)));
    assert_eq!(handle.gateway_endpoint(), "https://127.0.0.1:1");
    let unknown = gateway_handle("gw", None);
    assert_eq!(unknown.gateway_endpoint(), "https://127.0.0.1:8080");
    assert_eq!(unknown.name(), "gw");
    assert_eq!(unknown.stop(Some("5")), Some(5));
    assert_eq!(
        unknown.destroy(Some("/h")).files,
        vec!["/h/.openshell/gateways/gw/gateway.pid"]
    );
}

#[test]
fn logs_of_a_gateway() {
    let lines: Vec<String> = (0..150).map(|n| n.to_string()).collect();
    let log = lines.join("\n");
    assert_eq!(gateway_container_logs(Some(&log), None), log);
    assert_eq!(gateway_container_logs(Some(&log), Some(1)), "149");
    assert_eq!(gateway_container_logs(None, None), "server logs: not available");
    assert_eq!(gateway_container_logs(None, Some(3)), "server logs: not available");
    assert_eq!(fetch_gateway_logs(Some("a\nb\n"), 1), "b");
}
