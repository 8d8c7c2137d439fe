use openshell::command::CommandOutput;
use openshell::container_runtime::{
    apple_container_available, GatewayContainerConfig, RuntimeBackend, RuntimeType,
};
use openshell::deploy::create_runtime;
use openshell::errors::diagnose_failure;
use openshell::metadata::create_gateway_metadata;
use openshell::runtime_apple::{AppleContainerRuntime, DEFAULT_LOG_LINES, STOP_GRACE_SECS};

fn ran(success: bool, stdout: &str, stderr: &str) -> CommandOutput {
    CommandOutput::from_bytes(success, stdout.as_bytes(), stderr.as_bytes())
}

fn config(disable_tls: bool, disable_gateway_auth: bool) -> GatewayContainerConfig {
    GatewayContainerConfig {
        image_ref: "native".to_string(),
        extra_sans: Vec::new(),
        ssh_gateway_host: None,
        gateway_port: 9090,
        disable_tls,
        disable_gateway_auth,
        registry_username: None,
        registry_token: None,
        gpu: false,
    }
}

#[test]
fn runtime_is_apple_container() {
    let runtime = create_runtime();
    assert_eq!(runtime.runtime_type(), RuntimeType::AppleContainer);
    assert!(matches!(runtime, RuntimeBackend::AppleContainer(_)));
}

#[test]
fn availability_takes_success_and_running() {
    assert!(apple_container_available(Some(&ran(true, "apiserver is running", ""))));
    assert!(!apple_container_available(Some(&ran(false, "running", ""))));
    assert!(!apple_container_available(Some(&ran(true, "stopped", ""))));
    assert!(!apple_container_available(None));
}

#[test]
fn preflight_reports_the_version() {
    let runtime = create_runtime();
    let status = ran(true, "running", "");
    let version = ran(true, "container CLI version 0.5.0 (build: release)\n", "");
    let preflight = runtime.check_available(&status, Some(&version)).unwrap();
    assert_eq!(preflight.version, Some("0.5.0".to_string()));
    assert_eq!(preflight.runtime_type, RuntimeType::AppleContainer);
    for other in [None, Some(&ran(true, "container 0.5.0", "")), Some(&ran(true, "container CLI version  \n", ""))] {
        assert!(runtime.check_available(&status, other).unwrap().version.is_none());
    }
}

#[test]
fn preflight_refuses_a_runtime_that_is_not_running() {
    let runtime = create_runtime();
    let failed = runtime.check_available(&ran(false, "running", "no service"), None).unwrap_err();
    assert_eq!(
        failed,
        "Apple Container is not running or not installed.\n\
         Run `container system start` to start it.\n\n  no service"
    );
    let stopped = runtime.check_available(&ran(true, "stopped", ""), None).unwrap_err();
    assert_eq!(
        stopped,
        "Apple Container service is not running.\n\
         Run `container system start` to start it."
    );
    for message in [failed, stopped] {
        let diagnosis = diagnose_failure("gw", &message, None).unwrap();
        assert_eq!(diagnosis.summary, "Apple Container is not running");
    }
}

#[test]
fn files_of_a_gateway() {
    let runtime = AppleContainerRuntime::new();
    let home = Some("/Users/me");
    assert_eq!(runtime.gateway_dir(home, "gw"), "/Users/me/.openshell/gateways/gw");
    assert_eq!(runtime.data_dir(home, "gw"), "/Users/me/.openshell/gateways/gw/data");
    assert_eq!(runtime.pki_dir(home, "gw"), "/Users/me/.openshell/gateways/gw/pki");
    assert_eq!(runtime.log_dir(home, "gw"), "/Users/me/.openshell/gateways/gw/logs");
    assert_eq!(runtime.pid_path(home, "gw"), "/Users/me/.openshell/gateways/gw/gateway.pid");
    assert_eq!(runtime.log_path(home, "gw"), "/Users/me/.openshell/gateways/gw/logs/server.log");
    assert_eq!(runtime.pid_path(None, "gw"), "/tmp/.openshell/gateways/gw/gateway.pid");
    assert_eq!(runtime.ensure_storage(None, "gw"), "/tmp/.openshell/gateways/gw/data");
}

#[test]
fn process_id_is_read_back() {
    let runtime = AppleContainerRuntime::new();
    for pid in [1, 4711, 2147483647] {
        let contents = runtime.pid_file_contents(pid);
        assert_eq!(contents, pid.to_string());
        assert_eq!(runtime.read_pid(Some(&contents)), Some(pid as i32));
        assert_eq!(runtime.read_pid(Some(&format!(" {contents}\n"))), Some(pid as i32));
    }
    assert_eq!(runtime.read_pid(Some(&runtime.pid_file_contents(2147483648))), None);
    assert_eq!(runtime.read_pid(Some("pid 7")), None);
    assert_eq!(runtime.read_pid(Some("")), None);
    assert_eq!(runtime.read_pid(None), None);
}

#[test]
fn existing_gateway_is_shown_by_its_pid_file() {
    let runtime = create_runtime();
    let found = runtime.check_existing(Some("12\n"), true, false).unwrap();
    assert!(found.container_exists);
    assert!(found.container_running);
    assert!(!found.storage_exists);
    assert_eq!(found.container_image, Some("native".to_string()));
    let dead = runtime.check_existing(Some("12"), false, true).unwrap();
    assert!(!dead.container_running);
    assert!(dead.storage_exists);
    assert!(runtime.check_existing(None, true, false).is_none());
    assert!(runtime.check_existing(Some("x"), true, false).is_none());
}

#[test]
fn leftover_storage_is_an_existing_gateway() {
    let runtime = create_runtime();
    for pid_file in [None, Some("x"), Some("")] {
        for alive in [false, true] {
            let found = runtime.check_existing(pid_file, alive, true).unwrap();
            assert!(!found.container_exists);
            assert!(!found.container_running);
            assert!(found.storage_exists);
            assert_eq!(found.container_image, None);
        }
    }
}

#[test]
fn gateway_is_stopped_by_its_process() {
    let runtime = create_runtime();
    assert_eq!(runtime.stop_gateway(Some("12")), Some(12));
    assert_eq!(runtime.stop_gateway(None), None);
    assert_eq!(STOP_GRACE_SECS, 2);
}

#[test]
fn running_gateway_answers() {
    let runtime = create_runtime();
    assert!(runtime.check_container_running(Some("12"), true).is_ok());
    for (pid_file, alive) in [(Some("12"), false), (None, true), (Some(""), true)] {
        assert_eq!(
            runtime.check_container_running(pid_file, alive).unwrap_err(),
            "gateway process is not running"
        );
    }
}

#[test]
fn nothing_is_executed_in_a_native_gateway() {
    let refused = create_runtime().exec_capture("gw", &vec!["ls".to_string()]).unwrap_err();
    assert_eq!(refused, "exec is not supported for native gateway process");
}

#[test]
fn gateway_is_launched_with_its_arguments() {
    let launch =
        create_runtime().create_gateway(Some("/h"), "gw", &config(false, false), "cafe", None);
    assert_eq!(
        launch.directories,
        vec![
            "/h/.openshell/gateways/gw/data",
            "/h/.openshell/gateways/gw/pki",
            "/h/.openshell/gateways/gw/logs",
        ]
    );
    assert_eq!(
        launch.arguments,
        vec![
            "--port",
            "9090",
            "--sandbox-backend",
            "apple-container",
            "--db-url",
            "sqlite:///h/.openshell/gateways/gw/data/openshell.db",
            "--ssh-handshake-secret",
            "cafe",
            "--sandbox-image",
            "ghcr.io/nvidia/openshell-community/sandboxes/base:latest",
        ]
    );
    assert_eq!(launch.log_path, "/h/.openshell/gateways/gw/logs/server.log");
    assert_eq!(launch.pid_path, "/h/.openshell/gateways/gw/gateway.pid");
}

#[test]
fn launch_disables_what_is_to_be_disabled() {
    let runtime = create_runtime();
    for (disable_tls, disable_auth, flags) in [
        (true, false, vec!["--disable-tls"]),
        (false, true, vec!["--disable-gateway-auth"]),
        (true, true, vec!["--disable-tls", "--disable-gateway-auth"]),
    ] {
        let launch = runtime.create_gateway(
            None,
            "gw",
            &config(disable_tls, disable_auth),
            "s",
            Some("img:1"),
        );
        assert_eq!(launch.arguments[9], "img:1");
        assert_eq!(launch.arguments[10..], flags);
    }
}

#[test]
fn destruction_removes_what_a_launch_creates() {
    let runtime = create_runtime();
    let launch = runtime.create_gateway(None, "gw", &config(false, false), "s", None);
    let remains = runtime.destroy_resources(None, "gw");
    assert_eq!(remains.files, vec![launch.pid_path]);
    assert_eq!(remains.directories, launch.directories);
}

#[test]
fn recent_lines_of_a_log() {
    let runtime = create_runtime();
    let log = Some("one\ntwo\r\n\nfour\n");
    assert_eq!(runtime.fetch_recent_logs(log, 0), "");
    assert_eq!(runtime.fetch_recent_logs(log, 2), "\nfour");
    assert_eq!(runtime.fetch_recent_logs(log, 4), "one\ntwo\n\nfour");
    assert_eq!(runtime.fetch_recent_logs(log, 100), "one\ntwo\n\nfour");
    assert_eq!(runtime.fetch_recent_logs(None, 5), "server logs: not available");
}

#[test]
fn hundred_lines_are_streamed_by_default() {
    let runtime = create_runtime();
    let lines: Vec<String> = (0..150).map(|n| n.to_string()).collect();
    let log = lines.join("\n");
    assert_eq!(DEFAULT_LOG_LINES, 100);
    assert_eq!(runtime.stream_logs(Some(&log), None), lines[50..].join("\n"));
    assert_eq!(runtime.stream_logs(Some(&log), Some(2)), "148\n149");
}

#[test]
fn port_is_held_where_lsof_writes_anything() {
    let runtime = create_runtime();
    let conflicts = runtime.check_port_conflicts(8080, &ran(true, "321\n", ""));
    assert_eq!(conflicts.len(), 1);
    assert_eq!(conflicts[0].container_name, "unknown (port in use)");
    assert_eq!(conflicts[0].host_port, 8080);
    assert!(runtime.check_port_conflicts(8080, &ran(true, "", "")).is_empty());
    assert!(runtime.check_port_conflicts(8080, &ran(false, "321", "")).is_empty());
    assert_eq!(
        AppleContainerRuntime::new().port_query_arguments(8080),
        vec!["-i", ":8080", "-sTCP:LISTEN", "-t"]
    );
}

#[test]
fn image_is_built_with_its_settings() {
    let runtime = AppleContainerRuntime::new();
    let settings = vec![
        ("A".to_string(), "1".to_string()),
        ("B".to_string(), "x=y".to_string()),
    ];
    assert_eq!(
        runtime.build_arguments("Dockerfile", "img:1", ".", &settings),
        vec![
            "build", "-t", "img:1", "-f", "Dockerfile", "--build-arg", "A=1", "--build-arg",
            "B=x=y", ".",
        ]
    );
    assert_eq!(
        runtime.build_arguments("D", "t", "c", &Vec::new()),
        vec!["build", "-t", "t", "-f", "D", "c"]
    );
    assert_eq!(
        runtime.build_started_line("img:1", "Dockerfile"),
        "Building image img:1 from Dockerfile"
    );
}

#[test]
fn build_is_told_by_its_exit() {
    let runtime = create_runtime();
    assert_eq!(runtime.build_image("img", &ran(true, "", "warn")).unwrap(), "Built image img");
    assert_eq!(
        runtime.build_and_push_image("img", &ran(false, "", "no disk")).unwrap_err(),
        "Image build failed: no disk"
    );
}

#[test]
fn native_gateway_needs_no_images_and_no_network() {
    let runtime = create_runtime();
    assert!(runtime.ensure_image("i", None, None).is_ok());
    assert!(runtime.pull_image("i", Some("u"), Some("t")).is_ok());
    assert!(runtime.push_images("gw", &vec!["i".to_string()]).is_ok());
    assert!(runtime.start_gateway("gw").is_ok());
    assert!(runtime.ensure_network("gw").is_ok());
}

#[test]
fn wait_follows_the_stored_metadata() {
    let runtime = create_runtime();
    let stored = runtime.wait_for_ready("gw", Some(create_gateway_metadata("gw", 9090)));
    assert_eq!(stored.address(), "127.0.0.1:9090");
    let unknown = runtime.wait_for_ready("gw", None);
    assert_eq!(unknown.address(), "127.0.0.1:8080");
}

#[test]
fn gateways_with_different_names_have_different_files() {
    let runtime = AppleContainerRuntime::new();
    let names = ["", "a", "b", "ab", "a/b", "/", "//", "data"];
    for one in names {
        for other in names {
            assert_eq!(
                runtime.data_dir(None, one) == runtime.data_dir(None, other),
                one == other
            );
        }
    }
    assert_eq!(runtime.data_dir(None, "a"), runtime.data_dir(None, "a/"));
}
