use openshell::errors::{diagnose_failure, generic_failure_diagnosis};

#[test]
fn test_diagnose_port_conflict() {
    let diagnosis = diagnose_failure("test", "port is already allocated", None);
    assert!(diagnosis.is_some());
    let d = diagnosis.unwrap();
    assert!(d.summary.contains("Port"));
}

#[test]
fn test_no_match_returns_none() {
    let diagnosis = diagnose_failure("test", "some random error", Some("random logs"));
    assert!(diagnosis.is_none());
}

#[test]
fn test_diagnose_apple_container_not_running() {
    let diagnosis = diagnose_failure("test", "Apple Container is not running", None);
    assert!(diagnosis.is_some());
    let d = diagnosis.unwrap();
    assert!(d.summary.contains("Apple Container"));
    assert!(d.retryable);
}

#[test]
fn test_diagnose_network_connectivity() {
    let diagnosis = diagnose_failure(
        "test",
        "connection refused",
        None,
    );
    assert!(diagnosis.is_some());
    let d = diagnosis.unwrap();
    assert!(d.summary.contains("Network"));
}

// -- generic_failure_diagnosis tests --

#[test]
fn generic_diagnosis_suggests_doctor_logs() {
    let d = generic_failure_diagnosis("my-gw");
    let commands: Vec<String> = d
        .recovery_steps
        .iter()
        .filter_map(|s| s.command.clone())
        .collect();
    assert!(
        commands.iter().any(|c| c.contains("openshell doctor logs")),
        "expected 'openshell doctor logs' in recovery commands, got: {commands:?}"
    );
}

#[test]
fn generic_diagnosis_suggests_doctor_check() {
    let d = generic_failure_diagnosis("my-gw");
    let commands: Vec<String> = d
        .recovery_steps
        .iter()
        .filter_map(|s| s.command.clone())
        .collect();
    assert!(
        commands
            .iter()
            .any(|c| c.contains("openshell doctor check")),
        "expected 'openshell doctor check' in recovery commands, got: {commands:?}"
    );
}

#[test]
fn generic_diagnosis_includes_gateway_name() {
    let d = generic_failure_diagnosis("custom-name");
    let all_text: String = d
        .recovery_steps
        .iter()
        .filter_map(|s| s.command.clone())
        .collect::<Vec<_>>()
        .join(" ");
    assert!(
        all_text.contains("custom-name"),
        "expected gateway name in recovery commands, got: {all_text}"
    );
}

// -- patterns --

#[test]
fn every_matcher_leads_to_its_diagnosis() {
    let patterns: Vec<(&str, Vec<&str>, bool, usize)> = vec![
        (
            "Port already in use",
            vec!["port is already allocated", "address already in use"],
            false,
            3,
        ),
        (
            "Network connectivity issue",
            vec![
                "no such host",
                "i/o timeout",
                "network is unreachable",
                "connection refused",
                "connection reset by peer",
                "TLS handshake timeout",
                "no route to host",
                "temporary failure in name resolution",
            ],
            true,
            4,
        ),
        (
            "TLS certificate issue",
            vec![
                "certificate has expired",
                "x509: certificate",
                "tls: failed to verify",
            ],
            false,
            1,
        ),
        (
            "Apple Container is not running",
            vec![
                "Apple Container is not running",
                "container system info",
                "container system start",
            ],
            true,
            4,
        ),
        (
            "Apple Container networking failure",
            vec!["vmnet", "network interface", "virtualization framework"],
            true,
            3,
        ),
    ];
    for (summary, matchers, retryable, steps) in patterns {
        for matcher in matchers {
            let d = diagnose_failure("gw", &format!("error: {matcher} (7)"), None).unwrap();
            assert_eq!(d.summary, summary);
            assert_eq!(d.retryable, retryable);
            assert_eq!(d.recovery_steps.len(), steps);
        }
    }
}

#[test]
fn logs_are_searched_too() {
    let d = diagnose_failure("gw", "deploy failed", Some("fatal: no route to host")).unwrap();
    assert_eq!(d.summary, "Network connectivity issue");
}

#[test]
fn earlier_patterns_win_over_later_ones() {
    let d = diagnose_failure("gw", "vmnet: connection refused", Some("address already in use"));
    assert_eq!(d.unwrap().summary, "Port already in use");
}

#[test]
fn matching_is_case_sensitive() {
    assert!(diagnose_failure("gw", "Connection Refused", None).is_none());
    assert!(diagnose_failure("gw", "", Some("")).is_none());
}

#[test]
fn matcher_is_not_found_across_message_and_logs() {
    assert!(diagnose_failure("gw", "connection", Some(" refused")).is_none());
    assert!(diagnose_failure("gw", "vm", Some("net")).is_none());
}

#[test]
fn certificate_diagnosis_destroys_the_gateway_by_name() {
    let d = diagnose_failure("blue", "x509: certificate signed by unknown authority", None).unwrap();
    assert_eq!(
        d.recovery_steps[0].command.as_deref(),
        Some("openshell gateway destroy --name blue && openshell gateway start")
    );
    assert_eq!(
        d.explanation,
        "There's a problem with the gateway's TLS certificates, possibly expired or mismatched certificates from a previous installation."
    );
}

#[test]
fn generic_diagnosis_is_exact() {
    let d = generic_failure_diagnosis("gw");
    assert_eq!(d.summary, "Gateway failed to start");
    assert_eq!(
        d.explanation,
        "The gateway encountered an unexpected error during startup."
    );
    assert!(!d.retryable);
    let commands: Vec<Option<&str>> =
        d.recovery_steps.iter().map(|s| s.command.as_deref()).collect();
    assert_eq!(
        commands,
        vec![
            Some("openshell doctor logs --name gw"),
            Some("openshell doctor check --name gw"),
            Some("openshell gateway destroy --name gw && openshell gateway start"),
            None,
        ]
    );
}
