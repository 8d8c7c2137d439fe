use openshell::command::CommandOutput;
use openshell::container_runtime::RuntimeType;
use openshell::metadata::{
    clear_last_sandbox_if_matches, create_gateway_metadata, create_gateway_metadata_with_host,
    default_runtime_type, extract_host_from_ssh_destination, get_gateway_metadata, list_gateways,
    load_active_gateway, load_last_sandbox, local_gateway_host, resolve_ssh_hostname,
    save_active_gateway, save_last_sandbox, stored_metadata_path, GatewayMetadata,
};

#[test]
fn extract_host_plain_hostname() {
    assert_eq!(extract_host_from_ssh_destination("myserver"), "myserver");
}

#[test]
fn extract_host_user_at_hostname() {
    assert_eq!(
        extract_host_from_ssh_destination("ubuntu@myserver"),
        "myserver"
    );
}

#[test]
fn extract_host_ssh_scheme() {
    assert_eq!(
        extract_host_from_ssh_destination("ssh://ubuntu@myserver"),
        "myserver"
    );
}

#[test]
fn extract_host_ssh_scheme_no_user() {
    assert_eq!(
        extract_host_from_ssh_destination("ssh://myserver"),
        "myserver"
    );
}

#[test]
fn local_gateway_metadata() {
    let meta = create_gateway_metadata("test", 8080);
    assert_eq!(meta.name, "test");
    assert_eq!(meta.gateway_endpoint, "https://127.0.0.1:8080");
    assert_eq!(meta.gateway_port, 8080);
    assert!(!meta.is_remote);
    assert!(meta.remote_host.is_none());
    assert!(meta.resolved_host.is_none());
}

#[test]
fn local_gateway_metadata_custom_port() {
    let meta = create_gateway_metadata("test", 9090);
    assert_eq!(meta.gateway_endpoint, "https://127.0.0.1:9090");
    assert_eq!(meta.gateway_port, 9090);
}

#[test]
fn local_gateway_metadata_with_gateway_host_override() {
    let meta = create_gateway_metadata_with_host(
        "test",
        8080,
        Some("custom.host"),
        false,
    );
    assert_eq!(meta.name, "test");
    assert_eq!(meta.gateway_endpoint, "https://custom.host:8080");
    assert_eq!(meta.gateway_port, 8080);
    assert!(!meta.is_remote);
    assert!(meta.remote_host.is_none());
    assert!(meta.resolved_host.is_none());
}

#[test]
fn local_gateway_metadata_with_no_gateway_host_override() {
    let meta = create_gateway_metadata_with_host("test", 8080, None, false);
    assert_eq!(meta.gateway_endpoint, "https://127.0.0.1:8080");
}

#[test]
fn local_gateway_metadata_with_tls_disabled() {
    let meta = create_gateway_metadata_with_host("test", 8080, None, true);
    assert_eq!(meta.gateway_endpoint, "http://127.0.0.1:8080");
}

#[test]
fn local_gateway_metadata_with_tls_disabled_and_gateway_host() {
    let meta = create_gateway_metadata_with_host(
        "test",
        8080,
        Some("custom.host"),
        true,
    );
    assert_eq!(meta.gateway_endpoint, "http://custom.host:8080");
}

#[test]
fn local_gateways_have_nothing_else_set() {
    let meta = create_gateway_metadata("test", 8080);
    assert!(meta.auth_mode.is_none());
    assert!(meta.edge_team_domain.is_none());
    assert!(meta.edge_auth_url.is_none());
    assert_eq!(meta.runtime_type, RuntimeType::AppleContainer);
    assert_eq!(default_runtime_type(), RuntimeType::AppleContainer);
    assert_eq!(RuntimeType::AppleContainer.name(), "apple_container");
    assert!(local_gateway_host().is_none());
}

#[test]
fn endpoint_ports_at_the_ends_of_their_range() {
    let low = create_gateway_metadata("test", 0);
    assert_eq!(low.gateway_endpoint, "https://127.0.0.1:0");
    let high = create_gateway_metadata("test", 65535);
    assert_eq!(high.gateway_endpoint, "https://127.0.0.1:65535");
}

#[test]
fn extract_host_edge_cases() {
    let cases = [
        ("", ""),
        ("ssh://", ""),
        ("@", ""),
        ("a@b@c", "b@c"),
        ("ssh://ssh://host", "ssh://host"),
        ("ssh:/host", "ssh:/host"),
        ("SSH://u@h", "h"),
        ("ü@ö", "ö"),
    ];
    for (destination, host) in cases {
        assert_eq!(extract_host_from_ssh_destination(destination), host);
    }
}

#[test]
fn metadata_path_is_below_the_gateway() {
    assert_eq!(
        stored_metadata_path("/cfg/openshell/gateways", "gw"),
        "/cfg/openshell/gateways/gw/metadata.json"
    );
}

fn ran(success: bool, stdout: &str) -> CommandOutput {
    CommandOutput::from_bytes(success, stdout.as_bytes(), b"")
}

#[test]
fn ssh_alias_is_resolved() {
    let output = Ok(ran(
        true,
        "user me\nhostname   \nhostname  10.0.0.5 \nhostname other\n",
    ));
    assert_eq!(resolve_ssh_hostname("alias", &output), "10.0.0.5");
}

#[test]
fn ssh_alias_stands_for_itself_where_nothing_resolves_it() {
    assert_eq!(resolve_ssh_hostname("alias", &Ok(ran(true, "user me\n"))), "alias");
    assert_eq!(
        resolve_ssh_hostname("alias", &Ok(ran(false, "hostname h\n"))),
        "alias"
    );
    assert_eq!(
        resolve_ssh_hostname("alias", &Err("no ssh".to_string())),
        "alias"
    );
    assert_eq!(
        resolve_ssh_hostname("alias", &Ok(ran(true, " hostname h\r\n"))),
        "alias"
    );
}

#[test]
fn metadata_is_taken_where_it_could_be_loaded() {
    let loaded = get_gateway_metadata(Ok(create_gateway_metadata("gw", 1)));
    assert_eq!(loaded.unwrap().name, "gw");
    assert!(get_gateway_metadata(Err("failed to read".to_string())).is_none());
}

// ── last-sandbox persistence ──────────────────────────────────────

#[test]
fn save_and_load_last_sandbox_roundtrip() {
    let contents = save_last_sandbox("dev-box");
    assert_eq!(load_last_sandbox(Some(&contents)), Some("dev-box".to_string()));
}

#[test]
fn load_last_sandbox_returns_none_when_not_set() {
    assert_eq!(load_last_sandbox(None), None);
}

#[test]
fn save_last_sandbox_overwrites_previous() {
    let mut contents = save_last_sandbox("first");
    assert_eq!(load_last_sandbox(Some(&contents)), Some("first".to_string()));
    contents = save_last_sandbox("second");
    assert_eq!(load_last_sandbox(Some(&contents)), Some("second".to_string()));
}

#[test]
fn load_last_sandbox_ignores_whitespace() {
    assert_eq!(load_last_sandbox(Some("  my-sb \n")), Some("my-sb".to_string()));
}

#[test]
fn load_last_sandbox_returns_none_for_empty_file() {
    assert_eq!(load_last_sandbox(Some("   \n")), None);
}

#[test]
fn last_sandbox_is_per_gateway() {
    let gateway_a = save_last_sandbox("sandbox-a");
    let gateway_b = save_last_sandbox("sandbox-b");
    assert_eq!(load_last_sandbox(Some(&gateway_a)), Some("sandbox-a".to_string()));
    assert_eq!(load_last_sandbox(Some(&gateway_b)), Some("sandbox-b".to_string()));
}

#[test]
fn active_gateway_is_saved_and_loaded() {
    let contents = save_active_gateway("blue");
    assert_eq!(load_active_gateway(Some(&contents)), Some("blue".to_string()));
    assert_eq!(load_active_gateway(Some("\tblue\u{a0}\n")), Some("blue".to_string()));
    assert_eq!(load_active_gateway(Some("")), None);
    assert_eq!(load_active_gateway(None), None);
}

#[test]
fn name_with_white_space_around_it_does_not_load_back() {
    let contents = save_last_sandbox(" a ");
    assert_eq!(load_last_sandbox(Some(&contents)), Some("a".to_string()));
}

#[test]
fn last_sandbox_is_cleared_only_where_it_matches() {
    assert!(clear_last_sandbox_if_matches(Some("box\n"), "box"));
    assert!(!clear_last_sandbox_if_matches(Some("box"), "bo"));
    assert!(!clear_last_sandbox_if_matches(Some("  "), ""));
    assert!(!clear_last_sandbox_if_matches(None, "box"));
}

// ── listing ───────────────────────────────────────────────────────

fn names(gateways: &[GatewayMetadata]) -> Vec<(String, u16)> {
    gateways.iter().map(|g| (g.name.clone(), g.gateway_port)).collect()
}

#[test]
fn gateways_are_listed_by_name() {
    let listed = list_gateways(vec![
        Some(create_gateway_metadata("b", 1)),
        None,
        Some(create_gateway_metadata("a", 2)),
        Some(create_gateway_metadata("ab", 3)),
        Some(create_gateway_metadata("Z", 4)),
        Some(create_gateway_metadata("b", 5)),
        Some(create_gateway_metadata("", 6)),
    ]);
    let expected: Vec<(String, u16)> = [("", 6), ("Z", 4), ("a", 2), ("ab", 3), ("b", 1), ("b", 5)]
        .iter()
        .map(|(name, port)| (name.to_string(), *port))
        .collect();
    assert_eq!(names(&listed), expected);
    let again = list_gateways(listed.into_iter().map(Some).collect());
    assert_eq!(names(&again), expected);
}

#[test]
fn nothing_is_listed_where_nothing_could_be_loaded() {
    assert!(list_gateways(vec![None, None]).is_empty());
    assert!(list_gateways(Vec::new()).is_empty());
}

#[test]
fn listing_orders_as_strings_do() {
    let mut texts: Vec<String> =
        ["ä", "z", "\u{10000}", "\u{ffff}", "aa", "a"].iter().map(|t| t.to_string()).collect();
    let entries = texts
        .iter()
        .map(|t| Some(create_gateway_metadata(t, 1)))
        .collect();
    let listed: Vec<String> = list_gateways(entries).into_iter().map(|g| g.name).collect();
    texts.sort();
    assert_eq!(listed, texts);
}
