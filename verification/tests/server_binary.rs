use openshell::command::CommandOutput;
use openshell::server_binary::{
    after_configured, after_sibling, after_which, find_server_binary, SearchStep, ServerBinary,
    SERVER_BINARY,
};

#[test]
fn configured_binary_is_tried_first_and_alone() {
    assert_eq!(SERVER_BINARY, "openshell-server");
    match find_server_binary(Some("/opt/srv"), true) {
        SearchStep::CheckConfigured(path) => assert_eq!(path, "/opt/srv"),
        step => panic!("{step:?}"),
    }
    match after_configured("/opt/srv", true) {
        SearchStep::Over(Ok(ServerBinary::Configured(path))) => assert_eq!(path, "/opt/srv"),
        step => panic!("{step:?}"),
    }
    match after_configured("/opt/srv", false) {
        SearchStep::Over(Err(message)) => {
            assert_eq!(message, "OPENSHELL_SERVER_BIN=/opt/srv does not exist");
        }
        step => panic!("{step:?}"),
    }
}

#[test]
fn sibling_comes_before_the_path() {
    assert!(matches!(find_server_binary(None, true), SearchStep::CheckSibling));
    assert!(matches!(find_server_binary(None, false), SearchStep::AskWhich));
    assert!(matches!(
        after_sibling(true),
        SearchStep::Over(Ok(ServerBinary::Sibling))
    ));
    assert!(matches!(after_sibling(false), SearchStep::AskWhich));
}

#[test]
fn which_gives_a_path_without_white_space() {
    let output = CommandOutput::from_bytes(true, b"/usr/local/bin/openshell-server\n", b"");
    match after_which(Some(&output)) {
        SearchStep::Over(Ok(ServerBinary::OnPath(path))) => {
            assert_eq!(path, "/usr/local/bin/openshell-server");
        }
        step => panic!("{step:?}"),
    }
}

#[test]
fn search_fails_where_which_gives_nothing() {
    let failed = CommandOutput::from_bytes(false, b"/bin/x", b"");
    let empty = CommandOutput::from_bytes(true, b" \n", b"");
    for output in [None, Some(&failed), Some(&empty)] {
        match after_which(output) {
            SearchStep::Over(Err(message)) => assert_eq!(
                message,
                "Could not find openshell-server binary.\n\
                 Build it with: cargo build --release -p openshell-server\n\
                 Or set OPENSHELL_SERVER_BIN to point to it."
            ),
            step => panic!("{step:?}"),
        }
    }
}
