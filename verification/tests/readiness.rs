use openshell::metadata::create_gateway_metadata;
use openshell::readiness::{
    process_event, ReadinessWait, WaitEvent, WaitStage, EXIT_LOG_LINES, READY_ATTEMPTS, READY_PAUSE_SECS,
};

fn begun() -> ReadinessWait {
    ReadinessWait::new(&create_gateway_metadata("gw", 9090))
}

#[test]
fn wait_is_over_once_the_port_answers() {
    let mut wait = begun();
    assert_eq!(wait.stage(), WaitStage::Connect);
    assert_eq!(wait.address(), "127.0.0.1:9090");
    assert_eq!(wait.progress_line(), None);
    wait.advance(WaitEvent::Connected);
    assert_eq!(wait.stage(), WaitStage::Ready);
    assert_eq!(
        wait.progress_line(),
        Some("[progress] Gateway is ready".to_string())
    );
    assert!(wait.failure().is_none());
    wait.advance(WaitEvent::Refused);
    assert_eq!(wait.stage(), WaitStage::Ready);
}

#[test]
fn wait_gives_up_after_thirty_attempts() {
    let mut wait = begun();
    let mut attempts = 0;
    let mut lines: Vec<String> = Vec::new();
    while wait.stage() != WaitStage::Failed {
        if let Some(line) = wait.progress_line() {
            lines.push(line);
        }
        match wait.stage() {
            WaitStage::Connect => {
                attempts += 1;
                wait.advance(WaitEvent::Refused);
            }
            WaitStage::Pause => wait.advance(WaitEvent::Paused),
            WaitStage::CheckProcess => wait.advance(WaitEvent::ProcessNotDead),
            stage => panic!("{stage:?}"),
        }
    }
    assert_eq!(attempts, READY_ATTEMPTS);
    assert_eq!(READY_ATTEMPTS, 30);
    assert_eq!(READY_PAUSE_SECS, 1);
    let expected: Vec<String> = [5, 10, 15, 20, 25]
        .iter()
        .map(|n| format!("[progress] Waiting for gateway ({n}/30)"))
        .collect();
    assert_eq!(lines, expected);
    assert_eq!(
        wait.failure().unwrap(),
        "Timed out waiting for gateway at https://127.0.0.1:9090"
    );
}

#[test]
fn wait_fails_with_the_log_of_a_dead_process() {
    for (log, tail) in [
        (Some((0..20).map(|n| format!("{n}\n")).collect::<String>()), "10\n11\n12\n13\n14\n15\n16\n17\n18\n19"),
        (None, ""),
    ] {
        let mut wait = begun();
        for _ in 0..5 {
            wait.advance(WaitEvent::Refused);
            wait.advance(WaitEvent::Paused);
        }
        assert_eq!(wait.stage(), WaitStage::CheckProcess);
        wait.advance(WaitEvent::ProcessDead);
        assert_eq!(wait.stage(), WaitStage::ReadLog);
        wait.advance(WaitEvent::Log(log));
        assert_eq!(wait.stage(), WaitStage::Failed);
        assert_eq!(
            wait.failure().unwrap(),
            &format!("Gateway process exited unexpectedly.\n\nServer log:\n{tail}")
        );
    }
    assert_eq!(EXIT_LOG_LINES, 10);
}

#[test]
fn wait_ignores_what_it_did_not_ask_for() {
    let mut wait = begun();
    wait.advance(WaitEvent::Paused);
    wait.advance(WaitEvent::ProcessDead);
    wait.advance(WaitEvent::Log(None));
    assert_eq!(wait.stage(), WaitStage::Connect);
    assert!(wait.failure().is_none());
}

#[test]
fn process_is_dead_only_where_the_pid_file_names_it() {
    assert!(matches!(process_event(Some("7"), false), WaitEvent::ProcessDead));
    for (pid_file, alive) in [(Some("7"), true), (Some("x"), false), (None, false), (None, true)] {
        assert!(matches!(process_event(pid_file, alive), WaitEvent::ProcessNotDead));
    }
}

#[test]
fn process_that_dies_late_is_reported_too() {
    let mut wait = begun();
    for attempt in 1..=30 {
        wait.advance(WaitEvent::Refused);
        wait.advance(WaitEvent::Paused);
        if attempt % 5 == 0 && attempt < 30 {
            wait.advance(WaitEvent::ProcessNotDead);
        }
    }
    assert_eq!(wait.stage(), WaitStage::CheckProcess);
    assert_eq!(wait.progress_line(), None);
    wait.advance(WaitEvent::ProcessDead);
    wait.advance(WaitEvent::Log(Some("panicked\n".to_string())));
    assert_eq!(wait.stage(), WaitStage::Failed);
    assert_eq!(
        wait.failure().unwrap(),
        "Gateway process exited unexpectedly.\n\nServer log:\npanicked"
    );
}
