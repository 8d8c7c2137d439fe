//! Gateway error detection and user-friendly guidance.
//!
//! Error messages and process logs are searched for known failure patterns. Each
//! pattern leads to a diagnosis with steps that recover from it.

use vstd::prelude::*;

use crate::text::{concat2, concat3, contains_text, converts_to, has_text};
use crate::text::{has_text_between, has_text_in_longer, occurs_at};

verus! {

/// A diagnosed gateway failure with user-friendly guidance.
#[derive(Debug, Clone)]
pub struct GatewayFailureDiagnosis {
    /// Short summary of what went wrong.
    pub summary: String,
    /// Detailed explanation of the issue.
    pub explanation: String,
    /// Commands or steps the user can take to fix the issue.
    pub recovery_steps: Vec<RecoveryStep>,
    /// Whether the issue might be auto-recoverable by retrying.
    pub retryable: bool,
}

/// A recovery step with a command and description.
#[derive(Debug, Clone)]
pub struct RecoveryStep {
    /// Description of what this step does.
    pub description: String,
    /// Command to run (if applicable).
    pub command: Option<String>,
}

/// The text of a recovery step.
#[verifier::ext_equal]
pub struct StepText {
    pub description: Seq<char>,
    pub command: Option<Seq<char>>,
}

/// The text of a diagnosis.
#[verifier::ext_equal]
pub struct DiagnosisText {
    pub summary: Seq<char>,
    pub explanation: Seq<char>,
    pub recovery_steps: Seq<StepText>,
    pub retryable: bool,
}

impl View for RecoveryStep {
    type V = StepText;

    open spec fn view(&self) -> StepText {
        StepText { description: self.description@, command: self.command.deep_view() }
    }
}

impl View for GatewayFailureDiagnosis {
    type V = DiagnosisText;

    open spec fn view(&self) -> DiagnosisText {
        DiagnosisText {
            summary: self.summary@,
            explanation: self.explanation@,
            recovery_steps: Seq::new(
                self.recovery_steps@.len(),
                |i: int| self.recovery_steps@[i]@,
            ),
            retryable: self.retryable,
        }
    }
}

/// A step that is only described.
pub open spec fn hint(description: Seq<char>) -> StepText {
    StepText { description, command: None }
}

/// A step with a command to run.
pub open spec fn run(description: Seq<char>, command: Seq<char>) -> StepText {
    StepText { description, command: Some(command) }
}

impl RecoveryStep {
    fn new<S: Into<String>>(description: S) -> (step: Self)
        ensures
            converts_to(description, step.description),
            step.command is None,
    {
        RecoveryStep { description: description.into(), command: None }
    }

    fn with_command<S: Into<String>, C: Into<String>>(description: S, command: C) -> (step: Self)
        ensures
            converts_to(description, step.description),
            step.command is Some,
            converts_to(command, step.command->0),
    {
        RecoveryStep { description: description.into(), command: Some(command.into()) }
    }
}

/// The known failures.
#[derive(Debug, Clone, Copy, PartialEq, Eq, Structural)]
pub enum FailureKind {
    /// The gateway port is held by another process.
    PortConflict,
    /// A name could not be resolved, or a host could not be reached.
    NetworkConnectivity,
    /// A certificate has expired or does not match.
    CertificateIssue,
    /// Apple Container is not running or not installed.
    AppleContainerNotRunning,
    /// The vmnet networking framework failed.
    AppleContainerVmnet,
}

/// The texts of which any one gives the failure away.
pub open spec fn matchers_of(kind: FailureKind) -> Seq<Seq<char>> {
    match kind {
        FailureKind::PortConflict => seq![
            "port is already allocated"@,
            "address already in use"@,
        ],
        FailureKind::NetworkConnectivity => seq![
            "no such host"@,
            "i/o timeout"@,
            "network is unreachable"@,
            "connection refused"@,
            "connection reset by peer"@,
            "TLS handshake timeout"@,
            "no route to host"@,
            "temporary failure in name resolution"@,
        ],
        FailureKind::CertificateIssue => seq![
            "certificate has expired"@,
            "x509: certificate"@,
            "tls: failed to verify"@,
        ],
        FailureKind::AppleContainerNotRunning => seq![
            "Apple Container is not running"@,
            "container system info"@,
            "container system start"@,
        ],
        FailureKind::AppleContainerVmnet => seq![
            "vmnet"@,
            "network interface"@,
            "virtualization framework"@,
        ],
    }
}

/// The texts of which any one gives the failure away.
fn matchers(kind: FailureKind) -> (texts: Vec<&'static str>)
    ensures
        texts.deep_view() == matchers_of(kind),
{
    let texts: Vec<&'static str> = match kind {
        FailureKind::PortConflict => vec![
            "port is already allocated",
            "address already in use",
        ],
        FailureKind::NetworkConnectivity => vec![
            "no such host",
            "i/o timeout",
            "network is unreachable",
            "connection refused",
            "connection reset by peer",
            "TLS handshake timeout",
            "no route to host",
            "temporary failure in name resolution",
        ],
        FailureKind::CertificateIssue => vec![
            "certificate has expired",
            "x509: certificate",
            "tls: failed to verify",
        ],
        FailureKind::AppleContainerNotRunning => vec![
            "Apple Container is not running",
            "container system info",
            "container system start",
        ],
        FailureKind::AppleContainerVmnet => vec![
            "vmnet",
            "network interface",
            "virtualization framework",
        ],
    };
    assert(texts.deep_view() =~= matchers_of(kind));
    texts
}

/// What a known failure of the gateway `gateway_name` is diagnosed as.
pub open spec fn diagnosis_of(kind: FailureKind, gateway_name: Seq<char>) -> DiagnosisText {
    match kind {
        FailureKind::PortConflict => {
            DiagnosisText {
                summary: "Port already in use"@,
                explanation: "The gateway port is already in use by another process."@,
                recovery_steps: seq![
                    run("Check what's using the port"@, "lsof -i :8080 || netstat -an | grep 8080"@),
                    run("Use a different port"@, "openshell gateway start --port 8081"@),
                    run("Or stop other openshell gateways"@, "openshell gateway list && openshell gateway destroy --name <name>"@),
                ],
                retryable: false,
            }
        },
        FailureKind::NetworkConnectivity => {
            DiagnosisText {
                summary: "Network connectivity issue"@,
                explanation: "Could not establish a network connection. This could be a DNS resolution failure, firewall blocking the connection, or general internet connectivity issue."@,
                recovery_steps: seq![
                    hint("Check your internet connection"@),
                    run("Test DNS resolution"@, "nslookup ghcr.io"@),
                    run("Test registry connectivity"@, "curl -I https://ghcr.io/v2/"@),
                    hint("Then retry: openshell gateway start"@),
                ],
                retryable: true,
            }
        },
        FailureKind::CertificateIssue => {
            DiagnosisText {
                summary: "TLS certificate issue"@,
                explanation: "There's a problem with the gateway's TLS certificates, possibly expired or mismatched certificates from a previous installation."@,
                recovery_steps: seq![
                    run("Destroy and recreate the gateway to regenerate certificates"@, "openshell gateway destroy --name "@ + gateway_name + " && openshell gateway start"@),
                ],
                retryable: false,
            }
        },
        FailureKind::AppleContainerNotRunning => {
            DiagnosisText {
                summary: "Apple Container is not running"@,
                explanation: "The Apple Container runtime is not running or not installed. OpenShell on macOS uses Apple Container for lightweight VM-based sandboxes."@,
                recovery_steps: seq![
                    run("Start Apple Container"@, "container system start"@),
                    hint("If not installed, install Apple Container from https://github.com/apple/container"@),
                    hint("Requires macOS 15 (Sequoia) or later"@),
                    hint("Then retry: openshell gateway start"@),
                ],
                retryable: true,
            }
        },
        FailureKind::AppleContainerVmnet => {
            DiagnosisText {
                summary: "Apple Container networking failure"@,
                explanation: "The vmnet networking framework used by Apple Container encountered an error. This can happen after macOS updates or when the Virtualization framework is in a bad state."@,
                recovery_steps: seq![
                    run("Restart the Apple Container service"@, "container system stop && container system start"@),
                    hint("If the issue persists, restart your Mac"@),
                    hint("Then retry: openshell gateway start"@),
                ],
                retryable: true,
            }
        },
    }
}

/// The gateway port is held by another process.
fn diagnose_port_conflict(_gateway_name: &str) -> (diagnosis: GatewayFailureDiagnosis)
    ensures
        diagnosis@ == diagnosis_of(FailureKind::PortConflict, _gateway_name@),
{
    let diagnosis = GatewayFailureDiagnosis {
        summary: "Port already in use".to_string(),
        explanation: "The gateway port is already in use by another process.".to_string(),
        recovery_steps: vec![
            RecoveryStep::with_command("Check what's using the port", "lsof -i :8080 || netstat -an | grep 8080"),
            RecoveryStep::with_command("Use a different port", "openshell gateway start --port 8081"),
            RecoveryStep::with_command("Or stop other openshell gateways", "openshell gateway list && openshell gateway destroy --name <name>"),
        ],
        retryable: false,
    };
    assert(diagnosis@ =~= diagnosis_of(FailureKind::PortConflict, _gateway_name@));
    diagnosis
}

/// A name could not be resolved, or a host could not be reached.
fn diagnose_network_connectivity(_gateway_name: &str) -> (diagnosis: GatewayFailureDiagnosis)
    ensures
        diagnosis@ == diagnosis_of(FailureKind::NetworkConnectivity, _gateway_name@),
{
    let diagnosis = GatewayFailureDiagnosis {
        summary: "Network connectivity issue".to_string(),
        explanation: "Could not establish a network connection. This could be a DNS resolution failure, firewall blocking the connection, or general internet connectivity issue.".to_string(),
        recovery_steps: vec![
            RecoveryStep::new("Check your internet connection"),
            RecoveryStep::with_command("Test DNS resolution", "nslookup ghcr.io"),
            RecoveryStep::with_command("Test registry connectivity", "curl -I https://ghcr.io/v2/"),
            RecoveryStep::new("Then retry: openshell gateway start"),
        ],
        retryable: true,
    };
    assert(diagnosis@ =~= diagnosis_of(FailureKind::NetworkConnectivity, _gateway_name@));
    diagnosis
}

/// A certificate has expired or does not match.
fn diagnose_certificate_issue(gateway_name: &str) -> (diagnosis: GatewayFailureDiagnosis)
    ensures
        diagnosis@ == diagnosis_of(FailureKind::CertificateIssue, gateway_name@),
{
    let diagnosis = GatewayFailureDiagnosis {
        summary: "TLS certificate issue".to_string(),
        explanation: "There's a problem with the gateway's TLS certificates, possibly expired or mismatched certificates from a previous installation.".to_string(),
        recovery_steps: vec![
            RecoveryStep::with_command("Destroy and recreate the gateway to regenerate certificates", concat3("openshell gateway destroy --name ", gateway_name, " && openshell gateway start")),
        ],
        retryable: false,
    };
    assert(diagnosis@ =~= diagnosis_of(FailureKind::CertificateIssue, gateway_name@));
    diagnosis
}

/// Apple Container is not running or not installed.
fn diagnose_apple_container_not_running(_gateway_name: &str) -> (diagnosis: GatewayFailureDiagnosis)
    ensures
        diagnosis@ == diagnosis_of(FailureKind::AppleContainerNotRunning, _gateway_name@),
{
    let diagnosis = GatewayFailureDiagnosis {
        summary: "Apple Container is not running".to_string(),
        explanation: "The Apple Container runtime is not running or not installed. OpenShell on macOS uses Apple Container for lightweight VM-based sandboxes.".to_string(),
        recovery_steps: vec![
            RecoveryStep::with_command("Start Apple Container", "container system start"),
            RecoveryStep::new("If not installed, install Apple Container from https://github.com/apple/container"),
            RecoveryStep::new("Requires macOS 15 (Sequoia) or later"),
            RecoveryStep::new("Then retry: openshell gateway start"),
        ],
        retryable: true,
    };
    assert(diagnosis@ =~= diagnosis_of(FailureKind::AppleContainerNotRunning, _gateway_name@));
    diagnosis
}

/// The vmnet networking framework failed.
fn diagnose_apple_container_vmnet(_gateway_name: &str) -> (diagnosis: GatewayFailureDiagnosis)
    ensures
        diagnosis@ == diagnosis_of(FailureKind::AppleContainerVmnet, _gateway_name@),
{
    let diagnosis = GatewayFailureDiagnosis {
        summary: "Apple Container networking failure".to_string(),
        explanation: "The vmnet networking framework used by Apple Container encountered an error. This can happen after macOS updates or when the Virtualization framework is in a bad state.".to_string(),
        recovery_steps: vec![
            RecoveryStep::with_command("Restart the Apple Container service", "container system stop && container system start"),
            RecoveryStep::new("If the issue persists, restart your Mac"),
            RecoveryStep::new("Then retry: openshell gateway start"),
        ],
        retryable: true,
    };
    assert(diagnosis@ =~= diagnosis_of(FailureKind::AppleContainerVmnet, _gateway_name@));
    diagnosis
}

/// Whether one of the texts stands in `text`.
pub open spec fn has_any(text: Seq<char>, texts: Seq<Seq<char>>) -> bool {
    exists|i: int| 0 <= i < texts.len() && has_text(text, #[trigger] texts[i])
}

/// The failure that `text` shows: the first in the order of [`FailureKind`] of whose
/// matchers one stands in it.
pub open spec fn failure_shown(text: Seq<char>) -> Option<FailureKind> {
    if has_any(text, matchers_of(FailureKind::PortConflict)) {
        Some(FailureKind::PortConflict)
    } else if has_any(text, matchers_of(FailureKind::NetworkConnectivity)) {
        Some(FailureKind::NetworkConnectivity)
    } else if has_any(text, matchers_of(FailureKind::CertificateIssue)) {
        Some(FailureKind::CertificateIssue)
    } else if has_any(text, matchers_of(FailureKind::AppleContainerNotRunning)) {
        Some(FailureKind::AppleContainerNotRunning)
    } else if has_any(text, matchers_of(FailureKind::AppleContainerVmnet)) {
        Some(FailureKind::AppleContainerVmnet)
    } else {
        None
    }
}

/// The text that is searched: the message, then the logs on a line of their own.
pub open spec fn searched_text(
    error_message: Seq<char>,
    container_logs: Option<Seq<char>>,
) -> Seq<char> {
    match container_logs {
        Some(logs) => error_message + "\n"@ + logs,
        None => error_message,
    }
}

/// What [`diagnose_failure`] finds.
pub open spec fn diagnosis_found(
    gateway_name: Seq<char>,
    error_message: Seq<char>,
    container_logs: Option<Seq<char>>,
) -> Option<DiagnosisText> {
    match failure_shown(searched_text(error_message, container_logs)) {
        Some(kind) => Some(diagnosis_of(kind, gateway_name)),
        None => None,
    }
}

fn shows(text: &str, kind: FailureKind) -> (yes: bool)
    ensures
        yes == has_any(text@, matchers_of(kind)),
{
    let texts = matchers(kind);
    let mut i: usize = 0;
    while i < texts.len()
        invariant
            i <= texts.len(),
            texts.deep_view() == matchers_of(kind),
            forall|j: int| 0 <= j < i ==> !has_text(text@, #[trigger] matchers_of(kind)[j]),
        decreases texts.len() - i,
    {
        assert(texts.deep_view()[i as int] == texts@[i as int]@);
        if contains_text(text, texts[i]) {
            return true;
        }
        i = i + 1;
    }
    false
}

/// Analyze an error message and process logs to diagnose the failure.
///
/// Returns `Some(diagnosis)` if a known pattern is detected, `None` otherwise.
pub fn diagnose_failure(
    gateway_name: &str,
    error_message: &str,
    container_logs: Option<&str>,
) -> (diagnosis: Option<GatewayFailureDiagnosis>)
    ensures
        match diagnosis {
            Some(d) => diagnosis_found(gateway_name@, error_message@, container_logs.deep_view())
                == Some(d@),
            None => diagnosis_found(gateway_name@, error_message@, container_logs.deep_view())
                is None,
        },
{
    let combined = match container_logs {
        Some(logs) => concat3(error_message, "\n", logs),
        None => error_message.to_string(),
    };
    let text = combined.as_str();
    if shows(text, FailureKind::PortConflict) {
        Some(diagnose_port_conflict(gateway_name))
    } else if shows(text, FailureKind::NetworkConnectivity) {
        Some(diagnose_network_connectivity(gateway_name))
    } else if shows(text, FailureKind::CertificateIssue) {
        Some(diagnose_certificate_issue(gateway_name))
    } else if shows(text, FailureKind::AppleContainerNotRunning) {
        Some(diagnose_apple_container_not_running(gateway_name))
    } else if shows(text, FailureKind::AppleContainerVmnet) {
        Some(diagnose_apple_container_vmnet(gateway_name))
    } else {
        None
    }
}

/// The diagnosis of a failure that no pattern tells.
pub open spec fn generic_diagnosis(gateway_name: Seq<char>) -> DiagnosisText {
    DiagnosisText {
        summary: "Gateway failed to start"@,
        explanation: "The gateway encountered an unexpected error during startup."@,
        recovery_steps: seq![
            run("Check server logs for details"@, "openshell doctor logs --name "@ + gateway_name),
            run("Run diagnostics"@, "openshell doctor check --name "@ + gateway_name),
            run("Try destroying and recreating the gateway"@, "openshell gateway destroy --name "@ + gateway_name + " && openshell gateway start"@),
            hint("If the issue persists, report it at https://github.com/nvidia/openshell/issues"@),
        ],
        retryable: false,
    }
}

/// Create a generic diagnosis when no specific pattern is matched.
pub fn generic_failure_diagnosis(gateway_name: &str) -> (diagnosis: GatewayFailureDiagnosis)
    ensures
        diagnosis@ == generic_diagnosis(gateway_name@),
{
    let diagnosis = GatewayFailureDiagnosis {
        summary: "Gateway failed to start".to_string(),
        explanation: "The gateway encountered an unexpected error during startup.".to_string(),
        recovery_steps: vec![
            RecoveryStep::with_command("Check server logs for details", concat2("openshell doctor logs --name ", gateway_name)),
            RecoveryStep::with_command("Run diagnostics", concat2("openshell doctor check --name ", gateway_name)),
            RecoveryStep::with_command("Try destroying and recreating the gateway", concat3("openshell gateway destroy --name ", gateway_name, " && openshell gateway start")),
            RecoveryStep::new("If the issue persists, report it at https://github.com/nvidia/openshell/issues"),
        ],
        retryable: false,
    };
    assert(diagnosis@ =~= generic_diagnosis(gateway_name@));
    diagnosis
}

// ---------------------------------------------------------------------------
// Laws
// ---------------------------------------------------------------------------

/// Logs never hide a failure: where the message alone is diagnosed, the message with
/// logs is diagnosed too.
pub proof fn logs_keep_a_diagnosis(
    gateway_name: Seq<char>,
    error_message: Seq<char>,
    logs: Seq<char>,
)
    requires
        diagnosis_found(gateway_name, error_message, None) is Some,
    ensures
        diagnosis_found(gateway_name, error_message, Some(logs)) is Some,
{
    let kind = failure_shown(error_message)->0;
    let i = choose|i: int|
        0 <= i < matchers_of(kind).len() && has_text(error_message, #[trigger] matchers_of(
            kind,
        )[i]);
    let more = "\n"@ + logs;
    has_text_in_longer(error_message, more, matchers_of(kind)[i]);
    assert(error_message + more =~= error_message + "\n"@ + logs);
    assert(has_any(searched_text(error_message, Some(logs)), matchers_of(kind)));
}

/// The place of a failure in the order in which patterns are tried.
pub open spec fn precedence(kind: FailureKind) -> int {
    match kind {
        FailureKind::PortConflict => 0,
        FailureKind::NetworkConnectivity => 1,
        FailureKind::CertificateIssue => 2,
        FailureKind::AppleContainerNotRunning => 3,
        FailureKind::AppleContainerVmnet => 4,
    }
}

/// An earlier pattern wins: a text that shows a failure is diagnosed as that failure
/// or as one whose pattern is tried before, and the text does show what is diagnosed.
pub proof fn earlier_pattern_wins(text: Seq<char>, kind: FailureKind)
    requires
        has_any(text, matchers_of(kind)),
    ensures
        failure_shown(text) is Some,
        precedence(failure_shown(text)->0) <= precedence(kind),
        has_any(text, matchers_of(failure_shown(text)->0)),
{
}

/// Every diagnosis names at least one step, and is worth a retry exactly where the
/// network or the container runtime failed.
pub proof fn diagnoses_are_actionable(kind: FailureKind, gateway_name: Seq<char>)
    ensures
        diagnosis_of(kind, gateway_name).recovery_steps.len() > 0,
        diagnosis_of(kind, gateway_name).retryable <==> kind == FailureKind::NetworkConnectivity
            || kind == FailureKind::AppleContainerNotRunning || kind
            == FailureKind::AppleContainerVmnet,
{
}

/// The generic diagnosis sends the user to the logs and the diagnostics of the
/// gateway by its name.
pub proof fn generic_diagnosis_names_the_gateway(gateway_name: Seq<char>)
    ensures
        ({
            let steps = generic_diagnosis(gateway_name).recovery_steps;
            &&& steps[0].command == Some("openshell doctor logs --name "@ + gateway_name)
            &&& steps[1].command == Some("openshell doctor check --name "@ + gateway_name)
            &&& has_text(steps[0].command->0, gateway_name)
            &&& has_text(steps[1].command->0, gateway_name)
            &&& has_text(steps[2].command->0, gateway_name)
        }),
{
    let steps = generic_diagnosis(gateway_name).recovery_steps;
    has_text_between("openshell doctor logs --name "@, gateway_name, Seq::empty());
    has_text_between("openshell doctor check --name "@, gateway_name, Seq::empty());
    has_text_between(
        "openshell gateway destroy --name "@,
        gateway_name,
        " && openshell gateway start"@,
    );
    assert(steps[0].command->0 + Seq::empty() =~= steps[0].command->0);
    assert(steps[1].command->0 + Seq::empty() =~= steps[1].command->0);
}

/// Whether a text stands in the message of a failure or in its logs.
pub open spec fn mentions(
    error_message: Seq<char>,
    container_logs: Option<Seq<char>>,
    text: Seq<char>,
) -> bool {
    has_text(error_message, text) || (container_logs matches Some(logs) && has_text(logs, text))
}

/// A text without a line feed is found in what is searched exactly where the message or the
/// logs mention it: the two do not run together.
proof fn lemma_mentioned_is_found(
    error_message: Seq<char>,
    container_logs: Option<Seq<char>>,
    text: Seq<char>,
)
    requires
        text.len() > 0,
        !text.contains('\n'),
    ensures
        has_text(searched_text(error_message, container_logs), text) <==> mentions(
            error_message,
            container_logs,
            text,
        ),
{
    if let Some(logs) = container_logs {
        reveal_strlit("\n");
        let whole = error_message + "\n"@ + logs;
        let n = error_message.len() as int;
        if has_text(error_message, text) {
            has_text_in_longer(error_message, "\n"@ + logs, text);
            assert(error_message + ("\n"@ + logs) =~= whole);
        }
        if has_text(logs, text) {
            let i = choose|i: int| occurs_at(logs, text, i);
            assert(whole.subrange(n + 1 + i, n + 1 + i + text.len()) =~= logs.subrange(
                i,
                i + text.len(),
            ));
            assert(occurs_at(whole, text, n + 1 + i));
        }
        if has_text(whole, text) {
            let i = choose|i: int| occurs_at(whole, text, i);
            if i + text.len() <= n {
                assert(error_message.subrange(i, i + text.len()) =~= whole.subrange(
                    i,
                    i + text.len(),
                ));
                assert(occurs_at(error_message, text, i));
            } else if i > n {
                let j = i - n - 1;
                assert(logs.subrange(j, j + text.len()) =~= whole.subrange(i, i + text.len()));
                assert(occurs_at(logs, text, j));
            } else {
                assert(whole[n] == '\n');
                assert(whole.subrange(i, i + text.len())[n - i] == '\n');
                assert(text[n - i] == '\n');
            }
        }
    }
}

proof fn lemma_shown_by_any(text: Seq<char>, texts: Seq<Seq<char>>, i: int)
    ensures
        0 <= i < texts.len() && has_text(text, texts[i]) ==> has_any(text, texts),
{
}

proof fn lemma_port_is_shown(message: Seq<char>, logs: Option<Seq<char>>)
    ensures
        has_any(searched_text(message, logs), matchers_of(FailureKind::PortConflict))
            <==> ({
            ||| mentions(message, logs, "port is already allocated"@)
            ||| mentions(message, logs, "address already in use"@)
        }),
{
    let text = searched_text(message, logs);
    let texts = matchers_of(FailureKind::PortConflict);
    reveal_strlit("port is already allocated");
    reveal_strlit("address already in use");
    lemma_mentioned_is_found(message, logs, "port is already allocated"@);
    lemma_mentioned_is_found(message, logs, "address already in use"@);
    lemma_shown_by_any(text, texts, 0);
    lemma_shown_by_any(text, texts, 1);
    if has_any(text, texts) {
        let i = choose|i: int| 0 <= i < texts.len() && has_text(text, #[trigger] texts[i]);
        assert(i == 0 || i == 1);
    }
}

proof fn lemma_network_is_shown(message: Seq<char>, logs: Option<Seq<char>>)
    ensures
        has_any(searched_text(message, logs), matchers_of(FailureKind::NetworkConnectivity))
            <==> ({
            ||| mentions(message, logs, "no such host"@)
            ||| mentions(message, logs, "i/o timeout"@)
            ||| mentions(message, logs, "network is unreachable"@)
            ||| mentions(message, logs, "connection refused"@)
            ||| mentions(message, logs, "connection reset by peer"@)
            ||| mentions(message, logs, "TLS handshake timeout"@)
            ||| mentions(message, logs, "no route to host"@)
            ||| mentions(message, logs, "temporary failure in name resolution"@)
        }),
{
    let text = searched_text(message, logs);
    let texts = matchers_of(FailureKind::NetworkConnectivity);
    reveal_strlit("no such host");
    reveal_strlit("i/o timeout");
    reveal_strlit("network is unreachable");
    reveal_strlit("connection refused");
    reveal_strlit("connection reset by peer");
    reveal_strlit("TLS handshake timeout");
    reveal_strlit("no route to host");
    reveal_strlit("temporary failure in name resolution");
    lemma_mentioned_is_found(message, logs, "no such host"@);
    lemma_mentioned_is_found(message, logs, "i/o timeout"@);
    lemma_mentioned_is_found(message, logs, "network is unreachable"@);
    lemma_mentioned_is_found(message, logs, "connection refused"@);
    lemma_mentioned_is_found(message, logs, "connection reset by peer"@);
    lemma_mentioned_is_found(message, logs, "TLS handshake timeout"@);
    lemma_mentioned_is_found(message, logs, "no route to host"@);
    lemma_mentioned_is_found(message, logs, "temporary failure in name resolution"@);
    lemma_shown_by_any(text, texts, 0);
    lemma_shown_by_any(text, texts, 1);
    lemma_shown_by_any(text, texts, 2);
    lemma_shown_by_any(text, texts, 3);
    lemma_shown_by_any(text, texts, 4);
    lemma_shown_by_any(text, texts, 5);
    lemma_shown_by_any(text, texts, 6);
    lemma_shown_by_any(text, texts, 7);
    if has_any(text, texts) {
        let i = choose|i: int| 0 <= i < texts.len() && has_text(text, #[trigger] texts[i]);
        assert(i == 0 || i == 1 || i == 2 || i == 3 || i == 4 || i == 5 || i == 6 || i == 7);
    }
}

proof fn lemma_certificate_is_shown(message: Seq<char>, logs: Option<Seq<char>>)
    ensures
        has_any(searched_text(message, logs), matchers_of(FailureKind::CertificateIssue))
            <==> ({
            ||| mentions(message, logs, "certificate has expired"@)
            ||| mentions(message, logs, "x509: certificate"@)
            ||| mentions(message, logs, "tls: failed to verify"@)
        }),
{
    let text = searched_text(message, logs);
    let texts = matchers_of(FailureKind::CertificateIssue);
    reveal_strlit("certificate has expired");
    reveal_strlit("x509: certificate");
    reveal_strlit("tls: failed to verify");
    lemma_mentioned_is_found(message, logs, "certificate has expired"@);
    lemma_mentioned_is_found(message, logs, "x509: certificate"@);
    lemma_mentioned_is_found(message, logs, "tls: failed to verify"@);
    lemma_shown_by_any(text, texts, 0);
    lemma_shown_by_any(text, texts, 1);
    lemma_shown_by_any(text, texts, 2);
    if has_any(text, texts) {
        let i = choose|i: int| 0 <= i < texts.len() && has_text(text, #[trigger] texts[i]);
        assert(i == 0 || i == 1 || i == 2);
    }
}

proof fn lemma_runtime_is_shown(message: Seq<char>, logs: Option<Seq<char>>)
    ensures
        has_any(searched_text(message, logs), matchers_of(FailureKind::AppleContainerNotRunning))
            <==> ({
            ||| mentions(message, logs, "Apple Container is not running"@)
            ||| mentions(message, logs, "container system info"@)
            ||| mentions(message, logs, "container system start"@)
        }),
{
    let text = searched_text(message, logs);
    let texts = matchers_of(FailureKind::AppleContainerNotRunning);
    reveal_strlit("Apple Container is not running");
    reveal_strlit("container system info");
    reveal_strlit("container system start");
    lemma_mentioned_is_found(message, logs, "Apple Container is not running"@);
    lemma_mentioned_is_found(message, logs, "container system info"@);
    lemma_mentioned_is_found(message, logs, "container system start"@);
    lemma_shown_by_any(text, texts, 0);
    lemma_shown_by_any(text, texts, 1);
    lemma_shown_by_any(text, texts, 2);
    if has_any(text, texts) {
        let i = choose|i: int| 0 <= i < texts.len() && has_text(text, #[trigger] texts[i]);
        assert(i == 0 || i == 1 || i == 2);
    }
}

proof fn lemma_vmnet_is_shown(message: Seq<char>, logs: Option<Seq<char>>)
    ensures
        has_any(searched_text(message, logs), matchers_of(FailureKind::AppleContainerVmnet))
            <==> ({
            ||| mentions(message, logs, "vmnet"@)
            ||| mentions(message, logs, "network interface"@)
            ||| mentions(message, logs, "virtualization framework"@)
        }),
{
    let text = searched_text(message, logs);
    let texts = matchers_of(FailureKind::AppleContainerVmnet);
    reveal_strlit("vmnet");
    reveal_strlit("network interface");
    reveal_strlit("virtualization framework");
    lemma_mentioned_is_found(message, logs, "vmnet"@);
    lemma_mentioned_is_found(message, logs, "network interface"@);
    lemma_mentioned_is_found(message, logs, "virtualization framework"@);
    lemma_shown_by_any(text, texts, 0);
    lemma_shown_by_any(text, texts, 1);
    lemma_shown_by_any(text, texts, 2);
    if has_any(text, texts) {
        let i = choose|i: int| 0 <= i < texts.len() && has_text(text, #[trigger] texts[i]);
        assert(i == 0 || i == 1 || i == 2);
    }
}

/// What the message or the logs mention decides the diagnosis, whatever stands around it: a
/// held port comes before the network, the network before certificates, certificates before
/// the runtime, and the runtime before its networking. A failure of which nothing known is
/// mentioned has no diagnosis.
pub proof fn diagnosis_follows_what_is_mentioned(
    gateway_name: Seq<char>,
    error_message: Seq<char>,
    container_logs: Option<Seq<char>>,
)
    ensures
        ({
            let found = diagnosis_found(gateway_name, error_message, container_logs);
            let port = ({
                ||| mentions(error_message, container_logs, "port is already allocated"@)
                ||| mentions(error_message, container_logs, "address already in use"@)
            });
            let network = ({
                ||| mentions(error_message, container_logs, "no such host"@)
                ||| mentions(error_message, container_logs, "i/o timeout"@)
                ||| mentions(error_message, container_logs, "network is unreachable"@)
                ||| mentions(error_message, container_logs, "connection refused"@)
                ||| mentions(error_message, container_logs, "connection reset by peer"@)
                ||| mentions(error_message, container_logs, "TLS handshake timeout"@)
                ||| mentions(error_message, container_logs, "no route to host"@)
                ||| mentions(error_message, container_logs, "temporary failure in name resolution"@)
            });
            let certificate = ({
                ||| mentions(error_message, container_logs, "certificate has expired"@)
                ||| mentions(error_message, container_logs, "x509: certificate"@)
                ||| mentions(error_message, container_logs, "tls: failed to verify"@)
            });
            let runtime = ({
                ||| mentions(error_message, container_logs, "Apple Container is not running"@)
                ||| mentions(error_message, container_logs, "container system info"@)
                ||| mentions(error_message, container_logs, "container system start"@)
            });
            let vmnet = ({
                ||| mentions(error_message, container_logs, "vmnet"@)
                ||| mentions(error_message, container_logs, "network interface"@)
                ||| mentions(error_message, container_logs, "virtualization framework"@)
            });
            &&& found is Some <==> port || network || certificate || runtime || vmnet
            &&& port ==> found == Some(
                diagnosis_of(FailureKind::PortConflict, gateway_name),
            ) && found->0.summary == "Port already in use"@ && !found->0.retryable
            &&& !port && network ==> found == Some(
                diagnosis_of(FailureKind::NetworkConnectivity, gateway_name),
            ) && found->0.summary == "Network connectivity issue"@
                && found->0.retryable
            &&& !port && !network && certificate ==> found == Some(
                diagnosis_of(FailureKind::CertificateIssue, gateway_name),
            ) && found->0.summary == "TLS certificate issue"@
                && !found->0.retryable
            &&& !port && !network && !certificate && runtime ==> found == Some(
                diagnosis_of(FailureKind::AppleContainerNotRunning, gateway_name),
            ) && found->0.summary
                == "Apple Container is not running"@ && found->0.retryable
            &&& !port && !network && !certificate && !runtime && vmnet ==> found == Some(
                diagnosis_of(FailureKind::AppleContainerVmnet, gateway_name),
            ) && found->0.summary
                == "Apple Container networking failure"@ && found->0.retryable
        }),
{
    lemma_port_is_shown(error_message, container_logs);
    lemma_network_is_shown(error_message, container_logs);
    lemma_certificate_is_shown(error_message, container_logs);
    lemma_runtime_is_shown(error_message, container_logs);
    lemma_vmnet_is_shown(error_message, container_logs);
}

/// A text that surrounds a known one does not hide it, in the message or in the logs.
pub proof fn surroundings_do_not_hide_a_failure(
    gateway_name: Seq<char>,
    known: Seq<char>,
    before: Seq<char>,
    after: Seq<char>,
    other: Seq<char>,
)
    requires
        diagnosis_found(gateway_name, known, None) is Some,
    ensures
        diagnosis_found(gateway_name, before + known + after, None) is Some,
        diagnosis_found(gateway_name, other, Some(before + known + after)) is Some,
{
    let kind = failure_shown(known)->0;
    let texts = matchers_of(kind);
    let i = choose|i: int| 0 <= i < texts.len() && has_text(known, #[trigger] texts[i]);
    let at = choose|at: int| occurs_at(known, texts[i], at);
    let n = texts[i].len() as int;
    let whole = before + known + after;
    let b = before.len() as int;
    assert(whole.subrange(b + at, b + at + n) =~= known.subrange(at, at + n));
    assert(occurs_at(whole, texts[i], b + at));
    assert(has_any(whole, texts));
    earlier_pattern_wins(whole, kind);
    let longer = other + "\n"@ + whole;
    let c = (other + "\n"@).len() as int;
    assert(longer.subrange(c + b + at, c + b + at + n) =~= known.subrange(at, at + n));
    assert(occurs_at(longer, texts[i], c + b + at));
    assert(has_any(longer, texts));
    earlier_pattern_wins(longer, kind);
}

/// Every diagnosis is told in its own words and says what to run: where another process holds
/// the port, how to find it, to use another port, and to stop other gateways.
pub proof fn held_port_is_explained(gateway_name: Seq<char>)
    ensures
        ({
            let told = diagnosis_of(FailureKind::PortConflict, gateway_name);
            let steps = told.recovery_steps;
            &&& told.summary == "Port already in use"@
            &&& told.explanation == "The gateway port is already in use by another process."@
            &&& steps.len() == 3
            &&& steps[0].description == "Check what's using the port"@
            &&& steps[0].command == Some("lsof -i :8080 || netstat -an | grep 8080"@)
            &&& steps[1].description == "Use a different port"@
            &&& steps[1].command == Some("openshell gateway start --port 8081"@)
            &&& steps[2].description == "Or stop other openshell gateways"@
            &&& steps[2].command == Some(
                "openshell gateway list && openshell gateway destroy --name <name>"@,
            )
        }),
{
}

/// Where the network cannot be used, the user is sent to the connection, to name resolution
/// and to the registry, and then told to retry.
pub proof fn network_failure_is_explained(gateway_name: Seq<char>)
    ensures
        ({
            let told = diagnosis_of(FailureKind::NetworkConnectivity, gateway_name);
            let steps = told.recovery_steps;
            &&& told.summary == "Network connectivity issue"@
            &&& told.explanation
                == "Could not establish a network connection. This could be a DNS resolution failure, firewall blocking the connection, or general internet connectivity issue."@
            &&& steps.len() == 4
            &&& steps[0].description == "Check your internet connection"@
            &&& steps[0].command is None
            &&& steps[1].description == "Test DNS resolution"@
            &&& steps[1].command == Some("nslookup ghcr.io"@)
            &&& steps[2].description == "Test registry connectivity"@
            &&& steps[2].command == Some("curl -I https://ghcr.io/v2/"@)
            &&& steps[3].description == "Then retry: openshell gateway start"@
            &&& steps[3].command is None
        }),
{
}

/// Where a certificate cannot be used, the gateway is to be destroyed by its name and started
/// again.
pub proof fn certificate_failure_is_explained(gateway_name: Seq<char>)
    ensures
        ({
            let told = diagnosis_of(FailureKind::CertificateIssue, gateway_name);
            let steps = told.recovery_steps;
            &&& told.summary == "TLS certificate issue"@
            &&& told.explanation
                == "There's a problem with the gateway's TLS certificates, possibly expired or mismatched certificates from a previous installation."@
            &&& steps.len() == 1
            &&& steps[0].description
                == "Destroy and recreate the gateway to regenerate certificates"@
            &&& steps[0].command == Some(
                "openshell gateway destroy --name "@ + gateway_name
                    + " && openshell gateway start"@,
            )
        }),
{
}

/// Where Apple Container is not there, the user is told to start it, where to get it, and what
/// it needs.
pub proof fn missing_runtime_is_explained(gateway_name: Seq<char>)
    ensures
        ({
            let told = diagnosis_of(FailureKind::AppleContainerNotRunning, gateway_name);
            let steps = told.recovery_steps;
            &&& told.summary == "Apple Container is not running"@
            &&& told.explanation
                == "The Apple Container runtime is not running or not installed. OpenShell on macOS uses Apple Container for lightweight VM-based sandboxes."@
            &&& steps.len() == 4
            &&& steps[0].description == "Start Apple Container"@
            &&& steps[0].command == Some("container system start"@)
            &&& steps[1].description
                == "If not installed, install Apple Container from https://github.com/apple/container"@
            &&& steps[1].command is None
            &&& steps[2].description == "Requires macOS 15 (Sequoia) or later"@
            &&& steps[2].command is None
            &&& steps[3].description == "Then retry: openshell gateway start"@
            &&& steps[3].command is None
        }),
{
}

/// Where its networking failed, Apple Container is to be stopped and started again.
pub proof fn vmnet_failure_is_explained(gateway_name: Seq<char>)
    ensures
        ({
            let told = diagnosis_of(FailureKind::AppleContainerVmnet, gateway_name);
            let steps = told.recovery_steps;
            &&& told.summary == "Apple Container networking failure"@
            &&& told.explanation
                == "The vmnet networking framework used by Apple Container encountered an error. This can happen after macOS updates or when the Virtualization framework is in a bad state."@
            &&& steps.len() == 3
            &&& steps[0].description == "Restart the Apple Container service"@
            &&& steps[0].command == Some("container system stop && container system start"@)
            &&& steps[1].description == "If the issue persists, restart your Mac"@
            &&& steps[1].command is None
            &&& steps[2].description == "Then retry: openshell gateway start"@
            &&& steps[2].command is None
        }),
{
}

/// A failure that nothing tells is told as such, is not worth a retry, and ends with where to
/// report it.
pub proof fn unknown_failure_is_explained(gateway_name: Seq<char>)
    ensures
        ({
            let told = generic_diagnosis(gateway_name);
            let steps = told.recovery_steps;
            &&& told.summary == "Gateway failed to start"@
            &&& told.explanation
                == "The gateway encountered an unexpected error during startup."@
            &&& !told.retryable
            &&& steps.len() == 4
            &&& steps[0].description == "Check server logs for details"@
            &&& steps[1].description == "Run diagnostics"@
            &&& steps[2].description == "Try destroying and recreating the gateway"@
            &&& steps[2].command == Some(
                "openshell gateway destroy --name "@ + gateway_name
                    + " && openshell gateway start"@,
            )
            &&& steps[3].description
                == "If the issue persists, report it at https://github.com/nvidia/openshell/issues"@
            &&& steps[3].command is None
        }),
{
}

}
