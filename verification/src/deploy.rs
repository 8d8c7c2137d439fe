//! Deployment of a gateway.
//!
//! [`Deployment`] decides what to do next while a gateway is deployed. The caller does
//! it and reports what came of it.

use vstd::prelude::*;

use crate::container_runtime::{
    ExistingGateway, GatewayContainerConfig, PortConflict, RuntimeBackend,
};
use crate::metadata::{
    create_gateway_metadata, create_gateway_metadata_with_host, describes_local_gateway,
    endpoint_is_scheme_host_and_port, endpoint_url, local_gateway_host, GatewayMetadata,
};
use crate::readiness::{wait_begun, wait_inv, ReadinessWait};
use crate::runtime_apple::{
    data_dir_of, gateway_dir_of, gateway_has_its_places, log_dir_of, pid_in, pid_path_of, pki_dir_of, recent_logs_of,
    AppleContainerRuntime, GatewayRemains,
};
use crate::text::{concat2, concat3, converts_to, decimal, decimal_text, join_from, joined};
use crate::text::{has_text, lines_of, occurs_at, part_stands_in_the_joined_text};

verus! {

/// Default host port for the gateway.
pub const DEFAULT_GATEWAY_PORT: u16 = 8080;

/// What a gateway is deployed with.
#[derive(Debug, Clone)]
pub struct DeployOptions {
    pub name: String,
    pub image_ref: Option<String>,
    /// Host port for the gateway. Defaults to 8080.
    pub port: u16,
    /// Disable TLS entirely — the server listens on plaintext HTTP.
    pub disable_tls: bool,
    /// Disable gateway authentication (mTLS client certificate requirement).
    /// Ignored when `disable_tls` is true.
    pub disable_gateway_auth: bool,
    /// When true, destroy any existing gateway resources before deploying.
    /// When false, an existing gateway is left as-is and deployment is
    /// skipped (the caller is responsible for prompting the user first).
    pub recreate: bool,
}

impl DeployOptions {
    /// The options for the gateway `name`, with everything else left at its default.
    pub fn new<S: Into<String>>(name: S) -> (options: Self)
        ensures
            converts_to(name, options.name),
            options.image_ref is None,
            options.port == 8080,
            !options.disable_tls,
            !options.disable_gateway_auth,
            !options.recreate,
    {
        DeployOptions {
            name: name.into(),
            image_ref: None,
            port: DEFAULT_GATEWAY_PORT,
            disable_tls: false,
            disable_gateway_auth: false,
            recreate: false,
        }
    }

    /// Set the host port for the gateway.
    #[must_use]
    pub fn with_port(self, port: u16) -> (options: Self)
        ensures
            options == (DeployOptions { port, ..self }),
    {
        DeployOptions { port, ..self }
    }

    /// Disable TLS entirely — the server listens on plaintext HTTP.
    #[must_use]
    pub fn with_disable_tls(self, disable: bool) -> (options: Self)
        ensures
            options == (DeployOptions { disable_tls: disable, ..self }),
    {
        DeployOptions { disable_tls: disable, ..self }
    }

    /// Disable gateway authentication (mTLS client certificate requirement).
    #[must_use]
    pub fn with_disable_gateway_auth(self, disable: bool) -> (options: Self)
        ensures
            options == (DeployOptions { disable_gateway_auth: disable, ..self }),
    {
        DeployOptions { disable_gateway_auth: disable, ..self }
    }

    /// Set whether to destroy and recreate existing gateway resources.
    #[must_use]
    pub fn with_recreate(self, recreate: bool) -> (options: Self)
        ensures
            options == (DeployOptions { recreate, ..self }),
    {
        DeployOptions { recreate, ..self }
    }
}

// ---------------------------------------------------------------------------
// Handles
// ---------------------------------------------------------------------------

/// A handle to a gateway.
pub struct GatewayHandle {
    name: String,
    metadata: GatewayMetadata,
    runtime: RuntimeBackend,
}

impl GatewayHandle {
    /// The name of the gateway.
    pub closed spec fn name_text(&self) -> Seq<char> {
        self.name@
    }

    /// The metadata of the gateway.
    pub closed spec fn metadata_held(&self) -> GatewayMetadata {
        self.metadata
    }

    /// The runtime of the gateway.
    pub closed spec fn runtime_held(&self) -> RuntimeBackend {
        self.runtime
    }

    /// A handle to the gateway `name`.
    pub fn new(name: String, metadata: GatewayMetadata, runtime: RuntimeBackend) -> (handle: Self)
        ensures
            handle.name_text() == name@,
            handle.metadata_held() == metadata,
            handle.runtime_held() == runtime,
    {
        GatewayHandle { name, metadata, runtime }
    }

    /// Get the gateway name.
    pub fn name(&self) -> (name: &str)
        ensures
            name@ == self.name_text(),
    {
        self.name.as_str()
    }

    /// Get the gateway metadata.
    pub fn metadata(&self) -> (metadata: &GatewayMetadata)
        ensures
            *metadata == self.metadata_held(),
    {
        &self.metadata
    }

    /// Get the gateway endpoint URL.
    pub fn gateway_endpoint(&self) -> (endpoint: &str)
        ensures
            endpoint@ == self.metadata_held().gateway_endpoint@,
    {
        self.metadata.gateway_endpoint.as_str()
    }

    /// Get a reference to the runtime backend.
    pub fn runtime(&self) -> (runtime: &RuntimeBackend)
        ensures
            *runtime == self.runtime_held(),
    {
        &self.runtime
    }

    /// The process to send SIGTERM to when the gateway is stopped, where its PID file names
    /// one.
    pub fn stop(&self, pid_file: Option<&str>) -> (pid: Option<i32>)
        ensures
            pid == pid_in(pid_file.deep_view()),
    {
        self.runtime.stop_gateway(pid_file)
    }

    /// What is removed, once the gateway is stopped, to destroy it.
    pub fn destroy(&self, home: Option<&str>) -> (remains: GatewayRemains)
        ensures
            remains.files.deep_view() == seq![pid_path_of(home.deep_view(), self.name_text())],
            remains.directories.deep_view() == seq![
                data_dir_of(home.deep_view(), self.name_text()),
                pki_dir_of(home.deep_view(), self.name_text()),
                log_dir_of(home.deep_view(), self.name_text()),
            ],
    {
        self.runtime.destroy_resources(home, self.name.as_str())
    }
}

/// Create the appropriate container runtime backend for the current platform.
///
/// Always returns Apple Container runtime (macOS only).
pub fn create_runtime() -> (runtime: RuntimeBackend)
    ensures
        runtime == RuntimeBackend::AppleContainer(AppleContainerRuntime),
{
    RuntimeBackend::AppleContainer(AppleContainerRuntime::new())
}

/// The metadata of a gateway: what is stored of it, or that of a local gateway on the
/// default port where nothing could be loaded.
pub fn metadata_or_default(name: &str, stored: Option<GatewayMetadata>) -> (metadata:
    GatewayMetadata)
    ensures
        match stored {
            Some(found) => metadata == found,
            None => describes_local_gateway(
                metadata,
                name@,
                8080,
                endpoint_url("127.0.0.1"@, 8080, false),
            ),
        },
{
    match stored {
        Some(found) => found,
        None => create_gateway_metadata(name, DEFAULT_GATEWAY_PORT),
    }
}

/// Check whether a gateway already has resources deployed.
///
/// Returns `None` if no existing gateway resources are found, or
/// `Some(ExistingGateway)` with details about what exists. `pid_file` is what the PID file
/// of the gateway holds, `alive` tells whether the process that it names answers, and
/// `storage_exists` whether the data directory is there.
pub fn check_existing_deployment(
    pid_file: Option<&str>,
    alive: bool,
    storage_exists: bool,
) -> (existing: Option<ExistingGateway>)
    ensures
        existing is Some <==> pid_in(pid_file.deep_view()) is Some || storage_exists,
        existing matches Some(found) ==> {
            &&& found.container_exists <==> pid_in(pid_file.deep_view()) is Some
            &&& found.container_running <==> pid_in(pid_file.deep_view()) is Some && alive
            &&& found.storage_exists == storage_exists
            &&& found.container_image.deep_view() == (if pid_in(pid_file.deep_view()) is Some {
                Some("native"@)
            } else {
                None
            })
        },
{
    create_runtime().check_existing(pid_file, alive, storage_exists)
}

/// Get a handle to an existing gateway. `stored` is the stored metadata of the gateway,
/// where it could be loaded.
pub fn gateway_handle(name: &str, stored: Option<GatewayMetadata>) -> (handle: GatewayHandle)
    ensures
        handle.name_text() == name@,
        match stored {
            Some(found) => handle.metadata_held() == found,
            None => describes_local_gateway(
                handle.metadata_held(),
                name@,
                8080,
                endpoint_url("127.0.0.1"@, 8080, false),
            ),
        },
        handle.runtime_held() == RuntimeBackend::AppleContainer(AppleContainerRuntime),
{
    GatewayHandle {
        name: name.to_string(),
        metadata: metadata_or_default(name, stored),
        runtime: create_runtime(),
    }
}

/// The logs of a gateway: the last `n` lines when `lines` is `Some(n)`, and all
/// available logs when it is `None`. `content` is what the log file holds, and `None`
/// where it cannot be read.
pub fn gateway_container_logs(content: Option<&str>, lines: Option<usize>) -> (logs: String)
    ensures
        logs@ == recent_logs_of(
            content.deep_view(),
            match lines {
                Some(n) => n as nat,
                None => crate::text::lines_of(
                    match content {
                        Some(text) => text@,
                        None => Seq::empty(),
                    },
                ).len(),
            },
        ),
{
    let runtime = AppleContainerRuntime::new();
    match lines {
        Some(n) => runtime.fetch_recent_logs(content, n),
        None => match content {
            Some(text) => {
                let all = crate::text::split_lines(text);
                runtime.fetch_recent_logs(content, all.len())
            },
            None => runtime.fetch_recent_logs(None, 0),
        },
    }
}

/// The last `n` lines of the log of a gateway. `content` is what the log file holds, and
/// `None` where it cannot be read.
pub fn fetch_gateway_logs(content: Option<&str>, n: usize) -> (logs: String)
    ensures
        logs@ == recent_logs_of(content.deep_view(), n as nat),
{
    AppleContainerRuntime::new().fetch_recent_logs(content, n)
}

// ---------------------------------------------------------------------------
// Deployment
// ---------------------------------------------------------------------------

/// What is to be done next.
#[derive(Debug, Clone, Copy, PartialEq, Eq, Structural)]
pub enum DeployStage {
    /// Check that Apple Container is running.
    CheckRuntime,
    /// Check whether the gateway already exists.
    CheckExisting,
    /// Destroy the gateway that exists.
    DestroyExisting,
    /// Ensure that there is a network.
    EnsureNetwork,
    /// Check whether the port is held.
    CheckPorts,
    /// Ensure that there is storage.
    EnsureStorage,
    /// Locate the server binary.
    LocateServer,
    /// Generate the certificates.
    GeneratePki,
    /// Store the certificates for the client.
    StorePki,
    /// Write the certificates that the server reads.
    WritePki,
    /// Start the server and write its PID file.
    CreateGateway,
    /// Start what was created.
    StartGateway,
    /// Wait until the gateway is ready.
    WaitForReady,
    /// Store the metadata.
    StoreMetadata,
    /// Destroy what a failed deployment has left.
    CleanUp,
    /// Nothing: the gateway is deployed.
    Deployed,
    /// Nothing: the deployment has failed.
    Failed,
}

/// What came of it.
#[derive(Debug, Clone)]
pub enum DeployEvent {
    /// It was done.
    Done,
    /// It failed, with this error.
    StepFailed(String),
    /// The gateway that exists, if any.
    Existing(Option<ExistingGateway>),
    /// What holds the port.
    Ports(Vec<PortConflict>),
}

/// A deployment of a gateway.
#[derive(Debug)]
pub struct Deployment {
    name: String,
    port: u16,
    disable_tls: bool,
    disable_gateway_auth: bool,
    recreate: bool,
    stage: DeployStage,
    failure: Option<String>,
}

/// The state of a deployment.
#[verifier::ext_equal]
pub struct DeployState {
    /// Name of the gateway.
    pub name: Seq<char>,
    /// Host port of the gateway.
    pub port: u16,
    /// Whether the server listens on plaintext HTTP.
    pub disable_tls: bool,
    /// Whether the server asks for no client certificate.
    pub disable_gateway_auth: bool,
    /// Whether a gateway that exists is destroyed.
    pub recreate: bool,
    /// What is to be done next.
    pub stage: DeployStage,
    /// Why the deployment has failed.
    pub failure: Option<Seq<char>>,
}

/// Where a deployment stands when it begins.
pub open spec fn deploy_begun(options: DeployOptions) -> DeployState {
    DeployState {
        name: options.name@,
        port: options.port,
        disable_tls: options.disable_tls,
        disable_gateway_auth: options.disable_gateway_auth,
        recreate: options.recreate,
        stage: DeployStage::CheckRuntime,
        failure: None,
    }
}

/// What is done once a step is done. The ports are checked before the storage is made: storage
/// that is left behind counts as a gateway that exists, and a deployment that a held port has
/// stopped is to be safe to re-run.
pub open spec fn stage_after(stage: DeployStage) -> DeployStage {
    match stage {
        DeployStage::CheckRuntime => DeployStage::CheckExisting,
        DeployStage::CheckExisting => DeployStage::EnsureNetwork,
        DeployStage::DestroyExisting => DeployStage::EnsureNetwork,
        DeployStage::EnsureNetwork => DeployStage::CheckPorts,
        DeployStage::CheckPorts => DeployStage::EnsureStorage,
        DeployStage::EnsureStorage => DeployStage::LocateServer,
        DeployStage::LocateServer => DeployStage::GeneratePki,
        DeployStage::GeneratePki => DeployStage::StorePki,
        DeployStage::StorePki => DeployStage::WritePki,
        DeployStage::WritePki => DeployStage::CreateGateway,
        DeployStage::CreateGateway => DeployStage::StartGateway,
        DeployStage::StartGateway => DeployStage::WaitForReady,
        DeployStage::WaitForReady => DeployStage::StoreMetadata,
        DeployStage::StoreMetadata => DeployStage::Deployed,
        DeployStage::CleanUp => DeployStage::Failed,
        DeployStage::Deployed => DeployStage::Deployed,
        DeployStage::Failed => DeployStage::Failed,
    }
}

/// Whether resources of the gateway are being created, so that a failure is followed by
/// a clean-up that leaves no orphaned state.
pub open spec fn creates_resources(stage: DeployStage) -> bool {
    match stage {
        DeployStage::LocateServer => true,
        DeployStage::GeneratePki => true,
        DeployStage::StorePki => true,
        DeployStage::WritePki => true,
        DeployStage::CreateGateway => true,
        DeployStage::StartGateway => true,
        DeployStage::WaitForReady => true,
        DeployStage::StoreMetadata => true,
        _ => false,
    }
}

/// `true` or `false`.
pub open spec fn bool_text(b: bool) -> Seq<char> {
    if b {
        "true"@
    } else {
        "false"@
    }
}

/// The error of a deployment that finds an existing gateway.
pub open spec fn exists_message(name: Seq<char>, running: bool) -> Seq<char> {
    "Gateway '"@ + name + "' already exists (container_running="@ + bool_text(running)
        + ").\nUse --recreate to destroy and redeploy, or destroy it first with:\n\n    openshell gateway destroy --name "@
        + name
}

/// What is said of one conflict.
pub open spec fn conflict_text(conflict: PortConflict) -> Seq<char> {
    "port "@ + decimal(conflict.host_port as nat) + " is held by process \""@
        + conflict.container_name@ + "\""@
}

/// The error of a deployment whose port is held.
pub open spec fn ports_message(conflicts: Seq<PortConflict>) -> Seq<char> {
    "cannot start gateway: "@ + joined(
        Seq::new(conflicts.len(), |i: int| conflict_text(conflicts[i])),
        ", "@,
    ) + "\n\nStop the conflicting process(es) first, then retry."@
}

/// The deployment after an event. An event that does not answer what was to be done
/// changes nothing.
pub open spec fn deploy_after(state: DeployState, event: DeployEvent) -> DeployState {
    let stage = state.stage;
    if stage == DeployStage::Deployed || stage == DeployStage::Failed {
        state
    } else if stage == DeployStage::CleanUp {
        // Whatever came of the clean-up, the deployment has failed for its own reason.
        match event {
            DeployEvent::Done => DeployState { stage: DeployStage::Failed, ..state },
            DeployEvent::StepFailed(_) => DeployState { stage: DeployStage::Failed, ..state },
            _ => state,
        }
    } else {
        match event {
            DeployEvent::StepFailed(message) => DeployState {
                stage: if creates_resources(stage) {
                    DeployStage::CleanUp
                } else {
                    DeployStage::Failed
                },
                failure: Some(message@),
                ..state
            },
            DeployEvent::Existing(existing) => if stage != DeployStage::CheckExisting {
                state
            } else {
                match existing {
                    None => DeployState { stage: DeployStage::EnsureNetwork, ..state },
                    Some(found) => if state.recreate {
                        DeployState { stage: DeployStage::DestroyExisting, ..state }
                    } else {
                        DeployState {
                            stage: DeployStage::Failed,
                            failure: Some(exists_message(state.name, found.container_running)),
                            ..state
                        }
                    },
                }
            },
            DeployEvent::Ports(conflicts) => if stage != DeployStage::CheckPorts {
                state
            } else if conflicts@.len() == 0 {
                DeployState { stage: DeployStage::EnsureStorage, ..state }
            } else {
                DeployState {
                    stage: DeployStage::Failed,
                    failure: Some(ports_message(conflicts@)),
                    ..state
                }
            },
            DeployEvent::Done => if stage == DeployStage::CheckExisting || stage
                == DeployStage::CheckPorts {
                state
            } else {
                DeployState { stage: stage_after(stage), ..state }
            },
        }
    }
}

/// The deployment after a run of events.
pub open spec fn deploy_run(state: DeployState, events: Seq<DeployEvent>) -> DeployState
    decreases events.len(),
{
    if events.len() == 0 {
        state
    } else {
        deploy_after(deploy_run(state, events.drop_last()), events.last())
    }
}

/// What is logged before a step is done.
pub open spec fn log_line_of(stage: DeployStage) -> Option<Seq<char>> {
    match stage {
        DeployStage::CheckRuntime => Some("[status] Checking runtime"@),
        DeployStage::DestroyExisting => Some("[status] Removing existing gateway"@),
        DeployStage::EnsureNetwork => Some("[status] Initializing environment"@),
        DeployStage::GeneratePki => Some("[progress] Generating TLS certificates"@),
        DeployStage::WaitForReady => Some("[status] Starting gateway"@),
        _ => None,
    }
}

fn describe_conflicts(conflicts: &Vec<PortConflict>) -> (details: Vec<String>)
    ensures
        details.deep_view() == Seq::new(conflicts@.len(), |i: int| conflict_text(conflicts@[i])),
{
    let mut details: Vec<String> = Vec::new();
    let mut i: usize = 0;
    while i < conflicts.len()
        invariant
            i <= conflicts.len(),
            details.deep_view() == Seq::new(i as nat, |k: int| conflict_text(conflicts@[k])),
        decreases conflicts.len() - i,
    {
        let ghost before = details.deep_view();
        let conflict = &conflicts[i];
        let mut text = concat3(
            "port ",
            decimal_text(conflict.host_port as u64).as_str(),
            " is held by process \"",
        );
        text.append(conflict.container_name.as_str());
        text.append("\"");
        details.push(text);
        assert(details.deep_view() =~= before.push(text@));
        i = i + 1;
    }
    details
}

impl View for Deployment {
    type V = DeployState;

    closed spec fn view(&self) -> DeployState {
        DeployState {
            name: self.name@,
            port: self.port,
            disable_tls: self.disable_tls,
            disable_gateway_auth: self.disable_gateway_auth,
            recreate: self.recreate,
            stage: self.stage,
            failure: self.failure.deep_view(),
        }
    }
}

impl Deployment {
    /// The deployment of a gateway with these options.
    pub fn new(options: DeployOptions) -> (deployment: Self)
        ensures
            deployment@ == deploy_begun(options),
    {
        Deployment {
            name: options.name,
            port: options.port,
            disable_tls: options.disable_tls,
            disable_gateway_auth: options.disable_gateway_auth,
            recreate: options.recreate,
            stage: DeployStage::CheckRuntime,
            failure: None,
        }
    }

    /// What is to be done next.
    pub fn stage(&self) -> (stage: DeployStage)
        ensures
            stage == self@.stage,
    {
        self.stage
    }

    /// The name of the gateway.
    pub fn name(&self) -> (name: &str)
        ensures
            name@ == self@.name,
    {
        self.name.as_str()
    }

    /// The host port of the gateway.
    pub fn port(&self) -> (port: u16)
        ensures
            port == self@.port,
    {
        self.port
    }

    /// Why the deployment has failed.
    pub fn failure(&self) -> (failure: Option<&String>)
        ensures
            match failure {
                Some(message) => self@.failure == Some(message@),
                None => self@.failure is None,
            },
    {
        self.failure.as_ref()
    }

    /// What is logged before the next step is done.
    pub fn log_line(&self) -> (line: Option<String>)
        ensures
            line.deep_view() == log_line_of(self@.stage),
    {
        match self.stage {
            DeployStage::CheckRuntime => Some("[status] Checking runtime".to_string()),
            DeployStage::DestroyExisting => Some("[status] Removing existing gateway".to_string()),
            DeployStage::EnsureNetwork => Some("[status] Initializing environment".to_string()),
            DeployStage::GeneratePki => Some("[progress] Generating TLS certificates".to_string()),
            DeployStage::WaitForReady => Some("[status] Starting gateway".to_string()),
            _ => None,
        }
    }

    /// The configuration that the gateway is created with.
    pub fn gateway_config(&self) -> (config: GatewayContainerConfig)
        ensures
            config.image_ref@ == "native"@,
            config.extra_sans@.len() == 0,
            config.ssh_gateway_host is None,
            config.gateway_port == self@.port,
            config.disable_tls == self@.disable_tls,
            config.disable_gateway_auth == self@.disable_gateway_auth,
            config.registry_username is None,
            config.registry_token is None,
            !config.gpu,
    {
        GatewayContainerConfig {
            image_ref: "native".to_string(),
            extra_sans: extra_sans(),
            ssh_gateway_host: None,
            gateway_port: self.port,
            disable_tls: self.disable_tls,
            disable_gateway_auth: self.disable_gateway_auth,
            registry_username: None,
            registry_token: None,
            gpu: false,
        }
    }

    /// The metadata that is stored of the gateway.
    pub fn gateway_metadata(&self) -> (metadata: GatewayMetadata)
        ensures
            describes_local_gateway(
                metadata,
                self@.name,
                self@.port,
                endpoint_url("127.0.0.1"@, self@.port, self@.disable_tls),
            ),
    {
        let metadata = create_gateway_metadata_with_host(
            self.name.as_str(),
            self.port,
            None,
            self.disable_tls,
        );
        GatewayMetadata { runtime_type: create_runtime().runtime_type(), ..metadata }
    }

    /// The wait for the gateway to become ready: its own port is probed.
    pub fn readiness_wait(&self) -> (wait: ReadinessWait)
        ensures
            wait_inv(wait@),
            wait@ == wait_begun(
                endpoint_url("127.0.0.1"@, self@.port, self@.disable_tls),
                self@.port,
            ),
    {
        ReadinessWait::new(&self.gateway_metadata())
    }

    /// A handle to the gateway, once it is deployed.
    pub fn into_handle(self) -> (handle: Option<GatewayHandle>)
        ensures
            match handle {
                Some(made) => self@.stage == DeployStage::Deployed && made.name_text()
                    == self@.name && describes_local_gateway(
                    made.metadata_held(),
                    self@.name,
                    self@.port,
                    endpoint_url("127.0.0.1"@, self@.port, self@.disable_tls),
                ) && made.runtime_held() == RuntimeBackend::AppleContainer(AppleContainerRuntime),
                None => self@.stage != DeployStage::Deployed,
            },
    {
        match self.stage {
            DeployStage::Deployed => {
                let metadata = self.gateway_metadata();
                Some(GatewayHandle::new(self.name, metadata, create_runtime()))
            },
            _ => None,
        }
    }

    /// Take note of what came of the last step.
    pub fn advance(&mut self, event: DeployEvent)
        ensures
            final(self)@ == deploy_after(old(self)@, event),
    {
        match self.stage {
            DeployStage::Deployed | DeployStage::Failed => {},
            DeployStage::CleanUp => {
                match event {
                    DeployEvent::Done | DeployEvent::StepFailed(_) => {
                        self.stage = DeployStage::Failed;
                    },
                    _ => {},
                }
            },
            _ => {
                match event {
                    DeployEvent::StepFailed(message) => {
                        self.stage = if cleans_up_after(self.stage) {
                            DeployStage::CleanUp
                        } else {
                            DeployStage::Failed
                        };
                        self.failure = Some(message);
                    },
                    DeployEvent::Existing(existing) => self.found_existing(existing),
                    DeployEvent::Ports(conflicts) => self.found_conflicts(&conflicts),
                    DeployEvent::Done => {
                        if self.stage != DeployStage::CheckExisting && self.stage
                            != DeployStage::CheckPorts {
                            self.stage = next_stage(self.stage);
                        }
                    },
                }
            },
        }
        assert(self@ =~= deploy_after(old(self)@, event));
    }

    fn found_existing(&mut self, existing: Option<ExistingGateway>)
        requires
            old(self)@.stage != DeployStage::Deployed,
            old(self)@.stage != DeployStage::Failed,
            old(self)@.stage != DeployStage::CleanUp,
        ensures
            final(self)@ == deploy_after(old(self)@, DeployEvent::Existing(existing)),
    {
        if self.stage == DeployStage::CheckExisting {
            match existing {
                None => {
                    self.stage = DeployStage::EnsureNetwork;
                },
                Some(found) => {
                    if self.recreate {
                        self.stage = DeployStage::DestroyExisting;
                    } else {
                        let mut message = concat3(
                            "Gateway '",
                            self.name.as_str(),
                            "' already exists (container_running=",
                        );
                        message.append(
                            if found.container_running {
                                "true"
                            } else {
                                "false"
                            },
                        );
                        message.append(
                            ").\nUse --recreate to destroy and redeploy, or destroy it first with:\n\n    openshell gateway destroy --name ",
                        );
                        message.append(self.name.as_str());
                        self.stage = DeployStage::Failed;
                        self.failure = Some(message);
                    }
                },
            }
        }
        assert(self@ =~= deploy_after(old(self)@, DeployEvent::Existing(existing)));
    }

    fn found_conflicts(&mut self, conflicts: &Vec<PortConflict>)
        requires
            old(self)@.stage != DeployStage::Deployed,
            old(self)@.stage != DeployStage::Failed,
            old(self)@.stage != DeployStage::CleanUp,
        ensures
            final(self)@ == deploy_after(old(self)@, DeployEvent::Ports(*conflicts)),
    {
        if self.stage == DeployStage::CheckPorts {
            if conflicts.len() == 0 {
                self.stage = DeployStage::EnsureStorage;
            } else {
                let details = describe_conflicts(conflicts);
                assert(details.deep_view().skip(0) =~= details.deep_view());
                let list = join_from(&details, 0, ", ");
                self.stage = DeployStage::Failed;
                self.failure = Some(
                    concat3(
                        "cannot start gateway: ",
                        list.as_str(),
                        "\n\nStop the conflicting process(es) first, then retry.",
                    ),
                );
            }
        }
        assert(self@ =~= deploy_after(old(self)@, DeployEvent::Ports(*conflicts)));
    }
}

fn cleans_up_after(stage: DeployStage) -> (yes: bool)
    ensures
        yes == creates_resources(stage),
{
    match stage {
        DeployStage::LocateServer | DeployStage::GeneratePki | DeployStage::StorePki
        | DeployStage::WritePki | DeployStage::CreateGateway | DeployStage::StartGateway
        | DeployStage::WaitForReady | DeployStage::StoreMetadata => true,
        _ => false,
    }
}

fn next_stage(stage: DeployStage) -> (next: DeployStage)
    ensures
        next == stage_after(stage),
{
    match stage {
        DeployStage::CheckRuntime => DeployStage::CheckExisting,
        DeployStage::CheckExisting => DeployStage::EnsureNetwork,
        DeployStage::DestroyExisting => DeployStage::EnsureNetwork,
        DeployStage::EnsureNetwork => DeployStage::CheckPorts,
        DeployStage::CheckPorts => DeployStage::EnsureStorage,
        DeployStage::EnsureStorage => DeployStage::LocateServer,
        DeployStage::LocateServer => DeployStage::GeneratePki,
        DeployStage::GeneratePki => DeployStage::StorePki,
        DeployStage::StorePki => DeployStage::WritePki,
        DeployStage::WritePki => DeployStage::CreateGateway,
        DeployStage::CreateGateway => DeployStage::StartGateway,
        DeployStage::StartGateway => DeployStage::WaitForReady,
        DeployStage::WaitForReady => DeployStage::StoreMetadata,
        DeployStage::StoreMetadata => DeployStage::Deployed,
        DeployStage::CleanUp => DeployStage::Failed,
        DeployStage::Deployed => DeployStage::Deployed,
        DeployStage::Failed => DeployStage::Failed,
    }
}

/// The additional names that the certificates of a gateway are valid for: the host that
/// it runs on, where it is not this one.
pub fn extra_sans() -> (names: Vec<String>)
    ensures
        names@.len() == 0,
{
    let mut names: Vec<String> = Vec::new();
    if let Some(host) = local_gateway_host() {
        names.push(host);
    }
    names
}

/// Where the certificates are written that the server of a gateway reads.
#[derive(Debug, Clone)]
pub struct PkiFiles {
    /// Directory of the files.
    pub directory: String,
    /// Certificate of the authority.
    pub ca_cert: String,
    /// Certificate of the server.
    pub server_cert: String,
    /// Private key of the server.
    pub server_key: String,
}

/// Where the certificates are written that the server of a gateway reads. `home` is the
/// home directory, where it is known.
pub fn pki_files(home: Option<&str>, name: &str) -> (files: PkiFiles)
    ensures
        files.directory@ == gateway_dir_of(home.deep_view(), name@) + "/pki"@,
        files.ca_cert@ == files.directory@ + "/ca.crt"@,
        files.server_cert@ == files.directory@ + "/tls.crt"@,
        files.server_key@ == files.directory@ + "/tls.key"@,
{
    let gateway_dir = AppleContainerRuntime::new().gateway_dir(home, name);
    let directory = concat2(gateway_dir.as_str(), "/pki");
    PkiFiles {
        ca_cert: concat2(directory.as_str(), "/ca.crt"),
        server_cert: concat2(directory.as_str(), "/tls.crt"),
        server_key: concat2(directory.as_str(), "/tls.key"),
        directory,
    }
}

// ---------------------------------------------------------------------------
// Laws
// ---------------------------------------------------------------------------

/// How far a deployment has come.
pub open spec fn stage_rank(stage: DeployStage) -> int {
    match stage {
        DeployStage::CheckRuntime => 0,
        DeployStage::CheckExisting => 1,
        DeployStage::DestroyExisting => 2,
        DeployStage::EnsureNetwork => 3,
        DeployStage::CheckPorts => 4,
        DeployStage::EnsureStorage => 5,
        DeployStage::LocateServer => 6,
        DeployStage::GeneratePki => 7,
        DeployStage::StorePki => 8,
        DeployStage::WritePki => 9,
        DeployStage::CreateGateway => 10,
        DeployStage::StartGateway => 11,
        DeployStage::WaitForReady => 12,
        DeployStage::StoreMetadata => 13,
        DeployStage::CleanUp => 14,
        DeployStage::Deployed => 15,
        DeployStage::Failed => 15,
    }
}

/// Every event that a deployment answers to brings it nearer to its end, so that no
/// deployment goes on for ever.
pub proof fn deployment_makes_progress(state: DeployState, event: DeployEvent)
    requires
        deploy_after(state, event) != state,
    ensures
        stage_rank(deploy_after(state, event).stage) > stage_rank(state.stage),
{
}

/// A deployment keeps the options that it began with, and has failed exactly where it
/// has an error that no step is left to follow.
pub proof fn deployment_keeps_its_options(options: DeployOptions, events: Seq<DeployEvent>)
    ensures
        ({
            let state = deploy_run(deploy_begun(options), events);
            &&& state.name == options.name@
            &&& state.port == options.port
            &&& state.disable_tls == options.disable_tls
            &&& state.disable_gateway_auth == options.disable_gateway_auth
            &&& state.recreate == options.recreate
            &&& state.failure is Some <==> state.stage == DeployStage::Failed || state.stage
                == DeployStage::CleanUp
        }),
    decreases events.len(),
{
    if events.len() > 0 {
        deployment_keeps_its_options(options, events.drop_last());
    }
}

/// Whether a step was done in a run of events.
pub open spec fn step_done(
    state: DeployState,
    events: Seq<DeployEvent>,
    stage: DeployStage,
) -> bool {
    exists|i: int|
        0 <= i < events.len() && #[trigger] events[i] is Done && deploy_run(
            state,
            events.take(i),
        ).stage == stage
}

/// A step that has to be done and has no other answer than that it was done.
pub open spec fn is_plain_step(stage: DeployStage) -> bool {
    match stage {
        DeployStage::CheckRuntime => true,
        DeployStage::EnsureNetwork => true,
        DeployStage::EnsureStorage => true,
        _ => creates_resources(stage),
    }
}

proof fn lemma_passed_means_done(
    options: DeployOptions,
    events: Seq<DeployEvent>,
    stage: DeployStage,
)
    requires
        is_plain_step(stage),
        ({
            let reached = deploy_run(deploy_begun(options), events).stage;
            stage_rank(reached) > stage_rank(stage) && reached != DeployStage::CleanUp && reached
                != DeployStage::Failed
        }),
    ensures
        step_done(deploy_begun(options), events, stage),
    decreases events.len(),
{
    let start = deploy_begun(options);
    let before = deploy_run(start, events.drop_last());
    let n = events.len() - 1;
    assert(events.take(n) =~= events.drop_last());
    if before.stage == stage {
        assert(events[n] is Done);
    } else {
        assert(stage_rank(before.stage) > stage_rank(stage));
        lemma_passed_means_done(options, events.drop_last(), stage);
        let i = choose|i: int|
            0 <= i < n && #[trigger] events.drop_last()[i] is Done && deploy_run(
                start,
                events.drop_last().take(i),
            ).stage == stage;
        assert(events.drop_last().take(i) =~= events.take(i));
        assert(events[i] is Done);
    }
}

/// A gateway is deployed only after every step was done: the runtime was checked,
/// network and storage are there, the server was located, its certificates were
/// generated, stored and written, the server was started and was ready, and its metadata
/// was stored.
pub proof fn deployed_means_every_step_done(
    options: DeployOptions,
    events: Seq<DeployEvent>,
    stage: DeployStage,
)
    requires
        deploy_run(deploy_begun(options), events).stage == DeployStage::Deployed,
        is_plain_step(stage),
    ensures
        step_done(deploy_begun(options), events, stage),
{
    lemma_passed_means_done(options, events, stage);
}

/// The server is started only after its certificates were generated, stored and written.
pub proof fn certificates_come_before_the_server(
    options: DeployOptions,
    events: Seq<DeployEvent>,
)
    requires
        deploy_run(deploy_begun(options), events).stage == DeployStage::CreateGateway,
    ensures
        step_done(deploy_begun(options), events, DeployStage::GeneratePki),
        step_done(deploy_begun(options), events, DeployStage::StorePki),
        step_done(deploy_begun(options), events, DeployStage::WritePki),
{
    lemma_passed_means_done(options, events, DeployStage::GeneratePki);
    lemma_passed_means_done(options, events, DeployStage::StorePki);
    lemma_passed_means_done(options, events, DeployStage::WritePki);
}

/// A failure while resources are created is followed by one clean-up, and its error is
/// the error of the deployment, whether or not the clean-up fails too.
pub proof fn failed_creation_is_cleaned_up(
    state: DeployState,
    error: String,
    outcome: DeployEvent,
)
    requires
        creates_resources(state.stage),
        outcome is Done || outcome is StepFailed,
    ensures
        ({
            let failed = deploy_after(state, DeployEvent::StepFailed(error));
            let over = deploy_after(failed, outcome);
            &&& failed.stage == DeployStage::CleanUp
            &&& over.stage == DeployStage::Failed
            &&& over.failure == Some(error@)
        }),
{
}

/// A deployment that is over stays as it is, whatever else happens.
pub proof fn finished_deployment_stays(state: DeployState, events: Seq<DeployEvent>)
    requires
        state.stage == DeployStage::Deployed || state.stage == DeployStage::Failed,
    ensures
        deploy_run(state, events) == state,
    decreases events.len(),
{
    if events.len() > 0 {
        finished_deployment_stays(state, events.drop_last());
    }
}

/// Without `recreate`, a gateway that exists is left as it is: it is never destroyed, and
/// once it was found nothing more is done.
pub proof fn existing_gateway_is_left_alone(
    options: DeployOptions,
    events: Seq<DeployEvent>,
    found: ExistingGateway,
    more: Seq<DeployEvent>,
)
    requires
        !options.recreate,
    ensures
        ({
            let state = deploy_run(deploy_begun(options), events);
            let after = deploy_after(state, DeployEvent::Existing(Some(found)));
            &&& state.stage != DeployStage::DestroyExisting
            &&& state.stage == DeployStage::CheckExisting ==> deploy_run(after, more).stage
                == DeployStage::Failed && deploy_run(after, more).failure == Some(
                exists_message(options.name@, found.container_running),
            )
        }),
    decreases events.len(),
{
    deployment_keeps_its_options(options, events);
    let state = deploy_run(deploy_begun(options), events);
    if state.stage == DeployStage::CheckExisting {
        finished_deployment_stays(
            deploy_after(state, DeployEvent::Existing(Some(found))),
            more,
        );
    }
    if events.len() > 0 {
        deployment_keeps_its_options(options, events.drop_last());
        existing_gateway_is_left_alone(options, events.drop_last(), found, more);
    }
}

proof fn lemma_rank_never_falls(state: DeployState, events: Seq<DeployEvent>, i: int)
    requires
        0 <= i <= events.len(),
    ensures
        stage_rank(deploy_run(state, events.take(i)).stage) <= stage_rank(
            deploy_run(state, events).stage,
        ),
    decreases events.len(),
{
    if i == events.len() {
        assert(events.take(i) =~= events);
    } else {
        let shorter = events.drop_last();
        lemma_rank_never_falls(state, shorter, i);
        assert(shorter.take(i) =~= events.take(i));
    }
}

proof fn lemma_destruction_is_left_by_doing_it(state: DeployState, event: DeployEvent)
    requires
        state.stage == DeployStage::DestroyExisting,
        deploy_after(state, event) != state,
        deploy_after(state, event).stage != DeployStage::Failed,
    ensures
        event is Done,
{
}

proof fn lemma_passed_destruction(state: DeployState, events: Seq<DeployEvent>, at: int)
    requires
        0 <= at <= events.len(),
        deploy_run(state, events.take(at)).stage == DeployStage::DestroyExisting,
        stage_rank(deploy_run(state, events).stage) > 2,
        deploy_run(state, events).stage != DeployStage::Failed,
    ensures
        step_done(state, events, DeployStage::DestroyExisting),
    decreases events.len(),
{
    if at == events.len() {
        assert(events.take(at) =~= events);
    } else {
        let shorter = events.drop_last();
        let n = events.len() - 1;
        let before = deploy_run(state, shorter);
        assert(events.take(n) =~= shorter);
        assert(shorter.take(at) =~= events.take(at));
        lemma_rank_never_falls(state, shorter, at);
        if before.stage == DeployStage::DestroyExisting {
            lemma_destruction_is_left_by_doing_it(before, events[n]);
        } else {
            assert(before.stage != DeployStage::Failed);
            lemma_passed_destruction(state, shorter, at);
            let i = choose|i: int|
                0 <= i < n && #[trigger] shorter[i] is Done && deploy_run(
                    state,
                    shorter.take(i),
                ).stage == DeployStage::DestroyExisting;
            assert(shorter.take(i) =~= events.take(i));
            assert(events[i] is Done);
        }
    }
}

/// With `recreate`, whatever exists of the gateway is destroyed before it is deployed: once
/// something was found, a deployment that has not failed comes past its destruction only by
/// doing it.
pub proof fn recreation_destroys_what_exists(
    options: DeployOptions,
    events: Seq<DeployEvent>,
    at: int,
)
    requires
        options.recreate,
        0 <= at < events.len(),
        events[at] matches DeployEvent::Existing(Some(_)),
        deploy_run(deploy_begun(options), events.take(at)).stage == DeployStage::CheckExisting,
        ({
            let reached = deploy_run(deploy_begun(options), events).stage;
            stage_rank(reached) > stage_rank(DeployStage::DestroyExisting) && reached
                != DeployStage::Failed
        }),
    ensures
        step_done(deploy_begun(options), events, DeployStage::DestroyExisting),
{
    let begun = deploy_begun(options);
    let found = events.take(at + 1);
    assert(found.drop_last() =~= events.take(at));
    assert(found.last() == events[at]);
    deployment_keeps_its_options(options, events.take(at));
    assert(deploy_run(begun, found).stage == DeployStage::DestroyExisting);
    lemma_passed_destruction(begun, events, at + 1);
}

/// While the port is held nothing is created: the deployment fails and does nothing more.
pub proof fn held_port_stops_the_deployment(
    state: DeployState,
    conflicts: Vec<PortConflict>,
    more: Seq<DeployEvent>,
)
    requires
        state.stage == DeployStage::CheckPorts,
        conflicts@.len() > 0,
    ensures
        ({
            let over = deploy_run(deploy_after(state, DeployEvent::Ports(conflicts)), more);
            &&& over.stage == DeployStage::Failed
            &&& over.failure == Some(ports_message(conflicts@))
        }),
{
    finished_deployment_stays(deploy_after(state, DeployEvent::Ports(conflicts)), more);
}

/// A deployment that a held port stops has made no storage, so that nothing stands in the way
/// of a retry.
pub proof fn held_port_leaves_no_storage(options: DeployOptions, events: Seq<DeployEvent>)
    requires
        deploy_run(deploy_begun(options), events).stage == DeployStage::CheckPorts,
    ensures
        !step_done(deploy_begun(options), events, DeployStage::EnsureStorage),
{
    let begun = deploy_begun(options);
    if step_done(begun, events, DeployStage::EnsureStorage) {
        let i = choose|i: int|
            0 <= i < events.len() && #[trigger] events[i] is Done && deploy_run(
                begun,
                events.take(i),
            ).stage == DeployStage::EnsureStorage;
        lemma_rank_never_falls(begun, events, i);
    }
}

/// A deployment begins with the runtime and with the options that it was given, and has not
/// failed.
pub proof fn deployment_begins_with_its_options(options: DeployOptions)
    ensures
        ({
            let begun = deploy_begun(options);
            &&& begun.stage == DeployStage::CheckRuntime
            &&& begun.failure is None
            &&& begun.name == options.name@
            &&& begun.port == options.port
            &&& begun.disable_tls == options.disable_tls
            &&& begun.disable_gateway_auth == options.disable_gateway_auth
            &&& begun.recreate == options.recreate
        }),
{
}

/// Whether at some point of a run of events the port was asked for and found to be free.
pub open spec fn port_was_free(options: DeployOptions, events: Seq<DeployEvent>) -> bool {
    exists|i: int|
        0 <= i < events.len() && (#[trigger] events[i] matches DeployEvent::Ports(conflicts)
            && conflicts@.len() == 0) && deploy_run(deploy_begun(options), events.take(i)).stage
            == DeployStage::CheckPorts
}

/// Whether at some point of a run of events it was asked for a gateway that exists.
pub open spec fn existing_was_asked_for(options: DeployOptions, events: Seq<DeployEvent>) -> bool {
    exists|i: int|
        0 <= i < events.len() && #[trigger] events[i] is Existing && deploy_run(
            deploy_begun(options),
            events.take(i),
        ).stage == DeployStage::CheckExisting
}

proof fn lemma_asked_for_in_longer(options: DeployOptions, events: Seq<DeployEvent>)
    requires
        events.len() > 0,
        existing_was_asked_for(options, events.drop_last()),
    ensures
        existing_was_asked_for(options, events),
{
    let shorter = events.drop_last();
    let i = choose|i: int|
        0 <= i < shorter.len() && #[trigger] shorter[i] is Existing && deploy_run(
            deploy_begun(options),
            shorter.take(i),
        ).stage == DeployStage::CheckExisting;
    assert(shorter.take(i) =~= events.take(i));
    assert(events[i] is Existing);
}

proof fn lemma_free_in_longer(options: DeployOptions, events: Seq<DeployEvent>)
    requires
        events.len() > 0,
        port_was_free(options, events.drop_last()),
    ensures
        port_was_free(options, events),
{
    let shorter = events.drop_last();
    let i = choose|i: int|
        0 <= i < shorter.len() && (#[trigger] shorter[i] matches DeployEvent::Ports(conflicts)
            && conflicts@.len() == 0) && deploy_run(deploy_begun(options), shorter.take(i)).stage
            == DeployStage::CheckPorts;
    assert(shorter.take(i) =~= events.take(i));
    assert(events[i] == shorter[i]);
}

/// Whether a deployment that stands here has come past the check for an existing gateway.
pub open spec fn past_existing(stage: DeployStage) -> bool {
    stage != DeployStage::CheckRuntime && stage != DeployStage::CheckExisting && stage
        != DeployStage::Failed
}

/// Whether a deployment that stands here has come past the check of its port.
pub open spec fn past_ports(stage: DeployStage) -> bool {
    past_existing(stage) && stage != DeployStage::DestroyExisting && stage
        != DeployStage::EnsureNetwork && stage != DeployStage::CheckPorts
}

/// Each check is passed by one answer only, from whichever state: that for an existing gateway
/// by what exists, and that of the port by its being free.
pub proof fn checks_are_passed_by_their_answers(state: DeployState, event: DeployEvent)
    ensures
        past_existing(deploy_after(state, event).stage) && !past_existing(state.stage)
            ==> state.stage == DeployStage::CheckExisting && event is Existing,
        past_ports(deploy_after(state, event).stage) && !past_ports(state.stage) ==> state.stage
            == DeployStage::CheckPorts && (event matches DeployEvent::Ports(conflicts)
            && conflicts@.len() == 0),
{
}

/// No deployment goes on without its checks, whatever its options: past the check for a
/// gateway that exists it comes only by an answer to that question, and past the check of the
/// port only where nothing was found to hold it.
pub proof fn no_check_is_skipped(options: DeployOptions, events: Seq<DeployEvent>)
    ensures
        past_existing(deploy_run(deploy_begun(options), events).stage)
            ==> existing_was_asked_for(options, events),
        past_ports(deploy_run(deploy_begun(options), events).stage) ==> port_was_free(
            options,
            events,
        ),
    decreases events.len(),
{
    let begun = deploy_begun(options);
    if events.len() > 0 {
        let shorter = events.drop_last();
        let n = events.len() - 1;
        let before = deploy_run(begun, shorter);
        no_check_is_skipped(options, shorter);
        assert(events.take(n) =~= shorter);
        assert(events[n] == events.last());
        assert(deploy_run(begun, events) == deploy_after(before, events[n]));
        checks_are_passed_by_their_answers(before, events[n]);
        if past_existing(before.stage) {
            lemma_asked_for_in_longer(options, events);
        }
        if past_ports(before.stage) {
            lemma_free_in_longer(options, events);
        }
    } else {
        assert(deploy_run(begun, events) == begun);
    }
}

/// A gateway is deployed only after it was asked for one that exists, and after its port was
/// found to be free, whatever the options.
pub proof fn deployed_means_checked(options: DeployOptions, events: Seq<DeployEvent>)
    requires
        deploy_run(deploy_begun(options), events).stage == DeployStage::Deployed,
    ensures
        existing_was_asked_for(options, events),
        port_was_free(options, events),
{
    no_check_is_skipped(options, events);
}

/// `n` times the news that a step was done.
pub open spec fn done_times(n: nat) -> Seq<DeployEvent> {
    Seq::new(n, |i: int| DeployEvent::Done)
}



/// From its storage on, a deployment goes through ten steps in one order: storage, the server
/// binary, certificates that are generated, stored and written, the server that is created,
/// started and waited for, and the metadata.
pub proof fn deployment_goes_on_in_order(state: DeployState, n: nat)
    requires
        state.stage == DeployStage::EnsureStorage,
        n <= 9,
    ensures
        ({
            let order = seq![
                DeployStage::EnsureStorage,
                DeployStage::LocateServer,
                DeployStage::GeneratePki,
                DeployStage::StorePki,
                DeployStage::WritePki,
                DeployStage::CreateGateway,
                DeployStage::StartGateway,
                DeployStage::WaitForReady,
                DeployStage::StoreMetadata,
                DeployStage::Deployed,
            ];
            let reached = deploy_run(state, done_times(n));
            &&& reached.stage == order[n as int]
            &&& reached.failure == state.failure
        }),
    decreases n,
{
    if n > 0 {
        deployment_goes_on_in_order(state, (n - 1) as nat);
        assert(done_times(n).drop_last() =~= done_times((n - 1) as nat));
        assert(done_times(n).last() == DeployEvent::Done);
    } else {
        assert(done_times(n) =~= Seq::empty());
    }
}

/// Where nothing goes wrong a gateway is deployed, whatever the options: the runtime is
/// checked, no gateway exists or the one that exists is to be recreated and is destroyed, the
/// network is there, the port is free, and everything else is done.
pub proof fn undisturbed_deployment_succeeds(
    options: DeployOptions,
    existing: Option<ExistingGateway>,
    free: Vec<PortConflict>,
)
    requires
        existing is Some ==> options.recreate,
        free@.len() == 0,
    ensures
        ({
            let begun = deploy_begun(options);
            let checked = deploy_after(begun, DeployEvent::Done);
            let asked = deploy_after(checked, DeployEvent::Existing(existing));
            let cleared = if existing is Some {
                deploy_after(asked, DeployEvent::Done)
            } else {
                asked
            };
            let networked = deploy_after(cleared, DeployEvent::Done);
            let ready = deploy_after(networked, DeployEvent::Ports(free));
            &&& checked.stage == DeployStage::CheckExisting
            &&& existing is Some ==> asked.stage == DeployStage::DestroyExisting
            &&& cleared.stage == DeployStage::EnsureNetwork
            &&& networked.stage == DeployStage::CheckPorts
            &&& ready.stage == DeployStage::EnsureStorage
            &&& deploy_run(ready, done_times(9)).stage == DeployStage::Deployed
            &&& deploy_run(ready, done_times(9)).failure is None
        }),
{
    let begun = deploy_begun(options);
    let checked = deploy_after(begun, DeployEvent::Done);
    let asked = deploy_after(checked, DeployEvent::Existing(existing));
    let cleared = if existing is Some {
        deploy_after(asked, DeployEvent::Done)
    } else {
        asked
    };
    let networked = deploy_after(cleared, DeployEvent::Done);
    let ready = deploy_after(networked, DeployEvent::Ports(free));
    deployment_goes_on_in_order(ready, 9);
}

/// A step that fails gives the deployment its error. Before there is anything to clean up the
/// deployment has failed. From the search for the server on, what was made is cleaned up
/// first.
pub proof fn failed_step_ends_the_deployment(state: DeployState, error: String)
    ensures
        ({
            let after = deploy_after(state, DeployEvent::StepFailed(error));
            let early = state.stage == DeployStage::CheckRuntime || state.stage
                == DeployStage::CheckExisting || state.stage == DeployStage::DestroyExisting
                || state.stage == DeployStage::EnsureNetwork || state.stage
                == DeployStage::CheckPorts || state.stage == DeployStage::EnsureStorage;
            let late = state.stage == DeployStage::LocateServer || state.stage
                == DeployStage::GeneratePki || state.stage == DeployStage::StorePki || state.stage
                == DeployStage::WritePki || state.stage == DeployStage::CreateGateway
                || state.stage == DeployStage::StartGateway || state.stage
                == DeployStage::WaitForReady || state.stage == DeployStage::StoreMetadata;
            &&& early ==> after.stage == DeployStage::Failed && after.failure == Some(error@)
            &&& late ==> after.stage == DeployStage::CleanUp && after.failure == Some(error@)
            &&& state.stage == DeployStage::CleanUp ==> after.stage == DeployStage::Failed
                && after.failure == state.failure
        }),
{
}

/// A clean-up that was done ends a deployment that has failed, and its error stays.
pub proof fn clean_up_keeps_the_error(state: DeployState)
    requires
        state.stage == DeployStage::CleanUp,
    ensures
        deploy_after(state, DeployEvent::Done).stage == DeployStage::Failed,
        deploy_after(state, DeployEvent::Done).failure == state.failure,
{
}

/// An event that does not answer what was to be done changes nothing: what exists and what
/// holds the port is only heard where it was asked for, and there a bare `Done` is no answer.
/// No event changes the options.
pub proof fn deployment_ignores_other_events(state: DeployState, event: DeployEvent)
    ensures
        event is Existing && state.stage != DeployStage::CheckExisting ==> deploy_after(
            state,
            event,
        ) == state,
        event is Ports && state.stage != DeployStage::CheckPorts ==> deploy_after(state, event)
            == state,
        event is Done && (state.stage == DeployStage::CheckExisting || state.stage
            == DeployStage::CheckPorts) ==> deploy_after(state, event) == state,
        ({
            let after = deploy_after(state, event);
            &&& after.name == state.name
            &&& after.port == state.port
            &&& after.disable_tls == state.disable_tls
            &&& after.disable_gateway_auth == state.disable_gateway_auth
            &&& after.recreate == state.recreate
        }),
{
}

/// A gateway that exists stops a deployment that is not to recreate it, with an error that
/// names the gateway, tells whether it is running, and says how to go on.
pub proof fn existing_gateway_is_reported(state: DeployState, found: ExistingGateway)
    requires
        state.stage == DeployStage::CheckExisting,
        !state.recreate,
    ensures
        ({
            let after = deploy_after(state, DeployEvent::Existing(Some(found)));
            &&& after.stage == DeployStage::Failed
            &&& after.failure == Some(
                "Gateway '"@ + state.name + "' already exists (container_running="@ + (
                if found.container_running {
                    "true"@
                } else {
                    "false"@
                })
                    + ").\nUse --recreate to destroy and redeploy, or destroy it first with:\n\n    openshell gateway destroy --name "@
                    + state.name,
            )
        }),
{
}

/// A held port stops a deployment with an error that names every process that holds it, and
/// where one process does, that one alone.
pub proof fn held_port_is_reported(state: DeployState, conflicts: Vec<PortConflict>, i: int)
    requires
        state.stage == DeployStage::CheckPorts,
        0 <= i < conflicts@.len(),
    ensures
        ({
            let after = deploy_after(state, DeployEvent::Ports(conflicts));
            let told = "port "@ + decimal(conflicts@[i].host_port as nat)
                + " is held by process \""@ + conflicts@[i].container_name@ + "\""@;
            &&& after.stage == DeployStage::Failed
            &&& after.failure is Some
            &&& has_text(after.failure->0, told)
            &&& conflicts@.len() == 1 ==> after.failure->0 == "cannot start gateway: "@ + told
                + "\n\nStop the conflicting process(es) first, then retry."@
        }),
{
    let parts = Seq::new(conflicts@.len(), |k: int| conflict_text(conflicts@[k]));
    let list = joined(parts, ", "@);
    let told = parts[i];
    part_stands_in_the_joined_text(parts, ", "@, i);
    let at = choose|at: int| occurs_at(list, told, at);
    let before = "cannot start gateway: "@;
    let after = "\n\nStop the conflicting process(es) first, then retry."@;
    let whole = before + list + after;
    let b = before.len() as int;
    assert(whole.subrange(b + at, b + at + told.len()) =~= list.subrange(at, at + told.len()));
    assert(occurs_at(whole, told, b + at));
    if conflicts@.len() == 1 {
        assert(parts =~= seq![told]);
    }
}

/// Five steps of a deployment are announced before they are done, each in its own words, and
/// no other is.
pub proof fn steps_are_announced(stage: DeployStage)
    ensures
        stage == DeployStage::CheckRuntime ==> log_line_of(stage) == Some(
            "[status] Checking runtime"@,
        ),
        stage == DeployStage::DestroyExisting ==> log_line_of(stage) == Some(
            "[status] Removing existing gateway"@,
        ),
        stage == DeployStage::EnsureNetwork ==> log_line_of(stage) == Some(
            "[status] Initializing environment"@,
        ),
        stage == DeployStage::GeneratePki ==> log_line_of(stage) == Some(
            "[progress] Generating TLS certificates"@,
        ),
        stage == DeployStage::WaitForReady ==> log_line_of(stage) == Some(
            "[status] Starting gateway"@,
        ),
        log_line_of(stage) is Some ==> stage == DeployStage::CheckRuntime || stage
            == DeployStage::DestroyExisting || stage == DeployStage::EnsureNetwork || stage
            == DeployStage::GeneratePki || stage == DeployStage::WaitForReady,
{
}

/// A gateway is waited for where its server listens: the port that the server is started with
/// is the one that is probed, and the one in the endpoint that is stored.
pub proof fn gateway_is_waited_for_where_it_listens(
    deployment: Deployment,
    config: GatewayContainerConfig,
    metadata: GatewayMetadata,
    wait: ReadinessWait,
    address: String,
)
    requires
        call_ensures(Deployment::gateway_config, (&deployment,), config),
        call_ensures(Deployment::gateway_metadata, (&deployment,), metadata),
        call_ensures(Deployment::readiness_wait, (&deployment,), wait),
        call_ensures(ReadinessWait::address, (&wait,), address),
    ensures
        config.gateway_port == deployment@.port,
        config.disable_tls == deployment@.disable_tls,
        config.disable_gateway_auth == deployment@.disable_gateway_auth,
        config.image_ref@ == "native"@,
        metadata.name@ == deployment@.name,
        metadata.gateway_port == config.gateway_port,
        metadata.gateway_endpoint@ == (if config.disable_tls {
            "http://127.0.0.1:"@
        } else {
            "https://127.0.0.1:"@
        }) + decimal(config.gateway_port as nat),
        address@ == "127.0.0.1:"@ + decimal(config.gateway_port as nat),
        wait@.endpoint == metadata.gateway_endpoint@,
{
    endpoint_is_scheme_host_and_port("127.0.0.1"@, deployment@.port);
    reveal_strlit("http://");
    reveal_strlit("https://");
    reveal_strlit("127.0.0.1");
    reveal_strlit(":");
    reveal_strlit("http://127.0.0.1:");
    reveal_strlit("https://127.0.0.1:");
    assert("http://"@ + "127.0.0.1"@ + ":"@ =~= "http://127.0.0.1:"@);
    assert("https://"@ + "127.0.0.1"@ + ":"@ =~= "https://127.0.0.1:"@);
}

/// The handle of a deployed gateway is to that gateway, and there is none before.
pub proof fn handle_is_to_the_deployed_gateway(
    deployment: Deployment,
    metadata: GatewayMetadata,
    handle: Option<GatewayHandle>,
)
    requires
        call_ensures(Deployment::gateway_metadata, (&deployment,), metadata),
        call_ensures(Deployment::into_handle, (deployment,), handle),
    ensures
        handle is Some <==> deployment@.stage == DeployStage::Deployed,
        handle matches Some(made) ==> made.name_text() == deployment@.name
            && made.metadata_held().name@ == metadata.name@
            && made.metadata_held().gateway_endpoint@ == metadata.gateway_endpoint@
            && made.metadata_held().gateway_port == metadata.gateway_port,
{
}

/// The server reads its certificates where they are written: below the directory of its
/// gateway, which its destruction removes.
pub proof fn certificates_are_written_where_they_are_removed(
    home: Option<&str>,
    name: &str,
    files: PkiFiles,
    handle: GatewayHandle,
    remains: GatewayRemains,
)
    requires
        name@.len() > 0,
        name@.last() != '/',
        call_ensures(pki_files, (home, name), files),
        call_ensures(GatewayHandle::destroy, (&handle, home), remains),
        handle.name_text() == name@,
    ensures
        remains.directories.deep_view().contains(files.directory@),
        files.ca_cert@ == files.directory@ + "/ca.crt"@,
        files.server_cert@ == files.directory@ + "/tls.crt"@,
        files.server_key@ == files.directory@ + "/tls.key"@,
{
    gateway_has_its_places(home.deep_view(), name@);
    assert(remains.directories.deep_view()[1] == files.directory@);
}

/// All logs are shown where no number of lines is asked for, and otherwise as many of the last
/// lines as are asked for.
pub proof fn logs_are_shown_as_asked(
    content: &str,
    n: usize,
    all: String,
    last: String,
    fetched: String,
    missing: String,
)
    requires
        call_ensures(gateway_container_logs, (Some(content), None), all),
        call_ensures(gateway_container_logs, (Some(content), Some(n)), last),
        call_ensures(fetch_gateway_logs, (Some(content), n), fetched),
        call_ensures(gateway_container_logs, (None, Some(n)), missing),
    ensures
        all@ == joined(lines_of(content@), "\n"@),
        last@ == fetched@,
        n <= lines_of(content@).len() ==> last@ == joined(
            lines_of(content@).skip(lines_of(content@).len() - n),
            "\n"@,
        ),
        n > lines_of(content@).len() ==> last@ == all@,
        missing@ == "server logs: not available"@,
{
    let lines = lines_of(content@);
    assert(lines.skip(0) =~= lines);
}

/// A handle is to the gateway of that name: with the metadata that is stored of it, or that of
/// a local gateway on the default port.
pub proof fn handle_is_to_the_named_gateway(
    name: &str,
    stored: GatewayMetadata,
    known: GatewayHandle,
    unknown: GatewayHandle,
    pid_file: Option<&str>,
    pid: Option<i32>,
)
    requires
        call_ensures(gateway_handle, (name, Some(stored)), known),
        call_ensures(gateway_handle, (name, None), unknown),
        call_ensures(GatewayHandle::stop, (&known, pid_file), pid),
    ensures
        known.name_text() == name@,
        known.metadata_held() == stored,
        unknown.name_text() == name@,
        unknown.metadata_held().name@ == name@,
        unknown.metadata_held().gateway_port == 8080,
        unknown.metadata_held().gateway_endpoint@ == "https://"@ + "127.0.0.1"@ + ":"@ + decimal(
            8080,
        ),
        pid == pid_in(pid_file.deep_view()),
{
    endpoint_is_scheme_host_and_port("127.0.0.1"@, 8080);
}

/// A gateway is found deployed exactly where its PID file names a process or its storage is
/// there.
pub proof fn deployment_is_found_by_what_is_left_of_it(
    pid_file: Option<&str>,
    alive: bool,
    storage_exists: bool,
    existing: Option<ExistingGateway>,
)
    requires
        call_ensures(check_existing_deployment, (pid_file, alive, storage_exists), existing),
    ensures
        existing is None <==> pid_in(pid_file.deep_view()) is None && !storage_exists,
        existing matches Some(found) ==> {
            &&& found.container_running <==> alive && pid_in(pid_file.deep_view()) is Some
            &&& found.container_exists <==> pid_in(pid_file.deep_view()) is Some
            &&& found.storage_exists <==> storage_exists
        },
{
}

/// Each option is set by its own builder and by no other: the rest stays as it was.
pub proof fn builders_set_one_option_each(
    options: DeployOptions,
    port: u16,
    set: bool,
    with_port: DeployOptions,
    with_tls: DeployOptions,
    with_auth: DeployOptions,
    with_recreate: DeployOptions,
)
    requires
        call_ensures(DeployOptions::with_port, (options, port), with_port),
        call_ensures(DeployOptions::with_disable_tls, (options, set), with_tls),
        call_ensures(DeployOptions::with_disable_gateway_auth, (options, set), with_auth),
        call_ensures(DeployOptions::with_recreate, (options, set), with_recreate),
    ensures
        with_port.port == port && with_port.name == options.name && with_port.recreate
            == options.recreate && with_port.disable_tls == options.disable_tls
            && with_port.disable_gateway_auth == options.disable_gateway_auth,
        with_tls.disable_tls == set && with_tls.port == options.port && with_tls.recreate
            == options.recreate && with_tls.disable_gateway_auth == options.disable_gateway_auth,
        with_auth.disable_gateway_auth == set && with_auth.disable_tls == options.disable_tls
            && with_auth.recreate == options.recreate,
        with_recreate.recreate == set && with_recreate.port == options.port
            && with_recreate.disable_tls == options.disable_tls
            && with_recreate.disable_gateway_auth == options.disable_gateway_auth,
{
}

/// A deployment tells its own name, port, stage and failure, and announces its own step.
pub proof fn deployment_tells_of_itself(
    options: DeployOptions,
    deployment: Deployment,
    name: &str,
    port: u16,
    stage: DeployStage,
    failure: Option<&String>,
    line: Option<String>,
)
    requires
        call_ensures(Deployment::new, (options,), deployment),
        call_ensures(Deployment::name, (&deployment,), name),
        call_ensures(Deployment::port, (&deployment,), port),
        call_ensures(Deployment::stage, (&deployment,), stage),
        call_ensures(Deployment::failure, (&deployment,), failure),
        call_ensures(Deployment::log_line, (&deployment,), line),
    ensures
        name@ == options.name@,
        port == options.port,
        stage == DeployStage::CheckRuntime,
        failure is None,
        line.deep_view() == Some("[status] Checking runtime"@),
{
}

}
