//! The run of the server.
//!
//! [`ServerRun`] decides what to do next while the server starts and serves. The caller does
//! it and reports what came of it.

use vstd::prelude::*;

use crate::config::Config;
use crate::error::{Error, ErrorClass, ErrorText};
use crate::text::{concat2, concat3, decimal, decimal_text, trim_text, trimmed};
use crate::text::{
    is_white_space, trimming_keeps_a_text_that_is_not_blank, trimming_takes_off_the_ends,
};

verus! {

/// Seconds between two sweeps for expired SSH sessions.
pub const SESSION_REAPER_SECS: u64 = 3600;

/// What is next while the server runs.
#[derive(Debug, Clone, Copy, PartialEq, Eq, Structural)]
pub enum ServerStage {
    /// Connect to the persistence store.
    ConnectStore,
    /// Connect to the container bridge daemon with mutual TLS.
    ConnectBridge,
    /// Connect to the container bridge daemon without TLS.
    ConnectBridgeInsecure,
    /// Create the Kubernetes sandbox client.
    CreateSandboxClient,
    /// Spawn the sandbox watcher, the store reconciler and the Kubernetes event tailer.
    SpawnKubernetesTasks,
    /// Spawn the reaper of SSH sessions.
    SpawnSessionReaper,
    /// Bind the listener.
    Bind,
    /// Load the certificates of the server.
    LoadTls,
    /// Install the handlers of shutdown signals.
    ListenForShutdown,
    /// Accept connections.
    Accept,
    /// Nothing: the server was shut down.
    Stopped,
    /// Nothing: the server could not be started.
    Failed,
}

/// What came of it.
#[derive(Debug, Clone)]
pub enum ServerEvent {
    /// It was done.
    Done,
    /// It failed with this error.
    StepFailed(Error),
    /// The Kubernetes client could not be created, with the text of the error.
    SandboxClientFailed(String),
    /// The listener could not be bound.
    BindFailed {
        /// The address, as it is shown.
        address: String,
        /// The text of the error.
        error: String,
    },
    /// A connection was accepted, and is being served.
    Accepted,
    /// A connection could not be accepted.
    AcceptFailed,
    /// A shutdown signal was received.
    Shutdown,
}

/// A run of the server.
#[derive(Debug)]
pub struct ServerRun {
    config: Config,
    stage: ServerStage,
    failure: Option<Error>,
}

/// The state of a run of the server.
#[verifier::ext_equal]
pub struct RunState {
    /// Configuration of the server.
    pub config: Config,
    /// What is next.
    pub stage: ServerStage,
    /// Why the server could not be started.
    pub failure: Option<ErrorText>,
}

/// How the Kubernetes sandbox client is set up.
#[derive(Debug, Clone)]
pub struct KubernetesSettings {
    /// Namespace for sandboxes.
    pub namespace: String,
    /// Default image for sandboxes.
    pub image: String,
    /// Pull policy for the image.
    pub image_pull_policy: String,
    /// Endpoint at which sandboxes reach the server.
    pub grpc_endpoint: String,
    /// Address that the SSH server of a sandbox listens on.
    pub ssh_listen_addr: String,
    /// Secret for the SSH handshake.
    pub ssh_handshake_secret: String,
    /// Clock skew that the SSH handshake allows, in seconds.
    pub ssh_handshake_skew_secs: u64,
    /// Name of the secret with the client TLS materials of sandboxes.
    pub client_tls_secret_name: String,
    /// IP address at which sandboxes reach the host.
    pub host_gateway_ip: String,
}

/// Why a configuration cannot be run.
pub open spec fn config_problem(config: Config) -> Option<Seq<char>> {
    if trimmed(config.database_url@).len() == 0 {
        Some("database_url is required"@)
    } else if config.ssh_handshake_secret@.len() == 0 {
        Some(
            "ssh_handshake_secret is required. Set --ssh-handshake-secret or OPENSHELL_SSH_HANDSHAKE_SECRET"@,
        )
    } else {
        None
    }
}

/// Whether sandboxes are managed through Apple Container.
pub open spec fn uses_apple_container(config: Config) -> bool {
    config.sandbox_backend@ == "apple-container"@
}

/// What follows the connection to the bridge daemon. Only the Kubernetes backend has a
/// client and tasks of its own.
pub open spec fn after_bridge(config: Config) -> ServerStage {
    if uses_apple_container(config) {
        ServerStage::SpawnSessionReaper
    } else {
        ServerStage::CreateSandboxClient
    }
}

/// What follows the connection to the store. The bridge daemon is connected to where
/// sandboxes are managed through Apple Container and its endpoint is known, with mutual TLS
/// where that is configured.
pub open spec fn after_store(config: Config) -> ServerStage {
    if uses_apple_container(config) && config.bridge_endpoint@.len() > 0 {
        if config.bridge_tls is Some {
            ServerStage::ConnectBridge
        } else {
            ServerStage::ConnectBridgeInsecure
        }
    } else {
        after_bridge(config)
    }
}

/// What the operator is told of the bridge daemon before the server starts.
pub open spec fn bridge_notice_of(config: Config) -> Option<Seq<char>> {
    if !uses_apple_container(config) {
        None
    } else if config.bridge_endpoint@.len() == 0 {
        Some(
            "Apple Container backend: no bridge endpoint configured. Sandbox create/delete operations will not be available until the bridge daemon is running and --bridge-endpoint is set."@,
        )
    } else if config.bridge_tls is None {
        Some(
            "Bridge mTLS not configured — connecting to bridge daemon without authentication. Set --bridge-tls-ca, --bridge-tls-cert, and --bridge-tls-key for production use."@,
        )
    } else {
        None
    }
}

/// What is next once a step is done.
pub open spec fn server_next(config: Config, stage: ServerStage) -> ServerStage {
    match stage {
        ServerStage::ConnectStore => after_store(config),
        ServerStage::ConnectBridge => after_bridge(config),
        ServerStage::ConnectBridgeInsecure => after_bridge(config),
        ServerStage::CreateSandboxClient => ServerStage::SpawnKubernetesTasks,
        ServerStage::SpawnKubernetesTasks => ServerStage::SpawnSessionReaper,
        ServerStage::SpawnSessionReaper => ServerStage::Bind,
        ServerStage::Bind => if config.tls is Some {
            ServerStage::LoadTls
        } else {
            ServerStage::ListenForShutdown
        },
        ServerStage::LoadTls => ServerStage::ListenForShutdown,
        ServerStage::ListenForShutdown => ServerStage::Accept,
        ServerStage::Accept => ServerStage::Accept,
        ServerStage::Stopped => ServerStage::Stopped,
        ServerStage::Failed => ServerStage::Failed,
    }
}

/// The error with which an event ends a run, if it ends it.
pub open spec fn server_problem(stage: ServerStage, event: ServerEvent) -> Option<ErrorText> {
    match (stage, event) {
        (ServerStage::ConnectStore, ServerEvent::StepFailed(error)) => Some(error.deep_view()),
        (ServerStage::ConnectBridge, ServerEvent::StepFailed(error)) => Some(error.deep_view()),
        (ServerStage::ConnectBridgeInsecure, ServerEvent::StepFailed(error)) => Some(
            error.deep_view(),
        ),
        (ServerStage::LoadTls, ServerEvent::StepFailed(error)) => Some(error.deep_view()),
        (ServerStage::CreateSandboxClient, ServerEvent::SandboxClientFailed(text)) => Some(
            ErrorText {
                class: ErrorClass::Execution,
                message: "failed to create kubernetes client: "@ + text@,
            },
        ),
        (ServerStage::Bind, ServerEvent::BindFailed { address, error }) => Some(
            ErrorText {
                class: ErrorClass::Transport,
                message: "failed to bind to "@ + address@ + ": "@ + error@,
            },
        ),
        _ => None,
    }
}

/// The run after an event. An event that does not answer what was to be done changes
/// nothing. A connection that was accepted, or could not be, leaves the server accepting
/// connections: only a shutdown signal ends that.
pub open spec fn server_after(state: RunState, event: ServerEvent) -> RunState {
    match server_problem(state.stage, event) {
        Some(problem) => RunState {
            stage: ServerStage::Failed,
            failure: Some(problem),
            ..state
        },
        None => match event {
            ServerEvent::Done => RunState {
                stage: server_next(state.config, state.stage),
                ..state
            },
            ServerEvent::Shutdown => if state.stage == ServerStage::Accept {
                RunState { stage: ServerStage::Stopped, ..state }
            } else {
                state
            },
            _ => state,
        },
    }
}

/// The run after a run of events.
pub open spec fn server_run(state: RunState, events: Seq<ServerEvent>) -> RunState
    decreases events.len(),
{
    if events.len() == 0 {
        state
    } else {
        server_after(server_run(state, events.drop_last()), events.last())
    }
}

/// Where a run stands when it begins.
pub open spec fn run_begun(config: Config) -> RunState {
    RunState { config, stage: ServerStage::ConnectStore, failure: None }
}

impl View for ServerRun {
    type V = RunState;

    closed spec fn view(&self) -> RunState {
        RunState {
            config: self.config,
            stage: self.stage,
            failure: self.failure.deep_view(),
        }
    }
}

/// Begin to run the server with this configuration.
///
/// Returns an error if the configuration has no database URL or no SSH handshake secret.
pub fn run_server(config: Config) -> (run: Result<ServerRun, Error>)
    ensures
        match run {
            Ok(begun) => config_problem(config) is None && begun@ == run_begun(config),
            Err(error) => error.class == ErrorClass::Config && config_problem(config) == Some(
                error.message@,
            ),
        },
{
    let database_url = trim_text(config.database_url.as_str());
    if database_url.as_str().is_empty() {
        return Err(Error::new(ErrorClass::Config, "database_url is required".to_string()));
    }
    if config.ssh_handshake_secret.as_str().is_empty() {
        return Err(
            Error::new(
                ErrorClass::Config,
                "ssh_handshake_secret is required. Set --ssh-handshake-secret or OPENSHELL_SSH_HANDSHAKE_SECRET".to_string(),
            ),
        );
    }
    Ok(ServerRun { config, stage: ServerStage::ConnectStore, failure: None })
}

impl ServerRun {
    /// What is next.
    pub fn stage(&self) -> (stage: ServerStage)
        ensures
            stage == self@.stage,
    {
        self.stage
    }

    /// The configuration of the server.
    pub fn config(&self) -> (config: &Config)
        ensures
            *config == self@.config,
    {
        &self.config
    }

    /// Why the server could not be started.
    pub fn failure(&self) -> (failure: Option<&Error>)
        ensures
            match failure {
                Some(error) => self@.failure == Some(error.deep_view()),
                None => self@.failure is None,
            },
    {
        self.failure.as_ref()
    }

    /// What the operator is told of the bridge daemon before the server starts.
    pub fn bridge_notice(&self) -> (notice: Option<String>)
        ensures
            notice.deep_view() == bridge_notice_of(self@.config),
    {
        let apple_container = self.config.sandbox_backend == "apple-container".to_string();
        if !apple_container {
            None
        } else if self.config.bridge_endpoint.as_str().is_empty() {
            Some(
                "Apple Container backend: no bridge endpoint configured. Sandbox create/delete operations will not be available until the bridge daemon is running and --bridge-endpoint is set.".to_string(),
            )
        } else if self.config.bridge_tls.is_none() {
            Some(
                "Bridge mTLS not configured — connecting to bridge daemon without authentication. Set --bridge-tls-ca, --bridge-tls-cert, and --bridge-tls-key for production use.".to_string(),
            )
        } else {
            None
        }
    }

    /// The URL of the persistence store.
    pub fn database_url(&self) -> (url: String)
        ensures
            url@ == trimmed(self@.config.database_url@),
    {
        trim_text(self.config.database_url.as_str())
    }

    /// How the Kubernetes sandbox client is set up.
    pub fn kubernetes_settings(&self) -> (settings: KubernetesSettings)
        ensures
            settings.namespace@ == self@.config.sandbox_namespace@,
            settings.image@ == self@.config.sandbox_image@,
            settings.image_pull_policy@ == self@.config.sandbox_image_pull_policy@,
            settings.grpc_endpoint@ == self@.config.grpc_endpoint@,
            settings.ssh_listen_addr@ == "0.0.0.0:"@ + decimal(
                self@.config.sandbox_ssh_port as nat,
            ),
            settings.ssh_handshake_secret@ == self@.config.ssh_handshake_secret@,
            settings.ssh_handshake_skew_secs == self@.config.ssh_handshake_skew_secs,
            settings.client_tls_secret_name@ == self@.config.client_tls_secret_name@,
            settings.host_gateway_ip@ == self@.config.host_gateway_ip@,
    {
        KubernetesSettings {
            namespace: self.config.sandbox_namespace.clone(),
            image: self.config.sandbox_image.clone(),
            image_pull_policy: self.config.sandbox_image_pull_policy.clone(),
            grpc_endpoint: self.config.grpc_endpoint.clone(),
            ssh_listen_addr: concat2(
                "0.0.0.0:",
                decimal_text(self.config.sandbox_ssh_port as u64).as_str(),
            ),
            ssh_handshake_secret: self.config.ssh_handshake_secret.clone(),
            ssh_handshake_skew_secs: self.config.ssh_handshake_skew_secs,
            client_tls_secret_name: self.config.client_tls_secret_name.clone(),
            host_gateway_ip: self.config.host_gateway_ip.clone(),
        }
    }

    /// Take note of what came of the last thing that was done.
    pub fn advance(&mut self, event: ServerEvent)
        ensures
            final(self)@ == server_after(old(self)@, event),
    {
        match (self.stage, event) {
            (
                ServerStage::ConnectStore
                | ServerStage::ConnectBridge
                | ServerStage::ConnectBridgeInsecure
                | ServerStage::LoadTls,
                ServerEvent::StepFailed(error),
            ) => {
                self.stage = ServerStage::Failed;
                self.failure = Some(error);
            },
            (ServerStage::CreateSandboxClient, ServerEvent::SandboxClientFailed(text)) => {
                self.stage = ServerStage::Failed;
                self.failure = Some(
                    Error::new(
                        ErrorClass::Execution,
                        concat2("failed to create kubernetes client: ", text.as_str()),
                    ),
                );
            },
            (ServerStage::Bind, ServerEvent::BindFailed { address, error }) => {
                let mut message = concat3("failed to bind to ", address.as_str(), ": ");
                message.append(error.as_str());
                self.stage = ServerStage::Failed;
                self.failure = Some(Error::new(ErrorClass::Transport, message));
            },
            (_, ServerEvent::Done) => {
                self.stage = self.next_stage();
            },
            (ServerStage::Accept, ServerEvent::Shutdown) => {
                self.stage = ServerStage::Stopped;
            },
            _ => {},
        }
        assert(self@ =~= server_after(old(self)@, event));
    }

    fn next_stage(&self) -> (stage: ServerStage)
        ensures
            stage == server_next(self@.config, self@.stage),
    {
        let apple_container = self.config.sandbox_backend == "apple-container".to_string();
        let after_bridge = if apple_container {
            ServerStage::SpawnSessionReaper
        } else {
            ServerStage::CreateSandboxClient
        };
        match self.stage {
            ServerStage::ConnectStore => if apple_container
                && !self.config.bridge_endpoint.as_str().is_empty() {
                if self.config.bridge_tls.is_some() {
                    ServerStage::ConnectBridge
                } else {
                    ServerStage::ConnectBridgeInsecure
                }
            } else {
                after_bridge
            },
            ServerStage::ConnectBridge => after_bridge,
            ServerStage::ConnectBridgeInsecure => after_bridge,
            ServerStage::CreateSandboxClient => ServerStage::SpawnKubernetesTasks,
            ServerStage::SpawnKubernetesTasks => ServerStage::SpawnSessionReaper,
            ServerStage::SpawnSessionReaper => ServerStage::Bind,
            ServerStage::Bind => if self.config.tls.is_some() {
                ServerStage::LoadTls
            } else {
                ServerStage::ListenForShutdown
            },
            ServerStage::LoadTls => ServerStage::ListenForShutdown,
            ServerStage::ListenForShutdown => ServerStage::Accept,
            ServerStage::Accept => ServerStage::Accept,
            ServerStage::Stopped => ServerStage::Stopped,
            ServerStage::Failed => ServerStage::Failed,
        }
    }
}

// ---------------------------------------------------------------------------
// Connections
// ---------------------------------------------------------------------------

/// What kind of I/O error ended a TLS handshake.
#[derive(Debug, Clone, Copy, PartialEq, Eq, Structural)]
pub enum ErrorKind {
    /// The peer closed the connection in the middle of a message.
    UnexpectedEof,
    /// The peer reset the connection.
    ConnectionReset,
    /// What was read is not valid.
    InvalidData,
    /// The operation is not permitted.
    PermissionDenied,
    /// Any other error.
    Other,
}

/// Whether a TLS handshake failed only because the client went away, as probes do.
pub fn is_benign_tls_handshake_failure(kind: ErrorKind) -> (benign: bool)
    ensures
        benign == (kind == ErrorKind::UnexpectedEof || kind == ErrorKind::ConnectionReset),
{
    match kind {
        ErrorKind::UnexpectedEof | ErrorKind::ConnectionReset => true,
        _ => false,
    }
}

// ---------------------------------------------------------------------------
// Laws
// ---------------------------------------------------------------------------

/// How far a run has come.
pub open spec fn server_rank(stage: ServerStage) -> int {
    match stage {
        ServerStage::ConnectStore => 0,
        ServerStage::ConnectBridge => 1,
        ServerStage::ConnectBridgeInsecure => 1,
        ServerStage::CreateSandboxClient => 2,
        ServerStage::SpawnKubernetesTasks => 3,
        ServerStage::SpawnSessionReaper => 4,
        ServerStage::Bind => 5,
        ServerStage::LoadTls => 6,
        ServerStage::ListenForShutdown => 7,
        ServerStage::Accept => 8,
        ServerStage::Stopped => 9,
        ServerStage::Failed => 9,
    }
}

/// Every event that a run answers to brings it nearer to its end.
pub proof fn run_makes_progress(state: RunState, event: ServerEvent)
    requires
        server_after(state, event) != state,
    ensures
        server_rank(server_after(state, event).stage) > server_rank(state.stage),
{
}

/// A run that is over stays as it is.
pub proof fn finished_run_stays(state: RunState, events: Seq<ServerEvent>)
    requires
        state.stage == ServerStage::Stopped || state.stage == ServerStage::Failed,
    ensures
        server_run(state, events) == state,
    decreases events.len(),
{
    if events.len() > 0 {
        finished_run_stays(state, events.drop_last());
    }
}

/// Whether a run can be in this state: its stage is one that its configuration leads to,
/// and it has an error exactly where it has failed.
///
/// With the Apple Container backend nothing of Kubernetes is touched, and with any other the
/// bridge daemon is not. Where mutual TLS is configured for the bridge daemon, it is never
/// connected to without.
pub open spec fn run_inv(state: RunState) -> bool {
    let config = state.config;
    &&& state.stage == ServerStage::CreateSandboxClient || state.stage
        == ServerStage::SpawnKubernetesTasks ==> !uses_apple_container(config)
    &&& state.stage == ServerStage::ConnectBridge ==> uses_apple_container(config)
        && config.bridge_endpoint@.len() > 0 && config.bridge_tls is Some
    &&& state.stage == ServerStage::ConnectBridgeInsecure ==> uses_apple_container(config)
        && config.bridge_endpoint@.len() > 0 && config.bridge_tls is None
    &&& state.stage == ServerStage::LoadTls ==> config.tls is Some
    &&& state.failure is Some <==> state.stage == ServerStage::Failed
}

/// Every run keeps its configuration and only reaches stages that its configuration leads
/// to.
pub proof fn run_follows_its_config(config: Config, events: Seq<ServerEvent>)
    ensures
        server_run(run_begun(config), events).config == config,
        run_inv(server_run(run_begun(config), events)),
    decreases events.len(),
{
    if events.len() > 0 {
        run_follows_its_config(config, events.drop_last());
    }
}

/// Whether a step was done in a run of events.
pub open spec fn server_step_done(
    config: Config,
    events: Seq<ServerEvent>,
    stage: ServerStage,
) -> bool {
    exists|i: int|
        0 <= i < events.len() && #[trigger] events[i] is Done && server_run(
            run_begun(config),
            events.take(i),
        ).stage == stage
}

/// Whether every run with this configuration goes through a stage.
pub open spec fn on_the_way(config: Config, stage: ServerStage) -> bool {
    match stage {
        ServerStage::ConnectStore => true,
        ServerStage::ConnectBridge => uses_apple_container(config)
            && config.bridge_endpoint@.len() > 0 && config.bridge_tls is Some,
        ServerStage::ConnectBridgeInsecure => uses_apple_container(config)
            && config.bridge_endpoint@.len() > 0 && config.bridge_tls is None,
        ServerStage::CreateSandboxClient => !uses_apple_container(config),
        ServerStage::SpawnKubernetesTasks => !uses_apple_container(config),
        ServerStage::SpawnSessionReaper => true,
        ServerStage::Bind => true,
        ServerStage::LoadTls => config.tls is Some,
        ServerStage::ListenForShutdown => true,
        _ => false,
    }
}

/// No step that the configuration asks for is left out: a run comes past a step only by
/// doing it. Above all, where TLS is configured, no connection is accepted before the
/// certificates of the server were loaded.
pub proof fn no_step_is_skipped(config: Config, events: Seq<ServerEvent>, stage: ServerStage)
    requires
        on_the_way(config, stage),
        ({
            let reached = server_run(run_begun(config), events).stage;
            server_rank(reached) > server_rank(stage) && reached != ServerStage::Failed
        }),
    ensures
        server_step_done(config, events, stage),
    decreases events.len(),
{
    let shorter = events.drop_last();
    let n = events.len() - 1;
    let before = server_run(run_begun(config), shorter);
    assert(events.take(n) =~= shorter);
    run_follows_its_config(config, shorter);
    if before.stage == stage {
        assert(events[n] is Done);
    } else {
        assert(server_rank(before.stage) > server_rank(stage));
        no_step_is_skipped(config, shorter, stage);
        let i = choose|i: int|
            0 <= i < n && #[trigger] shorter[i] is Done && server_run(
                run_begun(config),
                shorter.take(i),
            ).stage == stage;
        assert(shorter.take(i) =~= events.take(i));
        assert(events[i] is Done);
    }
}

/// Connections that fail do not stop the server: while it accepts connections, only a
/// shutdown signal ends that.
pub proof fn only_a_signal_stops_the_server(state: RunState, event: ServerEvent)
    requires
        state.stage == ServerStage::Accept,
    ensures
        event is Shutdown ==> server_after(state, event).stage == ServerStage::Stopped,
        !(event is Shutdown) ==> server_after(state, event) == state,
{
}

/// A configuration can be run exactly where it has a database URL that is not blank and a
/// secret for the SSH handshake. Otherwise what is missing is told, the URL first.
pub proof fn config_needs_a_database_and_a_secret(config: Config)
    ensures
        ({
            let url = config.database_url@;
            let blank = forall|i: int| 0 <= i < url.len() ==> is_white_space(#[trigger] url[i]);
            let problem = config_problem(config);
            &&& problem is None <==> !blank && config.ssh_handshake_secret@.len() > 0
            &&& blank ==> problem == Some("database_url is required"@)
            &&& !blank && config.ssh_handshake_secret@.len() == 0 ==> problem == Some(
                "ssh_handshake_secret is required. Set --ssh-handshake-secret or OPENSHELL_SSH_HANDSHAKE_SECRET"@,
            )
        }),
{
    let url = config.database_url@;
    if forall|i: int| 0 <= i < url.len() ==> is_white_space(#[trigger] url[i]) {
        trimming_takes_off_the_ends(url, Seq::empty(), Seq::empty());
        assert(url + Seq::<char>::empty() + Seq::<char>::empty() =~= url);
    } else {
        let i = choose|i: int| 0 <= i < url.len() && !is_white_space(#[trigger] url[i]);
        trimming_keeps_a_text_that_is_not_blank(url, i);
    }
}

/// A run begins with the store, with its configuration, and has not failed.
pub proof fn run_begins_with_the_store(config: Config)
    ensures
        run_begun(config).stage == ServerStage::ConnectStore,
        run_begun(config).config == config,
        run_begun(config).failure is None,
{
}

/// What follows the store is decided by the configuration: the bridge daemon where sandboxes
/// are managed through Apple Container and its endpoint is known, with mutual TLS exactly where
/// that is configured. The client for sandboxes follows where they are managed otherwise.
pub proof fn config_decides_what_follows_the_store(state: RunState)
    requires
        state.stage == ServerStage::ConnectStore,
    ensures
        ({
            let config = state.config;
            let apple = config.sandbox_backend@ == "apple-container"@;
            let bridge = config.bridge_endpoint@.len() > 0;
            let after = server_after(state, ServerEvent::Done);
            &&& apple && bridge && config.bridge_tls is Some ==> after.stage
                == ServerStage::ConnectBridge
            &&& apple && bridge && config.bridge_tls is None ==> after.stage
                == ServerStage::ConnectBridgeInsecure
            &&& apple && !bridge ==> after.stage == ServerStage::SpawnSessionReaper
            &&& !apple ==> after.stage == ServerStage::CreateSandboxClient
            &&& after.failure == state.failure
            &&& after.config == config
        }),
{
}

/// What follows every other step: with Apple Container nothing of Kubernetes is set up, TLS is
/// loaded exactly where it is configured, and in the end connections are accepted.
pub proof fn server_starts_in_order(state: RunState)
    ensures
        ({
            let config = state.config;
            let apple = config.sandbox_backend@ == "apple-container"@;
            let after = server_after(state, ServerEvent::Done);
            &&& state.stage == ServerStage::ConnectBridge || state.stage
                == ServerStage::ConnectBridgeInsecure ==> after.stage == (if apple {
                ServerStage::SpawnSessionReaper
            } else {
                ServerStage::CreateSandboxClient
            })
            &&& state.stage == ServerStage::CreateSandboxClient ==> after.stage
                == ServerStage::SpawnKubernetesTasks
            &&& state.stage == ServerStage::SpawnKubernetesTasks ==> after.stage
                == ServerStage::SpawnSessionReaper
            &&& state.stage == ServerStage::SpawnSessionReaper ==> after.stage
                == ServerStage::Bind
            &&& state.stage == ServerStage::Bind ==> after.stage == (if config.tls is Some {
                ServerStage::LoadTls
            } else {
                ServerStage::ListenForShutdown
            })
            &&& state.stage == ServerStage::LoadTls ==> after.stage
                == ServerStage::ListenForShutdown
            &&& state.stage == ServerStage::ListenForShutdown ==> after.stage
                == ServerStage::Accept
            &&& after.failure == state.failure
            &&& after.config == config
        }),
{
}

/// A step that fails ends the run with an error: that of the step itself, or one that says what
/// could not be created or bound. The tasks and the handlers have no failure.
pub proof fn failed_step_ends_the_run(state: RunState, error: Error, text: String, address: String)
    ensures
        ({
            let failed = server_after(state, ServerEvent::StepFailed(error));
            let no_client = server_after(state, ServerEvent::SandboxClientFailed(text));
            let unbound = server_after(state, ServerEvent::BindFailed { address, error: text });
            &&& state.stage == ServerStage::ConnectStore || state.stage
                == ServerStage::ConnectBridge || state.stage == ServerStage::ConnectBridgeInsecure
                || state.stage == ServerStage::LoadTls ==> failed.stage == ServerStage::Failed
                && failed.failure == Some(
                ErrorText { class: error.class, message: error.message@ },
            )
            &&& state.stage == ServerStage::CreateSandboxClient ==> no_client.stage
                == ServerStage::Failed && no_client.failure == Some(
                ErrorText {
                    class: ErrorClass::Execution,
                    message: "failed to create kubernetes client: "@ + text@,
                },
            )
            &&& state.stage == ServerStage::Bind ==> unbound.stage == ServerStage::Failed
                && unbound.failure == Some(
                ErrorText {
                    class: ErrorClass::Transport,
                    message: "failed to bind to "@ + address@ + ": "@ + text@,
                },
            )
        }),
{
}

/// An event that does not answer what was to be done changes nothing.
pub proof fn run_ignores_other_events(state: RunState, event: ServerEvent)
    ensures
        ({
            let after = server_after(state, event);
            &&& after.config == state.config
            &&& event is StepFailed && state.stage != ServerStage::ConnectStore && state.stage
                != ServerStage::ConnectBridge && state.stage != ServerStage::ConnectBridgeInsecure
                && state.stage != ServerStage::LoadTls ==> after == state
            &&& event is SandboxClientFailed && state.stage != ServerStage::CreateSandboxClient
                ==> after == state
            &&& event is BindFailed && state.stage != ServerStage::Bind ==> after == state
            &&& event is Accepted || event is AcceptFailed ==> after == state
            &&& event is Shutdown && state.stage != ServerStage::Accept ==> after == state
        }),
{
}

/// `n` times the news that a step was done.
pub open spec fn steps_done(n: nat) -> Seq<ServerEvent> {
    Seq::new(n, |i: int| ServerEvent::Done)
}

/// Where nothing goes wrong the server comes to accept connections, whatever its configuration,
/// and accepts them until it is told to stop.
pub proof fn undisturbed_server_accepts_connections(config: Config)
    ensures
        ({
            let state = server_run(run_begun(config), steps_done(8));
            &&& state.stage == ServerStage::Accept
            &&& state.failure is None
            &&& server_after(state, ServerEvent::Shutdown).stage == ServerStage::Stopped
        }),
{
    reveal_with_fuel(server_run, 9);
    let begun = run_begun(config);
    assert(steps_done(8).drop_last() =~= steps_done(7));
    assert(steps_done(7).drop_last() =~= steps_done(6));
    assert(steps_done(6).drop_last() =~= steps_done(5));
    assert(steps_done(5).drop_last() =~= steps_done(4));
    assert(steps_done(4).drop_last() =~= steps_done(3));
    assert(steps_done(3).drop_last() =~= steps_done(2));
    assert(steps_done(2).drop_last() =~= steps_done(1));
    assert(steps_done(1).drop_last() =~= steps_done(0));
    assert(server_run(begun, steps_done(0)) == begun);
    assert(server_run(begun, steps_done(1)) == server_after(begun, ServerEvent::Done));
}

/// The operator is told of a bridge daemon that is not configured, or is connected to without
/// authentication, and of nothing else.
pub proof fn operator_is_told_of_the_bridge(config: Config)
    ensures
        ({
            let apple = config.sandbox_backend@ == "apple-container"@;
            let bridge = config.bridge_endpoint@.len() > 0;
            let notice = bridge_notice_of(config);
            &&& apple && !bridge ==> notice == Some(
                "Apple Container backend: no bridge endpoint configured. Sandbox create/delete operations will not be available until the bridge daemon is running and --bridge-endpoint is set."@,
            )
            &&& apple && bridge && config.bridge_tls is None ==> notice == Some(
                "Bridge mTLS not configured — connecting to bridge daemon without authentication. Set --bridge-tls-ca, --bridge-tls-cert, and --bridge-tls-key for production use."@,
            )
            &&& !apple || (bridge && config.bridge_tls is Some) ==> notice is None
        }),
{
}

/// A run begins exactly where the configuration has a database URL and a secret, and it begins
/// with the store, at that URL.
pub proof fn server_runs_with_a_usable_config(
    config: Config,
    run: Result<ServerRun, Error>,
    begun: ServerRun,
    url: String,
)
    requires
        call_ensures(run_server, (config,), run),
        run == Ok::<_, Error>(begun) || run is Err,
        call_ensures(ServerRun::database_url, (&begun,), url),
    ensures
        run is Ok <==> config.ssh_handshake_secret@.len() > 0 && exists|i: int|
            0 <= i < config.database_url@.len() && !is_white_space(
                #[trigger] config.database_url@[i],
            ),
        run matches Err(error) ==> error.class == ErrorClass::Config,
        run is Ok ==> begun@.stage == ServerStage::ConnectStore && begun@.config == config
            && begun@.failure is None && url@ == trimmed(config.database_url@),
{
    config_needs_a_database_and_a_secret(config);
}

/// The client for sandboxes is set up as the configuration says, and reaches the SSH server of
/// a sandbox on every interface at the configured port.
pub proof fn kubernetes_is_set_up_as_configured(run: ServerRun, settings: KubernetesSettings)
    requires
        call_ensures(ServerRun::kubernetes_settings, (&run,), settings),
    ensures
        settings.namespace@ == run@.config.sandbox_namespace@,
        settings.image@ == run@.config.sandbox_image@,
        settings.image_pull_policy@ == run@.config.sandbox_image_pull_policy@,
        settings.grpc_endpoint@ == run@.config.grpc_endpoint@,
        settings.ssh_listen_addr@ == "0.0.0.0:"@ + decimal(run@.config.sandbox_ssh_port as nat),
        settings.ssh_handshake_secret@ == run@.config.ssh_handshake_secret@,
        settings.ssh_handshake_skew_secs == run@.config.ssh_handshake_skew_secs,
        settings.client_tls_secret_name@ == run@.config.client_tls_secret_name@,
        settings.host_gateway_ip@ == run@.config.host_gateway_ip@,
{
}

/// A handshake that ends because the client went away is no error of the server, and any other
/// that fails is one.
pub proof fn only_clients_that_go_away_are_benign(kind: ErrorKind, benign: bool)
    requires
        call_ensures(is_benign_tls_handshake_failure, (kind,), benign),
    ensures
        benign <==> kind == ErrorKind::UnexpectedEof || kind == ErrorKind::ConnectionReset,
{
}

}
