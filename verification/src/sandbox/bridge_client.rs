//! mTLS-authenticated gRPC client for the container bridge daemon.
//!
//! The bridge daemon runs on the host and translates gRPC calls into container operations.
//! The gateway presents a client certificate to prove its identity, and verifies the
//! server certificate of the bridge against the shared CA.
//!
//! Connections are made and calls are sent by the caller. [`BridgeConnection`] tells what
//! is next while a connection is made, and the methods of [`BridgeClient`] tell what a call
//! asks for and what its reply means.

use vstd::prelude::*;

use crate::config::BridgeTlsConfig;
use crate::error::{Error, ErrorClass, ErrorText};
use crate::status::Code;
use crate::text::{concat2, concat3};

verus! {

/// Timeout for individual bridge daemon gRPC calls, in seconds.
pub const BRIDGE_RPC_TIMEOUT_SECS: u64 = 30;

/// Timeout for connecting to the bridge daemon, in seconds.
pub const BRIDGE_CONNECT_TIMEOUT_SECS: u64 = 10;

/// Name that the server certificate of the bridge daemon is valid for.
pub const BRIDGE_DOMAIN: &'static str = "openshell-bridge";

/// Client for the container bridge daemon.
#[derive(Debug, Clone)]
pub struct BridgeClient {
    endpoint: String,
}

impl View for BridgeClient {
    type V = Seq<char>;

    /// The endpoint that the client is connected to.
    closed spec fn view(&self) -> Seq<char> {
        self.endpoint@
    }
}

// ---------------------------------------------------------------------------
// Endpoint
// ---------------------------------------------------------------------------

/// `tonic::transport::Endpoint`, the endpoint of a connection. Only carried through.
#[verifier::external_type_specification]
#[verifier::external_body]
pub struct ExEndpoint(tonic::transport::Endpoint);

/// Why `tonic::transport::Channel::from_shared` takes a text for no endpoint: the text of its
/// error, and `None` where it takes the text for one.
pub uninterp spec fn endpoint_problem(text: Seq<char>) -> Option<Seq<char>>;

/// What `tonic::transport::Channel::from_shared` makes of a text that it takes for an
/// endpoint, with these timeouts for a call and for a connection, in seconds.
pub uninterp spec fn endpoint_named(
    text: Seq<char>,
    rpc_timeout_secs: u64,
    connect_timeout_secs: u64,
) -> tonic::transport::Endpoint;

/// `tonic::transport::Channel::from_shared`, which parses a URI, with `timeout` and
/// `connect_timeout` of `tonic::transport::Endpoint`. Which texts it accepts, with which error
/// it refuses the others, and the endpoint that it makes of a text are left to their names.
#[verifier::external_body]
fn parse_uri(text: &str, rpc_timeout_secs: u64, connect_timeout_secs: u64) -> (parsed: Result<
    tonic::transport::Endpoint,
    String,
>)
    ensures
        match parsed {
            Ok(made) => endpoint_problem(text@) is None && made == endpoint_named(
                text@,
                rpc_timeout_secs,
                connect_timeout_secs,
            ),
            Err(message) => endpoint_problem(text@) == Some(message@),
        },
{
    let made = tonic::transport::Channel::from_shared(text.to_string()).map_err(|e| e.to_string())?;
    let limited = made.timeout(std::time::Duration::from_secs(rpc_timeout_secs));
    Ok(limited.connect_timeout(std::time::Duration::from_secs(connect_timeout_secs)))
}

// ---------------------------------------------------------------------------
// TLS
// ---------------------------------------------------------------------------

/// `tonic::transport::ClientTlsConfig`, the TLS settings of a client. Only carried through.
#[verifier::external_type_specification]
#[verifier::external_body]
pub struct ExClientTlsConfig(tonic::transport::ClientTlsConfig);

/// The `tonic::transport::ClientTlsConfig` of a client that verifies servers against the
/// authority `ca`, presents the certificate `cert` with the key `key`, and expects the server
/// certificate to be valid for `domain`.
pub uninterp spec fn tls_settings_of(
    ca: Seq<u8>,
    cert: Seq<u8>,
    key: Seq<u8>,
    domain: Seq<char>,
) -> tonic::transport::ClientTlsConfig;

/// The builder of `tonic::transport::ClientTlsConfig`: `ca_certificate`, `identity` and
/// `domain_name`, with `Certificate::from_pem` and `Identity::from_pem`. It keeps what it is
/// given and reads none of it.
#[verifier::external_body]
fn tls_settings(ca: &[u8], cert: &[u8], key: &[u8], domain: &str) -> (settings:
    tonic::transport::ClientTlsConfig)
    ensures
        settings == tls_settings_of(ca@, cert@, key@, domain@),
{
    tonic::transport::ClientTlsConfig::new()
        .ca_certificate(tonic::transport::Certificate::from_pem(ca))
        .identity(tonic::transport::Identity::from_pem(cert, key))
        .domain_name(domain)
}

/// That `made` is what `tonic::transport::Endpoint::tls_config` gives back for `endpoint` with
/// `settings`: the endpoint as it was, with a TLS connector made from these settings.
pub uninterp spec fn secured_by(
    made: tonic::transport::Endpoint,
    endpoint: tonic::transport::Endpoint,
    settings: tonic::transport::ClientTlsConfig,
) -> bool;

/// `tonic::transport::Endpoint::tls_config`: the endpoint with these TLS settings, or the text
/// of the error for which it has none. What comes out is secured by these settings. Whether it
/// succeeds is left unsaid: that rests on the crypto provider of the process, of which one is
/// built in.
#[verifier::external_body]
fn with_tls(
    endpoint: tonic::transport::Endpoint,
    settings: tonic::transport::ClientTlsConfig,
) -> (configured: Result<tonic::transport::Endpoint, String>)
    ensures
        configured matches Ok(made) ==> secured_by(made, endpoint, settings),
{
    endpoint.tls_config(settings).map_err(|e| e.to_string())
}

/// The TLS settings of a connection to the bridge daemon: its server certificate is verified
/// against the authority and has to be valid for [`BRIDGE_DOMAIN`], and the client
/// certificate is presented to it.
pub fn bridge_settings(ca: &[u8], cert: &[u8], key: &[u8]) -> (settings:
    tonic::transport::ClientTlsConfig)
    ensures
        settings == tls_settings_of(ca@, cert@, key@, "openshell-bridge"@),
{
    tls_settings(ca, cert, key, BRIDGE_DOMAIN)
}

// ---------------------------------------------------------------------------
// Connection
// ---------------------------------------------------------------------------

/// What is next while a connection to the bridge daemon is made.
#[derive(Debug, Clone, Copy, PartialEq, Eq, Structural)]
pub enum ConnectStage {
    /// Read the CA certificate.
    ReadCa,
    /// Read the client certificate.
    ReadCert,
    /// Read the private key of the client certificate.
    ReadKey,
    /// Parse the endpoint.
    ParseEndpoint,
    /// Configure TLS.
    ConfigureTls,
    /// Connect, with the timeouts above.
    Connect,
    /// Nothing: the connection is made.
    Connected,
    /// Nothing: the connection could not be made.
    Failed,
}

/// A connection to the bridge daemon that is being made.
#[derive(Debug)]
pub struct BridgeConnection {
    endpoint: String,
    tls: bool,
    stage: ConnectStage,
    failure: Option<Error>,
}

/// The state of a connection that is being made.
#[verifier::ext_equal]
pub struct ConnectionState {
    /// Endpoint of the bridge daemon.
    pub endpoint: Seq<char>,
    /// Whether both sides authenticate by TLS.
    pub tls: bool,
    /// What is next.
    pub stage: ConnectStage,
    /// Why the connection could not be made.
    pub failure: Option<ErrorText>,
}

/// The error of a step that failed, other than the parsing of the endpoint.
pub open spec fn connect_problem(
    stage: ConnectStage,
    endpoint: Seq<char>,
    error: Seq<char>,
) -> Option<ErrorText> {
    match stage {
        ConnectStage::ReadCa => Some(
            ErrorText {
                class: ErrorClass::Tls,
                message: "failed to read bridge CA cert: "@ + error,
            },
        ),
        ConnectStage::ReadCert => Some(
            ErrorText {
                class: ErrorClass::Tls,
                message: "failed to read bridge client cert: "@ + error,
            },
        ),
        ConnectStage::ReadKey => Some(
            ErrorText {
                class: ErrorClass::Tls,
                message: "failed to read bridge client key: "@ + error,
            },
        ),
        ConnectStage::ParseEndpoint => None,
        ConnectStage::ConfigureTls => Some(
            ErrorText {
                class: ErrorClass::Tls,
                message: "failed to configure bridge TLS: "@ + error,
            },
        ),
        ConnectStage::Connect => Some(
            ErrorText {
                class: ErrorClass::Transport,
                message: "failed to connect to bridge daemon at "@ + endpoint + ": "@ + error,
            },
        ),
        ConnectStage::Connected => None,
        ConnectStage::Failed => None,
    }
}

/// What is next once a step is done.
pub open spec fn connect_next(stage: ConnectStage, tls: bool) -> ConnectStage {
    match stage {
        ConnectStage::ReadCa => ConnectStage::ReadCert,
        ConnectStage::ReadCert => ConnectStage::ReadKey,
        ConnectStage::ReadKey => ConnectStage::ParseEndpoint,
        ConnectStage::ParseEndpoint => if tls {
            ConnectStage::ConfigureTls
        } else {
            ConnectStage::Connect
        },
        ConnectStage::ConfigureTls => ConnectStage::Connect,
        ConnectStage::Connect => ConnectStage::Connected,
        ConnectStage::Connected => ConnectStage::Connected,
        ConnectStage::Failed => ConnectStage::Failed,
    }
}

/// What came of a step of a connection.
#[derive(Debug)]
pub enum ConnectEvent {
    /// The endpoint was parsed, with what that gave.
    Parsed,
    /// TLS was configured, or could not be for this reason.
    Configured(Result<(), String>),
    /// Another step was taken: it was done, or failed with the text of an error.
    Stepped(Result<(), String>),
}

/// What follows the parsing of an endpoint: the next step, or the error for which there is
/// none. `problem` is why the endpoint could not be parsed.
pub open spec fn after_parsing_of(tls: bool, problem: Option<Seq<char>>) -> (
    ConnectStage,
    Option<ErrorText>,
) {
    match problem {
        Some(message) => (
            ConnectStage::Failed,
            Some(
                ErrorText {
                    class: ErrorClass::Transport,
                    message: "invalid bridge endpoint: "@ + message,
                },
            ),
        ),
        None => (connect_next(ConnectStage::ParseEndpoint, tls), None),
    }
}

/// The connection after its endpoint was parsed, where that was to be done.
pub open spec fn connection_parsed(state: ConnectionState) -> ConnectionState {
    if state.stage == ConnectStage::ParseEndpoint {
        let (stage, failure) = after_parsing_of(state.tls, endpoint_problem(state.endpoint));
        ConnectionState { stage, failure, ..state }
    } else {
        state
    }
}

/// The connection after a step other than the parsing of its endpoint. Where that is what
/// was to be done, nothing changes.
pub open spec fn connection_after(
    state: ConnectionState,
    outcome: Result<(), String>,
) -> ConnectionState {
    if state.stage == ConnectStage::ParseEndpoint {
        state
    } else {
        match outcome {
            Ok(_) => ConnectionState { stage: connect_next(state.stage, state.tls), ..state },
            Err(error) => match connect_problem(state.stage, state.endpoint, error@) {
                Some(problem) => ConnectionState {
                    stage: ConnectStage::Failed,
                    failure: Some(problem),
                    ..state
                },
                None => state,
            },
        }
    }
}

/// The connection after an event. An event that does not answer what was to be done changes
/// nothing.
pub open spec fn connection_step(state: ConnectionState, event: ConnectEvent) -> ConnectionState {
    match event {
        ConnectEvent::Parsed => connection_parsed(state),
        ConnectEvent::Configured(outcome) => if state.stage == ConnectStage::ConfigureTls {
            connection_after(state, outcome)
        } else {
            state
        },
        ConnectEvent::Stepped(outcome) => if state.stage == ConnectStage::ConfigureTls {
            state
        } else {
            connection_after(state, outcome)
        },
    }
}

/// The connection after a run of events.
pub open spec fn connection_run(
    state: ConnectionState,
    events: Seq<ConnectEvent>,
) -> ConnectionState
    decreases events.len(),
{
    if events.len() == 0 {
        state
    } else {
        connection_step(connection_run(state, events.drop_last()), events.last())
    }
}

/// Where a connection stands when it begins: without TLS there is nothing to read.
pub open spec fn connection_begun(endpoint: Seq<char>, tls: bool) -> ConnectionState {
    ConnectionState {
        endpoint,
        tls,
        stage: if tls {
            ConnectStage::ReadCa
        } else {
            ConnectStage::ParseEndpoint
        },
        failure: None,
    }
}

impl View for BridgeConnection {
    type V = ConnectionState;

    closed spec fn view(&self) -> ConnectionState {
        ConnectionState {
            endpoint: self.endpoint@,
            tls: self.tls,
            stage: self.stage,
            failure: self.failure.deep_view(),
        }
    }
}

/// What follows the configuration of TLS: the next step, or the error for which there is
/// none. `problem` is why TLS could not be configured.
pub fn after_configuring(problem: Option<&str>) -> (step: (ConnectStage, Option<Error>))
    ensures
        match problem {
            Some(message) => step.0 == ConnectStage::Failed && step.1.deep_view() == Some(
                ErrorText {
                    class: ErrorClass::Tls,
                    message: "failed to configure bridge TLS: "@ + message@,
                },
            ),
            None => step.0 == ConnectStage::Connect && step.1 is None,
        },
{
    match problem {
        Some(message) => (
            ConnectStage::Failed,
            Some(
                Error::new(ErrorClass::Tls, concat2("failed to configure bridge TLS: ", message)),
            ),
        ),
        None => (ConnectStage::Connect, None),
    }
}

/// What follows the parsing of an endpoint: the next step, or the error for which there is
/// none. `problem` is why the endpoint could not be parsed.
pub fn after_parsing(tls: bool, problem: Option<&str>) -> (step: (ConnectStage, Option<Error>))
    ensures
        (step.0, step.1.deep_view()) == after_parsing_of(tls, problem.deep_view()),
{
    match problem {
        Some(message) => (
            ConnectStage::Failed,
            Some(
                Error::new(ErrorClass::Transport, concat2("invalid bridge endpoint: ", message)),
            ),
        ),
        None => if tls {
            (ConnectStage::ConfigureTls, None)
        } else {
            (ConnectStage::Connect, None)
        },
    }
}

impl BridgeConnection {
    /// What is next.
    pub fn stage(&self) -> (stage: ConnectStage)
        ensures
            stage == self@.stage,
    {
        self.stage
    }

    /// The endpoint of the bridge daemon.
    pub fn endpoint(&self) -> (endpoint: &str)
        ensures
            endpoint@ == self@.endpoint,
    {
        self.endpoint.as_str()
    }

    /// The file that is to be read, where one is next.
    pub fn pem_path<'a>(&self, tls: &'a BridgeTlsConfig) -> (path: Option<&'a std::path::PathBuf>)
        ensures
            path == (match self@.stage {
                ConnectStage::ReadCa => Some(&tls.ca_path),
                ConnectStage::ReadCert => Some(&tls.cert_path),
                ConnectStage::ReadKey => Some(&tls.key_path),
                _ => None,
            }),
    {
        match self.stage {
            ConnectStage::ReadCa => Some(&tls.ca_path),
            ConnectStage::ReadCert => Some(&tls.cert_path),
            ConnectStage::ReadKey => Some(&tls.key_path),
            _ => None,
        }
    }

    /// Parse the endpoint, where that is next. Where it is an endpoint, it is handed out, with
    /// the timeouts of the bridge daemon, to be configured and connected to.
    pub fn parse_endpoint(&mut self) -> (made: Option<tonic::transport::Endpoint>)
        ensures
            final(self)@ == connection_parsed(old(self)@),
            made is Some <==> old(self)@.stage == ConnectStage::ParseEndpoint && endpoint_problem(
                old(self)@.endpoint,
            ) is None,
            made matches Some(endpoint) ==> endpoint == endpoint_named(
                old(self)@.endpoint,
                30,
                10,
            ),
    {
        match self.stage {
            ConnectStage::ParseEndpoint => {},
            _ => {
                return None;
            },
        }
        let parsed = parse_uri(
            self.endpoint.as_str(),
            BRIDGE_RPC_TIMEOUT_SECS,
            BRIDGE_CONNECT_TIMEOUT_SECS,
        );
        let (stage, failure) = match &parsed {
            Ok(_) => after_parsing(self.tls, None),
            Err(message) => after_parsing(self.tls, Some(message.as_str())),
        };
        self.stage = stage;
        self.failure = failure;
        assert(self@ =~= connection_parsed(old(self)@));
        parsed.ok()
    }

    /// Configure TLS for an endpoint, where that is next. `ca` is the certificate of the
    /// authority, `cert` the client certificate and `key` its private key, as PEM. The
    /// endpoint that is handed out to be connected to is secured by them.
    pub fn configure_tls(
        &mut self,
        endpoint: tonic::transport::Endpoint,
        ca: &[u8],
        cert: &[u8],
        key: &[u8],
    ) -> (made: Option<tonic::transport::Endpoint>)
        ensures
            old(self)@.stage != ConnectStage::ConfigureTls ==> made is None && final(self)@
                == old(self)@,
            old(self)@.stage == ConnectStage::ConfigureTls ==> exists|outcome: Result<(), String>|
                final(self)@ == #[trigger] connection_after(old(self)@, outcome) && (made is Some
                    <==> outcome is Ok),
            made matches Some(secured) ==> secured_by(
                secured,
                endpoint,
                tls_settings_of(ca@, cert@, key@, "openshell-bridge"@),
            ),
    {
        match self.stage {
            ConnectStage::ConfigureTls => {},
            _ => {
                return None;
            },
        }
        match with_tls(endpoint, bridge_settings(ca, cert, key)) {
            Ok(made) => {
                self.stage = after_configuring(None).0;
                assert(self@ =~= connection_after(old(self)@, Ok(())));
                Some(made)
            },
            Err(error) => {
                let (stage, failure) = after_configuring(Some(error.as_str()));
                self.stage = stage;
                self.failure = failure;
                assert(self@ =~= connection_after(old(self)@, Err(error)));
                None
            },
        }
    }

    /// Take note of what came of a step other than the parsing of the endpoint and the
    /// configuration of TLS: it was done, or failed with the text of an error.
    pub fn advance(&mut self, outcome: &Result<(), String>)
        ensures
            final(self)@ == (if old(self)@.stage == ConnectStage::ConfigureTls {
                old(self)@
            } else {
                connection_after(old(self)@, *outcome)
            }),
    {
        match outcome {
            Ok(_) => {
                self.stage = match self.stage {
                    ConnectStage::ReadCa => ConnectStage::ReadCert,
                    ConnectStage::ReadCert => ConnectStage::ReadKey,
                    ConnectStage::ReadKey => ConnectStage::ParseEndpoint,
                    ConnectStage::ParseEndpoint => ConnectStage::ParseEndpoint,
                    ConnectStage::ConfigureTls => ConnectStage::ConfigureTls,
                    ConnectStage::Connect => ConnectStage::Connected,
                    ConnectStage::Connected => ConnectStage::Connected,
                    ConnectStage::Failed => ConnectStage::Failed,
                };
            },
            Err(error) => {
                if let Some(problem) = self.problem(error.as_str()) {
                    self.stage = ConnectStage::Failed;
                    self.failure = Some(problem);
                }
            },
        }
        assert(old(self)@.stage == ConnectStage::ConfigureTls ==> self@ =~= old(self)@);
        assert(old(self)@.stage != ConnectStage::ConfigureTls ==> self@ =~= connection_after(
            old(self)@,
            *outcome,
        ));
    }

    fn problem(&self, error: &str) -> (problem: Option<Error>)
        ensures
            problem.deep_view() == (if self@.stage == ConnectStage::ConfigureTls {
                None
            } else {
                connect_problem(self@.stage, self@.endpoint, error@)
            }),
    {
        let (class, message): (ErrorClass, String) = match self.stage {
            ConnectStage::ReadCa => (
                ErrorClass::Tls,
                concat2("failed to read bridge CA cert: ", error),
            ),
            ConnectStage::ReadCert => (
                ErrorClass::Tls,
                concat2("failed to read bridge client cert: ", error),
            ),
            ConnectStage::ReadKey => (
                ErrorClass::Tls,
                concat2("failed to read bridge client key: ", error),
            ),
            ConnectStage::Connect => {
                let mut message = concat3(
                    "failed to connect to bridge daemon at ",
                    self.endpoint.as_str(),
                    ": ",
                );
                message.append(error);
                (ErrorClass::Transport, message)
            },
            ConnectStage::ParseEndpoint
            | ConnectStage::ConfigureTls
            | ConnectStage::Connected
            | ConnectStage::Failed => {
                return None;
            },
        };
        Some(Error::new(class, message))
    }

    /// What came of the connection, once it is made or has failed.
    pub fn outcome(self) -> (outcome: Option<Result<BridgeClient, Error>>)
        ensures
            match outcome {
                Some(Ok(client)) => self@.stage == ConnectStage::Connected && client@
                    == self@.endpoint,
                Some(Err(error)) => self@.stage == ConnectStage::Failed && self@.failure == Some(
                    error.deep_view(),
                ),
                None => self@.stage != ConnectStage::Connected && !(self@.stage
                    == ConnectStage::Failed && self@.failure is Some),
            },
    {
        match self.stage {
            ConnectStage::Connected => Some(Ok(BridgeClient { endpoint: self.endpoint })),
            ConnectStage::Failed => match self.failure {
                Some(error) => Some(Err(error)),
                None => None,
            },
            _ => None,
        }
    }
}

// ---------------------------------------------------------------------------
// Calls
// ---------------------------------------------------------------------------

/// What the bridge daemon is asked to create.
#[derive(Debug, Clone)]
pub struct CreateContainerRequest {
    /// Name of the container.
    pub name: String,
    /// Image of the container.
    pub image: String,
    /// Environment of the container.
    pub env: Vec<(String, String)>,
    /// Labels of the container.
    pub labels: Vec<(String, String)>,
}

/// What the bridge daemon is asked to start.
#[derive(Debug, Clone)]
pub struct StartContainerRequest {
    /// Name of the container.
    pub name: String,
}

/// What the bridge daemon is asked for.
#[derive(Debug, Clone)]
pub struct GetContainerRequest {
    /// Name of the container.
    pub name: String,
}

/// What the bridge daemon is asked to list.
#[derive(Debug, Clone)]
pub struct ListContainersRequest {
    /// Labels of the containers.
    pub label_selector: Vec<(String, String)>,
    /// States of the containers. Empty for any state.
    pub state_filter: Vec<ContainerState>,
}

/// What the bridge daemon is asked to watch.
#[derive(Debug, Clone)]
pub struct WatchContainersRequest {
    /// Labels of the containers.
    pub label_selector: Vec<(String, String)>,
}

/// What the bridge daemon is asked to stop.
#[derive(Debug, Clone)]
pub struct StopContainerRequest {
    /// Name of the container.
    pub name: String,
    /// Seconds that the container gets to stop.
    pub timeout_secs: u32,
}

/// What the bridge daemon is asked to delete.
#[derive(Debug, Clone)]
pub struct DeleteContainerRequest {
    /// Name of the container.
    pub name: String,
    /// Whether a running container is deleted too.
    pub force: bool,
}

/// A call that the bridge daemon did not serve.
#[derive(Debug, Clone)]
pub struct RpcFailure {
    /// What kind of failure it is.
    pub code: Code,
    /// The text of the failure.
    pub text: String,
}

/// Whether a container is running.
#[derive(Debug, Clone, Copy, PartialEq, Eq, Structural)]
pub enum ContainerState {
    /// It is running.
    Running,
    /// It is in any other state.
    NotRunning,
}

/// Whether `outcome` is what a reply means: what was replied, or an error of this kind, with
/// what failed before the text of the failure.
pub open spec fn reply_means<R>(
    reply: Result<R, RpcFailure>,
    class: ErrorClass,
    what: Seq<char>,
    outcome: Result<R, Error>,
) -> bool {
    match reply {
        Ok(value) => outcome == Ok::<R, Error>(value),
        Err(failure) => outcome matches Err(error) && error.deep_view() == (ErrorText {
            class,
            message: what + failure.text@,
        }),
    }
}

fn read_reply<R>(reply: Result<R, RpcFailure>, class: ErrorClass, what: &str) -> (outcome: Result<
    R,
    Error,
>)
    ensures
        reply_means(reply, class, what@, outcome),
{
    match reply {
        Ok(value) => Ok(value),
        Err(failure) => Err(Error::new(class, concat2(what, failure.text.as_str()))),
    }
}

impl BridgeClient {
    /// Begin to connect to the bridge daemon with mutual TLS authentication.
    ///
    /// The connection fails where a certificate or key file cannot be read, where TLS cannot
    /// be configured, and where the bridge daemon cannot be reached.
    pub fn connect(endpoint: &str) -> (connection: BridgeConnection)
        ensures
            connection@ == connection_begun(endpoint@, true),
    {
        BridgeConnection {
            endpoint: endpoint.to_string(),
            tls: true,
            stage: ConnectStage::ReadCa,
            failure: None,
        }
    }

    /// Begin to connect to the bridge daemon without TLS (for development/testing only).
    pub fn connect_insecure(endpoint: &str) -> (connection: BridgeConnection)
        ensures
            connection@ == connection_begun(endpoint@, false),
    {
        BridgeConnection {
            endpoint: endpoint.to_string(),
            tls: false,
            stage: ConnectStage::ParseEndpoint,
            failure: None,
        }
    }

    /// Check bridge daemon health, from its reply.
    pub fn health(&self, reply: Result<bool, RpcFailure>) -> (healthy: Result<bool, Error>)
        ensures
            reply_means(
                reply,
                ErrorClass::Transport,
                "bridge health check failed: "@,
                healthy,
            ),
    {
        read_reply(reply, ErrorClass::Transport, "bridge health check failed: ")
    }

    /// What is asked for to create a sandbox container.
    pub fn create_request(
        &self,
        name: &str,
        image: &str,
        env: Vec<(String, String)>,
        labels: Vec<(String, String)>,
    ) -> (request: CreateContainerRequest)
        ensures
            request.name@ == name@,
            request.image@ == image@,
            request.env == env,
            request.labels == labels,
    {
        CreateContainerRequest { name: name.to_string(), image: image.to_string(), env, labels }
    }

    /// Create a sandbox container via the bridge daemon, from its reply.
    pub fn create_sandbox<R>(&self, reply: Result<R, RpcFailure>) -> (created: Result<R, Error>)
        ensures
            reply_means(
                reply,
                ErrorClass::Execution,
                "bridge create_container failed: "@,
                created,
            ),
    {
        read_reply(reply, ErrorClass::Execution, "bridge create_container failed: ")
    }

    /// What is asked for to start a sandbox container.
    pub fn start_request(&self, name: &str) -> (request: StartContainerRequest)
        ensures
            request.name@ == name@,
    {
        StartContainerRequest { name: name.to_string() }
    }

    /// Start a sandbox container, from the reply of the bridge daemon.
    pub fn start_sandbox(&self, reply: Result<(), RpcFailure>) -> (started: Result<(), Error>)
        ensures
            reply_means(
                reply,
                ErrorClass::Execution,
                "bridge start_container failed: "@,
                started,
            ),
    {
        read_reply(reply, ErrorClass::Execution, "bridge start_container failed: ")
    }

    /// What is asked for to stop a sandbox container.
    pub fn stop_request(&self, name: &str, timeout_secs: u32) -> (request: StopContainerRequest)
        ensures
            request.name@ == name@,
            request.timeout_secs == timeout_secs,
    {
        StopContainerRequest { name: name.to_string(), timeout_secs }
    }

    /// Stop a sandbox container, from the reply of the bridge daemon.
    pub fn stop_sandbox(&self, reply: Result<(), RpcFailure>) -> (stopped: Result<(), Error>)
        ensures
            reply_means(
                reply,
                ErrorClass::Execution,
                "bridge stop_container failed: "@,
                stopped,
            ),
    {
        read_reply(reply, ErrorClass::Execution, "bridge stop_container failed: ")
    }

    /// What is asked for to delete a sandbox container: a running one is not deleted.
    pub fn delete_request(&self, name: &str) -> (request: DeleteContainerRequest)
        ensures
            request.name@ == name@,
            !request.force,
    {
        DeleteContainerRequest { name: name.to_string(), force: false }
    }

    /// Delete a sandbox container, from the reply of the bridge daemon.
    pub fn delete_sandbox(&self, reply: Result<(), RpcFailure>) -> (deleted: Result<(), Error>)
        ensures
            reply_means(
                reply,
                ErrorClass::Execution,
                "bridge delete_container failed: "@,
                deleted,
            ),
    {
        read_reply(reply, ErrorClass::Execution, "bridge delete_container failed: ")
    }

    /// What is asked for to get a sandbox container.
    pub fn get_request(&self, name: &str) -> (request: GetContainerRequest)
        ensures
            request.name@ == name@,
    {
        GetContainerRequest { name: name.to_string() }
    }

    /// Get a sandbox container by name, from the reply of the bridge daemon. That there is
    /// none of that name is no error.
    pub fn get_sandbox<R>(&self, reply: Result<R, RpcFailure>) -> (found: Result<Option<R>, Error>)
        ensures
            match reply {
                Ok(value) => found == Ok::<_, Error>(Some(value)),
                Err(failure) => if failure.code == Code::NotFound {
                    found == Ok::<Option<R>, Error>(None)
                } else {
                    found matches Err(error) && error.deep_view() == (ErrorText {
                        class: ErrorClass::Execution,
                        message: "bridge get_container failed: "@ + failure.text@,
                    })
                },
            },
    {
        match reply {
            Ok(value) => Ok(Some(value)),
            Err(failure) => {
                if failure.code == Code::NotFound {
                    return Ok(None);
                }
                Err(
                    Error::new(
                        ErrorClass::Execution,
                        concat2("bridge get_container failed: ", failure.text.as_str()),
                    ),
                )
            },
        }
    }

    /// What is asked for to list the sandbox containers with these labels, in any state.
    pub fn list_request(&self, label_selector: Vec<(String, String)>) -> (request:
        ListContainersRequest)
        ensures
            request.label_selector == label_selector,
            request.state_filter@.len() == 0,
    {
        ListContainersRequest { label_selector, state_filter: Vec::new() }
    }

    /// List sandbox containers, from the reply of the bridge daemon.
    pub fn list_sandboxes<R>(&self, reply: Result<Vec<R>, RpcFailure>) -> (listed: Result<
        Vec<R>,
        Error,
    >)
        ensures
            reply_means(
                reply,
                ErrorClass::Execution,
                "bridge list_containers failed: "@,
                listed,
            ),
    {
        read_reply(reply, ErrorClass::Execution, "bridge list_containers failed: ")
    }

    /// What is asked for to watch the sandbox containers with these labels.
    pub fn watch_request(&self, label_selector: Vec<(String, String)>) -> (request:
        WatchContainersRequest)
        ensures
            request.label_selector == label_selector,
    {
        WatchContainersRequest { label_selector }
    }

    /// Watch for sandbox container state changes, from the reply of the bridge daemon, which
    /// is a stream of them.
    pub fn watch_sandboxes<R>(&self, reply: Result<R, RpcFailure>) -> (watched: Result<R, Error>)
        ensures
            reply_means(
                reply,
                ErrorClass::Execution,
                "bridge watch_containers failed: "@,
                watched,
            ),
    {
        read_reply(reply, ErrorClass::Execution, "bridge watch_containers failed: ")
    }

    /// Check if a container is running, from the reply of the bridge daemon to the question
    /// for that container. One that does not exist is not running.
    pub fn is_sandbox_running(&self, reply: Result<ContainerState, RpcFailure>) -> (running: Result<
        bool,
        Error,
    >)
        ensures
            match reply {
                Ok(state) => running == Ok::<_, Error>(state == ContainerState::Running),
                Err(failure) => if failure.code == Code::NotFound {
                    running == Ok::<_, Error>(false)
                } else {
                    running matches Err(error) && error.deep_view() == (ErrorText {
                        class: ErrorClass::Execution,
                        message: "bridge get_container failed: "@ + failure.text@,
                    })
                },
            },
    {
        match self.get_sandbox(reply) {
            Ok(Some(state)) => Ok(state == ContainerState::Running),
            Ok(None) => Ok(false),
            Err(error) => Err(error),
        }
    }

    /// Return the bridge endpoint this client is connected to.
    #[must_use]
    pub fn endpoint(&self) -> (endpoint: &str)
        ensures
            endpoint@ == self@,
    {
        self.endpoint.as_str()
    }
}

// ---------------------------------------------------------------------------
// Laws
// ---------------------------------------------------------------------------

/// Whether an event says of a step that it was done.
pub open spec fn answers_well(stage: ConnectStage, event: ConnectEvent) -> bool {
    match stage {
        ConnectStage::ParseEndpoint => event is Parsed,
        ConnectStage::ConfigureTls => event matches ConnectEvent::Configured(outcome) && outcome
            is Ok,
        _ => event matches ConnectEvent::Stepped(outcome) && outcome is Ok,
    }
}

/// Whether a step was done in a run of events.
pub open spec fn connect_step_done(
    begun: ConnectionState,
    events: Seq<ConnectEvent>,
    stage: ConnectStage,
) -> bool {
    exists|i: int|
        0 <= i < events.len() && answers_well(stage, #[trigger] events[i]) && connection_run(
            begun,
            events.take(i),
        ).stage == stage && connection_run(begun, events.take(i + 1)).stage == connect_next(
            stage,
            begun.tls,
        )
}

/// How far a connection has come.
pub open spec fn connect_rank(stage: ConnectStage) -> int {
    match stage {
        ConnectStage::ReadCa => 0,
        ConnectStage::ReadCert => 1,
        ConnectStage::ReadKey => 2,
        ConnectStage::ParseEndpoint => 3,
        ConnectStage::ConfigureTls => 4,
        ConnectStage::Connect => 5,
        ConnectStage::Connected => 6,
        ConnectStage::Failed => 6,
    }
}

/// Every event that a connection answers to brings it nearer to its end, and one that is not
/// at its end answers to one.
pub proof fn connection_makes_progress(state: ConnectionState, event: ConnectEvent)
    requires
        state.stage != ConnectStage::Connected,
        state.stage != ConnectStage::Failed,
        event is Parsed <==> state.stage == ConnectStage::ParseEndpoint,
        event is Configured <==> state.stage == ConnectStage::ConfigureTls,
    ensures
        connect_rank(connection_step(state, event).stage) > connect_rank(state.stage),
{
}

/// A connection keeps its endpoint, and has an error exactly where it has failed.
pub proof fn connection_keeps_its_endpoint(
    endpoint: Seq<char>,
    tls: bool,
    events: Seq<ConnectEvent>,
)
    ensures
        ({
            let state = connection_run(connection_begun(endpoint, tls), events);
            &&& state.endpoint == endpoint
            &&& state.tls == tls
            &&& state.failure is Some <==> state.stage == ConnectStage::Failed
            &&& state.stage == ConnectStage::ConfigureTls ==> tls
        }),
    decreases events.len(),
{
    if events.len() > 0 {
        connection_keeps_its_endpoint(endpoint, tls, events.drop_last());
    }
}

/// A connection whose endpoint cannot be parsed is never made.
pub proof fn invalid_endpoint_is_never_connected(
    endpoint: Seq<char>,
    tls: bool,
    events: Seq<ConnectEvent>,
)
    requires
        endpoint_problem(endpoint) is Some,
    ensures
        ({
            let reached = connection_run(connection_begun(endpoint, tls), events).stage;
            connect_rank(reached) <= 3 || reached == ConnectStage::Failed
        }),
    decreases events.len(),
{
    if events.len() > 0 {
        invalid_endpoint_is_never_connected(endpoint, tls, events.drop_last());
        connection_keeps_its_endpoint(endpoint, tls, events.drop_last());
    }
}

/// With mutual TLS no connection is made before every other step was done: the certificates
/// and the key were read, the endpoint was parsed, and TLS was configured.
pub proof fn connection_is_authenticated(
    endpoint: Seq<char>,
    events: Seq<ConnectEvent>,
    stage: ConnectStage,
)
    requires
        ({
            let reached = connection_run(connection_begun(endpoint, true), events).stage;
            connect_rank(stage) < connect_rank(reached) && reached != ConnectStage::Failed
        }),
    ensures
        connect_step_done(connection_begun(endpoint, true), events, stage),
    decreases events.len(),
{
    let begun = connection_begun(endpoint, true);
    let shorter = events.drop_last();
    let n = events.len() - 1;
    let before = connection_run(begun, shorter);
    assert(events.take(n) =~= shorter);
    assert(events.take(n + 1) =~= events);
    connection_keeps_its_endpoint(endpoint, true, shorter);
    if before.stage == stage {
        assert(answers_well(stage, events[n]));
    } else {
        connection_is_authenticated(endpoint, shorter, stage);
        let i = choose|i: int|
            0 <= i < n && answers_well(stage, #[trigger] shorter[i]) && connection_run(
                begun,
                shorter.take(i),
            ).stage == stage && connection_run(begun, shorter.take(i + 1)).stage == connect_next(
                stage,
                true,
            );
        assert(shorter.take(i) =~= events.take(i));
        assert(shorter.take(i + 1) =~= events.take(i + 1));
        assert(events[i] == shorter[i]);
    }
}

/// A connection begins with the certificate of the authority where both sides authenticate,
/// and with its endpoint where they do not, and has not failed.
pub proof fn connection_begins_with_its_endpoint(endpoint: Seq<char>, tls: bool)
    ensures
        ({
            let begun = connection_begun(endpoint, tls);
            &&& begun.endpoint == endpoint
            &&& begun.tls == tls
            &&& tls ==> begun.stage == ConnectStage::ReadCa
            &&& !tls ==> begun.stage == ConnectStage::ParseEndpoint
            &&& begun.failure is None
        }),
{
}

/// Where nothing goes wrong a connection is made. With mutual TLS the two certificates and the
/// key are read, the endpoint is parsed and TLS is configured first, in this order. Without TLS
/// only the endpoint is parsed first.
pub proof fn undisturbed_connection_is_made(endpoint: Seq<char>)
    requires
        endpoint_problem(endpoint) is None,
    ensures
        ({
            let done = ConnectEvent::Stepped(Ok(()));
            let ca = connection_begun(endpoint, true);
            let cert = connection_step(ca, done);
            let key = connection_step(cert, done);
            let parse = connection_step(key, done);
            let configure = connection_step(parse, ConnectEvent::Parsed);
            let connect = connection_step(configure, ConnectEvent::Configured(Ok(())));
            let connected = connection_step(connect, done);
            &&& ca.stage == ConnectStage::ReadCa
            &&& cert.stage == ConnectStage::ReadCert
            &&& key.stage == ConnectStage::ReadKey
            &&& parse.stage == ConnectStage::ParseEndpoint
            &&& configure.stage == ConnectStage::ConfigureTls
            &&& connect.stage == ConnectStage::Connect
            &&& connected.stage == ConnectStage::Connected
            &&& connected.failure is None
            &&& connected.endpoint == endpoint
            &&& connected.tls
        }),
        ({
            let done = ConnectEvent::Stepped(Ok(()));
            let parse = connection_begun(endpoint, false);
            let connect = connection_step(parse, ConnectEvent::Parsed);
            let connected = connection_step(connect, done);
            &&& parse.stage == ConnectStage::ParseEndpoint
            &&& connect.stage == ConnectStage::Connect
            &&& connected.stage == ConnectStage::Connected
            &&& connected.failure is None
            &&& connected.endpoint == endpoint
        }),
{
}

/// A step that fails ends a connection with an error that says which step it was, and of what
/// kind: a file that cannot be read is a failure of TLS, and a daemon that cannot be reached
/// one of the transport.
pub proof fn failed_step_ends_the_connection(state: ConnectionState, error: String)
    ensures
        ({
            let after = connection_step(state, ConnectEvent::Stepped(Err(error)));
            &&& state.stage == ConnectStage::ReadCa ==> after.stage == ConnectStage::Failed
                && after.failure == Some(
                ErrorText {
                    class: ErrorClass::Tls,
                    message: "failed to read bridge CA cert: "@ + error@,
                },
            )
            &&& state.stage == ConnectStage::ReadCert ==> after.stage == ConnectStage::Failed
                && after.failure == Some(
                ErrorText {
                    class: ErrorClass::Tls,
                    message: "failed to read bridge client cert: "@ + error@,
                },
            )
            &&& state.stage == ConnectStage::ReadKey ==> after.stage == ConnectStage::Failed
                && after.failure == Some(
                ErrorText {
                    class: ErrorClass::Tls,
                    message: "failed to read bridge client key: "@ + error@,
                },
            )
            &&& state.stage == ConnectStage::Connect ==> after.stage == ConnectStage::Failed
                && after.failure == Some(
                ErrorText {
                    class: ErrorClass::Transport,
                    message: "failed to connect to bridge daemon at "@ + state.endpoint + ": "@
                        + error@,
                },
            )
        }),
{
}

/// TLS that cannot be configured ends a connection, and so does an endpoint that is none: the
/// first is a failure of TLS, the second one of the transport.
pub proof fn unusable_settings_end_the_connection(state: ConnectionState, error: String)
    ensures
        state.stage == ConnectStage::ConfigureTls ==> ({
            let after = connection_step(state, ConnectEvent::Configured(Err(error)));
            &&& after.stage == ConnectStage::Failed
            &&& after.failure == Some(
                ErrorText {
                    class: ErrorClass::Tls,
                    message: "failed to configure bridge TLS: "@ + error@,
                },
            )
        }),
        state.stage == ConnectStage::ParseEndpoint && endpoint_problem(state.endpoint) is Some
            ==> ({
            let after = connection_step(state, ConnectEvent::Parsed);
            &&& after.stage == ConnectStage::Failed
            &&& after.failure == Some(
                ErrorText {
                    class: ErrorClass::Transport,
                    message: "invalid bridge endpoint: "@ + endpoint_problem(state.endpoint)->0,
                },
            )
        }),
{
}

/// An event that does not answer what was to be done changes nothing, no event changes what a
/// connection is for, and one that is over stays as it is.
pub proof fn connection_ignores_other_events(state: ConnectionState, event: ConnectEvent)
    ensures
        ({
            let after = connection_step(state, event);
            &&& after.endpoint == state.endpoint
            &&& after.tls == state.tls
            &&& event is Parsed && state.stage != ConnectStage::ParseEndpoint ==> after == state
            &&& event is Configured && state.stage != ConnectStage::ConfigureTls ==> after
                == state
            &&& event is Stepped && (state.stage == ConnectStage::ParseEndpoint || state.stage
                == ConnectStage::ConfigureTls) ==> after == state
            &&& state.stage == ConnectStage::Connected || state.stage == ConnectStage::Failed
                ==> after == state
        }),
{
}

/// What the functions of a connection do is what its events do: parsing is one event, the
/// configuration of TLS another, and everything else that is done the third.
pub proof fn connection_is_moved_by_its_events(state: ConnectionState, outcome: Result<(), String>)
    ensures
        connection_parsed(state) == connection_step(state, ConnectEvent::Parsed),
        state.stage == ConnectStage::ConfigureTls ==> connection_after(state, outcome)
            == connection_step(state, ConnectEvent::Configured(outcome)),
        state.stage != ConnectStage::ConfigureTls ==> connection_after(state, outcome)
            == connection_step(state, ConnectEvent::Stepped(outcome)),
{
}

/// What follows the parsing of an endpoint: TLS where both sides authenticate, the connection
/// where they do not, and the end where it is no endpoint.
pub proof fn parsing_decides_what_follows(tls: bool, problem: Option<Seq<char>>)
    ensures
        problem is None && tls ==> after_parsing_of(tls, problem).0
            == ConnectStage::ConfigureTls,
        problem is None && !tls ==> after_parsing_of(tls, problem).0 == ConnectStage::Connect,
        problem is None ==> after_parsing_of(tls, problem).1 is None,
        problem matches Some(text) ==> after_parsing_of(tls, problem) == (
            ConnectStage::Failed,
            Some(
                ErrorText {
                    class: ErrorClass::Transport,
                    message: "invalid bridge endpoint: "@ + text,
                },
            ),
        ),
{
}

/// A reply is passed on as it is, and a call that was not served becomes an error of the kind
/// that the call has, with the text of the failure behind what failed.
pub proof fn replies_are_passed_on<R>(
    reply: Result<R, RpcFailure>,
    class: ErrorClass,
    what: Seq<char>,
    outcome: Result<R, Error>,
)
    requires
        reply_means(reply, class, what, outcome),
    ensures
        reply is Ok <==> outcome is Ok,
        reply matches Ok(value) ==> outcome == Ok::<R, Error>(value),
        reply matches Err(failure) ==> outcome->Err_0.class == class && outcome->Err_0.message@
            == what + failure.text@,
{
}

/// What is asked of the bridge daemon is what was asked for: by name, with the image, the
/// environment and the labels of a container that is created, with the time that one gets to
/// stop, without force where one is deleted, and in any state where they are listed.
pub proof fn requests_say_what_was_asked_for(
    client: BridgeClient,
    name: &str,
    image: &str,
    env: Vec<(String, String)>,
    labels: Vec<(String, String)>,
    timeout_secs: u32,
    create: CreateContainerRequest,
    start: StartContainerRequest,
    stop: StopContainerRequest,
    delete: DeleteContainerRequest,
    get: GetContainerRequest,
    list: ListContainersRequest,
    watch: WatchContainersRequest,
)
    requires
        call_ensures(BridgeClient::create_request, (&client, name, image, env, labels), create),
        call_ensures(BridgeClient::start_request, (&client, name), start),
        call_ensures(BridgeClient::stop_request, (&client, name, timeout_secs), stop),
        call_ensures(BridgeClient::delete_request, (&client, name), delete),
        call_ensures(BridgeClient::get_request, (&client, name), get),
        call_ensures(BridgeClient::list_request, (&client, labels), list),
        call_ensures(BridgeClient::watch_request, (&client, labels), watch),
    ensures
        create.name@ == name@ && create.image@ == image@,
        create.env == env && create.labels == labels,
        start.name@ == name@,
        stop.name@ == name@ && stop.timeout_secs == timeout_secs,
        delete.name@ == name@ && !delete.force,
        get.name@ == name@,
        list.label_selector == labels && list.state_filter@.len() == 0,
        watch.label_selector == labels,
{
}

/// A container runs exactly where it was found and is running. One that is not found does not
/// run, and that is no error, but any other failure is.
pub proof fn container_runs_where_it_is_found_running(
    client: BridgeClient,
    reply: Result<ContainerState, RpcFailure>,
    found: Result<Option<ContainerState>, Error>,
    running: Result<bool, Error>,
)
    requires
        call_ensures(BridgeClient::get_sandbox::<ContainerState>, (&client, reply), found),
        call_ensures(BridgeClient::is_sandbox_running, (&client, reply), running),
    ensures
        running is Ok <==> found is Ok,
        running matches Ok(yes) ==> (yes <==> found == Ok::<_, Error>(
            Some(ContainerState::Running),
        )),
        reply matches Ok(state) ==> found == Ok::<_, Error>(Some(state)),
        reply matches Err(failure) ==> (failure.code == Code::NotFound <==> found is Ok),
        reply matches Err(failure) ==> failure.code != Code::NotFound ==> {
            &&& found->Err_0.class == ErrorClass::Execution
            &&& found->Err_0.message@ == "bridge get_container failed: "@ + failure.text@
            &&& running->Err_0.class == ErrorClass::Execution
            &&& running->Err_0.message@ == "bridge get_container failed: "@ + failure.text@
        },
{
}

/// Each call tells by its error which one it was: the health check fails as a failure of the
/// transport, and every other call as one of execution.
pub proof fn calls_tell_which_one_failed(
    client: BridgeClient,
    failure: RpcFailure,
    healthy: Result<bool, Error>,
    created: Result<(), Error>,
    started: Result<(), Error>,
    stopped: Result<(), Error>,
    deleted: Result<(), Error>,
    listed: Result<Vec<()>, Error>,
    watched: Result<(), Error>,
)
    requires
        call_ensures(BridgeClient::health, (&client, Err(failure)), healthy),
        call_ensures(BridgeClient::create_sandbox::<()>, (&client, Err(failure)), created),
        call_ensures(BridgeClient::start_sandbox, (&client, Err(failure)), started),
        call_ensures(BridgeClient::stop_sandbox, (&client, Err(failure)), stopped),
        call_ensures(BridgeClient::delete_sandbox, (&client, Err(failure)), deleted),
        call_ensures(BridgeClient::list_sandboxes::<()>, (&client, Err(failure)), listed),
        call_ensures(BridgeClient::watch_sandboxes::<()>, (&client, Err(failure)), watched),
    ensures
        healthy matches Err(error) && error.class == ErrorClass::Transport && error.message@
            == "bridge health check failed: "@ + failure.text@,
        created matches Err(error) && error.class == ErrorClass::Execution && error.message@
            == "bridge create_container failed: "@ + failure.text@,
        started matches Err(error) && error.class == ErrorClass::Execution && error.message@
            == "bridge start_container failed: "@ + failure.text@,
        stopped matches Err(error) && error.class == ErrorClass::Execution && error.message@
            == "bridge stop_container failed: "@ + failure.text@,
        deleted matches Err(error) && error.class == ErrorClass::Execution && error.message@
            == "bridge delete_container failed: "@ + failure.text@,
        listed matches Err(error) && error.class == ErrorClass::Execution && error.message@
            == "bridge list_containers failed: "@ + failure.text@,
        watched matches Err(error) && error.class == ErrorClass::Execution && error.message@
            == "bridge watch_containers failed: "@ + failure.text@,
{
}

/// The files that a connection asks for are those of its configuration, each in its role, and
/// a connection without TLS asks for none.
pub proof fn connection_asks_for_its_files(
    connection: BridgeConnection,
    tls: BridgeTlsConfig,
    path: Option<&std::path::PathBuf>,
    endpoint: &str,
    insecure: BridgeConnection,
    none: Option<&std::path::PathBuf>,
)
    requires
        call_ensures(BridgeConnection::pem_path, (&connection, &tls), path),
        call_ensures(BridgeClient::connect_insecure, (endpoint,), insecure),
        call_ensures(BridgeConnection::pem_path, (&insecure, &tls), none),
    ensures
        connection@.stage == ConnectStage::ReadCa ==> path == Some(&tls.ca_path),
        connection@.stage == ConnectStage::ReadCert ==> path == Some(&tls.cert_path),
        connection@.stage == ConnectStage::ReadKey ==> path == Some(&tls.key_path),
        none is None,
{
}

/// A connection ends in a client of its own endpoint, or in its failure, and in nothing before
/// it is over.
pub proof fn connection_ends_in_its_client(
    connection: BridgeConnection,
    outcome: Option<Result<BridgeClient, Error>>,
)
    requires
        call_ensures(BridgeConnection::outcome, (connection,), outcome),
    ensures
        connection@.stage == ConnectStage::Connected ==> (outcome matches Some(Ok(client))
            && client@ == connection@.endpoint),
        outcome matches Some(Ok(_)) ==> connection@.stage == ConnectStage::Connected,
        outcome matches Some(Err(error)) ==> connection@.stage == ConnectStage::Failed
            && connection@.failure == Some(
            ErrorText { class: error.class, message: error.message@ },
        ),
{
}

}
