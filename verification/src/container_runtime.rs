//! Container runtime types.
//!
//! [`RuntimeBackend`] wraps the Apple Container runtime, through which all container
//! lifecycle operations go.

use vstd::prelude::*;

use crate::command::CommandOutput;
use crate::metadata::{endpoint_url, GatewayMetadata};
use crate::readiness::{wait_begun, wait_inv, ReadinessWait};
use crate::runtime_apple::{
    data_dir_of, log_dir_of, log_path_of, pid_in, pid_path_of, pki_dir_of, recent_logs_of,
    server_arguments_of, status_problem, version_in, AppleContainerRuntime, GatewayLaunch,
    GatewayRemains,
};
use crate::runtime_apple::{
    followed_by, pid_file_names_its_process, runtime_is_used_where_it_runs,
    server_is_told_its_configuration,
};
use crate::text::{contains_text, decimal, has_text};

verus! {

/// The type of container runtime detected on this system.
#[derive(Debug, Clone, Copy, PartialEq, Eq, Structural)]
pub enum RuntimeType {
    /// Apple Container (macOS-native).
    AppleContainer,
}

/// The name of a runtime type.
pub open spec fn runtime_type_name(runtime_type: RuntimeType) -> Seq<char> {
    match runtime_type {
        RuntimeType::AppleContainer => "apple_container"@,
    }
}

impl RuntimeType {
    /// The name of the runtime type, as it is shown and stored.
    pub fn name(&self) -> (name: String)
        ensures
            name@ == runtime_type_name(*self),
    {
        match self {
            RuntimeType::AppleContainer => "apple_container".to_string(),
        }
    }
}

/// Result of a successful preflight check.
#[derive(Debug)]
pub struct RuntimePreflight {
    /// Human-readable version string for the runtime.
    pub version: Option<String>,
    /// The detected runtime type.
    pub runtime_type: RuntimeType,
}

/// Information about an existing gateway deployment found by the runtime.
#[derive(Debug, Clone)]
pub struct ExistingGateway {
    /// Whether the container exists.
    pub container_exists: bool,
    /// Whether the container is currently running.
    pub container_running: bool,
    /// Whether persistent storage exists.
    pub storage_exists: bool,
    /// The image used by the existing container (if any).
    pub container_image: Option<String>,
}

/// Configuration for creating a gateway container.
#[derive(Debug, Clone)]
pub struct GatewayContainerConfig {
    pub image_ref: String,
    pub extra_sans: Vec<String>,
    pub ssh_gateway_host: Option<String>,
    pub gateway_port: u16,
    pub disable_tls: bool,
    pub disable_gateway_auth: bool,
    pub registry_username: Option<String>,
    pub registry_token: Option<String>,
    pub gpu: bool,
}

/// A process/container that is holding a port we need.
#[derive(Debug, Clone)]
pub struct PortConflict {
    /// Name of the process or container holding the port.
    pub container_name: String,
    /// The host port that conflicts.
    pub host_port: u16,
}

/// Unified container runtime backend.
///
/// Wraps the Apple Container runtime for all container lifecycle operations.
pub enum RuntimeBackend {
    AppleContainer(AppleContainerRuntime),
}

impl RuntimeBackend {
    /// The type of the runtime behind this backend.
    pub fn runtime_type(&self) -> (runtime_type: RuntimeType)
        ensures
            runtime_type == RuntimeType::AppleContainer,
    {
        match self {
            RuntimeBackend::AppleContainer(_) => RuntimeType::AppleContainer,
        }
    }

    /// The preflight check: Apple Container has to be running. Its version is reported
    /// where `container --version` gives one.
    pub fn check_available(
        &self,
        status: &CommandOutput,
        version: Option<&CommandOutput>,
    ) -> (checked: Result<RuntimePreflight, String>)
        ensures
            match checked {
                Ok(preflight) => status_problem(*status) is None && preflight.runtime_type
                    == RuntimeType::AppleContainer && preflight.version.deep_view() == (
                match version {
                    Some(out) => version_in(out.stdout@),
                    None => None,
                }),
                Err(message) => status_problem(*status) == Some(message@),
            },
    {
        let RuntimeBackend::AppleContainer(r) = self;
        r.check_available(status, version)
    }

    /// The gateway is a native process, so no image is needed.
    pub fn ensure_image(
        &self,
        image_ref: &str,
        registry_username: Option<&str>,
        registry_token: Option<&str>,
    ) -> (ensured: Result<(), String>)
        ensures
            ensured is Ok,
    {
        let RuntimeBackend::AppleContainer(r) = self;
        r.ensure_image(image_ref, registry_username, registry_token)
    }

    /// The gateway is a native process, so no image is pulled.
    pub fn pull_image(
        &self,
        image_ref: &str,
        registry_username: Option<&str>,
        registry_token: Option<&str>,
    ) -> (pulled: Result<(), String>)
        ensures
            pulled is Ok,
    {
        let RuntimeBackend::AppleContainer(r) = self;
        r.pull_image(image_ref, registry_username, registry_token)
    }

    /// The gateway that a PID file or leftover storage shows. `alive` tells whether the
    /// process that the file names answers, and `storage_exists` whether the data directory
    /// is there.
    pub fn check_existing(
        &self,
        pid_file: Option<&str>,
        alive: bool,
        storage_exists: bool,
    ) -> (existing: Option<ExistingGateway>)
        ensures
            existing is Some <==> pid_in(pid_file.deep_view()) is Some || storage_exists,
            existing matches Some(found) ==> {
                &&& found.container_exists <==> pid_in(pid_file.deep_view()) is Some
                &&& found.container_running <==> pid_in(pid_file.deep_view()) is Some && alive
                &&& found.storage_exists == storage_exists
                &&& found.container_image.deep_view() == (if pid_in(pid_file.deep_view()) is Some {
                    Some("native"@)
                } else {
                    None
                })
            },
    {
        let RuntimeBackend::AppleContainer(r) = self;
        r.check_existing(pid_file, alive, storage_exists)
    }

    /// What it takes to start the gateway `name` as a native background process.
    ///
    /// `home` is the home directory and `sandbox_image` the configured image for
    /// sandboxes, where they are known.
    pub fn create_gateway(
        &self,
        home: Option<&str>,
        name: &str,
        config: &GatewayContainerConfig,
        secret: &str,
        sandbox_image: Option<&str>,
    ) -> (launch: GatewayLaunch)
        ensures
            launch.directories.deep_view() == seq![
                data_dir_of(home.deep_view(), name@),
                pki_dir_of(home.deep_view(), name@),
                log_dir_of(home.deep_view(), name@),
            ],
            launch.arguments.deep_view() == server_arguments_of(
                *config,
                data_dir_of(home.deep_view(), name@),
                secret@,
                sandbox_image.deep_view(),
            ),
            launch.log_path@ == log_path_of(home.deep_view(), name@),
            launch.pid_path@ == pid_path_of(home.deep_view(), name@),
    {
        let RuntimeBackend::AppleContainer(r) = self;
        r.create_gateway(home, name, config, secret, sandbox_image)
    }

    /// Creating a gateway has already started its process.
    pub fn start_gateway(&self, name: &str) -> (started: Result<(), String>)
        ensures
            started is Ok,
    {
        let RuntimeBackend::AppleContainer(r) = self;
        r.start_gateway(name)
    }

    /// The process to send SIGTERM to when a gateway is stopped, where its PID file
    /// names one. It then gets [`STOP_GRACE_SECS`] to shut down.
    pub fn stop_gateway(&self, pid_file: Option<&str>) -> (pid: Option<i32>)
        ensures
            pid == pid_in(pid_file.deep_view()),
    {
        let RuntimeBackend::AppleContainer(r) = self;
        r.stop_gateway(pid_file)
    }

    /// What is removed, once the gateway `name` is stopped, to clean up all its data.
    pub fn destroy_resources(&self, home: Option<&str>, name: &str) -> (remains: GatewayRemains)
        ensures
            remains.files.deep_view() == seq![pid_path_of(home.deep_view(), name@)],
            remains.directories.deep_view() == seq![
                data_dir_of(home.deep_view(), name@),
                pki_dir_of(home.deep_view(), name@),
                log_dir_of(home.deep_view(), name@),
            ],
    {
        let RuntimeBackend::AppleContainer(r) = self;
        r.destroy_resources(home, name)
    }

    /// The gateway is a native process and uses the host's network.
    pub fn ensure_network(&self, name: &str) -> (ensured: Result<(), String>)
        ensures
            ensured is Ok,
    {
        let RuntimeBackend::AppleContainer(r) = self;
        r.ensure_network(name)
    }

    /// The directory to create so that a gateway has storage.
    pub fn ensure_storage(&self, home: Option<&str>, name: &str) -> (directory: String)
        ensures
            directory@ == data_dir_of(home.deep_view(), name@),
    {
        let RuntimeBackend::AppleContainer(r) = self;
        r.ensure_storage(home, name)
    }

    /// A command cannot be executed in a gateway, which is a native process.
    pub fn exec_capture(&self, name: &str, cmd: &Vec<String>) -> (captured: Result<
        (String, i64),
        String,
    >)
        ensures
            captured matches Err(message) && message@
                == "exec is not supported for native gateway process"@,
    {
        let RuntimeBackend::AppleContainer(r) = self;
        r.exec_capture(name, cmd)
    }

    /// Begin to wait for a gateway to become ready. `stored` is the stored metadata of the
    /// gateway, where it could be loaded. Without it a gateway on the default port is waited
    /// for.
    pub fn wait_for_ready(&self, name: &str, stored: Option<GatewayMetadata>) -> (wait:
        ReadinessWait)
        ensures
            wait_inv(wait@),
            wait@ == (match stored {
                Some(metadata) => wait_begun(metadata.gateway_endpoint@, metadata.gateway_port),
                None => wait_begun(endpoint_url("127.0.0.1"@, 8080, false), 8080),
            }),
    {
        let RuntimeBackend::AppleContainer(r) = self;
        r.wait_for_ready(name, stored)
    }

    /// Recent lines of the server log. `content` is what the log file holds, and `None`
    /// where it cannot be read.
    pub fn fetch_recent_logs(&self, content: Option<&str>, n: usize) -> (logs: String)
        ensures
            logs@ == recent_logs_of(content.deep_view(), n as nat),
    {
        let RuntimeBackend::AppleContainer(r) = self;
        r.fetch_recent_logs(content, n)
    }

    /// The log output to stream: the asked number of lines, or [`DEFAULT_LOG_LINES`].
    pub fn stream_logs(&self, content: Option<&str>, lines: Option<usize>) -> (logs: String)
        ensures
            logs@ == recent_logs_of(
                content.deep_view(),
                (match lines {
                    Some(n) => n,
                    None => 100,
                }) as nat,
            ),
    {
        let RuntimeBackend::AppleContainer(r) = self;
        r.stream_logs(content, lines)
    }

    /// The gateway is a native process, so no image is pushed to it.
    pub fn push_images(&self, name: &str, images: &Vec<String>) -> (pushed: Result<(), String>)
        ensures
            pushed is Ok,
    {
        let RuntimeBackend::AppleContainer(r) = self;
        r.push_images(name, images)
    }

    /// The conflicts on `port` that the output of `lsof` shows: one where it exited with
    /// success and wrote anything, none otherwise.
    pub fn check_port_conflicts(&self, port: u16, output: &CommandOutput) -> (conflicts: Vec<
        PortConflict,
    >)
        ensures
            output.success && output.stdout@.len() > 0 ==> conflicts@.len() == 1
                && conflicts@[0].container_name@ == "unknown (port in use)"@
                && conflicts@[0].host_port == port,
            !(output.success && output.stdout@.len() > 0) ==> conflicts@.len() == 0,
    {
        let RuntimeBackend::AppleContainer(r) = self;
        r.check_port_conflicts(port, output)
    }

    /// The outcome of a build: what is logged of an image that was built, or the error of
    /// one that was not.
    pub fn build_image(&self, tag: &str, output: &CommandOutput) -> (built: Result<String, String>)
        ensures
            match built {
                Ok(line) => output.success && line@ == "Built image "@ + tag@,
                Err(message) => !output.success && message@ == "Image build failed: "@
                    + output.stderr@,
            },
    {
        let RuntimeBackend::AppleContainer(r) = self;
        r.build_image(tag, output)
    }

    /// The outcome of a build. The gateway is a native process, so the image is pushed
    /// nowhere.
    pub fn build_and_push_image(&self, tag: &str, output: &CommandOutput) -> (built: Result<
        String,
        String,
    >)
        ensures
            match built {
                Ok(line) => output.success && line@ == "Built image "@ + tag@,
                Err(message) => !output.success && message@ == "Image build failed: "@
                    + output.stderr@,
            },
    {
        let RuntimeBackend::AppleContainer(r) = self;
        r.build_and_push_image(tag, output)
    }

    /// Whether a gateway process is running: its PID file names a process that answers.
    pub fn check_container_running(&self, pid_file: Option<&str>, alive: bool) -> (checked: Result<
        (),
        String,
    >)
        ensures
            checked is Ok <==> pid_in(pid_file.deep_view()) is Some && alive,
            checked matches Err(message) ==> message@ == "gateway process is not running"@,
    {
        let RuntimeBackend::AppleContainer(r) = self;
        r.check_container_running(pid_file, alive)
    }
}

/// Whether `container system status` shows that Apple Container is running: the
/// command ran, exited with success and wrote "running". `status` is `None` where it
/// could not be run.
pub fn apple_container_available(status: Option<&CommandOutput>) -> (available: bool)
    ensures
        available == (match status {
            Some(output) => output.success && has_text(output.stdout@, "running"@),
            None => false,
        }),
{
    match status {
        Some(output) => output.success && contains_text(output.stdout.as_str(), "running"),
        None => false,
    }
}

// ---------------------------------------------------------------------------
// Laws
// ---------------------------------------------------------------------------

/// Every runtime type is stored under the name that stored metadata holds.
pub proof fn runtime_type_is_stored_by_its_name(runtime_type: RuntimeType)
    ensures
        runtime_type == RuntimeType::AppleContainer,
        runtime_type_name(runtime_type) == "apple_container"@,
{
}

/// A gateway that exists is told by its process or by its storage: whatever the PID file and
/// the data directory hold, one is found exactly where either is there, and it runs exactly
/// where its process answers.
pub proof fn gateway_exists_by_its_process_or_its_storage(
    runtime: RuntimeBackend,
    pid_file: Option<&str>,
    alive: bool,
    storage_exists: bool,
    existing: Option<ExistingGateway>,
)
    requires
        call_ensures(
            RuntimeBackend::check_existing,
            (&runtime, pid_file, alive, storage_exists),
            existing,
        ),
    ensures
        existing is Some <==> pid_in(pid_file.deep_view()) is Some || storage_exists,
        existing matches Some(found) ==> {
            &&& found.storage_exists == storage_exists
            &&& found.container_exists <==> pid_in(pid_file.deep_view()) is Some
            &&& found.container_running <==> pid_in(pid_file.deep_view()) is Some && alive
        },
{
}

/// A port is held exactly where `lsof` exits with success and writes anything, and what holds
/// it is told with the port that was asked for.
pub proof fn port_is_held_where_a_process_listens(
    runtime: RuntimeBackend,
    port: u16,
    output: CommandOutput,
    conflicts: Vec<PortConflict>,
)
    requires
        call_ensures(RuntimeBackend::check_port_conflicts, (&runtime, port, &output), conflicts),
    ensures
        conflicts@.len() > 0 <==> output.success && output.stdout@.len() > 0,
        forall|i: int|
            0 <= i < conflicts@.len() ==> (#[trigger] conflicts@[i]).host_port == port
                && conflicts@[i].container_name@ == "unknown (port in use)"@,
{
}

/// A gateway is running exactly where its PID file names a process and that process answers.
pub proof fn gateway_runs_where_its_process_answers(
    runtime: RuntimeBackend,
    pid_file: Option<&str>,
    alive: bool,
    checked: Result<(), String>,
)
    requires
        call_ensures(RuntimeBackend::check_container_running, (&runtime, pid_file, alive), checked),
    ensures
        checked is Ok <==> alive && pid_in(pid_file.deep_view()) is Some,
        checked matches Err(message) ==> message@ == "gateway process is not running"@,
{
}

/// The process that is stopped is the one that the PID file was written for.
pub proof fn stopped_process_is_the_one_started(
    runtime: RuntimeBackend,
    apple: AppleContainerRuntime,
    pid: u32,
    written: String,
    pid_file: &str,
    stopped: Option<i32>,
)
    requires
        pid <= i32::MAX,
        call_ensures(AppleContainerRuntime::pid_file_contents, (&apple, pid), written),
        pid_file@ == written@,
        call_ensures(RuntimeBackend::stop_gateway, (&runtime, Some(pid_file)), stopped),
    ensures
        stopped == Some(pid as i32),
{
    pid_file_names_its_process(Seq::empty(), pid, Seq::empty());
    assert(Seq::<char>::empty() + decimal(pid as nat) + Seq::<char>::empty() =~= decimal(
        pid as nat,
    ));
}

/// Destroying a gateway removes all that its launch has made: each directory, and the PID file.
pub proof fn destruction_removes_the_launch(
    runtime: RuntimeBackend,
    home: Option<&str>,
    name: &str,
    config: GatewayContainerConfig,
    secret: &str,
    sandbox_image: Option<&str>,
    launch: GatewayLaunch,
    remains: GatewayRemains,
    i: int,
)
    requires
        call_ensures(
            RuntimeBackend::create_gateway,
            (&runtime, home, name, &config, secret, sandbox_image),
            launch,
        ),
        call_ensures(RuntimeBackend::destroy_resources, (&runtime, home, name), remains),
        0 <= i < launch.directories@.len(),
    ensures
        remains.directories.deep_view().contains(launch.directories.deep_view()[i]),
        remains.files.deep_view().contains(launch.pid_path@),
        launch.directories@.len() == 3,
{
    assert(launch.directories.deep_view().len() == launch.directories@.len());
    assert(remains.directories.deep_view()[i] == launch.directories.deep_view()[i]);
    assert(remains.files.deep_view()[0] == launch.pid_path@);
}

/// The server of a launch keeps its database in the directory that was made for storage, and
/// manages sandboxes through Apple Container with the secret that it was given.
pub proof fn launch_uses_its_storage(
    runtime: RuntimeBackend,
    home: Option<&str>,
    name: &str,
    config: GatewayContainerConfig,
    secret: &str,
    sandbox_image: Option<&str>,
    launch: GatewayLaunch,
    storage: String,
)
    requires
        call_ensures(
            RuntimeBackend::create_gateway,
            (&runtime, home, name, &config, secret, sandbox_image),
            launch,
        ),
        call_ensures(RuntimeBackend::ensure_storage, (&runtime, home, name), storage),
    ensures
        ({
            let arguments = launch.arguments.deep_view();
            &&& launch.directories.deep_view().contains(storage@)
            &&& followed_by(arguments, "--db-url"@, "sqlite://"@ + storage@ + "/openshell.db"@)
            &&& followed_by(arguments, "--sandbox-backend"@, "apple-container"@)
            &&& followed_by(arguments, "--ssh-handshake-secret"@, secret@)
            &&& followed_by(arguments, "--port"@, decimal(config.gateway_port as nat))
        }),
{
    server_is_told_its_configuration(config, storage@, secret@, sandbox_image.deep_view());
    assert(launch.directories.deep_view()[0] == storage@);
}

/// A build has succeeded exactly where its command did. Its image is then named, and otherwise
/// what the command complained of.
pub proof fn build_succeeds_with_its_command(
    runtime: RuntimeBackend,
    tag: &str,
    output: CommandOutput,
    built: Result<String, String>,
    pushed: Result<String, String>,
)
    requires
        call_ensures(RuntimeBackend::build_image, (&runtime, tag, &output), built),
        call_ensures(RuntimeBackend::build_and_push_image, (&runtime, tag, &output), pushed),
    ensures
        built is Ok <==> output.success,
        built matches Ok(line) ==> line@ == "Built image "@ + tag@,
        built matches Err(message) ==> message@ == "Image build failed: "@ + output.stderr@,
        pushed is Ok <==> output.success,
        pushed matches Err(message) ==> message@ == "Image build failed: "@ + output.stderr@,
{
}

/// The runtime is available exactly where its preflight check succeeds.
pub proof fn available_runtime_passes_the_check(
    runtime: RuntimeBackend,
    status: CommandOutput,
    version: Option<&CommandOutput>,
    available: bool,
    checked: Result<RuntimePreflight, String>,
)
    requires
        call_ensures(apple_container_available, (Some(&status),), available),
        call_ensures(RuntimeBackend::check_available, (&runtime, &status, version), checked),
    ensures
        available <==> checked is Ok,
        available <==> status.success && has_text(status.stdout@, "running"@),
{
    runtime_is_used_where_it_runs(status);
}

/// Logs are streamed a hundred lines deep where no number is asked for, and as deep as is asked
/// for otherwise, as recent logs are fetched.
pub proof fn streamed_logs_are_recent_logs(
    runtime: RuntimeBackend,
    content: Option<&str>,
    lines: Option<usize>,
    n: usize,
    streamed: String,
    fetched: String,
)
    requires
        n == (match lines {
            Some(asked) => asked,
            None => 100,
        }),
        call_ensures(RuntimeBackend::stream_logs, (&runtime, content, lines), streamed),
        call_ensures(RuntimeBackend::fetch_recent_logs, (&runtime, content, n), fetched),
    ensures
        streamed@ == fetched@,
        content is None ==> fetched@ == "server logs: not available"@,
{
}

}
