//! Apple Container runtime backend (macOS only).
//!
//! Runs the gateway as a **native macOS process** instead of inside a
//! container. The gateway binary (`openshell-server`) is started as a
//! background daemon with its PID tracked in a file for lifecycle management.
//!
//! Everything here is computed from plain values: what a command wrote, what a file
//! holds, whether a process answers. Commands are run and files are read by the caller.

use vstd::prelude::*;

use crate::command::CommandOutput;
use crate::container_runtime::{
    ExistingGateway, GatewayContainerConfig, PortConflict, RuntimePreflight, RuntimeType,
};
use crate::image::DEFAULT_SANDBOX_IMAGE;
use crate::paths::{join_path, joined_path};
use crate::errors::{diagnosis_found, earlier_pattern_wins, has_any, matchers_of, FailureKind};
use crate::metadata::{
    create_gateway_metadata, endpoint_tells_the_scheme, endpoint_url, GatewayMetadata,
};
use crate::readiness::{wait_begun, wait_inv, ReadinessWait};
use crate::text::{
    begins_with, decimal_is_trimmed, decimal_reads_back, first_word_ends_at_white_space,
    has_text_in_longer, is_digit, is_white_space, occurs_at, other_text_is_no_number,
    stripping_undoes_the_prefix, trimmed_is_trim, trimming_takes_off_the_ends,
};
use crate::text::{
    concat2, concat3, contains_text, decimal, decimal_text, first_word, first_word_of, has_text,
    join_from, joined, lines_of, parse_i32, parsed_i32, split_lines, strip_text_prefix, trim_text,
    trimmed, without_prefix,
};

verus! {

/// Apple Container runtime backend.
///
/// Manages the gateway as a native macOS process and uses Apple Container
/// for sandbox VMs.
pub struct AppleContainerRuntime;

/// Seconds that a gateway gets to shut down after it was told to.
pub const STOP_GRACE_SECS: u64 = 2;

/// Lines of the log that are streamed where no number is asked for.
pub const DEFAULT_LOG_LINES: usize = 100;

// ---------------------------------------------------------------------------
// Paths
// ---------------------------------------------------------------------------

/// The directory of a gateway: `<home>/.openshell/gateways/<name>`, with `/tmp` for a
/// home directory that is not known.
pub open spec fn gateway_dir_of(home: Option<Seq<char>>, name: Seq<char>) -> Seq<char> {
    (match home {
        Some(dir) => dir,
        None => "/tmp"@,
    }) + "/.openshell/gateways/"@ + name
}

/// The directory in which a gateway keeps its database.
pub open spec fn data_dir_of(home: Option<Seq<char>>, name: Seq<char>) -> Seq<char> {
    joined_path(gateway_dir_of(home, name), "data"@)
}

/// The directory in which a gateway keeps its certificates.
pub open spec fn pki_dir_of(home: Option<Seq<char>>, name: Seq<char>) -> Seq<char> {
    joined_path(gateway_dir_of(home, name), "pki"@)
}

/// The directory in which a gateway keeps its logs.
pub open spec fn log_dir_of(home: Option<Seq<char>>, name: Seq<char>) -> Seq<char> {
    joined_path(gateway_dir_of(home, name), "logs"@)
}

/// The file with the process ID of a gateway.
pub open spec fn pid_path_of(home: Option<Seq<char>>, name: Seq<char>) -> Seq<char> {
    joined_path(gateway_dir_of(home, name), "gateway.pid"@)
}

/// The file that a gateway writes its log to.
pub open spec fn log_path_of(home: Option<Seq<char>>, name: Seq<char>) -> Seq<char> {
    joined_path(log_dir_of(home, name), "server.log"@)
}

impl AppleContainerRuntime {
    /// The runtime.
    pub fn new() -> (runtime: Self)
        ensures
            runtime == AppleContainerRuntime,
    {
        AppleContainerRuntime
    }

    /// The directory of a gateway. `home` is the home directory, where it is known.
    pub fn gateway_dir(&self, home: Option<&str>, name: &str) -> (path: String)
        ensures
            path@ == gateway_dir_of(home.deep_view(), name@),
    {
        let root = match home {
            Some(dir) => dir,
            None => "/tmp",
        };
        concat3(root, "/.openshell/gateways/", name)
    }

    /// The directory in which a gateway keeps its database.
    pub fn data_dir(&self, home: Option<&str>, name: &str) -> (path: String)
        ensures
            path@ == data_dir_of(home.deep_view(), name@),
    {
        join_path(self.gateway_dir(home, name).as_str(), "data")
    }

    /// The directory in which a gateway keeps its certificates.
    pub fn pki_dir(&self, home: Option<&str>, name: &str) -> (path: String)
        ensures
            path@ == pki_dir_of(home.deep_view(), name@),
    {
        join_path(self.gateway_dir(home, name).as_str(), "pki")
    }

    /// The directory in which a gateway keeps its logs.
    pub fn log_dir(&self, home: Option<&str>, name: &str) -> (path: String)
        ensures
            path@ == log_dir_of(home.deep_view(), name@),
    {
        join_path(self.gateway_dir(home, name).as_str(), "logs")
    }

    /// The file with the process ID of a gateway.
    pub fn pid_path(&self, home: Option<&str>, name: &str) -> (path: String)
        ensures
            path@ == pid_path_of(home.deep_view(), name@),
    {
        join_path(self.gateway_dir(home, name).as_str(), "gateway.pid")
    }

    /// The file that a gateway writes its log to.
    pub fn log_path(&self, home: Option<&str>, name: &str) -> (path: String)
        ensures
            path@ == log_path_of(home.deep_view(), name@),
    {
        join_path(self.log_dir(home, name).as_str(), "server.log")
    }
}

// ---------------------------------------------------------------------------
// Preflight
// ---------------------------------------------------------------------------

/// Why `container system status` shows that Apple Container cannot be used.
pub open spec fn status_problem(status: CommandOutput) -> Option<Seq<char>> {
    if !status.success {
        Some(
            "Apple Container is not running or not installed.\nRun `container system start` to start it.\n\n  "@
                + status.stderr@,
        )
    } else if !has_text(status.stdout@, "running"@) {
        Some(
            "Apple Container service is not running.\nRun `container system start` to start it."@,
        )
    } else {
        None
    }
}

/// The version in the output of `container --version`: the first word behind
/// `container CLI version `.
pub open spec fn version_in(output: Seq<char>) -> Option<Seq<char>> {
    match without_prefix(output, "container CLI version "@) {
        Some(rest) => first_word_of(rest),
        None => None,
    }
}

impl AppleContainerRuntime {
    /// Whether Apple Container is running, from the output of `container system status`.
    pub fn check_status(&self, status: &CommandOutput) -> (checked: Result<(), String>)
        ensures
            match checked {
                Ok(_) => status_problem(*status) is None,
                Err(message) => status_problem(*status) == Some(message@),
            },
    {
        if !status.success {
            return Err(
                concat2(
                    "Apple Container is not running or not installed.\nRun `container system start` to start it.\n\n  ",
                    status.stderr.as_str(),
                ),
            );
        }
        if !contains_text(status.stdout.as_str(), "running") {
            return Err(
                "Apple Container service is not running.\nRun `container system start` to start it.".to_string(),
            );
        }
        Ok(())
    }

    /// The version of the `container` CLI. `output` is what `container --version` left,
    /// and `None` where it could not be run.
    pub fn get_version(&self, output: Option<&CommandOutput>) -> (version: Option<String>)
        ensures
            version.deep_view() == (match output {
                Some(out) => version_in(out.stdout@),
                None => None,
            }),
    {
        match output {
            Some(out) => match strip_text_prefix(out.stdout.as_str(), "container CLI version ") {
                Some(rest) => first_word(rest.as_str()),
                None => None,
            },
            None => None,
        }
    }

    /// The preflight check: Apple Container has to be running. Its version is reported
    /// where `container --version` gives one.
    pub fn check_available(
        &self,
        status: &CommandOutput,
        version: Option<&CommandOutput>,
    ) -> (checked: Result<RuntimePreflight, String>)
        ensures
            match checked {
                Ok(preflight) => status_problem(*status) is None && preflight.runtime_type
                    == RuntimeType::AppleContainer && preflight.version.deep_view() == (
                match version {
                    Some(out) => version_in(out.stdout@),
                    None => None,
                }),
                Err(message) => status_problem(*status) == Some(message@),
            },
    {
        match self.check_status(status) {
            Ok(_) => Ok(
                RuntimePreflight {
                    version: self.get_version(version),
                    runtime_type: RuntimeType::AppleContainer,
                },
            ),
            Err(message) => Err(message),
        }
    }
}

// ---------------------------------------------------------------------------
// The process of a gateway
// ---------------------------------------------------------------------------

/// The process ID that a PID file holds. `contents` is `None` where there is no file.
pub open spec fn pid_in(contents: Option<Seq<char>>) -> Option<i32> {
    match contents {
        Some(text) => parsed_i32(trimmed(text)),
        None => None,
    }
}

/// What the PID file of a process holds.
pub open spec fn pid_record(pid: u32) -> Seq<char> {
    decimal(pid as nat)
}

impl AppleContainerRuntime {
    /// The process ID that a PID file holds. `contents` is `None` where there is no
    /// file, or none that can be read.
    pub fn read_pid(&self, contents: Option<&str>) -> (pid: Option<i32>)
        ensures
            pid == pid_in(contents.deep_view()),
    {
        match contents {
            Some(text) => parse_i32(trim_text(text).as_str()),
            None => None,
        }
    }

    /// What is written to the PID file of a process.
    pub fn pid_file_contents(&self, pid: u32) -> (contents: String)
        ensures
            contents@ == pid_record(pid),
    {
        decimal_text(pid as u64)
    }

    /// The gateway that a PID file or leftover storage shows. `alive` tells whether the
    /// process that the file names answers, and `storage_exists` whether the data directory
    /// is there.
    pub fn check_existing(
        &self,
        pid_file: Option<&str>,
        alive: bool,
        storage_exists: bool,
    ) -> (existing: Option<ExistingGateway>)
        ensures
            existing is Some <==> pid_in(pid_file.deep_view()) is Some || storage_exists,
            existing matches Some(found) ==> {
                &&& found.container_exists <==> pid_in(pid_file.deep_view()) is Some
                &&& found.container_running <==> pid_in(pid_file.deep_view()) is Some && alive
                &&& found.storage_exists == storage_exists
                &&& found.container_image.deep_view() == (if pid_in(pid_file.deep_view()) is Some {
                    Some("native"@)
                } else {
                    None
                })
            },
    {
        match self.read_pid(pid_file) {
            Some(_) => Some(
                ExistingGateway {
                    container_exists: true,
                    container_running: alive,
                    storage_exists,
                    container_image: Some("native".to_string()),
                },
            ),
            None => if storage_exists {
                Some(
                    ExistingGateway {
                        container_exists: false,
                        container_running: false,
                        storage_exists,
                        container_image: None,
                    },
                )
            } else {
                None
            },
        }
    }

    /// The process to send SIGTERM to when a gateway is stopped, where its PID file
    /// names one. It then gets [`STOP_GRACE_SECS`] to shut down.
    pub fn stop_gateway(&self, pid_file: Option<&str>) -> (pid: Option<i32>)
        ensures
            pid == pid_in(pid_file.deep_view()),
    {
        self.read_pid(pid_file)
    }

    /// Whether a gateway process is running: its PID file names a process that answers.
    pub fn check_container_running(&self, pid_file: Option<&str>, alive: bool) -> (checked: Result<
        (),
        String,
    >)
        ensures
            checked is Ok <==> pid_in(pid_file.deep_view()) is Some && alive,
            checked matches Err(message) ==> message@ == "gateway process is not running"@,
    {
        if self.read_pid(pid_file).is_some() && alive {
            return Ok(());
        }
        Err("gateway process is not running".to_string())
    }

    /// A command cannot be executed in a gateway, which is a native process.
    pub fn exec_capture(&self, _name: &str, _cmd: &Vec<String>) -> (captured: Result<
        (String, i64),
        String,
    >)
        ensures
            captured matches Err(message) && message@
                == "exec is not supported for native gateway process"@,
    {
        Err("exec is not supported for native gateway process".to_string())
    }
}

// ---------------------------------------------------------------------------
// Launch and destruction
// ---------------------------------------------------------------------------

/// What it takes to start a gateway process.
#[derive(Debug, Clone)]
pub struct GatewayLaunch {
    /// Directories to create, in order.
    pub directories: Vec<String>,
    /// Arguments of the server.
    pub arguments: Vec<String>,
    /// File that the output of the server goes to.
    pub log_path: String,
    /// File that the process ID of the server is written to.
    pub pid_path: String,
}

/// What is removed when a gateway is destroyed.
#[derive(Debug, Clone)]
pub struct GatewayRemains {
    /// Files to remove, in order.
    pub files: Vec<String>,
    /// Directories to remove with all that they hold, in order.
    pub directories: Vec<String>,
}

/// The database URL of a gateway with this data directory.
pub open spec fn database_url_of(data_dir: Seq<char>) -> Seq<char> {
    "sqlite://"@ + data_dir + "/openshell.db"@
}

/// The image for sandboxes: the configured one, or the community base image.
pub open spec fn sandbox_image_or_default(image: Option<Seq<char>>) -> Seq<char> {
    match image {
        Some(configured) => configured,
        None => "ghcr.io/nvidia/openshell-community/sandboxes/base:latest"@,
    }
}

/// The arguments that the server of a gateway is started with.
pub open spec fn server_arguments_of(
    config: GatewayContainerConfig,
    data_dir: Seq<char>,
    secret: Seq<char>,
    sandbox_image: Option<Seq<char>>,
) -> Seq<Seq<char>> {
    seq![
        "--port"@,
        decimal(config.gateway_port as nat),
        "--sandbox-backend"@,
        "apple-container"@,
        "--db-url"@,
        database_url_of(data_dir),
        "--ssh-handshake-secret"@,
        secret,
        "--sandbox-image"@,
        sandbox_image_or_default(sandbox_image),
    ] + (if config.disable_tls {
        seq!["--disable-tls"@]
    } else {
        Seq::empty()
    }) + (if config.disable_gateway_auth {
        seq!["--disable-gateway-auth"@]
    } else {
        Seq::empty()
    })
}

/// The arguments that the server of a gateway is started with.
pub fn server_arguments(
    config: &GatewayContainerConfig,
    data_dir: &str,
    secret: &str,
    sandbox_image: Option<&str>,
) -> (arguments: Vec<String>)
    ensures
        arguments.deep_view() == server_arguments_of(
            *config,
            data_dir@,
            secret@,
            sandbox_image.deep_view(),
        ),
{
    let image = match sandbox_image {
        Some(configured) => configured,
        None => DEFAULT_SANDBOX_IMAGE,
    };
    let mut arguments: Vec<String> = vec![
        "--port".to_string(),
        decimal_text(config.gateway_port as u64),
        "--sandbox-backend".to_string(),
        "apple-container".to_string(),
        "--db-url".to_string(),
        concat3("sqlite://", data_dir, "/openshell.db"),
        "--ssh-handshake-secret".to_string(),
        secret.to_string(),
        "--sandbox-image".to_string(),
        image.to_string(),
    ];
    if config.disable_tls {
        arguments.push("--disable-tls".to_string());
    }
    if config.disable_gateway_auth {
        arguments.push("--disable-gateway-auth".to_string());
    }
    assert(arguments.deep_view() =~= server_arguments_of(
        *config,
        data_dir@,
        secret@,
        sandbox_image.deep_view(),
    ));
    arguments
}

impl AppleContainerRuntime {
    /// What it takes to start the gateway `name` as a native background process.
    ///
    /// `home` is the home directory and `sandbox_image` the configured image for
    /// sandboxes, where they are known.
    pub fn create_gateway(
        &self,
        home: Option<&str>,
        name: &str,
        config: &GatewayContainerConfig,
        secret: &str,
        sandbox_image: Option<&str>,
    ) -> (launch: GatewayLaunch)
        ensures
            launch.directories.deep_view() == seq![
                data_dir_of(home.deep_view(), name@),
                pki_dir_of(home.deep_view(), name@),
                log_dir_of(home.deep_view(), name@),
            ],
            launch.arguments.deep_view() == server_arguments_of(
                *config,
                data_dir_of(home.deep_view(), name@),
                secret@,
                sandbox_image.deep_view(),
            ),
            launch.log_path@ == log_path_of(home.deep_view(), name@),
            launch.pid_path@ == pid_path_of(home.deep_view(), name@),
    {
        let data_dir = self.data_dir(home, name);
        let arguments = server_arguments(config, data_dir.as_str(), secret, sandbox_image);
        let directories: Vec<String> = vec![
            data_dir,
            self.pki_dir(home, name),
            self.log_dir(home, name),
        ];
        assert(directories.deep_view() =~= seq![
            data_dir_of(home.deep_view(), name@),
            pki_dir_of(home.deep_view(), name@),
            log_dir_of(home.deep_view(), name@),
        ]);
        GatewayLaunch {
            directories,
            arguments,
            log_path: self.log_path(home, name),
            pid_path: self.pid_path(home, name),
        }
    }

    /// What is removed, once the gateway `name` is stopped, to clean up all its data.
    pub fn destroy_resources(&self, home: Option<&str>, name: &str) -> (remains: GatewayRemains)
        ensures
            remains.files.deep_view() == seq![pid_path_of(home.deep_view(), name@)],
            remains.directories.deep_view() == seq![
                data_dir_of(home.deep_view(), name@),
                pki_dir_of(home.deep_view(), name@),
                log_dir_of(home.deep_view(), name@),
            ],
    {
        let files: Vec<String> = vec![self.pid_path(home, name)];
        let directories: Vec<String> = vec![
            self.data_dir(home, name),
            self.pki_dir(home, name),
            self.log_dir(home, name),
        ];
        assert(files.deep_view() =~= seq![pid_path_of(home.deep_view(), name@)]);
        assert(directories.deep_view() =~= seq![
            data_dir_of(home.deep_view(), name@),
            pki_dir_of(home.deep_view(), name@),
            log_dir_of(home.deep_view(), name@),
        ]);
        GatewayRemains { files, directories }
    }
}

// ---------------------------------------------------------------------------
// Logs
// ---------------------------------------------------------------------------

/// The last `n` lines of `content`, or all where it has fewer, joined by line feeds.
pub open spec fn recent_lines_of(content: Seq<char>, n: nat) -> Seq<char> {
    let lines = lines_of(content);
    joined(
        if lines.len() <= n {
            lines
        } else {
            lines.skip(lines.len() - n)
        },
        "\n"@,
    )
}

/// What is shown of a log: its last `n` lines, or a notice where it cannot be read.
pub open spec fn recent_logs_of(content: Option<Seq<char>>, n: nat) -> Seq<char> {
    match content {
        Some(text) => recent_lines_of(text, n),
        None => "server logs: not available"@,
    }
}

/// The last `n` lines of `content`, or all where it has fewer, joined by line feeds.
pub fn recent_lines(content: &str, n: usize) -> (tail: String)
    ensures
        tail@ == recent_lines_of(content@, n as nat),
{
    let lines = split_lines(content);
    let start: usize = if lines.len() > n {
        lines.len() - n
    } else {
        0
    };
    assert(lines.deep_view().skip(0) =~= lines.deep_view());
    join_from(&lines, start, "\n")
}

impl AppleContainerRuntime {
    /// Recent lines of the server log. `content` is what the log file holds, and `None`
    /// where it cannot be read.
    pub fn fetch_recent_logs(&self, content: Option<&str>, n: usize) -> (logs: String)
        ensures
            logs@ == recent_logs_of(content.deep_view(), n as nat),
    {
        match content {
            Some(text) => recent_lines(text, n),
            None => "server logs: not available".to_string(),
        }
    }

    /// The log output to stream: the asked number of lines, or [`DEFAULT_LOG_LINES`].
    pub fn stream_logs(&self, content: Option<&str>, lines: Option<usize>) -> (logs: String)
        ensures
            logs@ == recent_logs_of(
                content.deep_view(),
                (match lines {
                    Some(n) => n,
                    None => 100,
                }) as nat,
            ),
    {
        let n: usize = match lines {
            Some(n) => n,
            None => DEFAULT_LOG_LINES,
        };
        self.fetch_recent_logs(content, n)
    }
}

// ---------------------------------------------------------------------------
// Ports
// ---------------------------------------------------------------------------

impl AppleContainerRuntime {
    /// The arguments with which `lsof` lists the processes that listen on `port`.
    pub fn port_query_arguments(&self, port: u16) -> (arguments: Vec<String>)
        ensures
            arguments.deep_view() == seq![
                "-i"@,
                ":"@ + decimal(port as nat),
                "-sTCP:LISTEN"@,
                "-t"@,
            ],
    {
        let arguments: Vec<String> = vec![
            "-i".to_string(),
            concat2(":", decimal_text(port as u64).as_str()),
            "-sTCP:LISTEN".to_string(),
            "-t".to_string(),
        ];
        assert(arguments.deep_view() =~= seq![
            "-i"@,
            ":"@ + decimal(port as nat),
            "-sTCP:LISTEN"@,
            "-t"@,
        ]);
        arguments
    }

    /// The conflicts on `port` that the output of `lsof` shows: one where it exited with
    /// success and wrote anything, none otherwise.
    pub fn check_port_conflicts(&self, port: u16, output: &CommandOutput) -> (conflicts: Vec<
        PortConflict,
    >)
        ensures
            output.success && output.stdout@.len() > 0 ==> conflicts@.len() == 1
                && conflicts@[0].container_name@ == "unknown (port in use)"@
                && conflicts@[0].host_port == port,
            !(output.success && output.stdout@.len() > 0) ==> conflicts@.len() == 0,
    {
        if output.success && !output.stdout.as_str().is_empty() {
            vec![
                PortConflict {
                    container_name: "unknown (port in use)".to_string(),
                    host_port: port,
                },
            ]
        } else {
            Vec::new()
        }
    }
}

// ---------------------------------------------------------------------------
// Images
// ---------------------------------------------------------------------------

/// The arguments of one build setting: `--build-arg key=value`.
pub open spec fn build_setting(setting: (Seq<char>, Seq<char>)) -> Seq<Seq<char>> {
    seq!["--build-arg"@, setting.0 + "="@ + setting.1]
}

/// The arguments of all build settings, in order.
pub open spec fn build_settings(settings: Seq<(Seq<char>, Seq<char>)>) -> Seq<Seq<char>>
    decreases settings.len(),
{
    if settings.len() == 0 {
        Seq::empty()
    } else {
        build_settings(settings.drop_last()) + build_setting(settings.last())
    }
}

/// The arguments with which `container` builds an image.
pub open spec fn build_arguments_of(
    dockerfile: Seq<char>,
    tag: Seq<char>,
    context: Seq<char>,
    settings: Seq<(Seq<char>, Seq<char>)>,
) -> Seq<Seq<char>> {
    seq!["build"@, "-t"@, tag, "-f"@, dockerfile] + build_settings(settings) + seq![context]
}

impl AppleContainerRuntime {
    /// The gateway is a native process, so no image is needed.
    pub fn ensure_image(
        &self,
        _image_ref: &str,
        _registry_username: Option<&str>,
        _registry_token: Option<&str>,
    ) -> (ensured: Result<(), String>)
        ensures
            ensured is Ok,
    {
        Ok(())
    }

    /// The gateway is a native process, so no image is pulled.
    pub fn pull_image(
        &self,
        _image_ref: &str,
        _registry_username: Option<&str>,
        _registry_token: Option<&str>,
    ) -> (pulled: Result<(), String>)
        ensures
            pulled is Ok,
    {
        Ok(())
    }

    /// The gateway is a native process, so no image is pushed to it.
    pub fn push_images(&self, _name: &str, _images: &Vec<String>) -> (pushed: Result<(), String>)
        ensures
            pushed is Ok,
    {
        Ok(())
    }

    /// Creating a gateway has already started its process.
    pub fn start_gateway(&self, _name: &str) -> (started: Result<(), String>)
        ensures
            started is Ok,
    {
        Ok(())
    }

    /// The gateway is a native process and uses the host's network.
    pub fn ensure_network(&self, _name: &str) -> (ensured: Result<(), String>)
        ensures
            ensured is Ok,
    {
        Ok(())
    }

    /// The directory to create so that a gateway has storage.
    pub fn ensure_storage(&self, home: Option<&str>, name: &str) -> (directory: String)
        ensures
            directory@ == data_dir_of(home.deep_view(), name@),
    {
        self.data_dir(home, name)
    }

    /// Begin to wait for a gateway to become ready. `stored` is the stored metadata of the
    /// gateway, where it could be loaded. Without it a gateway on the default port is waited
    /// for.
    pub fn wait_for_ready(&self, name: &str, stored: Option<GatewayMetadata>) -> (wait:
        ReadinessWait)
        ensures
            wait_inv(wait@),
            wait@ == (match stored {
                Some(metadata) => wait_begun(metadata.gateway_endpoint@, metadata.gateway_port),
                None => wait_begun(endpoint_url("127.0.0.1"@, 8080, false), 8080),
            }),
    {
        match stored {
            Some(metadata) => ReadinessWait::new(&metadata),
            None => ReadinessWait::new(&create_gateway_metadata(name, 8080)),
        }
    }

    /// The arguments with which `container` builds an image, with the build settings in
    /// the order in which they are given.
    pub fn build_arguments(
        &self,
        dockerfile: &str,
        tag: &str,
        context: &str,
        settings: &Vec<(String, String)>,
    ) -> (arguments: Vec<String>)
        ensures
            arguments.deep_view() == build_arguments_of(
                dockerfile@,
                tag@,
                context@,
                settings.deep_view(),
            ),
    {
        let mut arguments: Vec<String> = vec![
            "build".to_string(),
            "-t".to_string(),
            tag.to_string(),
            "-f".to_string(),
            dockerfile.to_string(),
        ];
        let ghost head = seq!["build"@, "-t"@, tag@, "-f"@, dockerfile@];
        let mut i: usize = 0;
        assert(settings.deep_view().take(0) =~= Seq::empty());
        assert(arguments.deep_view() =~= head + build_settings(settings.deep_view().take(0)));
        while i < settings.len()
            invariant
                i <= settings.len(),
                arguments.deep_view() == head + build_settings(settings.deep_view().take(i as int)),
            decreases settings.len() - i,
        {
            let ghost before = arguments.deep_view();
            arguments.push("--build-arg".to_string());
            arguments.push(concat3(settings[i].0.as_str(), "=", settings[i].1.as_str()));
            proof {
                let done = settings.deep_view().take(i + 1);
                assert(done.drop_last() =~= settings.deep_view().take(i as int));
                assert(done.last() == settings@[i as int].deep_view());
                assert(arguments.deep_view() =~= before + build_setting(done.last()));
                assert(head + (build_settings(done.drop_last()) + build_setting(done.last()))
                    =~= before + build_setting(done.last()));
            }
            i = i + 1;
        }
        assert(settings.deep_view().take(i as int) =~= settings.deep_view());
        let ghost before = arguments.deep_view();
        arguments.push(context.to_string());
        assert(arguments.deep_view() =~= before + seq![context@]);
        arguments
    }

    /// What is logged before an image is built.
    pub fn build_started_line(&self, tag: &str, dockerfile: &str) -> (line: String)
        ensures
            line@ == "Building image "@ + tag@ + " from "@ + dockerfile@,
    {
        let mut line = concat3("Building image ", tag, " from ");
        line.append(dockerfile);
        line
    }

    /// The outcome of a build: what is logged of an image that was built, or the error of
    /// one that was not.
    pub fn build_image(&self, tag: &str, output: &CommandOutput) -> (built: Result<String, String>)
        ensures
            match built {
                Ok(line) => output.success && line@ == "Built image "@ + tag@,
                Err(message) => !output.success && message@ == "Image build failed: "@
                    + output.stderr@,
            },
    {
        if !output.success {
            return Err(concat2("Image build failed: ", output.stderr.as_str()));
        }
        Ok(concat2("Built image ", tag))
    }

    /// The outcome of a build. The gateway is a native process, so the image is pushed
    /// nowhere.
    pub fn build_and_push_image(&self, tag: &str, output: &CommandOutput) -> (built: Result<
        String,
        String,
    >)
        ensures
            match built {
                Ok(line) => output.success && line@ == "Built image "@ + tag@,
                Err(message) => !output.success && message@ == "Image build failed: "@
                    + output.stderr@,
            },
    {
        self.build_image(tag, output)
    }
}

// ---------------------------------------------------------------------------
// Laws
// ---------------------------------------------------------------------------

/// A PID file gives back the process that it was written for. Process IDs beyond the
/// range of the signal interface do not read back.
pub proof fn pid_file_reads_back(pid: u32)
    ensures
        pid <= i32::MAX ==> pid_in(Some(pid_record(pid))) == Some(pid as i32),
        pid > i32::MAX ==> pid_in(Some(pid_record(pid))) is None,
{
    decimal_reads_back(pid as nat);
    decimal_is_trimmed(pid as nat);
}

/// White space around the process ID in a PID file does not matter.
pub proof fn pid_file_ignores_white_space(contents: Seq<char>)
    ensures
        pid_in(Some(trimmed(contents))) == pid_in(Some(contents)),
{
    trimmed_is_trim(contents);
}

/// The stored endpoint matches the server: it has the scheme `http` exactly where the server
/// is started without TLS, and the port that the server is started with.
pub proof fn endpoint_matches_the_server(
    config: GatewayContainerConfig,
    data_dir: Seq<char>,
    secret: Seq<char>,
    sandbox_image: Option<Seq<char>>,
    host: Seq<char>,
)
    ensures
        ({
            let arguments = server_arguments_of(config, data_dir, secret, sandbox_image);
            let endpoint = endpoint_url(host, config.gateway_port, config.disable_tls);
            &&& arguments[0] == "--port"@
            &&& endpoint == endpoint.take(endpoint.len() - arguments[1].len()) + arguments[1]
            &&& begins_with(endpoint, "http://"@) <==> arguments.len() > 10 && arguments[10]
                == "--disable-tls"@
        }),
{
    let endpoint = endpoint_url(host, config.gateway_port, config.disable_tls);
    let port = decimal(config.gateway_port as nat);
    endpoint_tells_the_scheme(host, config.gateway_port, config.disable_tls);
    assert(endpoint.skip(endpoint.len() - port.len()) =~= port);
    assert(endpoint =~= endpoint.take(endpoint.len() - port.len()) + endpoint.skip(
        endpoint.len() - port.len(),
    ));
    reveal_strlit("--disable-tls");
    reveal_strlit("--disable-gateway-auth");
    assert("--disable-tls"@[10] != "--disable-gateway-auth"@[10]);
    let arguments = server_arguments_of(config, data_dir, secret, sandbox_image);
    if config.disable_tls {
        assert(arguments[10] == "--disable-tls"@);
    } else if config.disable_gateway_auth {
        assert(arguments[10] == "--disable-gateway-auth"@);
    } else {
        assert(arguments.len() == 10);
    }
}

/// Where `part` is relative, the joined path begins with the base.
proof fn lemma_joined_below(base: Seq<char>, part: Seq<char>)
    requires
        !(part.len() > 0 && part.first() == '/'),
    ensures
        begins_with(joined_path(base, part), base),
{
    assert(joined_path(base, part).subrange(0, base.len() as int) =~= base);
}

/// Everything that a gateway keeps lies below its own directory, whatever its name.
pub proof fn gateway_files_are_below_its_directory(home: Option<Seq<char>>, name: Seq<char>)
    ensures
        begins_with(data_dir_of(home, name), gateway_dir_of(home, name)),
        begins_with(pki_dir_of(home, name), gateway_dir_of(home, name)),
        begins_with(log_dir_of(home, name), gateway_dir_of(home, name)),
        begins_with(pid_path_of(home, name), gateway_dir_of(home, name)),
        begins_with(log_path_of(home, name), log_dir_of(home, name)),
{
    reveal_strlit("data");
    reveal_strlit("pki");
    reveal_strlit("logs");
    reveal_strlit("gateway.pid");
    reveal_strlit("server.log");
    let dir = gateway_dir_of(home, name);
    lemma_joined_below(dir, "data"@);
    lemma_joined_below(dir, "pki"@);
    lemma_joined_below(dir, "logs"@);
    lemma_joined_below(dir, "gateway.pid"@);
    lemma_joined_below(log_dir_of(home, name), "server.log"@);
}

/// Destroying a gateway leaves nothing of a launch behind: each directory that a launch
/// creates, its PID file, and the directory of its log and of its database are removed.
pub proof fn destruction_covers_launch(
    home: Option<Seq<char>>,
    name: Seq<char>,
    launch: GatewayLaunch,
    remains: GatewayRemains,
)
    requires
        launch.directories.deep_view() == seq![
            data_dir_of(home, name),
            pki_dir_of(home, name),
            log_dir_of(home, name),
        ],
        launch.log_path@ == log_path_of(home, name),
        launch.pid_path@ == pid_path_of(home, name),
        remains.files.deep_view() == seq![pid_path_of(home, name)],
        remains.directories.deep_view() == seq![
            data_dir_of(home, name),
            pki_dir_of(home, name),
            log_dir_of(home, name),
        ],
    ensures
        forall|dir: Seq<char>|
            launch.directories.deep_view().contains(dir)
                ==> remains.directories.deep_view().contains(dir),
        remains.files.deep_view().contains(launch.pid_path@),
        exists|dir: Seq<char>|
            remains.directories.deep_view().contains(dir) && begins_with(launch.log_path@, dir),
{
    gateway_files_are_below_its_directory(home, name);
    assert(remains.files.deep_view()[0] == launch.pid_path@);
    assert(remains.directories.deep_view()[2] == log_dir_of(home, name));
    assert(remains.directories.deep_view().contains(log_dir_of(home, name)));
}

/// A name with a slash at its end, unless it is empty.
pub open spec fn with_slash(name: Seq<char>) -> Seq<char> {
    if name.len() > 0 && name.last() != '/' {
        name.push('/')
    } else {
        name
    }
}

/// Gateways with different names keep nothing in the same place, unless one name is the
/// other with a slash at its end.
pub proof fn gateways_do_not_share_files(
    home: Option<Seq<char>>,
    one: Seq<char>,
    other: Seq<char>,
)
    requires
        with_slash(one) != with_slash(other),
    ensures
        gateway_dir_of(home, one) != gateway_dir_of(home, other),
        pid_path_of(home, one) != pid_path_of(home, other),
        data_dir_of(home, one) != data_dir_of(home, other),
        pki_dir_of(home, one) != pki_dir_of(home, other),
        log_dir_of(home, one) != log_dir_of(home, other),
{
    reveal_strlit("data");
    reveal_strlit("pki");
    reveal_strlit("logs");
    reveal_strlit("gateway.pid");
    let root = gateway_dir_of(home, Seq::empty());
    let a = gateway_dir_of(home, one);
    let b = gateway_dir_of(home, other);
    assert(a =~= root + one);
    assert(b =~= root + other);
    if a == b {
        assert(one =~= a.skip(root.len() as int));
        assert(other =~= b.skip(root.len() as int));
    }
    lemma_files_apart(home, one, other, "data"@);
    lemma_files_apart(home, one, other, "pki"@);
    lemma_files_apart(home, one, other, "logs"@);
    lemma_files_apart(home, one, other, "gateway.pid"@);
}

proof fn lemma_file_of(home: Option<Seq<char>>, name: Seq<char>, part: Seq<char>)
    requires
        !(part.len() > 0 && part.first() == '/'),
    ensures
        joined_path(gateway_dir_of(home, name), part) == gateway_dir_of(home, Seq::empty())
            + with_slash(name) + part,
{
    reveal_strlit("/.openshell/gateways/");
    let root = gateway_dir_of(home, Seq::empty());
    let dir = gateway_dir_of(home, name);
    assert(dir =~= root + name);
    assert(root.last() == '/');
    if name.len() > 0 {
        assert(dir.last() == name.last());
    }
    assert(joined_path(dir, part) =~= root + with_slash(name) + part);
}

proof fn lemma_files_apart(
    home: Option<Seq<char>>,
    one: Seq<char>,
    other: Seq<char>,
    part: Seq<char>,
)
    requires
        with_slash(one) != with_slash(other),
        !(part.len() > 0 && part.first() == '/'),
    ensures
        joined_path(gateway_dir_of(home, one), part) != joined_path(
            gateway_dir_of(home, other),
            part,
        ),
{
    lemma_file_of(home, one, part);
    lemma_file_of(home, other, part);
    let root = gateway_dir_of(home, Seq::empty());
    let p = root + with_slash(one) + part;
    let q = root + with_slash(other) + part;
    if p == q {
        assert(with_slash(one) =~= p.subrange(root.len() as int, p.len() - part.len()));
        assert(with_slash(other) =~= q.subrange(root.len() as int, q.len() - part.len()));
    }
}

/// Asking for at least as many lines as a log has gives all of them.
pub proof fn enough_lines_give_the_whole_log(content: Seq<char>, n: nat)
    requires
        n >= lines_of(content).len(),
    ensures
        recent_lines_of(content, n) == joined(lines_of(content), "\n"@),
{
}

/// What Apple Container is refused for is diagnosed: whatever the `container` command
/// wrote, the message of a failed status check leads to a diagnosis.
pub proof fn refused_runtime_is_diagnosed(gateway_name: Seq<char>, status: CommandOutput)
    requires
        status_problem(status) is Some,
    ensures
        diagnosis_found(gateway_name, status_problem(status)->0, None) is Some,
{
    let message = status_problem(status)->0;
    let needle = "container system start"@;
    let texts = matchers_of(FailureKind::AppleContainerNotRunning);
    assert(texts[2] == needle);
    reveal_strlit("container system start");
    reveal_strlit(
        "Apple Container is not running or not installed.\nRun `container system start` to start it.\n\n  ",
    );
    reveal_strlit(
        "Apple Container service is not running.\nRun `container system start` to start it.",
    );
    if !status.success {
        let fixed =
            "Apple Container is not running or not installed.\nRun `container system start` to start it.\n\n  "@;
        assert(fixed.subrange(54, 54int + needle.len()) =~= needle);
        assert(occurs_at(fixed, needle, 54));
        has_text_in_longer(fixed, status.stderr@, needle);
    } else {
        assert(message.subrange(45, 45int + needle.len()) =~= needle);
        assert(occurs_at(message, needle, 45));
    }
    assert(has_any(message, texts));
    earlier_pattern_wins(message, FailureKind::AppleContainerNotRunning);
}

/// Whether an option stands among arguments with its value directly behind it.
pub open spec fn followed_by(arguments: Seq<Seq<char>>, option: Seq<char>, value: Seq<char>) -> bool {
    exists|i: int|
        0 <= i < arguments.len() - 1 && #[trigger] arguments[i] == option && arguments[i + 1]
            == value
}

/// The server of a gateway is started with five options, each with its value directly behind
/// it, whatever the configuration and the image: its port, Apple Container as the backend for
/// sandboxes, the database in the data directory, the secret, and the image for sandboxes. The
/// switches that follow are those that the configuration sets, and nothing else follows.
pub proof fn server_is_told_its_configuration(
    config: GatewayContainerConfig,
    data_dir: Seq<char>,
    secret: Seq<char>,
    sandbox_image: Option<Seq<char>>,
)
    ensures
        ({
            let arguments = server_arguments_of(config, data_dir, secret, sandbox_image);
            let image = match sandbox_image {
                Some(configured) => configured,
                None => "ghcr.io/nvidia/openshell-community/sandboxes/base:latest"@,
            };
            let switches = arguments.skip(10);
            &&& followed_by(arguments, "--port"@, decimal(config.gateway_port as nat))
            &&& followed_by(arguments, "--sandbox-backend"@, "apple-container"@)
            &&& followed_by(arguments, "--db-url"@, "sqlite://"@ + data_dir + "/openshell.db"@)
            &&& followed_by(arguments, "--ssh-handshake-secret"@, secret)
            &&& followed_by(arguments, "--sandbox-image"@, image)
            &&& arguments.take(10) == seq![
                "--port"@,
                decimal(config.gateway_port as nat),
                "--sandbox-backend"@,
                "apple-container"@,
                "--db-url"@,
                "sqlite://"@ + data_dir + "/openshell.db"@,
                "--ssh-handshake-secret"@,
                secret,
                "--sandbox-image"@,
                image,
            ]
            &&& switches.contains("--disable-tls"@) <==> config.disable_tls
            &&& switches.contains("--disable-gateway-auth"@) <==> config.disable_gateway_auth
            &&& switches.len() == (if config.disable_tls {
                1int
            } else {
                0
            }) + (if config.disable_gateway_auth {
                1int
            } else {
                0
            })
        }),
{
    let arguments = server_arguments_of(config, data_dir, secret, sandbox_image);
    let switches = arguments.skip(10);
    assert(arguments[0] == "--port"@);
    assert(arguments[2] == "--sandbox-backend"@);
    assert(arguments[4] == "--db-url"@);
    assert(arguments[6] == "--ssh-handshake-secret"@);
    assert(arguments[8] == "--sandbox-image"@);
    reveal_strlit("--disable-tls");
    reveal_strlit("--disable-gateway-auth");
    assert("--disable-tls"@[10] != "--disable-gateway-auth"@[10]);
    if config.disable_tls && config.disable_gateway_auth {
        assert(switches =~= seq!["--disable-tls"@, "--disable-gateway-auth"@]);
        assert(switches[0] == "--disable-tls"@);
        assert(switches[1] == "--disable-gateway-auth"@);
    } else if config.disable_tls {
        assert(switches =~= seq!["--disable-tls"@]);
        assert(switches[0] == "--disable-tls"@);
    } else if config.disable_gateway_auth {
        assert(switches =~= seq!["--disable-gateway-auth"@]);
        assert(switches[0] == "--disable-gateway-auth"@);
    } else {
        assert(switches =~= Seq::empty());
    }
}

/// Everything of a gateway has its place below `.openshell/gateways` in the home directory, or
/// in `/tmp` where no home directory is known.
pub proof fn gateway_has_its_places(home: Option<Seq<char>>, name: Seq<char>)
    requires
        name.len() > 0,
        name.last() != '/',
    ensures
        ({
            let root = match home {
                Some(dir) => dir,
                None => "/tmp"@,
            };
            let dir = root + "/.openshell/gateways/"@ + name;
            &&& gateway_dir_of(home, name) == dir
            &&& data_dir_of(home, name) == dir + "/data"@
            &&& pki_dir_of(home, name) == dir + "/pki"@
            &&& log_dir_of(home, name) == dir + "/logs"@
            &&& pid_path_of(home, name) == dir + "/gateway.pid"@
            &&& log_path_of(home, name) == dir + "/logs/server.log"@
        }),
{
    reveal_strlit("data");
    reveal_strlit("pki");
    reveal_strlit("logs");
    reveal_strlit("gateway.pid");
    reveal_strlit("server.log");
    reveal_strlit("/data");
    reveal_strlit("/pki");
    reveal_strlit("/logs");
    reveal_strlit("/gateway.pid");
    reveal_strlit("/logs/server.log");
    let dir = gateway_dir_of(home, name);
    assert(dir.last() == name.last());
    assert(data_dir_of(home, name) =~= dir + "/data"@);
    assert(pki_dir_of(home, name) =~= dir + "/pki"@);
    assert(log_dir_of(home, name) =~= dir + "/logs"@);
    assert(log_dir_of(home, name).last() == 's');
    assert(pid_path_of(home, name) =~= dir + "/gateway.pid"@);
    assert(log_path_of(home, name) =~= dir + "/logs/server.log"@);
}

/// A name that is empty or ends with a slash puts everything of a gateway directly behind it.
pub proof fn name_with_a_slash_keeps_its_places(home: Option<Seq<char>>, name: Seq<char>)
    requires
        name.len() == 0 || name.last() == '/',
    ensures
        ({
            let root = match home {
                Some(dir) => dir,
                None => "/tmp"@,
            };
            let dir = root + "/.openshell/gateways/"@ + name;
            &&& gateway_dir_of(home, name) == dir
            &&& data_dir_of(home, name) == dir + "data"@
            &&& pki_dir_of(home, name) == dir + "pki"@
            &&& log_dir_of(home, name) == dir + "logs"@
            &&& pid_path_of(home, name) == dir + "gateway.pid"@
            &&& log_path_of(home, name) == dir + "logs/server.log"@
        }),
{
    reveal_strlit("data");
    reveal_strlit("pki");
    reveal_strlit("logs");
    reveal_strlit("gateway.pid");
    reveal_strlit("server.log");
    reveal_strlit("logs/server.log");
    reveal_strlit("/.openshell/gateways/");
    let dir = gateway_dir_of(home, name);
    if name.len() > 0 {
        assert(dir.last() == name.last());
    }
    assert(dir.last() == '/');
    assert(log_dir_of(home, name) =~= dir + "logs"@);
    assert(log_dir_of(home, name).last() == 's');
    assert(log_path_of(home, name) =~= dir + "logs/server.log"@);
}

/// Apple Container can be used exactly where `container system status` exits with success and
/// says that it is running. Otherwise the user is told how to start it, and what the command
/// complained of where it failed.
pub proof fn runtime_is_used_where_it_runs(status: CommandOutput)
    ensures
        status_problem(status) is None <==> status.success && has_text(
            status.stdout@,
            "running"@,
        ),
        !status.success ==> status_problem(status) == Some(
            "Apple Container is not running or not installed.\nRun `container system start` to start it.\n\n  "@
                + status.stderr@,
        ),
        status.success && !has_text(status.stdout@, "running"@) ==> status_problem(status)
            == Some(
            "Apple Container service is not running.\nRun `container system start` to start it."@,
        ),
{
}

/// The version is the word behind `container CLI version `, whatever follows it. Output that
/// does not begin so tells no version.
pub proof fn version_is_read_from_the_output(version: Seq<char>, rest: Seq<char>, other: Seq<char>)
    requires
        version.len() > 0,
        forall|i: int| 0 <= i < version.len() ==> !is_white_space(#[trigger] version[i]),
        rest.len() > 0 ==> is_white_space(rest.first()),
        !begins_with(other, "container CLI version "@),
    ensures
        version_in("container CLI version "@ + version + rest) == Some(version),
        version_in(other) is None,
{
    let prefix = "container CLI version "@;
    let behind = version + rest;
    assert(prefix + version + rest =~= prefix + behind);
    stripping_undoes_the_prefix(prefix, behind);
    first_word_ends_at_white_space(Seq::empty(), version, rest);
    assert(Seq::<char>::empty() + version + rest =~= behind);
}

/// Without a PID file there is no process, and neither is there one where the file holds
/// anything but a number.
pub proof fn other_pid_file_names_no_process(before: Seq<char>, text: Seq<char>, after: Seq<char>, i: int)
    requires
        forall|k: int| 0 <= k < before.len() ==> is_white_space(#[trigger] before[k]),
        forall|k: int| 0 <= k < after.len() ==> is_white_space(#[trigger] after[k]),
        text.len() > 0 ==> !is_white_space(text.first()) && !is_white_space(text.last()),
        text.len() > 0 ==> 0 <= i < text.len(),
        text.len() > 0 ==> !('0' <= text[i] && text[i] <= '9'),
        i == 0 && text.len() > 1 ==> text[0] != '-' && text[0] != '+',
    ensures
        pid_in(None) is None,
        pid_in(Some(before + text + after)) is None,
{
    trimming_takes_off_the_ends(before, text, after);
    other_text_is_no_number(text, i);
}

/// A PID file names its process whatever white space stands around the number.
pub proof fn pid_file_names_its_process(before: Seq<char>, pid: u32, after: Seq<char>)
    requires
        forall|k: int| 0 <= k < before.len() ==> is_white_space(#[trigger] before[k]),
        forall|k: int| 0 <= k < after.len() ==> is_white_space(#[trigger] after[k]),
        pid <= i32::MAX,
    ensures
        pid_in(Some(before + decimal(pid as nat) + after)) == Some(pid as i32),
        pid_record(pid) == decimal(pid as nat),
{
    let text = decimal(pid as nat);
    decimal_reads_back(pid as nat);
    assert(is_digit(text[0]) && is_digit(text[text.len() - 1]));
    trimming_takes_off_the_ends(before, text, after);
}

/// The recent lines of a log are its last ones, in their order: of lines behind others, as many
/// as are asked for. A log that cannot be read is not taken for an empty one.
pub proof fn recent_lines_are_the_last_ones(
    content: Seq<char>,
    earlier: Seq<Seq<char>>,
    latest: Seq<Seq<char>>,
    n: nat,
)
    requires
        lines_of(content) == earlier + latest,
        latest.len() == n || (earlier.len() == 0 && latest.len() <= n),
    ensures
        recent_lines_of(content, n) == joined(latest, "\n"@),
        recent_logs_of(Some(content), n) == joined(latest, "\n"@),
        recent_logs_of(None, n) == "server logs: not available"@,
{
    let lines = lines_of(content);
    if lines.len() <= n {
        assert(earlier.len() == 0);
        assert(lines =~= latest);
    } else {
        assert(lines.skip(lines.len() - n) =~= latest);
    }
}

proof fn lemma_two_arguments_for_each_setting(settings: Seq<(Seq<char>, Seq<char>)>)
    ensures
        build_settings(settings).len() == 2 * settings.len(),
    decreases settings.len(),
{
    if settings.len() > 0 {
        lemma_two_arguments_for_each_setting(settings.drop_last());
    }
}

proof fn lemma_setting_is_passed(settings: Seq<(Seq<char>, Seq<char>)>, i: int)
    requires
        0 <= i < settings.len(),
    ensures
        build_settings(settings).len() == 2 * settings.len(),
        build_settings(settings)[2 * i] == "--build-arg"@,
        build_settings(settings)[2 * i + 1] == settings[i].0 + "="@ + settings[i].1,
    decreases settings.len(),
{
    lemma_two_arguments_for_each_setting(settings);
    lemma_two_arguments_for_each_setting(settings.drop_last());
    if i < settings.len() - 1 {
        lemma_setting_is_passed(settings.drop_last(), i);
    }
}

/// An image is built with its tag, its Dockerfile and every build setting, in their order, and
/// from its context, which comes last.
pub proof fn image_is_built_as_asked(
    dockerfile: Seq<char>,
    tag: Seq<char>,
    context: Seq<char>,
    settings: Seq<(Seq<char>, Seq<char>)>,
    i: int,
)
    ensures
        ({
            let arguments = build_arguments_of(dockerfile, tag, context, settings);
            &&& arguments.len() == 6 + 2 * settings.len()
            &&& arguments.take(5) == seq!["build"@, "-t"@, tag, "-f"@, dockerfile]
            &&& arguments.last() == context
            &&& 0 <= i < settings.len() ==> arguments[5 + 2 * i] == "--build-arg"@ && arguments[6
                + 2 * i] == settings[i].0 + "="@ + settings[i].1
        }),
{
    let arguments = build_arguments_of(dockerfile, tag, context, settings);
    lemma_two_arguments_for_each_setting(settings);
    assert(arguments.take(5) =~= seq!["build"@, "-t"@, tag, "-f"@, dockerfile]);
    if 0 <= i < settings.len() {
        lemma_setting_is_passed(settings, i);
    }
}

/// What listens on a port is asked for by that port, and only what listens.
pub proof fn listeners_are_asked_for_by_the_port(
    runtime: AppleContainerRuntime,
    port: u16,
    arguments: Vec<String>,
)
    requires
        call_ensures(AppleContainerRuntime::port_query_arguments, (&runtime, port), arguments),
    ensures
        arguments.deep_view() == seq!["-i"@, ":"@ + decimal(port as nat), "-sTCP:LISTEN"@, "-t"@],
{
}

/// An image is built by the command that was asked for, and what is told of it names its tag
/// and its Dockerfile.
pub proof fn build_is_run_as_asked(
    runtime: AppleContainerRuntime,
    dockerfile: &str,
    tag: &str,
    context: &str,
    settings: Vec<(String, String)>,
    arguments: Vec<String>,
    line: String,
    i: int,
)
    requires
        call_ensures(
            AppleContainerRuntime::build_arguments,
            (&runtime, dockerfile, tag, context, &settings),
            arguments,
        ),
        call_ensures(AppleContainerRuntime::build_started_line, (&runtime, tag, dockerfile), line),
    ensures
        ({
            let all = arguments.deep_view();
            &&& all.len() == 6 + 2 * settings@.len()
            &&& all[0] == "build"@
            &&& all[1] == "-t"@ && all[2] == tag@
            &&& all[3] == "-f"@ && all[4] == dockerfile@
            &&& all.last() == context@
            &&& 0 <= i < settings@.len() ==> all[5 + 2 * i] == "--build-arg"@ && all[6 + 2 * i]
                == settings@[i].0@ + "="@ + settings@[i].1@
        }),
        line@ == "Building image "@ + tag@ + " from "@ + dockerfile@,
{
    let all = arguments.deep_view();
    let given = settings.deep_view();
    image_is_built_as_asked(dockerfile@, tag@, context@, given, i);
    assert(given.len() == settings@.len());
    assert(all.take(5)[0] == all[0] && all.take(5)[1] == all[1] && all.take(5)[2] == all[2]
        && all.take(5)[3] == all[3] && all.take(5)[4] == all[4]);
}

}
