//! Apple Container sandbox backend.
//!
//! Manages sandbox containers through the `container` CLI. The commands are run by the
//! caller: [`SandboxCreation`] and [`SandboxDeletion`] tell which one is next and take what
//! it left.

use vstd::prelude::*;

use crate::command::{CommandOutput, CommandResult};
use crate::json::json_list;
use crate::sandbox::listing::{
    container_with_id, containers_in, find_container, lists_reference, lookup_finds_the_first,
    parse_containers,
    parse_references, references_in, ContainerRecord, ContainerText,
};
use crate::sandbox::{Sandbox, SandboxPhase, SandboxSpec};
use crate::status::{internal, Code, Status, StatusText};
use crate::text::{
    before_char, concat2, concat3, contains_text, decimal, decimal_text, has_text, text_before,
    text_is_cut_at_the_separator,
};

verus! {

/// What the names of sandbox containers begin with.
pub const SANDBOX_PREFIX: &'static str = "openshell-sandbox-";

/// Seconds that a VM gets to boot and to get its network interface.
pub const NETWORK_WAIT_SECS: u64 = 2;

/// Port that the SSH server of a sandbox listens on.
pub const SANDBOX_SSH_PORT: u16 = 2222;

/// User ID that the user of the host gets in a sandbox VM.
pub const SANDBOX_HOST_UID: u32 = 1000;

/// Sandbox client using the Apple Container CLI.
///
/// Each sandbox is a lightweight Apple Container VM with its own Linux kernel and vmnet IP.
#[derive(Clone, Debug)]
pub struct AppleContainerSandboxClient {
    default_image: String,
    ssh_listen_addr: String,
    ssh_handshake_secret: String,
    ssh_handshake_skew_secs: u64,
    grpc_endpoint: String,
}

/// The settings of a client.
#[verifier::ext_equal]
pub struct ClientSettings {
    /// Image of a sandbox that names none.
    pub default_image: Seq<char>,
    /// Endpoint at which sandboxes reach the gateway.
    pub grpc_endpoint: Seq<char>,
    /// Address that the SSH server of a sandbox listens on.
    pub ssh_listen_addr: Seq<char>,
    /// Secret for the SSH handshake.
    pub ssh_handshake_secret: Seq<char>,
    /// Clock skew that the SSH handshake allows, in seconds.
    pub ssh_handshake_skew_secs: u64,
}

impl View for AppleContainerSandboxClient {
    type V = ClientSettings;

    closed spec fn view(&self) -> ClientSettings {
        ClientSettings {
            default_image: self.default_image@,
            grpc_endpoint: self.grpc_endpoint@,
            ssh_listen_addr: self.ssh_listen_addr@,
            ssh_handshake_secret: self.ssh_handshake_secret@,
            ssh_handshake_skew_secs: self.ssh_handshake_skew_secs,
        }
    }
}

/// The name of the container of a sandbox.
pub open spec fn container_name_of(name: Seq<char>) -> Seq<char> {
    "openshell-sandbox-"@ + name
}

/// The image of a sandbox: that of its template, or the default image where it has no
/// template or the template names none.
pub open spec fn image_of(details: SandboxSpec, default_image: Seq<char>) -> Seq<char> {
    match details.template {
        Some(template) => if template.image@.len() > 0 {
            template.image@
        } else {
            default_image
        },
        None => default_image,
    }
}

/// The environment of a sandbox: what it needs to reach the gateway and to be reached,
/// then what the user specified.
pub open spec fn environment_of(
    settings: ClientSettings,
    id: Seq<char>,
    name: Seq<char>,
    specified: Seq<(Seq<char>, Seq<char>)>,
) -> Seq<(Seq<char>, Seq<char>)> {
    seq![
        ("OPENSHELL_GRPC_ENDPOINT"@, settings.grpc_endpoint),
        ("OPENSHELL_SSH_LISTEN_ADDR"@, settings.ssh_listen_addr),
        ("OPENSHELL_SSH_HANDSHAKE_SECRET"@, settings.ssh_handshake_secret),
        (
            "OPENSHELL_SSH_HANDSHAKE_SKEW_SECS"@,
            decimal(settings.ssh_handshake_skew_secs as nat),
        ),
        ("OPENSHELL_SANDBOX_ID"@, id),
        ("OPENSHELL_SANDBOX_NAME"@, name),
    ] + specified
}

impl AppleContainerSandboxClient {
    /// A client with these settings.
    pub fn new(
        default_image: String,
        grpc_endpoint: String,
        ssh_listen_addr: String,
        ssh_handshake_secret: String,
        ssh_handshake_skew_secs: u64,
    ) -> (client: Self)
        ensures
            client@ == (ClientSettings {
                default_image: default_image@,
                grpc_endpoint: grpc_endpoint@,
                ssh_listen_addr: ssh_listen_addr@,
                ssh_handshake_secret: ssh_handshake_secret@,
                ssh_handshake_skew_secs,
            }),
    {
        AppleContainerSandboxClient {
            default_image,
            grpc_endpoint,
            ssh_listen_addr,
            ssh_handshake_secret,
            ssh_handshake_skew_secs,
        }
    }

    /// The image of a sandbox that names none.
    pub fn default_image(&self) -> (image: &str)
        ensures
            image@ == self@.default_image,
    {
        self.default_image.as_str()
    }

    /// The address that the SSH server of a sandbox listens on.
    pub fn ssh_listen_addr(&self) -> (addr: &str)
        ensures
            addr@ == self@.ssh_listen_addr,
    {
        self.ssh_listen_addr.as_str()
    }

    /// The secret for the SSH handshake.
    pub fn ssh_handshake_secret(&self) -> (secret: &str)
        ensures
            secret@ == self@.ssh_handshake_secret,
    {
        self.ssh_handshake_secret.as_str()
    }

    /// The clock skew that the SSH handshake allows, in seconds.
    pub fn ssh_handshake_skew_secs(&self) -> (secs: u64)
        ensures
            secs == self@.ssh_handshake_skew_secs,
    {
        self.ssh_handshake_skew_secs
    }

    /// The environment of a sandbox.
    pub fn sandbox_env_vars(&self, sandbox: &Sandbox, details: &SandboxSpec) -> (environment: Vec<
        (String, String),
    >)
        ensures
            environment.deep_view() == environment_of(
                self@,
                sandbox.id@,
                sandbox.name@,
                details.environment.deep_view(),
            ),
    {
        let mut environment: Vec<(String, String)> = vec![
            ("OPENSHELL_GRPC_ENDPOINT".to_string(), self.grpc_endpoint.clone()),
            ("OPENSHELL_SSH_LISTEN_ADDR".to_string(), self.ssh_listen_addr.clone()),
            ("OPENSHELL_SSH_HANDSHAKE_SECRET".to_string(), self.ssh_handshake_secret.clone()),
            (
                "OPENSHELL_SSH_HANDSHAKE_SKEW_SECS".to_string(),
                decimal_text(self.ssh_handshake_skew_secs),
            ),
            ("OPENSHELL_SANDBOX_ID".to_string(), sandbox.id.clone()),
            ("OPENSHELL_SANDBOX_NAME".to_string(), sandbox.name.clone()),
        ];
        let ghost specified = details.environment.deep_view();
        let ghost own = environment_of(self@, sandbox.id@, sandbox.name@, Seq::empty());
        assert(environment.deep_view() =~= own + specified.take(0));
        let mut i: usize = 0;
        while i < details.environment.len()
            invariant
                i <= details.environment.len(),
                specified == details.environment.deep_view(),
                environment.deep_view() == own + specified.take(i as int),
            decreases details.environment.len() - i,
        {
            let ghost before = environment.deep_view();
            let key = details.environment[i].0.clone();
            let value = details.environment[i].1.clone();
            environment.push((key, value));
            assert(environment.deep_view() =~= before.push((key@, value@)));
            assert(specified.take(i + 1) =~= specified.take(i as int).push(specified[i as int]));
            i = i + 1;
        }
        assert(specified.take(i as int) =~= specified);
        assert(own + specified =~= environment_of(self@, sandbox.id@, sandbox.name@, specified));
        environment
    }
}

// ---------------------------------------------------------------------------
// Creation
// ---------------------------------------------------------------------------

/// What is next while a sandbox is created.
#[derive(Debug, Clone, Copy, PartialEq, Eq, Structural)]
pub enum CreateStage {
    /// List the images that are available locally.
    ListImages,
    /// Pull the image of the sandbox.
    PullImage,
    /// Create the container.
    CreateContainer,
    /// Start the container.
    StartContainer,
    /// Pause for [`NETWORK_WAIT_SECS`].
    AwaitNetwork,
    /// Set up the SSH server in the container.
    BootstrapSsh,
    /// Nothing: the sandbox is created and started.
    Created,
    /// Nothing: the sandbox could not be created.
    Failed,
}

/// What came of it.
#[derive(Debug)]
pub enum CreateEvent {
    /// A command was run.
    Ran(CommandResult),
    /// The pause is over.
    NetworkAwaited,
    /// The SSH server was set up, or could not be for this reason.
    SshBootstrapped(Result<(), String>),
}

/// How the SSH server of a sandbox is set up: as root, by `container exec`.
#[derive(Debug, Clone)]
pub struct SshBootstrap {
    /// Name of the container.
    pub container_name: String,
    /// Package that is installed.
    pub package: String,
    /// Arguments with which `container` installs it, before it is configured.
    pub install_arguments: Vec<String>,
    /// Port that the server is configured for.
    pub port: u16,
    /// Whether users log in with empty passwords.
    pub empty_passwords: bool,
    /// User ID that the user of the host gets in the VM.
    pub host_uid: u32,
    /// User of the image whose password is cleared, beside that of the host's user.
    pub image_user: String,
    /// Arguments with which `container` starts the server, once it is configured.
    pub start_arguments: Vec<String>,
}

/// The creation of a sandbox.
#[derive(Debug)]
pub struct SandboxCreation {
    image: String,
    container_name: String,
    environment: Vec<(String, String)>,
    stage: CreateStage,
    failure: Option<Status>,
    ssh_problem: Option<String>,
}

/// The state of the creation of a sandbox.
#[verifier::ext_equal]
pub struct CreationState {
    /// Image of the sandbox.
    pub image: Seq<char>,
    /// Name of the container.
    pub container_name: Seq<char>,
    /// Environment of the sandbox.
    pub environment: Seq<(Seq<char>, Seq<char>)>,
    /// What is next.
    pub stage: CreateStage,
    /// Why the sandbox could not be created.
    pub failure: Option<StatusText>,
    /// Why the SSH server could not be set up.
    pub ssh_problem: Option<Seq<char>>,
}

/// Where the creation of a sandbox stands when it begins.
pub open spec fn creation_begun(
    settings: ClientSettings,
    sandbox: Sandbox,
    details: SandboxSpec,
) -> CreationState {
    CreationState {
        image: image_of(details, settings.default_image),
        container_name: container_name_of(sandbox.name@),
        environment: environment_of(
            settings,
            sandbox.id@,
            sandbox.name@,
            details.environment.deep_view(),
        ),
        stage: CreateStage::ListImages,
        failure: None,
        ssh_problem: None,
    }
}

/// The arguments that set an environment, in order.
pub open spec fn environment_arguments(environment: Seq<(Seq<char>, Seq<char>)>) -> Seq<Seq<char>>
    decreases environment.len(),
{
    if environment.len() == 0 {
        Seq::empty()
    } else {
        environment_arguments(environment.drop_last()) + seq![
            "-e"@,
            environment.last().0 + "="@ + environment.last().1,
        ]
    }
}

/// The arguments with which `container` creates the container of a sandbox. The shell
/// keeps the VM alive: the default command of the base image exits without a terminal.
pub open spec fn create_arguments(
    image: Seq<char>,
    container_name: Seq<char>,
    environment: Seq<(Seq<char>, Seq<char>)>,
) -> Seq<Seq<char>> {
    seq!["create"@, "--name"@, container_name, "-d"@, "--entrypoint"@, "/bin/sh"@]
        + environment_arguments(environment) + seq![image, "-c"@, "exec sleep infinity"@]
}

/// The arguments of the `container` command that is next, where a command is.
pub open spec fn creation_command(state: CreationState) -> Option<Seq<Seq<char>>> {
    match state.stage {
        CreateStage::ListImages => Some(seq!["image"@, "list"@, "--format"@, "json"@]),
        CreateStage::PullImage => Some(seq!["image"@, "pull"@, state.image]),
        CreateStage::CreateContainer => Some(
            create_arguments(state.image, state.container_name, state.environment),
        ),
        CreateStage::StartContainer => Some(seq!["start"@, state.container_name]),
        _ => None,
    }
}

/// The arguments with which `container` installs the SSH server of a sandbox.
pub open spec fn ssh_install_arguments_of(container_name: Seq<char>) -> Seq<Seq<char>> {
    seq!["exec"@, "--uid"@, "0"@, container_name, "apt-get"@, "install"@, "openssh-server"@]
}

/// The arguments with which `container` starts the SSH server of a sandbox.
pub open spec fn ssh_start_arguments(container_name: Seq<char>) -> Seq<Seq<char>> {
    seq!["exec"@, "--uid"@, "0"@, container_name, "/usr/sbin/sshd"@, "-p"@, "2222"@]
}

/// Whether the output of `container image list` shows an image.
pub open spec fn image_listed(output: CommandOutput, image: Seq<char>) -> bool {
    &&& output.success
    &&& references_in(json_list(output.stdout@)) matches Ok(references)
    &&& references.contains(Some(image))
}

/// The failure of a command, if it failed.
pub open spec fn creation_problem(state: CreationState, result: CommandResult) -> Option<
    StatusText,
> {
    match (state.stage, result) {
        (CreateStage::ListImages, Err(error)) => Some(
            internal("failed to list images: "@ + error@),
        ),
        (CreateStage::PullImage, Err(error)) => Some(
            internal("failed to pull image: "@ + error@),
        ),
        (CreateStage::PullImage, Ok(output)) => if output.success {
            None
        } else {
            Some(
                internal(
                    "failed to pull image '"@ + state.image + "': "@ + output.stderr@,
                ),
            )
        },
        (CreateStage::CreateContainer, Err(error)) => Some(
            internal("failed to run container CLI: "@ + error@),
        ),
        (CreateStage::CreateContainer, Ok(output)) => if output.success {
            None
        } else if has_text(output.stderr@, "already exists"@) || has_text(
            output.stderr@,
            "already in use"@,
        ) {
            Some(
                StatusText {
                    code: Code::AlreadyExists,
                    message: "sandbox container '"@ + state.container_name + "' already exists"@,
                },
            )
        } else {
            Some(internal("failed to create sandbox container: "@ + output.stderr@))
        },
        (CreateStage::StartContainer, Err(error)) => Some(
            internal("failed to start container: "@ + error@),
        ),
        (CreateStage::StartContainer, Ok(output)) => if output.success {
            None
        } else {
            Some(internal("failed to start sandbox container: "@ + output.stderr@))
        },
        _ => None,
    }
}

/// What is next once a command has done its work.
pub open spec fn creation_next(state: CreationState, result: CommandResult) -> CreateStage {
    match state.stage {
        CreateStage::ListImages => if result matches Ok(output) && image_listed(
            output,
            state.image,
        ) {
            CreateStage::CreateContainer
        } else {
            CreateStage::PullImage
        },
        CreateStage::PullImage => CreateStage::CreateContainer,
        CreateStage::CreateContainer => CreateStage::StartContainer,
        CreateStage::StartContainer => CreateStage::AwaitNetwork,
        _ => state.stage,
    }
}

/// The creation after a command was run.
pub open spec fn command_done(state: CreationState, result: CommandResult) -> CreationState {
    match creation_problem(state, result) {
        Some(status) => CreationState {
            stage: CreateStage::Failed,
            failure: Some(status),
            ..state
        },
        None => CreationState { stage: creation_next(state, result), ..state },
    }
}

/// The creation after an event. An event that does not answer what was to be done changes
/// nothing. A sandbox whose SSH server could not be set up is created all the same: its
/// container runs.
pub open spec fn creation_after(state: CreationState, event: CreateEvent) -> CreationState {
    match event {
        CreateEvent::Ran(result) => command_done(state, result),
        CreateEvent::NetworkAwaited => if state.stage == CreateStage::AwaitNetwork {
            CreationState { stage: CreateStage::BootstrapSsh, ..state }
        } else {
            state
        },
        CreateEvent::SshBootstrapped(outcome) => if state.stage == CreateStage::BootstrapSsh {
            CreationState {
                stage: CreateStage::Created,
                ssh_problem: match outcome {
                    Ok(_) => None,
                    Err(problem) => Some(problem@),
                },
                ..state
            }
        } else {
            state
        },
    }
}

/// The creation after a run of events.
pub open spec fn creation_run(state: CreationState, events: Seq<CreateEvent>) -> CreationState
    decreases events.len(),
{
    if events.len() == 0 {
        state
    } else {
        creation_after(creation_run(state, events.drop_last()), events.last())
    }
}

impl View for SandboxCreation {
    type V = CreationState;

    closed spec fn view(&self) -> CreationState {
        CreationState {
            image: self.image@,
            container_name: self.container_name@,
            environment: self.environment.deep_view(),
            stage: self.stage,
            failure: self.failure.deep_view(),
            ssh_problem: self.ssh_problem.deep_view(),
        }
    }
}

impl AppleContainerSandboxClient {
    /// Begin to create a sandbox container, which is created and then started, and gets its
    /// SSH server once its network is there.
    pub fn create(&self, sandbox: &Sandbox) -> (creation: Result<SandboxCreation, Status>)
        ensures
            match creation {
                Ok(begun) => sandbox.sandbox_spec matches Some(details) && begun@
                    == creation_begun(self@, *sandbox, details),
                Err(status) => sandbox.sandbox_spec is None && status.deep_view() == (StatusText {
                    code: Code::InvalidArgument,
                    message: "sandbox spec is required"@,
                }),
            },
    {
        match &sandbox.sandbox_spec {
            Some(details) => {
                let mut image = self.default_image.clone();
                if let Some(template) = &details.template {
                    if !template.image.as_str().is_empty() {
                        image = template.image.clone();
                    }
                }
                Ok(
                    SandboxCreation {
                        image,
                        container_name: concat2(SANDBOX_PREFIX, sandbox.name.as_str()),
                        environment: self.sandbox_env_vars(sandbox, details),
                        stage: CreateStage::ListImages,
                        failure: None,
                        ssh_problem: None,
                    },
                )
            },
            None => Err(
                Status::new(Code::InvalidArgument, "sandbox spec is required".to_string()),
            ),
        }
    }
}

/// Whether `container image list` shows an image: the command exited with success, its
/// output could be read, and one of the references in it is that of the image.
pub fn image_is_available(
    success: bool,
    references: &Result<Vec<Option<String>>, String>,
    image: &str,
) -> (yes: bool)
    ensures
        yes == (success && (match references {
            Ok(listed) => listed.deep_view().contains(Some(image@)),
            Err(_) => false,
        })),
{
    if !success {
        return false;
    }
    match references {
        Ok(listed) => lists_reference(listed, image),
        Err(_) => false,
    }
}

impl SandboxCreation {
    /// What is next.
    pub fn stage(&self) -> (stage: CreateStage)
        ensures
            stage == self@.stage,
    {
        self.stage
    }

    /// The image of the sandbox.
    pub fn image(&self) -> (image: &str)
        ensures
            image@ == self@.image,
    {
        self.image.as_str()
    }

    /// Why the sandbox could not be created.
    pub fn failure(&self) -> (failure: Option<&Status>)
        ensures
            match failure {
                Some(status) => self@.failure == Some(status.deep_view()),
                None => self@.failure is None,
            },
    {
        self.failure.as_ref()
    }

    /// Why the SSH server could not be set up.
    pub fn ssh_problem(&self) -> (problem: Option<&String>)
        ensures
            match problem {
                Some(text) => self@.ssh_problem == Some(text@),
                None => self@.ssh_problem is None,
            },
    {
        self.ssh_problem.as_ref()
    }

    /// The arguments with which `container` installs the SSH server.
    pub fn ssh_install_arguments(&self) -> (arguments: Vec<String>)
        ensures
            arguments.deep_view() == ssh_install_arguments_of(self@.container_name),
    {
        let arguments: Vec<String> = vec![
            "exec".to_string(),
            "--uid".to_string(),
            "0".to_string(),
            self.container_name.clone(),
            "apt-get".to_string(),
            "install".to_string(),
            "openssh-server".to_string(),
        ];
        assert(arguments.deep_view() =~= ssh_install_arguments_of(self@.container_name));
        arguments
    }

    /// How the SSH server is set up.
    pub fn ssh_bootstrap(&self) -> (bootstrap: SshBootstrap)
        ensures
            bootstrap.container_name@ == self@.container_name,
            bootstrap.package@ == "openssh-server"@,
            bootstrap.install_arguments.deep_view() == ssh_install_arguments_of(
                self@.container_name,
            ),
            bootstrap.port == 2222,
            bootstrap.empty_passwords,
            bootstrap.host_uid == 1000,
            bootstrap.image_user@ == "sandbox"@,
            bootstrap.start_arguments.deep_view() == ssh_start_arguments(self@.container_name),
    {
        let start_arguments: Vec<String> = vec![
            "exec".to_string(),
            "--uid".to_string(),
            "0".to_string(),
            self.container_name.clone(),
            "/usr/sbin/sshd".to_string(),
            "-p".to_string(),
            "2222".to_string(),
        ];
        assert(start_arguments.deep_view() =~= ssh_start_arguments(self@.container_name));
        SshBootstrap {
            container_name: self.container_name.clone(),
            package: "openssh-server".to_string(),
            install_arguments: self.ssh_install_arguments(),
            port: SANDBOX_SSH_PORT,
            empty_passwords: true,
            host_uid: SANDBOX_HOST_UID,
            image_user: "sandbox".to_string(),
            start_arguments,
        }
    }

    /// The arguments of the `container` command that is next, where a command is.
    pub fn command(&self) -> (arguments: Option<Vec<String>>)
        ensures
            arguments.deep_view() == creation_command(self@),
    {
        match self.stage {
            CreateStage::ListImages => {
                let arguments: Vec<String> = vec![
                    "image".to_string(),
                    "list".to_string(),
                    "--format".to_string(),
                    "json".to_string(),
                ];
                assert(arguments.deep_view() =~= seq!["image"@, "list"@, "--format"@, "json"@]);
                Some(arguments)
            },
            CreateStage::PullImage => {
                let arguments: Vec<String> = vec![
                    "image".to_string(),
                    "pull".to_string(),
                    self.image.clone(),
                ];
                assert(arguments.deep_view() =~= seq!["image"@, "pull"@, self@.image]);
                Some(arguments)
            },
            CreateStage::CreateContainer => Some(self.create_command()),
            CreateStage::StartContainer => {
                let arguments: Vec<String> = vec!["start".to_string(), self.container_name.clone()];
                assert(arguments.deep_view() =~= seq!["start"@, self@.container_name]);
                Some(arguments)
            },
            _ => None,
        }
    }

    fn create_command(&self) -> (arguments: Vec<String>)
        ensures
            arguments.deep_view() == create_arguments(
                self@.image,
                self@.container_name,
                self@.environment,
            ),
    {
        let mut arguments: Vec<String> = vec![
            "create".to_string(),
            "--name".to_string(),
            self.container_name.clone(),
            "-d".to_string(),
            "--entrypoint".to_string(),
            "/bin/sh".to_string(),
        ];
        let ghost all = self.environment.deep_view();
        let ghost head = arguments.deep_view();
        assert(all.take(0) =~= Seq::empty());
        assert(head + environment_arguments(all.take(0)) =~= head);
        let mut i: usize = 0;
        while i < self.environment.len()
            invariant
                i <= self.environment.len(),
                all == self.environment.deep_view(),
                arguments.deep_view() == head + environment_arguments(all.take(i as int)),
            decreases self.environment.len() - i,
        {
            let ghost before = arguments.deep_view();
            arguments.push("-e".to_string());
            arguments.push(
                concat3(self.environment[i].0.as_str(), "=", self.environment[i].1.as_str()),
            );
            proof {
                let done = all.take(i + 1);
                let variable = seq!["-e"@, done.last().0 + "="@ + done.last().1];
                assert(done.drop_last() =~= all.take(i as int));
                assert(done.last() == self.environment@[i as int].deep_view());
                assert(arguments.deep_view() =~= before + variable);
                assert(before + variable =~= head + environment_arguments(done));
            }
            i = i + 1;
        }
        assert(all.take(i as int) =~= all);
        let ghost before = arguments.deep_view();
        arguments.push(self.image.clone());
        arguments.push("-c".to_string());
        arguments.push("exec sleep infinity".to_string());
        assert(arguments.deep_view() =~= before + seq![self.image@, "-c"@, "exec sleep infinity"@]);
        assert(head =~= seq![
            "create"@,
            "--name"@,
            self@.container_name,
            "-d"@,
            "--entrypoint"@,
            "/bin/sh"@,
        ]);
        arguments
    }

    /// Take note of what came of the last thing that was done.
    pub fn advance(&mut self, event: &CreateEvent)
        ensures
            final(self)@ == creation_after(old(self)@, *event),
    {
        match event {
            CreateEvent::Ran(result) => match self.problem(result) {
                Some(status) => {
                    self.stage = CreateStage::Failed;
                    self.failure = Some(status);
                },
                None => {
                    self.stage = self.next_stage(result);
                },
            },
            CreateEvent::NetworkAwaited => {
                if self.stage == CreateStage::AwaitNetwork {
                    self.stage = CreateStage::BootstrapSsh;
                }
            },
            CreateEvent::SshBootstrapped(outcome) => {
                if self.stage == CreateStage::BootstrapSsh {
                    self.stage = CreateStage::Created;
                    self.ssh_problem = match outcome {
                        Ok(_) => None,
                        Err(problem) => Some(problem.clone()),
                    };
                }
            },
        }
        assert(self@ =~= creation_after(old(self)@, *event));
    }

    fn next_stage(&self, result: &CommandResult) -> (stage: CreateStage)
        ensures
            stage == creation_next(self@, *result),
    {
        match self.stage {
            CreateStage::ListImages => match result {
                Ok(output) => {
                    let references = parse_references(output.stdout.as_str());
                    if image_is_available(output.success, &references, self.image.as_str()) {
                        CreateStage::CreateContainer
                    } else {
                        CreateStage::PullImage
                    }
                },
                Err(_) => CreateStage::PullImage,
            },
            CreateStage::PullImage => CreateStage::CreateContainer,
            CreateStage::CreateContainer => CreateStage::StartContainer,
            CreateStage::StartContainer => CreateStage::AwaitNetwork,
            _ => self.stage,
        }
    }

    fn problem(&self, result: &CommandResult) -> (problem: Option<Status>)
        ensures
            problem.deep_view() == creation_problem(self@, *result),
    {
        match (self.stage, result) {
            (CreateStage::ListImages, Err(error)) => Some(
                Status::internal(concat2("failed to list images: ", error.as_str())),
            ),
            (CreateStage::PullImage, Err(error)) => Some(
                Status::internal(concat2("failed to pull image: ", error.as_str())),
            ),
            (CreateStage::PullImage, Ok(output)) => if output.success {
                None
            } else {
                let mut message = concat3("failed to pull image '", self.image.as_str(), "': ");
                message.append(output.stderr.as_str());
                Some(Status::internal(message))
            },
            (CreateStage::CreateContainer, Err(error)) => Some(
                Status::internal(concat2("failed to run container CLI: ", error.as_str())),
            ),
            (CreateStage::CreateContainer, Ok(output)) => if output.success {
                None
            } else if contains_text(output.stderr.as_str(), "already exists") || contains_text(
                output.stderr.as_str(),
                "already in use",
            ) {
                Some(
                    Status::new(
                        Code::AlreadyExists,
                        concat3(
                            "sandbox container '",
                            self.container_name.as_str(),
                            "' already exists",
                        ),
                    ),
                )
            } else {
                Some(
                    Status::internal(
                        concat2("failed to create sandbox container: ", output.stderr.as_str()),
                    ),
                )
            },
            (CreateStage::StartContainer, Err(error)) => Some(
                Status::internal(concat2("failed to start container: ", error.as_str())),
            ),
            (CreateStage::StartContainer, Ok(output)) => if output.success {
                None
            } else {
                Some(
                    Status::internal(
                        concat2("failed to start sandbox container: ", output.stderr.as_str()),
                    ),
                )
            },
            _ => None,
        }
    }
}

// ---------------------------------------------------------------------------
// Deletion
// ---------------------------------------------------------------------------

/// The command that is next while a sandbox is deleted.
#[derive(Debug, Clone, Copy, PartialEq, Eq, Structural)]
pub enum DeleteStage {
    /// Stop the container.
    StopContainer,
    /// Delete the container.
    DeleteContainer,
    /// None: the deletion is over.
    Over,
}

/// The deletion of a sandbox.
#[derive(Debug)]
pub struct SandboxDeletion {
    container_name: String,
    stage: DeleteStage,
    deleted: bool,
    failure: Option<Status>,
}

/// The state of the deletion of a sandbox.
#[verifier::ext_equal]
pub struct DeletionState {
    /// Name of the container.
    pub container_name: Seq<char>,
    /// The command that is next.
    pub stage: DeleteStage,
    /// Whether the container was deleted.
    pub deleted: bool,
    /// Why the container could not be deleted.
    pub failure: Option<StatusText>,
}

/// Where the deletion of a sandbox stands when it begins.
pub open spec fn deletion_begun(name: Seq<char>) -> DeletionState {
    DeletionState {
        container_name: container_name_of(name),
        stage: DeleteStage::StopContainer,
        deleted: false,
        failure: None,
    }
}

/// Whether `container delete` shows that the container was deleted, or why it could not be.
pub open spec fn delete_outcome(result: CommandResult) -> Result<bool, StatusText> {
    match result {
        Err(error) => Err(internal("failed to run container CLI: "@ + error@)),
        Ok(output) => if output.success {
            Ok(true)
        } else if has_text(output.stderr@, "not found"@) || has_text(
            output.stderr@,
            "does not exist"@,
        ) {
            Ok(false)
        } else {
            Err(internal("failed to delete sandbox container: "@ + output.stderr@))
        },
    }
}

/// The deletion after a command was run. Whether the container could be stopped does not
/// matter: it may already be stopped.
pub open spec fn deletion_after(state: DeletionState, result: CommandResult) -> DeletionState {
    match state.stage {
        DeleteStage::StopContainer => DeletionState {
            stage: DeleteStage::DeleteContainer,
            ..state
        },
        DeleteStage::DeleteContainer => match delete_outcome(result) {
            Ok(deleted) => DeletionState { stage: DeleteStage::Over, deleted, ..state },
            Err(status) => DeletionState {
                stage: DeleteStage::Over,
                failure: Some(status),
                ..state
            },
        },
        DeleteStage::Over => state,
    }
}

impl View for SandboxDeletion {
    type V = DeletionState;

    closed spec fn view(&self) -> DeletionState {
        DeletionState {
            container_name: self.container_name@,
            stage: self.stage,
            deleted: self.deleted,
            failure: self.failure.deep_view(),
        }
    }
}

impl AppleContainerSandboxClient {
    /// Begin to delete a sandbox container, which is stopped and then deleted.
    pub fn delete(&self, name: &str) -> (deletion: SandboxDeletion)
        ensures
            deletion@ == deletion_begun(name@),
    {
        SandboxDeletion {
            container_name: concat2(SANDBOX_PREFIX, name),
            stage: DeleteStage::StopContainer,
            deleted: false,
            failure: None,
        }
    }
}

impl SandboxDeletion {
    /// What is next.
    pub fn stage(&self) -> (stage: DeleteStage)
        ensures
            stage == self@.stage,
    {
        self.stage
    }

    /// The arguments of the `container` command that is next.
    pub fn command(&self) -> (arguments: Option<Vec<String>>)
        ensures
            arguments.deep_view() == (match self@.stage {
                DeleteStage::StopContainer => Some(seq!["stop"@, self@.container_name]),
                DeleteStage::DeleteContainer => Some(seq!["delete"@, self@.container_name]),
                DeleteStage::Over => None,
            }),
    {
        let verb = match self.stage {
            DeleteStage::StopContainer => "stop",
            DeleteStage::DeleteContainer => "delete",
            DeleteStage::Over => {
                return None;
            },
        };
        let arguments: Vec<String> = vec![verb.to_string(), self.container_name.clone()];
        assert(arguments.deep_view() =~= seq![verb@, self@.container_name]);
        Some(arguments)
    }

    /// Take note of what the last command left.
    pub fn advance(&mut self, result: &CommandResult)
        ensures
            final(self)@ == deletion_after(old(self)@, *result),
    {
        match self.stage {
            DeleteStage::StopContainer => {
                self.stage = DeleteStage::DeleteContainer;
            },
            DeleteStage::DeleteContainer => {
                self.stage = DeleteStage::Over;
                match result {
                    Err(error) => {
                        self.failure = Some(
                            Status::internal(
                                concat2("failed to run container CLI: ", error.as_str()),
                            ),
                        );
                    },
                    Ok(output) => {
                        if output.success {
                            self.deleted = true;
                        } else if contains_text(output.stderr.as_str(), "not found")
                            || contains_text(output.stderr.as_str(), "does not exist") {
                            self.deleted = false;
                        } else {
                            self.failure = Some(
                                Status::internal(
                                    concat2(
                                        "failed to delete sandbox container: ",
                                        output.stderr.as_str(),
                                    ),
                                ),
                            );
                        }
                    },
                }
            },
            DeleteStage::Over => {},
        }
        assert(self@ =~= deletion_after(old(self)@, *result));
    }

    /// What came of the deletion, once it is over: whether the container was deleted, or
    /// why it could not be.
    pub fn outcome(self) -> (outcome: Option<Result<bool, Status>>)
        ensures
            match outcome {
                Some(Ok(deleted)) => self@.stage == DeleteStage::Over && self@.failure is None
                    && deleted == self@.deleted,
                Some(Err(status)) => self@.stage == DeleteStage::Over && self@.failure == Some(
                    status.deep_view(),
                ),
                None => self@.stage != DeleteStage::Over,
            },
    {
        match self.stage {
            DeleteStage::Over => match self.failure {
                Some(status) => Some(Err(status)),
                None => Some(Ok(self.deleted)),
            },
            _ => None,
        }
    }
}

// ---------------------------------------------------------------------------
// Lookup
// ---------------------------------------------------------------------------

/// The containers in the output of `container list`: none where the command failed, and an
/// error where it could not be run or its output cannot be read.
pub open spec fn containers_listed(listed: CommandResult) -> Result<
    Seq<ContainerText>,
    StatusText,
> {
    match listed {
        Err(error) => Err(internal("failed to list containers: "@ + error@)),
        Ok(output) => if !output.success {
            Ok(Seq::empty())
        } else {
            match containers_in(json_list(output.stdout@)) {
                Ok(containers) => Ok(containers),
                Err(message) => Err(
                    internal("failed to parse container list JSON: "@ + message),
                ),
            }
        },
    }
}

/// The address of a container on its first network, without the length of the network
/// prefix.
pub open spec fn address_in(containers: Seq<ContainerText>, id: Seq<char>) -> Option<Seq<char>> {
    match container_with_id(containers, id) {
        Some(container) => match container.ipv4_address {
            Some(address) => Some(before_char(address, '/')),
            None => None,
        },
        None => None,
    }
}

/// The phase of a sandbox whose container has this status.
pub open spec fn phase_of(status: Option<Seq<char>>) -> SandboxPhase {
    if status == Some("running"@) {
        SandboxPhase::Ready
    } else if status == Some("stopped"@) {
        SandboxPhase::Unknown
    } else {
        SandboxPhase::Provisioning
    }
}

/// The phase of a sandbox, or the error of one that has no container.
pub open spec fn phase_in(containers: Seq<ContainerText>, name: Seq<char>) -> Result<
    SandboxPhase,
    StatusText,
> {
    match container_with_id(containers, container_name_of(name)) {
        Some(container) => Ok(phase_of(container.status)),
        None => Err(
            StatusText {
                code: Code::NotFound,
                message: "sandbox '"@ + name + "' not found"@,
            },
        ),
    }
}

/// The address of the container of a sandbox, where it is listed with one.
pub fn listed_address(containers: &Vec<ContainerRecord>, name: &str) -> (address: Option<String>)
    ensures
        address.deep_view() == address_in(containers.deep_view(), container_name_of(name@)),
{
    let container_name = concat2(SANDBOX_PREFIX, name);
    match find_container(containers, container_name.as_str()) {
        Some(container) => match &container.ipv4_address {
            Some(address) => Some(text_before(address.as_str(), '/')),
            None => None,
        },
        None => None,
    }
}

/// The phase of a sandbox by the containers that are listed.
pub fn listed_phase(containers: &Vec<ContainerRecord>, name: &str) -> (phase: Result<
    SandboxPhase,
    Status,
>)
    ensures
        match phase {
            Ok(found) => phase_in(containers.deep_view(), name@) == Ok::<_, StatusText>(found),
            Err(status) => phase_in(containers.deep_view(), name@) == Err::<SandboxPhase, _>(
                status.deep_view(),
            ),
        },
{
    let container_name = concat2(SANDBOX_PREFIX, name);
    match find_container(containers, container_name.as_str()) {
        Some(container) => {
            if let Some(status) = &container.status {
                if *status == "running".to_string() {
                    return Ok(SandboxPhase::Ready);
                }
                if *status == "stopped".to_string() {
                    return Ok(SandboxPhase::Unknown);
                }
            }
            Ok(SandboxPhase::Provisioning)
        },
        None => Err(Status::new(Code::NotFound, concat3("sandbox '", name, "' not found"))),
    }
}

impl AppleContainerSandboxClient {
    /// The arguments with which `container` lists all containers.
    pub fn list_arguments(&self) -> (arguments: Vec<String>)
        ensures
            arguments.deep_view() == seq!["list"@, "--all"@, "--format"@, "json"@],
    {
        let arguments: Vec<String> = vec![
            "list".to_string(),
            "--all".to_string(),
            "--format".to_string(),
            "json".to_string(),
        ];
        assert(arguments.deep_view() =~= seq!["list"@, "--all"@, "--format"@, "json"@]);
        arguments
    }

    /// The containers in the output of `container list --all --format json`.
    pub fn list_containers_json(&self, listed: &CommandResult) -> (containers: Result<
        Vec<ContainerRecord>,
        Status,
    >)
        ensures
            match containers {
                Ok(records) => containers_listed(*listed) == Ok::<_, StatusText>(
                    records.deep_view(),
                ),
                Err(status) => containers_listed(*listed) == Err::<Seq<ContainerText>, _>(
                    status.deep_view(),
                ),
            },
    {
        match listed {
            Err(error) => Err(
                Status::internal(concat2("failed to list containers: ", error.as_str())),
            ),
            Ok(output) => {
                if !output.success {
                    let none: Vec<ContainerRecord> = Vec::new();
                    assert(none.deep_view() =~= Seq::empty());
                    return Ok(none);
                }
                match parse_containers(output.stdout.as_str()) {
                    Ok(records) => Ok(records),
                    Err(message) => Err(
                        Status::internal(
                            concat2("failed to parse container list JSON: ", message.as_str()),
                        ),
                    ),
                }
            },
        }
    }

    /// Get the vmnet IP address of a sandbox container, as it is written. `listed` is what
    /// `container list --all --format json` left.
    ///
    /// Apple Container VMs get routable IPs on the vmnet bridge (192.168.65.x).
    /// The gateway, running natively on macOS, can reach these IPs directly.
    pub fn sandbox_ip(&self, name: &str, listed: &CommandResult) -> (address: Result<
        Option<String>,
        Status,
    >)
        ensures
            match address {
                Ok(found) => containers_listed(*listed) matches Ok(containers)
                    && found.deep_view() == address_in(containers, container_name_of(name@)),
                Err(status) => containers_listed(*listed) == Err::<Seq<ContainerText>, _>(
                    status.deep_view(),
                ),
            },
    {
        match self.list_containers_json(listed) {
            Ok(containers) => Ok(listed_address(&containers, name)),
            Err(status) => Err(status),
        }
    }

    /// Check if a sandbox container exists and get its status. `listed` is what
    /// `container list --all --format json` left.
    pub fn get_sandbox_phase(&self, name: &str, listed: &CommandResult) -> (phase: Result<
        SandboxPhase,
        Status,
    >)
        ensures
            match containers_listed(*listed) {
                Ok(containers) => match phase {
                    Ok(found) => phase_in(containers, name@) == Ok::<_, StatusText>(found),
                    Err(status) => phase_in(containers, name@) == Err::<SandboxPhase, _>(
                        status.deep_view(),
                    ),
                },
                Err(problem) => phase matches Err(status) && status.deep_view() == problem,
            },
    {
        match self.list_containers_json(listed) {
            Ok(containers) => listed_phase(&containers, name),
            Err(status) => Err(status),
        }
    }
}

// ---------------------------------------------------------------------------
// Laws
// ---------------------------------------------------------------------------

/// Sandboxes with different names have different containers.
pub proof fn sandboxes_do_not_share_containers(one: Seq<char>, other: Seq<char>)
    requires
        container_name_of(one) == container_name_of(other),
    ensures
        one == other,
{
    let prefix = "openshell-sandbox-"@;
    assert(one =~= container_name_of(one).skip(prefix.len() as int));
    assert(other =~= container_name_of(other).skip(prefix.len() as int));
}

/// Every variable of an environment is set by one pair of arguments, and the pairs come in
/// the order of the variables.
pub proof fn every_variable_is_set(environment: Seq<(Seq<char>, Seq<char>)>, i: int)
    requires
        0 <= i < environment.len(),
    ensures
        environment_arguments(environment).len() == 2 * environment.len(),
        environment_arguments(environment)[2 * i] == "-e"@,
        environment_arguments(environment)[2 * i + 1] == environment[i].0 + "="@
            + environment[i].1,
    decreases environment.len(),
{
    lemma_two_arguments_each(environment);
    lemma_two_arguments_each(environment.drop_last());
    if i < environment.len() - 1 {
        every_variable_is_set(environment.drop_last(), i);
    }
}

proof fn lemma_two_arguments_each(environment: Seq<(Seq<char>, Seq<char>)>)
    ensures
        environment_arguments(environment).len() == 2 * environment.len(),
    decreases environment.len(),
{
    if environment.len() > 0 {
        lemma_two_arguments_each(environment.drop_last());
    }
}

/// How far the creation of a sandbox has come.
pub open spec fn create_rank(stage: CreateStage) -> int {
    match stage {
        CreateStage::ListImages => 0,
        CreateStage::PullImage => 1,
        CreateStage::CreateContainer => 2,
        CreateStage::StartContainer => 3,
        CreateStage::AwaitNetwork => 4,
        CreateStage::BootstrapSsh => 5,
        CreateStage::Created => 6,
        CreateStage::Failed => 6,
    }
}

/// Every event that the creation of a sandbox answers to brings it nearer to its end, and
/// it answers to every command that it asks for.
pub proof fn creation_makes_progress(state: CreationState, event: CreateEvent)
    ensures
        creation_after(state, event) != state ==> create_rank(state.stage) < create_rank(
            creation_after(state, event).stage,
        ),
        creation_command(state) is Some && event is Ran ==> creation_after(state, event) != state,
{
}

/// The creation of a sandbox that is over stays as it is.
pub proof fn finished_creation_stays(state: CreationState, events: Seq<CreateEvent>)
    requires
        state.stage == CreateStage::Created || state.stage == CreateStage::Failed,
    ensures
        creation_run(state, events) == state,
    decreases events.len(),
{
    if events.len() > 0 {
        finished_creation_stays(state, events.drop_last());
    }
}

/// Every command is about the sandbox that is created, and there is a failure exactly
/// where the creation has failed.
pub proof fn creation_keeps_its_sandbox(begun: CreationState, events: Seq<CreateEvent>)
    requires
        begun.stage == CreateStage::ListImages,
        begun.failure is None,
    ensures
        ({
            let state = creation_run(begun, events);
            &&& state.image == begun.image
            &&& state.container_name == begun.container_name
            &&& state.environment == begun.environment
            &&& state.failure is Some <==> state.stage == CreateStage::Failed
        }),
    decreases events.len(),
{
    if events.len() > 0 {
        creation_keeps_its_sandbox(begun, events.drop_last());
    }
}

/// Once the container was started, the creation does not fail: whatever comes of the SSH
/// server, the sandbox is created.
pub proof fn started_sandbox_is_created(state: CreationState, outcome: Result<(), String>)
    requires
        state.stage == CreateStage::AwaitNetwork,
    ensures
        ({
            let booted = creation_after(state, CreateEvent::NetworkAwaited);
            let over = creation_after(booted, CreateEvent::SshBootstrapped(outcome));
            &&& booted.stage == CreateStage::BootstrapSsh
            &&& over.stage == CreateStage::Created
            &&& over.failure == state.failure
            &&& over.ssh_problem is Some <==> outcome is Err
        }),
{
}

/// Whether a command was run with success at this stage.
pub open spec fn command_succeeded(
    begun: CreationState,
    events: Seq<CreateEvent>,
    stage: CreateStage,
) -> bool {
    exists|i: int|
        0 <= i < events.len() && (#[trigger] events[i] matches CreateEvent::Ran(Ok(output))
            && output.success) && creation_run(begun, events.take(i)).stage == stage
}

/// Whether the image of the sandbox was found in the list of images.
pub open spec fn image_was_found(begun: CreationState, events: Seq<CreateEvent>) -> bool {
    exists|i: int|
        0 <= i < events.len() && (#[trigger] events[i] matches CreateEvent::Ran(Ok(output))
            && image_listed(output, begun.image)) && creation_run(begun, events.take(i)).stage
            == CreateStage::ListImages
}

proof fn lemma_succeeded_in_longer(
    begun: CreationState,
    events: Seq<CreateEvent>,
    stage: CreateStage,
)
    requires
        events.len() > 0,
        command_succeeded(begun, events.drop_last(), stage),
    ensures
        command_succeeded(begun, events, stage),
{
    let shorter = events.drop_last();
    let i = choose|i: int|
        0 <= i < shorter.len() && (#[trigger] shorter[i] matches CreateEvent::Ran(Ok(output))
            && output.success) && creation_run(begun, shorter.take(i)).stage == stage;
    assert(shorter.take(i) =~= events.take(i));
    assert(events[i] == shorter[i]);
}

proof fn lemma_found_in_longer(begun: CreationState, events: Seq<CreateEvent>)
    requires
        events.len() > 0,
        image_was_found(begun, events.drop_last()),
    ensures
        image_was_found(begun, events),
{
    let shorter = events.drop_last();
    let i = choose|i: int|
        0 <= i < shorter.len() && (#[trigger] shorter[i] matches CreateEvent::Ran(Ok(output))
            && image_listed(output, begun.image)) && creation_run(begun, shorter.take(i)).stage
            == CreateStage::ListImages;
    assert(shorter.take(i) =~= events.take(i));
    assert(events[i] == shorter[i]);
}

/// A container is created only of an image that is available: it was found in the list of
/// images, or it was pulled. It is started only after it was created, and its network is
/// awaited and its SSH server set up only after it was started.
#[verifier::rlimit(40)]
pub proof fn sandbox_is_created_step_by_step(begun: CreationState, events: Seq<CreateEvent>)
    requires
        begun.stage == CreateStage::ListImages,
        begun.failure is None,
    ensures
        ({
            let stage = creation_run(begun, events).stage;
            &&& stage != CreateStage::Failed && create_rank(stage) >= 2 ==> image_was_found(
                begun,
                events,
            ) || command_succeeded(begun, events, CreateStage::PullImage)
            &&& stage != CreateStage::Failed && create_rank(stage) >= 3 ==> command_succeeded(
                begun,
                events,
                CreateStage::CreateContainer,
            )
            &&& stage != CreateStage::Failed && create_rank(stage) >= 4 ==> command_succeeded(
                begun,
                events,
                CreateStage::StartContainer,
            )
        }),
    decreases events.len(),
{
    if events.len() > 0 {
        let shorter = events.drop_last();
        let n = events.len() - 1;
        let before = creation_run(begun, shorter);
        assert(events.take(n) =~= shorter);
        assert(events[n] == events.last());
        sandbox_is_created_step_by_step(begun, shorter);
        creation_keeps_its_sandbox(begun, shorter);
        if image_was_found(begun, shorter) {
            lemma_found_in_longer(begun, events);
        }
        if command_succeeded(begun, shorter, CreateStage::PullImage) {
            lemma_succeeded_in_longer(begun, events, CreateStage::PullImage);
        }
        if command_succeeded(begun, shorter, CreateStage::CreateContainer) {
            lemma_succeeded_in_longer(begun, events, CreateStage::CreateContainer);
        }
        if command_succeeded(begun, shorter, CreateStage::StartContainer) {
            lemma_succeeded_in_longer(begun, events, CreateStage::StartContainer);
        }
        assert(creation_run(begun, events) == creation_after(before, events[n]));
    }
}

/// Deleting a sandbox takes two commands, and what came of the second alone decides the
/// outcome: a container that could not be stopped is deleted all the same.
pub proof fn deletion_does_not_depend_on_the_stop(
    name: Seq<char>,
    stopped: CommandResult,
    deleted: CommandResult,
)
    ensures
        ({
            let over = deletion_after(deletion_after(deletion_begun(name), stopped), deleted);
            &&& over.stage == DeleteStage::Over
            &&& match delete_outcome(deleted) {
                Ok(gone) => over.failure is None && over.deleted == gone,
                Err(status) => over.failure == Some(status),
            }
        }),
{
}

/// A sandbox without a container has no address and is not found, and a sandbox is found
/// exactly where its container is listed.
pub proof fn sandbox_is_found_by_its_container(containers: Seq<ContainerText>, name: Seq<char>)
    ensures
        phase_in(containers, name) is Err ==> address_in(containers, container_name_of(name))
            is None,
        phase_in(containers, name) is Ok <==> exists|i: int|
            0 <= i < containers.len() && #[trigger] containers[i].id == Some(
                container_name_of(name),
            ),
{
    lookup_finds_the_first(containers, container_name_of(name));
}

/// Where `container list` fails, no sandbox is found.
pub proof fn failed_listing_finds_nothing(output: CommandOutput, name: Seq<char>)
    requires
        !output.success,
    ensures
        containers_listed(Ok(output)) == Ok::<Seq<ContainerText>, StatusText>(Seq::empty()),
        phase_in(Seq::empty(), name) is Err,
        address_in(Seq::empty(), container_name_of(name)) is None,
{
}

/// The creation of a sandbox begins with its own container name, and with the image of its
/// template, or the default one where the template names none.
pub proof fn creation_begins_with_its_sandbox(
    settings: ClientSettings,
    sandbox: Sandbox,
    details: SandboxSpec,
)
    ensures
        ({
            let begun = creation_begun(settings, sandbox, details);
            &&& begun.container_name == "openshell-sandbox-"@ + sandbox.name@
            &&& (details.template matches Some(template) && template.image@.len() > 0)
                ==> begun.image == details.template->0.image@
            &&& !(details.template matches Some(template) && template.image@.len() > 0)
                ==> begun.image == settings.default_image
            &&& begun.stage == CreateStage::ListImages
            &&& begun.failure is None
            &&& begun.ssh_problem is None
        }),
{
}

/// A sandbox gets every variable that the user specified, in the order of the specification,
/// behind six that it needs itself. Nothing is left out and nothing is added.
pub proof fn sandbox_gets_its_whole_environment(
    settings: ClientSettings,
    sandbox: Sandbox,
    details: SandboxSpec,
    i: int,
)
    ensures
        ({
            let environment = creation_begun(settings, sandbox, details).environment;
            let specified = details.environment@;
            &&& environment.len() == 6 + specified.len()
            &&& 0 <= i < specified.len() ==> environment[6 + i] == (
                specified[i].0@,
                specified[i].1@,
            ) && environment.contains((specified[i].0@, specified[i].1@))
            &&& environment.contains(("OPENSHELL_GRPC_ENDPOINT"@, settings.grpc_endpoint))
            &&& environment.contains(("OPENSHELL_SSH_LISTEN_ADDR"@, settings.ssh_listen_addr))
            &&& environment.contains(
                ("OPENSHELL_SSH_HANDSHAKE_SECRET"@, settings.ssh_handshake_secret),
            )
            &&& environment.contains(
                (
                    "OPENSHELL_SSH_HANDSHAKE_SKEW_SECS"@,
                    decimal(settings.ssh_handshake_skew_secs as nat),
                ),
            )
            &&& environment.contains(("OPENSHELL_SANDBOX_ID"@, sandbox.id@))
            &&& environment.contains(("OPENSHELL_SANDBOX_NAME"@, sandbox.name@))
        }),
{
    let environment = creation_begun(settings, sandbox, details).environment;
    let specified = details.environment@;
    assert(environment[0] == ("OPENSHELL_GRPC_ENDPOINT"@, settings.grpc_endpoint));
    assert(environment[1] == ("OPENSHELL_SSH_LISTEN_ADDR"@, settings.ssh_listen_addr));
    assert(environment[2] == ("OPENSHELL_SSH_HANDSHAKE_SECRET"@, settings.ssh_handshake_secret));
    assert(environment[3] == (
        "OPENSHELL_SSH_HANDSHAKE_SKEW_SECS"@,
        decimal(settings.ssh_handshake_skew_secs as nat),
    ));
    assert(environment[4] == ("OPENSHELL_SANDBOX_ID"@, sandbox.id@));
    assert(environment[5] == ("OPENSHELL_SANDBOX_NAME"@, sandbox.name@));
    if 0 <= i < specified.len() {
        assert(environment[6 + i] == (specified[i].0@, specified[i].1@));
    }
}

/// What is run for a sandbox is about that sandbox, whatever came before: its image is pulled,
/// its container is created under its name, in the background, with a shell that keeps it
/// alive, and of its image, and that container is started.
pub proof fn commands_are_about_the_sandbox(
    settings: ClientSettings,
    sandbox: Sandbox,
    details: SandboxSpec,
    events: Seq<CreateEvent>,
)
    ensures
        ({
            let begun = creation_begun(settings, sandbox, details);
            let state = creation_run(begun, events);
            let command = creation_command(state);
            let name = "openshell-sandbox-"@ + sandbox.name@;
            &&& state.stage == CreateStage::ListImages ==> command == Some(
                seq!["image"@, "list"@, "--format"@, "json"@],
            )
            &&& state.stage == CreateStage::PullImage ==> command == Some(
                seq!["image"@, "pull"@, begun.image],
            )
            &&& state.stage == CreateStage::StartContainer ==> command == Some(
                seq!["start"@, name],
            )
            &&& state.stage == CreateStage::CreateContainer ==> {
                let arguments = command->0;
                let n = arguments.len() as int;
                &&& command is Some
                &&& n == 21 + 2 * details.environment@.len()
                &&& arguments.take(6) == seq![
                    "create"@,
                    "--name"@,
                    name,
                    "-d"@,
                    "--entrypoint"@,
                    "/bin/sh"@,
                ]
                &&& arguments.skip(n - 3) == seq![begun.image, "-c"@, "exec sleep infinity"@]
            }
            &&& command is Some <==> state.stage == CreateStage::ListImages || state.stage
                == CreateStage::PullImage || state.stage == CreateStage::CreateContainer
                || state.stage == CreateStage::StartContainer
        }),
{
    let begun = creation_begun(settings, sandbox, details);
    let state = creation_run(begun, events);
    creation_keeps_its_sandbox(begun, events);
    sandbox_gets_its_whole_environment(settings, sandbox, details, 0);
    if state.stage == CreateStage::CreateContainer {
        let arguments = creation_command(state)->0;
        let n = arguments.len() as int;
        lemma_two_arguments_each(state.environment);
        assert(arguments.take(6) =~= seq![
            "create"@,
            "--name"@,
            "openshell-sandbox-"@ + sandbox.name@,
            "-d"@,
            "--entrypoint"@,
            "/bin/sh"@,
        ]);
        assert(arguments.skip(n - 3) =~= seq![begun.image, "-c"@, "exec sleep infinity"@]);
    }
}

/// Every variable that the user specified reaches `container create`: `-e`, and directly behind
/// it the variable with its value.
pub proof fn every_specified_variable_is_passed(
    settings: ClientSettings,
    sandbox: Sandbox,
    details: SandboxSpec,
    events: Seq<CreateEvent>,
    i: int,
)
    requires
        0 <= i < details.environment@.len(),
        creation_run(creation_begun(settings, sandbox, details), events).stage
            == CreateStage::CreateContainer,
    ensures
        ({
            let state = creation_run(creation_begun(settings, sandbox, details), events);
            let arguments = creation_command(state)->0;
            let at = 18 + 2 * i;
            &&& creation_command(state) is Some
            &&& at + 1 < arguments.len()
            &&& arguments[at] == "-e"@
            &&& arguments[at + 1] == details.environment@[i].0@ + "="@
                + details.environment@[i].1@
        }),
{
    let begun = creation_begun(settings, sandbox, details);
    let state = creation_run(begun, events);
    creation_keeps_its_sandbox(begun, events);
    sandbox_gets_its_whole_environment(settings, sandbox, details, i);
    every_variable_is_set(state.environment, 6 + i);
    let arguments = creation_command(state)->0;
    let set = environment_arguments(state.environment);
    assert(arguments[18 + 2 * i] == set[2 * (6 + i)]);
    assert(arguments[19 + 2 * i] == set[2 * (6 + i) + 1]);
}

/// Every variable that a sandbox needs itself reaches `container create` too.
pub proof fn every_own_variable_is_passed(
    settings: ClientSettings,
    sandbox: Sandbox,
    details: SandboxSpec,
    events: Seq<CreateEvent>,
)
    requires
        creation_run(creation_begun(settings, sandbox, details), events).stage
            == CreateStage::CreateContainer,
    ensures
        ({
            let state = creation_run(creation_begun(settings, sandbox, details), events);
            let arguments = creation_command(state)->0;
            &&& creation_command(state) is Some
            &&& arguments.subrange(6, 18) == seq![
                "-e"@,
                "OPENSHELL_GRPC_ENDPOINT"@ + "="@ + settings.grpc_endpoint,
                "-e"@,
                "OPENSHELL_SSH_LISTEN_ADDR"@ + "="@ + settings.ssh_listen_addr,
                "-e"@,
                "OPENSHELL_SSH_HANDSHAKE_SECRET"@ + "="@ + settings.ssh_handshake_secret,
                "-e"@,
                "OPENSHELL_SSH_HANDSHAKE_SKEW_SECS"@ + "="@ + decimal(
                    settings.ssh_handshake_skew_secs as nat,
                ),
                "-e"@,
                "OPENSHELL_SANDBOX_ID"@ + "="@ + sandbox.id@,
                "-e"@,
                "OPENSHELL_SANDBOX_NAME"@ + "="@ + sandbox.name@,
            ]
        }),
{
    let begun = creation_begun(settings, sandbox, details);
    let state = creation_run(begun, events);
    creation_keeps_its_sandbox(begun, events);
    let environment = state.environment;
    let set = environment_arguments(environment);
    let arguments = creation_command(state)->0;
    lemma_two_arguments_each(environment);
    every_variable_is_set(environment, 0);
    every_variable_is_set(environment, 1);
    every_variable_is_set(environment, 2);
    every_variable_is_set(environment, 3);
    every_variable_is_set(environment, 4);
    every_variable_is_set(environment, 5);
    assert(arguments.subrange(6, 18) =~= set.take(12));
    assert(set.take(12) =~= seq![
        "-e"@,
        environment[0].0 + "="@ + environment[0].1,
        "-e"@,
        environment[1].0 + "="@ + environment[1].1,
        "-e"@,
        environment[2].0 + "="@ + environment[2].1,
        "-e"@,
        environment[3].0 + "="@ + environment[3].1,
        "-e"@,
        environment[4].0 + "="@ + environment[4].1,
        "-e"@,
        environment[5].0 + "="@ + environment[5].1,
    ]);
}

/// An image that is listed is not pulled, and one that is not listed is: the command exited
/// with success, its output is a list, and one of its entries has the image as the string
/// under `reference`.
pub proof fn image_is_pulled_where_it_is_not_listed(state: CreationState, output: CommandOutput)
    requires
        state.stage == CreateStage::ListImages,
    ensures
        ({
            let after = creation_after(state, CreateEvent::Ran(Ok(output)));
            let listed = output.success && (json_list(output.stdout@) matches Ok(values)
                && exists|i: int|
                0 <= i < values.len() && (#[trigger] values[i]).dom().contains(
                    seq!["reference"@],
                ) && values[i][seq!["reference"@]] == state.image);
            &&& listed ==> after.stage == CreateStage::CreateContainer
            &&& !listed ==> after.stage == CreateStage::PullImage
            &&& after.failure == state.failure
        }),
{
    if let Ok(values) = json_list(output.stdout@) {
        let references = references_in(json_list(output.stdout@))->Ok_0;
        if references.contains(Some(state.image)) {
            let i = choose|i: int|
                0 <= i < references.len() && references[i] == Some(state.image);
            assert(values[i].dom().contains(seq!["reference"@]));
        }
        if exists|i: int|
            0 <= i < values.len() && (#[trigger] values[i]).dom().contains(seq!["reference"@])
                && values[i][seq!["reference"@]] == state.image {
            let i = choose|i: int|
                0 <= i < values.len() && (#[trigger] values[i]).dom().contains(
                    seq!["reference"@],
                ) && values[i][seq!["reference"@]] == state.image;
            assert(references[i] == Some(state.image));
        }
    }
}

/// A command that succeeds brings the creation one step on: what was pulled is created, what
/// was created is started, and what was started gets time for its network, and then its SSH
/// server.
pub proof fn success_brings_the_creation_on(state: CreationState, output: CommandOutput)
    requires
        output.success,
    ensures
        ({
            let after = creation_after(state, CreateEvent::Ran(Ok(output)));
            &&& state.stage == CreateStage::PullImage ==> after.stage
                == CreateStage::CreateContainer && after.failure == state.failure
            &&& state.stage == CreateStage::CreateContainer ==> after.stage
                == CreateStage::StartContainer && after.failure == state.failure
            &&& state.stage == CreateStage::StartContainer ==> after.stage
                == CreateStage::AwaitNetwork && after.failure == state.failure
        }),
{
}

/// A command that fails ends the creation with what it complained of. A container that already
/// exists is told as such, and everything else is an internal failure.
pub proof fn failure_ends_the_creation(state: CreationState, output: CommandOutput)
    requires
        !output.success,
    ensures
        ({
            let after = creation_after(state, CreateEvent::Ran(Ok(output)));
            let taken = has_text(output.stderr@, "already exists"@) || has_text(
                output.stderr@,
                "already in use"@,
            );
            &&& state.stage == CreateStage::PullImage ==> after.stage == CreateStage::Failed
                && after.failure == Some(
                StatusText {
                    code: Code::Internal,
                    message: "failed to pull image '"@ + state.image + "': "@ + output.stderr@,
                },
            )
            &&& state.stage == CreateStage::CreateContainer && taken ==> after.stage
                == CreateStage::Failed && after.failure == Some(
                StatusText {
                    code: Code::AlreadyExists,
                    message: "sandbox container '"@ + state.container_name + "' already exists"@,
                },
            )
            &&& state.stage == CreateStage::CreateContainer && !taken ==> after.stage
                == CreateStage::Failed && after.failure == Some(
                StatusText {
                    code: Code::Internal,
                    message: "failed to create sandbox container: "@ + output.stderr@,
                },
            )
            &&& state.stage == CreateStage::StartContainer ==> after.stage == CreateStage::Failed
                && after.failure == Some(
                StatusText {
                    code: Code::Internal,
                    message: "failed to start sandbox container: "@ + output.stderr@,
                },
            )
        }),
{
}

/// A command that cannot be run ends the creation, with an internal failure that says which
/// command it was.
pub proof fn command_that_cannot_run_ends_the_creation(state: CreationState, error: String)
    ensures
        ({
            let after = creation_after(state, CreateEvent::Ran(Err(error)));
            &&& state.stage == CreateStage::ListImages ==> after.stage == CreateStage::Failed
                && after.failure == Some(
                StatusText {
                    code: Code::Internal,
                    message: "failed to list images: "@ + error@,
                },
            )
            &&& state.stage == CreateStage::PullImage ==> after.stage == CreateStage::Failed
                && after.failure == Some(
                StatusText {
                    code: Code::Internal,
                    message: "failed to pull image: "@ + error@,
                },
            )
            &&& state.stage == CreateStage::CreateContainer ==> after.stage == CreateStage::Failed
                && after.failure == Some(
                StatusText {
                    code: Code::Internal,
                    message: "failed to run container CLI: "@ + error@,
                },
            )
            &&& state.stage == CreateStage::StartContainer ==> after.stage == CreateStage::Failed
                && after.failure == Some(
                StatusText {
                    code: Code::Internal,
                    message: "failed to start container: "@ + error@,
                },
            )
        }),
{
}

/// What came of the SSH server is kept where it could not be set up.
pub proof fn ssh_problem_is_kept(state: CreationState, outcome: Result<(), String>)
    requires
        state.stage == CreateStage::BootstrapSsh,
    ensures
        ({
            let after = creation_after(state, CreateEvent::SshBootstrapped(outcome));
            &&& after.stage == CreateStage::Created
            &&& after.ssh_problem == (match outcome {
                Ok(_) => None,
                Err(problem) => Some(problem@),
            })
            &&& after.failure == state.failure
        }),
{
}

/// An event that does not answer what was to be done changes nothing, and no event changes the
/// image, the container or the environment.
pub proof fn creation_ignores_other_events(state: CreationState, event: CreateEvent)
    ensures
        ({
            let after = creation_after(state, event);
            &&& after.image == state.image
            &&& after.container_name == state.container_name
            &&& after.environment == state.environment
            &&& event is Ran && (state.stage == CreateStage::AwaitNetwork || state.stage
                == CreateStage::BootstrapSsh || state.stage == CreateStage::Created || state.stage
                == CreateStage::Failed) ==> after == state
            &&& event is NetworkAwaited && state.stage != CreateStage::AwaitNetwork ==> after
                == state
            &&& event is SshBootstrapped && state.stage != CreateStage::BootstrapSsh ==> after
                == state
        }),
{
}

/// The SSH server of a sandbox is installed and started by root in its own container, on the
/// port that it is reached at.
pub proof fn ssh_server_is_set_up_in_the_container(container_name: Seq<char>)
    ensures
        ssh_install_arguments_of(container_name) == seq![
            "exec"@,
            "--uid"@,
            "0"@,
            container_name,
            "apt-get"@,
            "install"@,
            "openssh-server"@,
        ],
        ssh_start_arguments(container_name) == seq![
            "exec"@,
            "--uid"@,
            "0"@,
            container_name,
            "/usr/sbin/sshd"@,
            "-p"@,
            "2222"@,
        ],
{
}

/// A sandbox is deleted by its own container: it is stopped, then deleted, and then the
/// deletion is over. It was deleted where `container delete` exited with success, and was not
/// where that found none. Anything else is an internal failure.
pub proof fn deletion_tells_what_became_of_the_container(
    name: Seq<char>,
    stopped: CommandResult,
    deleted: CommandResult,
    later: CommandResult,
)
    ensures
        ({
            let begun = deletion_begun(name);
            let halted = deletion_after(begun, stopped);
            let over = deletion_after(halted, deleted);
            &&& begun.container_name == "openshell-sandbox-"@ + name
            &&& begun.stage == DeleteStage::StopContainer
            &&& halted.container_name == begun.container_name
            &&& halted.stage == DeleteStage::DeleteContainer
            &&& over.stage == DeleteStage::Over
            &&& deletion_after(over, later) == over
            &&& match deleted {
                Ok(output) => {
                    let gone = has_text(output.stderr@, "not found"@) || has_text(
                        output.stderr@,
                        "does not exist"@,
                    );
                    &&& output.success ==> over.deleted && over.failure is None
                    &&& !output.success && gone ==> !over.deleted && over.failure is None
                    &&& !output.success && !gone ==> over.failure == Some(
                        StatusText {
                            code: Code::Internal,
                            message: "failed to delete sandbox container: "@ + output.stderr@,
                        },
                    )
                },
                Err(error) => over.failure == Some(
                    StatusText {
                        code: Code::Internal,
                        message: "failed to run container CLI: "@ + error@,
                    },
                ),
            }
        }),
{
}

/// The containers of a list are read where it could be had: a list that could not be had, or
/// cannot be read, is an internal failure, and a command that failed lists none.
pub proof fn listing_is_read_where_it_is_there(listed: CommandResult)
    ensures
        match listed {
            Err(error) => containers_listed(listed) == Err::<Seq<ContainerText>, _>(
                StatusText {
                    code: Code::Internal,
                    message: "failed to list containers: "@ + error@,
                },
            ),
            Ok(output) => if output.success {
                match json_list(output.stdout@) {
                    Ok(values) => containers_listed(listed) matches Ok(containers)
                        && containers.len() == values.len(),
                    Err(message) => containers_listed(listed) == Err::<Seq<ContainerText>, _>(
                        StatusText {
                            code: Code::Internal,
                            message: "failed to parse container list JSON: "@ + message,
                        },
                    ),
                }
            } else {
                containers_listed(listed) matches Ok(containers) && containers.len() == 0
            },
        },
{
}

/// A listed container is read by its paths in the document: its name at `configuration` and
/// `id`, its status at `status`, and its address at that of its first network.
pub proof fn listed_container_is_read_by_its_paths(output: CommandOutput, i: int)
    requires
        output.success,
        json_list(output.stdout@) matches Ok(values) && 0 <= i < values.len(),
    ensures
        ({
            let strings = json_list(output.stdout@)->Ok_0[i];
            let container = containers_listed(Ok(output))->Ok_0[i];
            let id = seq!["configuration"@, "id"@];
            let status = seq!["status"@];
            let address = seq!["networks"@, "0"@, "ipv4Address"@];
            &&& containers_listed(Ok(output)) is Ok
            &&& container.id == (if strings.dom().contains(id) {
                Some(strings[id])
            } else {
                None
            })
            &&& container.status == (if strings.dom().contains(status) {
                Some(strings[status])
            } else {
                None
            })
            &&& container.ipv4_address == (if strings.dom().contains(address) {
                Some(strings[address])
            } else {
                None
            })
        }),
{
}

/// A sandbox is looked up by the first container that has its name. It is ready where that is
/// running, in an unknown phase where it is stopped, and being set up otherwise. Its address
/// is that of the container without the length of the network prefix.
pub proof fn sandbox_is_what_its_container_is(
    containers: Seq<ContainerText>,
    name: Seq<char>,
    i: int,
)
    requires
        0 <= i < containers.len(),
        containers[i].id == Some("openshell-sandbox-"@ + name),
        forall|k: int|
            0 <= k < i ==> #[trigger] containers[k].id != Some("openshell-sandbox-"@ + name),
    ensures
        ({
            let container = containers[i];
            let phase = phase_in(containers, name);
            let address = address_in(containers, "openshell-sandbox-"@ + name);
            &&& container.status == Some("running"@) ==> phase == Ok::<_, StatusText>(
                SandboxPhase::Ready,
            )
            &&& container.status == Some("stopped"@) ==> phase == Ok::<_, StatusText>(
                SandboxPhase::Unknown,
            )
            &&& container.status != Some("running"@) && container.status != Some("stopped"@)
                ==> phase == Ok::<_, StatusText>(SandboxPhase::Provisioning)
            &&& container.ipv4_address is None ==> address is None
            &&& container.ipv4_address matches Some(text) ==> address == Some(
                before_char(text, '/'),
            )
        }),
{
    reveal_strlit("running");
    reveal_strlit("stopped");
    assert("running"@[0] == 'r' && "stopped"@[0] == 's');
    lookup_finds_the_first(containers, "openshell-sandbox-"@ + name);
    let found = container_with_id(containers, "openshell-sandbox-"@ + name)->0;
    let k = choose|k: int|
        0 <= k < containers.len() && #[trigger] containers[k] == found && found.id == Some(
            "openshell-sandbox-"@ + name,
        ) && forall|j: int|
            0 <= j < k ==> #[trigger] containers[j].id != Some("openshell-sandbox-"@ + name);
    assert(containers[k].id == Some("openshell-sandbox-"@ + name));
    assert(containers[i].id == Some("openshell-sandbox-"@ + name));
    assert(k == i);
}

/// An address is given without the length of its network prefix, and as it is where it has
/// none.
pub proof fn address_has_no_prefix_length(
    containers: Seq<ContainerText>,
    name: Seq<char>,
    i: int,
    address: Seq<char>,
    length: Seq<char>,
)
    requires
        0 <= i < containers.len(),
        containers[i].id == Some("openshell-sandbox-"@ + name),
        forall|k: int|
            0 <= k < i ==> #[trigger] containers[k].id != Some("openshell-sandbox-"@ + name),
        !address.contains('/'),
        containers[i].ipv4_address == Some(address) || containers[i].ipv4_address == Some(
            address + seq!['/'] + length,
        ),
    ensures
        address_in(containers, "openshell-sandbox-"@ + name) == Some(address),
{
    sandbox_is_what_its_container_is(containers, name, i);
    text_is_cut_at_the_separator(address, '/', length);
}

/// A sandbox of which no container is listed is not found by its name, and has no address.
pub proof fn sandbox_without_a_container_is_not_found(
    containers: Seq<ContainerText>,
    name: Seq<char>,
)
    requires
        forall|k: int|
            0 <= k < containers.len() ==> #[trigger] containers[k].id != Some(
                "openshell-sandbox-"@ + name,
            ),
    ensures
        phase_in(containers, name) == Err::<SandboxPhase, _>(
            StatusText { code: Code::NotFound, message: "sandbox '"@ + name + "' not found"@ },
        ),
        address_in(containers, "openshell-sandbox-"@ + name) is None,
{
    lookup_finds_the_first(containers, "openshell-sandbox-"@ + name);
}

/// A sandbox is created exactly where it says what it is created from, and then with its own
/// name, its image and every variable that was specified.
pub proof fn sandbox_is_created_as_specified(
    client: AppleContainerSandboxClient,
    sandbox: Sandbox,
    creation: Result<SandboxCreation, Status>,
    i: int,
)
    requires
        call_ensures(AppleContainerSandboxClient::create, (&client, &sandbox), creation),
    ensures
        creation is Ok <==> sandbox.sandbox_spec is Some,
        creation matches Err(status) ==> status.code == Code::InvalidArgument
            && status.message@ == "sandbox spec is required"@,
        creation matches Ok(begun) ==> {
            let details = sandbox.sandbox_spec->0;
            let named = details.template matches Some(template) && template.image@.len() > 0;
            &&& begun@.stage == CreateStage::ListImages
            &&& begun@.container_name == "openshell-sandbox-"@ + sandbox.name@
            &&& named ==> begun@.image == details.template->0.image@
            &&& !named ==> begun@.image == client@.default_image
            &&& begun@.environment.len() == 6 + details.environment@.len()
            &&& 0 <= i < details.environment@.len() ==> begun@.environment[6 + i] == (
                details.environment@[i].0@,
                details.environment@[i].1@,
            )
        },
{
    if let Some(details) = sandbox.sandbox_spec {
        creation_begins_with_its_sandbox(client@, sandbox, details);
        sandbox_gets_its_whole_environment(client@, sandbox, details, i);
    }
}

/// The environment of a sandbox holds every variable that was specified, and how the sandbox
/// reaches the gateway and is reached.
pub proof fn environment_holds_every_variable(
    client: AppleContainerSandboxClient,
    sandbox: Sandbox,
    details: SandboxSpec,
    environment: Vec<(String, String)>,
    i: int,
)
    requires
        call_ensures(
            AppleContainerSandboxClient::sandbox_env_vars,
            (&client, &sandbox, &details),
            environment,
        ),
        0 <= i < details.environment@.len(),
    ensures
        environment@.len() == 6 + details.environment@.len(),
        environment@[6 + i].0@ == details.environment@[i].0@,
        environment@[6 + i].1@ == details.environment@[i].1@,
        environment@[0].0@ == "OPENSHELL_GRPC_ENDPOINT"@,
        environment@[0].1@ == client@.grpc_endpoint,
        environment@[2].0@ == "OPENSHELL_SSH_HANDSHAKE_SECRET"@,
        environment@[2].1@ == client@.ssh_handshake_secret,
        environment@[4].0@ == "OPENSHELL_SANDBOX_ID"@,
        environment@[4].1@ == sandbox.id@,
        environment@[5].0@ == "OPENSHELL_SANDBOX_NAME"@,
        environment@[5].1@ == sandbox.name@,
{
    let all = environment.deep_view();
    let specified = details.environment.deep_view();
    assert(all.len() == environment@.len());
    assert(specified[i] == (details.environment@[i].0@, details.environment@[i].1@));
    assert(all[6 + i] == specified[i]);
    assert(all[0] == ("OPENSHELL_GRPC_ENDPOINT"@, client@.grpc_endpoint));
    assert(all[2] == ("OPENSHELL_SSH_HANDSHAKE_SECRET"@, client@.ssh_handshake_secret));
    assert(all[4] == ("OPENSHELL_SANDBOX_ID"@, sandbox.id@));
    assert(all[5] == ("OPENSHELL_SANDBOX_NAME"@, sandbox.name@));
}

/// The commands of a deletion name the container of the sandbox: it is stopped, then deleted,
/// and then no command is left.
pub proof fn deletion_runs_its_commands(
    client: AppleContainerSandboxClient,
    name: &str,
    deletion: SandboxDeletion,
    other: SandboxDeletion,
    first: Option<Vec<String>>,
    command: Option<Vec<String>>,
)
    requires
        call_ensures(AppleContainerSandboxClient::delete, (&client, name), deletion),
        call_ensures(SandboxDeletion::command, (&deletion,), first),
        call_ensures(SandboxDeletion::command, (&other,), command),
    ensures
        first.deep_view() == Some(seq!["stop"@, "openshell-sandbox-"@ + name@]),
        other@.stage == DeleteStage::DeleteContainer ==> command.deep_view() == Some(
            seq!["delete"@, other@.container_name],
        ),
        other@.stage == DeleteStage::Over ==> command is None,
{
}

/// What came of a deletion is told once it is over and not before: its failure where it has
/// one, and otherwise whether the container was deleted.
pub proof fn deletion_is_told_once_it_is_over(
    deletion: SandboxDeletion,
    outcome: Option<Result<bool, Status>>,
)
    requires
        call_ensures(SandboxDeletion::outcome, (deletion,), outcome),
    ensures
        outcome is Some <==> deletion@.stage == DeleteStage::Over,
        outcome matches Some(Ok(deleted)) ==> deleted == deletion@.deleted && deletion@.failure
            is None,
        outcome matches Some(Err(status)) ==> deletion@.failure == Some(
            StatusText { code: status.code, message: status.message@ },
        ),
{
}

/// Of one listing, a sandbox that has an address has a phase too, and where the listing could
/// not be had neither is told.
pub proof fn address_and_phase_come_of_one_listing(
    client: AppleContainerSandboxClient,
    name: &str,
    listed: CommandResult,
    address: Result<Option<String>, Status>,
    phase: Result<SandboxPhase, Status>,
)
    requires
        call_ensures(AppleContainerSandboxClient::sandbox_ip, (&client, name, &listed), address),
        call_ensures(
            AppleContainerSandboxClient::get_sandbox_phase,
            (&client, name, &listed),
            phase,
        ),
    ensures
        address matches Ok(Some(_)) ==> phase is Ok,
        address is Err ==> phase is Err,
        phase matches Err(status) ==> status.code == Code::NotFound || address is Err,
        listed is Err ==> address is Err,
{
    if let Ok(containers) = containers_listed(listed) {
        sandbox_is_found_by_its_container(containers, name@);
    }
}

/// The SSH server is set up in the container of the sandbox, for the port that it is reached
/// at, with the commands that install and start it.
pub proof fn ssh_server_is_set_up_for_the_sandbox(
    creation: SandboxCreation,
    bootstrap: SshBootstrap,
    install: Vec<String>,
)
    requires
        call_ensures(SandboxCreation::ssh_bootstrap, (&creation,), bootstrap),
        call_ensures(SandboxCreation::ssh_install_arguments, (&creation,), install),
    ensures
        bootstrap.container_name@ == creation@.container_name,
        bootstrap.package@ == "openssh-server"@,
        bootstrap.port == 2222,
        bootstrap.empty_passwords,
        bootstrap.host_uid == 1000,
        bootstrap.image_user@ == "sandbox"@,
        bootstrap.install_arguments.deep_view() == install.deep_view(),
        install.deep_view() == seq![
            "exec"@,
            "--uid"@,
            "0"@,
            creation@.container_name,
            "apt-get"@,
            "install"@,
            "openssh-server"@,
        ],
        bootstrap.start_arguments.deep_view() == seq![
            "exec"@,
            "--uid"@,
            "0"@,
            creation@.container_name,
            "/usr/sbin/sshd"@,
            "-p"@,
            "2222"@,
        ],
{
    ssh_server_is_set_up_in_the_container(creation@.container_name);
}

/// All containers are listed, also those that do not run, in a form that can be read.
pub proof fn all_containers_are_listed(
    client: AppleContainerSandboxClient,
    arguments: Vec<String>,
)
    requires
        call_ensures(AppleContainerSandboxClient::list_arguments, (&client,), arguments),
    ensures
        arguments.deep_view() == seq!["list"@, "--all"@, "--format"@, "json"@],
{
}

/// An image is available exactly where the command that lists images succeeded, its output
/// could be read, and one of the references in it is that of the image.
pub proof fn image_is_available_where_it_is_listed(
    success: bool,
    references: Result<Vec<Option<String>>, String>,
    image: &str,
    available: bool,
)
    requires
        call_ensures(image_is_available, (success, &references, image), available),
    ensures
        available <==> success && (references matches Ok(listed) && exists|i: int|
            0 <= i < listed@.len() && (#[trigger] listed@[i] matches Some(reference)
                && reference@ == image@)),
{
    if let Ok(listed) = references {
        let all = listed.deep_view();
        if all.contains(Some(image@)) {
            let i = choose|i: int| 0 <= i < all.len() && all[i] == Some(image@);
            assert(listed@[i].deep_view() == Some(image@));
        }
        if exists|i: int|
            0 <= i < listed@.len() && (#[trigger] listed@[i] matches Some(reference)
                && reference@ == image@) {
            let i = choose|i: int|
                0 <= i < listed@.len() && (#[trigger] listed@[i] matches Some(reference)
                    && reference@ == image@);
            assert(all[i] == Some(image@));
        }
    }
}

/// A client keeps the settings that it was made with.
pub proof fn client_keeps_its_settings(
    default_image: String,
    grpc_endpoint: String,
    ssh_listen_addr: String,
    ssh_handshake_secret: String,
    skew: u64,
    client: AppleContainerSandboxClient,
    image: &str,
    addr: &str,
    secret: &str,
    secs: u64,
)
    requires
        call_ensures(
            AppleContainerSandboxClient::new,
            (default_image, grpc_endpoint, ssh_listen_addr, ssh_handshake_secret, skew),
            client,
        ),
        call_ensures(AppleContainerSandboxClient::default_image, (&client,), image),
        call_ensures(AppleContainerSandboxClient::ssh_listen_addr, (&client,), addr),
        call_ensures(AppleContainerSandboxClient::ssh_handshake_secret, (&client,), secret),
        call_ensures(AppleContainerSandboxClient::ssh_handshake_skew_secs, (&client,), secs),
    ensures
        image@ == default_image@,
        addr@ == ssh_listen_addr@,
        secret@ == ssh_handshake_secret@,
        secs == skew,
        client@.grpc_endpoint == grpc_endpoint@,
{
}

}
