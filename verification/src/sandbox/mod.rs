//! Sandbox backend integration.
//!
//! Uses the Apple Container backend to manage sandboxes as Apple Container VMs
//! via the `container` CLI.

pub mod apple_container;
pub mod bridge_client;
pub mod listing;

use vstd::prelude::*;

use crate::command::CommandResult;
use crate::sandbox::apple_container::{
    address_in, container_name_of, containers_listed, creation_begun, deletion_begun,
    AppleContainerSandboxClient, ClientSettings, SandboxCreation, SandboxDeletion,
};
use crate::status::{Code, Status, StatusText};

verus! {

/// A sandbox.
#[derive(Debug, Clone)]
pub struct Sandbox {
    /// Identifier of the sandbox.
    pub id: String,
    /// Name of the sandbox.
    pub name: String,
    /// What the sandbox is created from.
    pub sandbox_spec: Option<SandboxSpec>,
}

/// What a sandbox is created from.
#[derive(Debug, Clone)]
pub struct SandboxSpec {
    /// Template of the sandbox.
    pub template: Option<SandboxTemplate>,
    /// Environment variables that the user specified.
    pub environment: Vec<(String, String)>,
}

/// The template of a sandbox.
#[derive(Debug, Clone)]
pub struct SandboxTemplate {
    /// Image of the sandbox. Empty for the default image.
    pub image: String,
}

/// The phase that a sandbox is in.
#[derive(Debug, Clone, Copy, PartialEq, Eq, Structural)]
pub enum SandboxPhase {
    /// It is being set up.
    Provisioning,
    /// It is running.
    Ready,
    /// It is in a phase that is not known.
    Unknown,
}

impl Sandbox {
    /// The type under which sandboxes are stored.
    pub fn object_type() -> (name: &'static str)
        ensures
            name@ == "sandbox"@,
    {
        "sandbox"
    }

    /// The identifier under which the sandbox is stored.
    pub fn object_id(&self) -> (id: &str)
        ensures
            id@ == self.id@,
    {
        self.id.as_str()
    }

    /// The name under which the sandbox is stored.
    pub fn object_name(&self) -> (name: &str)
        ensures
            name@ == self.name@,
    {
        self.name.as_str()
    }
}

/// Backend-agnostic sandbox manager.
///
/// Wraps the Apple Container sandbox client for all sandbox operations.
#[derive(Clone, Debug)]
pub enum SandboxBackend {
    AppleContainer(AppleContainerSandboxClient),
}

/// The settings of the client behind a backend.
pub open spec fn backend_settings(backend: SandboxBackend) -> ClientSettings {
    match backend {
        SandboxBackend::AppleContainer(client) => client@,
    }
}

impl SandboxBackend {
    /// The image of a sandbox that names none.
    pub fn default_image(&self) -> (image: &str)
        ensures
            image@ == backend_settings(*self).default_image,
    {
        let SandboxBackend::AppleContainer(c) = self;
        c.default_image()
    }

    /// The secret for the SSH handshake.
    pub fn ssh_handshake_secret(&self) -> (secret: &str)
        ensures
            secret@ == backend_settings(*self).ssh_handshake_secret,
    {
        let SandboxBackend::AppleContainer(c) = self;
        c.ssh_handshake_secret()
    }

    /// The clock skew that the SSH handshake allows, in seconds.
    pub fn ssh_handshake_skew_secs(&self) -> (secs: u64)
        ensures
            secs == backend_settings(*self).ssh_handshake_skew_secs,
    {
        let SandboxBackend::AppleContainer(c) = self;
        c.ssh_handshake_skew_secs()
    }

    /// The address that the SSH server of a sandbox listens on.
    pub fn ssh_listen_addr(&self) -> (addr: &str)
        ensures
            addr@ == backend_settings(*self).ssh_listen_addr,
    {
        let SandboxBackend::AppleContainer(c) = self;
        c.ssh_listen_addr()
    }

    /// Validate GPU support. Apple Container does not support GPU passthrough.
    pub fn validate_gpu_support(&self) -> (validated: Result<(), Status>)
        ensures
            validated matches Err(status) && status.deep_view() == (StatusText {
                code: Code::Unimplemented,
                message: "GPU support is not available with the Apple Container backend"@,
            }),
    {
        Err(
            Status::new(
                Code::Unimplemented,
                "GPU support is not available with the Apple Container backend".to_string(),
            ),
        )
    }

    /// Begin to create a sandbox.
    pub fn create(&self, sandbox: &Sandbox) -> (creation: Result<SandboxCreation, Status>)
        ensures
            match creation {
                Ok(begun) => sandbox.sandbox_spec matches Some(details) && begun@
                    == creation_begun(backend_settings(*self), *sandbox, details),
                Err(status) => sandbox.sandbox_spec is None && status.deep_view() == (StatusText {
                    code: Code::InvalidArgument,
                    message: "sandbox spec is required"@,
                }),
            },
    {
        let SandboxBackend::AppleContainer(c) = self;
        c.create(sandbox)
    }

    /// Begin to delete a sandbox.
    pub fn delete(&self, name: &str) -> (deletion: SandboxDeletion)
        ensures
            deletion@ == deletion_begun(name@),
    {
        let SandboxBackend::AppleContainer(c) = self;
        c.delete(name)
    }

    /// Resolve the IP address of a sandbox for SSH tunnelling. `listed` is what
    /// `container list --all --format json` left.
    pub fn sandbox_ip(&self, sandbox: &Sandbox, listed: &CommandResult) -> (address: Result<
        Option<String>,
        Status,
    >)
        ensures
            match address {
                Ok(found) => containers_listed(*listed) matches Ok(containers)
                    && found.deep_view() == address_in(containers, container_name_of(
                    sandbox.name@,
                )),
                Err(status) => containers_listed(*listed) == Err::<Seq<listing::ContainerText>, _>(
                    status.deep_view(),
                ),
            },
    {
        let SandboxBackend::AppleContainer(c) = self;
        c.sandbox_ip(sandbox.name.as_str(), listed)
    }
}

// ---------------------------------------------------------------------------
// Laws
// ---------------------------------------------------------------------------

/// What is asked of a backend is asked of its client: it creates and deletes the same sandbox,
/// and finds it at the same address.
pub proof fn backend_does_what_its_client_does(
    client: AppleContainerSandboxClient,
    backend: SandboxBackend,
    sandbox: Sandbox,
    name: &str,
    listed: CommandResult,
    creation: Result<SandboxCreation, Status>,
    own_creation: Result<SandboxCreation, Status>,
    deletion: SandboxDeletion,
    own_deletion: SandboxDeletion,
    address: Result<Option<String>, Status>,
    own_address: Result<Option<String>, Status>,
)
    requires
        backend == SandboxBackend::AppleContainer(client),
        name@ == sandbox.name@,
        call_ensures(SandboxBackend::create, (&backend, &sandbox), creation),
        call_ensures(AppleContainerSandboxClient::create, (&client, &sandbox), own_creation),
        call_ensures(SandboxBackend::delete, (&backend, name), deletion),
        call_ensures(AppleContainerSandboxClient::delete, (&client, name), own_deletion),
        call_ensures(SandboxBackend::sandbox_ip, (&backend, &sandbox, &listed), address),
        call_ensures(
            AppleContainerSandboxClient::sandbox_ip,
            (&client, name, &listed),
            own_address,
        ),
    ensures
        creation is Ok <==> own_creation is Ok,
        creation matches Ok(begun) ==> begun@ == own_creation->Ok_0@,
        creation is Ok <==> sandbox.sandbox_spec is Some,
        deletion@ == own_deletion@,
        deletion@.container_name == "openshell-sandbox-"@ + name@,
        address is Ok <==> own_address is Ok,
        address matches Ok(found) ==> found.deep_view() == own_address->Ok_0.deep_view(),
{
}

/// A backend has the settings of its client, stores sandboxes by their identifier and name, and
/// never supports a GPU.
pub proof fn backend_has_the_settings_of_its_client(
    client: AppleContainerSandboxClient,
    backend: SandboxBackend,
    sandbox: Sandbox,
    image: &str,
    secret: &str,
    skew: u64,
    addr: &str,
    gpu: Result<(), Status>,
    id: &str,
    name: &str,
)
    requires
        backend == SandboxBackend::AppleContainer(client),
        call_ensures(SandboxBackend::default_image, (&backend,), image),
        call_ensures(SandboxBackend::ssh_handshake_secret, (&backend,), secret),
        call_ensures(SandboxBackend::ssh_handshake_skew_secs, (&backend,), skew),
        call_ensures(SandboxBackend::ssh_listen_addr, (&backend,), addr),
        call_ensures(SandboxBackend::validate_gpu_support, (&backend,), gpu),
        call_ensures(Sandbox::object_id, (&sandbox,), id),
        call_ensures(Sandbox::object_name, (&sandbox,), name),
    ensures
        image@ == client@.default_image,
        secret@ == client@.ssh_handshake_secret,
        skew == client@.ssh_handshake_skew_secs,
        addr@ == client@.ssh_listen_addr,
        gpu matches Err(status) && status.code == Code::Unimplemented && status.message@
            == "GPU support is not available with the Apple Container backend"@,
        id@ == sandbox.id@,
        name@ == sandbox.name@,
{
}

}
