//! OpenShell gateway bootstrap and sandbox management.

pub mod command;
pub mod config;
pub mod container_runtime;
pub mod deploy;
pub mod error;
pub mod errors;
pub mod image;
pub mod json;
pub mod metadata;
pub mod paths;
pub mod readiness;
pub mod runtime_apple;
pub mod sandbox;
pub mod secret;
pub mod server;
pub mod server_binary;
pub mod status;
pub mod text;
