# openshell

A verified library for OpenShell gateways and sandboxes on Apple Container, written in
Verus, with an ordinary Rust shell around it.

- `src/` holds the library: everything that is decided or computed, from plain values to
  plain values. Every function states its result in its contract, and the properties that
  span functions are public proof functions at the end of their modules.
- `app/` runs commands, reads and writes files, talks to processes and serves connections.
- `tests/` runs the library.

| Module | What it is about |
| ------ | ---------------- |
| `deploy`, `readiness` | deploying a gateway and waiting for it, as state machines |
| `runtime_apple`, `container_runtime`, `server_binary`, `secret` | a gateway as a native process |
| `metadata`, `paths`, `image` | records of gateways, paths and image references |
| `errors` | diagnosis of failures |
| `sandbox` | sandboxes as Apple Container VMs, and the container bridge daemon |
| `config`, `server`, `error`, `status` | the server: configuration, start and shutdown |
| `json`, `command`, `text` | JSON documents, command output and text |

The library trusts a few items of `std`, `serde_json` and `tonic`. Each of them is declared
with a doc comment that says what is claimed of it: in `text.rs`, `command.rs`, `config.rs`,
`json.rs` and `sandbox/bridge_client.rs`.
