//! Provisioning and lifecycle orchestration for ephemeral remote compute
//! instances, where each logical instance is a remote machine plus an
//! attached persistent volume.
//!
//! The crate is organised around a small set of pure components:
//! input parsing and validation (`parsers`, `value_parsers`), the entity
//! model and the state mapper (`types`), request framing and response
//! materialisation (`request`), a model of the remote control plane
//! (`plane`), the orchestration state machines (`orchestrator`), and the
//! operations that drive them (`machines`, `commands`, `sizes`).

pub mod numeric;
pub mod parsers;
pub mod value_parsers;
pub mod commands;
pub mod config;
pub mod machines;
pub mod orchestrator;
pub mod plane;
pub mod request;
pub mod sizes;
pub mod types;
