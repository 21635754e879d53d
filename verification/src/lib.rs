//! Runtime substrate of a sandboxed module-execution platform.
//!
//! The crate holds the decisions of two components and proves them:
//! the bridge between one-shot host callbacks and owned continuations
//! (`marshal`, `raw`), and the control plane that owns the registry of
//! loaded modules (`manager`, over the model in `registry`). Nothing
//! here touches the host: every operation is split into a request that
//! the embedding program performs and a completion that this crate
//! interprets.

pub mod config;
pub mod error;
pub mod ice_server;
pub mod manager;
pub mod marshal;
pub mod messages;
pub mod raw;
pub mod registry;
