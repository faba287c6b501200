//! Scaffolding for new Burn projects: the backend catalogue, the manifest
//! patch, the template contexts and the pipeline that sequences them.
//!
//! Every decision of the pipeline is a verified function from plain values to
//! plain values. Running processes and touching the file system is left to the
//! caller, which feeds the outcomes back in as events.

pub mod backend;
pub mod context;
pub mod manifest;
pub mod pipeline;
pub mod render;
pub mod utils;
