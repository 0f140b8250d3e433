//! State reconciliation for the two mod loaders of one game installation:
//! version ordering and compatibility, the shared bootstrap configuration,
//! and the join of a mods directory with its metadata registry.
//!
//! Nothing here touches the disk or the network. Every operation takes what
//! was observed as plain values and returns the decision as a plain value.

pub mod archive;
pub mod bootstrap;
pub mod config;
pub mod discovery;
pub mod error;
pub mod loader;
pub mod metadata;
pub mod registry;
pub mod settings;
pub mod text;
pub mod version;
