//! Verified core of the Mojo language support for the Zed editor: toolchain
//! discovery decisions, modular.cfg parsing, run-task and debug-configuration
//! handling.

pub mod args;
pub mod config;
pub mod debug;
pub mod discovery;
pub mod extension;
pub mod json;
pub mod laws;
pub mod process;
pub mod scenario;
pub mod session;
pub mod startup;
pub mod text;
pub mod worktree;

pub use extension::MojoExtension;
