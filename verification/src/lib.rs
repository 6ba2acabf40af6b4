//! Verified core of a prompt-to-shell-command tool: a persistent prompt
//! cache, the interactive workflow that decides when a cached command is
//! reused, invalidated or regenerated, shell identity resolution, and the
//! text handling around the model backends.

pub mod cache;
pub mod gateway;
pub mod model;
pub mod shell;
pub mod text;
pub mod workflow;
