//! Resolution of devcontainer configuration files.
//!
//! The library parses a devcontainer configuration (a JSON object with
//! `//`-style line comments) into a [`config::Devcontainer`] and resolves
//! which of several candidate files in a workspace supplies it, with a
//! built-in default when none exists. All filesystem access stays with the
//! caller: the locator works on a [`locate::Workspace`] snapshot of the
//! candidate files' contents.

pub mod config;
pub mod locate;
pub mod strip;
