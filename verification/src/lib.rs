//! Locates and loads the single configuration file for the `up` command-line
//! tool.
//!
//! Resolution walks a deterministic precedence chain — the explicit `--config`
//! argument, the `UP_CONFIG` override variable, then an XDG-style default
//! under `XDG_CONFIG_HOME` or `HOME` — and loading turns the file's bytes into
//! a schema-checked [`schema::ConfigToml`], rejecting every unrecognized key.
//!
//! All environment and filesystem state comes in as plain snapshot values
//! ([`snapshot::EnvSnapshot`], [`snapshot::FsView`]), so resolution and
//! loading are pure functions of their arguments.

pub mod config;
pub mod raw;
pub mod resolve;
pub mod schema;
pub mod snapshot;
pub mod toml_text;
