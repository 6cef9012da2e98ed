//! Editor-extension logic for provisioning and launching the UnoCSS
//! language server.
//!
//! The crate holds the decision logic only: which npm install steps to run
//! and in what order (`resolver`), how to turn the entry script's relative
//! path into a launch command (`paths`, `command`), and how to reshape
//! workspace settings for the server (`json`, `config`). The host editor's
//! effects (filesystem checks, version lookups, installs, notifications) are
//! performed outside this crate and fed in as events or plain values.

pub mod command;
pub mod config;
pub mod json;
pub mod paths;
pub mod resolver;
