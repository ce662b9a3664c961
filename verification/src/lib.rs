//! Configuration resolution and request assembly for a release-automation
//! tool: command-line flags, an optional project configuration file and
//! facts gathered from the local workspace are merged, by fixed precedence
//! rules, into one canonical update request.

pub mod args;
pub mod config;
pub mod date;
pub mod errors;
pub mod forge;
pub mod laws;
pub mod repo_url;
pub mod request;
pub mod update;
