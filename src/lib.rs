//! Provisioning of the TOML language server for a Lapce plugin: the choice
//! between a configured server and an installed one, the platform and build
//! to install, and the launch request handed to the host.
pub mod platform;
pub mod error;
pub mod config;
pub mod locator;
pub mod artifact;
pub mod session;
pub mod request;
pub mod laws;
