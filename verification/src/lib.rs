//! Lifecycle management for a single background service.
//!
//! One uniform contract — install, uninstall, start, stop — drives three
//! platform service managers (Windows SCM, systemd, launchd). This crate
//! holds the platform-agnostic core: the logical service state and the
//! mappings from each platform's native vocabulary onto it, the typed error
//! taxonomy, the bounded convergence poller, the decision logic of the four
//! lifecycle operations, and the rendering of the installation artifacts
//! (systemd unit, launchd plist) and of the elevation command. The thin
//! shell that issues the actual platform calls lives outside and feeds the
//! observed states and call outcomes into these functions.

pub mod descriptor;
pub mod error;
pub mod lifecycle;
pub mod poller;
pub mod privilege;
pub mod state;
