//! The shared logical service state, and the mappings from each platform's
//! native status vocabulary onto it.
//!
//! Every backend normalizes its native status at the boundary, so that the
//! poller and the lifecycle decisions are platform-agnostic. `NotInstalled`
//! means the installation artifact (SCM database entry, unit file, plist)
//! is absent; it is a valid logical state, never an error of the query.

use vstd::prelude::*;

verus! {

/// The logical state of the managed service, queried live from the OS.
#[derive(Clone, Copy, Debug, PartialEq, Eq, Structural)]
pub enum ServiceState {
    /// No installation artifact exists for the service.
    NotInstalled,
    /// Installed, not running.
    Stopped,
    /// A start was issued and has not settled yet.
    StartPending,
    /// Installed and running.
    Running,
    /// A stop was issued and has not settled yet.
    StopPending,
    /// The platform reported a status outside the recognized vocabulary.
    Unknown,
}

/// Maps a Windows SCM `SERVICE_STATUS.dwCurrentState` code onto the logical
/// state. The SCM vocabulary: 1 stopped, 2 start pending, 3 stop pending,
/// 4 running; the pause family (5 continue pending, 6 pause pending,
/// 7 paused) has no logical counterpart here and reads as `Unknown`.
pub fn state_from_scm_code(code: u32) -> (s: ServiceState)
    ensures
        s == spec_state_from_scm_code(code),
{
    if code == 1 {
        ServiceState::Stopped
    } else if code == 2 {
        ServiceState::StartPending
    } else if code == 3 {
        ServiceState::StopPending
    } else if code == 4 {
        ServiceState::Running
    } else {
        ServiceState::Unknown
    }
}

/// What `state_from_scm_code` returns for each code.
pub open spec fn spec_state_from_scm_code(code: u32) -> ServiceState {
    if code == 1 {
        ServiceState::Stopped
    } else if code == 2 {
        ServiceState::StartPending
    } else if code == 3 {
        ServiceState::StopPending
    } else if code == 4 {
        ServiceState::Running
    } else {
        ServiceState::Unknown
    }
}

/// Maps the trimmed stdout of `systemctl is-active <name>` onto the logical
/// state: `active` is running, `inactive` is stopped, `activating` and
/// `deactivating` are the two pending phases, anything else is `Unknown`.
pub fn state_from_systemd_output(output: &str) -> (s: ServiceState)
    ensures
        s == spec_state_from_systemd_output(output@),
{
    let owned = output.to_owned();
    if owned == "active".to_owned() {
        ServiceState::Running
    } else if owned == "inactive".to_owned() {
        ServiceState::Stopped
    } else if owned == "activating".to_owned() {
        ServiceState::StartPending
    } else if owned == "deactivating".to_owned() {
        ServiceState::StopPending
    } else {
        ServiceState::Unknown
    }
}

/// What `state_from_systemd_output` returns for each output.
pub open spec fn spec_state_from_systemd_output(output: Seq<char>) -> ServiceState {
    if output == "active"@ {
        ServiceState::Running
    } else if output == "inactive"@ {
        ServiceState::Stopped
    } else if output == "activating"@ {
        ServiceState::StartPending
    } else if output == "deactivating"@ {
        ServiceState::StopPending
    } else {
        ServiceState::Unknown
    }
}

/// Maps the outcome of `launchctl list <label>` onto the logical state:
/// launchd knows the label (exit status 0) exactly when the daemon is
/// loaded and running; otherwise it is stopped. The artifact's existence
/// is checked separately, so `NotInstalled` never comes from here.
pub fn state_from_launchctl_list(label_known: bool) -> (s: ServiceState)
    ensures
        label_known ==> s == ServiceState::Running,
        !label_known ==> s == ServiceState::Stopped,
{
    if label_known {
        ServiceState::Running
    } else {
        ServiceState::Stopped
    }
}

} // verus!
