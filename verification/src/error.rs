//! The typed failure taxonomy of the four lifecycle operations.

use vstd::prelude::*;
use crate::state::ServiceState;

verus! {

/// Why a lifecycle operation failed. Every native or OS error surfaces as
/// one of these; no operation swallows a failure except the documented
/// tolerances (a spurious native start/stop call error before polling, and
/// a status-query failure while polling toward `Stopped`).
#[derive(Clone, Copy, Debug, PartialEq, Eq)]
pub enum ServiceError {
    /// A native call was rejected for lack of privilege.
    PermissionDenied,
    /// The operation requires a prior install.
    NotInstalled,
    /// The unit/plist file could not be written or deleted.
    IoError,
    /// An unrecognized platform error.
    NativeApiError,
    /// The convergence attempt budget was exhausted.
    Timeout,
    /// The observed state is incompatible with ever reaching the target.
    UnexpectedState(ServiceState),
    /// The OS-mediated elevation prompt was denied, or the elevated
    /// command failed; carries the exit status when the process
    /// reported one.
    PrivilegedExecFailed { exit_code: Option<i32> },
}

impl ServiceError {
    /// A short stable label for the failure, for the shell around this
    /// library to print.
    pub fn label(&self) -> (r: &'static str)
        ensures
            r@ == self.spec_label(),
    {
        match self {
            ServiceError::PermissionDenied => "permission denied",
            ServiceError::NotInstalled => "service not installed",
            ServiceError::IoError => "file write or delete failed",
            ServiceError::NativeApiError => "native service manager error",
            ServiceError::Timeout => "timed out waiting for the service to settle",
            ServiceError::UnexpectedState(_) => "service is in an unexpected state",
            ServiceError::PrivilegedExecFailed { .. } => "privileged command failed",
        }
    }

    /// What `label` returns for each failure.
    pub open spec fn spec_label(&self) -> Seq<char> {
        match self {
            ServiceError::PermissionDenied => "permission denied"@,
            ServiceError::NotInstalled => "service not installed"@,
            ServiceError::IoError => "file write or delete failed"@,
            ServiceError::NativeApiError => "native service manager error"@,
            ServiceError::Timeout => "timed out waiting for the service to settle"@,
            ServiceError::UnexpectedState(_) => "service is in an unexpected state"@,
            ServiceError::PrivilegedExecFailed { .. } => "privileged command failed"@,
        }
    }
}

} // verus!
