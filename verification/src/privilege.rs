//! The privilege bridge for launchd: turning a shell command into an
//! OS-mediated administrator-elevation prompt, and the fixed privileged
//! scripts of the mutating launchd operations.
//!
//! The default daemon directory is not writable by an unprivileged user,
//! so every mutating launchd operation runs through one elevated shell
//! command. This module builds those command strings and judges the exit
//! of the elevated process; the shell around the library runs it. A single
//! denied or failed elevation is a terminal failure for that call — there
//! is no retry here.

use vstd::prelude::*;
use crate::error::ServiceError;

verus! {

/// One shell-escaped character: a double quote gains a backslash so the
/// command survives embedding in an AppleScript string literal.
pub open spec fn spec_escaped_char(c: char) -> Seq<char> {
    if c == '"' {
        seq!['\\', '"']
    } else {
        seq![c]
    }
}

/// The whole command, shell-escaped character by character.
pub open spec fn spec_escaped(s: Seq<char>) -> Seq<char>
    decreases s.len(),
{
    if s.len() == 0 {
        Seq::empty()
    } else {
        spec_escaped(s.drop_last()) + spec_escaped_char(s.last())
    }
}

/// Escapes a shell command for embedding in an AppleScript string
/// literal: every double quote gains a backslash, every other character
/// stands unchanged.
pub fn escape_for_applescript(script: &str) -> (r: String)
    ensures
        r@ == spec_escaped(script@),
{
    let n = script.unicode_len();
    let mut out = String::new();
    let mut i: usize = 0;
    while i < n
        invariant
            n as nat == script@.len(),
            i <= n,
            out@ == spec_escaped(script@.subrange(0, i as int)),
        decreases n - i,
    {
        let c = script.get_char(i);
        if c == '"' {
            out.append("\\\"");
            proof {
                reveal_strlit("\\\"");
            }
        } else {
            let piece = script.substring_char(i, i + 1);
            out.append(piece);
            proof {
                assert(script@.subrange(i as int, i as int + 1) =~= seq![script@[i as int]]);
            }
        }
        proof {
            assert(script@.subrange(0, i as int + 1).drop_last() =~= script@.subrange(0, i as int));
            assert(script@.subrange(0, i as int + 1).last() == script@[i as int]);
        }
        i = i + 1;
    }
    proof {
        assert(script@.subrange(0, n as int) =~= script@);
    }
    out
}

/// The elevation command for a shell script: the escaped script wrapped
/// in AppleScript's administrator-privileges prompt.
pub open spec fn spec_elevation_command(script: Seq<char>) -> Seq<char> {
    "do shell script \""@ + spec_escaped(script) + "\" with administrator privileges"@
}

/// Builds the AppleScript expression that runs `script` through the
/// administrator-elevation prompt.
pub fn build_elevation_command(script: &str) -> (r: String)
    ensures
        r@ == spec_elevation_command(script@),
{
    let mut out = "do shell script \"".to_owned();
    let escaped = escape_for_applescript(script);
    out.append(escaped.as_str());
    out.append("\" with administrator privileges");
    out
}

/// What the exit of the elevated process means.
pub open spec fn spec_elevation_outcome(exit_code: Option<i32>) -> Result<(), ServiceError> {
    if exit_code == Some(0i32) {
        Ok(())
    } else {
        Err(ServiceError::PrivilegedExecFailed { exit_code })
    }
}

/// Judges the elevated process: success exactly on exit status zero;
/// anything else — a nonzero exit, or no exit status at all — fails with
/// the status carried along.
pub fn elevation_outcome(exit_code: Option<i32>) -> (r: Result<(), ServiceError>)
    ensures
        r == spec_elevation_outcome(exit_code),
{
    match exit_code {
        Some(0i32) => Ok(()),
        _ => Err(ServiceError::PrivilegedExecFailed { exit_code }),
    }
}

/// Where the plist is staged before the elevated copy into the daemon
/// directory.
pub open spec fn spec_staging_plist_path() -> Seq<char> {
    "/tmp/stelliberty-service-install.plist"@
}

/// See [`spec_staging_plist_path`].
pub fn staging_plist_path() -> (r: &'static str)
    ensures
        r@ == spec_staging_plist_path(),
{
    "/tmp/stelliberty-service-install.plist"
}

/// The privileged install script: copy the staged plist into the daemon
/// directory, fix its mode, and load it.
pub fn launchd_install_script() -> (r: &'static str)
    ensures
        r@
            == "cp /tmp/stelliberty-service-install.plist /Library/LaunchDaemons/com.stelliberty.service.plist && chmod 644 /Library/LaunchDaemons/com.stelliberty.service.plist && launchctl load /Library/LaunchDaemons/com.stelliberty.service.plist"@,
{
    "cp /tmp/stelliberty-service-install.plist /Library/LaunchDaemons/com.stelliberty.service.plist && chmod 644 /Library/LaunchDaemons/com.stelliberty.service.plist && launchctl load /Library/LaunchDaemons/com.stelliberty.service.plist"
}

/// The privileged load script: launchd starts a daemon by loading its
/// plist.
pub fn launchd_load_script() -> (r: &'static str)
    ensures
        r@ == "launchctl load /Library/LaunchDaemons/com.stelliberty.service.plist"@,
{
    "launchctl load /Library/LaunchDaemons/com.stelliberty.service.plist"
}

/// The privileged unload script: launchd stops a daemon by unloading its
/// plist.
pub fn launchd_unload_script() -> (r: &'static str)
    ensures
        r@ == "launchctl unload /Library/LaunchDaemons/com.stelliberty.service.plist"@,
{
    "launchctl unload /Library/LaunchDaemons/com.stelliberty.service.plist"
}

/// The privileged uninstall script: unload the daemon and delete its
/// plist.
pub fn launchd_uninstall_script() -> (r: &'static str)
    ensures
        r@
            == "launchctl unload /Library/LaunchDaemons/com.stelliberty.service.plist && rm -f /Library/LaunchDaemons/com.stelliberty.service.plist"@,
{
    "launchctl unload /Library/LaunchDaemons/com.stelliberty.service.plist && rm -f /Library/LaunchDaemons/com.stelliberty.service.plist"
}

} // verus!
