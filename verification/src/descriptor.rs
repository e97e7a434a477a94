//! The immutable description of the managed service, and the rendering of
//! its installation artifacts.
//!
//! Exactly one service is managed per host; its identifiers are fixed. The
//! executable path is resolved by the shell from the running process at
//! install time and handed in, and the platform artifact texts — the
//! systemd unit and the launchd plist — are recomputed from it on every
//! install, never persisted independently.

use vstd::prelude::*;

verus! {

/// The stable identifier the platform managers use to locate the service.
pub open spec fn spec_service_name() -> Seq<char> {
    "StellibertyService"@
}

/// See [`spec_service_name`].
pub fn service_name() -> (r: &'static str)
    ensures
        r@ == spec_service_name(),
{
    "StellibertyService"
}

/// The human-facing display name (Windows).
pub open spec fn spec_display_name() -> Seq<char> {
    "Stelliberty Service"@
}

/// See [`spec_display_name`].
pub fn display_name() -> (r: &'static str)
    ensures
        r@ == spec_display_name(),
{
    "Stelliberty Service"
}

/// The human-facing description (Windows/systemd).
pub open spec fn spec_service_description() -> Seq<char> {
    "Stelliberty background service managing the core and system-level TUN support"@
}

/// See [`spec_service_description`].
pub fn service_description() -> (r: &'static str)
    ensures
        r@ == spec_service_description(),
{
    "Stelliberty background service managing the core and system-level TUN support"
}

/// Where the systemd unit file lives.
pub open spec fn spec_systemd_unit_path() -> Seq<char> {
    "/etc/systemd/system/StellibertyService.service"@
}

/// See [`spec_systemd_unit_path`].
pub fn systemd_unit_path() -> (r: &'static str)
    ensures
        r@ == spec_systemd_unit_path(),
{
    "/etc/systemd/system/StellibertyService.service"
}

/// The launchd label of the daemon.
pub open spec fn spec_launchd_label() -> Seq<char> {
    "com.stelliberty.service"@
}

/// See [`spec_launchd_label`].
pub fn launchd_label() -> (r: &'static str)
    ensures
        r@ == spec_launchd_label(),
{
    "com.stelliberty.service"
}

/// Where the launchd plist lives.
pub open spec fn spec_launchd_plist_path() -> Seq<char> {
    "/Library/LaunchDaemons/com.stelliberty.service.plist"@
}

/// See [`spec_launchd_plist_path`].
pub fn launchd_plist_path() -> (r: &'static str)
    ensures
        r@ == spec_launchd_plist_path(),
{
    "/Library/LaunchDaemons/com.stelliberty.service.plist"
}

/// The immutable description of the service to manage, constructed fresh
/// for each operation.
pub struct ServiceDescriptor {
    /// Stable identifier, unique per host.
    pub name: String,
    /// Human-facing name.
    pub display_name: String,
    /// Human-facing description.
    pub description: String,
    /// Absolute path of the binary to run as the service.
    pub executable_path: String,
}

impl ServiceDescriptor {
    /// The identifiers are the fixed ones of the single managed service.
    pub open spec fn wf(&self) -> bool {
        &&& self.name@ == spec_service_name()
        &&& self.display_name@ == spec_display_name()
        &&& self.description@ == spec_service_description()
    }

    /// A descriptor for the binary at `executable_path`.
    pub fn new(executable_path: String) -> (d: ServiceDescriptor)
        ensures
            d.wf(),
            d.executable_path@ == executable_path@,
    {
        ServiceDescriptor {
            name: service_name().to_owned(),
            display_name: display_name().to_owned(),
            description: service_description().to_owned(),
            executable_path,
        }
    }

    /// The systemd unit text for this descriptor's binary.
    pub fn systemd_unit(&self) -> (r: String)
        ensures
            r@ == spec_service_unit(self.executable_path@),
    {
        get_service_unit(self.executable_path.as_str())
    }

    /// The launchd plist text for this descriptor's binary.
    pub fn launchd_plist(&self) -> (r: String)
        ensures
            r@ == spec_launchd_plist(self.executable_path@),
    {
        get_launchd_plist(self.executable_path.as_str())
    }
}

/// The systemd unit text: the fixed stanza around the binary path.
pub open spec fn spec_service_unit(binary_path: Seq<char>) -> Seq<char> {
    "[Unit]\nDescription=Stelliberty Service\nAfter=network.target\n\n[Service]\nType=simple\nExecStart="@
        + binary_path
        + "\nRestart=on-failure\nRestartSec=5s\nStandardOutput=journal\nStandardError=journal\nSyslogIdentifier=stelliberty\n\n[Install]\nWantedBy=multi-user.target\n"@
}

/// Renders the systemd unit for the service: `Type=simple`, started after
/// the network, restarted on failure after five seconds, stdio routed to
/// the journal, wanted by the multi-user target.
pub fn get_service_unit(binary_path: &str) -> (r: String)
    ensures
        r@ == spec_service_unit(binary_path@),
{
    let mut out =
        "[Unit]\nDescription=Stelliberty Service\nAfter=network.target\n\n[Service]\nType=simple\nExecStart=".to_owned();
    out.append(binary_path);
    out.append(
        "\nRestart=on-failure\nRestartSec=5s\nStandardOutput=journal\nStandardError=journal\nSyslogIdentifier=stelliberty\n\n[Install]\nWantedBy=multi-user.target\n",
    );
    out
}

/// The launchd plist text: the fixed stanza around the binary path.
pub open spec fn spec_launchd_plist(binary_path: Seq<char>) -> Seq<char> {
    "<?xml version=\"1.0\" encoding=\"UTF-8\"?>\n<!DOCTYPE plist PUBLIC \"-//Apple//DTD PLIST 1.0//EN\" \"http://www.apple.com/DTDs/PropertyList-1.0.dtd\">\n<plist version=\"1.0\">\n<dict>\n    <key>Label</key>\n    <string>com.stelliberty.service</string>\n    <key>ProgramArguments</key>\n    <array>\n        <string>"@
        + binary_path
        + "</string>\n    </array>\n    <key>RunAtLoad</key>\n    <true/>\n    <key>KeepAlive</key>\n    <true/>\n    <key>StandardOutPath</key>\n    <string>/var/log/stelliberty-service.log</string>\n    <key>StandardErrorPath</key>\n    <string>/var/log/stelliberty-service-error.log</string>\n</dict>\n</plist>"@
}

/// Renders the launchd daemon plist for the service: run at load, kept
/// alive, stdout and stderr to fixed log files.
pub fn get_launchd_plist(binary_path: &str) -> (r: String)
    ensures
        r@ == spec_launchd_plist(binary_path@),
{
    let mut out =
        "<?xml version=\"1.0\" encoding=\"UTF-8\"?>\n<!DOCTYPE plist PUBLIC \"-//Apple//DTD PLIST 1.0//EN\" \"http://www.apple.com/DTDs/PropertyList-1.0.dtd\">\n<plist version=\"1.0\">\n<dict>\n    <key>Label</key>\n    <string>com.stelliberty.service</string>\n    <key>ProgramArguments</key>\n    <array>\n        <string>".to_owned();
    out.append(binary_path);
    out.append(
        "</string>\n    </array>\n    <key>RunAtLoad</key>\n    <true/>\n    <key>KeepAlive</key>\n    <true/>\n    <key>StandardOutPath</key>\n    <string>/var/log/stelliberty-service.log</string>\n    <key>StandardErrorPath</key>\n    <string>/var/log/stelliberty-service-error.log</string>\n</dict>\n</plist>",
    );
    out
}

} // verus!
