use stelliberty_service::descriptor::{
    ServiceDescriptor, get_launchd_plist, get_service_unit, launchd_label, launchd_plist_path,
    service_name, systemd_unit_path,
};
use stelliberty_service::error::ServiceError;
use stelliberty_service::privilege::{
    build_elevation_command, elevation_outcome, escape_for_applescript, launchd_install_script,
    launchd_load_script, launchd_uninstall_script, launchd_unload_script, staging_plist_path,
};
use stelliberty_service::state::{
    ServiceState, state_from_launchctl_list, state_from_scm_code, state_from_systemd_output,
};

#[test]
fn identifiers_and_paths() {
    assert_eq!(service_name(), "StellibertyService");
    assert_eq!(
        systemd_unit_path(),
        "/etc/systemd/system/StellibertyService.service"
    );
    assert_eq!(launchd_label(), "com.stelliberty.service");
    assert_eq!(
        launchd_plist_path(),
        "/Library/LaunchDaemons/com.stelliberty.service.plist"
    );
    assert_eq!(staging_plist_path(), "/tmp/stelliberty-service-install.plist");
}

#[test]
fn descriptor_renders_both_artifacts() {
    let d = ServiceDescriptor::new(String::from("/opt/bin/stelliberty"));
    assert_eq!(d.systemd_unit(), get_service_unit("/opt/bin/stelliberty"));
    assert_eq!(d.launchd_plist(), get_launchd_plist("/opt/bin/stelliberty"));
}

#[test]
fn systemd_unit_text() {
    let expected = format!(
        "[Unit]\n\
         Description=Stelliberty Service\n\
         After=network.target\n\
         \n\
         [Service]\n\
         Type=simple\n\
         ExecStart={}\n\
         Restart=on-failure\n\
         RestartSec=5s\n\
         StandardOutput=journal\n\
         StandardError=journal\n\
         SyslogIdentifier=stelliberty\n\
         \n\
         [Install]\n\
         WantedBy=multi-user.target\n",
        "/usr/bin/stelliberty"
    );
    assert_eq!(get_service_unit("/usr/bin/stelliberty"), expected);
}

#[test]
fn launchd_plist_text() {
    let plist = get_launchd_plist("/usr/bin/stelliberty");
    assert!(plist.starts_with("<?xml version=\"1.0\" encoding=\"UTF-8\"?>\n"));
    assert!(plist.contains("<key>Label</key>\n    <string>com.stelliberty.service</string>"));
    assert!(plist.contains("<string>/usr/bin/stelliberty</string>"));
    assert!(plist.contains("<key>RunAtLoad</key>\n    <true/>"));
    assert!(plist.contains("<key>KeepAlive</key>\n    <true/>"));
    assert!(plist.contains("<string>/var/log/stelliberty-service.log</string>"));
    assert!(plist.contains("<string>/var/log/stelliberty-service-error.log</string>"));
    assert!(plist.ends_with("</dict>\n</plist>"));
}

#[test]
fn escaping_doubles_quotes_only() {
    assert_eq!(escape_for_applescript(""), "");
    assert_eq!(escape_for_applescript("launchctl load /tmp/x"), "launchctl load /tmp/x");
    assert_eq!(escape_for_applescript("say \"hi\""), "say \\\"hi\\\"");
}

#[test]
fn elevation_command_wraps_escaped_script() {
    assert_eq!(
        build_elevation_command("cp \"a\" b"),
        "do shell script \"cp \\\"a\\\" b\" with administrator privileges"
    );
}

#[test]
fn elevation_outcome_is_success_only_on_exit_zero() {
    assert_eq!(elevation_outcome(Some(0)), Ok(()));
    assert_eq!(
        elevation_outcome(Some(1)),
        Err(ServiceError::PrivilegedExecFailed { exit_code: Some(1) })
    );
    assert_eq!(
        elevation_outcome(None),
        Err(ServiceError::PrivilegedExecFailed { exit_code: None })
    );
}

#[test]
fn launchd_scripts_name_the_plist() {
    assert_eq!(
        launchd_load_script(),
        "launchctl load /Library/LaunchDaemons/com.stelliberty.service.plist"
    );
    assert_eq!(
        launchd_unload_script(),
        "launchctl unload /Library/LaunchDaemons/com.stelliberty.service.plist"
    );
    assert_eq!(
        launchd_uninstall_script(),
        "launchctl unload /Library/LaunchDaemons/com.stelliberty.service.plist \
         && rm -f /Library/LaunchDaemons/com.stelliberty.service.plist"
    );
    assert_eq!(
        launchd_install_script(),
        "cp /tmp/stelliberty-service-install.plist \
         /Library/LaunchDaemons/com.stelliberty.service.plist \
         && chmod 644 /Library/LaunchDaemons/com.stelliberty.service.plist \
         && launchctl load /Library/LaunchDaemons/com.stelliberty.service.plist"
    );
}

#[test]
fn scm_codes_map_to_logical_states() {
    assert_eq!(state_from_scm_code(1), ServiceState::Stopped);
    assert_eq!(state_from_scm_code(2), ServiceState::StartPending);
    assert_eq!(state_from_scm_code(3), ServiceState::StopPending);
    assert_eq!(state_from_scm_code(4), ServiceState::Running);
    assert_eq!(state_from_scm_code(7), ServiceState::Unknown);
    assert_eq!(state_from_scm_code(0), ServiceState::Unknown);
}

#[test]
fn systemd_outputs_map_to_logical_states() {
    assert_eq!(state_from_systemd_output("active"), ServiceState::Running);
    assert_eq!(state_from_systemd_output("inactive"), ServiceState::Stopped);
    assert_eq!(state_from_systemd_output("activating"), ServiceState::StartPending);
    assert_eq!(state_from_systemd_output("deactivating"), ServiceState::StopPending);
    assert_eq!(state_from_systemd_output("failed"), ServiceState::Unknown);
    assert_eq!(state_from_systemd_output(""), ServiceState::Unknown);
}

#[test]
fn launchctl_listing_maps_to_logical_states() {
    assert_eq!(state_from_launchctl_list(true), ServiceState::Running);
    assert_eq!(state_from_launchctl_list(false), ServiceState::Stopped);
}

#[test]
fn error_labels_are_stable() {
    assert_eq!(ServiceError::PermissionDenied.label(), "permission denied");
    assert_eq!(ServiceError::Timeout.label(), "timed out waiting for the service to settle");
    assert_eq!(
        ServiceError::UnexpectedState(ServiceState::Unknown).label(),
        "service is in an unexpected state"
    );
}
