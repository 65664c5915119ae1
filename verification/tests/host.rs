use vara_orthanc::host::{
    error, info, log, startup_plan, warning, HostContext, HostService, LogEntry, LogLevel,
    StartupAction, STATUS_FAILURE, STATUS_SUCCESS,
};

#[test]
fn log_lines_carry_level_and_message() {
    assert_eq!(info("a"), LogEntry { level: LogLevel::Info, message: "a".to_string() });
    assert_eq!(error("b"), LogEntry { level: LogLevel::Error, message: "b".to_string() });
    assert_eq!(warning("c"), LogEntry { level: LogLevel::Warning, message: "c".to_string() });
    assert_eq!(log(LogLevel::Warning, ""), LogEntry { level: LogLevel::Warning, message: String::new() });
}

#[test]
fn each_level_has_its_service() {
    assert_eq!(info("x").service(), HostService::LogInfo);
    assert_eq!(warning("x").service(), HostService::LogWarning);
    assert_eq!(error("x").service(), HostService::LogError);
}

#[test]
fn startup_registers_callbacks_before_the_synchronizer() {
    assert_eq!(
        startup_plan(),
        vec![
            StartupAction::Log(info("Initializing Vara Orthanc Worklist plugin.")),
            StartupAction::Register(HostService::RegisterWorklistCallback),
            StartupAction::Register(HostService::RegisterOnChangeCallback),
            StartupAction::SpawnPeriodicSync,
            StartupAction::Log(info("Vara Orthanc Worklist plugin initialization complete.")),
        ]
    );
}

#[test]
fn status_codes() {
    assert_eq!(STATUS_SUCCESS, 0);
    assert_eq!(STATUS_FAILURE, 1);
}

#[test]
fn host_context_is_a_plain_token() {
    let context = HostContext { token: 42 };
    assert_eq!(context, HostContext { token: 42 });
    assert_ne!(context, HostContext { token: 43 });
}
