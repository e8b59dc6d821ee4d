use desktop_shell::startup::{
    dpi_request, fatal_message, logging_level, plan_startup, run_outcome, setup_result,
    BuildMode, DpiAwareness, LogLevel, Outcome, StartupPlan, TargetOs,
};

const OTHER_PLATFORMS: [TargetOs; 5] = [
    TargetOs::MacOs,
    TargetOs::Linux,
    TargetOs::Ios,
    TargetOs::Android,
    TargetOs::Other,
];

#[test]
fn windows_requests_per_monitor_awareness() {
    assert_eq!(dpi_request(TargetOs::Windows), Some(DpiAwareness::PerMonitorAware));
    for build in [BuildMode::Diagnostic, BuildMode::Optimized] {
        let plan = plan_startup(TargetOs::Windows, build);
        assert_eq!(plan.dpi_awareness, Some(DpiAwareness::PerMonitorAware));
    }
}

#[test]
fn other_platforms_make_no_dpi_call() {
    for os in OTHER_PLATFORMS {
        assert_eq!(dpi_request(os), None);
        assert_eq!(plan_startup(os, BuildMode::Diagnostic).dpi_awareness, None);
        assert_eq!(plan_startup(os, BuildMode::Optimized).dpi_awareness, None);
    }
}

#[test]
fn dpi_codes_match_the_system_api() {
    assert_eq!(DpiAwareness::Unaware.code(), 0);
    assert_eq!(DpiAwareness::SystemAware.code(), 1);
    assert_eq!(DpiAwareness::PerMonitorAware.code(), 2);
}

#[test]
fn diagnostic_build_attaches_info_logging() {
    assert_eq!(logging_level(BuildMode::Diagnostic), Some(LogLevel::Info));
    assert_eq!(
        plan_startup(TargetOs::Linux, BuildMode::Diagnostic),
        StartupPlan { dpi_awareness: None, logging: Some(LogLevel::Info) }
    );
}

#[test]
fn optimized_build_attaches_no_logging() {
    assert_eq!(logging_level(BuildMode::Optimized), None);
    assert_eq!(
        plan_startup(TargetOs::Windows, BuildMode::Optimized),
        StartupPlan { dpi_awareness: Some(DpiAwareness::PerMonitorAware), logging: None }
    );
}

#[test]
fn setup_without_plugin_succeeds() {
    assert_eq!(setup_result::<String>(None), Ok(()));
}

#[test]
fn setup_passes_plugin_result_on() {
    assert_eq!(setup_result::<String>(Some(Ok(()))), Ok(()));
    assert_eq!(
        setup_result(Some(Err(String::from("plugin failed")))),
        Err(String::from("plugin failed"))
    );
}

#[test]
fn fatal_message_prefixes_the_error() {
    assert_eq!(fatal_message("boom"), "error while running tauri application: boom");
    assert_eq!(fatal_message(""), "error while running tauri application: ");
}

#[test]
fn run_loop_success_finishes() {
    assert_eq!(run_outcome(Ok(())), Outcome::RunLoopFinished);
}

#[test]
fn run_loop_failure_is_fatal() {
    assert_eq!(
        run_outcome(Err(String::from("no window"))),
        Outcome::Fatal(String::from("error while running tauri application: no window"))
    );
}
