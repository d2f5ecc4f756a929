use rspi_bios::lifecycle::{
    choose_log_target, log_file_name, log_target_after_create, process_exit_success, LogTarget,
    RunOutcome, StartupFailure,
};

#[test]
fn development_builds_log_into_the_build_tree() {
    assert_eq!(choose_log_target(true, false, false), LogTarget::BuildTree);
    assert_eq!(choose_log_target(true, true, true), LogTarget::BuildTree);
}

#[test]
fn platforms_without_the_layout_or_forced_local_log_beside_the_executable() {
    assert_eq!(choose_log_target(false, true, false), LogTarget::ExeAdjacent);
    assert_eq!(choose_log_target(false, false, true), LogTarget::ExeAdjacent);
}

#[test]
fn otherwise_the_configured_directory_is_used() {
    assert_eq!(choose_log_target(false, false, false), LogTarget::ConfiguredDir);
}

#[test]
fn an_uncreatable_log_directory_falls_back_beside_the_executable() {
    assert_eq!(
        log_target_after_create(LogTarget::ConfiguredDir, true),
        LogTarget::ConfiguredDir
    );
    assert_eq!(
        log_target_after_create(LogTarget::ConfiguredDir, false),
        LogTarget::ExeAdjacent
    );
    assert_eq!(log_target_after_create(LogTarget::BuildTree, false), LogTarget::ExeAdjacent);
}

#[test]
fn the_log_file_is_named_debug_log() {
    assert_eq!(log_file_name(), "debug.log");
}

#[test]
fn an_intentional_drained_shutdown_exits_successfully() {
    assert!(process_exit_success(&RunOutcome::DrainedAfterSignal));
}

#[test]
fn every_fatal_startup_condition_fails_the_process() {
    assert!(!process_exit_success(&RunOutcome::Startup(StartupFailure::NoCertificateBundle)));
    assert!(!process_exit_success(&RunOutcome::Startup(StartupFailure::PrimaryBindFailed)));
    assert!(!process_exit_success(&RunOutcome::Startup(StartupFailure::LogSinkFailed)));
}

#[test]
fn a_redirect_bind_failure_is_fatal_only_when_required() {
    assert!(!process_exit_success(&RunOutcome::RedirectBindFailed { required: true }));
    assert!(process_exit_success(&RunOutcome::RedirectBindFailed { required: false }));
}
