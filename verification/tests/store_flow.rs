//! The state store: project sync deduplication, build lifecycle, and
//! the not-found answers the API builds on.

use xscape::api::BuildConfiguration;
use xscape::api::BuildDestination;
use xscape::api::BuildOutcome;
use xscape::api::BuildRequest;
use xscape::api::BuildStatus;
use xscape::api::RunAppRequest;
use xscape::api::SimulatorDevice;
use xscape::api::SimulatorState;
use xscape::config::AgentServerConfig;
use xscape::store::AppState;
use xscape::store::logs_error_message;
use xscape::xcode::artifact_missing_outcome;
use xscape::xcode::exit_failure_outcome;

fn fresh_state() -> AppState {
    AppState::new(AgentServerConfig::default())
}

fn build_request(project_id: u64) -> BuildRequest {
    BuildRequest {
        project_id,
        project_file: None,
        scheme: String::from("MyScheme"),
        configuration: BuildConfiguration::Debug,
        destination: BuildDestination::ios_simulator(String::from("iPhone 15 Pro")),
        extra_args: Vec::new(),
        clean: false,
    }
}

fn start_one_build(state: &mut AppState, project_id: u64) -> u64 {
    let resp = state.start_build(&build_request(project_id), 1_000).unwrap();
    resp.build_id
}

fn register_project(state: &mut AppState, checksum: &str) -> u64 {
    let resp = state.sync_register(
        String::from("Demo"),
        String::from(checksum),
        String::from("/var/projects/demo"),
        500,
        12,
    );
    resp.project_id
}

#[test]
fn sync_first_upload_extracts() {
    let mut state = fresh_state();
    let resp = state.sync_register(
        String::from("Demo"),
        String::from("abc123"),
        String::from("/var/projects/p0"),
        500,
        12,
    );
    assert_eq!(resp.files_extracted, 12);
    assert!(!resp.was_cached);
    assert_eq!(resp.path, "/var/projects/p0");
}

#[test]
fn sync_same_checksum_is_cached_with_same_id() {
    let mut state = fresh_state();
    let first = state.sync_register(
        String::from("Demo"),
        String::from("abc123"),
        String::from("/var/projects/p0"),
        500,
        12,
    );
    let second = state.sync_register(
        String::from("Demo"),
        String::from("abc123"),
        String::from("/var/projects/p1"),
        900,
        12,
    );
    assert!(second.was_cached);
    assert_eq!(second.project_id, first.project_id);
    assert_eq!(second.files_extracted, 0);
    assert_eq!(second.path, first.path);
}

#[test]
fn sync_distinct_checksums_get_distinct_ids() {
    let mut state = fresh_state();
    let a = register_project(&mut state, "checksum-a");
    let b = register_project(&mut state, "checksum-b");
    assert_ne!(a, b);
}

#[test]
fn build_for_unknown_project_is_not_found() {
    let mut state = fresh_state();
    let err = state.start_build(&build_request(42), 1_000).unwrap_err();
    assert_eq!(err.code, "NOT_FOUND");
    assert_eq!(err.message, "Project not found: 42");
}

#[test]
fn accepted_build_is_queued_with_started_at() {
    let mut state = fresh_state();
    let pid = register_project(&mut state, "ck");
    let resp = state.start_build(&build_request(pid), 1_000).unwrap();
    assert!(matches!(resp.status, BuildStatus::Queued));
    assert_eq!(resp.started_at, 1_000);
    let record = state.get_build(resp.build_id).unwrap();
    assert!(matches!(record.status, BuildStatus::Queued));
    assert!(record.finished_at.is_none());
    assert!(record.duration_millis.is_none());
    assert!(record.app_path.is_none());
    assert_eq!(record.scheme, "MyScheme");
}

#[test]
fn unknown_build_status_is_not_found() {
    let state = fresh_state();
    let err = state.build_status_or_error(7).unwrap_err();
    assert_eq!(err.code, "NOT_FOUND");
    assert_eq!(err.message, "Build not found: 7");
}

#[test]
fn successful_build_reaches_succeeded_once() {
    let mut state = fresh_state();
    let pid = register_project(&mut state, "ck");
    let bid = start_one_build(&mut state, pid);
    state.complete_build(
        bid,
        BuildOutcome::Success {
            app_path: String::from("/derived/Debug-iphonesimulator/My.app"),
            bundle_id: String::from("com.example.My"),
            warnings: vec![String::from("w1")],
        },
        5_000,
    );
    let record = state.get_build(bid).unwrap();
    assert!(matches!(record.status, BuildStatus::Succeeded));
    assert_eq!(record.finished_at, Some(5_000));
    assert_eq!(record.duration_millis, Some(4_000));
    assert_eq!(record.app_path.as_deref(), Some("/derived/Debug-iphonesimulator/My.app"));
    assert_eq!(record.bundle_id.as_deref(), Some("com.example.My"));
    assert_eq!(record.warnings, vec![String::from("w1")]);
    assert!(record.error_message.is_none());
    let artifacts = state.get_artifacts(bid).unwrap();
    assert_eq!(artifacts.app_path, "/derived/Debug-iphonesimulator/My.app");
    assert_eq!(artifacts.bundle_id.as_deref(), Some("com.example.My"));
}

#[test]
fn finished_at_is_set_exactly_on_terminal_records() {
    let mut state = fresh_state();
    let pid = register_project(&mut state, "ck");
    let bid = start_one_build(&mut state, pid);
    let queued = state.get_build(bid).unwrap();
    assert!(!queued.status.is_terminal());
    assert!(queued.finished_at.is_none());
    state.complete_build(bid, exit_failure_outcome("Some(65)"), 9_000);
    let done = state.get_build(bid).unwrap();
    assert!(done.status.is_terminal());
    assert!(done.finished_at.is_some());
    assert!(done.duration_millis.is_some());
}

#[test]
fn failed_exit_records_exit_description() {
    let mut state = fresh_state();
    let pid = register_project(&mut state, "ck");
    let bid = start_one_build(&mut state, pid);
    state.complete_build(bid, exit_failure_outcome("Some(65)"), 2_500);
    let record = state.get_build(bid).unwrap();
    assert!(matches!(record.status, BuildStatus::Failed));
    assert_eq!(record.error_message.as_deref(), Some("Build failed with exit code: Some(65)"));
    assert!(state.get_artifacts(bid).is_none());
}

#[test]
fn clean_exit_without_bundle_is_failed_with_artifact_message() {
    let mut state = fresh_state();
    let pid = register_project(&mut state, "ck");
    let bid = start_one_build(&mut state, pid);
    state.complete_build(bid, artifact_missing_outcome("MyScheme"), 2_500);
    let record = state.get_build(bid).unwrap();
    assert!(matches!(record.status, BuildStatus::Failed));
    let message = record.error_message.as_deref().unwrap();
    assert!(message.contains("Could not find built app"));
    assert!(message.contains("MyScheme"));
    assert!(!message.contains("exit code"));
    assert!(state.get_artifacts(bid).is_none());
}

#[test]
fn cancelled_build_is_terminal_with_message() {
    let mut state = fresh_state();
    let pid = register_project(&mut state, "ck");
    let bid = start_one_build(&mut state, pid);
    state.complete_build(
        bid,
        BuildOutcome::Cancelled { message: String::from("killed from outside") },
        3_000,
    );
    let record = state.get_build(bid).unwrap();
    assert!(matches!(record.status, BuildStatus::Cancelled));
    assert_eq!(record.error_message.as_deref(), Some("killed from outside"));
    assert!(record.finished_at.is_some());
}

#[test]
fn duration_clamps_when_clock_goes_backwards() {
    let mut state = fresh_state();
    let pid = register_project(&mut state, "ck");
    let resp = state.start_build(&build_request(pid), 10_000).unwrap();
    state.complete_build(resp.build_id, exit_failure_outcome("None"), 4_000);
    let record = state.get_build(resp.build_id).unwrap();
    assert_eq!(record.duration_millis, Some(0));
}

#[test]
fn missing_log_channel_yields_one_error_payload() {
    let state = fresh_state();
    assert!(state.subscribe_logs(99).is_none());
    assert!(state.recv_log(99, 0).is_none());
    assert_eq!(
        logs_error_message(99),
        "{\"error\": \"Build 99 not found or already finished\"}"
    );
}

fn device(udid: &str, state: SimulatorState) -> SimulatorDevice {
    SimulatorDevice {
        udid: String::from(udid),
        name: String::from("iPhone 15 Pro"),
        device_type_identifier: String::from("dt"),
        runtime_identifier: String::from("rt"),
        runtime: String::from("iOS 17 0"),
        state,
        is_available: true,
    }
}

fn run_request(build_id: u64, udid: &str) -> RunAppRequest {
    RunAppRequest {
        build_id,
        device_udid: String::from(udid),
        launch_args: Vec::new(),
        environment: Vec::new(),
        wait_for_exit: false,
    }
}

#[test]
fn run_of_unknown_build_is_not_found() {
    let state = fresh_state();
    let devices = vec![device("UD-1", SimulatorState::Booted)];
    let err = state.plan_run_app(&run_request(5, "UD-1"), &devices).unwrap_err();
    assert_eq!(err.code, "NOT_FOUND");
}

#[test]
fn run_plans_boot_only_for_unbooted_device() {
    let mut state = fresh_state();
    let pid = register_project(&mut state, "ck");
    let bid = start_one_build(&mut state, pid);
    state.complete_build(
        bid,
        BuildOutcome::Success {
            app_path: String::from("/a/My.app"),
            bundle_id: String::from("com.example.My"),
            warnings: Vec::new(),
        },
        2_000,
    );
    let booted = vec![device("UD-1", SimulatorState::Booted)];
    let plan = state.plan_run_app(&run_request(bid, "UD-1"), &booted).unwrap();
    assert!(!plan.needs_boot);
    assert_eq!(plan.app_path, "/a/My.app");
    assert_eq!(plan.bundle_id, "com.example.My");
    let off = vec![device("UD-1", SimulatorState::Shutdown)];
    let plan = state.plan_run_app(&run_request(bid, "UD-1"), &off).unwrap();
    assert!(plan.needs_boot);
    let err = state.plan_run_app(&run_request(bid, "UD-2"), &off).unwrap_err();
    assert_eq!(err.code, "NOT_FOUND");
}
