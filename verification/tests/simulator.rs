//! The simulator adapter: state parsing, record normalization, the
//! benign-failure policy, pid parsing and device lookup.

use xscape::api::SimulatorState;
use xscape::health::HealthStatus;
use xscape::health::health_check;
use xscape::simctl::RawSimctlDevice;
use xscape::simctl::RawSimctlRuntime;
use xscape::simctl::boot_outcome;
use xscape::simctl::find_device_by_name;
use xscape::simctl::install_outcome;
use xscape::simctl::launch_outcome;
use xscape::simctl::normalize_group;
use xscape::simctl::normalize_runtime;
use xscape::simctl::parse_launch_pid;
use xscape::simctl::parse_state;
use xscape::simctl::runtime_display_name;
use xscape::simctl::shutdown_outcome;
use xscape::simctl::uninstall_outcome;
use xscape::xcode::XcodeInfo;

#[test]
fn state_words_normalize_to_the_closed_enum() {
    assert!(matches!(parse_state("Booted"), SimulatorState::Booted));
    assert!(matches!(parse_state("booted"), SimulatorState::Booted));
    assert!(matches!(parse_state("Booting"), SimulatorState::Booting));
    assert!(matches!(parse_state("ShuttingDown"), SimulatorState::ShuttingDown));
    assert!(matches!(parse_state("Shutting Down"), SimulatorState::ShuttingDown));
    assert!(matches!(parse_state("Shutdown"), SimulatorState::Shutdown));
    assert!(matches!(parse_state("anything else"), SimulatorState::Shutdown));
}

#[test]
fn runtime_identifier_renders_as_display_name() {
    assert_eq!(
        runtime_display_name("com.apple.CoreSimulator.SimRuntime.iOS-17-0"),
        "iOS 17 0"
    );
    assert_eq!(runtime_display_name("custom-runtime.x"), "custom runtime x");
}

#[test]
fn booting_an_already_booted_device_is_success() {
    let already = "Unable to boot device in current state: Booted";
    assert!(boot_outcome(false, already).is_ok());
    assert!(boot_outcome(true, "").is_ok());
}

#[test]
fn real_boot_failures_keep_the_tool_text() {
    let err = boot_outcome(false, "Invalid device: UD-404").unwrap_err();
    assert_eq!(err, "simctl boot failed: Invalid device: UD-404");
}

#[test]
fn shutting_down_a_shut_down_device_is_success() {
    let already = "Unable to shutdown device in current state: Shutdown";
    assert!(shutdown_outcome(false, already).is_ok());
    assert!(shutdown_outcome(true, "").is_ok());
    assert!(shutdown_outcome(false, "no such device").is_err());
}

#[test]
fn install_launch_uninstall_follow_the_exit() {
    assert!(install_outcome(true, "").is_ok());
    assert_eq!(
        install_outcome(false, "bad bundle").unwrap_err(),
        "simctl install failed: bad bundle"
    );
    assert!(launch_outcome(true, "").is_ok());
    assert!(launch_outcome(false, "x").is_err());
    assert!(uninstall_outcome(true, "").is_ok());
    assert!(uninstall_outcome(false, "x").is_err());
}

#[test]
fn launch_pid_reads_from_the_bundle_line() {
    assert_eq!(parse_launch_pid("com.example.App: 12345\n", "com.example.App"), Some(12345));
    assert_eq!(
        parse_launch_pid("noise\ncom.example.App: 777", "com.example.App"),
        Some(777)
    );
    assert_eq!(parse_launch_pid("com.example.App: 99  \n", "com.example.App"), Some(99));
    assert_eq!(parse_launch_pid("com.example.App: +7", "com.example.App"), Some(7));
    assert_eq!(
        parse_launch_pid("com.example.App launching\ncom.example.App: 42", "com.example.App"),
        Some(42)
    );
    assert_eq!(parse_launch_pid("com.example.App: not-a-pid", "com.example.App"), None);
    assert_eq!(parse_launch_pid("unrelated output", "com.example.App"), None);
    assert_eq!(parse_launch_pid("", "com.example.App"), None);
}

fn raw_device(udid: &str, name: &str, state: &str) -> RawSimctlDevice {
    RawSimctlDevice {
        udid: String::from(udid),
        name: String::from(name),
        device_type_identifier: None,
        state: String::from(state),
        is_available: None,
    }
}

#[test]
fn device_records_normalize_with_defaults() {
    let raws = vec![
        raw_device("UD-1", "iPhone 15 Pro", "Booted"),
        raw_device("UD-2", "iPad Air", "Shutdown"),
    ];
    let devices = normalize_group("com.apple.CoreSimulator.SimRuntime.iOS-17-0", raws);
    assert_eq!(devices.len(), 2);
    assert_eq!(devices[0].udid, "UD-1");
    assert_eq!(devices[0].runtime, "iOS 17 0");
    assert_eq!(devices[0].runtime_identifier, "com.apple.CoreSimulator.SimRuntime.iOS-17-0");
    assert!(matches!(devices[0].state, SimulatorState::Booted));
    assert!(devices[0].is_available);
    assert_eq!(devices[0].device_type_identifier, "");
    assert!(matches!(devices[1].state, SimulatorState::Shutdown));
}

#[test]
fn runtime_records_normalize_with_defaults() {
    let runtime = normalize_runtime(RawSimctlRuntime {
        identifier: String::from("com.apple.CoreSimulator.SimRuntime.iOS-17-0"),
        name: String::from("iOS 17.0"),
        version: String::from("17.0"),
        build_version: None,
        is_available: true,
    });
    assert_eq!(runtime.build_version, "");
    assert!(runtime.is_available);
    assert_eq!(runtime.name, "iOS 17.0");
}

#[test]
fn device_lookup_is_case_insensitive_and_skips_unavailable() {
    let mut raws = vec![
        raw_device("UD-1", "iPhone 15 Pro", "Shutdown"),
        raw_device("UD-2", "iPhone 15 Pro Max", "Booted"),
    ];
    raws[0].is_available = Some(false);
    let devices = normalize_group("rt", raws);
    let found = find_device_by_name(&devices, "iphone 15").unwrap();
    assert_eq!(found.udid, "UD-2");
    assert!(find_device_by_name(&devices, "iPad").is_none());
}

#[test]
fn health_reflects_the_two_probes() {
    let info = || XcodeInfo { version: String::from("15.0"), path: String::from("/x") };
    let healthy = health_check(Some(info()), Some(4), String::from("0.1.0"));
    assert!(matches!(healthy.status, HealthStatus::Healthy));
    assert_eq!(healthy.xcode_version.as_deref(), Some("15.0"));
    assert_eq!(healthy.available_simulators, 4);
    assert_eq!(healthy.agent_version, "0.1.0");

    let degraded = health_check(Some(info()), None, String::from("0.1.0"));
    assert!(matches!(degraded.status, HealthStatus::Degraded));
    assert_eq!(degraded.available_simulators, 0);

    let unhealthy = health_check(None, Some(4), String::from("0.1.0"));
    assert!(matches!(unhealthy.status, HealthStatus::Unhealthy));
    assert!(unhealthy.xcode_version.is_none());
}
