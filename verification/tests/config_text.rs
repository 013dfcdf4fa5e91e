//! Configuration defaults, URL and path helpers, errors, and the
//! display formatting helpers.

use xscape::api::BuildConfiguration;
use xscape::api::BuildDestination;
use xscape::cli::ConfigCommands;
use xscape::config::AgentMode;
use xscape::config::CliConfig;
use xscape::config::StorageConfig;
use xscape::config::default_config_path;
use xscape::config::default_exclude_patterns;
use xscape::config::expand_tilde;
use xscape::config::generate_default_config;
use xscape::config::get_agent_url;
use xscape::config::tilde;
use xscape::error::ApiError;
use xscape::error::IosSimError;
use xscape::styles::Styles;
use xscape::text::u64_to_string;
use xscape::text::i64_to_string;
use xscape::text::trim_str;
use xscape::tui::MainMenu;
use xscape::tui::MenuAction;
use xscape::tui::SimulatorAction;
use xscape::tui::SimulatorMenu;
use xscape::tui::VmAction;
use xscape::tui::VmMenu;

#[test]
fn default_config_points_at_the_local_vm() {
    let config = CliConfig::default();
    assert!(matches!(config.agent.mode, AgentMode::LocalVm));
    assert_eq!(config.agent.remote_host, "localhost");
    assert_eq!(config.agent.remote_port, 8080);
    assert_eq!(config.vm.agent_port, 8080);
    assert_eq!(config.vm.memory, "8G");
    assert_eq!(config.vm.cpus, 4);
    assert_eq!(config.simulator.preferred_device, "iPhone 15 Pro");
    assert_eq!(config.project.exclude_patterns, default_exclude_patterns());
}

#[test]
fn storage_defaults_name_the_agent_directories() {
    let storage = StorageConfig::default();
    assert_eq!(storage.projects_dir, "/var/xcode-agent/projects");
    assert_eq!(storage.logs_dir, "/var/xcode-agent/logs");
    assert_eq!(storage.max_projects, 10);
    assert_eq!(storage.cleanup_after_hours, 24);
}

#[test]
fn agent_url_follows_the_mode() {
    let mut config = CliConfig::default();
    assert_eq!(get_agent_url(&config), "http://127.0.0.1:8080");
    config.agent.mode = AgentMode::Remote;
    config.agent.remote_host = String::from("mac.local");
    config.agent.remote_port = 9000;
    assert_eq!(get_agent_url(&config), "http://mac.local:9000");
}

#[test]
fn tilde_expansion_needs_a_home() {
    assert_eq!(expand_tilde("~/projects/app", Some("/home/dev")), "/home/dev/projects/app");
    assert_eq!(expand_tilde("/absolute", Some("/home/dev")), "/absolute");
    assert_eq!(expand_tilde("~/x", None), "~/x");
    assert_eq!(tilde("~/y", Some("/h")), "/h/y");
}

#[test]
fn config_path_sits_under_the_config_directory() {
    assert_eq!(
        default_config_path(Some("/home/dev/.config")),
        "/home/dev/.config/xscape/config.toml"
    );
    assert_eq!(default_config_path(None), "./xscape/config.toml");
}

#[test]
fn generated_config_shows_every_section() {
    let text = generate_default_config();
    assert!(text.starts_with("# xscape configuration"));
    assert_eq!(text, generate_default_config());
    assert!(text.contains("[agent]"));
    assert!(text.contains("[vm]"));
    assert!(text.contains("[vnc]"));
    assert!(text.contains("[project]"));
    assert!(text.contains("[simulator]"));
    assert!(text.contains("mode = \"local-vm\""));
}

#[test]
fn error_kinds_carry_codes_and_messages() {
    let err = IosSimError::ProjectNotFound(7);
    assert_eq!(err.code(), "PROJECT_NOT_FOUND");
    assert_eq!(err.message(), "Project not found: 7");
    let api = err.into_api_error();
    assert_eq!(api.code, "PROJECT_NOT_FOUND");
    assert_eq!(api.message, "Project not found: 7");
    assert!(api.details.is_none());

    let sim = IosSimError::SimulatorNotFound(String::from("UD-9"));
    assert_eq!(sim.code(), "SIMULATOR_NOT_FOUND");
    assert_eq!(sim.message(), "Simulator not found: UD-9");

    assert_eq!(IosSimError::NoXcodeProject.code(), "NO_XCODE_PROJECT");
    assert_eq!(IosSimError::VmNotRunning.message(), "VM not running");
}

#[test]
fn api_error_envelope_renders_code_and_message() {
    let err = ApiError::not_found("Build", "9");
    assert_eq!(err.code, "NOT_FOUND");
    assert_eq!(err.message, "Build not found: 9");
    assert_eq!(err.display_string(), "[NOT_FOUND] Build not found: 9");
    let bad = ApiError::bad_request(String::from("Missing checksum field"));
    assert_eq!(bad.code, "BAD_REQUEST");
    let internal = ApiError::internal(String::from("boom")).with_details(String::from("ctx"));
    assert_eq!(internal.code, "INTERNAL_ERROR");
    assert_eq!(internal.details.as_deref(), Some("ctx"));
}

#[test]
fn byte_counts_format_with_two_decimals() {
    assert_eq!(Styles::format_bytes(500), "500 B");
    assert_eq!(Styles::format_bytes(1536), "1.50 KB");
    assert_eq!(Styles::format_bytes(1048576), "1.00 MB");
    assert_eq!(Styles::format_bytes(1073741824), "1.00 GB");
    assert_eq!(Styles::format_bytes(1610612736), "1.50 GB");
    assert_eq!(Styles::format_bytes(1029), "1.00 KB");
}

#[test]
fn durations_format_by_magnitude() {
    assert_eq!(Styles::format_duration(500), "500ms");
    assert_eq!(Styles::format_duration(1500), "1.5s");
    assert_eq!(Styles::format_duration(59960), "60.0s");
    assert_eq!(Styles::format_duration(65000), "1m 5s");
    assert_eq!(Styles::format_duration(120000), "2m 0s");
}

#[test]
fn decimal_rendering_matches_standard_formatting() {
    assert_eq!(u64_to_string(0), "0");
    assert_eq!(u64_to_string(907), "907");
    assert_eq!(u64_to_string(u64::MAX), format!("{}", u64::MAX));
    assert_eq!(i64_to_string(-45), "-45");
    assert_eq!(i64_to_string(i64::MIN), format!("{}", i64::MIN));
    assert_eq!(trim_str("  padded\t\n"), "padded");
    assert_eq!(trim_str(""), "");
}

#[test]
fn destination_argument_includes_optional_os() {
    let with_os = BuildDestination {
        platform: String::from("iOS Simulator"),
        device_name: String::from("iPhone 15"),
        os_version: Some(String::from("17.0")),
    };
    assert_eq!(with_os.to_xcodebuild_arg(), "platform=iOS Simulator,name=iPhone 15,OS=17.0");
    let without = BuildDestination::ios_simulator(String::from("iPhone 15"));
    assert_eq!(without.to_xcodebuild_arg(), "platform=iOS Simulator,name=iPhone 15");
    assert_eq!(BuildConfiguration::Release.as_str(), "Release");
}

#[test]
fn menu_selections_map_to_actions() {
    assert!(matches!(MainMenu::action_for(0), MenuAction::Run));
    assert!(matches!(MainMenu::action_for(3), MenuAction::Vm));
    assert!(matches!(MainMenu::action_for(6), MenuAction::Exit));
    assert!(matches!(MainMenu::action_for(99), MenuAction::Exit));
    assert!(matches!(SimulatorMenu::action_for(1), SimulatorAction::Boot));
    assert!(matches!(SimulatorMenu::action_for(9), SimulatorAction::Back));
    assert!(matches!(VmMenu::action_for(2), VmAction::Status));
    assert!(matches!(VmMenu::action_for(4), VmAction::Back));
    let set = ConfigCommands::SetValue { key: String::from("agent.mode"), value: String::from("remote") };
    assert!(matches!(set, ConfigCommands::SetValue { .. }));
}
