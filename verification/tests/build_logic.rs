//! Build orchestration decisions: descriptor lookup, tool arguments,
//! output classification, bundle selection and outcome messages.

use xscape::api::BuildConfiguration;
use xscape::api::BuildDestination;
use xscape::api::BuildOutcome;
use xscape::api::BuildRequest;
use xscape::error::IosSimError;
use xscape::logs::LogLevel;
use xscape::xcode::artifact_missing_outcome;
use xscape::xcode::exit_failure_outcome;
use xscape::xcode::find_xcode_project;
use xscape::xcode::parse_bundle_id;
use xscape::xcode::parse_xcode_path;
use xscape::xcode::parse_xcode_version;
use xscape::xcode::parse_xcodebuild_line;
use xscape::xcode::select_app_bundle;
use xscape::xcode::specified_project_file;
use xscape::xcode::xcodebuild_args;

fn strings(v: &[&str]) -> Vec<String> {
    v.iter().map(|s| String::from(*s)).collect()
}

#[test]
fn workspace_is_preferred_over_project_file() {
    let listing = strings(&["README.md", "App.xcodeproj", "App.xcworkspace"]);
    let (path, is_workspace) = find_xcode_project("/p", &listing).unwrap();
    assert!(is_workspace);
    assert_eq!(path, "/p/App.xcworkspace");
}

#[test]
fn project_file_is_found_without_workspace() {
    let listing = strings(&["README.md", "App.xcodeproj"]);
    let (path, is_workspace) = find_xcode_project("/p", &listing).unwrap();
    assert!(!is_workspace);
    assert_eq!(path, "/p/App.xcodeproj");
}

#[test]
fn missing_descriptor_is_its_own_error() {
    let listing = strings(&["README.md", "src"]);
    let err = find_xcode_project("/p", &listing).unwrap_err();
    assert!(matches!(err, IosSimError::NoXcodeProject));
    assert_eq!(err.code(), "NO_XCODE_PROJECT");
}

#[test]
fn explicit_descriptor_is_used_when_it_exists() {
    let (path, is_workspace) = specified_project_file("/p", "Inner/App.xcworkspace", true).unwrap();
    assert!(is_workspace);
    assert_eq!(path, "/p/Inner/App.xcworkspace");
    let err = specified_project_file("/p", "Gone.xcodeproj", false).unwrap_err();
    match err {
        IosSimError::InvalidProject(m) => {
            assert_eq!(m, "Specified project file not found: Gone.xcodeproj")
        }
        _ => panic!("a missing explicit descriptor is an invalid-project error"),
    }
}

#[test]
fn output_lines_classify_by_substring() {
    assert!(matches!(parse_xcodebuild_line("src/App.swift:3: error: oh no").0, LogLevel::Error));
    assert!(matches!(parse_xcodebuild_line("clang: Fatal Error: ran out").0, LogLevel::Error));
    assert!(matches!(parse_xcodebuild_line("App.swift: warning: unused").0, LogLevel::Warning));
    assert!(matches!(parse_xcodebuild_line("ld: note: linking").0, LogLevel::Debug));
    assert!(matches!(parse_xcodebuild_line("CompileSwift normal arm64").0, LogLevel::Info));
    let (_, text) = parse_xcodebuild_line("kept verbatim");
    assert_eq!(text, "kept verbatim");
}

#[test]
fn build_arguments_follow_the_request() {
    let request = BuildRequest {
        project_id: 1,
        project_file: None,
        scheme: String::from("MyScheme"),
        configuration: BuildConfiguration::Release,
        destination: BuildDestination {
            platform: String::from("iOS Simulator"),
            device_name: String::from("iPhone 15 Pro"),
            os_version: Some(String::from("17.0")),
        },
        extra_args: strings(&["-quiet"]),
        clean: true,
    };
    let args = xcodebuild_args(&request, "/p/App.xcworkspace", true);
    assert_eq!(
        args,
        strings(&[
            "-workspace",
            "/p/App.xcworkspace",
            "-scheme",
            "MyScheme",
            "-configuration",
            "Release",
            "-sdk",
            "iphonesimulator",
            "-destination",
            "platform=iOS Simulator,name=iPhone 15 Pro,OS=17.0",
            "clean",
            "build",
            "-quiet",
        ])
    );
}

#[test]
fn build_arguments_without_clean_or_extras() {
    let request = BuildRequest {
        project_id: 1,
        project_file: None,
        scheme: String::from("S"),
        configuration: BuildConfiguration::Debug,
        destination: BuildDestination::ios_simulator(String::from("iPhone 15")),
        extra_args: Vec::new(),
        clean: false,
    };
    let args = xcodebuild_args(&request, "/p/App.xcodeproj", false);
    assert_eq!(
        args,
        strings(&[
            "-project",
            "/p/App.xcodeproj",
            "-scheme",
            "S",
            "-configuration",
            "Debug",
            "-sdk",
            "iphonesimulator",
            "-destination",
            "platform=iOS Simulator,name=iPhone 15",
            "build",
        ])
    );
}

#[test]
fn app_bundle_must_match_configuration_and_platform() {
    let paths = strings(&[
        "/d/Build/Products/Release-iphoneos/My.app",
        "/d/Build/Products/Debug-iphonesimulator/notes.txt",
        "/d/Build/Products/Debug-iphonesimulator/My.app",
        "/d/Build/Products/Debug-iphonesimulator/Other.app",
    ]);
    let found = select_app_bundle(&paths, &BuildConfiguration::Debug).unwrap();
    assert_eq!(found, "/d/Build/Products/Debug-iphonesimulator/My.app");
    assert!(select_app_bundle(&paths, &BuildConfiguration::Release).is_none());
}

#[test]
fn outcome_messages_tell_exit_and_artifact_apart() {
    match exit_failure_outcome("Some(65)") {
        BuildOutcome::Failure { message } => {
            assert_eq!(message, "Build failed with exit code: Some(65)")
        }
        _ => panic!("a failed exit is a failure outcome"),
    }
    match artifact_missing_outcome("MyScheme") {
        BuildOutcome::Failure { message } => {
            assert!(message.contains("Could not find built app for scheme 'MyScheme'"));
            assert!(!message.contains("exit code"));
        }
        _ => panic!("a missing artifact is a failure outcome"),
    }
}

#[test]
fn toolchain_version_and_path_parse_from_tool_output() {
    assert_eq!(parse_xcode_version("Xcode 15.0\nBuild version 15A240d\n"), "15.0");
    assert_eq!(parse_xcode_version(""), "Unknown");
    assert_eq!(parse_xcode_version("weird output"), "weird output");
    assert_eq!(parse_xcode_path("/Applications/Xcode.app/Contents/Developer\n"),
        "/Applications/Xcode.app/Contents/Developer");
    assert_eq!(parse_bundle_id(" com.example.My \n"), "com.example.My");
}
