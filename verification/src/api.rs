//! The data model of the agent's API: project records, build requests and
//! records, and simulator records. Identifiers are plain integers
//! allocated by the state store; timestamps are milliseconds since the
//! Unix epoch.

use vstd::prelude::*;
use vstd::string::StringExecFns;

verus! {

/// Request to sync a project to the agent.
#[derive(Debug, Clone)]
pub struct SyncProjectRequest {
    /// Human-readable project name.
    pub project_name: String,
    /// Checksum of the archive, for deduplication.
    pub checksum: String,
}

/// Response after a project sync.
#[derive(Debug, Clone)]
pub struct SyncProjectResponse {
    /// Identifier of the project on the agent.
    pub project_id: u64,
    /// Path where the project was extracted on the agent.
    pub path: String,
    /// Number of files extracted.
    pub files_extracted: u32,
    /// Whether the project was already cached (same checksum).
    pub was_cached: bool,
}

/// Project record stored on the agent.
#[derive(Debug, Clone)]
pub struct ProjectInfo {
    pub project_id: u64,
    pub project_name: String,
    pub checksum: String,
    pub path: String,
    pub synced_at: i64,
}

/// Build configuration.
#[derive(Debug, Clone, Copy, PartialEq, Eq, Structural)]
pub enum BuildConfiguration {
    Debug,
    Release,
}

impl Default for BuildConfiguration {
    fn default() -> (r: Self)
        ensures
            r == BuildConfiguration::Debug,
    {
        BuildConfiguration::Debug
    }
}

/// The rendering of a build configuration in tool arguments and paths.
pub open spec fn spec_configuration_name(c: BuildConfiguration) -> Seq<char> {
    match c {
        BuildConfiguration::Debug => "Debug"@,
        BuildConfiguration::Release => "Release"@,
    }
}

impl BuildConfiguration {
    /// The name used in tool arguments and build-output paths.
    pub fn as_str(&self) -> (r: &'static str)
        ensures
            r@ == spec_configuration_name(*self),
    {
        match self {
            BuildConfiguration::Debug => "Debug",
            BuildConfiguration::Release => "Release",
        }
    }
}

/// Build destination: target platform and device.
#[derive(Debug, Clone)]
pub struct BuildDestination {
    /// Platform (e.g., "iOS Simulator").
    pub platform: String,
    /// Device name (e.g., "iPhone 15 Pro").
    pub device_name: String,
    /// OS version (e.g., "17.0"), optional.
    pub os_version: Option<String>,
}

/// The destination argument handed to the build tool.
pub open spec fn spec_destination_arg(d: BuildDestination) -> Seq<char> {
    let base = "platform="@ + d.platform@ + ",name="@ + d.device_name@;
    match d.os_version {
        Some(os) => base + ",OS="@ + os@,
        None => base,
    }
}

impl BuildDestination {
    /// A simulator destination for the given device, without an OS pin.
    pub fn ios_simulator(device_name: String) -> (r: BuildDestination)
        ensures
            r.platform@ == "iOS Simulator"@,
            r.device_name == device_name,
            r.os_version is None,
    {
        BuildDestination {
            platform: String::from_str("iOS Simulator"),
            device_name,
            os_version: None,
        }
    }

    /// Renders the `-destination` argument for the build tool.
    pub fn to_xcodebuild_arg(&self) -> (r: String)
        ensures
            r@ == spec_destination_arg(*self),
    {
        let base = String::from_str("platform=").concat(self.platform.as_str()).concat(
            ",name=",
        ).concat(self.device_name.as_str());
        match &self.os_version {
            Some(os) => base.concat(",OS=").concat(os.as_str()),
            None => base,
        }
    }
}

/// Request to build a project.
#[derive(Debug, Clone)]
pub struct BuildRequest {
    /// Project id from sync.
    pub project_id: u64,
    /// Relative path of the build descriptor within the project, when the
    /// client overrides the search.
    pub project_file: Option<String>,
    /// Scheme to build.
    pub scheme: String,
    /// Build configuration.
    pub configuration: BuildConfiguration,
    /// Target device for the build destination.
    pub destination: BuildDestination,
    /// Additional build-tool arguments.
    pub extra_args: Vec<String>,
    /// Clean the build directory first.
    pub clean: bool,
}

/// Build status.
#[derive(Debug, Clone, Copy, PartialEq, Eq, Structural)]
pub enum BuildStatus {
    /// Waiting to start.
    Queued,
    /// Currently building.
    Building,
    /// Completed successfully.
    Succeeded,
    /// Failed.
    Failed,
    /// Cancelled from outside.
    Cancelled,
}

impl BuildStatus {
    /// Whether this status is terminal: no transition leaves it.
    pub open spec fn spec_is_terminal(self) -> bool {
        self == BuildStatus::Succeeded || self == BuildStatus::Failed || self
            == BuildStatus::Cancelled
    }

    /// Whether this status is terminal.
    pub fn is_terminal(&self) -> (r: bool)
        ensures
            r == self.spec_is_terminal(),
    {
        match self {
            BuildStatus::Succeeded | BuildStatus::Failed | BuildStatus::Cancelled => true,
            BuildStatus::Queued | BuildStatus::Building => false,
        }
    }
}

/// Response when a build is accepted.
#[derive(Debug, Clone)]
pub struct BuildResponse {
    /// Build identifier.
    pub build_id: u64,
    /// Initial status.
    pub status: BuildStatus,
    /// When the build was queued.
    pub started_at: i64,
}

/// Detailed build record.
#[derive(Debug, Clone)]
pub struct BuildStatusResponse {
    pub build_id: u64,
    pub project_id: u64,
    pub scheme: String,
    pub status: BuildStatus,
    pub started_at: i64,
    pub finished_at: Option<i64>,
    /// Path of the built app bundle (when succeeded).
    pub app_path: Option<String>,
    /// Bundle identifier of the app (when succeeded).
    pub bundle_id: Option<String>,
    /// Error message (when failed or cancelled).
    pub error_message: Option<String>,
    /// Build warnings.
    pub warnings: Vec<String>,
    /// Build duration in milliseconds (when finished).
    pub duration_millis: Option<i64>,
}

impl BuildStatusResponse {
    /// Well-formedness of a build record: the finish fields are set
    /// exactly on terminal records, the artifact fields exactly on
    /// success, and the error message exactly on failure or cancellation.
    pub open spec fn wf(self) -> bool {
        &&& (self.finished_at is Some <==> self.status.spec_is_terminal())
        &&& (self.duration_millis is Some <==> self.status.spec_is_terminal())
        &&& (self.app_path is Some <==> self.status == BuildStatus::Succeeded)
        &&& (self.bundle_id is Some <==> self.status == BuildStatus::Succeeded)
        &&& (self.error_message is Some <==> (self.status == BuildStatus::Failed || self.status
            == BuildStatus::Cancelled))
    }

    /// The fresh record for a newly accepted build.
    pub fn queued(build_id: u64, project_id: u64, scheme: String, started_at: i64) -> (r:
        BuildStatusResponse)
        ensures
            r.wf(),
            r.build_id == build_id,
            r.project_id == project_id,
            r.scheme == scheme,
            r.status == BuildStatus::Queued,
            r.started_at == started_at,
            r.warnings@.len() == 0,
    {
        BuildStatusResponse {
            build_id,
            project_id,
            scheme,
            status: BuildStatus::Queued,
            started_at,
            finished_at: None,
            app_path: None,
            bundle_id: None,
            error_message: None,
            warnings: Vec::new(),
            duration_millis: None,
        }
    }
}

/// How a build ended: the one terminal transition every build takes.
#[derive(Debug, Clone)]
pub enum BuildOutcome {
    /// The subprocess exited cleanly and an app bundle was located.
    Success { app_path: String, bundle_id: String, warnings: Vec<String> },
    /// The subprocess failed, or no app bundle was produced.
    Failure { message: String },
    /// The subprocess was killed from outside.
    Cancelled { message: String },
}

/// The status a terminal record gets for each outcome.
pub open spec fn spec_outcome_status(o: BuildOutcome) -> BuildStatus {
    match o {
        BuildOutcome::Success { .. } => BuildStatus::Succeeded,
        BuildOutcome::Failure { .. } => BuildStatus::Failed,
        BuildOutcome::Cancelled { .. } => BuildStatus::Cancelled,
    }
}

/// Wall-clock duration from `started` to `now`, clamped into `0..=i64::MAX`.
pub open spec fn spec_duration(started: int, now: int) -> int {
    if now < started {
        0
    } else if now - started > i64::MAX {
        i64::MAX as int
    } else {
        now - started
    }
}

impl BuildStatusResponse {
    /// The terminal record an outcome produces: one visible replacement
    /// that sets status, finish time, duration and the outcome's fields
    /// together.
    pub fn complete_record(self, outcome: BuildOutcome, now: i64) -> (r: BuildStatusResponse)
        requires
            self.wf(),
            !self.status.spec_is_terminal(),
        ensures
            r.wf(),
            r.build_id == self.build_id,
            r.project_id == self.project_id,
            r.scheme == self.scheme,
            r.started_at == self.started_at,
            r.status == spec_outcome_status(outcome),
            r.status.spec_is_terminal(),
            r.finished_at == Some(now),
            r.duration_millis == Some(spec_duration(self.started_at as int, now as int) as i64),
            (outcome matches BuildOutcome::Success { app_path, bundle_id, warnings } ==> {
                &&& r.app_path == Some(app_path)
                &&& r.bundle_id == Some(bundle_id)
                &&& r.warnings == warnings
                &&& r.error_message is None
            }),
            (outcome matches BuildOutcome::Failure { message } ==> {
                &&& r.error_message == Some(message)
                &&& r.app_path is None
                &&& r.bundle_id is None
                &&& r.warnings == self.warnings
            }),
            (outcome matches BuildOutcome::Cancelled { message } ==> {
                &&& r.error_message == Some(message)
                &&& r.app_path is None
                &&& r.bundle_id is None
                &&& r.warnings == self.warnings
            }),
    {
        let diff: i128 = (now as i128) - (self.started_at as i128);
        let duration: i64 = if diff < 0 {
            0
        } else if diff > (i64::MAX as i128) {
            i64::MAX
        } else {
            diff as i64
        };
        match outcome {
            BuildOutcome::Success { app_path, bundle_id, warnings } => {
                BuildStatusResponse {
                    status: BuildStatus::Succeeded,
                    finished_at: Some(now),
                    duration_millis: Some(duration),
                    app_path: Some(app_path),
                    bundle_id: Some(bundle_id),
                    error_message: None,
                    warnings,
                    ..self
                }
            },
            BuildOutcome::Failure { message } => {
                BuildStatusResponse {
                    status: BuildStatus::Failed,
                    finished_at: Some(now),
                    duration_millis: Some(duration),
                    app_path: None,
                    bundle_id: None,
                    error_message: Some(message),
                    ..self
                }
            },
            BuildOutcome::Cancelled { message } => {
                BuildStatusResponse {
                    status: BuildStatus::Cancelled,
                    finished_at: Some(now),
                    duration_millis: Some(duration),
                    app_path: None,
                    bundle_id: None,
                    error_message: Some(message),
                    ..self
                }
            },
        }
    }
}

/// A copy of a string carrying the same characters.
pub fn clone_string(s: &String) -> (r: String)
    ensures
        r@ == s@,
{
    String::from_str(s.as_str())
}

/// A copy of a string vector carrying the same characters.
pub fn clone_strings(v: &Vec<String>) -> (r: Vec<String>)
    ensures
        r@.len() == v@.len(),
        forall|j: int| 0 <= j < v@.len() ==> #[trigger] r@[j]@ == v@[j]@,
{
    let mut out: Vec<String> = Vec::new();
    let n = v.len();
    let mut i: usize = 0;
    while i < n
        invariant
            0 <= i <= n,
            n == v@.len(),
            out@.len() == i,
            forall|j: int| 0 <= j < i ==> #[trigger] out@[j]@ == v@[j]@,
        decreases n - i,
    {
        out.push(clone_string(&v[i]));
        i = i + 1;
    }
    out
}

/// Build artifacts stored after a successful build.
#[derive(Debug, Clone)]
pub struct BuildArtifacts {
    /// Path of the built app bundle.
    pub app_path: String,
    /// Bundle identifier.
    pub bundle_id: Option<String>,
    /// Build warnings.
    pub warnings: Vec<String>,
}

/// Simulator device state.
#[derive(Debug, Clone, Copy, PartialEq, Eq, Structural)]
pub enum SimulatorState {
    Shutdown,
    Booted,
    Booting,
    ShuttingDown,
}

impl Default for SimulatorState {
    fn default() -> (r: Self)
        ensures
            r == SimulatorState::Shutdown,
    {
        SimulatorState::Shutdown
    }
}

/// A simulator device, as reported by the device-control tool.
#[derive(Debug, Clone)]
pub struct SimulatorDevice {
    /// Device UDID.
    pub udid: String,
    /// Device name (e.g., "iPhone 15 Pro").
    pub name: String,
    /// Device type identifier.
    pub device_type_identifier: String,
    /// Runtime identifier.
    pub runtime_identifier: String,
    /// Human-readable runtime (e.g., "iOS 17 0").
    pub runtime: String,
    /// Current state.
    pub state: SimulatorState,
    /// Whether the device is available.
    pub is_available: bool,
}

/// A simulator runtime.
#[derive(Debug, Clone)]
pub struct SimulatorRuntime {
    /// Runtime identifier.
    pub identifier: String,
    /// Human-readable name (e.g., "iOS 17.0").
    pub name: String,
    /// Version string.
    pub version: String,
    /// Build version.
    pub build_version: String,
    /// Whether the runtime is available.
    pub is_available: bool,
}

/// Response listing available simulators.
#[derive(Debug, Clone)]
pub struct ListSimulatorsResponse {
    pub devices: Vec<SimulatorDevice>,
    pub runtimes: Vec<SimulatorRuntime>,
}

/// Request to boot a simulator.
#[derive(Debug, Clone)]
pub struct BootSimulatorRequest {
    /// Device UDID to boot.
    pub device_udid: String,
}

/// Response after booting or shutting down a simulator.
#[derive(Debug, Clone)]
pub struct BootSimulatorResponse {
    pub device_udid: String,
    pub state: SimulatorState,
}

/// Request to shut a simulator down.
#[derive(Debug, Clone)]
pub struct ShutdownSimulatorRequest {
    /// Device UDID to shut down.
    pub device_udid: String,
}

/// Request to run a built app in a simulator.
#[derive(Debug, Clone)]
pub struct RunAppRequest {
    /// Build id to take the app from.
    pub build_id: u64,
    /// Device UDID to run on.
    pub device_udid: String,
    /// Arguments to pass to the app.
    pub launch_args: Vec<String>,
    /// Environment variables for the app, as key-value pairs.
    pub environment: Vec<(String, String)>,
    /// Wait for the app to exit rather than returning immediately.
    pub wait_for_exit: bool,
}

/// Response after launching an app.
#[derive(Debug, Clone)]
pub struct RunAppResponse {
    /// Session id for this run.
    pub session_id: u64,
    /// Bundle id of the launched app.
    pub bundle_id: String,
    /// Process id, when one could be read from the tool's output.
    pub pid: Option<u32>,
    /// Device UDID where the app runs.
    pub device_udid: String,
}

} // verus!
