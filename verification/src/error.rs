//! Error taxonomy: the agent's own error kinds and the wire-level error
//! envelope with machine-readable codes.

use vstd::prelude::*;
use vstd::string::StringExecFns;

verus! {

/// Errors that can occur in agent and client operations.
#[derive(Debug, Clone)]
pub enum IosSimError {
    /// The native toolchain is not found or not configured.
    XcodeNotFound,
    /// The command line tools are not installed.
    XcodeToolsNotInstalled,
    /// No simulator device matches the given identifier.
    SimulatorNotFound(String),
    /// The requested simulator runtime is not available.
    RuntimeNotAvailable(String),
    /// The build subprocess reported failure.
    BuildFailed(String),
    /// No project with this id is registered.
    ProjectNotFound(u64),
    /// The uploaded project is malformed.
    InvalidProject(String),
    /// No build descriptor file exists in the project tree.
    NoXcodeProject,
    /// The requested scheme does not exist.
    SchemeNotFound(String),
    /// The agent answered with an error.
    AgentError(String),
    /// The agent could not be reached.
    AgentUnreachable(String),
    /// The local virtual machine failed.
    VmError(String),
    /// The local virtual machine is not running.
    VmNotRunning,
    /// The configuration file is invalid.
    ConfigError(String),
    /// An operation did not finish in time.
    Timeout(String),
    /// An input/output failure, carried as text.
    Io(String),
    /// A serialization failure, carried as text.
    Json(String),
}

/// The machine-readable code of each error kind.
pub open spec fn spec_error_code(e: IosSimError) -> Seq<char> {
    match e {
        IosSimError::XcodeNotFound => "XCODE_NOT_FOUND"@,
        IosSimError::XcodeToolsNotInstalled => "XCODE_TOOLS_NOT_INSTALLED"@,
        IosSimError::SimulatorNotFound(_) => "SIMULATOR_NOT_FOUND"@,
        IosSimError::RuntimeNotAvailable(_) => "RUNTIME_NOT_AVAILABLE"@,
        IosSimError::BuildFailed(_) => "BUILD_FAILED"@,
        IosSimError::ProjectNotFound(_) => "PROJECT_NOT_FOUND"@,
        IosSimError::InvalidProject(_) => "INVALID_PROJECT"@,
        IosSimError::NoXcodeProject => "NO_XCODE_PROJECT"@,
        IosSimError::SchemeNotFound(_) => "SCHEME_NOT_FOUND"@,
        IosSimError::AgentError(_) => "AGENT_ERROR"@,
        IosSimError::AgentUnreachable(_) => "AGENT_UNREACHABLE"@,
        IosSimError::VmError(_) => "VM_ERROR"@,
        IosSimError::VmNotRunning => "VM_NOT_RUNNING"@,
        IosSimError::ConfigError(_) => "CONFIG_ERROR"@,
        IosSimError::Timeout(_) => "TIMEOUT"@,
        IosSimError::Io(_) => "IO_ERROR"@,
        IosSimError::Json(_) => "JSON_ERROR"@,
    }
}

/// The human-readable message of each error kind.
pub open spec fn spec_error_message(e: IosSimError) -> Seq<char> {
    match e {
        IosSimError::XcodeNotFound => "Xcode not found or not configured at expected path"@,
        IosSimError::XcodeToolsNotInstalled => "Xcode command line tools not installed"@,
        IosSimError::SimulatorNotFound(s) => "Simulator not found: "@ + s@,
        IosSimError::RuntimeNotAvailable(s) => "Simulator runtime not available: "@ + s@,
        IosSimError::BuildFailed(s) => "Build failed: "@ + s@,
        IosSimError::ProjectNotFound(id) => "Project not found: "@ + crate::text::dec_seq(
            id as nat,
        ),
        IosSimError::InvalidProject(s) => "Invalid project structure: "@ + s@,
        IosSimError::NoXcodeProject => "No .xcodeproj or .xcworkspace found in project"@,
        IosSimError::SchemeNotFound(s) => "Scheme not found: "@ + s@,
        IosSimError::AgentError(s) => "Agent communication error: "@ + s@,
        IosSimError::AgentUnreachable(s) => "Agent not reachable at "@ + s@,
        IosSimError::VmError(s) => "VM error: "@ + s@,
        IosSimError::VmNotRunning => "VM not running"@,
        IosSimError::ConfigError(s) => "Configuration error: "@ + s@,
        IosSimError::Timeout(s) => "Timeout waiting for "@ + s@,
        IosSimError::Io(s) => "IO error: "@ + s@,
        IosSimError::Json(s) => "JSON error: "@ + s@,
    }
}

impl IosSimError {
    /// The machine-readable code of this error.
    pub fn code(&self) -> (r: &'static str)
        ensures
            r@ == spec_error_code(*self),
    {
        match self {
            IosSimError::XcodeNotFound => "XCODE_NOT_FOUND",
            IosSimError::XcodeToolsNotInstalled => "XCODE_TOOLS_NOT_INSTALLED",
            IosSimError::SimulatorNotFound(_) => "SIMULATOR_NOT_FOUND",
            IosSimError::RuntimeNotAvailable(_) => "RUNTIME_NOT_AVAILABLE",
            IosSimError::BuildFailed(_) => "BUILD_FAILED",
            IosSimError::ProjectNotFound(_) => "PROJECT_NOT_FOUND",
            IosSimError::InvalidProject(_) => "INVALID_PROJECT",
            IosSimError::NoXcodeProject => "NO_XCODE_PROJECT",
            IosSimError::SchemeNotFound(_) => "SCHEME_NOT_FOUND",
            IosSimError::AgentError(_) => "AGENT_ERROR",
            IosSimError::AgentUnreachable(_) => "AGENT_UNREACHABLE",
            IosSimError::VmError(_) => "VM_ERROR",
            IosSimError::VmNotRunning => "VM_NOT_RUNNING",
            IosSimError::ConfigError(_) => "CONFIG_ERROR",
            IosSimError::Timeout(_) => "TIMEOUT",
            IosSimError::Io(_) => "IO_ERROR",
            IosSimError::Json(_) => "JSON_ERROR",
        }
    }

    /// The human-readable message of this error.
    pub fn message(&self) -> (r: String)
        ensures
            r@ == spec_error_message(*self),
    {
        match self {
            IosSimError::XcodeNotFound => String::from_str(
                "Xcode not found or not configured at expected path",
            ),
            IosSimError::XcodeToolsNotInstalled => String::from_str(
                "Xcode command line tools not installed",
            ),
            IosSimError::SimulatorNotFound(s) => String::from_str("Simulator not found: ").concat(
                s.as_str(),
            ),
            IosSimError::RuntimeNotAvailable(s) => String::from_str(
                "Simulator runtime not available: ",
            ).concat(s.as_str()),
            IosSimError::BuildFailed(s) => String::from_str("Build failed: ").concat(s.as_str()),
            IosSimError::ProjectNotFound(id) => String::from_str("Project not found: ").concat(
                crate::text::u64_to_string(*id).as_str(),
            ),
            IosSimError::InvalidProject(s) => String::from_str(
                "Invalid project structure: ",
            ).concat(s.as_str()),
            IosSimError::NoXcodeProject => String::from_str(
                "No .xcodeproj or .xcworkspace found in project",
            ),
            IosSimError::SchemeNotFound(s) => String::from_str("Scheme not found: ").concat(
                s.as_str(),
            ),
            IosSimError::AgentError(s) => String::from_str("Agent communication error: ").concat(
                s.as_str(),
            ),
            IosSimError::AgentUnreachable(s) => String::from_str("Agent not reachable at ").concat(
                s.as_str(),
            ),
            IosSimError::VmError(s) => String::from_str("VM error: ").concat(s.as_str()),
            IosSimError::VmNotRunning => String::from_str("VM not running"),
            IosSimError::ConfigError(s) => String::from_str("Configuration error: ").concat(
                s.as_str(),
            ),
            IosSimError::Timeout(s) => String::from_str("Timeout waiting for ").concat(s.as_str()),
            IosSimError::Io(s) => String::from_str("IO error: ").concat(s.as_str()),
            IosSimError::Json(s) => String::from_str("JSON error: ").concat(s.as_str()),
        }
    }
}

/// The error envelope returned to API callers.
#[derive(Debug, Clone)]
pub struct ApiError {
    /// Machine-readable error code.
    pub code: String,
    /// Human-readable error message.
    pub message: String,
    /// Additional error details.
    pub details: Option<String>,
}

impl ApiError {
    pub fn new(code: &str, message: String) -> (r: ApiError)
        ensures
            r.code@ == code@,
            r.message == message,
            r.details is None,
    {
        ApiError { code: String::from_str(code), message, details: None }
    }

    pub fn with_details(self, details: String) -> (r: ApiError)
        ensures
            r.code == self.code,
            r.message == self.message,
            r.details == Some(details),
    {
        ApiError { details: Some(details), ..self }
    }

    /// A `NOT_FOUND` error naming the missing resource and its id.
    pub fn not_found(resource: &str, id: &str) -> (r: ApiError)
        ensures
            r.code@ == "NOT_FOUND"@,
            r.message@ == resource@ + " not found: "@ + id@,
            r.details is None,
    {
        let msg = String::from_str(resource).concat(" not found: ").concat(id);
        ApiError::new("NOT_FOUND", msg)
    }

    /// A `BAD_REQUEST` error.
    pub fn bad_request(message: String) -> (r: ApiError)
        ensures
            r.code@ == "BAD_REQUEST"@,
            r.message == message,
            r.details is None,
    {
        ApiError::new("BAD_REQUEST", message)
    }

    /// An `INTERNAL_ERROR` error.
    pub fn internal(message: String) -> (r: ApiError)
        ensures
            r.code@ == "INTERNAL_ERROR"@,
            r.message == message,
            r.details is None,
    {
        ApiError::new("INTERNAL_ERROR", message)
    }

    /// The `[CODE] message` rendering of this error.
    pub fn display_string(&self) -> (r: String)
        ensures
            r@ == "["@ + self.code@ + "] "@ + self.message@,
    {
        String::from_str("[").concat(self.code.as_str()).concat("] ").concat(self.message.as_str())
    }
}

impl IosSimError {
    /// Maps this error kind to its code and message in the envelope.
    pub fn into_api_error(self) -> (r: ApiError)
        ensures
            r.code@ == spec_error_code(self),
            r.message@ == spec_error_message(self),
            r.details is None,
    {
        let message = self.message();
        let code = self.code();
        ApiError { code: String::from_str(code), message, details: None }
    }
}

} // verus!
