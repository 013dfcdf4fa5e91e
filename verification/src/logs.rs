//! Structured log messages streamed from the agent: build-tool output
//! lines with a severity, app logs, system events and progress marks.
//! Timestamps are milliseconds since the Unix epoch.

use vstd::prelude::*;

verus! {

/// Log severity level.
#[derive(Debug, Clone, Copy, PartialEq, Eq, Structural)]
pub enum LogLevel {
    Debug,
    Info,
    Warning,
    Error,
}

impl Default for LogLevel {
    fn default() -> (r: Self)
        ensures
            r == LogLevel::Info,
    {
        LogLevel::Info
    }
}

/// System event kinds published alongside build output.
#[derive(Debug, Clone, Copy, PartialEq, Eq, Structural)]
pub enum SystemEventType {
    BuildQueued,
    BuildStarted,
    BuildSucceeded,
    BuildFailed,
    BuildCancelled,
    SimulatorBooting,
    SimulatorBooted,
    SimulatorShutdown,
    AppInstalling,
    AppInstalled,
    AppLaunching,
    AppLaunched,
    AppCrashed,
    AppExited,
}

/// One message on a build's log channel.
#[derive(Debug, Clone)]
pub enum LogMessage {
    /// Output from the build tool during a build.
    BuildOutput { timestamp: i64, level: LogLevel, message: String },
    /// Log from the running app.
    AppLog {
        timestamp: i64,
        process: String,
        subsystem: Option<String>,
        category: Option<String>,
        message: String,
    },
    /// System event (build started, completed, and the like).
    SystemEvent { timestamp: i64, event: SystemEventType, message: String },
    /// Build phase progress.
    BuildProgress {
        timestamp: i64,
        phase: String,
        target: Option<String>,
        progress_percent: Option<u8>,
    },
}

impl LogMessage {
    /// A build-output line, stamped with the current time.
    pub fn build_output(level: LogLevel, message: String) -> (r: LogMessage)
        ensures
            r matches LogMessage::BuildOutput { level: l, message: m, .. } && l == level && m
                == message,
    {
        LogMessage::BuildOutput { timestamp: crate::clock::now_millis(), level, message }
    }

    /// A system event, stamped with the current time.
    pub fn system_event(event: SystemEventType, message: String) -> (r: LogMessage)
        ensures
            r matches LogMessage::SystemEvent { event: e, message: m, .. } && e == event && m
                == message,
    {
        LogMessage::SystemEvent { timestamp: crate::clock::now_millis(), event, message }
    }

    /// A build progress mark, stamped with the current time.
    pub fn build_progress(phase: String, target: Option<String>, progress: Option<u8>) -> (r:
        LogMessage)
        ensures
            r matches LogMessage::BuildProgress {
                phase: p,
                target: t,
                progress_percent: g,
                ..
            } && p == phase && t == target && g == progress,
    {
        LogMessage::BuildProgress {
            timestamp: crate::clock::now_millis(),
            phase,
            target,
            progress_percent: progress,
        }
    }
}

} // verus!
