//! The agent's health report: degraded when a probe fails, unhealthy
//! when the toolchain is absent. Probing happens outside the library;
//! the judgment is made here.

use vstd::prelude::*;

use crate::xcode::XcodeInfo;

verus! {

/// Agent health status.
#[derive(Debug, Clone, Copy, PartialEq, Eq, Structural)]
pub enum HealthStatus {
    /// All systems operational.
    Healthy,
    /// Partial functionality available.
    Degraded,
    /// Critical systems unavailable.
    Unhealthy,
}

/// Health report returned by the agent.
#[derive(Debug, Clone)]
pub struct HealthResponse {
    pub status: HealthStatus,
    pub xcode_version: Option<String>,
    pub xcode_path: Option<String>,
    pub available_simulators: u32,
    pub agent_version: String,
}

/// The status the two probes dictate: unhealthy without a toolchain,
/// degraded when only the device listing failed, healthy otherwise.
pub open spec fn spec_health_status(has_xcode: bool, has_devices: bool) -> HealthStatus {
    if !has_xcode {
        HealthStatus::Unhealthy
    } else if !has_devices {
        HealthStatus::Degraded
    } else {
        HealthStatus::Healthy
    }
}

/// Builds the health report from the toolchain probe, the device-count
/// probe, and the agent's version.
pub fn health_check(
    xcode: Option<XcodeInfo>,
    device_count: Option<u32>,
    agent_version: String,
) -> (r: HealthResponse)
    ensures
        r.agent_version == agent_version,
        r.status == spec_health_status(xcode is Some, device_count is Some),
        (match xcode {
            Some(i) => r.xcode_version == Some(i.version) && r.xcode_path == Some(i.path),
            None => r.xcode_version is None && r.xcode_path is None,
        }),
        r.available_simulators == (match device_count {
            Some(n) => n,
            None => 0u32,
        }),
{
    match xcode {
        Some(info) => {
            let has_devices = device_count.is_some();
            HealthResponse {
                status: if has_devices {
                    HealthStatus::Healthy
                } else {
                    HealthStatus::Degraded
                },
                xcode_version: Some(info.version),
                xcode_path: Some(info.path),
                available_simulators: match device_count {
                    Some(n) => n,
                    None => 0,
                },
                agent_version,
            }
        },
        None => {
            HealthResponse {
                status: HealthStatus::Unhealthy,
                xcode_version: None,
                xcode_path: None,
                available_simulators: match device_count {
                    Some(n) => n,
                    None => 0,
                },
                agent_version,
            }
        },
    }
}

} // verus!
