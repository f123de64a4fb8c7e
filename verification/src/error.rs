//! Errors surfaced while the telemetry pipeline is being installed.

use vstd::prelude::*;

verus! {

/// Why initialization failed: a remote exporter could not be
/// constructed, or the process-wide subscriber was already installed.
/// Each variant carries the underlying report as text.
#[derive(Debug)]
pub enum TelemetryError {
    ExporterBuild(String),
    SubscriberInstall(String),
}

impl TelemetryError {
    /// The underlying report.
    pub fn message(&self) -> (r: &String)
        ensures
            self matches TelemetryError::ExporterBuild(m) ==> r == m,
            self matches TelemetryError::SubscriberInstall(m) ==> r == m,
    {
        match self {
            TelemetryError::ExporterBuild(m) => m,
            TelemetryError::SubscriberInstall(m) => m,
        }
    }
}

} // verus!
