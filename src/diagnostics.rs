//! Lock-free anomaly and emergency counters shared by the pipeline stages.
use vstd::prelude::*;
use std::sync::atomic::{AtomicU64, Ordering};

verus! {

/// Two monotonic counters, updated with relaxed ordering.
pub struct SharedDiagnostics {
    pub anomaly_count: AtomicU64,
    pub emergency_stops: AtomicU64,
}

/// Adds one to `counter` unless it already holds `u64::MAX`.
fn bump(counter: &AtomicU64) {
    let current = counter.load(Ordering::Relaxed);
    if current < u64::MAX {
        counter.fetch_add(1, Ordering::Relaxed);
    }
}

impl SharedDiagnostics {
    /// Both counters at zero.
    pub fn new() -> (r: SharedDiagnostics) {
        SharedDiagnostics { anomaly_count: AtomicU64::new(0), emergency_stops: AtomicU64::new(0) }
    }

    /// Counts one anomalous sample.
    pub fn record_anomaly(&self) {
        bump(&self.anomaly_count);
    }

    /// Counts one emergency report.
    pub fn record_emergency(&self) {
        bump(&self.emergency_stops);
    }

    /// Anomalies counted so far.
    pub fn anomalies(&self) -> (r: u64) {
        self.anomaly_count.load(Ordering::Relaxed)
    }

    /// Emergencies counted so far.
    pub fn emergencies(&self) -> (r: u64) {
        self.emergency_stops.load(Ordering::Relaxed)
    }
}

impl Default for SharedDiagnostics {
    fn default() -> (r: SharedDiagnostics) {
        SharedDiagnostics::new()
    }
}

} // verus!
