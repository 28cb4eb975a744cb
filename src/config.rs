//! Experiment parameters. Reading them from a file is left to the caller.
use vstd::prelude::*;

verus! {

/// Parameters of one experiment run.
#[derive(Debug, Clone)]
pub struct ExperimentConfig {
    pub experiment_name: String,
    pub duration_secs: u64,
    pub sensor_period_ms: u64,
    pub cpu_load_threads: usize,
    /// Tag copied into every record's `mode`.
    pub mode: String,
    /// Optional busy-work injected into each cycle, in nanoseconds.
    pub processing_time_ns: u64,
    pub enable_logging: bool,
}

/// Background CPU load settings.
#[derive(Debug, Clone, Copy, PartialEq, Eq, Structural)]
pub struct CpuLoadConfig {
    pub enabled: bool,
    pub threads: usize,
}

/// Shared-resource contention settings.
#[derive(Debug, Clone, Copy, PartialEq, Eq, Structural)]
pub struct SharedResourceConfig {
    pub high_contention: bool,
}

impl ExperimentConfig {
    /// The controller time step: one sensor period, in milliseconds.
    pub fn dt_ms(&self) -> (r: u64)
        ensures
            r == self.sensor_period_ms,
    {
        self.sensor_period_ms
    }
}

} // verus!
