//! Verified core of a soft real-time sensor/actuator benchmarking pipeline:
//! timing accounting, the adaptive feedback rules, the PID controller and the
//! shared metrics recorder with its synchronisation strategies.
pub mod actuator;
pub mod clock;
pub mod config;
pub mod dashboard;
pub mod diagnostics;
pub mod metrics;
pub mod pid;
pub mod recorder;
pub mod sensor;
pub mod stats;
pub mod sync_strategies;
pub mod types;
pub mod workload;
