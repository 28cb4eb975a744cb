//! Values that travel through the pipeline.
//!
//! Physical quantities are fixed-point integers: force, position, temperature
//! and actuator error are counted in thousandths of a unit ("milli-units").
use vstd::prelude::*;

verus! {

/// The three actuator kinds, each with its own processing deadline.
#[derive(Debug, Clone, Copy, PartialEq, Eq, Structural, Hash)]
pub enum ActuatorType {
    Gripper,
    Motor,
    Stabilizer,
}

/// Health reported by an actuator with each feedback item.
#[derive(Debug, Clone, Copy, PartialEq, Eq, Structural, Hash)]
pub enum ActuatorStatus {
    Normal,
    Correcting,
    Emergency,
}

/// One filtered sample, created by the sensor at each tick.
///
/// `timestamp` is the offset in nanoseconds from the experiment's clock
/// origin; downstream stages never overwrite it.
#[derive(Debug, Clone, Copy, PartialEq, Eq, Structural)]
pub struct SensorData {
    pub id: u64,
    pub timestamp: u64,
    /// Filtered force, in milli-units.
    pub force: i64,
    /// Position, in milli-units.
    pub position: i64,
    /// Temperature, in milli-degrees.
    pub temperature: i64,
}

/// A command derived from one sample.
#[derive(Debug, Clone, Copy, PartialEq, Eq, Structural)]
pub struct ActuatorCommand {
    pub sensor_id: u64,
    /// Action value, in milli-units.
    pub action_value: i64,
    pub timestamp: u64,
}

/// A minimal feedback item: whether the sample led to an emergency.
#[derive(Debug, Clone, Copy, PartialEq, Eq, Structural)]
pub struct Feedback {
    pub sensor_id: u64,
    pub emergency: bool,
    pub timestamp: u64,
}

/// What an actuator sends back to the sensor after handling a sample.
#[derive(Debug, Clone, Copy, PartialEq, Eq, Structural)]
pub struct ActuatorFeedback {
    /// Id of the sample this feedback originated from.
    pub sensor_id: u64,
    pub status: ActuatorStatus,
    /// Controller output, in nano-units (see `PidController::compute`).
    pub control_output: i64,
    /// Actuator error, in milli-units.
    pub error: i64,
    pub timestamp: u64,
}

/// Absolute value over the integers.
pub open spec fn abs(x: int) -> int {
    if x < 0 {
        -x
    } else {
        x
    }
}

} // verus!
