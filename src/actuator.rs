//! Decisions of one actuator: control, status classification with an
//! adaptive threshold, and the feedback it sends back to the sensor.
use vstd::prelude::*;
use crate::pid::{PidController, pid_output, next_integral, MAX_ERROR, MAX_DT_MS};
use crate::types::{abs, ActuatorFeedback, ActuatorStatus, ActuatorType, SensorData};

verus! {

/// Above this error magnitude (10.0) the actuator is in emergency.
pub const EMERGENCY_ERROR: i64 = 10_000;

/// Starting value of the adaptive threshold (5.0).
pub const INITIAL_ERROR_THRESHOLD: i64 = 5_000;

/// Lower bound of the adaptive threshold (3.0).
pub const MIN_ERROR_THRESHOLD: i64 = 3_000;

/// Upper bound of the adaptive threshold (7.0).
pub const MAX_ERROR_THRESHOLD: i64 = 7_000;

/// Below this error magnitude (2.0) the threshold is lowered by 1%.
pub const CALM_ERROR: i64 = 2_000;

/// Above this error magnitude (8.0) the threshold is raised by 1%.
pub const HIGH_ERROR: i64 = 8_000;

/// Gains of every actuator's controller, in thousandths: 1.0, 0.1, 0.01.
pub const KP: i64 = 1000;
pub const KI: i64 = 100;
pub const KD: i64 = 10;

/// Status for an error magnitude against the current threshold.
pub open spec fn classify(abs_error: int, threshold: int) -> ActuatorStatus {
    if abs_error > EMERGENCY_ERROR {
        ActuatorStatus::Emergency
    } else if abs_error > threshold {
        ActuatorStatus::Correcting
    } else {
        ActuatorStatus::Normal
    }
}

/// The threshold after seeing an error magnitude: 1% lower (not below 3.0)
/// on a calm error, 1% higher (not above 7.0) on a high one, else unchanged.
pub open spec fn adapt_threshold(threshold: int, abs_error: int) -> int {
    if abs_error < CALM_ERROR {
        let t = threshold * 99 / 100;
        if t < MIN_ERROR_THRESHOLD {
            MIN_ERROR_THRESHOLD as int
        } else {
            t
        }
    } else if abs_error > HIGH_ERROR {
        let t = threshold * 101 / 100;
        if t > MAX_ERROR_THRESHOLD {
            MAX_ERROR_THRESHOLD as int
        } else {
            t
        }
    } else {
        threshold
    }
}

/// Executable `classify`.
pub fn classify_status(error: i64, threshold: i64) -> (r: ActuatorStatus)
    requires
        -MAX_ERROR <= error <= MAX_ERROR,
    ensures
        r == classify(abs(error as int), threshold as int),
{
    let a = if error < 0 {
        -error
    } else {
        error
    };
    if a > EMERGENCY_ERROR {
        ActuatorStatus::Emergency
    } else if a > threshold {
        ActuatorStatus::Correcting
    } else {
        ActuatorStatus::Normal
    }
}

/// What one actuator did with one sample.
#[derive(Debug, Clone, Copy, PartialEq, Eq, Structural)]
pub struct ActuatorOutcome {
    /// `-position`, in milli-units.
    pub error: i64,
    /// Controller output, in nano-units.
    pub control: i64,
    pub status: ActuatorStatus,
}

/// The evolving state of one actuator.
pub struct ActuatorState {
    kind: ActuatorType,
    pid: PidController,
    error_threshold: i64,
}

impl ActuatorState {
    pub closed spec fn kind(&self) -> ActuatorType {
        self.kind
    }

    pub closed spec fn pid(&self) -> PidController {
        self.pid
    }

    /// The adaptive threshold, in milli-units.
    pub closed spec fn threshold(&self) -> int {
        self.error_threshold as int
    }

    /// The controller is well formed and the threshold lies in `[3.0, 7.0]`.
    pub open spec fn wf(&self) -> bool {
        &&& self.pid().wf()
        &&& MIN_ERROR_THRESHOLD <= self.threshold() <= MAX_ERROR_THRESHOLD
    }

    /// An actuator of `kind` with the standard gains and a threshold of 5.0.
    pub fn new(kind: ActuatorType) -> (r: ActuatorState)
        ensures
            r.wf(),
            r.kind() == kind,
            r.threshold() == INITIAL_ERROR_THRESHOLD,
            r.pid().kp() == KP,
            r.pid().ki() == KI,
            r.pid().kd() == KD,
            r.pid().integral() == 0,
            r.pid().prev_error() == 0,
    {
        ActuatorState::with_controller(kind, PidController::new(KP, KI, KD))
    }

    /// An actuator of `kind` driven by `pid`, with a threshold of 5.0.
    pub fn with_controller(kind: ActuatorType, pid: PidController) -> (r: ActuatorState)
        requires
            pid.wf(),
        ensures
            r.wf(),
            r.kind() == kind,
            r.pid() == pid,
            r.threshold() == INITIAL_ERROR_THRESHOLD,
    {
        ActuatorState { kind, pid, error_threshold: INITIAL_ERROR_THRESHOLD }
    }

    /// The actuator's kind.
    pub fn kind_of(&self) -> (r: ActuatorType)
        ensures
            r == self.kind(),
    {
        self.kind
    }

    /// The current threshold, in milli-units.
    pub fn error_threshold(&self) -> (r: i64)
        ensures
            r == self.threshold(),
    {
        self.error_threshold
    }

    /// Handles one sample: the error is `-position`; the controller steps
    /// over `dt_ms`; the status is classified against the threshold as it
    /// was before this sample; then the threshold adapts to the error.
    pub fn process(&mut self, sample: &SensorData, dt_ms: u64) -> (r: ActuatorOutcome)
        requires
            old(self).wf(),
            -MAX_ERROR <= sample.position <= MAX_ERROR,
            dt_ms <= MAX_DT_MS,
        ensures
            final(self).wf(),
            final(self).kind() == old(self).kind(),
            r.error == -sample.position,
            r.status == classify(abs(r.error as int), old(self).threshold()),
            abs(r.error as int) > EMERGENCY_ERROR ==> r.status == ActuatorStatus::Emergency,
            final(self).threshold() == adapt_threshold(old(self).threshold(), abs(r.error as int)),
            r.control == pid_output(
                old(self).pid().kp(),
                old(self).pid().ki(),
                old(self).pid().kd(),
                final(self).pid().integral(),
                r.error as int,
                old(self).pid().prev_error(),
                dt_ms as int,
            ),
            final(self).pid().integral() == next_integral(
                old(self).pid().integral(),
                r.error as int,
                dt_ms as int,
            ),
            final(self).pid().prev_error() == r.error,
            final(self).pid().kp() == old(self).pid().kp(),
            final(self).pid().ki() == old(self).pid().ki(),
            final(self).pid().kd() == old(self).pid().kd(),
    {
        let error = -sample.position;
        let control = self.pid.compute(error, dt_ms);
        let status = classify_status(error, self.error_threshold);
        let a = if error < 0 {
            -error
        } else {
            error
        };
        let t = self.error_threshold;
        if a < CALM_ERROR {
            let lowered = t * 99 / 100;
            self.error_threshold = if lowered < MIN_ERROR_THRESHOLD {
                MIN_ERROR_THRESHOLD
            } else {
                lowered
            };
        } else if a > HIGH_ERROR {
            let raised = t * 101 / 100;
            self.error_threshold = if raised > MAX_ERROR_THRESHOLD {
                MAX_ERROR_THRESHOLD
            } else {
                raised
            };
        }
        ActuatorOutcome { error, control, status }
    }
}

/// The feedback item for a handled sample, stamped at `now_ns`.
pub fn make_feedback(sample: &SensorData, outcome: &ActuatorOutcome, now_ns: u64) -> (r:
    ActuatorFeedback)
    ensures
        r.sensor_id == sample.id,
        r.status == outcome.status,
        r.control_output == outcome.control,
        r.error == outcome.error,
        r.timestamp == now_ns,
{
    ActuatorFeedback {
        sensor_id: sample.id,
        status: outcome.status,
        control_output: outcome.control,
        error: outcome.error,
        timestamp: now_ns,
    }
}

/// The threshold stays within `[3.0, 7.0]` whatever error is seen.
pub proof fn lemma_threshold_stays_bounded(threshold: int, abs_error: int)
    requires
        MIN_ERROR_THRESHOLD <= threshold <= MAX_ERROR_THRESHOLD,
    ensures
        MIN_ERROR_THRESHOLD <= adapt_threshold(threshold, abs_error) <= MAX_ERROR_THRESHOLD,
{
}

/// An error magnitude above 10.0 always classifies as an emergency.
pub proof fn lemma_large_error_is_emergency(abs_error: int, threshold: int)
    requires
        abs_error > EMERGENCY_ERROR,
    ensures
        classify(abs_error, threshold) == ActuatorStatus::Emergency,
{
}

} // verus!
