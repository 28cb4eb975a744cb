//! Per-cycle timing records and the deadline accounting that fills them.
use vstd::prelude::*;
use crate::types::ActuatorType;

verus! {

/// Processing budget of one sensor cycle.
pub const SENSOR_PROCESSING_DEADLINE_NS: u64 = 200_000;

/// Budget for handing one sample to the dispatcher queue.
pub const SENSOR_TRANSMISSION_DEADLINE_NS: u64 = 100_000;

/// Informational budget for an actuator's feedback emission.
pub const FEEDBACK_DEADLINE_NS: u64 = 500_000;

/// Timing of one cycle of one pipeline stage.
///
/// `actuator` is `None` for sensor records.
#[derive(Debug, Clone)]
pub struct CycleResult {
    pub cycle_id: u64,
    pub mode: String,
    pub actuator: Option<ActuatorType>,
    pub total_latency_ns: u64,
    pub processing_time_ns: u64,
    pub lock_wait_ns: u64,
    pub deadline_met: bool,
    pub lateness_ns: i64,
}

/// Mathematical view of a `CycleResult`.
pub struct CycleResultView {
    pub cycle_id: u64,
    pub mode: Seq<char>,
    pub actuator: Option<ActuatorType>,
    pub total_latency_ns: u64,
    pub processing_time_ns: u64,
    pub lock_wait_ns: u64,
    pub deadline_met: bool,
    pub lateness_ns: i64,
}

impl View for CycleResult {
    type V = CycleResultView;

    open spec fn view(&self) -> CycleResultView {
        CycleResultView {
            cycle_id: self.cycle_id,
            mode: self.mode@,
            actuator: self.actuator,
            total_latency_ns: self.total_latency_ns,
            processing_time_ns: self.processing_time_ns,
            lock_wait_ns: self.lock_wait_ns,
            deadline_met: self.deadline_met,
            lateness_ns: self.lateness_ns,
        }
    }
}

impl CycleResultView {
    /// Lateness is never negative, and it is zero exactly when the deadline was met.
    pub open spec fn timing_consistent(self) -> bool {
        &&& self.lateness_ns >= 0
        &&& (self.deadline_met <==> self.lateness_ns == 0)
    }
}

impl CycleResult {
    /// A field-for-field copy.
    pub fn duplicate(&self) -> (r: CycleResult)
        ensures
            r@ == self@,
    {
        CycleResult {
            cycle_id: self.cycle_id,
            mode: self.mode.clone(),
            actuator: self.actuator,
            total_latency_ns: self.total_latency_ns,
            processing_time_ns: self.processing_time_ns,
            lock_wait_ns: self.lock_wait_ns,
            deadline_met: self.deadline_met,
            lateness_ns: self.lateness_ns,
        }
    }
}

/// How far `time` runs past `deadline`; zero when it does not.
pub open spec fn overshoot(time: int, deadline: int) -> int {
    if time > deadline {
        time - deadline
    } else {
        0
    }
}

/// Executable `overshoot` on nanosecond counts.
pub fn overshoot_ns(time_ns: u64, deadline_ns: u64) -> (r: u64)
    ensures
        r == overshoot(time_ns as int, deadline_ns as int),
{
    if time_ns > deadline_ns {
        time_ns - deadline_ns
    } else {
        0
    }
}

/// Processing deadline of each actuator kind, in nanoseconds.
pub open spec fn kind_deadline(kind: ActuatorType) -> u64 {
    match kind {
        ActuatorType::Gripper => 1_000_000,
        ActuatorType::Motor => 2_000_000,
        ActuatorType::Stabilizer => 1_500_000,
    }
}

impl ActuatorType {
    /// The kind's processing deadline in nanoseconds: 1 ms for the gripper,
    /// 2 ms for the motor, 1.5 ms for the stabilizer.
    pub fn deadline_ns(&self) -> (r: u64)
        ensures
            r == kind_deadline(*self),
    {
        match self {
            ActuatorType::Gripper => 1_000_000,
            ActuatorType::Motor => 2_000_000,
            ActuatorType::Stabilizer => 1_500_000,
        }
    }
}

/// Whether a sensor cycle met its deadlines: processing and transmission
/// both within budget, and the sample actually enqueued.
pub open spec fn sensor_deadline_met(processing_ns: int, transmission_ns: int, sent: bool) -> bool {
    &&& processing_ns <= SENSOR_PROCESSING_DEADLINE_NS
    &&& transmission_ns <= SENSOR_TRANSMISSION_DEADLINE_NS
    &&& sent
}

/// A sensor cycle's lateness: the larger of its two overshoots.
pub open spec fn sensor_lateness(processing_ns: int, transmission_ns: int) -> int {
    let p = overshoot(processing_ns, SENSOR_PROCESSING_DEADLINE_NS as int);
    let t = overshoot(transmission_ns, SENSOR_TRANSMISSION_DEADLINE_NS as int);
    if p >= t {
        p
    } else {
        t
    }
}

/// Builds the record of one sensor cycle.
pub fn sensor_cycle_result(
    cycle_id: u64,
    mode: &String,
    total_latency_ns: u64,
    processing_time_ns: u64,
    transmission_time_ns: u64,
    transmission_success: bool,
    lock_wait_ns: u64,
) -> (r: CycleResult)
    requires
        processing_time_ns <= i64::MAX,
        transmission_time_ns <= i64::MAX,
    ensures
        r.cycle_id == cycle_id,
        r.mode@ == mode@,
        r.actuator is None,
        r.total_latency_ns == total_latency_ns,
        r.processing_time_ns == processing_time_ns,
        r.lock_wait_ns == lock_wait_ns,
        r.deadline_met == sensor_deadline_met(
            processing_time_ns as int,
            transmission_time_ns as int,
            transmission_success,
        ),
        r.lateness_ns == sensor_lateness(processing_time_ns as int, transmission_time_ns as int),
{
    let processing_over = overshoot_ns(processing_time_ns, SENSOR_PROCESSING_DEADLINE_NS);
    let transmission_over = overshoot_ns(transmission_time_ns, SENSOR_TRANSMISSION_DEADLINE_NS);
    let lateness: u64 = if processing_over >= transmission_over {
        processing_over
    } else {
        transmission_over
    };
    CycleResult {
        cycle_id,
        mode: mode.clone(),
        actuator: None,
        total_latency_ns,
        processing_time_ns,
        lock_wait_ns,
        deadline_met: processing_time_ns <= SENSOR_PROCESSING_DEADLINE_NS
            && transmission_time_ns <= SENSOR_TRANSMISSION_DEADLINE_NS && transmission_success,
        lateness_ns: lateness as i64,
    }
}

/// Builds the record of one actuator cycle.
///
/// `now_ns` and `origin_timestamp_ns` are offsets from the shared clock
/// origin: the moment of recording and the moment the sample was taken.
pub fn actuator_cycle_result(
    kind: ActuatorType,
    cycle_id: u64,
    mode: &String,
    now_ns: u64,
    origin_timestamp_ns: u64,
    processing_time_ns: u64,
    lock_wait_ns: u64,
) -> (r: CycleResult)
    requires
        origin_timestamp_ns <= now_ns,
        processing_time_ns <= i64::MAX,
    ensures
        r.cycle_id == cycle_id,
        r.mode@ == mode@,
        r.actuator == Some(kind),
        r.total_latency_ns == now_ns - origin_timestamp_ns,
        r.processing_time_ns == processing_time_ns,
        r.lock_wait_ns == lock_wait_ns,
        r.deadline_met == (processing_time_ns <= kind_deadline(kind)),
        r.lateness_ns == overshoot(processing_time_ns as int, kind_deadline(kind) as int),
{
    let deadline = kind.deadline_ns();
    let lateness = overshoot_ns(processing_time_ns, deadline);
    CycleResult {
        cycle_id,
        mode: mode.clone(),
        actuator: Some(kind),
        total_latency_ns: now_ns - origin_timestamp_ns,
        processing_time_ns,
        lock_wait_ns,
        deadline_met: processing_time_ns <= deadline,
        lateness_ns: lateness as i64,
    }
}

/// Every actuator record is timing-consistent: lateness is never negative
/// and it is zero exactly when the deadline was met.
pub proof fn lemma_actuator_record_consistent(
    kind: ActuatorType,
    processing_time_ns: u64,
    r: CycleResultView,
)
    requires
        r.deadline_met == (processing_time_ns <= kind_deadline(kind)),
        r.lateness_ns == overshoot(processing_time_ns as int, kind_deadline(kind) as int),
    ensures
        r.timing_consistent(),
{
}

/// A sensor record never has negative lateness and is never late when it
/// met its deadline; when its sample was enqueued it is fully
/// timing-consistent. (A refused enqueue marks the deadline missed without
/// any overshoot.)
pub proof fn lemma_sensor_record_consistent(
    processing_time_ns: u64,
    transmission_time_ns: u64,
    transmission_success: bool,
    r: CycleResultView,
)
    requires
        r.deadline_met == sensor_deadline_met(
            processing_time_ns as int,
            transmission_time_ns as int,
            transmission_success,
        ),
        r.lateness_ns == sensor_lateness(processing_time_ns as int, transmission_time_ns as int),
    ensures
        r.lateness_ns >= 0,
        r.deadline_met ==> r.lateness_ns == 0,
        transmission_success ==> r.timing_consistent(),
{
}

} // verus!
