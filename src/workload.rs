//! Choosing a synchronisation strategy by name, and the synthetic
//! many-producer workload used to compare strategies.
use vstd::prelude::*;
use vstd::string::StrSliceExecFns;
use crate::metrics::CycleResult;
use crate::sync_strategies::{AtomicStrategy, MutexStrategy, RwLockStrategy, SyncStrategy};
use crate::types::ActuatorType;

verus! {

/// Whether two strings hold the same characters.
pub fn same_text(s: &str, t: &str) -> (r: bool)
    ensures
        r == (s@ == t@),
{
    let n = s.unicode_len();
    if n != t.unicode_len() {
        return false;
    }
    let mut i: usize = 0;
    while i < n
        invariant
            n == s@.len(),
            n == t@.len(),
            i <= n,
            forall|j: int| 0 <= j < i ==> s@[j] == t@[j],
        decreases n - i,
    {
        if s.get_char(i) != t.get_char(i) {
            return false;
        }
        i = i + 1;
    }
    proof {
        assert(s@ =~= t@);
    }
    true
}

/// One of the three strategies, chosen at run time.
pub enum AnyStrategy {
    Mutex(MutexStrategy),
    RwLock(RwLockStrategy),
    Atomic(AtomicStrategy),
}

impl AnyStrategy {
    /// A second handle on the same store.
    pub fn share(&self) -> (r: AnyStrategy)
        ensures
            r is Mutex <==> self is Mutex,
            r is RwLock <==> self is RwLock,
            r is Atomic <==> self is Atomic,
    {
        match self {
            AnyStrategy::Mutex(s) => AnyStrategy::Mutex(s.share()),
            AnyStrategy::RwLock(s) => AnyStrategy::RwLock(s.share()),
            AnyStrategy::Atomic(s) => AnyStrategy::Atomic(s.share()),
        }
    }
}

impl SyncStrategy for AnyStrategy {
    fn record(&self, result: CycleResult) {
        match self {
            AnyStrategy::Mutex(s) => s.record(result),
            AnyStrategy::RwLock(s) => s.record(result),
            AnyStrategy::Atomic(s) => s.record(result),
        }
    }

    fn get_missed_deadlines(&self) -> usize {
        match self {
            AnyStrategy::Mutex(s) => s.get_missed_deadlines(),
            AnyStrategy::RwLock(s) => s.get_missed_deadlines(),
            AnyStrategy::Atomic(s) => s.get_missed_deadlines(),
        }
    }

    fn get_results_count(&self) -> usize {
        match self {
            AnyStrategy::Mutex(s) => s.get_results_count(),
            AnyStrategy::RwLock(s) => s.get_results_count(),
            AnyStrategy::Atomic(s) => s.get_results_count(),
        }
    }

    fn get_results(&self) -> Vec<CycleResult> {
        match self {
            AnyStrategy::Mutex(s) => s.get_results(),
            AnyStrategy::RwLock(s) => s.get_results(),
            AnyStrategy::Atomic(s) => s.get_results(),
        }
    }
}

/// A fresh strategy for the name `"mutex"`, `"rwlock"` or `"atomic"`;
/// `None` for any other name.
pub fn create_sync_strategy(strategy_type: &str) -> (r: Option<AnyStrategy>)
    ensures
        strategy_type@ == "mutex"@ <==> r matches Some(AnyStrategy::Mutex(_)),
        strategy_type@ == "rwlock"@ <==> r matches Some(AnyStrategy::RwLock(_)),
        strategy_type@ == "atomic"@ <==> r matches Some(AnyStrategy::Atomic(_)),
        r is None <==> (strategy_type@ != "mutex"@ && strategy_type@ != "rwlock"@
            && strategy_type@ != "atomic"@),
{
    proof {
        reveal_strlit("mutex");
        reveal_strlit("rwlock");
        reveal_strlit("atomic");
        assert("mutex"@[0] != "rwlock"@[0]);
        assert("mutex"@[0] != "atomic"@[0]);
        assert("rwlock"@[0] != "atomic"@[0]);
    }
    if same_text(strategy_type, "mutex") {
        Some(AnyStrategy::Mutex(MutexStrategy::new()))
    } else if same_text(strategy_type, "rwlock") {
        Some(AnyStrategy::RwLock(RwLockStrategy::new()))
    } else if same_text(strategy_type, "atomic") {
        Some(AnyStrategy::Atomic(AtomicStrategy::new()))
    } else {
        None
    }
}

/// Producers in the synthetic workload: the sensor and three actuators.
pub const WORKLOAD_PRODUCERS: usize = 4;

/// Records written by each producer of the synthetic workload.
pub const WORKLOAD_OPERATIONS: usize = 1000;

/// Which stage a producer of the synthetic workload stands for.
pub open spec fn producer_actuator(producer: int) -> Option<ActuatorType> {
    if producer == 0 {
        None
    } else if producer == 1 {
        Some(ActuatorType::Gripper)
    } else if producer == 2 {
        Some(ActuatorType::Motor)
    } else {
        Some(ActuatorType::Stabilizer)
    }
}

/// The `i`-th record of `producer` in the synthetic workload. Its global id
/// is `producer * ops + i`; one id in a hundred misses its deadline by 500 ns.
pub fn synthetic_result(producer: usize, i: usize, ops: usize) -> (r: CycleResult)
    requires
        producer * ops + i <= u64::MAX,
        producer * ops + i <= usize::MAX,
    ensures
        r.cycle_id == producer * ops + i,
        r.mode@ == "benchmark"@,
        r.actuator == producer_actuator(producer as int),
        r.total_latency_ns == (producer * ops + i) % 1000 + 1000,
        r.processing_time_ns == 50 + (producer * ops + i) % 100,
        r.lock_wait_ns == (producer * ops + i) % 50,
        r.deadline_met == ((producer * ops + i) % 100 != 0),
        r.lateness_ns == if (producer * ops + i) % 100 == 0 {
            500int
        } else {
            0int
        },
{
    proof {
        assert(0 <= producer * ops) by (nonlinear_arith)
            requires
                0 <= producer,
                0 <= ops,
        ;
    }
    let id = producer * ops + i;
    let actuator = if producer == 0 {
        None
    } else if producer == 1 {
        Some(ActuatorType::Gripper)
    } else if producer == 2 {
        Some(ActuatorType::Motor)
    } else {
        Some(ActuatorType::Stabilizer)
    };
    let missed = id % 100 == 0;
    CycleResult {
        cycle_id: id as u64,
        mode: String::from_str("benchmark"),
        actuator,
        total_latency_ns: (id % 1000) as u64 + 1000,
        processing_time_ns: 50 + (id % 100) as u64,
        lock_wait_ns: (id % 50) as u64,
        deadline_met: !missed,
        lateness_ns: if missed {
            500
        } else {
            0
        },
    }
}

/// Writes the `ops` records of one producer into `strategy`, reading the
/// counters every hundredth record as a monitor would.
pub fn run_producer(strategy: &AnyStrategy, producer: usize, ops: usize)
    requires
        producer * ops + ops <= u64::MAX,
        producer * ops + ops <= usize::MAX,
{
    let mut i: usize = 0;
    while i < ops
        invariant
            i <= ops,
            producer * ops + ops <= u64::MAX,
            producer * ops + ops <= usize::MAX,
        decreases ops - i,
    {
        strategy.record(synthetic_result(producer, i, ops));
        if i % 100 == 0 {
            let _missed = strategy.get_missed_deadlines();
            let _count = strategy.get_results_count();
        }
        i = i + 1;
    }
}

} // verus!
