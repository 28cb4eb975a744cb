//! Interchangeable implementations of the shared `record` operation, used to
//! benchmark lock contention. Each measures its own lock-acquisition latency
//! and stores it in the record's `lock_wait_ns`.
use vstd::prelude::*;
use std::sync::Arc;
use std::sync::atomic::{AtomicUsize, Ordering};
use crate::metrics::CycleResult;
use crate::recorder::{count_missed, locked_append, new_shared_log, views, LogInvariant, SharedLog};

verus! {

/// The capability set shared by all strategies.
pub trait SyncStrategy {
    /// Stores `result`, with `lock_wait_ns` replaced by the measured lock wait.
    fn record(&self, result: CycleResult);

    /// Number of recorded results that missed their deadline.
    fn get_missed_deadlines(&self) -> usize;

    /// Number of recorded results.
    fn get_results_count(&self) -> usize;

    /// A copy of the recorded results.
    fn get_results(&self) -> Vec<CycleResult>;
}

/// Exclusive lock for both writes and reads.
pub struct MutexStrategy {
    log: SharedLog,
}

/// Writer lock for writes, shared reader lock for reads.
pub struct RwLockStrategy {
    log: SharedLog,
}

/// Lock-free atomic counters beside an exclusively locked store.
pub struct AtomicStrategy {
    log: SharedLog,
    missed_deadlines: Arc<AtomicUsize>,
    total_cycles: Arc<AtomicUsize>,
}

/// Acquires the writer lock (used as an exclusive lock) and copies the store.
fn exclusive_snapshot(log: &SharedLog) -> (r: (Vec<CycleResult>, usize))
    requires
        log.pred() == LogInvariant,
    ensures
        r.1 == count_missed(views(r.0@)),
{
    let (inner, handle) = log.acquire_write();
    let results = inner.snapshot();
    let missed = inner.missed_deadlines();
    handle.release_write(inner);
    (results, missed)
}

/// Acquires a shared reader lock and copies the store.
fn shared_snapshot(log: &SharedLog) -> (r: (Vec<CycleResult>, usize))
    requires
        log.pred() == LogInvariant,
    ensures
        r.1 == count_missed(views(r.0@)),
{
    let handle = log.acquire_read();
    let inner = handle.borrow();
    let results = inner.snapshot();
    let missed = inner.missed_deadlines();
    handle.release_read();
    (results, missed)
}

impl MutexStrategy {
    #[verifier::type_invariant]
    spec fn inv(&self) -> bool {
        self.log.pred() == LogInvariant
    }

    /// A strategy with an empty store.
    pub fn new() -> (r: MutexStrategy) {
        MutexStrategy { log: new_shared_log() }
    }

    /// A second handle on the same store.
    pub fn share(&self) -> (r: MutexStrategy) {
        proof {
            use_type_invariant(self);
        }
        MutexStrategy { log: self.log.clone() }
    }

    /// A consistent copy of the store and its missed-deadline counter, which
    /// equals the number of missed records in the copy.
    pub fn snapshot(&self) -> (r: (Vec<CycleResult>, usize))
        ensures
            r.1 == count_missed(views(r.0@)),
    {
        proof {
            use_type_invariant(self);
        }
        exclusive_snapshot(&self.log)
    }
}

impl SyncStrategy for MutexStrategy {
    fn record(&self, result: CycleResult) {
        proof {
            use_type_invariant(self);
        }
        locked_append(&self.log, result);
    }

    fn get_missed_deadlines(&self) -> usize {
        self.snapshot().1
    }

    fn get_results_count(&self) -> usize {
        self.snapshot().0.len()
    }

    fn get_results(&self) -> Vec<CycleResult> {
        self.snapshot().0
    }
}

impl RwLockStrategy {
    #[verifier::type_invariant]
    spec fn inv(&self) -> bool {
        self.log.pred() == LogInvariant
    }

    /// A strategy with an empty store.
    pub fn new() -> (r: RwLockStrategy) {
        RwLockStrategy { log: new_shared_log() }
    }

    /// A second handle on the same store.
    pub fn share(&self) -> (r: RwLockStrategy) {
        proof {
            use_type_invariant(self);
        }
        RwLockStrategy { log: self.log.clone() }
    }

    /// A consistent copy of the store and its missed-deadline counter, which
    /// equals the number of missed records in the copy.
    pub fn snapshot(&self) -> (r: (Vec<CycleResult>, usize))
        ensures
            r.1 == count_missed(views(r.0@)),
    {
        proof {
            use_type_invariant(self);
        }
        shared_snapshot(&self.log)
    }
}

impl SyncStrategy for RwLockStrategy {
    fn record(&self, result: CycleResult) {
        proof {
            use_type_invariant(self);
        }
        locked_append(&self.log, result);
    }

    fn get_missed_deadlines(&self) -> usize {
        self.snapshot().1
    }

    fn get_results_count(&self) -> usize {
        self.snapshot().0.len()
    }

    fn get_results(&self) -> Vec<CycleResult> {
        self.snapshot().0
    }
}

impl AtomicStrategy {
    #[verifier::type_invariant]
    spec fn inv(&self) -> bool {
        self.log.pred() == LogInvariant
    }

    /// A strategy with an empty store and zeroed counters.
    pub fn new() -> (r: AtomicStrategy) {
        AtomicStrategy {
            log: new_shared_log(),
            missed_deadlines: Arc::new(AtomicUsize::new(0)),
            total_cycles: Arc::new(AtomicUsize::new(0)),
        }
    }

    /// A second handle on the same store and counters.
    pub fn share(&self) -> (r: AtomicStrategy) {
        proof {
            use_type_invariant(self);
        }
        AtomicStrategy {
            log: self.log.clone(),
            missed_deadlines: self.missed_deadlines.clone(),
            total_cycles: self.total_cycles.clone(),
        }
    }

    /// A consistent copy of the store and the store's own missed-deadline
    /// count, which equals the number of missed records in the copy.
    pub fn snapshot(&self) -> (r: (Vec<CycleResult>, usize))
        ensures
            r.1 == count_missed(views(r.0@)),
    {
        proof {
            use_type_invariant(self);
        }
        exclusive_snapshot(&self.log)
    }
}

impl SyncStrategy for AtomicStrategy {
    fn record(&self, result: CycleResult) {
        proof {
            use_type_invariant(self);
        }
        self.total_cycles.fetch_add(1, Ordering::Relaxed);
        if !result.deadline_met {
            self.missed_deadlines.fetch_add(1, Ordering::Relaxed);
        }
        locked_append(&self.log, result);
    }

    fn get_missed_deadlines(&self) -> usize {
        self.missed_deadlines.load(Ordering::Relaxed)
    }

    fn get_results_count(&self) -> usize {
        self.total_cycles.load(Ordering::Relaxed)
    }

    fn get_results(&self) -> Vec<CycleResult> {
        self.snapshot().0
    }
}

} // verus!
