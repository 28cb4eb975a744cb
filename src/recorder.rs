//! The append-only record store and the shared, lock-protected recorder.
use vstd::prelude::*;
use vstd::rwlock::{RwLock, RwLockPredicate};
use std::sync::Arc;
use std::time::Instant;
use crate::clock::{clock_now, nanos_since};
use crate::metrics::{CycleResult, CycleResultView};

verus! {

/// Number of records in `s` whose deadline was missed.
pub open spec fn count_missed(s: Seq<CycleResultView>) -> nat
    decreases s.len(),
{
    if s.len() == 0 {
        0
    } else {
        count_missed(s.drop_last()) + if s.last().deadline_met {
            0nat
        } else {
            1nat
        }
    }
}

/// Views of a sequence of records.
pub open spec fn views(s: Seq<CycleResult>) -> Seq<CycleResultView> {
    s.map_values(|c: CycleResult| c@)
}

/// An append-only sequence of records with a count of missed deadlines.
pub struct RecordLog {
    results: Vec<CycleResult>,
    missed: usize,
}

impl RecordLog {
    /// The stored records, in insertion order.
    pub closed spec fn records(&self) -> Seq<CycleResultView> {
        views(self.results@)
    }

    /// The missed-deadline counter.
    pub closed spec fn missed_count(&self) -> nat {
        self.missed as nat
    }

    /// The counter equals the number of stored records that missed their deadline.
    pub open spec fn wf(&self) -> bool {
        self.missed_count() == count_missed(self.records())
    }

    /// An empty log.
    pub fn new() -> (r: RecordLog)
        ensures
            r.wf(),
            r.records() == Seq::<CycleResultView>::empty(),
    {
        let r = RecordLog { results: Vec::new(), missed: 0 };
        proof {
            assert(views(r.results@) =~= Seq::<CycleResultView>::empty());
        }
        r
    }

    /// Appends `result`. A log that already holds `usize::MAX` records is
    /// full and stays unchanged.
    pub fn record(&mut self, result: CycleResult)
        requires
            old(self).wf(),
        ensures
            final(self).wf(),
            old(self).records().len() < usize::MAX ==> final(self).records() == old(
                self,
            ).records().push(result@),
            old(self).records().len() == usize::MAX ==> final(self).records() == old(
                self,
            ).records(),
    {
        if self.results.len() < usize::MAX {
            proof {
                self.lemma_missed_bounded();
            }
            let ghost before = self.results@;
            let met = result.deadline_met;
            self.results.push(result);
            proof {
                assert(views(self.results@).drop_last() =~= views(before));
            }
            if !met {
                self.missed = self.missed + 1;
            }
        }
    }

    proof fn lemma_missed_bounded(&self)
        requires
            self.wf(),
        ensures
            self.missed_count() <= self.records().len(),
    {
        lemma_count_missed_le_len(self.records());
    }

    /// Number of stored records.
    pub fn len(&self) -> (r: usize)
        ensures
            r == self.records().len(),
    {
        self.results.len()
    }

    /// Number of stored records that missed their deadline.
    pub fn missed_deadlines(&self) -> (r: usize)
        requires
            self.wf(),
        ensures
            r == count_missed(self.records()),
    {
        self.missed
    }

    /// A copy of the stored records, in insertion order.
    pub fn snapshot(&self) -> (r: Vec<CycleResult>)
        ensures
            views(r@) == self.records(),
    {
        let mut out: Vec<CycleResult> = Vec::new();
        let mut i: usize = 0;
        while i < self.results.len()
            invariant
                i <= self.results@.len(),
                views(out@) == views(self.results@).take(i as int),
            decreases self.results@.len() - i,
        {
            let c = self.results[i].duplicate();
            let ghost prev = out@;
            out.push(c);
            proof {
                assert(views(out@) =~= views(prev).push(c@));
                assert(views(self.results@).take(i + 1) =~= views(self.results@).take(
                    i as int,
                ).push(self.results@[i as int]@));
            }
            i = i + 1;
        }
        proof {
            assert(views(self.results@).take(i as int) =~= views(self.results@));
        }
        out
    }
}

/// The number of missed deadlines never exceeds the number of records.
pub proof fn lemma_count_missed_le_len(s: Seq<CycleResultView>)
    ensures
        count_missed(s) <= s.len(),
    decreases s.len(),
{
    if s.len() > 0 {
        lemma_count_missed_le_len(s.drop_last());
    }
}

/// `a` is an initial segment of `b`.
pub open spec fn is_prefix(a: Seq<CycleResultView>, b: Seq<CycleResultView>) -> bool {
    a.len() <= b.len() && b.subrange(0, a.len() as int) == a
}

/// Snapshot monotonicity over any run: given the successive contents of a
/// log, each obtained from the one before by `RecordLog::record` (an append,
/// or no change on a full log), the contents at any step are an initial
/// segment of the contents at every later step. So a record in one snapshot
/// is in every later snapshot, at the same position.
pub proof fn lemma_snapshots_only_grow(states: Seq<Seq<CycleResultView>>, i: int, j: int)
    requires
        forall|k: int|
            0 <= k < states.len() - 1 ==> #[trigger] states[k + 1] == states[k]
                || exists|r: CycleResultView| states[k + 1] == states[k].push(r),
        0 <= i <= j < states.len(),
    ensures
        is_prefix(states[i], states[j]),
    decreases j - i,
{
    if i < j {
        lemma_snapshots_only_grow(states, i, j - 1);
        let a = states[i];
        let b = states[j - 1];
        let c = states[j];
        assert(c == b || exists|r: CycleResultView| c == b.push(r)) by {
            assert(states[(j - 1) + 1] == states[j]);
        }
        if c != b {
            let r = choose|r: CycleResultView| c == b.push(r);
            assert(c.subrange(0, a.len() as int) =~= b.subrange(0, a.len() as int));
        }
    } else {
        assert(states[i].subrange(0, states[i].len() as int) =~= states[i]);
    }
}

/// Lock invariant of a shared log: it is well formed.
pub struct LogInvariant;

impl RwLockPredicate<RecordLog> for LogInvariant {
    open spec fn inv(self, v: RecordLog) -> bool {
        v.wf()
    }
}

/// A shared log behind a reader/writer lock whose invariant keeps the
/// missed-deadline counter equal to the number of missed records.
pub type SharedLog = Arc<RwLock<RecordLog, LogInvariant>>;

/// A new, empty shared log.
pub fn new_shared_log() -> (r: SharedLog)
    ensures
        r.pred() == LogInvariant,
{
    Arc::new(RwLock::new(RecordLog::new(), Ghost(LogInvariant)))
}

/// Acquires the writer lock of `log`, timing the acquisition, and appends
/// `result` with `lock_wait_ns` set to that time.
pub fn locked_append(log: &SharedLog, result: CycleResult)
    requires
        log.pred() == LogInvariant,
{
    let lock_start = clock_now();
    let (mut inner, handle) = log.acquire_write();
    let mut stamped = result;
    stamped.lock_wait_ns = nanos_since(&lock_start);
    inner.record(stamped);
    handle.release_write(inner);
}

/// Thread-safe recorder of cycle results. Handles made by `share` use the
/// same store.
pub struct BenchmarkRecorder {
    log: SharedLog,
    start_time: Instant,
}

impl BenchmarkRecorder {
    #[verifier::type_invariant]
    spec fn inv(&self) -> bool {
        self.log.pred() == LogInvariant
    }

    /// A recorder with no records.
    pub fn new() -> (r: BenchmarkRecorder) {
        BenchmarkRecorder { log: new_shared_log(), start_time: clock_now() }
    }

    /// A second handle on the same store.
    pub fn share(&self) -> (r: BenchmarkRecorder) {
        proof {
            use_type_invariant(self);
        }
        BenchmarkRecorder { log: self.log.clone(), start_time: self.start_time }
    }

    /// The moment the recorder was created.
    pub fn start_time(&self) -> (r: Instant) {
        self.start_time
    }

    /// Stores `result`, with `lock_wait_ns` set to the time spent acquiring
    /// the store's lock, counting it as missed when its deadline was not met.
    pub fn record(&self, result: CycleResult) {
        proof {
            use_type_invariant(self);
        }
        locked_append(&self.log, result);
    }

    /// A copy of all stored records.
    pub fn get_results(&self) -> (r: Vec<CycleResult>) {
        self.snapshot().0
    }

    /// Number of stored records that missed their deadline.
    pub fn missed_deadlines(&self) -> (r: usize) {
        self.snapshot().1
    }

    /// A consistent copy of the stored records together with the
    /// missed-deadline counter, which equals the number of missed records in it.
    pub fn snapshot(&self) -> (r: (Vec<CycleResult>, usize))
        ensures
            r.1 == count_missed(views(r.0@)),
    {
        proof {
            use_type_invariant(self);
        }
        let handle = self.log.acquire_read();
        let log = handle.borrow();
        let results = log.snapshot();
        let missed = log.missed_deadlines();
        handle.release_read();
        (results, missed)
    }
}

} // verus!
