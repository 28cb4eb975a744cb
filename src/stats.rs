//! Aggregate timing figures over a set of cycle records, for reports.
use vstd::prelude::*;
use crate::metrics::{CycleResult, CycleResultView};
use crate::recorder::{count_missed, views};
use crate::types::ActuatorType;

verus! {

/// Which records a summary covers.
#[derive(Debug, Clone, Copy, PartialEq, Eq, Structural)]
pub enum Selection {
    All,
    Sensor,
    Actuator(ActuatorType),
}

/// Whether `sel` covers the record `r`.
pub open spec fn selects(sel: Selection, r: CycleResultView) -> bool {
    match sel {
        Selection::All => true,
        Selection::Sensor => r.actuator is None,
        Selection::Actuator(k) => r.actuator == Some(k),
    }
}

/// Integer aggregates over the covered records. Sums are exact; a minimum
/// or maximum is `None` when nothing was covered.
#[derive(Debug, Clone, Copy, PartialEq, Eq, Structural)]
pub struct Summary {
    /// Records covered.
    pub count: usize,
    /// Covered records that missed their deadline.
    pub missed: usize,
    /// Covered records with positive lateness.
    pub late: usize,
    pub max_lateness_ns: Option<i64>,
    pub processing_sum_ns: u128,
    pub processing_min_ns: Option<u64>,
    pub processing_max_ns: Option<u64>,
    /// Covered records with a positive total latency; the latency figures
    /// are over those alone.
    pub latency_count: usize,
    pub latency_sum_ns: u128,
    pub latency_min_ns: Option<u64>,
    pub latency_max_ns: Option<u64>,
    pub lock_wait_sum_ns: u128,
    pub lock_wait_max_ns: Option<u64>,
}

pub open spec fn empty_summary() -> Summary {
    Summary {
        count: 0,
        missed: 0,
        late: 0,
        max_lateness_ns: None,
        processing_sum_ns: 0,
        processing_min_ns: None,
        processing_max_ns: None,
        latency_count: 0,
        latency_sum_ns: 0,
        latency_min_ns: None,
        latency_max_ns: None,
        lock_wait_sum_ns: 0,
        lock_wait_max_ns: None,
    }
}

pub open spec fn min_with(o: Option<u64>, x: u64) -> Option<u64> {
    match o {
        None => Some(x),
        Some(m) => Some(if x < m { x } else { m }),
    }
}

pub open spec fn max_with(o: Option<u64>, x: u64) -> Option<u64> {
    match o {
        None => Some(x),
        Some(m) => Some(if x > m { x } else { m }),
    }
}

pub open spec fn max_with_signed(o: Option<i64>, x: i64) -> Option<i64> {
    match o {
        None => Some(x),
        Some(m) => Some(if x > m { x } else { m }),
    }
}

/// The aggregates after taking one more record into account.
pub open spec fn add_record(acc: Summary, r: CycleResultView) -> Summary {
    let positive_latency = r.total_latency_ns > 0;
    Summary {
        count: (acc.count + 1) as usize,
        missed: if r.deadline_met {
            acc.missed
        } else {
            (acc.missed + 1) as usize
        },
        late: if r.lateness_ns > 0 {
            (acc.late + 1) as usize
        } else {
            acc.late
        },
        max_lateness_ns: max_with_signed(acc.max_lateness_ns, r.lateness_ns),
        processing_sum_ns: (acc.processing_sum_ns + r.processing_time_ns) as u128,
        processing_min_ns: min_with(acc.processing_min_ns, r.processing_time_ns),
        processing_max_ns: max_with(acc.processing_max_ns, r.processing_time_ns),
        latency_count: if positive_latency {
            (acc.latency_count + 1) as usize
        } else {
            acc.latency_count
        },
        latency_sum_ns: (acc.latency_sum_ns + r.total_latency_ns) as u128,
        latency_min_ns: if positive_latency {
            min_with(acc.latency_min_ns, r.total_latency_ns)
        } else {
            acc.latency_min_ns
        },
        latency_max_ns: if positive_latency {
            max_with(acc.latency_max_ns, r.total_latency_ns)
        } else {
            acc.latency_max_ns
        },
        lock_wait_sum_ns: (acc.lock_wait_sum_ns + r.lock_wait_ns) as u128,
        lock_wait_max_ns: max_with(acc.lock_wait_max_ns, r.lock_wait_ns),
    }
}

/// The aggregates over the records of `s` that `sel` covers.
pub open spec fn summary_of(s: Seq<CycleResultView>, sel: Selection) -> Summary
    decreases s.len(),
{
    if s.len() == 0 {
        empty_summary()
    } else if selects(sel, s.last()) {
        add_record(summary_of(s.drop_last(), sel), s.last())
    } else {
        summary_of(s.drop_last(), sel)
    }
}

/// Over all records, the summary counts every record, and its missed count
/// is the recorder's missed-deadline count.
pub proof fn lemma_summary_of_all(s: Seq<CycleResultView>)
    requires
        s.len() <= usize::MAX,
    ensures
        summary_of(s, Selection::All).count == s.len(),
        summary_of(s, Selection::All).missed == count_missed(s),
    decreases s.len(),
{
    if s.len() > 0 {
        lemma_summary_of_all(s.drop_last());
        crate::recorder::lemma_count_missed_le_len(s.drop_last());
    }
}

/// Bounds that keep every counter and sum of `acc` representable when one
/// more record is added, given that at most `n` records were seen.
pub open spec fn within_bounds(acc: Summary, n: int) -> bool {
    &&& acc.count <= n
    &&& acc.missed <= acc.count
    &&& acc.late <= acc.count
    &&& acc.latency_count <= acc.count
    &&& acc.processing_sum_ns <= acc.count * (u64::MAX as int)
    &&& acc.latency_sum_ns <= acc.count * (u64::MAX as int)
    &&& acc.lock_wait_sum_ns <= acc.count * (u64::MAX as int)
}

/// Executable `add_record`.
fn add_one(acc: Summary, r: &CycleResult, Ghost(n): Ghost<int>) -> (out: Summary)
    requires
        within_bounds(acc, n),
        n < usize::MAX,
    ensures
        out == add_record(acc, r@),
        within_bounds(out, n + 1),
{
    proof {
        assert(acc.count * (u64::MAX as int) + u64::MAX == (acc.count + 1) * (u64::MAX as int))
            by (nonlinear_arith);
        assert((acc.count + 1) * (u64::MAX as int) <= (usize::MAX as int) * (u64::MAX as int))
            by (nonlinear_arith)
            requires
                acc.count + 1 <= usize::MAX,
        ;
    }
    let p = r.processing_time_ns;
    let l = r.total_latency_ns;
    let w = r.lock_wait_ns;
    let positive_latency = l > 0;
    Summary {
        count: acc.count + 1,
        missed: if r.deadline_met {
            acc.missed
        } else {
            acc.missed + 1
        },
        late: if r.lateness_ns > 0 {
            acc.late + 1
        } else {
            acc.late
        },
        max_lateness_ns: match acc.max_lateness_ns {
            None => Some(r.lateness_ns),
            Some(m) => Some(if r.lateness_ns > m { r.lateness_ns } else { m }),
        },
        processing_sum_ns: acc.processing_sum_ns + p as u128,
        processing_min_ns: match acc.processing_min_ns {
            None => Some(p),
            Some(m) => Some(if p < m { p } else { m }),
        },
        processing_max_ns: match acc.processing_max_ns {
            None => Some(p),
            Some(m) => Some(if p > m { p } else { m }),
        },
        latency_count: if positive_latency {
            acc.latency_count + 1
        } else {
            acc.latency_count
        },
        latency_sum_ns: acc.latency_sum_ns + l as u128,
        latency_min_ns: if !positive_latency {
            acc.latency_min_ns
        } else {
            match acc.latency_min_ns {
                None => Some(l),
                Some(m) => Some(if l < m { l } else { m }),
            }
        },
        latency_max_ns: if !positive_latency {
            acc.latency_max_ns
        } else {
            match acc.latency_max_ns {
                None => Some(l),
                Some(m) => Some(if l > m { l } else { m }),
            }
        },
        lock_wait_sum_ns: acc.lock_wait_sum_ns + w as u128,
        lock_wait_max_ns: match acc.lock_wait_max_ns {
            None => Some(w),
            Some(m) => Some(if w > m { w } else { m }),
        },
    }
}

/// Whether `sel` covers `r`.
pub fn selection_covers(sel: Selection, r: &CycleResult) -> (b: bool)
    ensures
        b == selects(sel, r@),
{
    match sel {
        Selection::All => true,
        Selection::Sensor => r.actuator.is_none(),
        Selection::Actuator(k) => match r.actuator {
            Some(a) => a == k,
            None => false,
        },
    }
}

/// The aggregates over the records of `results` that `sel` covers.
pub fn summarize(results: &Vec<CycleResult>, sel: Selection) -> (r: Summary)
    ensures
        r == summary_of(views(results@), sel),
{
    let mut acc = Summary {
        count: 0,
        missed: 0,
        late: 0,
        max_lateness_ns: None,
        processing_sum_ns: 0,
        processing_min_ns: None,
        processing_max_ns: None,
        latency_count: 0,
        latency_sum_ns: 0,
        latency_min_ns: None,
        latency_max_ns: None,
        lock_wait_sum_ns: 0,
        lock_wait_max_ns: None,
    };
    let n = results.len();
    let mut i: usize = 0;
    proof {
        assert(views(results@).take(0) =~= Seq::<CycleResultView>::empty());
    }
    while i < n
        invariant
            n == results@.len(),
            i <= n,
            acc == summary_of(views(results@).take(i as int), sel),
            within_bounds(acc, i as int),
        decreases n - i,
    {
        let r = &results[i];
        proof {
            assert(views(results@).take(i + 1).drop_last() =~= views(results@).take(i as int));
            assert(views(results@).take(i + 1).last() == r@);
        }
        if selection_covers(sel, r) {
            acc = add_one(acc, r, Ghost(i as int));
        }
        i = i + 1;
    }
    proof {
        assert(views(results@).take(n as int) =~= views(results@));
    }
    acc
}

} // verus!
