//! A bounded ring of recent events for a live display. When full, adding an
//! event drops the oldest one.
use vstd::prelude::*;
use vstd::rwlock::{RwLock, RwLockPredicate};
use std::sync::Arc;
use crate::types::{ActuatorFeedback, ActuatorType, SensorData};

verus! {

/// Timing figures of one cycle, as shown on the display.
#[derive(Debug, Clone, Copy, PartialEq, Eq, Structural)]
pub struct MetricsSnapshot {
    pub cycle_id: u64,
    pub processing_time_ns: u64,
    pub lock_wait_ns: u64,
    pub total_latency_ns: u64,
    pub deadline_met: bool,
    pub lateness_ns: i64,
}

/// One display event.
#[derive(Debug, Clone, Copy)]
pub struct DashboardData {
    pub timestamp: u64,
    pub sensor_data: Option<SensorData>,
    pub actuator_feedback: Option<(ActuatorType, ActuatorFeedback)>,
    pub metrics: Option<MetricsSnapshot>,
}

/// The last `n` items of `s` (all of them when there are fewer).
pub open spec fn last_n<A>(s: Seq<A>, n: int) -> Seq<A> {
    if s.len() > n {
        s.subrange(s.len() - n, s.len() as int)
    } else {
        s
    }
}

/// A bounded sequence of events, oldest first.
pub struct DashboardRing {
    items: Vec<DashboardData>,
    max_size: usize,
}

impl DashboardRing {
    pub closed spec fn items(&self) -> Seq<DashboardData> {
        self.items@
    }

    pub closed spec fn max_size(&self) -> int {
        self.max_size as int
    }

    /// Never more events than the bound.
    pub open spec fn wf(&self) -> bool {
        self.items().len() <= self.max_size()
    }

    /// An empty ring holding at most `max_size` events.
    pub fn new(max_size: usize) -> (r: DashboardRing)
        ensures
            r.wf(),
            r.items() == Seq::<DashboardData>::empty(),
            r.max_size() == max_size,
    {
        DashboardRing { items: Vec::new(), max_size }
    }

    /// Appends `item`, dropping the oldest event when the bound is exceeded.
    pub fn add(&mut self, item: DashboardData)
        requires
            old(self).wf(),
        ensures
            final(self).wf(),
            final(self).max_size() == old(self).max_size(),
            final(self).items() == last_n(old(self).items().push(item), old(self).max_size()),
    {
        let ghost pushed = self.items@.push(item);
        self.items.push(item);
        if self.items.len() > self.max_size {
            self.items.remove(0);
            proof {
                assert(self.items@ =~= last_n(pushed, self.max_size as int));
            }
        }
    }

    /// The `count` most recent events, oldest first.
    pub fn get_recent(&self, count: usize) -> (r: Vec<DashboardData>)
        ensures
            r@ == last_n(self.items(), count as int),
    {
        let n = self.items.len();
        let start: usize = if n > count {
            n - count
        } else {
            0
        };
        let mut out: Vec<DashboardData> = Vec::new();
        let mut i: usize = start;
        while i < n
            invariant
                n == self.items@.len(),
                start <= i <= n,
                out@ == self.items@.subrange(start as int, i as int),
            decreases n - i,
        {
            out.push(self.items[i]);
            i = i + 1;
            proof {
                assert(out@ =~= self.items@.subrange(start as int, i as int));
            }
        }
        proof {
            assert(out@ =~= last_n(self.items@, count as int));
        }
        out
    }

    /// All events, oldest first.
    pub fn get_all(&self) -> (r: Vec<DashboardData>)
        ensures
            r@ == self.items(),
    {
        let r = self.get_recent(self.items.len());
        r
    }

    /// Removes every event; the bound stays.
    pub fn clear(&mut self)
        ensures
            final(self).wf(),
            final(self).items() == Seq::<DashboardData>::empty(),
            final(self).max_size() == old(self).max_size(),
    {
        self.items.clear();
    }

    /// Number of events held.
    pub fn len(&self) -> (r: usize)
        ensures
            r == self.items().len(),
    {
        self.items.len()
    }
}

/// Lock invariant of a shared ring: well formed, with a fixed bound.
pub struct RingInvariant {
    pub max_size: usize,
}

impl RwLockPredicate<DashboardRing> for RingInvariant {
    open spec fn inv(self, v: DashboardRing) -> bool {
        v.wf() && v.max_size() == self.max_size
    }
}

/// A ring shared between the pipeline and a display. Clones share the ring.
pub struct DashboardBuffer {
    ring: Arc<RwLock<DashboardRing, RingInvariant>>,
    max_size: usize,
}

impl DashboardBuffer {
    #[verifier::type_invariant]
    spec fn inv(&self) -> bool {
        self.ring.pred() == RingInvariant { max_size: self.max_size }
    }

    /// The bound on the number of events held.
    pub closed spec fn bound(&self) -> int {
        self.max_size as int
    }

    /// An empty buffer holding at most `max_size` events.
    pub fn new(max_size: usize) -> (r: DashboardBuffer)
        ensures
            r.bound() == max_size,
    {
        let ring = RwLock::new(DashboardRing::new(max_size), Ghost(RingInvariant { max_size }));
        DashboardBuffer { ring: Arc::new(ring), max_size }
    }

    /// A second handle on the same ring.
    pub fn share(&self) -> (r: DashboardBuffer)
        ensures
            r.bound() == self.bound(),
    {
        proof {
            use_type_invariant(self);
        }
        DashboardBuffer { ring: self.ring.clone(), max_size: self.max_size }
    }

    /// Appends `item`, dropping the oldest event when the bound is exceeded.
    pub fn add(&self, item: DashboardData) {
        proof {
            use_type_invariant(self);
        }
        let (mut ring, handle) = self.ring.acquire_write();
        ring.add(item);
        handle.release_write(ring);
    }

    /// The `count` most recent events, oldest first.
    pub fn get_recent(&self, count: usize) -> (r: Vec<DashboardData>)
        ensures
            r@.len() <= count,
            r@.len() <= self.bound(),
    {
        proof {
            use_type_invariant(self);
        }
        let handle = self.ring.acquire_read();
        let r = handle.borrow().get_recent(count);
        handle.release_read();
        r
    }

    /// All events held, oldest first.
    pub fn get_all(&self) -> (r: Vec<DashboardData>)
        ensures
            r@.len() <= self.bound(),
    {
        proof {
            use_type_invariant(self);
        }
        let handle = self.ring.acquire_read();
        let r = handle.borrow().get_all();
        handle.release_read();
        r
    }

    /// Removes every event.
    pub fn clear(&self) {
        proof {
            use_type_invariant(self);
        }
        let (mut ring, handle) = self.ring.acquire_write();
        ring.clear();
        handle.release_write(ring);
    }

    /// Number of events held.
    pub fn len(&self) -> (r: usize)
        ensures
            r <= self.bound(),
    {
        proof {
            use_type_invariant(self);
        }
        let handle = self.ring.acquire_read();
        let r = handle.borrow().len();
        handle.release_read();
        r
    }
}

} // verus!
