//! Decisions of the periodic sensor: the moving-average filter with its
//! adaptive window, anomaly detection, the walking position and the
//! recalibration driven by actuator feedback.
use vstd::prelude::*;
use crate::pid::{floor_div, MAX_ERROR};
use crate::types::{abs, ActuatorFeedback, ActuatorStatus, SensorData};

verus! {

/// Filter window at start-up.
pub const INITIAL_FILTER_WINDOW: usize = 5;

/// Smallest filter window.
pub const MIN_FILTER_WINDOW: usize = 3;

/// Largest filter window.
pub const MAX_FILTER_WINDOW: usize = 10;

/// Filtered force magnitude above which a sample is an anomaly (80.0).
pub const ANOMALY_FORCE: i64 = 80_000;

/// Feedback error magnitude above which the window grows (5.0).
pub const WIDEN_ERROR: i64 = 5_000;

/// Feedback error magnitude below which the window shrinks (1.0).
pub const NARROW_ERROR: i64 = 1_000;

/// Feedback error magnitude above which the position is compensated (3.0).
pub const DRIFT_ERROR: i64 = 3_000;

/// Position at start-up (10.0).
pub const INITIAL_POSITION: i64 = 10_000;

/// Largest position magnitude; the position saturates there (10 000.0).
pub const POSITION_LIMIT: i64 = 10_000_000;

/// Temperature at start-up (25.0).
pub const INITIAL_TEMPERATURE: i64 = 25_000;

/// Temperature range: [20.0, 30.0].
pub const MIN_TEMPERATURE: i64 = 20_000;
pub const MAX_TEMPERATURE: i64 = 30_000;

/// Sum of a sequence of integers.
pub open spec fn sum(s: Seq<i64>) -> int
    decreases s.len(),
{
    if s.len() == 0 {
        0
    } else {
        sum(s.drop_last()) + s.last()
    }
}

/// Arithmetic mean, rounded down; zero for an empty sequence.
pub open spec fn mean(s: Seq<i64>) -> int {
    if s.len() == 0 {
        0
    } else {
        sum(s) / (s.len() as int)
    }
}

/// The `w` most recent items of `s` (all of them when there are fewer).
pub open spec fn keep_recent(s: Seq<i64>, w: int) -> Seq<i64> {
    if s.len() > w {
        s.subrange(s.len() - w, s.len() as int)
    } else {
        s
    }
}

/// The window after a feedback error magnitude: one wider (at most 10) when
/// the error is above 5.0, one narrower (at least 3) when it is below 1.0.
pub open spec fn adapt_window(window: int, abs_error: int) -> int {
    if abs_error > WIDEN_ERROR {
        if window + 1 > MAX_FILTER_WINDOW {
            MAX_FILTER_WINDOW as int
        } else {
            window + 1
        }
    } else if abs_error < NARROW_ERROR {
        if window - 1 < MIN_FILTER_WINDOW {
            MIN_FILTER_WINDOW as int
        } else {
            window - 1
        }
    } else {
        window
    }
}

/// `x` limited to `[lo, hi]`.
pub open spec fn limit(x: int, lo: int, hi: int) -> int {
    if x < lo {
        lo
    } else if x > hi {
        hi
    } else {
        x
    }
}

/// The position after feedback: moved by `-error / 100` (0.01 of the
/// error, rounded down) when the error magnitude is above 3.0.
pub open spec fn compensate_position(position: int, error: int) -> int {
    if abs(error) > DRIFT_ERROR {
        limit(position - error / 100, -POSITION_LIMIT, POSITION_LIMIT as int)
    } else {
        position
    }
}

/// One sensor sample and whether its filtered force is an anomaly.
#[derive(Debug, Clone, Copy, PartialEq, Eq, Structural)]
pub struct SensorReading {
    pub data: SensorData,
    pub anomaly: bool,
}

/// The evolving state of the sensor.
pub struct SensorState {
    cycle_id: u64,
    window: usize,
    history: Vec<i64>,
    position_base: i64,
    temperature: i64,
}

impl SensorState {
    /// Id of the current cycle.
    pub closed spec fn cycle(&self) -> int {
        self.cycle_id as int
    }

    pub closed spec fn window(&self) -> int {
        self.window as int
    }

    /// Recent raw forces, oldest first.
    pub closed spec fn history(&self) -> Seq<i64> {
        self.history@
    }

    pub closed spec fn position(&self) -> int {
        self.position_base as int
    }

    pub closed spec fn temperature(&self) -> int {
        self.temperature as int
    }

    /// Window within `[3, 10]`, at most that many recent forces, each within
    /// the accepted magnitude, and position and temperature within their ranges.
    pub open spec fn wf(&self) -> bool {
        &&& MIN_FILTER_WINDOW <= self.window() <= MAX_FILTER_WINDOW
        &&& self.history().len() <= self.window()
        &&& forall|i: int|
            0 <= i < self.history().len() ==> -MAX_ERROR <= #[trigger] self.history()[i]
                <= MAX_ERROR
        &&& -POSITION_LIMIT <= self.position() <= POSITION_LIMIT
        &&& MIN_TEMPERATURE <= self.temperature() <= MAX_TEMPERATURE
    }

    /// The sensor before its first cycle: cycle 0, window 5, no history,
    /// position 10.0, temperature 25.0.
    pub fn new() -> (r: SensorState)
        ensures
            r.wf(),
            r.cycle() == 0,
            r.window() == INITIAL_FILTER_WINDOW,
            r.history() == Seq::<i64>::empty(),
            r.position() == INITIAL_POSITION,
            r.temperature() == INITIAL_TEMPERATURE,
    {
        SensorState {
            cycle_id: 0,
            window: INITIAL_FILTER_WINDOW,
            history: Vec::new(),
            position_base: INITIAL_POSITION,
            temperature: INITIAL_TEMPERATURE,
        }
    }

    /// Id of the current cycle.
    pub fn cycle_id(&self) -> (r: u64)
        ensures
            r == self.cycle(),
    {
        self.cycle_id
    }

    /// Current filter window.
    pub fn filter_window(&self) -> (r: usize)
        ensures
            r == self.window(),
    {
        self.window
    }

    /// Current position, in milli-units.
    pub fn position_base(&self) -> (r: i64)
        ensures
            r == self.position(),
    {
        self.position_base
    }

    /// Drops the oldest forces until at most `window` remain.
    fn trim_history(&mut self)
        requires
            old(self).history().len() <= old(self).window() + 1,
            forall|i: int|
                0 <= i < old(self).history().len() ==> -MAX_ERROR <= #[trigger] old(
                    self,
                ).history()[i] <= MAX_ERROR,
        ensures
            final(self).history() == keep_recent(old(self).history(), old(self).window()),
            final(self).window() == old(self).window(),
            final(self).cycle() == old(self).cycle(),
            final(self).position() == old(self).position(),
            final(self).temperature() == old(self).temperature(),
    {
        if self.history.len() > self.window {
            let ghost before = self.history@;
            self.history.remove(0);
            proof {
                assert(self.history@ =~= keep_recent(before, self.window as int));
            }
        }
    }

    /// Takes one sample: the position walks by `position_step` (saturating
    /// at the position limit), the temperature moves by `temperature_step`
    /// (clamped to [20.0, 30.0]), `raw_force` enters the filter window
    /// (the oldest force leaves once the window is full), and the filtered
    /// force is the mean of the window, rounded down.
    pub fn sample(
        &mut self,
        raw_force: i64,
        position_step: i64,
        temperature_step: i64,
        timestamp_ns: u64,
    ) -> (r: SensorReading)
        requires
            old(self).wf(),
            -MAX_ERROR <= raw_force <= MAX_ERROR,
            -MAX_ERROR <= position_step <= MAX_ERROR,
            -MAX_ERROR <= temperature_step <= MAX_ERROR,
        ensures
            final(self).wf(),
            final(self).cycle() == old(self).cycle(),
            final(self).window() == old(self).window(),
            final(self).history() == keep_recent(
                old(self).history().push(raw_force),
                old(self).window(),
            ),
            final(self).position() == limit(
                old(self).position() + position_step,
                -POSITION_LIMIT,
                POSITION_LIMIT as int,
            ),
            final(self).temperature() == limit(
                old(self).temperature() + temperature_step,
                MIN_TEMPERATURE as int,
                MAX_TEMPERATURE as int,
            ),
            r.data.id == old(self).cycle(),
            r.data.timestamp == timestamp_ns,
            r.data.force == mean(final(self).history()),
            r.data.position == final(self).position(),
            r.data.temperature == final(self).temperature(),
            r.anomaly == (abs(r.data.force as int) > ANOMALY_FORCE),
    {
        let p = self.position_base + position_step;
        self.position_base = if p < -POSITION_LIMIT {
            -POSITION_LIMIT
        } else if p > POSITION_LIMIT {
            POSITION_LIMIT
        } else {
            p
        };
        let t = self.temperature + temperature_step;
        self.temperature = if t < MIN_TEMPERATURE {
            MIN_TEMPERATURE
        } else if t > MAX_TEMPERATURE {
            MAX_TEMPERATURE
        } else {
            t
        };
        self.history.push(raw_force);
        self.trim_history();
        let force = self.filtered_force();
        let anomaly = force > ANOMALY_FORCE || force < -ANOMALY_FORCE;
        SensorReading {
            data: SensorData {
                id: self.cycle_id,
                timestamp: timestamp_ns,
                force,
                position: self.position_base,
                temperature: self.temperature,
            },
            anomaly,
        }
    }

    /// Mean of the filter window, rounded down; zero when it is empty.
    pub fn filtered_force(&self) -> (r: i64)
        requires
            self.wf(),
        ensures
            r == mean(self.history()),
            -MAX_ERROR <= r <= MAX_ERROR,
    {
        let n = self.history.len();
        if n == 0 {
            return 0;
        }
        let mut total: i64 = 0;
        let mut i: usize = 0;
        while i < n
            invariant
                n == self.history@.len(),
                n <= MAX_FILTER_WINDOW,
                i <= n,
                total == sum(self.history@.take(i as int)),
                // the bound is `MAX_ERROR * i`, written out for the solver
                -10_000_000 * (i as int) <= total <= 10_000_000 * (i as int),
                forall|j: int|
                    0 <= j < self.history@.len() ==> -MAX_ERROR <= #[trigger] self.history@[j]
                        <= MAX_ERROR,
            decreases n - i,
        {
            let x = self.history[i];
            proof {
                assert(self.history@.take(i + 1).drop_last() =~= self.history@.take(i as int));
                assert(-MAX_ERROR <= x <= MAX_ERROR);
            }
            total = total + x;
            i = i + 1;
        }
        proof {
            assert(self.history@.take(n as int) =~= self.history@);
            lemma_mean_bounded(total as int, n as int);
        }
        floor_div(total, n as i64)
    }

    /// Applies one feedback item: adapts the window (keeping the most recent
    /// forces) and compensates the position. Returns whether the item
    /// reports an emergency.
    pub fn apply_feedback(&mut self, feedback: &ActuatorFeedback) -> (emergency: bool)
        requires
            old(self).wf(),
            -MAX_ERROR <= feedback.error <= MAX_ERROR,
        ensures
            final(self).wf(),
            emergency == (feedback.status == ActuatorStatus::Emergency),
            final(self).cycle() == old(self).cycle(),
            final(self).temperature() == old(self).temperature(),
            final(self).window() == adapt_window(old(self).window(), abs(feedback.error as int)),
            final(self).history() == keep_recent(old(self).history(), final(self).window()),
            final(self).position() == compensate_position(
                old(self).position(),
                feedback.error as int,
            ),
            final(self).window() > old(self).window() ==> abs(feedback.error as int) > WIDEN_ERROR,
            final(self).window() < old(self).window() ==> abs(feedback.error as int) < NARROW_ERROR,
    {
        let e = feedback.error;
        let a = if e < 0 {
            -e
        } else {
            e
        };
        if a > WIDEN_ERROR {
            if self.window < MAX_FILTER_WINDOW {
                self.window = self.window + 1;
            }
            proof {
                assert(keep_recent(self.history@, self.window as int) =~= self.history@);
            }
        } else if a < NARROW_ERROR {
            if self.window > MIN_FILTER_WINDOW {
                self.window = self.window - 1;
            }
            self.trim_history();
        } else {
            proof {
                assert(keep_recent(self.history@, self.window as int) =~= self.history@);
            }
        }
        if a > DRIFT_ERROR {
            let p = self.position_base - floor_div(e, 100);
            self.position_base = if p < -POSITION_LIMIT {
                -POSITION_LIMIT
            } else if p > POSITION_LIMIT {
                POSITION_LIMIT
            } else {
                p
            };
        }
        match feedback.status {
            ActuatorStatus::Emergency => true,
            _ => false,
        }
    }

    /// Ends the cycle: the next sample carries the next id.
    pub fn finish_cycle(&mut self)
        requires
            old(self).wf(),
            old(self).cycle() < u64::MAX,
        ensures
            final(self).wf(),
            final(self).cycle() == old(self).cycle() + 1,
            final(self).window() == old(self).window(),
            final(self).history() == old(self).history(),
            final(self).position() == old(self).position(),
            final(self).temperature() == old(self).temperature(),
    {
        self.cycle_id = self.cycle_id + 1;
    }
}

/// Whatever feedback error arrives, the window stays within `[3, 10]`; it
/// grows only on an error magnitude above 5.0 and shrinks only on one below 1.0.
pub proof fn lemma_window_stays_bounded(window: int, abs_error: int)
    requires
        MIN_FILTER_WINDOW <= window <= MAX_FILTER_WINDOW,
    ensures
        MIN_FILTER_WINDOW <= adapt_window(window, abs_error) <= MAX_FILTER_WINDOW,
        adapt_window(window, abs_error) > window ==> abs_error > WIDEN_ERROR,
        adapt_window(window, abs_error) < window ==> abs_error < NARROW_ERROR,
{
}

/// Sample ids over a run: `new` starts at cycle 0, `sample` stamps the
/// current cycle, and `finish_cycle` moves to the next. So when `cycles`
/// lists the cycle of each successive sample, the `k`-th sample carries id
/// `k`, and ids strictly increase.
pub proof fn lemma_sample_ids_count_from_zero(cycles: Seq<int>)
    requires
        cycles.len() > 0 ==> cycles[0] == 0,
        forall|k: int| 0 <= k < cycles.len() - 1 ==> #[trigger] cycles[k + 1] == cycles[k] + 1,
    ensures
        forall|k: int| 0 <= k < cycles.len() ==> #[trigger] cycles[k] == k,
        forall|a: int, b: int| 0 <= a < b < cycles.len() ==> cycles[a] < cycles[b],
{
    assert forall|k: int| 0 <= k < cycles.len() implies #[trigger] cycles[k] == k by {
        lemma_cycle_at(cycles, k);
    }
}

proof fn lemma_cycle_at(cycles: Seq<int>, k: int)
    requires
        cycles.len() > 0 ==> cycles[0] == 0,
        forall|j: int| 0 <= j < cycles.len() - 1 ==> #[trigger] cycles[j + 1] == cycles[j] + 1,
        0 <= k < cycles.len(),
    ensures
        cycles[k] == k,
    decreases k,
{
    if k > 0 {
        lemma_cycle_at(cycles, k - 1);
        assert(cycles[(k - 1) + 1] == cycles[k - 1] + 1);
    }
}

proof fn lemma_mean_bounded(total: int, n: int)
    requires
        n > 0,
        -MAX_ERROR * n <= total <= MAX_ERROR * n,
    ensures
        -MAX_ERROR <= total / n <= MAX_ERROR,
{
    vstd::arithmetic::div_mod::lemma_fundamental_div_mod(total, n);
    assert(-MAX_ERROR <= total / n <= MAX_ERROR) by (nonlinear_arith)
        requires
            n > 0,
            -MAX_ERROR * n <= total <= MAX_ERROR * n,
            total == n * (total / n) + total % n,
            0 <= total % n < n,
    ;
}

} // verus!
