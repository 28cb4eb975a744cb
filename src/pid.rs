//! A parallel PID controller with integral anti-windup, in fixed point.
//!
//! Units: errors in milli-units, gains in thousandths, time steps in
//! milliseconds. The integral is kept exactly, in millionths of a
//! unit-second, and the output is in nano-units.
use vstd::prelude::*;

verus! {

/// Largest gain magnitude accepted, in thousandths (100.0).
pub const MAX_GAIN: i64 = 100_000;

/// Largest error magnitude accepted, in milli-units (10 000.0).
pub const MAX_ERROR: i64 = 10_000_000;

/// Longest time step accepted, in milliseconds (one hour).
pub const MAX_DT_MS: u64 = 3_600_000;

/// Anti-windup bound on the integral: 100 unit-seconds, in millionths.
pub const INTEGRAL_LIMIT: i64 = 100_000_000;

/// `x` limited to `[lo, hi]`.
pub open spec fn clamp(x: int, lo: int, hi: int) -> int {
    if x < lo {
        lo
    } else if x > hi {
        hi
    } else {
        x
    }
}

/// The integral after a step: the old one plus `error * dt`, clamped.
pub open spec fn next_integral(integral: int, error: int, dt_ms: int) -> int {
    clamp(integral + error * dt_ms, -INTEGRAL_LIMIT, INTEGRAL_LIMIT as int)
}

/// The derivative term in nano-units: `kd * (error - prev_error) / dt`,
/// rounded down; zero when `dt` is zero.
pub open spec fn derivative_term(kd: int, error: int, prev_error: int, dt_ms: int) -> int {
    if dt_ms > 0 {
        (kd * (error - prev_error) * 1_000_000) / dt_ms
    } else {
        0
    }
}

/// The controller's output in nano-units:
/// `kp * error + ki * integral + kd * derivative`.
pub open spec fn pid_output(
    kp: int,
    ki: int,
    kd: int,
    integral: int,
    error: int,
    prev_error: int,
    dt_ms: int,
) -> int {
    kp * error * 1000 + ki * integral + derivative_term(kd, error, prev_error, dt_ms)
}

/// `kp * error` in nano-units: the proportional part alone.
pub open spec fn proportional(kp: int, error: int) -> int {
    kp * error * 1000
}

#[derive(Debug)]
pub struct PidController {
    kp: i64,
    ki: i64,
    kd: i64,
    integral: i64,
    prev_error: i64,
}

impl PidController {
    pub closed spec fn kp(&self) -> int {
        self.kp as int
    }

    pub closed spec fn ki(&self) -> int {
        self.ki as int
    }

    pub closed spec fn kd(&self) -> int {
        self.kd as int
    }

    /// The accumulated integral, in millionths of a unit-second.
    pub closed spec fn integral(&self) -> int {
        self.integral as int
    }

    /// The error seen by the previous step, in milli-units.
    pub closed spec fn prev_error(&self) -> int {
        self.prev_error as int
    }

    /// Gains and previous error within the accepted ranges, and the
    /// integral within `[-INTEGRAL_LIMIT, INTEGRAL_LIMIT]`.
    pub open spec fn wf(&self) -> bool {
        &&& -MAX_GAIN <= self.kp() <= MAX_GAIN
        &&& -MAX_GAIN <= self.ki() <= MAX_GAIN
        &&& -MAX_GAIN <= self.kd() <= MAX_GAIN
        &&& -INTEGRAL_LIMIT <= self.integral() <= INTEGRAL_LIMIT
        &&& -MAX_ERROR <= self.prev_error() <= MAX_ERROR
    }

    /// A controller with the given gains (in thousandths) and zero state.
    pub fn new(kp: i64, ki: i64, kd: i64) -> (r: PidController)
        requires
            -MAX_GAIN <= kp <= MAX_GAIN,
            -MAX_GAIN <= ki <= MAX_GAIN,
            -MAX_GAIN <= kd <= MAX_GAIN,
        ensures
            r.wf(),
            r.kp() == kp,
            r.ki() == ki,
            r.kd() == kd,
            r.integral() == 0,
            r.prev_error() == 0,
    {
        PidController { kp, ki, kd, integral: 0, prev_error: 0 }
    }

    /// Zeroes the integral and the previous error; the gains stay.
    pub fn reset(&mut self)
        requires
            old(self).wf(),
        ensures
            final(self).wf(),
            final(self).kp() == old(self).kp(),
            final(self).ki() == old(self).ki(),
            final(self).kd() == old(self).kd(),
            final(self).integral() == 0,
            final(self).prev_error() == 0,
    {
        self.integral = 0;
        self.prev_error = 0;
    }

    /// One control step for `error` (milli-units) over `dt_ms` milliseconds.
    /// Returns the output in nano-units.
    pub fn compute(&mut self, error: i64, dt_ms: u64) -> (r: i64)
        requires
            old(self).wf(),
            -MAX_ERROR <= error <= MAX_ERROR,
            dt_ms <= MAX_DT_MS,
        ensures
            final(self).wf(),
            final(self).kp() == old(self).kp(),
            final(self).ki() == old(self).ki(),
            final(self).kd() == old(self).kd(),
            final(self).integral() == next_integral(old(self).integral(), error as int, dt_ms as int),
            final(self).prev_error() == error,
            r == pid_output(
                old(self).kp(),
                old(self).ki(),
                old(self).kd(),
                final(self).integral(),
                error as int,
                old(self).prev_error(),
                dt_ms as int,
            ),
    {
        let dt = dt_ms as i64;
        proof {
            assert(-MAX_ERROR * MAX_DT_MS <= error * dt <= MAX_ERROR * MAX_DT_MS) by (nonlinear_arith)
                requires
                    -MAX_ERROR <= error <= MAX_ERROR,
                    0 <= dt <= MAX_DT_MS,
            ;
        }
        let sum = self.integral + error * dt;
        let integral = if sum < -INTEGRAL_LIMIT {
            -INTEGRAL_LIMIT
        } else if sum > INTEGRAL_LIMIT {
            INTEGRAL_LIMIT
        } else {
            sum
        };
        let delta = error - self.prev_error;
        proof {
            assert(-MAX_GAIN * (2 * MAX_ERROR) * 1_000_000 <= self.kd * delta * 1_000_000
                <= MAX_GAIN * (2 * MAX_ERROR) * 1_000_000) by (nonlinear_arith)
                requires
                    -MAX_GAIN <= self.kd <= MAX_GAIN,
                    -2 * MAX_ERROR <= delta <= 2 * MAX_ERROR,
            ;
            assert(-MAX_GAIN * MAX_ERROR * 1000 <= self.kp * error * 1000 <= MAX_GAIN * MAX_ERROR
                * 1000) by (nonlinear_arith)
                requires
                    -MAX_GAIN <= self.kp <= MAX_GAIN,
                    -MAX_ERROR <= error <= MAX_ERROR,
            ;
            assert(-MAX_GAIN * INTEGRAL_LIMIT <= self.ki * integral <= MAX_GAIN * INTEGRAL_LIMIT)
                by (nonlinear_arith)
                requires
                    -MAX_GAIN <= self.ki <= MAX_GAIN,
                    -INTEGRAL_LIMIT <= integral <= INTEGRAL_LIMIT,
            ;
        }
        let derivative = if dt > 0 {
            floor_div(self.kd * delta * 1_000_000, dt)
        } else {
            0
        };
        proof {
            if dt > 0 {
                lemma_div_bounded(self.kd * delta * 1_000_000, dt as int, MAX_GAIN * (2 * MAX_ERROR)
                    * 1_000_000);
            }
        }
        self.integral = integral;
        self.prev_error = error;
        self.kp * error * 1000 + self.ki * integral + derivative
    }
}

/// Anti-windup: whatever the previous integral, error and time step, the
/// integral after a step lies within `[-INTEGRAL_LIMIT, INTEGRAL_LIMIT]`.
pub proof fn lemma_integral_stays_bounded(integral: int, error: int, dt_ms: int)
    ensures
        -INTEGRAL_LIMIT <= next_integral(integral, error, dt_ms) <= INTEGRAL_LIMIT,
{
}

/// From zero state, a step with zero error outputs zero.
pub proof fn lemma_zero_error_zero_output(kp: int, ki: int, kd: int, dt_ms: int)
    requires
        0 <= dt_ms,
    ensures
        pid_output(kp, ki, kd, next_integral(0, 0, dt_ms), 0, 0, dt_ms) == 0,
{
    assert(0 * dt_ms == 0);
    assert(kp * 0 * 1000 == 0) by (nonlinear_arith);
    assert(ki * 0 == 0) by (nonlinear_arith);
    assert(kd * 0 * 1_000_000 == 0) by (nonlinear_arith);
}

/// From zero state, a positive error fed twice with a positive integral gain
/// and a positive time step: the second output exceeds the proportional part
/// `kp * error`, because the integral has accumulated.
pub proof fn lemma_integral_accumulates(kp: int, ki: int, kd: int, error: int, dt_ms: int)
    requires
        ki > 0,
        error > 0,
        dt_ms > 0,
    ensures
        ({
            let first = next_integral(0, error, dt_ms);
            let second = next_integral(first, error, dt_ms);
            pid_output(kp, ki, kd, second, error, error, dt_ms) > proportional(kp, error)
        }),
{
    let first = next_integral(0, error, dt_ms);
    let second = next_integral(first, error, dt_ms);
    assert(error * dt_ms > 0) by (nonlinear_arith)
        requires
            error > 0,
            dt_ms > 0,
    ;
    assert(second > 0);
    assert(ki * second > 0) by (nonlinear_arith)
        requires
            ki > 0,
            second > 0,
    ;
    assert(kd * (error - error) * 1_000_000 == 0) by (nonlinear_arith);
    assert(0int / dt_ms == 0);
}

/// `a / b` rounded down, for a positive `b`.
pub(crate) fn floor_div(a: i64, b: i64) -> (r: i64)
    requires
        b > 0,
        a > i64::MIN,
    ensures
        r == a / b,
{
    if a >= 0 {
        let q = (a as u64) / (b as u64);
        q as i64
    } else {
        let na = (-a) as u64;
        let bb = b as u64;
        proof {
            lemma_floor_div_negative(a as int, b as int);
        }
        let q = (na + bb - 1) / bb;
        -(q as i64)
    }
}

proof fn lemma_floor_div_negative(a: int, b: int)
    requires
        a < 0,
        b > 0,
    ensures
        a / b == -((-a + b - 1) / b),
        0 <= (-a + b - 1) / b <= -a,
{
    let n = -a + b - 1;
    vstd::arithmetic::div_mod::lemma_fundamental_div_mod(n, b);
    vstd::arithmetic::div_mod::lemma_fundamental_div_mod(a, b);
    let q = n / b;
    let q2 = a / b;
    assert(q2 == -q && 0 <= q <= -a) by (nonlinear_arith)
        requires
            n == -a + b - 1,
            n == b * q + n % b,
            a == b * q2 + a % b,
            0 <= n % b < b,
            0 <= a % b < b,
            b > 0,
            a < 0,
    ;
}

proof fn lemma_div_bounded(a: int, b: int, m: int)
    requires
        b > 0,
        -m <= a <= m,
        m >= 0,
    ensures
        -m <= a / b <= m,
{
    vstd::arithmetic::div_mod::lemma_fundamental_div_mod(a, b);
    assert(-m <= a / b <= m) by (nonlinear_arith)
        requires
            b > 0,
            -m <= a <= m,
            m >= 0,
            a == b * (a / b) + a % b,
            0 <= a % b < b,
    ;
}

} // verus!
