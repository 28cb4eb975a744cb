//! The monotonic clock and the absolute-time periodic schedule.
use vstd::prelude::*;
use std::time::Instant;

verus! {

#[verifier::external_type_specification]
#[verifier::external_body]
pub struct ExInstant(std::time::Instant);

/// Relies on `Instant::now`: reads the monotonic clock. Nothing is known of
/// the value, which depends on the time of the call.
#[verifier::external_body]
pub fn clock_now() -> (r: Instant) {
    Instant::now()
}

/// Relies on `Instant::elapsed`: the nanoseconds since `since`, truncated to
/// 64 bits. Nothing is known of the value, which depends on the time of the call.
#[verifier::external_body]
pub fn nanos_since(since: &Instant) -> (r: u64) {
    since.elapsed().as_nanos() as u64
}

/// Offset of the `k`-th wake-up from the clock origin: `k` whole periods.
pub open spec fn tick_offset(k: int, period_ns: int) -> int {
    k * period_ns
}

/// When the `k`-th cycle is due, as an offset in nanoseconds from the origin.
/// Each wake-up is placed on the absolute schedule `origin + k * period`,
/// so lateness of one wake-up never shifts the next one.
pub fn tick_offset_ns(k: u64, period_ns: u64) -> (r: Option<u64>)
    ensures
        r matches Some(t) ==> t == tick_offset(k as int, period_ns as int),
        r is None <==> tick_offset(k as int, period_ns as int) > u64::MAX,
{
    k.checked_mul(period_ns)
}

/// Deviation of an actual wake-up from its scheduled time, in nanoseconds;
/// negative when the wake-up came early.
pub fn jitter_ns(scheduled_ns: u64, actual_ns: u64) -> (r: i128)
    ensures
        r == actual_ns - scheduled_ns,
{
    actual_ns as i128 - scheduled_ns as i128
}

/// Converts a period in milliseconds to nanoseconds.
pub fn period_ns(period_ms: u64) -> (r: Option<u64>)
    ensures
        r matches Some(p) ==> p == period_ms * 1_000_000,
        r is None <==> period_ms * 1_000_000 > u64::MAX,
{
    period_ms.checked_mul(1_000_000)
}

} // verus!
