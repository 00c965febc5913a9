//! Conversions between timer ticks and nanoseconds, and the one-shot timer
//! interval.
use vstd::prelude::*;
use crate::irq::{enable_ops, set_enable, ControllerOp, CpuState, Trigger};

verus! {

pub const NANOS_PER_SEC: u64 = 1_000_000_000;

/// Nanoseconds in `ticks` ticks of a counter running at `freq` Hz, rounded down.
pub fn ticks_to_nanos(ticks: u64, freq: u64) -> (r: u64)
    requires
        freq > 0,
        ticks * NANOS_PER_SEC <= u64::MAX,
    ensures
        r == (ticks * NANOS_PER_SEC) / freq as int,
{
    (ticks * NANOS_PER_SEC) / freq
}

/// Ticks of a counter running at `freq` Hz in `nanos` nanoseconds, rounded down.
pub fn nanos_to_ticks(nanos: u64, freq: u64) -> (r: u64)
    requires
        nanos * freq <= u64::MAX,
    ensures
        r == (nanos * freq) / NANOS_PER_SEC as int,
{
    (nanos * freq) / NANOS_PER_SEC
}

/// Offset of wall time from the monotonic clock's start: none is known.
pub fn epochoffset_nanos() -> (r: u64)
    ensures
        r == 0,
{
    0
}

/// The countdown that fires the one-shot timer at tick `deadline` when the
/// counter reads `now`; zero (fire at once) when the deadline has passed.
pub fn oneshot_interval(now: u64, deadline: u64) -> (r: u64)
    ensures
        now < deadline ==> r == deadline - now,
        now >= deadline ==> r == 0,
{
    if now < deadline {
        deadline - now
    } else {
        0
    }
}

/// Plans enabling the timer line on the calling core with its trigger; every
/// core makes this call, the timer line being private to each.
pub fn enable_irqs(timer_irq: usize, trigger: Trigger, cpu: CpuState) -> (r: Vec<ControllerOp>)
    ensures
        r@ == enable_ops(timer_irq, true, Some(trigger), cpu),
{
    set_enable(timer_irq, true, Some(trigger), cpu)
}

} // verus!
