use vstd::prelude::*;

verus! {

/// What the run reports once the dispatcher drains: how many tasks were
/// submitted in all — failures as much as successes — the wall-clock span
/// of the dispatch window in nanoseconds, and the throughput in hundredths
/// of a task per second.
#[derive(Debug)]
pub struct RunSummary {
    pub total_tasks: usize,
    pub elapsed_nanos: u64,
    pub tps_centi: u64,
}

/// Throughput in hundredths of a task per second: the total submitted
/// against the elapsed window. The denominator is the total, not the count
/// of successes. A zero-length window — as when no task was submitted at
/// all — is reported as zero throughput rather than an error, and a value
/// past `u64` saturates.
pub open spec fn tps_centi_of(total_tasks: int, elapsed_nanos: int) -> int {
    if elapsed_nanos <= 0 {
        0
    } else {
        let q = total_tasks * 100_000_000_000 / elapsed_nanos;
        if q > u64::MAX {
            u64::MAX as int
        } else {
            q
        }
    }
}

/// Closes the run: the summary carries the total and the elapsed window
/// unchanged, and the throughput computed from exactly those two.
pub fn summarize(total_tasks: usize, elapsed_nanos: u64) -> (r: RunSummary)
    ensures
        r.total_tasks == total_tasks,
        r.elapsed_nanos == elapsed_nanos,
        r.tps_centi == tps_centi_of(total_tasks as int, elapsed_nanos as int),
{
    let tps_centi: u64 = if elapsed_nanos == 0 {
        0
    } else {
        let num: u128 = (total_tasks as u128) * 100_000_000_000u128;
        let q: u128 = num / (elapsed_nanos as u128);
        if q > u64::MAX as u128 {
            u64::MAX
        } else {
            q as u64
        }
    };
    RunSummary { total_tasks, elapsed_nanos, tps_centi }
}

} // verus!
