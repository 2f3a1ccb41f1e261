//! Sampling: the retry policy around each sensor read and the corrected wait
//! between measures.
//!
//! The physical read and the sleep happen outside; each read's outcome is
//! handed to [`handle_read`], which says whether to read again, to stop, or to
//! deliver the reading.

use crate::error::ErrorKind;
use crate::measure::Reading;
use vstd::prelude::*;

verus! {

/// Transient read failures tolerated within one sampling cycle.
pub const MAX_RETRIES: u8 = 20;

/// What one read of the sensor gave.
#[derive(Debug)]
pub enum SensorOutcome {
    /// A valid reading.
    Measured(Reading),
    /// The sensor did not answer in time (transient).
    Timeout,
    /// The sensor's checksum did not match (transient).
    Checksum,
    /// The GPIO pins could not be used, with the cause (fatal).
    Gpio(String),
}

impl SensorOutcome {
    pub open spec fn is_transient(&self) -> bool {
        self is Timeout || self is Checksum
    }
}

/// Counts one more transient failure in this cycle: fails with
/// `MaxRetries` when the count reaches [`MAX_RETRIES`].
pub fn retry(retries: &mut u8) -> (r: Result<(), ErrorKind>)
    ensures
        *final(retries) == if *old(retries) < MAX_RETRIES {
            (*old(retries) + 1) as u8
        } else {
            *old(retries)
        },
        r is Ok <==> *final(retries) < MAX_RETRIES,
        r matches Err(e) ==> e is MaxRetries,
{
    if *retries < MAX_RETRIES {
        *retries = *retries + 1;
    }
    if *retries >= MAX_RETRIES {
        return Err(ErrorKind::MaxRetries);
    }
    Ok(())
}

/// What the sampler does after one read: `Ok(Some(reading))` delivers,
/// `Ok(None)` reads again, `Err` stops.
pub open spec fn read_decision(retries: u8, o: SensorOutcome) -> Result<Option<Reading>, ErrorKind> {
    match o {
        SensorOutcome::Measured(r) => Ok(Some(r)),
        SensorOutcome::Gpio(cause) => Err(ErrorKind::GpioError(cause)),
        _ => if retries + 1 >= MAX_RETRIES {
            Err(ErrorKind::MaxRetries)
        } else {
            Ok(None)
        },
    }
}

/// Applies the retry policy to one read's outcome, counting transient failures
/// in `retries`.
pub fn handle_read(retries: &mut u8, outcome: &SensorOutcome) -> (r: Result<
    Option<Reading>,
    ErrorKind,
>)
    ensures
        r == read_decision(*old(retries), *outcome),
        *final(retries) == if outcome.is_transient() && *old(retries) < MAX_RETRIES {
            (*old(retries) + 1) as u8
        } else {
            *old(retries)
        },
{
    match outcome {
        SensorOutcome::Measured(reading) => Ok(Some(*reading)),
        SensorOutcome::Gpio(cause) => Err(ErrorKind::GpioError(cause.clone())),
        _ => match retry(retries) {
            Ok(()) => Ok(None),
            Err(e) => Err(e),
        },
    }
}

/// How a sampling cycle ended.
#[derive(Debug)]
pub enum CycleEnd {
    /// A reading to deliver.
    Sampled(Reading),
    /// A fatal error.
    Failed(ErrorKind),
    /// The outcomes ran out before the cycle ended.
    Exhausted,
}

/// The cycle that reads the outcomes from index `i` on, with `retries`
/// transient failures already counted: how it ends, and how many outcomes
/// were read by then in all.
pub open spec fn cycle_at(outs: Seq<SensorOutcome>, i: nat, retries: u8) -> (CycleEnd, nat)
    decreases outs.len() - i,
{
    if i >= outs.len() {
        (CycleEnd::Exhausted, outs.len())
    } else {
        match read_decision(retries, outs[i as int]) {
            Ok(Some(r)) => (CycleEnd::Sampled(r), i + 1),
            Err(e) => (CycleEnd::Failed(e), i + 1),
            Ok(None) => cycle_at(outs, i + 1, (retries + 1) as u8),
        }
    }
}

/// A whole cycle over successive read outcomes, from a zero retry count.
pub open spec fn cycle(outs: Seq<SensorOutcome>) -> (CycleEnd, nat) {
    cycle_at(outs, 0, 0)
}

/// Runs one sampling cycle over the outcomes of successive reads: returns how
/// it ended and how many reads it took.
pub fn acquire_cycle(outcomes: &Vec<SensorOutcome>) -> (r: (CycleEnd, usize))
    ensures
        (r.0, r.1 as nat) == cycle(outcomes@),
{
    let mut retries: u8 = 0;
    let mut i: usize = 0;
    while i < outcomes.len()
        invariant
            i <= outcomes@.len(),
            retries < MAX_RETRIES,
            cycle(outcomes@) == cycle_at(outcomes@, i as nat, retries),
        decreases outcomes.len() - i,
    {
        let step = handle_read(&mut retries, &outcomes[i]);
        i = i + 1;
        match step {
            Ok(Some(reading)) => {
                return (CycleEnd::Sampled(reading), i);
            },
            Err(e) => {
                return (CycleEnd::Failed(e), i);
            },
            Ok(None) => {},
        }
    }
    (CycleEnd::Exhausted, i)
}

/// Nanoseconds in `interval` seconds.
pub open spec fn interval_nanos(interval: u16) -> int {
    interval * 1_000_000_000
}

/// The wait before the next cycle: the interval less the time the cycle took,
/// and none when it took the whole interval or more.
pub open spec fn corrected_sleep(interval: u16, elapsed: u64) -> int {
    if elapsed < interval_nanos(interval) {
        interval_nanos(interval) - elapsed
    } else {
        0
    }
}

/// The wait, in nanoseconds, after a cycle that took `elapsed_nanos`.
pub fn sleep_nanos(interval: u16, elapsed_nanos: u64) -> (r: u64)
    ensures
        r == corrected_sleep(interval, elapsed_nanos),
{
    let whole: u64 = interval as u64 * 1_000_000_000;
    if elapsed_nanos < whole {
        whole - elapsed_nanos
    } else {
        0
    }
}

proof fn lemma_transient_run(outs: Seq<SensorOutcome>, i: nat)
    requires
        i < MAX_RETRIES,
        outs.len() >= MAX_RETRIES,
        forall|j: int| 0 <= j < outs.len() ==> (#[trigger] outs[j]).is_transient(),
    ensures
        cycle_at(outs, i, i as u8) == (CycleEnd::Failed(ErrorKind::MaxRetries), MAX_RETRIES as nat),
    decreases MAX_RETRIES - i,
{
    assert(outs[i as int].is_transient());
    if i + 1 < MAX_RETRIES {
        lemma_transient_run(outs, i + 1);
    }
}

/// A sensor that only ever fails transiently stops the cycle with
/// `MaxRetries` after exactly [`MAX_RETRIES`] reads.
pub proof fn lemma_retry_bound(outs: Seq<SensorOutcome>)
    requires
        outs.len() >= MAX_RETRIES,
        forall|j: int| 0 <= j < outs.len() ==> (#[trigger] outs[j]).is_transient(),
    ensures
        cycle(outs) == (CycleEnd::Failed(ErrorKind::MaxRetries), MAX_RETRIES as nat),
{
    lemma_transient_run(outs, 0);
}

/// A GPIO fault on the first read stops the cycle at once: one read, no retry.
pub proof fn lemma_immediate_fatal(outs: Seq<SensorOutcome>, cause: String)
    requires
        outs.len() >= 1,
        outs[0] == SensorOutcome::Gpio(cause),
    ensures
        cycle(outs) == (CycleEnd::Failed(ErrorKind::GpioError(cause)), 1nat),
{
}

/// With cycles that each take `elapsed` nanoseconds, consecutive measures are
/// stamped one interval apart when a cycle is shorter than the interval, and
/// `elapsed` apart otherwise; the wait is never negative.
pub proof fn lemma_interval_correction(interval: u16, start: int, elapsed: u64)
    ensures
        corrected_sleep(interval, elapsed) >= 0,
        ({
            let first = start + elapsed;
            let second = first + corrected_sleep(interval, elapsed) + elapsed;
            second - first == if elapsed < interval_nanos(interval) {
                interval_nanos(interval)
            } else {
                elapsed as int
            }
        }),
{
}

} // verus!
