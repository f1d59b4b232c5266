//! Wall-clock milliseconds, the only time source the game rules are fed.

use std::time::{Duration, SystemTime, UNIX_EPOCH};
use vstd::prelude::*;

verus! {

#[verifier::external_type_specification]
#[verifier::external_body]
pub struct ExSystemTime(SystemTime);

/// `SystemTime::now`: the current wall-clock time. Nothing is claimed about it.
#[verifier::external_body]
fn wall_clock_now() -> SystemTime {
    SystemTime::now()
}

/// `SystemTime::duration_since(UNIX_EPOCH)`, with the error dropped: the time elapsed since
/// the Unix epoch, or `None` when the clock reads earlier than the epoch. Nothing is claimed
/// about either outcome.
#[verifier::external_body]
fn since_unix_epoch(now: &SystemTime) -> Option<Duration> {
    now.duration_since(UNIX_EPOCH).ok()
}

/// `Duration::as_millis`: the whole milliseconds of a duration. Verus sees nothing inside a
/// `Duration`, so nothing is claimed about the result.
#[verifier::external_body]
fn whole_millis(duration: &Duration) -> u128 {
    duration.as_millis()
}

/// Milliseconds since the Unix epoch as the rules take them: zero for a clock before the epoch,
/// and capped at `i64::MAX`.
pub open spec fn clamp_millis_spec(elapsed: Option<u128>) -> i64 {
    match elapsed {
        None => 0,
        Some(ms) => if ms > i64::MAX {
            i64::MAX
        } else {
            ms as i64
        },
    }
}

pub fn clamp_millis(elapsed: Option<u128>) -> (ms: i64)
    ensures
        ms == clamp_millis_spec(elapsed),
        ms >= 0,
{
    match elapsed {
        None => 0,
        Some(ms) => if ms > 0x7FFF_FFFF_FFFF_FFFFu128 {
            i64::MAX
        } else {
            ms as i64
        },
    }
}

/// The current wall-clock time in milliseconds since the Unix epoch; never negative.
pub fn now_ms() -> (ms: i64)
    ensures
        ms >= 0,
{
    let now = wall_clock_now();
    let elapsed = match since_unix_epoch(&now) {
        Some(duration) => Some(whole_millis(&duration)),
        None => None,
    };
    clamp_millis(elapsed)
}

/// Due timers fired per pass, so a backlog cannot hold the driver forever.
pub const TIMER_BATCH: u32 = 64;

/// What the timer driver does next.
#[derive(Clone, Copy, Debug, PartialEq, Eq, Structural)]
pub enum TimerStep {
    /// No timer is armed: wait until one is.
    WaitForWake,
    /// Sleep this many milliseconds, unless a new timer is armed meanwhile.
    Sleep { ms: u64 },
    /// Fire up to `limit` timers due by now.
    Drain { limit: u32 },
}

/// The driver's next step, given the earliest armed timer and the time now. Storage stays
/// authoritative: a lost wake-up only delays a timer, it never loses it.
pub fn timer_step(next_due: Option<i64>, now: i64) -> (step: TimerStep)
    requires
        next_due is Some && next_due->0 > now ==> next_due->0 - now <= i64::MAX,
    ensures
        step == match next_due {
            None => TimerStep::WaitForWake,
            Some(due) => if due > now {
                TimerStep::Sleep { ms: (due - now) as u64 }
            } else {
                TimerStep::Drain { limit: TIMER_BATCH }
            },
        },
{
    match next_due {
        None => TimerStep::WaitForWake,
        Some(due) => if due > now {
            TimerStep::Sleep { ms: (due - now) as u64 }
        } else {
            TimerStep::Drain { limit: TIMER_BATCH }
        },
    }
}

} // verus!
