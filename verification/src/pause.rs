//! Pauses of forwarding: the session layer sets an instant until which the
//! forwarding tasks hold back; a task that finds one sleeps the time that is
//! left, and the instant is then cleared.

use vstd::prelude::*;

verus! {

/// A point in time, in nanoseconds since the Unix epoch.
#[derive(Clone, Copy, Debug, PartialEq, Eq, Structural)]
pub struct Timestamp {
    pub nanos: i64,
}

/// A span of time, in nanoseconds.
#[derive(Clone, Copy, Debug, PartialEq, Eq, Structural)]
pub struct Duration {
    pub nanos: u64,
}

/// What a forwarding task does before it waits for its next payload.
#[derive(Clone, Copy, Debug, PartialEq, Eq, Structural)]
pub struct PausePlan {
    /// How long to sleep first, if at all.
    pub sleep: Option<Duration>,
    /// Whether to clear the pause after that.
    pub reset: bool,
}

/// The time left until `date`, where `date` is not in the past.
pub open spec fn time_left(date: Timestamp, now: Timestamp) -> Option<Duration> {
    if date.nanos >= now.nanos {
        Some(Duration { nanos: (date.nanos - now.nanos) as u64 })
    } else {
        None
    }
}

/// The plan for a pause: with no pause set there is nothing to do; with
/// one, the task sleeps what is left of it, if anything, and clears it,
/// whether or not it slept.
pub open spec fn pause_plan(paused_until: Option<Timestamp>, now: Timestamp) -> PausePlan {
    match paused_until {
        None => PausePlan { sleep: None, reset: false },
        Some(date) => PausePlan { sleep: time_left(date, now), reset: true },
    }
}

/// Decides what a forwarding task does before it waits for its next
/// payload, from the pause that it read and the current time.
pub fn plan_pause(paused_until: Option<Timestamp>, now: Timestamp) -> (plan: PausePlan)
    ensures
        plan == pause_plan(paused_until, now),
{
    match paused_until {
        None => PausePlan { sleep: None, reset: false },
        Some(date) => {
            let sleep = if date.nanos >= now.nanos {
                let left: i128 = date.nanos as i128 - now.nanos as i128;
                Some(Duration { nanos: left as u64 })
            } else {
                None
            };
            PausePlan { sleep, reset: true }
        },
    }
}

} // verus!
