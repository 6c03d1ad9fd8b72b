use vstd::prelude::*;

verus! {

#[verifier::external_type_specification]
#[verifier::external_body]
pub struct ExSteadyTime(time::SteadyTime);

/// Relies on time::SteadyTime::now: reads the monotonic clock. Nothing is
/// known of the instant it returns; it panics only if the operating system
/// cannot read its monotonic clock.
#[verifier::external_body]
fn steady_now() -> (r: time::SteadyTime) {
    time::SteadyTime::now()
}

/// Relies on `SteadyTime - SteadyTime` and Duration::num_milliseconds: the
/// whole milliseconds from `earlier` to `later`. The subtraction panics only
/// for spans beyond `i64::MAX` milliseconds, which two readings of one
/// monotonic clock do not reach.
#[verifier::external_body]
fn millis_between(earlier: &time::SteadyTime, later: &time::SteadyTime) -> (r: i64) {
    (*later - *earlier).num_milliseconds()
}

/// A monotonic clock that counts milliseconds from the moment it was made.
pub struct SteadyClock {
    origin: time::SteadyTime,
}

impl SteadyClock {
    pub fn new() -> (r: SteadyClock) {
        SteadyClock { origin: steady_now() }
    }

    /// Milliseconds since the clock was made; never negative.
    pub fn now_ms(&self) -> (r: u64) {
        let later = steady_now();
        let elapsed = millis_between(&self.origin, &later);
        if elapsed < 0 {
            0
        } else {
            elapsed as u64
        }
    }
}

/// The instant `wait_ms` after `now`, held at the largest instant on overflow.
pub open spec fn deadline_spec(now: u64, wait_ms: u64) -> u64 {
    if now + wait_ms > u64::MAX {
        u64::MAX
    } else {
        (now + wait_ms) as u64
    }
}

/// The deadline after a handler asked for `wait`: a new one `ms` from `now`
/// when it asked for one, else the current one unchanged.
pub open spec fn rearmed(current: Option<u64>, wait: Option<u64>, now: u64) -> Option<u64> {
    match wait {
        Some(ms) => Some(deadline_spec(now, ms)),
        None => current,
    }
}

/// A timeout is due once an armed deadline has been reached or passed.
pub open spec fn is_due(deadline: Option<u64>, now: u64) -> bool {
    match deadline {
        Some(d) => d <= now,
        None => false,
    }
}

pub fn deadline_after(now: u64, wait_ms: u64) -> (r: u64)
    ensures
        r == deadline_spec(now, wait_ms),
{
    if wait_ms > u64::MAX - now {
        u64::MAX
    } else {
        now + wait_ms
    }
}

/// Arms the deadline `wait_ms` after `now`, replacing any earlier one.
pub fn set_timeout(wait_ms: u64, now: u64, current: &mut Option<u64>)
    ensures
        *final(current) == Some(deadline_spec(now, wait_ms)),
{
    *current = Some(deadline_after(now, wait_ms));
}

/// How long a loop may wait for mail at `now` before the deadline is due:
/// no bound when none is armed, and zero once it has been reached.
pub fn wait_before(deadline: Option<u64>, now: u64) -> (r: Option<u64>)
    ensures
        r == match deadline {
            Some(d) => Some(if d > now { (d - now) as u64 } else { 0u64 }),
            None => None::<u64>,
        },
{
    match deadline {
        Some(d) => if d > now {
            Some(d - now)
        } else {
            Some(0)
        },
        None => None,
    }
}

/// Whether the timeout handler should run at `now`.
pub fn timeout_due(deadline: Option<u64>, now: u64) -> (r: bool)
    ensures
        r == is_due(deadline, now),
{
    match deadline {
        Some(d) => d <= now,
        None => false,
    }
}

} // verus!
