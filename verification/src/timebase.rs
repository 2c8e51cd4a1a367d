//! The two clocks of the host, as the standard library offers them.
//!
//! The declarations and wrappers at the top say what the library takes on
//! trust from `std::time`. What a clock returns differs from call to call,
//! so their contracts hold only what is true of every reading. The
//! functions below them are verified.

use std::time::{Duration, Instant, SystemTime, SystemTimeError};
use vstd::prelude::*;

verus! {

/// `std::time::Instant`, a point on the monotonic clock. Its value is
/// opaque here.
#[verifier::external_type_specification]
#[verifier::external_body]
pub struct ExInstant(Instant);

/// `std::time::SystemTime`, a point on the wall clock. Its value is opaque
/// here.
#[verifier::external_type_specification]
#[verifier::external_body]
pub struct ExSystemTime(SystemTime);

/// `std::time::SystemTimeError`, the error of `SystemTime::duration_since`.
/// Its value is opaque here.
#[verifier::external_type_specification]
#[verifier::external_body]
pub struct ExSystemTimeError(SystemTimeError);

/// Calls `Instant::now`, which reads the monotonic clock. Nothing is claimed
/// of the value.
#[verifier::external_body]
pub(crate) fn monotonic_instant() -> (r: Instant) {
    Instant::now()
}

/// Calls `Instant::elapsed`, which gives the time since the instant was
/// taken. Nothing is claimed of the value.
#[verifier::external_body]
pub(crate) fn time_since(at: &Instant) -> (r: Duration) {
    at.elapsed()
}

/// `Duration::as_nanos` gives the whole duration in nanoseconds. Nothing is
/// claimed of the value.
pub assume_specification[ Duration::as_nanos ](d: &Duration) -> (r: u128)
;

/// Calls `SystemTime::now`, which reads the wall clock. Nothing is claimed of
/// the value.
#[verifier::external_body]
pub(crate) fn wall_clock() -> (r: SystemTime) {
    SystemTime::now()
}

/// `SystemTime::duration_since` gives the time from `earlier` to `t`, or an
/// error when `earlier` is the later of the two. Nothing is claimed of the
/// value.
pub assume_specification[ SystemTime::duration_since ](t: &SystemTime, earlier: SystemTime) -> (r:
    Result<Duration, SystemTimeError>)
;

/// The constant `std::time::UNIX_EPOCH`, 1970-01-01 00:00:00 UTC.
#[verifier::external_body]
pub(crate) fn unix_epoch() -> (r: SystemTime) {
    std::time::UNIX_EPOCH
}

/// The reading of a wall clock that stands `since_epoch` nanoseconds after
/// the Unix epoch: the whole seconds, at most `u64::MAX`, and the
/// nanoseconds left over. A clock that stands before the epoch (`None`)
/// gives no reading.
pub open spec fn spec_unix_reading(since_epoch: Option<u128>) -> Option<(u64, u32)> {
    match since_epoch {
        Some(nanos) => Some(
            (
                if nanos / 1_000_000_000 > u64::MAX {
                    u64::MAX
                } else {
                    (nanos / 1_000_000_000) as u64
                },
                (nanos % 1_000_000_000) as u32,
            ),
        ),
        None => None,
    }
}

/// Splits the time since the Unix epoch into seconds and nanoseconds.
pub fn unix_reading(since_epoch: Option<u128>) -> (r: Option<(u64, u32)>)
    ensures
        r == spec_unix_reading(since_epoch),
        valid_unix_reading(r),
{
    match since_epoch {
        Some(nanos) => {
            let whole: u128 = nanos / 1_000_000_000;
            let secs: u64 = if whole > u64::MAX as u128 {
                u64::MAX
            } else {
                whole as u64
            };
            Some((secs, (nanos % 1_000_000_000) as u32))
        },
        None => None,
    }
}

/// Reads the wall clock as seconds and nanoseconds since the Unix epoch;
/// `None` when the clock stands before it. What the clock says is split by
/// [`unix_reading`].
pub fn unix_time_now() -> (r: Option<(u64, u32)>)
    ensures
        valid_unix_reading(r),
{
    let now = wall_clock();
    let since_epoch = match now.duration_since(unix_epoch()) {
        Ok(d) => Some(d.as_nanos()),
        Err(_) => None,
    };
    unix_reading(since_epoch)
}

/// What a reading of the wall clock can be: nothing, or a Unix time with
/// less than a second of nanoseconds.
pub open spec fn valid_unix_reading(reading: Option<(u64, u32)>) -> bool {
    match reading {
        Some((_, nanos)) => nanos < 1_000_000_000,
        None => true,
    }
}

/// A monotonic time line that starts when the value is made. Points on it
/// are nanoseconds since that start.
pub struct Monotonic {
    start: Instant,
}

impl Monotonic {
    /// Starts a time line at the present moment.
    pub fn start() -> (r: Self) {
        Monotonic { start: monotonic_instant() }
    }

    /// The present moment on this line.
    pub fn now(&self) -> (r: u128) {
        let d = time_since(&self.start);
        d.as_nanos()
    }
}

/// The time from `earlier` to `later` on one monotonic line, zero when they
/// are out of order.
pub open spec fn spec_elapsed(earlier: u128, later: u128) -> u128 {
    if later >= earlier {
        (later - earlier) as u128
    } else {
        0
    }
}

pub fn elapsed(earlier: u128, later: u128) -> (r: u128)
    ensures
        r == spec_elapsed(earlier, later),
{
    if later >= earlier {
        later - earlier
    } else {
        0
    }
}

} // verus!
