//! Readings of the clocks, as plain numbers of nanoseconds.

use vstd::prelude::*;

verus! {

/// Nanoseconds in a second.
pub const SECOND: u128 = 1_000_000_000;

/// What a clock shows at the instant it was started. Subtracting up to this
/// much from a reading still gives a moment.
pub const HEAD_START: u128 = 60_000_000_000;

/// The longest `std::time::Duration`, in nanoseconds.
pub const LONGEST_DURATION: u128 = 18_446_744_073_709_551_615_999_999_999;

/// A point on a monotonic clock.
#[derive(Clone, Copy, Debug, PartialEq, Eq, Structural)]
pub struct Moment {
    pub nanos: u128,
}

impl Moment {
    /// The time that passed from `earlier` to this moment; zero where
    /// `earlier` is not earlier.
    pub open spec fn since(self, earlier: Moment) -> nat {
        if self.nanos >= earlier.nanos {
            (self.nanos - earlier.nanos) as nat
        } else {
            0
        }
    }

    /// The nanoseconds that passed since `earlier`.
    pub fn elapsed_since(self, earlier: Moment) -> (r: u128)
        ensures
            r == self.since(earlier),
    {
        if self.nanos >= earlier.nanos {
            self.nanos - earlier.nanos
        } else {
            0
        }
    }
}

/// `std::time::Instant` of the standard library. Nothing is known of a value.
#[verifier::external_type_specification]
#[verifier::external_body]
pub struct ExInstant(std::time::Instant);

/// `std::time::Instant::now`: the present instant. Nothing is claimed of it.
#[verifier::external_body]
fn read_instant() -> std::time::Instant {
    std::time::Instant::now()
}

/// `std::time::Instant::elapsed`: the time since the origin, as a number of
/// nanoseconds. Only that it is the length of some `Duration` is claimed.
#[verifier::external_body]
fn nanos_since(origin: &std::time::Instant) -> (r: u128)
    ensures
        r <= LONGEST_DURATION,
{
    origin.elapsed().as_nanos()
}

/// `std::time::SystemTime::now`: nanoseconds after the Unix epoch, or, as the
/// error, before it. Only that it is the length of some `Duration` is claimed.
#[verifier::external_body]
fn nanos_from_epoch() -> (r: Result<u128, u128>)
    ensures
        match r {
            Ok(after) => after <= LONGEST_DURATION,
            Err(before) => before <= LONGEST_DURATION,
        },
{
    match std::time::SystemTime::now().duration_since(std::time::UNIX_EPOCH) {
        Ok(after) => Ok(after.as_nanos()),
        Err(before) => Err(before.duration().as_nanos()),
    }
}

/// The moment that a clock shows when the given time, in nanoseconds, has
/// passed since it was started.
pub fn moment_after(elapsed: u128) -> (r: Moment)
    requires
        elapsed <= LONGEST_DURATION,
    ensures
        r.nanos == HEAD_START + elapsed,
{
    Moment { nanos: HEAD_START + elapsed }
}

/// A running monotonic clock.
pub struct Clock {
    origin: std::time::Instant,
}

impl Clock {
    /// Starts a clock.
    pub fn start() -> Clock {
        Clock { origin: read_instant() }
    }

    /// Reads the clock: the head start and the time since it was started.
    pub fn now(&self) -> (r: Moment)
        ensures
            HEAD_START <= r.nanos <= HEAD_START + LONGEST_DURATION,
    {
        moment_after(nanos_since(&self.origin))
    }
}

/// A distance from the Unix epoch that an `i128` can hold.
pub open spec fn fits(distance: Result<u128, u128>) -> bool {
    match distance {
        Ok(after) => after <= i128::MAX,
        Err(before) => before <= i128::MAX,
    }
}

/// A distance from the Unix epoch as one number: what lies after it is
/// positive, what lies before it, given as the error, is negative.
pub open spec fn signed(distance: Result<u128, u128>) -> int {
    match distance {
        Ok(after) => after as int,
        Err(before) => -(before as int),
    }
}

/// Turns a distance from the Unix epoch, after it or, as the error, before it,
/// into one number.
pub fn signed_nanos(distance: Result<u128, u128>) -> (r: i128)
    requires
        fits(distance),
    ensures
        r == signed(distance),
{
    match distance {
        Ok(after) => after as i128,
        Err(before) => -(before as i128),
    }
}

/// Reads the wall clock: nanoseconds since the Unix epoch, negative before it.
pub fn wall_clock_nanos() -> (r: i128)
    ensures
        -LONGEST_DURATION <= r <= LONGEST_DURATION,
{
    signed_nanos(nanos_from_epoch())
}

/// The time since an earlier moment, added to that moment, gives the later one;
/// since a moment that is not earlier no time has passed. Times that follow
/// each other add up.
pub proof fn elapsed_times_add_up(first: Moment, second: Moment, third: Moment)
    ensures
        first.nanos <= second.nanos ==> first.nanos + second.since(first) == second.nanos,
        first.nanos >= second.nanos ==> second.since(first) == 0,
        first.nanos <= second.nanos <= third.nanos ==> third.since(first) == third.since(second)
            + second.since(first),
{
}

/// A distance after the epoch is its own number, and one before it cancels the
/// same distance after it; a clock's head start is a minute.
pub proof fn distances_around_the_epoch_cancel(distance: u128)
    ensures
        signed(Ok(distance)) == distance,
        signed(Ok(distance)) + signed(Err(distance)) == 0,
        SECOND == 1_000_000_000,
        HEAD_START == 60 * SECOND,
{
}

/// Every distance that a wall clock can show fits, on either side of the epoch:
/// up to the longest time that whole seconds in 64 bits and a fraction make.
pub proof fn every_duration_fits(distance: u128)
    ensures
        LONGEST_DURATION == 18_446_744_073_709_551_615 * SECOND + 999_999_999,
        distance <= LONGEST_DURATION ==> fits(Ok(distance)) && fits(Err(distance)),
        fits(Ok(distance)) <==> distance < 0x8000_0000_0000_0000_0000_0000_0000_0000,
        fits(Err(distance)) <==> distance < 0x8000_0000_0000_0000_0000_0000_0000_0000,
{
}

} // verus!
