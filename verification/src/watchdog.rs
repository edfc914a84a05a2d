use crate::error::{Error, ErrorView};
use vstd::prelude::*;

verus! {

/// The nanoseconds of one second.
pub const SECOND: u128 = 1_000_000_000;

/// The time that one renewal attempt may take, in seconds.
pub const RENEW_TIMEOUT_SECS: u64 = 60;

/// The time between a failed renewal attempt and the next one, in seconds.
pub const RETRY_DELAY_SECS: u64 = 10;

/// The longest time that the watchdog sleeps in one go, in seconds.
pub const MAX_SLEEP_SECS: u64 = 3600;

/// The seconds of one day.
pub const DAY_SECS: i64 = 86_400;

/// The seconds until a certificate expires, from the days and seconds by
/// which its end of validity lies ahead.
pub open spec fn validity_left(days: i32, secs: i32) -> int {
    days * DAY_SECS + secs
}

/// The time after which the next renewal is attempted, in nanoseconds: two
/// thirds of the validity that is left after a renewal, the retry delay
/// after a failure.
pub open spec fn renew_delay_of(expires_in: Option<u64>) -> int {
    match expires_in {
        Some(secs) => secs * 2 * SECOND / 3,
        None => RETRY_DELAY_SECS * SECOND,
    }
}

/// How long the watchdog sleeps next, in nanoseconds, when `delay` is to
/// pass in all and `elapsed` has passed: the rest, but no more than an hour;
/// nothing once the delay has passed.
pub open spec fn next_sleep_of(delay: u128, elapsed: u128) -> Option<int> {
    if delay <= elapsed {
        None
    } else if delay - elapsed <= MAX_SLEEP_SECS * SECOND {
        Some(delay - elapsed)
    } else {
        Some(MAX_SLEEP_SECS * SECOND as int)
    }
}

/// The seconds of validity that a new certificate has left.
///
/// A certificate whose validity has ended, or ends this very second, is
/// refused.
pub fn expires_in(days: i32, secs: i32) -> (left: Result<u64, Error>)
    ensures
        match left {
            Ok(s) => validity_left(days, secs) > 0 && s == validity_left(days, secs),
            Err(e) => validity_left(days, secs) <= 0 && e@ == (ErrorView {
                msg: "received expired certificate"@,
                cause: None,
            }),
        },
{
    let left: i64 = (days as i64) * DAY_SECS + (secs as i64);
    if left > 0 {
        Ok(left as u64)
    } else {
        Err(Error::from_static_msg("received expired certificate"))
    }
}

/// The seconds that a renewal attempt gave, if it succeeded.
pub open spec fn renewed<E>(outcome: Result<u64, E>) -> Option<u64> {
    match outcome {
        Ok(secs) => Some(secs),
        Err(_) => None,
    }
}

/// The time after which the next renewal is attempted, in nanoseconds.
pub fn renew_delay(outcome: &Result<u64, Error>) -> (delay: u128)
    ensures
        delay == renew_delay_of(renewed(*outcome)),
{
    match outcome {
        Ok(secs) => (*secs as u128) * 2 * SECOND / 3,
        Err(_) => (RETRY_DELAY_SECS as u128) * SECOND,
    }
}

/// How long the watchdog sleeps next, in nanoseconds, or nothing where the
/// delay has passed and the next renewal is due.
pub fn next_sleep(delay: u128, elapsed: u128) -> (sleep: Option<u128>)
    ensures
        match sleep {
            Some(s) => next_sleep_of(delay, elapsed) == Some(s as int),
            None => next_sleep_of(delay, elapsed) is None,
        },
{
    if delay <= elapsed {
        None
    } else {
        let remaining: u128 = delay - elapsed;
        let most: u128 = (MAX_SLEEP_SECS as u128) * SECOND;
        if remaining <= most {
            Some(remaining)
        } else {
            Some(most)
        }
    }
}

/// After a renewal that left `secs` seconds of validity the next attempt is
/// due when two thirds of them have passed, to the nanosecond below; after a
/// failure it is due when the retry delay has passed.
pub proof fn law_renewal_is_due_at_two_thirds(secs: u64)
    ensures
        3 * renew_delay_of(Some(secs)) <= 2 * secs * SECOND,
        2 * secs * SECOND < 3 * renew_delay_of(Some(secs)) + 3,
        renew_delay_of(None) == 10 * SECOND,
{
}

/// The watchdog never sleeps beyond the moment at which the renewal is due,
/// and never longer than an hour at a time; it sleeps again exactly as long
/// as that moment has not come.
pub proof fn law_sleep_ends_when_due(delay: u128, elapsed: u128)
    ensures
        next_sleep_of(delay, elapsed) is None <==> delay <= elapsed,
        next_sleep_of(delay, elapsed) matches Some(s) ==> 0 < s <= MAX_SLEEP_SECS * SECOND
            && elapsed + s <= delay && (elapsed + s == delay || s == MAX_SLEEP_SECS * SECOND),
{
}

} // verus!
