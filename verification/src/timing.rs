//! The timing policy: the dispute window after completion and the notice
//! that a cancellation needs for a full refund. All times are milliseconds
//! on the host's clock.

use vstd::prelude::*;

verus! {

/// How long after completion the patient may contest: 24 hours.
pub const DISPUTE_WINDOW: u64 = 86_400_000;

/// How long before the scheduled time a cancellation is still refunded in
/// full: more than 24 hours.
pub const CANCELLATION_NOTICE: u64 = 86_400_000;

/// The time from `since` to `now`, if the clock has not run backwards.
pub open spec fn elapsed(now: u64, since: u64) -> Option<u64> {
    if now >= since {
        Some((now - since) as u64)
    } else {
        None
    }
}

/// The dispute window is over: anyone may release.
pub open spec fn window_elapsed(now: u64, completed_at: u64) -> bool {
    now - completed_at >= DISPUTE_WINDOW
}

/// The dispute window is running: the patient may contest.
pub open spec fn window_open(now: u64, completed_at: u64) -> bool {
    0 <= now - completed_at < DISPUTE_WINDOW
}

/// The time left until `scheduled_time`, zero once it has passed.
pub open spec fn remaining(scheduled_time: u64, now: u64) -> u64 {
    if scheduled_time >= now {
        (scheduled_time - now) as u64
    } else {
        0
    }
}

/// A cancellation at `now` comes early enough for a full refund.
pub open spec fn notice_given(scheduled_time: u64, now: u64) -> bool {
    scheduled_time - now > CANCELLATION_NOTICE
}

/// Computes the time from `since` to `now` without wrapping.
pub fn time_since(now: u64, since: u64) -> (span: Option<u64>)
    ensures
        span == elapsed(now, since),
{
    now.checked_sub(since)
}

/// Whether the dispute window that began at `completed_at` is over at `now`.
/// A clock that reads earlier than the completion counts as not over.
pub fn dispute_window_elapsed(now: u64, completed_at: u64) -> (over: bool)
    ensures
        over == window_elapsed(now, completed_at),
{
    match time_since(now, completed_at) {
        Some(span) => span >= DISPUTE_WINDOW,
        None => false,
    }
}

/// Whether the patient may still contest at `now`. A clock that reads
/// earlier than the completion counts as too late.
pub fn dispute_window_open(now: u64, completed_at: u64) -> (open: bool)
    ensures
        open == window_open(now, completed_at),
{
    match time_since(now, completed_at) {
        Some(span) => span < DISPUTE_WINDOW,
        None => false,
    }
}

/// Computes the time left until `scheduled_time`, floored at zero.
pub fn time_until(scheduled_time: u64, now: u64) -> (left: u64)
    ensures
        left == remaining(scheduled_time, now),
{
    match scheduled_time.checked_sub(now) {
        Some(left) => left,
        None => 0,
    }
}

/// Whether a cancellation at `now` is refunded in full.
pub fn full_refund_due(scheduled_time: u64, now: u64) -> (full: bool)
    ensures
        full == notice_given(scheduled_time, now),
{
    time_until(scheduled_time, now) > CANCELLATION_NOTICE
}

} // verus!
