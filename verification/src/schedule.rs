//! Wait scheduling: turning a target publish instant into concrete,
//! never-negative suspend intervals.
//!
//! An iteration waits twice: once before the media upload, shortened by a
//! configured lead time so the upload finishes near the target instant, and
//! once after it, for whatever of the wait remains.  An overdue target
//! (already in the past) skips the scheduled waits and applies a short
//! fixed grace delay instead, so a failing item cannot retry in a tight
//! loop.

use vstd::prelude::*;
use crate::dates::{unix_of_timestamp, Timestamp};

verus! {

/// Seconds of lead time reserved for the media upload before the target
/// publish instant.
pub const MEDIA_UPLOAD_SECS: u64 = 60;

/// Seconds of grace delay applied before publishing an overdue item.
pub const GRACE_SECS: u64 = 5;

/// Seconds from `now` until `target`, clamped to zero: the difference when
/// the target lies ahead, zero when it is now or already past.
pub fn duration_until(target_unix: i64, now_unix: i64) -> (secs: u64)
    ensures
        target_unix > now_unix ==> secs == target_unix - now_unix,
        target_unix <= now_unix ==> secs == 0,
{
    let wide: i128 = target_unix as i128 - now_unix as i128;
    if wide > 0 {
        wide as u64
    } else {
        0
    }
}

/// The two-phase wait of one iteration, already clamped to zero.
#[derive(Clone, Copy, PartialEq, Eq, Structural, Debug)]
pub struct WaitPlan {
    /// Seconds to suspend before starting the media upload.
    pub before_upload_secs: u64,
    /// Whether the item is overdue: the scheduled wait was skipped and
    /// `before_upload_secs` is the fixed grace delay.
    pub overdue: bool,
}

/// Decides the wait that precedes the media upload.  A zero remaining
/// duration marks the item overdue and yields the fixed grace delay; a
/// positive one is shortened by the upload lead time, clamped to zero.
/// The result is never negative by construction.
pub fn plan_first_wait(until_target_secs: u64, lead_secs: u64) -> (plan: WaitPlan)
    ensures
        until_target_secs == 0 ==> plan == (WaitPlan { before_upload_secs: GRACE_SECS, overdue: true }),
        until_target_secs > lead_secs ==> plan == (WaitPlan {
            before_upload_secs: (until_target_secs - lead_secs) as u64,
            overdue: false,
        }),
        0 < until_target_secs <= lead_secs ==> plan == (WaitPlan {
            before_upload_secs: 0,
            overdue: false,
        }),
{
    if until_target_secs == 0 {
        WaitPlan { before_upload_secs: GRACE_SECS, overdue: true }
    } else if until_target_secs > lead_secs {
        WaitPlan { before_upload_secs: until_target_secs - lead_secs, overdue: false }
    } else {
        WaitPlan { before_upload_secs: 0, overdue: false }
    }
}

/// Relies on `time::OffsetDateTime::now_utc` and
/// `time::OffsetDateTime::unix_timestamp`: reads the wall clock.  Nothing
/// can be promised of the value.
#[verifier::external_body]
pub fn now_unix() -> i64 {
    time::OffsetDateTime::now_utc().unix_timestamp()
}

/// Seconds from the wall clock's current instant until `date`, clamped to
/// zero.  The clock's reading cannot be pinned down, so the exact relation
/// between target, clock and result is stated by [`duration_until`], which
/// this function applies to the clock's value.
pub fn get_duration_until_tweet(date: &Timestamp) -> (secs: u64)
    requires
        date.wf(),
{
    let target = unix_of_timestamp(date);
    let now = now_unix();
    duration_until(target, now)
}

} // verus!
