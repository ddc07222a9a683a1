//! The one place the library reads the wall clock. The reading itself is
//! the outside crate's; everything computed from it is verified against the
//! `Timestamp` the reading is converted into, and the guard that admits a
//! reading is a verified function of its own, so its behaviour is fixed for
//! every possible reading.

use crate::model::Timestamp;
use chrono::{Datelike, Timelike};
use vstd::prelude::*;

verus! {

/// Relies on chrono's `Local::now` and its `Datelike`/`Timelike` accessors:
/// `month` is 1-12, `day` is 1-31, `hour` is 0-23, `minute` and `second`
/// are 0-59, as their documentation states. Nothing is assumed about the
/// year, and nothing relates two readings. Note that `Local::now` itself
/// panics on a system clock set before the Unix epoch.
#[verifier::external_body]
pub fn local_now() -> (t: Timestamp)
    ensures
        1 <= t.month <= 12,
        1 <= t.day <= 31,
        t.hour < 24,
        t.minute < 60,
        t.second < 60,
{
    let now = chrono::Local::now();
    Timestamp {
        year: now.year(),
        month: now.month(),
        day: now.day(),
        hour: now.hour(),
        minute: now.minute(),
        second: now.second(),
    }
}

/// The guard a clock reading must pass: a timestamp is admitted unchanged
/// exactly when its year has at most four digits, and rejected otherwise.
pub fn accept_stamp(t: Timestamp) -> (r: Option<Timestamp>)
    ensures
        r == (if 0 <= t.year <= 9999 {
            Some(t)
        } else {
            None::<Timestamp>
        }),
{
    if 0 <= t.year && t.year <= 9999 {
        Some(t)
    } else {
        None
    }
}

/// The current local time, once `accept_stamp` has admitted its year (true
/// of any realistic clock); `None` otherwise, so a caller never formats a
/// timestamp out of range.
pub fn local_now_checked() -> (r: Option<Timestamp>)
    ensures
        r matches Some(t) ==> t.wf(),
{
    accept_stamp(local_now())
}

} // verus!
