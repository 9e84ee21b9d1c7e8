//! The one reading this library takes from its surroundings: the
//! current wall-clock moment, broken into plain components.

use vstd::prelude::*;
use chrono::Datelike;
use chrono::Timelike;

verus! {

/// Relies on `chrono::Local::now` and chrono's `Datelike` /
/// `Timelike` accessors: `month` and `day` are counted from 1 and
/// reach at most 12 and 31, `hour` at most 23, `minute` and `second`
/// at most 59. Nothing is assumed of the year, nor of which moment
/// comes back.
#[verifier::external_body]
pub(crate) fn now_parts() -> (r: (i32, u32, u32, u32, u32, u32))
    ensures
        1 <= r.1 <= 12,
        1 <= r.2 <= 31,
        r.3 <= 23,
        r.4 <= 59,
        r.5 <= 59,
{
    let now = chrono::Local::now();
    (now.year(), now.month(), now.day(), now.hour(), now.minute(), now.second())
}

} // verus!
