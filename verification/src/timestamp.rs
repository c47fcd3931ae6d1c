//! Timestamps: the engine reports date-typed parameters as text in the
//! fixed pattern `"UTC %Y-%m-%d %H:%M:%S"`; this module turns such text
//! into a plain calendar value.

use vstd::prelude::*;

use chrono::Datelike;
use chrono::Timelike;

verus! {

/// One calendar timestamp in coordinated universal time, held as plain
/// field values.
#[derive(Debug, Clone, Copy, PartialEq, Eq, Structural)]
pub struct UtcTimestamp {
    pub year: i32,
    pub month: u32,
    pub day: u32,
    pub hour: u32,
    pub minute: u32,
    pub second: u32,
}

impl UtcTimestamp {
    /// The calendar ranges every parsed timestamp lies in.
    pub open spec fn wf(&self) -> bool {
        &&& 1 <= self.month <= 12
        &&& 1 <= self.day <= 31
        &&& self.hour <= 23
        &&& self.minute <= 59
        &&& self.second <= 59
    }
}

/// What parsing the text `s` against the fixed timestamp pattern yields:
/// a function of the text alone.
pub uninterp spec fn utc_timestamp_of(s: Seq<char>) -> Option<UtcTimestamp>;

/// Relies on `chrono::NaiveDateTime::parse_from_str` with the fixed
/// pattern `"UTC %Y-%m-%d %H:%M:%S"`, and on chrono's `Datelike` and
/// `Timelike` accessors: the parse depends on the text alone and succeeds
/// exactly when the text matches the pattern with consistent fields, and
/// the accessors return the parsed fields within their documented
/// calendar ranges.
#[verifier::external_body]
pub fn parse_utc_timestamp(s: &str) -> (r: Option<UtcTimestamp>)
    ensures
        r == utc_timestamp_of(s@),
        r matches Some(t) ==> t.wf(),
{
    match chrono::NaiveDateTime::parse_from_str(s, "UTC %Y-%m-%d %H:%M:%S") {
        Ok(dt) => Some(
            UtcTimestamp {
                year: dt.year(),
                month: dt.month(),
                day: dt.day(),
                hour: dt.hour(),
                minute: dt.minute(),
                second: dt.second(),
            },
        ),
        Err(_) => None,
    }
}

} // verus!
