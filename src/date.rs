use vstd::prelude::*;
use chrono::Datelike;

verus! {

/// A calendar date of the local time zone.
#[derive(Clone, Copy, Debug, PartialEq, Eq, Structural)]
pub struct LocalDate {
    pub year: i32,
    pub month: u32,
    pub day: u32,
}

impl LocalDate {
    /// Month and day lie in their calendar ranges.
    pub open spec fn wf(&self) -> bool {
        &&& 1 <= self.month <= 12
        &&& 1 <= self.day <= 31
    }
}

/// Relies on chrono::Local::now and chrono's `Datelike` accessors: the
/// current date of the local time zone, with month in 1..=12 and day in 1..=31.
#[verifier::external_body]
pub(crate) fn local_today() -> (r: LocalDate)
    ensures
        r.wf(),
{
    let now = chrono::Local::now();
    LocalDate { year: now.year(), month: now.month(), day: now.day() }
}

} // verus!
