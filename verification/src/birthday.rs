//! Birthday records and the calendar dates they are matched against.

use vstd::prelude::*;

verus! {

/// A calendar date as the serving layer supplies it: plain day, month and
/// year numbers. The resolver never validates the date; it only compares the
/// day and month against configured birthdays.
#[derive(Clone, Copy, Debug, PartialEq, Eq, Structural)]
pub struct Date {
    pub day: u32,
    pub month: u32,
    pub year: i32,
}

/// A configured birthday: a day/month pair. Construction fails on values
/// outside the representable range (day 1..=31, month 1..=12); a built value
/// is immutable and compared by value.
#[derive(Clone, Copy, Debug, PartialEq, Eq, Structural)]
pub struct Birthday {
    day: u8,
    month: u8,
}

impl Birthday {
    /// The configured day of the month.
    pub closed spec fn spec_day(&self) -> u8 {
        self.day
    }

    /// The configured month.
    pub closed spec fn spec_month(&self) -> u8 {
        self.month
    }

    /// A birthday holds a representable day/month pair.
    pub open spec fn wf(&self) -> bool {
        &&& 1 <= self.spec_day() <= 31
        &&& 1 <= self.spec_month() <= 12
    }

    /// Build a birthday, failing on out-of-range values.
    pub fn new(day: u8, month: u8) -> (r: Option<Birthday>)
        ensures
            r is Some <==> (1 <= day <= 31 && 1 <= month <= 12),
            r matches Some(b) ==> b.spec_day() == day && b.spec_month() == month && b.wf(),
    {
        if 1 <= day && day <= 31 && 1 <= month && month <= 12 {
            Some(Birthday { day, month })
        } else {
            None
        }
    }

    /// The configured day of the month.
    pub fn day(&self) -> (r: u8)
        ensures
            r == self.spec_day(),
    {
        self.day
    }

    /// The configured month.
    pub fn month(&self) -> (r: u8)
        ensures
            r == self.spec_month(),
    {
        self.month
    }

    /// Whether `date` falls on this birthday: true exactly when the date's
    /// day and month equal the configured pair. The date's year plays no part.
    pub fn matches(&self, date: &Date) -> (r: bool)
        ensures
            r == (date.day == self.spec_day() as u32 && date.month == self.spec_month() as u32),
    {
        date.day == self.day as u32 && date.month == self.month as u32
    }
}

/// Matching a birthday is independent of the year: two dates with the same
/// day and month match exactly the same birthdays, whatever their years.
pub proof fn lemma_matches_ignores_year(b: Birthday, d1: Date, d2: Date)
    requires
        d1.day == d2.day,
        d1.month == d2.month,
    ensures
        (d1.day == b.spec_day() as u32 && d1.month == b.spec_month() as u32) == (d2.day
            == b.spec_day() as u32 && d2.month == b.spec_month() as u32),
{
}

} // verus!
