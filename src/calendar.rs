use vstd::prelude::*;

verus! {

/// Day number of 1970-01-01.
pub const UNIX_EPOCH_DAY: i32 = 719_163;

/// Day number of the earliest date the calendar represents (1 January of
/// the year -262143).
pub const FIRST_DAY: i32 = -95_746_129;

/// Day number of the latest date the calendar represents (31 December of
/// the year 262142).
pub const LAST_DAY: i32 = 95_745_399;

/// A day number that stands for a calendar date.
pub open spec fn is_day(d: int) -> bool {
    FIRST_DAY <= d <= LAST_DAY
}

/// Whether `d` stands for a calendar date.
pub fn is_calendar_day(d: i32) -> (r: bool)
    ensures
        r == is_day(d as int),
{
    FIRST_DAY <= d && d <= LAST_DAY
}

/// Position of a date within its week: 0 for Monday up to 6 for Sunday.
/// Day 1 (0001-01-01) was a Monday.
pub open spec fn spec_days_from_monday(d: int) -> int {
    (d - 1) % 7
}

/// The number of days since the Monday of the week that holds `d`.
pub fn days_from_monday(d: i32) -> (r: u32)
    ensures
        r as int == spec_days_from_monday(d as int),
        r < 7,
{
    let m = (d as i64 - 1) % 7;
    if m < 0 {
        (m + 7) as u32
    } else {
        m as u32
    }
}

/// Which day a query speaks of: the current date or the one before it.
#[derive(Clone, Copy, Debug, PartialEq, Eq, Structural)]
pub enum Day {
    Today,
    Yesterday,
}

impl Day {
    /// The date this selector stands for when the current date is `today`.
    pub open spec fn spec_resolve(self, today: int) -> int {
        match self {
            Day::Today => today,
            Day::Yesterday => today - 1,
        }
    }

    pub fn as_str(&self) -> (r: &'static str)
        ensures
            r@ == (match self {
                Day::Today => "Today"@,
                Day::Yesterday => "Yesterday"@,
            }),
    {
        match self {
            Day::Today => "Today",
            Day::Yesterday => "Yesterday",
        }
    }

    /// The date this selector stands for when the current date is `today`.
    pub fn resolve_date(&self, today: i32) -> (r: i32)
        requires
            is_day(today as int),
        ensures
            r as int == self.spec_resolve(today as int),
    {
        match self {
            Day::Today => today,
            Day::Yesterday => today - 1,
        }
    }

}

} // verus!
