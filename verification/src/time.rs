//! Calendar instants in UTC, as far as timelocks need them.

use chrono::{Datelike, Timelike};
use vstd::prelude::*;

verus! {

/// The earliest year that an instant may lie in.
pub const MIN_YEAR: i32 = -262_143;

/// The latest year that an instant may lie in.
pub const MAX_YEAR: i32 = 262_142;

/// Whether `year` of the proleptic Gregorian calendar has a February 29.
pub open spec fn is_leap_year(year: int) -> bool {
    year % 4 == 0 && (year % 100 != 0 || year % 400 == 0)
}

/// The number of days of `month` (1 to 12) in `year`; 0 for any other month.
pub open spec fn days_in_month(year: int, month: int) -> int {
    if month == 2 {
        if is_leap_year(year) { 29 } else { 28 }
    } else if month == 4 || month == 6 || month == 9 || month == 11 {
        30
    } else if 1 <= month <= 12 {
        31
    } else {
        0
    }
}

/// Whether the given day is a date of the calendar within the supported years.
pub open spec fn date_exists(year: int, month: int, day: int) -> bool {
    &&& MIN_YEAR <= year <= MAX_YEAR
    &&& 1 <= month <= 12
    &&& 1 <= day <= days_in_month(year, month)
}

/// The number of days from the first day of year 1 to the first day of `year`,
/// negative for the years before.
#[verifier::opaque]
pub open spec fn days_before_year(year: int) -> int {
    let past = year - 1;
    365 * past + past / 4 - past / 100 + past / 400
}

/// The number of days of `year` that lie before the first of `month`.
pub open spec fn days_before_month(year: int, month: int) -> int
    decreases month,
{
    if month <= 1 {
        0
    } else {
        days_before_month(year, month - 1) + days_in_month(year, month - 1)
    }
}

/// An absolute instant in UTC, held by its calendar fields.
///
/// The derived order compares the fields from `year` down to `nanosecond`,
/// which for valid instants is the order in time.
#[derive(Copy, Clone, PartialEq, Eq, PartialOrd, Ord, Hash, Debug, Structural)]
pub struct UtcInstant {
    pub year: i32,
    /// Month of the year, 1 to 12.
    pub month: u32,
    /// Day of the month, starting at 1.
    pub day: u32,
    /// Whole seconds since midnight, below 86 400.
    pub second_of_day: u32,
    /// Nanoseconds since the last whole second, below 1 000 000 000.
    pub nanosecond: u32,
}

impl UtcInstant {
    /// The instant names an existing date and a time of day without a leap second.
    pub open spec fn is_valid(self) -> bool {
        &&& date_exists(self.year as int, self.month as int, self.day as int)
        &&& self.second_of_day < 86_400
        &&& self.nanosecond < 1_000_000_000
    }

    /// `self` lies strictly earlier in time than `other`.
    pub open spec fn is_before(self, other: UtcInstant) -> bool {
        ||| self.year < other.year
        ||| self.year == other.year && self.month < other.month
        ||| self.year == other.year && self.month == other.month && self.day < other.day
        ||| self.year == other.year && self.month == other.month && self.day == other.day
            && self.second_of_day < other.second_of_day
        ||| self.year == other.year && self.month == other.month && self.day == other.day
            && self.second_of_day == other.second_of_day && self.nanosecond < other.nanosecond
    }

    /// The place of the instant's day in the run of all days: the first day of year 1
    /// is day 1, and each day after it has the next number.
    pub open spec fn day_number(self) -> int {
        days_before_year(self.year as int) + days_before_month(
            self.year as int,
            self.month as int,
        ) + self.day
    }

    /// The same month, day and time of day in the year `year`, where that date exists.
    pub open spec fn in_year(self, year: int) -> Option<UtcInstant> {
        if date_exists(year, self.month as int, self.day as int) {
            Some(UtcInstant { year: year as i32, ..self })
        } else {
            None
        }
    }

    /// The day of the month that stands for the day of `self` in the year `year`: the
    /// same day, but February 28 for a February 29 where `year` has none.
    pub open spec fn day_in_year(self, year: int) -> u32 {
        if self.month == 2 && self.day == 29 && !is_leap_year(year) {
            28
        } else {
            self.day
        }
    }

    /// The instant `years` years later: the same month and time of day in the target
    /// year, on the same day of the month, or on February 28 where a February 29 is
    /// missing. There is none where the target year is out of range.
    pub open spec fn years_later(self, years: int) -> Option<UtcInstant> {
        let year = self.year + years;
        if MIN_YEAR <= year <= MAX_YEAR {
            Some(UtcInstant { year: year as i32, day: self.day_in_year(year), ..self })
        } else {
            None
        }
    }

    /// Builds an instant from its fields, if they name a valid one.
    pub fn new(year: i32, month: u32, day: u32, second_of_day: u32, nanosecond: u32) -> (r: Option<
        UtcInstant,
    >)
        ensures
            r == (if (UtcInstant { year, month, day, second_of_day, nanosecond }).is_valid() {
                Some(UtcInstant { year, month, day, second_of_day, nanosecond })
            } else {
                None
            }),
    {
        if year < MIN_YEAR || year > MAX_YEAR || month < 1 || month > 12 || day < 1
            || second_of_day >= 86_400 || nanosecond >= 1_000_000_000 {
            return None;
        }
        let leap: bool = year % 4 == 0 && (year % 100 != 0 || year % 400 == 0);
        let last: u32 = if month == 2 {
            if leap { 29 } else { 28 }
        } else if month == 4 || month == 6 || month == 9 || month == 11 {
            30
        } else {
            31
        };
        if day > last {
            return None;
        }
        Some(UtcInstant { year, month, day, second_of_day, nanosecond })
    }

    /// Whether `self` lies strictly earlier in time than `other`.
    pub fn precedes(&self, other: &UtcInstant) -> (r: bool)
        ensures
            r == self.is_before(*other),
    {
        if self.year != other.year {
            self.year < other.year
        } else if self.month != other.month {
            self.month < other.month
        } else if self.day != other.day {
            self.day < other.day
        } else if self.second_of_day != other.second_of_day {
            self.second_of_day < other.second_of_day
        } else {
            self.nanosecond < other.nanosecond
        }
    }

    /// Moves the instant `years` years on, keeping month and time of day. The day of
    /// the month is kept too, but a February 29 becomes February 28 where the target
    /// year is a common year.
    ///
    /// There is no result where the target year is out of range.
    pub fn plus_years(&self, years: i32) -> (r: Option<UtcInstant>)
        requires
            self.is_valid(),
        ensures
            r == self.years_later(years as int),
            r is Some <==> MIN_YEAR <= self.year + years <= MAX_YEAR,
            r matches Some(t) ==> t.is_valid(),
    {
        if years > MAX_YEAR - self.year || years < MIN_YEAR - self.year {
            return None;
        }
        let year: i32 = self.year + years;
        match with_year(self, year) {
            Some(moved) => Some(moved),
            None => {
                let eve = UtcInstant {
                    year: self.year,
                    month: self.month,
                    day: 28,
                    second_of_day: self.second_of_day,
                    nanosecond: self.nanosecond,
                };
                with_year(&eve, year)
            },
        }
    }
}

/// Moving a valid instant on by years keeps month and time of day, and lands on a
/// valid instant whose day is the same or, from a February 29, the 28th.
pub proof fn years_later_keeps_the_day(t: UtcInstant, years: int)
    requires
        t.is_valid(),
    ensures
        t.years_later(years) matches Some(u) ==> {
            &&& u.is_valid()
            &&& u.year == t.year + years
            &&& u.month == t.month
            &&& u.second_of_day == t.second_of_day
            &&& u.nanosecond == t.nanosecond
            &&& u.day == t.day || (t.month == 2 && t.day == 29 && u.day == 28)
            &&& t.in_year(t.year + years) is Some ==> u.day == t.day
        },
        t.years_later(years) is Some <==> MIN_YEAR <= t.year + years <= MAX_YEAR,
{
}

/// Moving an instant on by more years gives a later instant.
pub proof fn years_later_is_monotonic(t: UtcInstant, fewer: int, more: int)
    requires
        t.is_valid(),
        fewer < more,
    ensures
        t.years_later(fewer) matches Some(a) ==> (t.years_later(more) matches Some(b)
            ==> a.is_before(b)),
        0 < more ==> (t.years_later(more) matches Some(b) ==> t.is_before(b)),
        0 <= fewer ==> (t.years_later(more) is Some ==> t.years_later(fewer) is Some),
{
}

/// Five years on is 1825 to 1827 days on, and three years on is 1095 or 1096 days on.
pub proof fn years_later_in_days(t: UtcInstant)
    requires
        t.is_valid(),
    ensures
        t.years_later(5) matches Some(u) ==> 1825 <= u.day_number() - t.day_number() <= 1827,
        t.years_later(3) matches Some(u) ==> 1095 <= u.day_number() - t.day_number() <= 1096,
{
    let year = t.year as int;
    let month = t.month as int;
    month_start_moves_by_the_leap_day(year, year + 3, month);
    month_start_moves_by_the_leap_day(year, year + 5, month);
    year_has_its_days(year);
    year_has_its_days(year + 1);
    year_has_its_days(year + 2);
    year_has_its_days(year + 3);
    year_has_its_days(year + 4);
}

/// A year has 366 days if it is a leap year, and 365 otherwise.
proof fn year_has_its_days(year: int)
    ensures
        days_before_year(year + 1) - days_before_year(year) == if is_leap_year(year) {
            366int
        } else {
            365int
        },
{
    reveal(days_before_year);
}

/// From March on, a month starts one day later in a leap year than in a common
/// year; January and February start on the same day of every year.
proof fn month_start_moves_by_the_leap_day(year: int, other: int, month: int)
    requires
        1 <= month <= 12,
    ensures
        days_before_month(year, month) - days_before_month(other, month) == (if month > 2
            && is_leap_year(year) {
            1int
        } else {
            0int
        }) - (if month > 2 && is_leap_year(other) {
            1int
        } else {
            0int
        }),
{
    reveal_with_fuel(days_before_month, 13);
}

/// `is_before` is a strict order: nothing is before itself, and before goes through.
pub proof fn is_before_is_strict(a: UtcInstant, b: UtcInstant, c: UtcInstant)
    ensures
        !a.is_before(a),
        a.is_before(b) && b.is_before(c) ==> a.is_before(c),
        a.is_before(b) ==> !b.is_before(a),
        a == b || a.is_before(b) || b.is_before(a),
{
}

/// Calls `chrono::Datelike::with_year` on the `chrono::DateTime<Utc>` that has the
/// fields of `t`.
///
/// Trusted: for a valid instant, chrono changes the year and keeps month, day and
/// time of day, and answers `None` exactly where the target year is out of its range
/// or lacks that day of that month.
#[verifier::external_body]
fn with_year(t: &UtcInstant, year: i32) -> (r: Option<UtcInstant>)
    requires
        t.is_valid(),
    ensures
        r == t.in_year(year as int),
{
    let date = chrono::NaiveDate::from_ymd_opt(t.year, t.month, t.day)?;
    let time = chrono::NaiveTime::from_num_seconds_from_midnight_opt(t.second_of_day, t.nanosecond)?;
    let moved = date.and_time(time).and_utc().with_year(year)?;
    Some(UtcInstant {
        year: moved.year(),
        month: moved.month(),
        day: moved.day(),
        second_of_day: moved.num_seconds_from_midnight(),
        nanosecond: moved.nanosecond(),
    })
}

} // verus!
