use vstd::prelude::*;
use chrono::Datelike;

verus! {

/// Earliest year that a [`Date`] can hold.
pub const MIN_YEAR: i32 = -262143;

/// Latest year that a [`Date`] can hold.
pub const MAX_YEAR: i32 = 262142;

/// A calendar date of the proleptic Gregorian calendar, without a time.
#[derive(Clone, Copy, Debug, PartialEq, Eq, Structural)]
pub struct Date {
    pub year: i32,
    pub month: u32,
    pub day: u32,
}

pub open spec fn is_leap_year(y: int) -> bool {
    (y % 4 == 0 && y % 100 != 0) || y % 400 == 0
}

pub open spec fn days_in_month(y: int, m: int) -> int {
    if m == 2 {
        if is_leap_year(y) {
            29
        } else {
            28
        }
    } else if m == 4 || m == 6 || m == 9 || m == 11 {
        30
    } else {
        31
    }
}

/// Days of the year `y` before the first of month `m`.
pub open spec fn days_before_month(y: int, m: int) -> int
    decreases m,
{
    if m <= 1 {
        0
    } else {
        days_before_month(y, m - 1) + days_in_month(y, m - 1)
    }
}

/// Number of the day in the proleptic Gregorian calendar, with
/// January 1 of year 1 as day 1.
pub open spec fn day_number(y: int, m: int, d: int) -> int {
    let p = y - 1;
    365 * p + p / 4 - p / 100 + p / 400 + days_before_month(y, m) + d
}

/// Names what chrono's ISO date parser makes of a text: `(year, month, day)`.
pub uninterp spec fn iso_date_of(s: Seq<char>) -> Option<(int, int, int)>;

impl Date {
    /// Year, month and day form a date of the calendar within the
    /// representable years.
    pub open spec fn wf(self) -> bool {
        MIN_YEAR <= self.year <= MAX_YEAR && 1 <= self.month <= 12 && 1 <= self.day
            <= days_in_month(self.year as int, self.month as int)
    }

    pub open spec fn spec_day_number(self) -> int {
        day_number(self.year as int, self.month as int, self.day as int)
    }

    pub open spec fn triple(self) -> (int, int, int) {
        (self.year as int, self.month as int, self.day as int)
    }

    /// The date with the given year, month and day, if it exists.
    pub fn new(year: i32, month: u32, day: u32) -> (r: Option<Date>)
        ensures
            r matches Some(d) ==> d.year == year && d.month == month && d.day == day,
            r is Some <==> (Date { year, month, day }).wf(),
    {
        if year < MIN_YEAR || year > MAX_YEAR || month < 1 || month > 12 || day < 1 {
            return None;
        }
        let leap = (year % 4 == 0 && year % 100 != 0) || year % 400 == 0;
        let last: u32 = if month == 2 {
            if leap {
                29
            } else {
                28
            }
        } else if month == 4 || month == 6 || month == 9 || month == 11 {
            30
        } else {
            31
        };
        if day > last {
            None
        } else {
            Some(Date { year, month, day })
        }
    }

    /// Parses a date written `YYYY-MM-DD`.
    pub fn parse(s: &str) -> (r: Option<Date>)
        ensures
            r matches Some(d) ==> d.wf() && iso_date_of(s@) == Some(d.triple()),
            r is None <==> iso_date_of(s@) is None,
    {
        parse_naive_date(s)
    }

    /// Days from `earlier` to `self`; negative when `self` comes first.
    pub fn days_since(&self, earlier: &Date) -> (r: i64)
        requires
            self.wf(),
            earlier.wf(),
        ensures
            r as int == self.spec_day_number() - earlier.spec_day_number(),
    {
        let a = days_from_ce(self) as i64;
        let b = days_from_ce(earlier) as i64;
        a - b
    }
}

/// Relies on chrono's `FromStr for NaiveDate` (`%Y-%m-%d`): the result
/// depends on the text alone, and a date that chrono returns is a valid
/// calendar date within its year range.
#[verifier::external_body]
fn parse_naive_date(s: &str) -> (r: Option<Date>)
    ensures
        r matches Some(d) ==> d.wf() && iso_date_of(s@) == Some(d.triple()),
        r is None <==> iso_date_of(s@) is None,
{
    match s.parse::<chrono::NaiveDate>() {
        Ok(d) => Some(Date { year: d.year(), month: d.month(), day: d.day() }),
        Err(_) => None,
    }
}

/// Relies on chrono's `NaiveDate::from_ymd_opt`, which accepts every valid
/// date in its year range, and `Datelike::num_days_from_ce`, which counts
/// days with January 1 of year 1 as day 1.
#[verifier::external_body]
fn days_from_ce(d: &Date) -> (r: i32)
    requires
        d.wf(),
    ensures
        r as int == d.spec_day_number(),
{
    chrono::NaiveDate::from_ymd_opt(d.year, d.month, d.day).unwrap().num_days_from_ce()
}

} // verus!
