//! Calendar dates held as plain year, month and day, with the few calendar
//! computations that `chrono` performs for them.
use vstd::prelude::*;
use chrono::Datelike;

verus! {

/// A day of the proleptic Gregorian calendar.
#[derive(Clone, Copy, Debug, PartialEq, Eq, Structural)]
pub struct Date {
    pub year: i32,
    pub month: u32,
    pub day: u32,
}

pub open spec fn is_leap_year(y: int) -> bool {
    (y % 4 == 0 && y % 100 != 0) || y % 400 == 0
}

pub open spec fn days_in_month(y: int, m: int) -> int {
    if m == 2 {
        if is_leap_year(y) { 29 } else { 28 }
    } else if m == 4 || m == 6 || m == 9 || m == 11 {
        30
    } else {
        31
    }
}

/// The earliest and the latest year that `chrono` can represent.
pub const MIN_YEAR: i32 = -262143;
pub const MAX_YEAR: i32 = 262142;

/// Days of the year `y` before the first of month `m`.
pub open spec fn days_before_month(y: int, m: int) -> int {
    if m <= 1 {
        0
    } else if m == 2 {
        31
    } else {
        (if is_leap_year(y) { 1int } else { 0int }) + if m == 3 { 59int } else if m == 4 { 90int }
        else if m == 5 { 120int } else if m == 6 { 151int } else if m == 7 { 181int }
        else if m == 8 { 212int } else if m == 9 { 243int } else if m == 10 { 273int }
        else if m == 11 { 304int } else { 334int }
    }
}

pub open spec fn year_length(y: int) -> int {
    if is_leap_year(y) { 366 } else { 365 }
}

/// Days before January 1 of year `y`, counted from January 1 of year 1.
pub open spec fn year_start(y: int) -> int {
    365 * (y - 1) + (y - 1) / 4 - (y - 1) / 100 + (y - 1) / 400
}

/// The day number of a date counted from the start of the common era, as `chrono`
/// numbers it: January 1 of year 1 is day 1.
pub open spec fn ce_day(year: int, month: int, day: int) -> int {
    year_start(year) + days_before_month(year, month) + day
}

/// The first and the last day that `chrono` can represent.
pub open spec fn first_day() -> Date {
    Date { year: MIN_YEAR, month: 1, day: 1 }
}

pub open spec fn last_day() -> Date {
    Date { year: MAX_YEAR, month: 12, day: 31 }
}

/// The later of two dates.
pub open spec fn later(a: Date, b: Date) -> Date {
    if a.before(b) { b } else { a }
}

/// `start` and `end` are real dates in `chrono`'s range, and `end` does not come
/// before `start`.
pub open spec fn valid_range(start: Date, end: Date) -> bool {
    start.wf() && end.wf() && start.in_range() && end.in_range() && !end.before(start)
}

/// The earliest birth date and the earliest arrival date of a generated cat.
pub open spec fn earliest_birth() -> Date {
    Date { year: 2010, month: 1, day: 1 }
}

pub open spec fn earliest_arrival() -> Date {
    Date { year: 2015, month: 1, day: 1 }
}

/// A birth date and an arrival date as they are drawn on `today`: the birth from
/// 2010-01-01 to today, the arrival from the later of 2015-01-01 and the birth to today.
pub open spec fn dates_bounded(birth: Date, arrival: Date, today: Date) -> bool {
    &&& !birth.before(earliest_birth())
    &&& !today.before(birth)
    &&& !arrival.before(later(earliest_arrival(), birth))
    &&& !arrival.before(earliest_arrival())
    &&& !arrival.before(birth)
    &&& !today.before(arrival)
}

/// A date from which cats can be generated: real, in `chrono`'s range, and not before
/// 2015-01-01.
pub open spec fn usable_today(today: Date) -> bool {
    today.wf() && today.in_range() && !today.before(earliest_arrival())
}

impl Date {
    /// The date names a real day of the calendar.
    pub open spec fn wf(self) -> bool {
        1 <= self.month <= 12 && 1 <= self.day <= days_in_month(self.year as int, self.month as int)
    }

    /// The year lies in `chrono`'s range.
    pub open spec fn in_range(self) -> bool {
        MIN_YEAR <= self.year <= MAX_YEAR
    }

    pub open spec fn ce(self) -> int {
        ce_day(self.year as int, self.month as int, self.day as int)
    }

    /// Chronological order, which on real dates is the order of (year, month, day).
    pub open spec fn before(self, other: Date) -> bool {
        self.year < other.year || (self.year == other.year && (self.month < other.month
            || (self.month == other.month && self.day < other.day)))
    }

    pub fn new(year: i32, month: u32, day: u32) -> (r: Date)
        ensures
            r == (Date { year, month, day }),
    {
        Date { year, month, day }
    }

    /// The later of two dates.
    pub fn later_of(self, other: Date) -> (r: Date)
        ensures
            r == later(self, other),
    {
        if self.year < other.year || (self.year == other.year && (self.month < other.month
            || (self.month == other.month && self.day < other.day))) {
            other
        } else {
            self
        }
    }
}

/// Relies on `chrono::Local::now`: the current instant, as a UTC calendar date (a
/// real date) and in whole seconds since the Unix epoch. Which instant depends on the
/// clock.
#[verifier::external_body]
pub(crate) fn clock_now() -> (r: (Date, i64))
    ensures
        r.0.wf(),
        r.0.in_range(),
{
    let now = chrono::Local::now();
    let d = now.naive_utc().date();
    (Date { year: d.year(), month: d.month(), day: d.day() }, now.timestamp())
}

/// Relies on `chrono::NaiveDate::from_ymd_opt` and `Datelike::num_days_from_ce`: the
/// day number of the date, or `None` where `chrono` cannot represent the date.
#[verifier::external_body]
pub(crate) fn days_from_ce(d: Date) -> (r: Option<i32>)
    ensures
        r matches Some(n) ==> n == ce_day(d.year as int, d.month as int, d.day as int),
        d.wf() && d.in_range() ==> r is Some,
{
    match chrono::NaiveDate::from_ymd_opt(d.year, d.month, d.day) {
        Some(x) => Some(x.num_days_from_ce()),
        None => None,
    }
}

/// Relies on `chrono::NaiveDate::from_num_days_from_ce_opt`: the real date whose day
/// number is `n`, or `None` where it is out of `chrono`'s range.
#[verifier::external_body]
pub(crate) fn date_from_ce(n: i32) -> (r: Option<Date>)
    ensures
        r matches Some(d) ==> d.wf() && d.in_range() && ce_day(d.year as int, d.month as int, d.day as int) == n,
        first_day().ce() <= n <= last_day().ce() ==> r is Some,
{
    match chrono::NaiveDate::from_num_days_from_ce_opt(n) {
        Some(x) => Some(Date { year: x.year(), month: x.month(), day: x.day() }),
        None => None,
    }
}

/// Whole years from `birth` to `current`, as ages are counted: one less than the
/// difference of the years while the birthday of the current year has not come.
pub open spec fn years_between(birth: Date, current: Date) -> int {
    let diff = current.year - birth.year;
    if current.month < birth.month || (current.month == birth.month && current.day < birth.day) {
        diff - 1
    } else {
        diff
    }
}

/// An age in years held in a byte: negative spans count as 0, longer ones as 255.
pub open spec fn age_in_byte(years: int) -> int {
    if years < 0 {
        0
    } else if years > 255 {
        255
    } else {
        years
    }
}

/// The age in whole years on `current_date` of a cat born on `birth_date`.
pub fn calculate_age(birth_date: Date, current_date: Date) -> (r: u8)
    ensures
        r == age_in_byte(years_between(birth_date, current_date)),
{
    let mut age: i64 = current_date.year as i64 - birth_date.year as i64;
    if current_date.month < birth_date.month || (current_date.month == birth_date.month
        && current_date.day < birth_date.day) {
        age = age - 1;
    }
    if age < 0 {
        0
    } else if age > 255 {
        255
    } else {
        age as u8
    }
}

proof fn lemma_year_step(y: int)
    ensures
        year_start(y + 1) == year_start(y) + year_length(y),
{
}

proof fn lemma_year_start_grows(y1: int, y2: int)
    requires
        y1 < y2,
    ensures
        year_start(y1) + year_length(y1) <= year_start(y2),
    decreases y2 - y1,
{
    lemma_year_step(y1);
    if y1 + 1 < y2 {
        lemma_year_start_grows(y1 + 1, y2);
    }
}

/// On real dates, chronological order is the order of day numbers.
pub proof fn lemma_before_is_day_order(a: Date, b: Date)
    requires
        a.wf(),
        b.wf(),
    ensures
        a.before(b) <==> a.ce() < b.ce(),
        a == b <==> a.ce() == b.ce(),
{
    if a.year < b.year {
        lemma_year_start_grows(a.year as int, b.year as int);
    } else if b.year < a.year {
        lemma_year_start_grows(b.year as int, a.year as int);
    }
}

/// The date `k` days after `start`, where `start` and `end` make a valid range and
/// `k` stays within it; otherwise `start`.
pub fn date_in_range(start: Date, end: Date, k: i64) -> (r: Date)
    ensures
        valid_range(start, end) && 0 <= k <= end.ce() - start.ce() ==> r.wf() && r.ce() == start.ce() + k,
        valid_range(start, end) ==> r.wf() && r.in_range() && !r.before(start) && !end.before(r),
        r == start || (r.wf() && r.in_range() && r.ce() == start.ce() + k),
{
    let s = days_from_ce(start);
    let e = days_from_ce(end);
    proof {
        if valid_range(start, end) {
            lemma_before_is_day_order(start, end);
            lemma_before_is_day_order(first_day(), start);
            lemma_before_is_day_order(end, last_day());
        }
    }
    match (s, e) {
        (Some(s), Some(e)) => {
            if k < 0 || k > e as i64 - s as i64 {
                return start;
            }
            match date_from_ce((s as i64 + k) as i32) {
                Some(d) => {
                    proof {
                        if valid_range(start, end) {
                            lemma_before_is_day_order(d, start);
                            lemma_before_is_day_order(end, d);
                        }
                    }
                    d
                },
                None => start,
            }
        },
        _ => start,
    }
}

/// A date drawn at random from `start` to `end`, both included. Where the range is
/// not valid, the result is `start`.
pub fn generate_random_date_in_range(start: Date, end: Date) -> (r: Date)
    ensures
        valid_range(start, end) ==> r.wf() && r.in_range() && !r.before(start) && !end.before(r),
        r == start || (r.wf() && r.in_range()),
{
    match (days_from_ce(start), days_from_ce(end)) {
        (Some(s), Some(e)) => {
            if s > e {
                return start;
            }
            let k = crate::chance::random_between(0, e as i64 - s as i64);
            date_in_range(start, end, k)
        },
        _ => start,
    }
}

/// A random birth date from 2010-01-01 to `today`, and a random arrival date from the
/// later of 2015-01-01 and the birth date to `today`.
pub fn generate_dates(today: Date) -> (r: (Date, Date))
    ensures
        r.0.wf() && r.0.in_range(),
        r.1.wf() && r.1.in_range(),
        usable_today(today) ==> dates_bounded(r.0, r.1, today),
{
    let earliest_birth = Date::new(2010, 1, 1);
    let earliest_arrival = Date::new(2015, 1, 1);
    let birth_date = generate_random_date_in_range(earliest_birth, today);
    let arrival_start = earliest_arrival.later_of(birth_date);
    let arrival_date = generate_random_date_in_range(arrival_start, today);
    (birth_date, arrival_date)
}

} // verus!
