//! Calendar dates in the proleptic Gregorian calendar.
//!
//! A [`Date`] holds year, month and day as plain numbers. The calendar
//! arithmetic itself is done by `chrono`; the functions at the end of this
//! file are the only places where it is called, and their contracts are
//! stated over the day count defined here.

use crate::text::{push_char, push_two_digits, two_digits};
use chrono::Datelike;
use vstd::prelude::*;
use vstd::string::*;

verus! {

/// The first year a date can have.
pub const MIN_YEAR: i32 = -262143;

/// The last year a date can have.
pub const MAX_YEAR: i32 = 262142;

/// A calendar date. Years are numbered astronomically: year 0 precedes year 1.
#[derive(Clone, Copy, Debug, PartialEq, Eq, Structural)]
pub struct Date {
    pub year: i32,
    pub month: u32,
    pub day: u32,
}

pub open spec fn is_leap_year(year: int) -> bool {
    year % 4 == 0 && (year % 100 != 0 || year % 400 == 0)
}

/// Number of days of month `month` (1 to 12) in `year`.
pub open spec fn days_in_month(year: int, month: int) -> int {
    if month == 2 {
        if is_leap_year(year) {
            29
        } else {
            28
        }
    } else if month == 4 || month == 6 || month == 9 || month == 11 {
        30
    } else {
        31
    }
}

/// Number of days in the years that precede `year`, counted from year 1.
/// Negative for `year <= 0`.
pub open spec fn days_before_year(year: int) -> int {
    let y = year - 1;
    365 * y + y / 4 - y / 100 + y / 400
}

/// Number of days of `year` that precede its month `month`.
pub open spec fn days_before_month(year: int, month: int) -> int
    decreases month,
{
    if month <= 1 {
        0
    } else {
        days_before_month(year, month - 1) + days_in_month(year, month - 1)
    }
}

/// Whether year, month and day name a day that exists and that a `Date` can hold.
pub open spec fn valid_ymd(year: int, month: int, day: int) -> bool {
    &&& MIN_YEAR <= year <= MAX_YEAR
    &&& 1 <= month <= 12
    &&& 1 <= day <= days_in_month(year, month)
}

/// The day count of a calendar day: 1 for 0001-01-01, increasing by one per day.
pub open spec fn day_number_of(year: int, month: int, day: int) -> int {
    days_before_year(year) + days_before_month(year, month) + day
}

impl Date {
    /// The day exists in the calendar and its year is in range.
    pub open spec fn valid(self) -> bool {
        valid_ymd(self.year as int, self.month as int, self.day as int)
    }

    /// The day count of this date, see [`day_number_of`].
    pub open spec fn day_number(self) -> int {
        day_number_of(self.year as int, self.month as int, self.day as int)
    }

    /// The first date, -262143-01-01.
    pub open spec fn first() -> Date {
        Date { year: MIN_YEAR, month: 1, day: 1 }
    }

    /// The last date, +262142-12-31.
    pub open spec fn last() -> Date {
        Date { year: MAX_YEAR, month: 12, day: 31 }
    }

    /// `self` moved by `days` days, if that day is still in range.
    pub open spec fn shifted(self, days: int) -> Option<Date> {
        if self.valid() && Date::first().day_number() <= self.day_number() + days
            <= Date::last().day_number() {
            Some(
                choose|d: Date| d.valid() && d.day_number() == self.day_number() + days,
            )
        } else {
            None
        }
    }

    /// The day after `self`; `None` for the last date and for a `self` that
    /// names no date.
    pub fn succ_opt(self) -> (r: Option<Date>)
        ensures
            r == self.shifted(1),
    {
        let r = naive_succ(self);
        proof {
            self.lemma_shifted(1, r);
        }
        r
    }

    /// The day before `self`; `None` for the first date and for a `self`
    /// that names no date.
    pub fn pred_opt(self) -> (r: Option<Date>)
        ensures
            r == self.shifted(-1),
    {
        let r = naive_pred(self);
        proof {
            self.lemma_shifted(-1, r);
        }
        r
    }

    /// The day `days` days after `self`, or `None` where that is out of range.
    pub fn checked_add_days(self, days: u64) -> (r: Option<Date>)
        ensures
            r == self.shifted(days as int),
    {
        let r = naive_add_days(self, days);
        proof {
            self.lemma_shifted(days as int, r);
        }
        r
    }

    /// The day `days` days before `self`, or `None` where that is out of range.
    pub fn checked_sub_days(self, days: u64) -> (r: Option<Date>)
        ensures
            r == self.shifted(-(days as int)),
    {
        let r = naive_sub_days(self, days);
        proof {
            self.lemma_shifted(-(days as int), r);
        }
        r
    }

    /// A result that is a valid date with the right day count, given
    /// exactly when that count is in range, is `shifted`.
    proof fn lemma_shifted(self, days: int, r: Option<Date>)
        requires
            r is Some ==> r->0.valid() && r->0.day_number() == self.day_number() + days,
            r is Some ==> self.valid(),
            r is None && self.valid() ==> !(Date::first().day_number() <= self.day_number() + days
                <= Date::last().day_number()),
        ensures
            r == self.shifted(days),
    {
        if r is Some {
            let d = r->0;
            lemma_day_number_in_range(d);
            let c = choose|c: Date| c.valid() && c.day_number() == self.day_number() + days;
            lemma_day_number_injective(c, d);
        }
    }

    /// The date with the given year, month and day, or `None` where no such
    /// day exists or the year is out of range.
    pub fn from_ymd_opt(year: i32, month: u32, day: u32) -> (r: Option<Date>)
        ensures
            r is Some <==> valid_ymd(year as int, month as int, day as int),
            r is Some ==> r->0 == (Date { year, month, day }),
    {
        naive_from_ymd(year, month, day)
    }
}

/// The short name of a month, `ERR` for a number that is no month.
pub open spec fn month_name(month: int) -> Seq<char> {
    if month == 1 {
        "Jan"@
    } else if month == 2 {
        "Feb"@
    } else if month == 3 {
        "Mar"@
    } else if month == 4 {
        "Apr"@
    } else if month == 5 {
        "May"@
    } else if month == 6 {
        "Jun"@
    } else if month == 7 {
        "Jul"@
    } else if month == 8 {
        "Aug"@
    } else if month == 9 {
        "Sep"@
    } else if month == 10 {
        "Oct"@
    } else if month == 11 {
        "Nov"@
    } else if month == 12 {
        "Dec"@
    } else {
        "ERR"@
    }
}

/// Month and day as shown in a list, as in `Jan 05`.
pub open spec fn disp_md_spec(date: Date) -> Seq<char> {
    month_name(date.month as int) + seq![' '] + two_digits(date.day as nat)
}

/// Month and day of a date as shown in a list, as in `Jan 05`.
pub fn disp_md(date: Date) -> (r: String)
    ensures
        r@ == disp_md_spec(date),
{
    let name = if date.month == 1 {
        "Jan"
    } else if date.month == 2 {
        "Feb"
    } else if date.month == 3 {
        "Mar"
    } else if date.month == 4 {
        "Apr"
    } else if date.month == 5 {
        "May"
    } else if date.month == 6 {
        "Jun"
    } else if date.month == 7 {
        "Jul"
    } else if date.month == 8 {
        "Aug"
    } else if date.month == 9 {
        "Sep"
    } else if date.month == 10 {
        "Oct"
    } else if date.month == 11 {
        "Nov"
    } else if date.month == 12 {
        "Dec"
    } else {
        "ERR"
    };
    let mut r = String::from_str(name);
    push_char(&mut r, ' ');
    push_two_digits(&mut r, date.day);
    assert(r@ =~= disp_md_spec(date));
    r
}

/// The length of a year, as the difference of two year offsets.
pub proof fn lemma_year_length(year: int)
    ensures
        days_before_year(year + 1) - days_before_year(year) == if is_leap_year(year) {
            366int
        } else {
            365int
        },
{
    let y = year - 1;
    assert(year / 4 - y / 4 == if year % 4 == 0 { 1int } else { 0int });
    assert(year / 100 - y / 100 == if year % 100 == 0 { 1int } else { 0int });
    assert(year / 400 - y / 400 == if year % 400 == 0 { 1int } else { 0int });
    assert(year % 400 == 0 ==> year % 100 == 0);
    assert(year % 100 == 0 ==> year % 4 == 0);
}

/// Year offsets grow by at least 365 days per year.
pub proof fn lemma_years_grow(y1: int, y2: int)
    requires
        y1 <= y2,
    ensures
        days_before_year(y1) + 365 * (y2 - y1) <= days_before_year(y2),
    decreases y2 - y1,
{
    if y1 < y2 {
        lemma_years_grow(y1, y2 - 1);
        lemma_year_length(y2 - 1);
    }
}

/// The month offsets of a year, written out.
pub proof fn lemma_month_offsets(year: int)
    ensures
        days_before_month(year, 1) == 0,
        days_before_month(year, 2) == 31,
        days_before_month(year, 3) == 31 + days_in_month(year, 2),
        days_before_month(year, 4) == 62 + days_in_month(year, 2),
        days_before_month(year, 5) == 92 + days_in_month(year, 2),
        days_before_month(year, 6) == 123 + days_in_month(year, 2),
        days_before_month(year, 7) == 153 + days_in_month(year, 2),
        days_before_month(year, 8) == 184 + days_in_month(year, 2),
        days_before_month(year, 9) == 215 + days_in_month(year, 2),
        days_before_month(year, 10) == 245 + days_in_month(year, 2),
        days_before_month(year, 11) == 276 + days_in_month(year, 2),
        days_before_month(year, 12) == 306 + days_in_month(year, 2),
{
    reveal_with_fuel(days_before_month, 13);
}

/// Earlier dates have smaller day counts: the day count orders valid dates
/// as year, month and day do.
pub proof fn lemma_day_number_increases(a: Date, b: Date)
    requires
        a.valid(),
        b.valid(),
        a.year < b.year || (a.year == b.year && (a.month < b.month || (a.month == b.month && a.day
            < b.day))),
    ensures
        a.day_number() < b.day_number(),
{
    lemma_month_offsets(a.year as int);
    lemma_month_offsets(b.year as int);
    if a.year < b.year {
        lemma_year_length(a.year as int);
        lemma_years_grow(a.year + 1, b.year as int);
    }
}

/// Two valid dates with the same day count are the same date.
pub proof fn lemma_day_number_injective(a: Date, b: Date)
    requires
        a.valid(),
        b.valid(),
        a.day_number() == b.day_number(),
    ensures
        a == b,
{
    if a != b {
        if a.year < b.year || (a.year == b.year && (a.month < b.month || (a.month == b.month
            && a.day < b.day))) {
            lemma_day_number_increases(a, b);
        } else {
            lemma_day_number_increases(b, a);
        }
    }
}

/// Every valid date lies between the first and the last date.
pub proof fn lemma_day_number_in_range(d: Date)
    requires
        d.valid(),
    ensures
        Date::first().day_number() <= d.day_number() <= Date::last().day_number(),
{
    if d != Date::first() {
        lemma_day_number_increases(Date::first(), d);
    }
    if d != Date::last() {
        lemma_day_number_increases(d, Date::last());
    }
}

/// First and last date are less than 200 million days apart.
pub proof fn lemma_range_width()
    ensures
        Date::last().day_number() - Date::first().day_number() < 200_000_000,
{
    lemma_month_offsets(MAX_YEAR as int);
    lemma_month_offsets(MIN_YEAR as int);
}

/// Calls `chrono::NaiveDate::from_ymd_opt` and hands the date back as a
/// `Date`. Trusted: the call gives a date exactly for the days that exist in
/// the proleptic Gregorian calendar with a year from `MIN_YEAR` to
/// `MAX_YEAR`, and that date has the year, month and day asked for.
#[verifier::external_body]
fn naive_from_ymd(year: i32, month: u32, day: u32) -> (r: Option<Date>)
    ensures
        r is Some <==> valid_ymd(year as int, month as int, day as int),
        r is Some ==> r->0 == (Date { year, month, day }),
{
    let d = chrono::NaiveDate::from_ymd_opt(year, month, day)?;
    Some(Date { year: d.year(), month: d.month(), day: d.day() })
}

/// Calls `chrono::NaiveDate::succ_opt` on the date that `d` names. Trusted:
/// the call gives the next calendar day, and nothing for the last date (nor
/// for a `d` that names no date).
#[verifier::external_body]
fn naive_succ(d: Date) -> (r: Option<Date>)
    ensures
        r is Some <==> (d.valid() && d != Date::last()),
        r is Some ==> r->0.valid() && r->0.day_number() == d.day_number() + 1,
{
    let s = chrono::NaiveDate::from_ymd_opt(d.year, d.month, d.day)?.succ_opt()?;
    Some(Date { year: s.year(), month: s.month(), day: s.day() })
}

/// Calls `chrono::NaiveDate::pred_opt` on the date that `d` names. Trusted:
/// the call gives the previous calendar day, and nothing for the first date
/// (nor for a `d` that names no date).
#[verifier::external_body]
fn naive_pred(d: Date) -> (r: Option<Date>)
    ensures
        r is Some <==> (d.valid() && d != Date::first()),
        r is Some ==> r->0.valid() && r->0.day_number() == d.day_number() - 1,
{
    let p = chrono::NaiveDate::from_ymd_opt(d.year, d.month, d.day)?.pred_opt()?;
    Some(Date { year: p.year(), month: p.month(), day: p.day() })
}

/// Calls `chrono::NaiveDate::checked_add_days` on the date that `d` names.
/// Trusted: the call gives the day `days` days later, and nothing where that
/// day would lie after the last date (nor for a `d` that names no date).
#[verifier::external_body]
fn naive_add_days(d: Date, days: u64) -> (r: Option<Date>)
    ensures
        r is Some <==> (d.valid() && d.day_number() + days <= Date::last().day_number()),
        r is Some ==> r->0.valid() && r->0.day_number() == d.day_number() + days,
{
    let n = chrono::NaiveDate::from_ymd_opt(d.year, d.month, d.day)?;
    let s = n.checked_add_days(chrono::Days::new(days))?;
    Some(Date { year: s.year(), month: s.month(), day: s.day() })
}

/// Calls `chrono::NaiveDate::checked_sub_days` on the date that `d` names.
/// Trusted: the call gives the day `days` days earlier, and nothing where
/// that day would lie before the first date (nor for a `d` that names no
/// date).
#[verifier::external_body]
fn naive_sub_days(d: Date, days: u64) -> (r: Option<Date>)
    ensures
        r is Some <==> (d.valid() && Date::first().day_number() <= d.day_number() - days),
        r is Some ==> r->0.valid() && r->0.day_number() == d.day_number() - days,
{
    let n = chrono::NaiveDate::from_ymd_opt(d.year, d.month, d.day)?;
    let s = n.checked_sub_days(chrono::Days::new(days))?;
    Some(Date { year: s.year(), month: s.month(), day: s.day() })
}

} // verus!
