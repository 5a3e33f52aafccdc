//! Calendar dates of birth, checked and rendered with `chrono`.

use vstd::prelude::*;

use crate::text::decimal;

verus! {

/// Earliest year `chrono::NaiveDate` represents.
pub const MIN_YEAR: i32 = -262143;

/// Latest year `chrono::NaiveDate` represents.
pub const MAX_YEAR: i32 = 262142;

/// Gregorian leap years (proleptic; `%` is Euclidean, so negative years follow the same rule).
pub open spec fn is_leap_year(year: int) -> bool {
    year % 4 == 0 && (year % 100 != 0 || year % 400 == 0)
}

/// Number of days of a month (1 to 12) in a given year.
pub open spec fn days_in_month(year: int, month: int) -> int {
    if month == 2 {
        if is_leap_year(year) { 29 } else { 28 }
    } else if month == 4 || month == 6 || month == 9 || month == 11 {
        30
    } else {
        31
    }
}

/// A calendar day that exists, in the years `chrono` covers.
pub open spec fn valid_ymd(year: int, month: int, day: int) -> bool {
    &&& MIN_YEAR <= year <= MAX_YEAR
    &&& 1 <= month <= 12
    &&& 1 <= day <= days_in_month(year, month)
}

/// Decimal rendering of `n` left-padded with zeros to at least `width` digits.
pub open spec fn zero_padded(n: nat, width: nat) -> Seq<char> {
    let digits = decimal(n);
    if digits.len() < width {
        Seq::new((width - digits.len()) as nat, |i: int| '0') + digits
    } else {
        digits
    }
}

/// The year as ISO 8601 writes it: four digits for years 0 to 9999, otherwise an
/// explicit sign followed by at least four digits.
pub open spec fn year_text(year: int) -> Seq<char> {
    if 0 <= year <= 9999 {
        zero_padded(year as nat, 4)
    } else if year < 0 {
        seq!['-'] + zero_padded((-year) as nat, 4)
    } else {
        seq!['+'] + zero_padded(year as nat, 4)
    }
}

/// `YYYY-MM-DD`.
pub open spec fn date_text(year: int, month: int, day: int) -> Seq<char> {
    year_text(year) + seq!['-'] + zero_padded(month as nat, 2) + seq!['-'] + zero_padded(
        day as nat,
        2,
    )
}

/// `chrono::NaiveDate::from_ymd_opt`: whether it yields a date, which it does
/// exactly for existing days in its year range.
#[verifier::external_body]
fn chrono_date_exists(year: i32, month: u32, day: u32) -> (found: bool)
    ensures
        found == valid_ymd(year as int, month as int, day as int),
{
    match chrono::NaiveDate::from_ymd_opt(year, month, day) {
        Some(_) => true,
        None => false,
    }
}

/// `Display` of `chrono::NaiveDate` (its `%Y-%m-%d` form) for an existing day.
#[verifier::external_body]
fn chrono_date_to_string(year: i32, month: u32, day: u32) -> (s: String)
    requires
        valid_ymd(year as int, month as int, day as int),
    ensures
        s@ == date_text(year as int, month as int, day as int),
{
    match chrono::NaiveDate::from_ymd_opt(year, month, day) {
        Some(date) => date.to_string(),
        None => String::new(),
    }
}

/// A day of the calendar, as year, month and day numbers.
pub ghost struct CalendarDate {
    pub year: int,
    pub month: int,
    pub day: int,
}

/// A date of birth: always a day that exists.
#[derive(Clone, Copy, Debug)]
pub struct BirthDate {
    year: i32,
    month: u32,
    day: u32,
}

impl View for BirthDate {
    type V = CalendarDate;

    closed spec fn view(&self) -> CalendarDate {
        CalendarDate { year: self.year as int, month: self.month as int, day: self.day as int }
    }
}

impl BirthDate {
    #[verifier::type_invariant]
    spec fn is_real_day(self) -> bool {
        valid_ymd(self.year as int, self.month as int, self.day as int)
    }

    /// The date with these numbers, when that day exists.
    pub fn new(year: i32, month: u32, day: u32) -> (date: Option<BirthDate>)
        ensures
            date is Some <==> valid_ymd(year as int, month as int, day as int),
            date matches Some(d) ==> d@ == (CalendarDate {
                year: year as int,
                month: month as int,
                day: day as int,
            }),
    {
        if chrono_date_exists(year, month, day) {
            Some(BirthDate { year, month, day })
        } else {
            None
        }
    }

    pub fn year(&self) -> (year: i32)
        ensures
            year as int == self@.year,
    {
        self.year
    }

    pub fn month(&self) -> (month: u32)
        ensures
            month as int == self@.month,
    {
        self.month
    }

    pub fn day(&self) -> (day: u32)
        ensures
            day as int == self@.day,
    {
        self.day
    }

    /// The date as `YYYY-MM-DD`.
    pub fn to_text(&self) -> (s: String)
        ensures
            s@ == date_text(self@.year, self@.month, self@.day),
            valid_ymd(self@.year, self@.month, self@.day),
    {
        proof {
            use_type_invariant(self);
        }
        chrono_date_to_string(self.year, self.month, self.day)
    }
}

} // verus!
