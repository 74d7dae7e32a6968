use chrono::Datelike;
use vstd::prelude::*;

use crate::calendar::{days_before_month, days_in_month, days_in_year, is_valid_ymd, MAX_CHRONO_YEAR, MIN_CHRONO_YEAR};

verus! {

/// Relies on chrono::NaiveDate::from_ymd_opt: it gives a date exactly when the
/// day exists in the proleptic Gregorian calendar and the year lies in
/// chrono's range.
#[verifier::external_body]
fn chrono_has_date(year: i32, month: u32, day: u32) -> (r: bool)
    ensures
        r == is_valid_ymd(year as int, month as int, day as int),
{
    chrono::NaiveDate::from_ymd_opt(year, month, day).is_some()
}

/// Year `y` lies in chrono's range and has a day whose ordinal is `ordinal`.
pub open spec fn has_ordinal_day(y: int, ordinal: int) -> bool {
    MIN_CHRONO_YEAR <= y <= MAX_CHRONO_YEAR && 1 <= ordinal <= days_in_year(y)
}

/// Relies on chrono's `Datelike::ordinal` for `NaiveDate`: the day of the
/// year, counted from 1 on the first of January.
#[verifier::external_body]
fn chrono_ordinal(year: i32, month: u32, day: u32) -> (r: u32)
    requires
        is_valid_ymd(year as int, month as int, day as int),
    ensures
        r as int == days_before_month(year as int, month as int) + day,
{
    chrono::NaiveDate::from_ymd_opt(year, month, day).unwrap().ordinal()
}

/// Relies on chrono::NaiveDate::from_yo_opt: it gives the day of `year` whose
/// ordinal is `ordinal`, where the year lies in chrono's range and has that day.
#[verifier::external_body]
fn chrono_from_ordinal(year: i32, ordinal: u32) -> (r: Option<(u32, u32)>)
    ensures
        r is Some <==> has_ordinal_day(year as int, ordinal as int),
        r matches Some((m, d)) ==> is_valid_ymd(year as int, m as int, d as int)
            && days_before_month(year as int, m as int) + d == ordinal,
{
    chrono::NaiveDate::from_yo_opt(year, ordinal).map(|d| (d.month(), d.day()))
}

/// A calendar date (year, month, day) without time of day or time zone.
///
/// Dates compare chronologically: by year, then month, then day.
#[derive(Clone, Copy, PartialEq, Eq, Structural, PartialOrd, Ord, Hash, Debug)]
pub struct Date {
    year: i32,
    month: u32,
    day: u32,
}

impl View for Date {
    type V = (int, int, int);

    closed spec fn view(&self) -> (int, int, int) {
        (self.year as int, self.month as int, self.day as int)
    }
}

/// The day of the year of (y, m, d), starting from 1 on the first of January.
pub open spec fn ordinal_of(ymd: (int, int, int)) -> int {
    days_before_month(ymd.0, ymd.1) + ymd.2
}

impl Date {
    #[verifier::type_invariant]
    spec fn inv(self) -> bool {
        is_valid_ymd(self.year as int, self.month as int, self.day as int)
    }

    /// The date (year, month, day), or `None` where that day does not exist.
    pub fn from_ymd_opt(year: i32, month: u32, day: u32) -> (r: Option<Date>)
        ensures
            r is Some <==> is_valid_ymd(year as int, month as int, day as int),
            r matches Some(d) ==> d@ == (year as int, month as int, day as int),
    {
        if chrono_has_date(year, month, day) {
            Some(Date { year, month, day })
        } else {
            None
        }
    }

    /// The year; every date is a day of the calendar within chrono's range.
    pub fn year(&self) -> (r: i32)
        ensures
            r as int == self@.0,
            is_valid_ymd(self@.0, self@.1, self@.2),
    {
        proof { use_type_invariant(self); }
        self.year
    }

    /// The month, from 1 to 12.
    pub fn month(&self) -> (r: u32)
        ensures
            r as int == self@.1,
            1 <= r <= 12,
            is_valid_ymd(self@.0, self@.1, self@.2),
    {
        proof { use_type_invariant(self); }
        self.month
    }

    /// The month, from 0 to 11.
    pub fn month0(&self) -> (r: u32)
        ensures
            r as int == self@.1 - 1,
            r < 12,
            is_valid_ymd(self@.0, self@.1, self@.2),
    {
        proof { use_type_invariant(self); }
        self.month - 1
    }

    /// The day of the month, from 1.
    pub fn day(&self) -> (r: u32)
        ensures
            r as int == self@.2,
            1 <= r <= days_in_month(self@.0, self@.1),
            is_valid_ymd(self@.0, self@.1, self@.2),
    {
        proof { use_type_invariant(self); }
        self.day
    }

    /// The day of the month, from 0.
    pub fn day0(&self) -> (r: u32)
        ensures
            r as int == self@.2 - 1,
            r < days_in_month(self@.0, self@.1),
            is_valid_ymd(self@.0, self@.1, self@.2),
    {
        proof { use_type_invariant(self); }
        self.day - 1
    }

    /// The day of the year, from 1.
    pub fn ordinal(&self) -> (r: u32)
        ensures
            r as int == ordinal_of(self@),
            1 <= r <= days_in_year(self@.0),
    {
        proof {
            use_type_invariant(self);
            crate::calendar::lemma_days_before_month_bounds(self.year as int, self.month as int);
            crate::calendar::lemma_day_within_year(self.year as int, self.month as int);
        }
        chrono_ordinal(self.year, self.month, self.day)
    }

    /// The day of the year, from 0.
    pub fn ordinal0(&self) -> (r: u32)
        ensures
            r as int == ordinal_of(self@) - 1,
            r < days_in_year(self@.0),
    {
        proof { use_type_invariant(self); }
        self.ordinal() - 1
    }

    /// The same month and day in `year`, where that day exists.
    pub fn with_year(&self, year: i32) -> (r: Option<Date>)
        ensures
            r is Some <==> is_valid_ymd(year as int, self@.1, self@.2),
            r matches Some(d) ==> d@ == (year as int, self@.1, self@.2),
    {
        Date::from_ymd_opt(year, self.month, self.day)
    }

    /// The same year and day in `month` (1 to 12), where that day exists.
    pub fn with_month(&self, month: u32) -> (r: Option<Date>)
        ensures
            r is Some <==> 1 <= month <= 12 && self@.2 <= days_in_month(self@.0, month as int),
            r matches Some(d) ==> d@ == (self@.0, month as int, self@.2),
    {
        proof { use_type_invariant(self); }
        Date::from_ymd_opt(self.year, month, self.day)
    }

    /// The same year and day in month `month0 + 1`, where that day exists.
    pub fn with_month0(&self, month0: u32) -> (r: Option<Date>)
        ensures
            r is Some <==> month0 < 12 && self@.2 <= days_in_month(self@.0, month0 + 1),
            r matches Some(d) ==> d@ == (self@.0, month0 + 1, self@.2),
    {
        if month0 >= 12 {
            None
        } else {
            self.with_month(month0 + 1)
        }
    }

    /// The same year and month on day `day`, where that day exists.
    pub fn with_day(&self, day: u32) -> (r: Option<Date>)
        ensures
            r is Some <==> 1 <= day <= days_in_month(self@.0, self@.1),
            r matches Some(d) ==> d@ == (self@.0, self@.1, day as int),
    {
        proof { use_type_invariant(self); }
        Date::from_ymd_opt(self.year, self.month, day)
    }

    /// The same year and month on day `day0 + 1`, where that day exists.
    pub fn with_day0(&self, day0: u32) -> (r: Option<Date>)
        ensures
            r is Some <==> day0 < days_in_month(self@.0, self@.1),
            r matches Some(d) ==> d@ == (self@.0, self@.1, day0 + 1),
    {
        if day0 >= 31 {
            None
        } else {
            self.with_day(day0 + 1)
        }
    }

    /// The day of the same year whose ordinal is `ordinal`, where there is one.
    pub fn with_ordinal(&self, ordinal: u32) -> (r: Option<Date>)
        ensures
            r is Some <==> 1 <= ordinal <= days_in_year(self@.0),
            r matches Some(d) ==> d@.0 == self@.0 && ordinal_of(d@) == ordinal,
    {
        proof { use_type_invariant(self); }
        match chrono_from_ordinal(self.year, ordinal) {
            Some((month, day)) => Some(Date { year: self.year, month, day }),
            None => None,
        }
    }

    /// The day of the same year whose ordinal is `ordinal0 + 1`, where there is one.
    pub fn with_ordinal0(&self, ordinal0: u32) -> (r: Option<Date>)
        ensures
            r is Some <==> 1 <= ordinal0 + 1 <= days_in_year(self@.0),
            r matches Some(d) ==> d@.0 == self@.0 && ordinal_of(d@) == ordinal0 + 1,
    {
        if ordinal0 >= 366 {
            None
        } else {
            self.with_ordinal(ordinal0 + 1)
        }
    }
}

impl Default for Date {
    /// The first of January 1970.
    fn default() -> (r: Date)
        ensures
            r@ == (1970int, 1int, 1int),
    {
        Date { year: 1970, month: 1, day: 1 }
    }
}

} // verus!
