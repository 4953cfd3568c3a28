//! Calendar dates.
//!
//! A [`Date`] is a day of the proleptic Gregorian calendar, held as its day
//! number: January 1 of the year 1 is day 1. The calendar itself is `chrono`'s;
//! the functions in this module that call it state what they rely on.

use crate::error::{Error, ErrorView};
use chrono::{DateTime, Datelike, NaiveDate, TimeDelta, Utc};
use vstd::prelude::*;
use vstd::string::StringExecFns;

verus! {

/// Day number of the earliest date that `chrono` represents, January 1 of the
/// year -262143.
pub const MIN_DAY: i32 = -95_746_129;

/// Day number of the latest date that `chrono` represents, December 31 of the
/// year 262142.
pub const MAX_DAY: i32 = 95_745_399;

/// Whether `n` is the day number of a representable date.
pub open spec fn is_day_number(n: int) -> bool {
    MIN_DAY <= n <= MAX_DAY
}

/// A calendar date.
#[derive(Debug, Clone, Copy, PartialEq, Eq)]
pub struct Date {
    days: i32,
}

impl View for Date {
    type V = int;

    /// The day number.
    closed spec fn view(&self) -> int {
        self.days as int
    }
}

/// How many days after the Monday of its week the day numbered `day` falls:
/// 0 for a Monday, up to 6 for a Sunday.
pub uninterp spec fn days_from_monday(day: int) -> int;

/// The text of the day numbered `day` in the form `YYYY-MM-DD`.
pub uninterp spec fn iso_date_text(day: int) -> Seq<char>;

/// The day number of the UTC calendar date of the instant that `text` denotes
/// as an RFC 3339 date and time, or `None` where `text` is no such thing.
pub uninterp spec fn rfc3339_utc_day(text: Seq<char>) -> Option<int>;

/// `chrono::ParseError`, of which nothing is read here.
#[verifier::external_type_specification]
#[verifier::external_body]
pub struct ExParseError(chrono::ParseError);

/// The day numbered `day` if it can be represented, the overflow error if
/// not.
pub open spec fn checked_day(day: int) -> Result<int, ErrorView> {
    if is_day_number(day) {
        Ok(day)
    } else {
        Err(ErrorView::DateArithmeticOverflow)
    }
}

/// What a result of date arithmetic holds: a day number or an error.
pub open spec fn date_outcome(result: Result<Date, Error>) -> Result<int, ErrorView> {
    match result {
        Ok(date) => Ok(date@),
        Err(error) => Err(error@),
    }
}

/// The day number of the Monday of the week that holds the day numbered
/// `day`.
pub open spec fn monday_of(day: int) -> int {
    day - days_from_monday(day)
}

/// The day that `s` denotes: the UTC date of midnight on `s`, read as an
/// RFC 3339 date and time.
pub open spec fn day_of_text(s: Seq<char>) -> Option<int> {
    rfc3339_utc_day(s + "T00:00:00Z"@)
}

impl Date {
    #[verifier::type_invariant]
    closed spec fn representable(self) -> bool {
        is_day_number(self.days as int)
    }

    /// The date with the given day number, if there is one.
    pub fn from_days(days: i32) -> (date: Option<Date>)
        ensures
            date is Some <==> is_day_number(days as int),
            date matches Some(d) ==> d@ == days,
    {
        if MIN_DAY <= days && days <= MAX_DAY {
            Some(Date { days })
        } else {
            None
        }
    }

    /// The day number.
    pub fn days(&self) -> (days: i32)
        ensures
            days == self@,
            is_day_number(days as int),
    {
        proof {
            use_type_invariant(self);
        }
        self.days
    }

    /// The date `days` days after this one, or before it where `days` is
    /// negative. Fails where there is no such date.
    pub fn checked_add_days(&self, days: i64) -> (date: Result<Date, Error>)
        ensures
            date_outcome(date) == checked_day(self@ + days),
    {
        match self.plus_days(days) {
            Some(date) => Ok(date),
            None => Err(Error::DateArithmeticOverflow),
        }
    }

    /// The Monday of the week that holds this date: the date itself if it is
    /// a Monday, else the last Monday before it. Fails where that Monday is
    /// before the first date that can be represented.
    pub fn monday_of_week(&self) -> (monday: Result<Date, Error>)
        ensures
            date_outcome(monday) == checked_day(monday_of(self@)),
            self@ - 6 <= monday_of(self@) <= self@,
    {
        let offset = self.weekday_index();
        self.checked_add_days(-(offset as i64))
    }

    /// Calls `NaiveDate::checked_add_signed` with a `TimeDelta` of `days`
    /// days. Relies on `chrono` adding whole days by day number and answering
    /// `None` exactly when the sum is no representable date.
    #[verifier::external_body]
    pub(crate) fn plus_days(&self, days: i64) -> (sum: Option<Date>)
        ensures
            sum is Some <==> is_day_number(self@ + days),
            sum matches Some(d) ==> d@ == self@ + days,
    {
        let start = NaiveDate::from_num_days_from_ce_opt(self.days)?;
        let delta = TimeDelta::try_days(days)?;
        match start.checked_add_signed(delta) {
            Some(date) => Some(Date { days: date.num_days_from_ce() }),
            None => None,
        }
    }

    /// Calls `NaiveDate::signed_duration_since` and `TimeDelta::num_days`.
    /// Relies on `chrono` giving the difference of the two day numbers.
    #[verifier::external_body]
    pub(crate) fn days_since(&self, earlier: &Date) -> (days: i64)
        ensures
            days == self@ - earlier@,
    {
        let this = NaiveDate::from_num_days_from_ce_opt(self.days).unwrap_or_default();
        let that = NaiveDate::from_num_days_from_ce_opt(earlier.days).unwrap_or_default();
        this.signed_duration_since(that).num_days()
    }

    /// Calls `Datelike::weekday` and `Weekday::num_days_from_monday`. Relies on
    /// `chrono` numbering the days of the week from Monday, 0, to Sunday, 6.
    #[verifier::external_body]
    pub(crate) fn weekday_index(&self) -> (index: u8)
        ensures
            index == days_from_monday(self@),
            index <= 6,
    {
        let date = NaiveDate::from_num_days_from_ce_opt(self.days).unwrap_or_default();
        date.weekday().num_days_from_monday() as u8
    }

    /// The date as `YYYY-MM-DD`.
    pub fn to_string(&self) -> (text: String)
        ensures
            text@ == iso_date_text(self@),
    {
        self.to_date_string()
    }

    /// Calls `NaiveDate::format` with the pattern `%Y-%m-%d`. The text is
    /// `chrono`'s and is known here only by its name, [`iso_date_text`].
    #[verifier::external_body]
    pub(crate) fn to_date_string(&self) -> (text: String)
        ensures
            text@ == iso_date_text(self@),
    {
        let date = NaiveDate::from_num_days_from_ce_opt(self.days).unwrap_or_default();
        date.format("%Y-%m-%d").to_string()
    }

    /// Calls `DateTime::<Utc>::from_str` and `DateTime::date_naive`. What
    /// `chrono` accepts, and which date it reads, is known here only by its
    /// name, [`rfc3339_utc_day`].
    #[verifier::external_body]
    pub(crate) fn parse_utc(text: &str) -> (parsed: Result<Date, chrono::ParseError>)
        ensures
            parsed matches Ok(date) ==> rfc3339_utc_day(text@) == Some(date@),
            parsed is Err ==> rfc3339_utc_day(text@) is None,
    {
        match text.parse::<DateTime<Utc>>() {
            Ok(instant) => Ok(Date { days: instant.date_naive().num_days_from_ce() }),
            Err(error) => Err(error),
        }
    }

    /// Calls `Utc::now` and `DateTime::date_naive`: the current date in UTC.
    /// Nothing is known of it but that it is a date. `chrono` takes the time
    /// from the system clock and panics where that is set before 1970.
    #[verifier::external_body]
    pub(crate) fn today() -> (date: Date)
        ensures
            is_day_number(date@),
    {
        Date { days: Utc::now().date_naive().num_days_from_ce() }
    }
}

/// Reads a date written as `YYYY-MM-DD`. The text is read as midnight UTC on
/// that day, by the rules of RFC 3339; text that is no date that way is
/// refused, and the error carries it.
pub fn from_date_string(s: &str) -> (date: Result<Date, Error>)
    ensures
        day_of_text(s@) matches Some(day) ==> date_outcome(date) == Ok::<int, ErrorView>(day),
        day_of_text(s@) is None ==> date_outcome(date) == Err::<int, ErrorView>(
            ErrorView::InvalidDate { input: s@ },
        ),
{
    let mut text = String::from_str(s);
    text.append("T00:00:00Z");
    match Date::parse_utc(text.as_str()) {
        Ok(date) => Ok(date),
        Err(_) => Err(Error::InvalidDate { input: String::from_str(s) }),
    }
}

} // verus!
