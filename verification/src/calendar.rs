//! Calendar dates of the proleptic Gregorian calendar and their ISO 8601 weeks.

use chrono::{Datelike, NaiveDate, TimeDelta};
use vstd::prelude::*;

use crate::text::{
    decimal_text, is_digit, lemma_decimal_text_injective, lemma_natural_text_digits,
    lemma_two_digit_text, natural_text, two_digit_text,
};

verus! {

/// The earliest year a date can lie in.
pub const MIN_YEAR: i32 = -262143;

/// The latest year a date can lie in.
pub const MAX_YEAR: i32 = 262142;

/// Leap years: every fourth year, but of the centuries only every fourth.
pub open spec fn is_leap_year(year: int) -> bool {
    year % 4 == 0 && (year % 100 != 0 || year % 400 == 0)
}

/// The number of days of a month.
pub open spec fn days_in_month(year: int, month: int) -> int {
    if month == 2 {
        if is_leap_year(year) {
            29
        } else {
            28
        }
    } else if month == 4 || month == 6 || month == 9 || month == 11 {
        30
    } else {
        31
    }
}

/// Year, month and day name a day of the calendar, in a year that dates can lie in.
pub open spec fn is_calendar_date(year: int, month: int, day: int) -> bool {
    &&& MIN_YEAR <= year <= MAX_YEAR
    &&& 1 <= month <= 12
    &&& 1 <= day <= days_in_month(year, month)
}

/// The days of all years before `year`, counted from 1 January of the year 1.
pub open spec fn days_before_year(year: int) -> int {
    365 * (year - 1) + (year - 1) / 4 - (year - 1) / 100 + (year - 1) / 400
}

/// The days of the months of `year` before `month`.
pub open spec fn days_before_month(year: int, month: int) -> int
    decreases month,
{
    if month <= 1 {
        0
    } else {
        days_before_month(year, month - 1) + days_in_month(year, month - 1)
    }
}

/// The number of a day, with 1 January of the year 1 as day 1.
pub open spec fn day_number(year: int, month: int, day: int) -> int {
    days_before_year(year) + days_before_month(year, month) + day
}

/// The number of the first day that a date can be.
pub open spec fn min_day_number() -> int {
    day_number(MIN_YEAR as int, 1, 1)
}

/// How many days after a Monday the day `n` falls, from 0 for a Monday to 6 for a
/// Sunday. Day 1 is a Monday.
pub open spec fn weekday_from_monday(n: int) -> int {
    (n - 1) % 7
}

/// The Monday that begins the week of day `n`.
pub open spec fn week_start(n: int) -> int {
    n - weekday_from_monday(n)
}

/// Day `n` is one of the days of `year`.
pub open spec fn year_holds_day(year: int, n: int) -> bool {
    days_before_year(year) < n <= days_before_year(year + 1)
}

/// The calendar year that day `n` lies in.
pub open spec fn year_of_day(n: int) -> int {
    choose|year: int| year_holds_day(year, n)
}

/// The year of the ISO 8601 week of day `n`: the calendar year of the week's Thursday.
pub open spec fn iso_week_year(n: int) -> int {
    year_of_day(week_start(n) + 3)
}

/// The number of the ISO 8601 week of day `n` within its year: one more than the
/// whole weeks between the year's first day and the week's Thursday.
pub open spec fn iso_week_number(n: int) -> int {
    (week_start(n) + 3 - days_before_year(iso_week_year(n)) - 1) / 7 + 1
}

/// The key of the week of day `n`: the week's year, a hyphen, and the week's number in
/// two digits.
pub open spec fn week_key_text(n: int) -> Seq<char> {
    decimal_text(iso_week_year(n)) + seq!['-'] + two_digit_text(iso_week_number(n) as nat)
}

/// An ISO 8601 week: its year, and its number within that year.
#[derive(Debug, Clone, Copy, PartialEq, Eq, Structural)]
pub struct IsoWeek {
    pub year: i32,
    pub week: u32,
}

/// A calendar date.
#[derive(Debug, Clone, Copy, PartialEq, Eq, Structural, Hash)]
pub struct Date {
    year: i32,
    month: u32,
    day: u32,
}

/// `chrono::NaiveDate::iso_week` on the date of `year`, `month` and `day`, with the
/// year and the number that `chrono::IsoWeek::year` and `chrono::IsoWeek::week` give
/// for it. Claimed: they are the year and the number of the date's ISO 8601 week,
/// which begins on a Monday and belongs to the year that holds its Thursday.
#[verifier::external_body]
fn chrono_iso_week(year: i32, month: u32, day: u32) -> (r: (i32, u32))
    requires
        is_calendar_date(year as int, month as int, day as int),
    ensures
        r.0 == iso_week_year(day_number(year as int, month as int, day as int)),
        r.1 == iso_week_number(day_number(year as int, month as int, day as int)),
{
    let week = NaiveDate::from_ymd_opt(year, month, day).unwrap().iso_week();
    (week.year(), week.week())
}

/// `chrono::Weekday::num_days_from_monday` on what `chrono::NaiveDate::weekday` gives
/// for the date of `year`, `month` and `day`. Claimed: the days since the last
/// Monday, which is what is left of the day's number less one, divided by seven.
#[verifier::external_body]
fn chrono_days_from_monday(year: i32, month: u32, day: u32) -> (r: u32)
    requires
        is_calendar_date(year as int, month as int, day as int),
    ensures
        r == weekday_from_monday(day_number(year as int, month as int, day as int)),
{
    NaiveDate::from_ymd_opt(year, month, day).unwrap().weekday().num_days_from_monday()
}

/// `chrono::NaiveDate`'s subtraction of a `chrono::TimeDelta` of `days` whole days
/// from the date of `year`, `month` and `day`. Claimed: the result is the calendar
/// date whose number is smaller by `days`. The subtraction panics where that date
/// would lie before the first one, so such inputs are left out.
#[verifier::external_body]
fn chrono_minus_days(year: i32, month: u32, day: u32, days: u32) -> (r: (i32, u32, u32))
    requires
        is_calendar_date(year as int, month as int, day as int),
        day_number(year as int, month as int, day as int) - days >= min_day_number(),
    ensures
        is_calendar_date(r.0 as int, r.1 as int, r.2 as int),
        day_number(r.0 as int, r.1 as int, r.2 as int) == day_number(
            year as int,
            month as int,
            day as int,
        ) - days,
{
    let date = NaiveDate::from_ymd_opt(year, month, day).unwrap() - TimeDelta::days(days as i64);
    (date.year(), date.month(), date.day())
}

impl Date {
    /// The year of the date.
    pub closed spec fn spec_year(self) -> int {
        self.year as int
    }

    /// The month of the date, from 1.
    pub closed spec fn spec_month(self) -> int {
        self.month as int
    }

    /// The day of the month, from 1.
    pub closed spec fn spec_day(self) -> int {
        self.day as int
    }

    /// Every date is a day of the calendar.
    #[verifier::type_invariant]
    pub open spec fn is_valid(self) -> bool {
        is_calendar_date(self.spec_year(), self.spec_month(), self.spec_day())
    }

    /// The number of the day, with 1 January of the year 1 as day 1.
    pub open spec fn day_number(self) -> int {
        day_number(self.spec_year(), self.spec_month(), self.spec_day())
    }

    /// The date of a year, a month and a day of the month, where there is one.
    pub fn from_ymd_opt(year: i32, month: u32, day: u32) -> (r: Option<Date>)
        ensures
            r is Some <==> is_calendar_date(year as int, month as int, day as int),
            r matches Some(d) ==> d.spec_year() == year && d.spec_month() == month && d.spec_day()
                == day,
    {
        if year < MIN_YEAR || year > MAX_YEAR || month < 1 || month > 12 || day < 1 {
            return None;
        }
        let leap: bool = year % 4 == 0 && (year % 100 != 0 || year % 400 == 0);
        let last: u32 = if month == 2 {
            if leap {
                29
            } else {
                28
            }
        } else if month == 4 || month == 6 || month == 9 || month == 11 {
            30
        } else {
            31
        };
        if day > last {
            return None;
        }
        Some(Date { year, month, day })
    }

    /// The year of the date.
    pub fn year(&self) -> (r: i32)
        ensures
            r == self.spec_year(),
    {
        self.year
    }

    /// The month of the date, from 1.
    pub fn month(&self) -> (r: u32)
        ensures
            r == self.spec_month(),
    {
        self.month
    }

    /// The day of the month, from 1.
    pub fn day(&self) -> (r: u32)
        ensures
            r == self.spec_day(),
    {
        self.day
    }

    /// The ISO 8601 week that the date lies in.
    pub fn iso_week(&self) -> (r: IsoWeek)
        ensures
            r.year == iso_week_year(self.day_number()),
            r.week == iso_week_number(self.day_number()),
            1 <= r.week <= 53,
    {
        proof {
            use_type_invariant(self);
            lemma_iso_week_number_range(self.day_number());
        }
        let (year, week) = chrono_iso_week(self.year, self.month, self.day);
        IsoWeek { year, week }
    }

    /// How many days after a Monday the date falls: 0 for a Monday, 6 for a Sunday.
    pub fn days_from_monday(&self) -> (r: u32)
        ensures
            r == weekday_from_monday(self.day_number()),
            r <= 6,
    {
        proof {
            use_type_invariant(self);
        }
        chrono_days_from_monday(self.year, self.month, self.day)
    }

    /// The date `days` days before this one.
    pub fn minus_days(&self, days: u32) -> (r: Date)
        requires
            self.day_number() - days >= min_day_number(),
        ensures
            r.day_number() == self.day_number() - days,
    {
        proof {
            use_type_invariant(self);
        }
        let (year, month, day) = chrono_minus_days(self.year, self.month, self.day, days);
        Date { year, month, day }
    }

    /// Two dates with the same day number are the same date.
    pub proof fn lemma_day_number_injective(a: Date, b: Date)
        requires
            a.is_valid(),
            b.is_valid(),
            a.day_number() == b.day_number(),
        ensures
            a == b,
    {
        lemma_ordinal(a.spec_year(), a.spec_month(), a.spec_day());
        lemma_ordinal(b.spec_year(), b.spec_month(), b.spec_day());
        lemma_year_length(a.spec_year());
        lemma_year_length(b.spec_year());
        if a.spec_year() < b.spec_year() {
            lemma_days_before_year_increasing(a.spec_year() + 1, b.spec_year());
        } else if b.spec_year() < a.spec_year() {
            lemma_days_before_year_increasing(b.spec_year() + 1, a.spec_year());
        } else {
            lemma_ordinal_injective(
                a.spec_year(),
                a.spec_month(),
                a.spec_day(),
                b.spec_month(),
                b.spec_day(),
            );
        }
    }
}

/// A year has 366 days if it is a leap year, and 365 if not.
pub proof fn lemma_year_length(year: int)
    ensures
        days_before_year(year + 1) - days_before_year(year) == if is_leap_year(year) {
            366int
        } else {
            365int
        },
{
}

/// Later years begin later.
pub proof fn lemma_days_before_year_increasing(a: int, b: int)
    requires
        a <= b,
    ensures
        days_before_year(a) + 365 * (b - a) <= days_before_year(b),
    decreases b - a,
{
    if a < b {
        lemma_days_before_year_increasing(a, b - 1);
        lemma_year_length(b - 1);
    }
}

proof fn lemma_days_before_month(year: int)
    ensures
        days_before_month(year, 1) == 0,
        days_before_month(year, 2) == 31,
        days_before_month(year, 3) == 59 + if is_leap_year(year) { 1int } else { 0int },
        days_before_month(year, 4) == 90 + if is_leap_year(year) { 1int } else { 0int },
        days_before_month(year, 5) == 120 + if is_leap_year(year) { 1int } else { 0int },
        days_before_month(year, 6) == 151 + if is_leap_year(year) { 1int } else { 0int },
        days_before_month(year, 7) == 181 + if is_leap_year(year) { 1int } else { 0int },
        days_before_month(year, 8) == 212 + if is_leap_year(year) { 1int } else { 0int },
        days_before_month(year, 9) == 243 + if is_leap_year(year) { 1int } else { 0int },
        days_before_month(year, 10) == 273 + if is_leap_year(year) { 1int } else { 0int },
        days_before_month(year, 11) == 304 + if is_leap_year(year) { 1int } else { 0int },
        days_before_month(year, 12) == 334 + if is_leap_year(year) { 1int } else { 0int },
{
    reveal_with_fuel(days_before_month, 13);
}

/// The days of a date within its year run from 1 to the length of the year.
proof fn lemma_ordinal(year: int, month: int, day: int)
    requires
        1 <= month <= 12,
        1 <= day <= days_in_month(year, month),
    ensures
        1 <= days_before_month(year, month) + day <= if is_leap_year(year) {
            366int
        } else {
            365int
        },
{
    lemma_days_before_month(year);
}

proof fn lemma_ordinal_injective(year: int, m1: int, d1: int, m2: int, d2: int)
    requires
        1 <= m1 <= 12,
        1 <= d1 <= days_in_month(year, m1),
        1 <= m2 <= 12,
        1 <= d2 <= days_in_month(year, m2),
        days_before_month(year, m1) + d1 == days_before_month(year, m2) + d2,
    ensures
        m1 == m2,
        d1 == d2,
{
    lemma_days_before_month(year);
}

/// Some year holds day `n`.
proof fn lemma_year_of_day_exists(n: int) -> (year: int)
    ensures
        year_holds_day(year, n),
    decreases
        if n >= 1 {
            n - 1
        } else {
            1 - n
        },
{
    if n == 1 {
        1
    } else if n > 1 {
        let y = lemma_year_of_day_exists(n - 1);
        lemma_year_length(y + 1);
        if n <= days_before_year(y + 1) {
            y
        } else {
            y + 1
        }
    } else {
        let y = lemma_year_of_day_exists(n + 1);
        lemma_year_length(y - 1);
        if days_before_year(y) < n {
            y
        } else {
            y - 1
        }
    }
}

/// The year of a day is the one year that holds it.
pub proof fn lemma_year_of_day(n: int, year: int)
    ensures
        year_holds_day(year_of_day(n), n),
        year_holds_day(year, n) ==> year_of_day(n) == year,
{
    let witness = lemma_year_of_day_exists(n);
    let y = year_of_day(n);
    if year_holds_day(year, n) {
        if y < year {
            lemma_days_before_year_increasing(y + 1, year);
        } else if year < y {
            lemma_days_before_year_increasing(year + 1, y);
        }
    }
}

/// A week's Thursday lies within the week's year, so the week's number runs from 1 to 53.
pub proof fn lemma_iso_week_number_range(n: int)
    ensures
        1 <= iso_week_number(n) <= 53,
{
    let thursday = week_start(n) + 3;
    lemma_year_of_day(thursday, 0);
    lemma_year_length(year_of_day(thursday));
}

/// The Monday that begins a week is a Monday, is not later than the day it was
/// computed from and less than seven days earlier, and is its own week's Monday.
pub proof fn lemma_week_start(n: int)
    ensures
        weekday_from_monday(week_start(n)) == 0,
        week_start(n) <= n < week_start(n) + 7,
        week_start(week_start(n)) == week_start(n),
{
}

/// The first date is a Thursday, so from the fifth date on, and not before, the
/// Monday that begins a date's week is a date too.
pub proof fn lemma_first_monday(n: int)
    ensures
        weekday_from_monday(min_day_number()) == 3,
        week_start(n) >= min_day_number() <==> n >= min_day_number() + 4,
{
    reveal_with_fuel(days_before_month, 2);
    assert(min_day_number() == -95746129);
}

/// Two Thursdays in the same year and in the same count of weeks from its first day
/// are the same day.
proof fn lemma_same_week_same_thursday(ta: int, tb: int, first: int)
    requires
        (ta - 4) % 7 == 0,
        (tb - 4) % 7 == 0,
        (ta - first) / 7 == (tb - first) / 7,
    ensures
        ta == tb,
{
}

/// A week key gives back the year and the number that it was written from.
proof fn lemma_week_key_parts(a: int, b: int)
    requires
        week_key_text(a) == week_key_text(b),
    ensures
        iso_week_year(a) == iso_week_year(b),
        iso_week_number(a) == iso_week_number(b),
{
    lemma_iso_week_number_range(a);
    lemma_iso_week_number_range(b);
    let ya = decimal_text(iso_week_year(a));
    let yb = decimal_text(iso_week_year(b));
    let wa = two_digit_text(iso_week_number(a) as nat);
    let wb = two_digit_text(iso_week_number(b) as nat);
    lemma_two_digit_text(iso_week_number(a) as nat, iso_week_number(b) as nat);
    lemma_two_digit_text(iso_week_number(b) as nat, iso_week_number(a) as nat);
    let key = week_key_text(a);
    assert(key == ya + seq!['-'] + wa);
    assert(key == yb + seq!['-'] + wb);
    assert(key.len() == ya.len() + 3);
    assert(key.len() == yb.len() + 3);
    assert(key.subrange(0, ya.len() as int) =~= ya);
    assert(key.subrange(0, yb.len() as int) =~= yb);
    assert(key.subrange(ya.len() as int + 1, key.len() as int) =~= wa);
    assert(key.subrange(yb.len() as int + 1, key.len() as int) =~= wb);
    lemma_decimal_text_injective(iso_week_year(a), iso_week_year(b));
}

/// Two days have the same week key exactly if they lie in the same week, Monday to
/// Sunday.
pub proof fn lemma_week_key_identifies_week(a: int, b: int)
    ensures
        week_key_text(a) == week_key_text(b) <==> week_start(a) == week_start(b),
{
    if week_key_text(a) == week_key_text(b) {
        lemma_week_key_parts(a, b);
        lemma_same_week_same_thursday(
            week_start(a) + 3,
            week_start(b) + 3,
            days_before_year(iso_week_year(a)) + 1,
        );
    }
}

/// Seven days later the week key is another.
pub proof fn lemma_week_key_changes_after_seven_days(n: int)
    ensures
        week_key_text(n) != week_key_text(n + 7),
{
    lemma_week_key_identifies_week(n, n + 7);
}

/// A week key ends in a hyphen and two digits. Where the week's year has four
/// digits the key has seven characters: four digits, the hyphen, two digits.
pub proof fn lemma_week_key_shape(n: int)
    ensures
        week_key_text(n).len() >= 4,
        week_key_text(n)[week_key_text(n).len() - 3] == '-',
        is_digit(week_key_text(n)[week_key_text(n).len() - 2]),
        is_digit(week_key_text(n)[week_key_text(n).len() - 1]),
        1000 <= iso_week_year(n) <= 9999 ==> week_key_text(n).len() == 7 && forall|i: int|
            0 <= i < 4 ==> is_digit(#[trigger] week_key_text(n)[i]),
{
    let year = iso_week_year(n);
    lemma_iso_week_number_range(n);
    lemma_two_digit_text(iso_week_number(n) as nat, 0);
    lemma_natural_text_digits(if year < 0 { (-year) as nat } else { year as nat });
    if 1000 <= year <= 9999 {
        reveal_with_fuel(natural_text, 4);
        assert(natural_text(year as nat).len() == 4);
    }
}

} // verus!
