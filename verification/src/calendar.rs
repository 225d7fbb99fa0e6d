//! The proleptic Gregorian calendar as far as the week arithmetic needs it,
//! and the calls into `chrono` that the crate relies on.

use chrono::Datelike;
use vstd::prelude::*;

verus! {

/// The earliest year of a representable date.
pub const MIN_YEAR: i32 = -262143;

/// The latest year of a representable date.
pub const MAX_YEAR: i32 = 262142;

/// A year, a month and a day as mathematical integers.
pub struct Ymd {
    pub year: int,
    pub month: int,
    pub day: int,
}

pub open spec fn is_leap_year(year: int) -> bool {
    year % 4 == 0 && (year % 100 != 0 || year % 400 == 0)
}

pub open spec fn days_in_month(year: int, month: int) -> int {
    if month == 2 {
        if is_leap_year(year) {
            29
        } else {
            28
        }
    } else if month == 4 || month == 6 || month == 9 || month == 11 {
        30
    } else {
        31
    }
}

pub open spec fn ymd(year: int, month: int, day: int) -> Ymd {
    Ymd { year, month, day }
}

impl Ymd {
    /// The month and the day exist in the year.
    pub open spec fn on_calendar(self) -> bool {
        1 <= self.month <= 12 && 1 <= self.day <= days_in_month(self.year, self.month)
    }

    /// A date of the calendar whose year lies in the supported range.
    pub open spec fn representable(self) -> bool {
        self.on_calendar() && MIN_YEAR <= self.year <= MAX_YEAR
    }

    /// The following day.
    pub open spec fn next(self) -> Ymd {
        if self.day < days_in_month(self.year, self.month) {
            ymd(self.year, self.month, self.day + 1)
        } else if self.month < 12 {
            ymd(self.year, self.month + 1, 1)
        } else {
            ymd(self.year + 1, 1, 1)
        }
    }

    /// The preceding day.
    pub open spec fn prev(self) -> Ymd {
        if self.day > 1 {
            ymd(self.year, self.month, self.day - 1)
        } else if self.month > 1 {
            ymd(self.year, self.month - 1, days_in_month(self.year, self.month - 1))
        } else {
            ymd(self.year - 1, 12, 31)
        }
    }

    /// Whether this day comes before `other` in the calendar.
    pub open spec fn before(self, other: Ymd) -> bool {
        ||| self.year < other.year
        ||| self.year == other.year && self.month < other.month
        ||| self.year == other.year && self.month == other.month && self.day < other.day
    }

    /// Whether this day is `other` or comes before it.
    pub open spec fn on_or_before(self, other: Ymd) -> bool {
        self == other || self.before(other)
    }

    /// The day `days` days later, or earlier for a negative count.
    pub open spec fn shifted(self, days: int) -> Ymd
        decreases (if days < 0 { -days } else { days }),
    {
        if days > 0 {
            self.next().shifted(days - 1)
        } else if days < 0 {
            self.prev().shifted(days + 1)
        } else {
            self
        }
    }
}

/// What `chrono` gives as the weekday of a date, counted from Monday = 0.
pub uninterp spec fn days_from_monday(year: int, month: int, day: int) -> int;

/// `chrono::NaiveDate::from_ymd_opt`: whether `chrono` has a date with these
/// fields. It has one for every day of the proleptic Gregorian calendar
/// between the years `MIN_YEAR` and `MAX_YEAR`.
#[verifier::external_body]
pub(crate) fn naive_date_exists(year: i32, month: u32, day: u32) -> (r: bool)
    ensures
        r == ymd(year as int, month as int, day as int).representable(),
{
    chrono::NaiveDate::from_ymd_opt(year, month, day).is_some()
}

/// `chrono::NaiveDate::weekday`, as the number of days since Monday. The
/// contract names the result and bounds it as `Weekday::num_days_from_monday`
/// documents.
#[verifier::external_body]
pub(crate) fn naive_days_from_monday(year: i32, month: u32, day: u32) -> (r: u32)
    requires
        ymd(year as int, month as int, day as int).representable(),
    ensures
        r == days_from_monday(year as int, month as int, day as int),
        r <= 6,
{
    let date = chrono::NaiveDate::from_ymd_opt(year, month, day).unwrap();
    date.weekday().num_days_from_monday()
}

/// `chrono::NaiveDate::checked_add_signed` with a whole number of days. The
/// contract claims that the result is the date reached by going that many
/// days forward in the calendar, day by day (backward for a negative
/// count), and that it is `None` exactly where that date is outside the
/// supported range.
#[verifier::external_body]
pub(crate) fn naive_date_plus_days(year: i32, month: u32, day: u32, days: i32) -> (r: Option<
    (i32, u32, u32),
>)
    requires
        ymd(year as int, month as int, day as int).representable(),
    ensures
        match r {
            Some(t) => {
                &&& ymd(t.0 as int, t.1 as int, t.2 as int) == ymd(
                    year as int,
                    month as int,
                    day as int,
                ).shifted(days as int)
                &&& ymd(t.0 as int, t.1 as int, t.2 as int).representable()
            },
            None => !ymd(year as int, month as int, day as int).shifted(
                days as int,
            ).representable(),
        },
{
    let date = chrono::NaiveDate::from_ymd_opt(year, month, day).unwrap();
    let moved = date.checked_add_signed(chrono::Duration::days(days as i64));
    moved.map(|d| (d.year(), d.month(), d.day()))
}

/// `chrono::Local::now` and `DateTime::date_naive`: the year, the month and
/// the day of the local date of now. The contract claims only that this is
/// a date of the supported range: `chrono` returns no other, and panics
/// where the clock of the system stands outside that range or before 1970.
#[verifier::external_body]
pub(crate) fn local_today() -> (r: (i32, u32, u32))
    ensures
        ymd(r.0 as int, r.1 as int, r.2 as int).representable(),
{
    let date = chrono::Local::now().date_naive();
    (date.year(), date.month(), date.day())
}

/// `chrono::NaiveTime::from_hms_opt` with zero seconds: whether the hour and
/// the minute are those of a time of day.
#[verifier::external_body]
pub(crate) fn naive_time_exists(hour: u32, minute: u32) -> (r: bool)
    ensures
        r == (hour < 24 && minute < 60),
{
    chrono::NaiveTime::from_hms_opt(hour, minute, 0).is_some()
}

/// The day after a day of the calendar is a day of the calendar, comes
/// after it, and has it as the day before.
pub proof fn lemma_next_day(d: Ymd)
    requires
        d.on_calendar(),
    ensures
        d.next().on_calendar(),
        d.before(d.next()),
        d.next().prev() == d,
{
}

/// The day before a day of the calendar is a day of the calendar, comes
/// before it, and has it as the day after.
pub proof fn lemma_previous_day(d: Ymd)
    requires
        d.on_calendar(),
    ensures
        d.prev().on_calendar(),
        d.prev().before(d),
        d.prev().next() == d,
{
}

/// The calendar order is transitive.
pub proof fn lemma_before_is_transitive(a: Ymd, b: Ymd, c: Ymd)
    requires
        a.before(b),
        b.on_or_before(c),
    ensures
        a.before(c),
{
}

/// Moving a day of the calendar gives a day of the calendar: a later one
/// for a positive count of days, an earlier one for a negative count.
pub proof fn lemma_shifted_day(d: Ymd, days: int)
    requires
        d.on_calendar(),
    ensures
        d.shifted(days).on_calendar(),
        days > 0 ==> d.before(d.shifted(days)),
        days < 0 ==> d.shifted(days).before(d),
    decreases (if days < 0 { -days } else { days }),
{
    if days > 0 {
        lemma_next_day(d);
        lemma_shifted_day(d.next(), days - 1);
        if days > 1 {
            lemma_before_is_transitive(d, d.next(), d.shifted(days));
        }
    } else if days < 0 {
        lemma_previous_day(d);
        lemma_shifted_day(d.prev(), days + 1);
        if days < -1 {
            lemma_before_is_transitive(d.shifted(days), d.prev(), d);
        }
    }
}

/// Moving the day after by `days` days is moving the day by one day more.
pub proof fn lemma_shift_from_next_day(d: Ymd, days: int)
    requires
        d.on_calendar(),
    ensures
        d.next().shifted(days) == d.shifted(days + 1),
{
    lemma_next_day(d);
}

/// Moving the day before by `days` days is moving the day by one day less.
pub proof fn lemma_shift_from_previous_day(d: Ymd, days: int)
    requires
        d.on_calendar(),
    ensures
        d.prev().shifted(days) == d.shifted(days - 1),
{
    lemma_previous_day(d);
}

/// Moving a day twice is moving it once by the sum of the two counts.
pub proof fn lemma_shift_adds(d: Ymd, first: int, second: int)
    requires
        d.on_calendar(),
    ensures
        d.shifted(first).shifted(second) == d.shifted(first + second),
    decreases (if first < 0 { -first } else { first }),
{
    if first > 0 {
        lemma_next_day(d);
        lemma_shift_adds(d.next(), first - 1, second);
        lemma_shift_from_next_day(d, first - 1 + second);
    } else if first < 0 {
        lemma_previous_day(d);
        lemma_shift_adds(d.prev(), first + 1, second);
        lemma_shift_from_previous_day(d, first + 1 + second);
    }
}

/// Moving a day there and back gives the day.
pub proof fn lemma_shift_back(d: Ymd, days: int)
    requires
        d.on_calendar(),
    ensures
        d.shifted(days).shifted(-days) == d,
{
    lemma_shift_adds(d, days, -days);
}

} // verus!
