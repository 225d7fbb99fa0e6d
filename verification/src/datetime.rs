//! Dates and times of day, and their compact integer form on the wire.

use crate::calendar::{
    days_from_monday, local_today, naive_date_exists, naive_date_plus_days,
    naive_days_from_monday, naive_time_exists, ymd, Ymd,
};
use crate::calendar::{lemma_shift_adds, lemma_shifted_day};
use vstd::prelude::*;

verus! {

/// Why an integer is not the compact form of a date or of a time.
#[derive(Clone, Copy, PartialEq, Eq, Debug)]
pub enum DecodeError {
    InvalidDate,
    InvalidTime,
}

/// A date of the proleptic Gregorian calendar.
#[derive(Clone, Copy, PartialEq, Eq, PartialOrd, Ord, Hash, Debug)]
pub struct Date {
    year: i32,
    month: u32,
    day: u32,
}

impl View for Date {
    type V = Ymd;

    closed spec fn view(&self) -> Ymd {
        ymd(self.year as int, self.month as int, self.day as int)
    }
}

impl Date {
    #[verifier::type_invariant]
    spec fn is_representable(self) -> bool {
        self@.representable()
    }

    /// The date with these fields, if the calendar has one.
    pub fn from_ymd_opt(year: i32, month: u32, day: u32) -> (r: Option<Date>)
        ensures
            r is Some <==> ymd(year as int, month as int, day as int).representable(),
            r matches Some(d) ==> d@ == ymd(year as int, month as int, day as int),
    {
        if naive_date_exists(year, month, day) {
            Some(Date { year, month, day })
        } else {
            None
        }
    }

    /// Returns the current date.
    pub fn today() -> (r: Date)
        ensures
            r@.representable(),
    {
        let t = local_today();
        Date { year: t.0, month: t.1, day: t.2 }
    }

    /// Returns the last start of the week (monday), where that day is
    /// representable.
    pub fn current_week_begin() -> (r: Option<Date>)
        ensures
            exists|today: Ymd| #[trigger]
                today.representable() && date_view(r) == checked_week_begin(today),
    {
        let today = Self::today();
        let r = today.checked_relative_week_begin();
        assert(today@.representable() && date_view(r) == checked_week_begin(today@));
        r
    }

    /// Returns the next end of the week (saturday), where that day is
    /// representable.
    pub fn current_week_end() -> (r: Option<Date>)
        ensures
            exists|today: Ymd| #[trigger]
                today.representable() && date_view(r) == checked_week_end(today),
    {
        let today = Self::today();
        let r = today.checked_relative_week_end();
        assert(today@.representable() && date_view(r) == checked_week_end(today@));
        r
    }

    pub fn year(&self) -> (r: i32)
        ensures
            r == self@.year,
            self@.representable(),
    {
        proof {
            use_type_invariant(self);
        }
        self.year
    }

    pub fn month(&self) -> (r: u32)
        ensures
            r == self@.month,
            self@.representable(),
    {
        proof {
            use_type_invariant(self);
        }
        self.month
    }

    pub fn day(&self) -> (r: u32)
        ensures
            r == self@.day,
            self@.representable(),
    {
        proof {
            use_type_invariant(self);
        }
        self.day
    }

    /// Whether this date comes before `other` in the calendar.
    pub fn is_before(&self, other: &Date) -> (r: bool)
        ensures
            r == self@.before(other@),
    {
        self.year < other.year || (self.year == other.year && (self.month < other.month || (
            self.month == other.month && self.day < other.day)))
    }

    /// The weekday, counted from Monday = 0 to Sunday = 6.
    pub fn weekday_from_monday(&self) -> (r: u32)
        ensures
            r == days_from_monday(self@.year, self@.month, self@.day),
            r <= 6,
    {
        proof {
            use_type_invariant(self);
        }
        naive_days_from_monday(self.year, self.month, self.day)
    }

    /// The Monday of the week of this date, where that day is representable.
    pub fn checked_relative_week_begin(&self) -> (r: Option<Date>)
        ensures
            date_view(r) == checked_week_begin(self@),
            r matches Some(monday) ==> monday@.on_or_before(self@) && self@.on_or_before(
                monday@.shifted(6),
            ),
    {
        proof {
            use_type_invariant(self);
        }
        let back: u32 = naive_days_from_monday(self.year, self.month, self.day);
        match naive_date_plus_days(self.year, self.month, self.day, -(back as i32)) {
            Some(_) => Some(self.relative_week_begin()),
            None => None,
        }
    }

    /// The Saturday of the week of this date, where that day is representable.
    pub fn checked_relative_week_end(&self) -> (r: Option<Date>)
        ensures
            date_view(r) == checked_week_end(self@),
            r matches Some(saturday) ==> saturday@ == week_begin(self@).shifted(5),
    {
        proof {
            use_type_invariant(self);
        }
        let back: u32 = naive_days_from_monday(self.year, self.month, self.day);
        match naive_date_plus_days(self.year, self.month, self.day, 5 - (back as i32)) {
            Some(_) => Some(self.relative_week_end()),
            None => None,
        }
    }

    /// The last start of a week (Monday) on or before this date: the date
    /// moved back by its weekday.
    pub fn relative_week_begin(&self) -> (r: Date)
        requires
            week_begin(self@).representable(),
        ensures
            r@ == week_begin(self@),
            r@.on_or_before(self@),
            self@.on_or_before(r@.shifted(6)),
    {
        proof {
            use_type_invariant(self);
            lemma_week_holds_its_days(self@);
        }
        let back: u32 = naive_days_from_monday(self.year, self.month, self.day);
        let monday = naive_date_plus_days(self.year, self.month, self.day, -(back as i32)).unwrap();
        Date { year: monday.0, month: monday.1, day: monday.2 }
    }

    /// The end of the six-day week (Saturday) that this date belongs to.
    pub fn relative_week_end(&self) -> (r: Date)
        requires
            week_end(self@).representable(),
        ensures
            r@ == week_end(self@),
            r@ == week_begin(self@).shifted(5),
    {
        proof {
            use_type_invariant(self);
            lemma_week_spans_five_days(self@);
        }
        let back: u32 = naive_days_from_monday(self.year, self.month, self.day);
        let saturday = naive_date_plus_days(
            self.year,
            self.month,
            self.day,
            5 - (back as i32),
        ).unwrap();
        Date { year: saturday.0, month: saturday.1, day: saturday.2 }
    }
}

/// The Monday of the week of `d`: `d` moved back by its weekday.
pub open spec fn week_begin(d: Ymd) -> Ymd {
    d.shifted(-days_from_monday(d.year, d.month, d.day))
}

/// The Saturday of the Monday-anchored week of `d`: five days after its
/// Monday, which for a Sunday is the day before.
pub open spec fn week_end(d: Ymd) -> Ymd {
    d.shifted(5 - days_from_monday(d.year, d.month, d.day))
}

/// The Monday of the week of `d`, where it is representable.
pub open spec fn checked_week_begin(d: Ymd) -> Option<Ymd> {
    if week_begin(d).representable() {
        Some(week_begin(d))
    } else {
        None
    }
}

/// The Saturday of the week of `d`, where it is representable.
pub open spec fn checked_week_end(d: Ymd) -> Option<Ymd> {
    if week_end(d).representable() {
        Some(week_end(d))
    } else {
        None
    }
}

/// A date, if there is one, as a mathematical value.
pub open spec fn date_view(r: Option<Date>) -> Option<Ymd> {
    match r {
        Some(date) => Some(date@),
        None => None,
    }
}

/// The compact form of a date: the digits of the year, then two for the
/// month, then two for the day.
pub open spec fn encode_date(d: Ymd) -> int {
    d.year * 10000 + d.month * 100 + d.day
}

/// The date that an integer is the compact form of. There is one only where
/// the integer has exactly eight decimal digits, and the first four as the
/// year, the next two as the month and the last two as the day are a date.
pub open spec fn decode_date(n: int) -> Option<Ymd> {
    let d = ymd(n / 10000, (n / 100) % 100, n % 100);
    if 10_000_000 <= n <= 99_999_999 && d.representable() {
        Some(d)
    } else {
        None
    }
}

/// The compact integer form of a date.
pub fn chrono_to_untis_date(date: Date) -> (r: u32)
    requires
        date@.year >= 0,
    ensures
        r == encode_date(date@),
{
    proof {
        use_type_invariant(&date);
    }
    (date.year as u32) * 10000 + date.month * 100 + date.day
}

/// The date with the given compact integer form.
pub fn chrono_from_untis_date(value: i128) -> (r: Result<Date, DecodeError>)
    ensures
        match r {
            Ok(date) => decode_date(value as int) == Some(date@),
            Err(e) => e == DecodeError::InvalidDate && decode_date(value as int) is None,
        },
{
    if value < 10_000_000 || value > 99_999_999 {
        return Err(DecodeError::InvalidDate);
    }
    let n: u32 = value as u32;
    let year: i32 = (n / 10000) as i32;
    let month: u32 = (n / 100) % 100;
    let day: u32 = n % 100;
    match Date::from_ymd_opt(year, month, day) {
        Some(date) => Ok(date),
        None => Err(DecodeError::InvalidDate),
    }
}

/// A time of day to the minute.
#[derive(Clone, Copy, PartialEq, Eq, PartialOrd, Ord, Hash, Debug)]
pub struct Time {
    hour: u32,
    minute: u32,
}

/// An hour and a minute as mathematical integers.
pub struct Hm {
    pub hour: int,
    pub minute: int,
}

pub open spec fn hm(hour: int, minute: int) -> Hm {
    Hm { hour, minute }
}

impl Hm {
    /// An hour and a minute of the 24-hour clock.
    pub open spec fn on_clock(self) -> bool {
        0 <= self.hour <= 23 && 0 <= self.minute <= 59
    }

    /// Whether this time comes before `other` in the day.
    pub open spec fn before(self, other: Hm) -> bool {
        self.hour < other.hour || (self.hour == other.hour && self.minute < other.minute)
    }
}

impl View for Time {
    type V = Hm;

    closed spec fn view(&self) -> Hm {
        hm(self.hour as int, self.minute as int)
    }
}

impl Time {
    #[verifier::type_invariant]
    spec fn is_on_clock(self) -> bool {
        self@.on_clock()
    }

    /// The time with this hour and minute, if the clock has one.
    pub fn from_hm_opt(hour: u32, minute: u32) -> (r: Option<Time>)
        ensures
            r is Some <==> hm(hour as int, minute as int).on_clock(),
            r matches Some(t) ==> t@ == hm(hour as int, minute as int),
    {
        if naive_time_exists(hour, minute) {
            Some(Time { hour, minute })
        } else {
            None
        }
    }

    pub fn hour(&self) -> (r: u32)
        ensures
            r == self@.hour,
            self@.on_clock(),
    {
        proof {
            use_type_invariant(self);
        }
        self.hour
    }

    pub fn minute(&self) -> (r: u32)
        ensures
            r == self@.minute,
            self@.on_clock(),
    {
        proof {
            use_type_invariant(self);
        }
        self.minute
    }

    /// Whether this time comes before `other` in the day.
    pub fn is_before(&self, other: &Time) -> (r: bool)
        ensures
            r == self@.before(other@),
    {
        self.hour < other.hour || (self.hour == other.hour && self.minute < other.minute)
    }
}

/// The compact form of a time: the hour without padding, then two digits
/// for the minute.
pub open spec fn encode_time(t: Hm) -> int {
    t.hour * 100 + t.minute
}

/// The time that an integer is the compact form of. There is one only where
/// the integer has three or four decimal digits, and the last two as the
/// minute and what stands before them as the hour are a time of day.
pub open spec fn decode_time(n: int) -> Option<Hm> {
    let t = hm(n / 100, n % 100);
    if 100 <= n <= 9999 && t.on_clock() {
        Some(t)
    } else {
        None
    }
}

/// The compact integer form of a time.
pub fn chrono_to_untis_time(time: Time) -> (r: u16)
    ensures
        r == encode_time(time@),
{
    proof {
        use_type_invariant(&time);
    }
    (time.hour * 100 + time.minute) as u16
}

/// The time with the given compact integer form.
pub fn chrono_from_untis_time(value: i128) -> (r: Result<Time, DecodeError>)
    ensures
        match r {
            Ok(time) => decode_time(value as int) == Some(time@),
            Err(e) => e == DecodeError::InvalidTime && decode_time(value as int) is None,
        },
{
    if value < 100 || value > 9999 {
        return Err(DecodeError::InvalidTime);
    }
    let n: u32 = value as u32;
    match Time::from_hm_opt(n / 100, n % 100) {
        Some(time) => Ok(time),
        None => Err(DecodeError::InvalidTime),
    }
}

/// The Saturday of a week is five days after its Monday.
pub proof fn lemma_week_spans_five_days(d: Ymd)
    requires
        d.on_calendar(),
    ensures
        week_end(d) == week_begin(d).shifted(5),
{
    lemma_shift_adds(d, -days_from_monday(d.year, d.month, d.day), 5);
}

/// A day is as many days after the Monday of its week as its weekday says.
pub proof fn lemma_day_follows_week_begin(d: Ymd)
    requires
        d.on_calendar(),
    ensures
        week_begin(d).shifted(days_from_monday(d.year, d.month, d.day)) == d,
{
    let back = days_from_monday(d.year, d.month, d.day);
    lemma_shift_adds(d, -back, back);
}

/// Where the weekday of a day is one of the seven, the day is one of the
/// seven days from the Monday of its week on.
pub proof fn lemma_week_holds_its_days(d: Ymd)
    requires
        d.on_calendar(),
    ensures
        0 <= days_from_monday(d.year, d.month, d.day) <= 6 ==> week_begin(d).on_or_before(d)
            && d.on_or_before(week_begin(d).shifted(6)),
{
    let back = days_from_monday(d.year, d.month, d.day);
    if 0 <= back <= 6 {
        lemma_shifted_day(d, -back);
        lemma_shift_adds(d, -back, 6);
        lemma_shifted_day(d, 6 - back);
    }
}

/// Decoding undoes encoding: a date with a four-digit year is what its
/// compact form decodes to.
pub proof fn lemma_date_round_trip(d: Ymd)
    requires
        d.representable(),
        1000 <= d.year <= 9999,
    ensures
        decode_date(encode_date(d)) == Some(d),
{
}

/// Encoding undoes decoding: an integer that decodes is the compact form of
/// the date it decodes to.
pub proof fn lemma_date_code_round_trip(n: int)
    requires
        decode_date(n) is Some,
    ensures
        encode_date(decode_date(n)->0) == n,
{
}

/// An integer with fewer or more than eight decimal digits is the compact
/// form of no date.
pub proof fn lemma_date_code_has_eight_digits(n: int)
    requires
        n < 10_000_000 || n > 99_999_999,
    ensures
        decode_date(n) is None,
{
}

/// Decoding undoes encoding for every time from one o'clock on.
pub proof fn lemma_time_round_trip(t: Hm)
    requires
        t.on_clock(),
        t.hour >= 1,
    ensures
        decode_time(encode_time(t)) == Some(t),
{
}

/// In the first hour of the day the compact form has fewer than three
/// digits, and does not decode.
pub proof fn lemma_first_hour_does_not_decode(t: Hm)
    requires
        t.on_clock(),
        t.hour == 0,
    ensures
        decode_time(encode_time(t)) is None,
{
}

/// Encoding undoes decoding: an integer that decodes is the compact form of
/// the time it decodes to.
pub proof fn lemma_time_code_round_trip(n: int)
    requires
        decode_time(n) is Some,
    ensures
        encode_time(decode_time(n)->0) == n,
{
}

} // verus!
