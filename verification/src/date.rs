//! Dates as week boundaries of a timetable query.

use crate::calendar::Ymd;
use crate::datetime;
use crate::datetime::{
    checked_week_begin, checked_week_end, decode_date, encode_date, week_begin, week_end, Date,
    DecodeError,
};
use vstd::prelude::*;

verus! {

/// A date that is sent in its compact integer form.
#[derive(Copy, Clone, Eq, PartialEq, Ord, PartialOrd, Hash, Debug)]
pub struct UntisDate(pub Date);

impl View for UntisDate {
    type V = Ymd;

    open spec fn view(&self) -> Ymd {
        self.0@
    }
}

impl UntisDate {
    /// The Monday of the week of `date`.
    pub fn week_begin_from(date: Date) -> (r: Self)
        requires
            week_begin(date@).representable(),
        ensures
            r@ == week_begin(date@),
    {
        UntisDate(date.relative_week_begin())
    }

    /// The Saturday of the week of `date`.
    pub fn week_end_from(date: Date) -> (r: Self)
        requires
            week_end(date@).representable(),
        ensures
            r@ == week_end(date@),
    {
        UntisDate(date.relative_week_end())
    }

    /// The Monday of the current week, where that day is representable.
    pub fn week_begin() -> (r: Option<Self>)
        ensures
            exists|today: Ymd| #[trigger]
                today.representable() && untis_date_view(r) == checked_week_begin(today),
    {
        let today = Date::today();
        let r = match today.checked_relative_week_begin() {
            Some(_) => Some(Self::week_begin_from(today)),
            None => None,
        };
        assert(today@.representable() && untis_date_view(r) == checked_week_begin(today@));
        r
    }

    /// The Saturday of the current week, where that day is representable.
    pub fn week_end() -> (r: Option<Self>)
        ensures
            exists|today: Ymd| #[trigger]
                today.representable() && untis_date_view(r) == checked_week_end(today),
    {
        let today = Date::today();
        let r = match today.checked_relative_week_end() {
            Some(_) => Some(Self::week_end_from(today)),
            None => None,
        };
        assert(today@.representable() && untis_date_view(r) == checked_week_end(today@));
        r
    }

    /// The date itself.
    pub fn date(&self) -> (r: Date)
        ensures
            r == self.0,
    {
        self.0
    }
}

/// A date, if there is one, as a mathematical value.
pub open spec fn untis_date_view(r: Option<UntisDate>) -> Option<Ymd> {
    match r {
        Some(date) => Some(date@),
        None => None,
    }
}

/// The compact integer form of a date.
pub fn chrono_to_untis_date(date: Date) -> (r: u32)
    requires
        date@.year >= 0,
    ensures
        r == encode_date(date@),
{
    datetime::chrono_to_untis_date(date)
}

/// The date with the given compact integer form.
pub fn chrono_from_untis_date(value: u32) -> (r: Result<Date, DecodeError>)
    ensures
        match r {
            Ok(date) => decode_date(value as int) == Some(date@),
            Err(e) => e == DecodeError::InvalidDate && decode_date(value as int) is None,
        },
{
    datetime::chrono_from_untis_date(value as i128)
}

} // verus!
