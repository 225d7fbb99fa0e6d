//! The parameters of the calls of `Units`.

use crate::calendar::Ymd;
use crate::date::UntisDate;
use crate::datetime::{week_begin, week_end, Date};
use crate::params::Credentials;
use vstd::prelude::*;
use vstd::string::*;

verus! {

/// The parameters of `authenticate`.
#[derive(Clone, Eq, PartialEq, Debug)]
pub struct ParamsAuthenticate {
    pub client: String,
    pub user: String,
    pub password: String,
}

impl View for ParamsAuthenticate {
    type V = Credentials;

    open spec fn view(&self) -> Credentials {
        Credentials { client: self.client@, user: self.user@, password: self.password@ }
    }
}

impl ParamsAuthenticate {
    pub fn new(client: &str, user: &str, password: &str) -> (r: Self)
        ensures
            r@ == (Credentials { client: client@, user: user@, password: password@ }),
    {
        Self {
            client: String::from_str(client),
            user: String::from_str(user),
            password: String::from_str(password),
        }
    }
}

/// The parameters of `getTimetable` for one week.
#[derive(Clone, Eq, PartialEq, Debug)]
pub struct ParamsTimetable {
    pub id: usize,
    pub ty: usize,
    pub start_date: UntisDate,
    pub end_date: UntisDate,
}

/// A week of the timetable of an element, as a mathematical value.
pub struct WeekQuery {
    pub id: usize,
    pub ty: usize,
    pub start_date: Ymd,
    pub end_date: Ymd,
}

impl View for ParamsTimetable {
    type V = WeekQuery;

    open spec fn view(&self) -> WeekQuery {
        WeekQuery {
            id: self.id,
            ty: self.ty,
            start_date: self.start_date@,
            end_date: self.end_date@,
        }
    }
}

/// The query for the week of `date`: from its Monday to its Saturday.
pub open spec fn week_query(id: usize, ty: usize, date: Ymd) -> WeekQuery {
    WeekQuery { id, ty, start_date: week_begin(date), end_date: week_end(date) }
}

impl ParamsTimetable {
    /// The parameters for the week of `date`, or `None` where that week has
    /// no representable Monday or Saturday.
    pub fn new(id: usize, ty: usize, date: Date) -> (r: Option<Self>)
        ensures
            r is Some <==> week_begin(date@).representable() && week_end(date@).representable(),
            r matches Some(params) ==> params@ == week_query(id, ty, date@),
    {
        if date.checked_relative_week_begin().is_none() || date.checked_relative_week_end().is_none() {
            return None;
        }
        Some(
            Self {
                id,
                ty,
                start_date: UntisDate::week_begin_from(date),
                end_date: UntisDate::week_end_from(date),
            },
        )
    }
}

} // verus!
