//! The records that `Units` receives.

use crate::date::UntisDate;
use crate::time::UntisTime;
use std::collections::HashMap;
use vstd::prelude::*;
use vstd::string::*;

verus! {

/// A reply that carries a result.
#[derive(Clone, Eq, PartialEq, Debug)]
pub struct RpcResponse<R> {
    pub jsonrpc: String,
    pub id: String,
    pub result: R,
}

/// The session that `authenticate` returns.
#[derive(Eq, PartialEq, Debug)]
pub struct SessionInfo {
    pub session_id: String,
    pub class_id: usize,
    pub person_id: usize,
    pub person_type: usize,
}

impl Clone for SessionInfo {
    fn clone(&self) -> (r: Self)
        ensures
            r == *self,
    {
        SessionInfo {
            session_id: self.session_id.clone(),
            class_id: self.class_id,
            person_id: self.person_id,
            person_type: self.person_type,
        }
    }
}

#[derive(Clone, Eq, PartialEq, Debug)]
pub struct StatusData {
    pub lstypes: Vec<HashMap<String, StatusDataItem>>,
    pub codes: Vec<HashMap<String, StatusDataItem>>,
}

#[derive(Clone, Eq, PartialEq, Debug)]
pub struct StatusDataItem {
    pub fore_color: String,
    pub back_color: String,
}

pub type Holidays = Vec<HolidaysItem>;

#[derive(Clone, Eq, PartialEq, Debug)]
pub struct HolidaysItem {
    pub id: usize,
    pub name: String,
    pub long_name: String,
    pub start_date: UntisDate,
    pub end_date: UntisDate,
}

pub type Rooms = Vec<RoomItem>;

#[derive(Clone, Eq, PartialEq, Debug)]
pub struct RoomItem {
    pub id: usize,
    pub name: String,
    pub long_name: String,
    pub active: bool,
    pub fore_color: Option<String>,
    pub back_color: Option<String>,
    pub building: String,
    pub did: Option<usize>,
}

pub type Classes = Vec<ClassItem>;

#[derive(Clone, Eq, PartialEq, Debug)]
pub struct ClassItem {
    pub id: usize,
    pub name: String,
    pub long_name: String,
    pub active: bool,
    pub fore_color: Option<String>,
    pub back_color: Option<String>,
    pub did: Option<usize>,
    pub teacher1: isize,
    pub teacher2: isize,
}

pub type Subjects = Vec<SubjectItem>;

#[derive(Clone, Eq, PartialEq, Debug)]
pub struct SubjectItem {
    pub id: usize,
    pub name: String,
    pub long_name: String,
    pub alternate_name: String,
    pub active: bool,
    pub fore_color: Option<String>,
    pub back_color: Option<String>,
}

pub type Timetable = Vec<TimetableItem>;

#[derive(Clone, Eq, PartialEq, Debug)]
pub struct TimetableItem {
    pub id: usize,
    pub date: UntisDate,
    pub start_time: UntisTime,
    pub end_time: UntisTime,
    pub code: String,
    pub classes: Vec<IdItem>,
    pub subjects: Vec<IdItem>,
    pub rooms: Vec<IdItem>,
    pub statflags: String,
    pub activity_type: String,
}

#[derive(Clone, Eq, PartialEq, Debug)]
pub struct IdItem {
    pub id: isize,
    pub orgid: Option<isize>,
}

pub type Departments = Vec<DepartmentItem>;

#[derive(Clone, Eq, PartialEq, Debug)]
pub struct DepartmentItem {
    pub id: usize,
    pub name: String,
    pub long_name: String,
}

/// The teacher id of a class whose record names none.
pub fn default_id() -> (r: isize)
    ensures
        r == -1,
{
    -1
}

/// The activity type of a lesson whose record names none.
pub fn default_activity_type() -> (r: String)
    ensures
        r@ == "undefined"@,
{
    String::from_str("undefined")
}

} // verus!
