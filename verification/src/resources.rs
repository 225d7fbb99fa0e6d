//! The records of the Untis API.

use crate::datetime::{Date, Time};
use std::collections::HashMap;
use vstd::prelude::*;
use vstd::string::*;

verus! {

/// The different types of elements that exist in the Untis API.
#[derive(Clone, Copy, Eq, PartialEq, Ord, PartialOrd, Hash, Debug)]
pub enum ElementType {
    Class,
    Teacher,
    Subject,
    Room,
    Student,
    Other,
}

impl ElementType {
    /// The number that the API sends for this type.
    pub open spec fn number(self) -> int {
        match self {
            ElementType::Class => 1,
            ElementType::Teacher => 2,
            ElementType::Subject => 3,
            ElementType::Room => 4,
            ElementType::Student => 5,
            ElementType::Other => 6,
        }
    }

    /// The type that a number of the API stands for: every number without
    /// a type of its own stands for `Other`.
    pub open spec fn of_number(n: int) -> ElementType {
        if n == 1 {
            ElementType::Class
        } else if n == 2 {
            ElementType::Teacher
        } else if n == 3 {
            ElementType::Subject
        } else if n == 4 {
            ElementType::Room
        } else if n == 5 {
            ElementType::Student
        } else {
            ElementType::Other
        }
    }

    pub fn as_u8(&self) -> (r: u8)
        ensures
            r == self.number(),
    {
        match self {
            ElementType::Class => 1,
            ElementType::Teacher => 2,
            ElementType::Subject => 3,
            ElementType::Room => 4,
            ElementType::Student => 5,
            ElementType::Other => 6,
        }
    }

    /// The type that a number of the API stands for.
    pub fn from_u8(n: u8) -> (r: ElementType)
        ensures
            r == ElementType::of_number(n as int),
    {
        if n == 1 {
            ElementType::Class
        } else if n == 2 {
            ElementType::Teacher
        } else if n == 3 {
            ElementType::Subject
        } else if n == 4 {
            ElementType::Room
        } else if n == 5 {
            ElementType::Student
        } else {
            ElementType::Other
        }
    }

    /// A type is the one that its number stands for.
    pub proof fn lemma_number_round_trip(self)
        ensures
            ElementType::of_number(self.number()) == self,
    {
    }
}

/// What a school search returns.
#[derive(Clone, Eq, PartialEq, Ord, PartialOrd, Hash, Debug, Default)]
pub struct SchoolSearchResult {
    pub size: usize,
    pub schools: Vec<School>,
}

/// A school that uses Untis.
#[derive(Clone, Eq, PartialEq, Ord, PartialOrd, Hash, Debug, Default)]
pub struct School {
    /// The Untis instance that this school uses, e.g. `ajax.webuntis.com`
    pub server: String,
    pub use_mobile_service_url_android: bool,
    /// The school's address.
    pub address: String,
    /// The school's full name.
    pub display_name: String,
    /// A unique, shorter name for this school.
    pub login_name: String,
    /// This school's unique id in Untis.
    pub id: usize,
    pub use_mobile_service_url_ios: bool,
    /// URL of the WebUntis login page for this school.
    pub server_url: String,
    pub mobile_service_url: Option<String>,
}

/// A Untis session.
#[derive(Eq, PartialEq, Ord, PartialOrd, Hash, Debug)]
pub struct Session {
    /// The session's id.
    pub session_id: String,
    /// Id of the user's class.
    pub class_id: usize,
    /// The user's id.
    pub person_id: usize,
    /// The user's element type (Teacher or Student).
    pub person_type: ElementType,
}

impl Clone for Session {
    fn clone(&self) -> (r: Self)
        ensures
            r == *self,
    {
        Session {
            session_id: self.session_id.clone(),
            class_id: self.class_id,
            person_id: self.person_id,
            person_type: self.person_type,
        }
    }
}

/// A set of colors that can be used to display a timetable.
#[derive(Clone, Eq, PartialEq, Debug, Default)]
pub struct StatusData {
    /// Color information for different lesson types.
    pub lstypes: Vec<HashMap<String, StatusDataItem>>,
    /// Color information for lesson statuses.
    pub codes: Vec<HashMap<String, StatusDataItem>>,
}

/// Color information to display a specific lesson.
#[derive(Clone, Eq, PartialEq, Ord, PartialOrd, Hash, Debug, Default)]
pub struct StatusDataItem {
    /// Foreground color, formatted as `RRGGBB`.
    pub fore_color: String,
    /// Background color, formatted as `RRGGBB`.
    pub back_color: String,
}

/// A schoolyear.
#[derive(Clone, Eq, PartialEq, Ord, PartialOrd, Hash, Debug)]
pub struct Schoolyear {
    /// The schoolyears's id, unique within this school.
    pub id: usize,
    /// The schoolyear's name.
    pub name: String,
    /// The schoolyear's start date.
    pub start_date: Date,
    /// The schoolyear's end date.
    pub end_date: Date,
}

/// A school holiday.
#[derive(Clone, Eq, PartialEq, Ord, PartialOrd, Hash, Debug)]
pub struct Holiday {
    /// The holiday's id, unique within this school.
    pub id: usize,
    /// The holiday's shortened name, presumably unique within this school.
    pub name: String,
    /// The holiday's full name.
    pub long_name: String,
    /// The holiday's start date.
    pub start_date: Date,
    /// The holiday's end date.
    pub end_date: Date,
}

/// Represents a room for school lessons.
#[derive(Clone, Eq, PartialEq, Ord, PartialOrd, Hash, Debug)]
pub struct Room {
    /// The room's id, unique within this school.
    pub id: usize,
    /// The room's shortened name, unique within this school.
    pub name: String,
    /// The room's full name.
    pub long_name: String,
    /// Whether the room is generally available or not used in the system.
    pub active: bool,
    /// Foreground color for displaying the room, formatted as `RRGGBB`.
    pub fore_color: Option<String>,
    /// Background color for displaying the room, formatted as `RRGGBB`.
    pub back_color: Option<String>,
    /// The building that this room is located in. May be an empty string.
    pub building: String,
    pub did: Option<usize>,
}

/// Represents a school class.
#[derive(Clone, Eq, PartialEq, Ord, PartialOrd, Hash, Debug)]
pub struct Class {
    /// The class's id, unique within this school.
    pub id: usize,
    /// The class's shortened name, unique within this school.
    pub name: String,
    /// The class's full name.
    pub long_name: String,
    /// Whether the class is generally available or not used in the system.
    pub active: bool,
    /// Foreground color for displaying the class, formatted as `RRGGBB`.
    pub fore_color: Option<String>,
    /// Background color for displaying the class, formatted as `RRGGBB`.
    pub back_color: Option<String>,
    pub did: Option<usize>,
    /// Id of the class's primary teacher. May be -1 if there is none.
    pub teacher1: isize,
    /// Id of the class's secondary teacher. May be -1 if there is none.
    pub teacher2: isize,
}

/// Represents a school subject.
#[derive(Clone, Eq, PartialEq, Ord, PartialOrd, Hash, Debug)]
pub struct Subject {
    /// The subject's id, unique within this school.
    pub id: usize,
    /// The subject's shortened name, unique within this school.
    pub name: String,
    /// The subject's full name.
    pub long_name: String,
    pub alternate_name: String,
    /// Whether the subject is generally available or not used in the system.
    pub active: bool,
    /// Foreground color for displaying the subject, formatted as `RRGGBB`.
    pub fore_color: Option<String>,
    /// Background color for displaying the subject, formatted as `RRGGBB`.
    pub back_color: Option<String>,
}

/// Represents a teacher.
#[derive(Clone, Eq, PartialEq, Ord, PartialOrd, Hash, Debug)]
pub struct Teacher {
    /// The teacher's id, unique within this school.
    pub id: usize,
    /// The teacher's shortened name, unique within this school.
    pub name: String,
    /// The teacher's first name.
    pub first_name: String,
    /// The teacher's last name.
    pub last_name: String,
    /// The teacher's title.
    pub title: String,
    /// Whether the teacher is generally available or not used in the system.
    pub active: bool,
    pub dids: Vec<DidItem>,
}

#[derive(Clone, Eq, PartialEq, Ord, PartialOrd, Hash, Debug)]
pub struct DidItem {
    pub id: usize,
}

/// Represents a student.
#[derive(Clone, Eq, PartialEq, Ord, PartialOrd, Hash, Debug)]
pub struct Student {
    /// The student's id, unique within this school.
    pub id: usize,
    pub key: String,
    /// The student's shortened name, unique within this school.
    pub name: String,
    /// The student's first name.
    pub first_name: String,
    /// The student's last name.
    pub last_name: String,
    /// The student's gender.
    pub gender: String,
}

/// A school lesson.
#[derive(Clone, Eq, PartialEq, Ord, PartialOrd, Hash, Debug)]
pub struct Lesson {
    /// The lesson's id.
    pub id: usize,
    /// The lesson's date.
    pub date: Date,
    /// The lesson's start time.
    pub start_time: Time,
    /// The lesson's end time.
    pub end_time: Time,
    /// The type of lesson.
    pub lesson_type: LessonType,
    /// The lesson's code.
    pub code: LessonCode,
    /// Unique id for this specific schedule.
    pub lsnumber: usize,
    /// Info Text for this specific lesson.
    pub lstext: String,
    /// Possible substitution text.
    pub subst_text: Option<String>,
    /// The classes that are part of this lesson.
    pub classes: Vec<IdItem>,
    /// The subjects that are taught in this lesson.
    pub subjects: Vec<IdItem>,
    /// The rooms that this lesson takes place in.
    pub rooms: Vec<IdItem>,
    pub statflags: String,
    /// The lesson's activity type.
    pub activity_type: String,
}

/// Whether two texts are the same.
fn same_text(a: &str, b: &str) -> (r: bool)
    ensures
        r == (a@ == b@),
{
    String::from_str(a) == String::from_str(b)
}

/// Represents the status of a lesson (regular, cancelled, etc.)
#[derive(Clone, Copy, PartialEq, Eq, PartialOrd, Ord, Default, Hash, Debug)]
pub enum LessonCode {
    #[default]
    Regular,
    Irregular,
    Cancelled,
}

impl LessonCode {
    /// The status that a word of the API stands for: every word without a
    /// status of its own stands for `Regular`.
    pub open spec fn of_word(word: Seq<char>) -> LessonCode {
        if word == "irregular"@ {
            LessonCode::Irregular
        } else if word == "cancelled"@ {
            LessonCode::Cancelled
        } else {
            LessonCode::Regular
        }
    }

    /// The status that a word of the API stands for.
    pub fn from_word(word: &str) -> (r: LessonCode)
        ensures
            r == LessonCode::of_word(word@),
    {
        if same_text(word, "irregular") {
            LessonCode::Irregular
        } else if same_text(word, "cancelled") {
            LessonCode::Cancelled
        } else {
            LessonCode::Regular
        }
    }
}

/// Represents the type of lesson.
#[derive(Clone, Copy, PartialEq, Eq, PartialOrd, Ord, Default, Hash, Debug)]
pub enum LessonType {
    #[default]
    Lesson,
    OfficeHour,
    Standby,
    BreakSupervision,
    Exam,
}

impl LessonType {
    /// The type that a word of the API stands for: every word without a
    /// type of its own stands for `Lesson`.
    pub open spec fn of_word(word: Seq<char>) -> LessonType {
        if word == "oh"@ {
            LessonType::OfficeHour
        } else if word == "sb"@ {
            LessonType::Standby
        } else if word == "bs"@ {
            LessonType::BreakSupervision
        } else if word == "ex"@ {
            LessonType::Exam
        } else {
            LessonType::Lesson
        }
    }

    /// The type that a word of the API stands for.
    pub fn from_word(word: &str) -> (r: LessonType)
        ensures
            r == LessonType::of_word(word@),
    {
        if same_text(word, "oh") {
            LessonType::OfficeHour
        } else if same_text(word, "sb") {
            LessonType::Standby
        } else if same_text(word, "bs") {
            LessonType::BreakSupervision
        } else if same_text(word, "ex") {
            LessonType::Exam
        } else {
            LessonType::Lesson
        }
    }
}

/// Represents an element that is part of a lesson.
#[derive(Clone, Eq, PartialEq, Ord, PartialOrd, Hash, Debug)]
pub struct IdItem {
    /// The element's id.
    pub id: isize,
    /// The element's short name.
    pub name: String,
    /// If this element is a substitute, the id of the element that it stands in for.
    pub orgid: Option<isize>,
}

/// Represents a school department.
#[derive(Clone, Eq, PartialEq, Ord, PartialOrd, Hash, Debug)]
pub struct Department {
    /// The department's id, unique within this school.
    pub id: usize,
    /// The department's short name, unique within this school.
    pub name: String,
    /// The department's full name.
    pub long_name: String,
}

/// The teacher id of a class whose record names none.
pub fn default_id() -> (r: isize)
    ensures
        r == -1,
{
    -1
}

/// The activity type of a lesson whose record names none.
pub fn default_activity_type() -> (r: String)
    ensures
        r@ == "undefined"@,
{
    String::from_str("undefined")
}

} // verus!
