//! The parameters of the calls.

use crate::calendar::Ymd;
use crate::datetime::Date;
use crate::resources::ElementType;
use vstd::prelude::*;
use vstd::string::*;

verus! {

/// How a school is looked for: by a search text, by its id, or by its
/// login name.
#[derive(Clone, Eq, PartialEq, Debug)]
pub enum FindSchoolParams {
    Search { search: String },
    ById { schoolid: usize },
    ByName { schoolname: String },
}

/// A school query as a mathematical value.
pub enum SchoolQuery {
    Search(Seq<char>),
    ById(usize),
    ByName(Seq<char>),
}

impl View for FindSchoolParams {
    type V = SchoolQuery;

    open spec fn view(&self) -> SchoolQuery {
        match *self {
            FindSchoolParams::Search { search } => SchoolQuery::Search(search@),
            FindSchoolParams::ById { schoolid } => SchoolQuery::ById(schoolid),
            FindSchoolParams::ByName { schoolname } => SchoolQuery::ByName(schoolname@),
        }
    }
}

/// The parameters of `authenticate`.
#[derive(Clone, Eq, PartialEq, Debug)]
pub struct AuthenticateParams {
    pub client: String,
    pub user: String,
    pub password: String,
}

/// Who logs in, as a mathematical value.
pub struct Credentials {
    pub client: Seq<char>,
    pub user: Seq<char>,
    pub password: Seq<char>,
}

impl View for AuthenticateParams {
    type V = Credentials;

    open spec fn view(&self) -> Credentials {
        Credentials { client: self.client@, user: self.user@, password: self.password@ }
    }
}

/// The parameters of `getTimetable`.
#[derive(Clone, Eq, PartialEq, Debug)]
pub struct TimetableParams {
    pub options: TimetableParamsOpts,
}

#[derive(Clone, Eq, PartialEq, Debug)]
pub struct TimetableParamsOpts {
    pub element: TimetableParamsElem,
    pub start_date: Date,
    pub end_date: Date,
    pub show_booking: bool,
    pub show_info: bool,
    pub show_subst_text: bool,
    pub show_ls_text: bool,
    pub show_ls_number: bool,
    pub show_student_group: bool,
    pub class_fields: Vec<String>,
    pub room_fields: Vec<String>,
    pub subject_fields: Vec<String>,
    pub teacher_fields: Vec<String>,
}

/// The element whose timetable is asked for.
#[derive(Clone, Eq, PartialEq, Debug)]
pub struct TimetableParamsElem {
    pub id: usize,
    pub ty: ElementType,
}

/// A timetable query as a mathematical value.
pub struct TimetableQuery {
    pub id: usize,
    pub ty: ElementType,
    pub start_date: Ymd,
    pub end_date: Ymd,
    pub show_booking: bool,
    pub show_info: bool,
    pub show_subst_text: bool,
    pub show_ls_text: bool,
    pub show_ls_number: bool,
    pub show_student_group: bool,
    pub class_fields: Seq<Seq<char>>,
    pub room_fields: Seq<Seq<char>>,
    pub subject_fields: Seq<Seq<char>>,
    pub teacher_fields: Seq<Seq<char>>,
}

/// The texts of a list of strings.
pub open spec fn texts(list: Seq<String>) -> Seq<Seq<char>> {
    Seq::new(list.len(), |i: int| list[i]@)
}

impl View for TimetableParams {
    type V = TimetableQuery;

    open spec fn view(&self) -> TimetableQuery {
        TimetableQuery {
            id: self.options.element.id,
            ty: self.options.element.ty,
            start_date: self.options.start_date@,
            end_date: self.options.end_date@,
            show_booking: self.options.show_booking,
            show_info: self.options.show_info,
            show_subst_text: self.options.show_subst_text,
            show_ls_text: self.options.show_ls_text,
            show_ls_number: self.options.show_ls_number,
            show_student_group: self.options.show_student_group,
            class_fields: texts(self.options.class_fields@),
            room_fields: texts(self.options.room_fields@),
            subject_fields: texts(self.options.subject_fields@),
            teacher_fields: texts(self.options.teacher_fields@),
        }
    }
}

/// The fields that a timetable names of each class, room, subject and
/// teacher.
pub open spec fn id_and_name() -> Seq<Seq<char>> {
    seq!["id"@, "name"@]
}

/// The query for the timetable of an element between two dates: every
/// detail is asked for, and of each thing its id and its name.
pub open spec fn timetable_query(id: usize, ty: ElementType, start_date: Ymd, end_date: Ymd)
    -> TimetableQuery {
    TimetableQuery {
        id,
        ty,
        start_date,
        end_date,
        show_booking: true,
        show_info: true,
        show_subst_text: true,
        show_ls_text: true,
        show_ls_number: true,
        show_student_group: true,
        class_fields: id_and_name(),
        room_fields: id_and_name(),
        subject_fields: id_and_name(),
        teacher_fields: id_and_name(),
    }
}

/// The list of the field names `id` and `name`.
pub fn id_and_name_fields() -> (r: Vec<String>)
    ensures
        texts(r@) == id_and_name(),
{
    let mut fields: Vec<String> = Vec::new();
    fields.push(String::from_str("id"));
    fields.push(String::from_str("name"));
    assert(texts(fields@) =~= id_and_name());
    fields
}

} // verus!
