use untis::resources;
use untis::resources::{ElementType, LessonCode, LessonType};
use untis::response;

#[test]
fn element_types_have_their_numbers() {
    assert_eq!(ElementType::Class.as_u8(), 1);
    assert_eq!(ElementType::Teacher.as_u8(), 2);
    assert_eq!(ElementType::Subject.as_u8(), 3);
    assert_eq!(ElementType::Room.as_u8(), 4);
    assert_eq!(ElementType::Student.as_u8(), 5);
    assert_eq!(ElementType::Other.as_u8(), 6);
}

#[test]
fn numbers_stand_for_element_types() {
    assert_eq!(ElementType::from_u8(1), ElementType::Class);
    assert_eq!(ElementType::from_u8(2), ElementType::Teacher);
    assert_eq!(ElementType::from_u8(3), ElementType::Subject);
    assert_eq!(ElementType::from_u8(4), ElementType::Room);
    assert_eq!(ElementType::from_u8(5), ElementType::Student);
    assert_eq!(ElementType::from_u8(6), ElementType::Other);
    assert_eq!(ElementType::from_u8(0), ElementType::Other);
    assert_eq!(ElementType::from_u8(7), ElementType::Other);
    assert_eq!(ElementType::from_u8(255), ElementType::Other);
}

#[test]
fn element_type_number_round_trip() {
    for ty in [
        ElementType::Class,
        ElementType::Teacher,
        ElementType::Subject,
        ElementType::Room,
        ElementType::Student,
        ElementType::Other,
    ] {
        assert_eq!(ElementType::from_u8(ty.as_u8()), ty);
    }
}

#[test]
fn words_stand_for_lesson_codes() {
    assert_eq!(LessonCode::from_word("irregular"), LessonCode::Irregular);
    assert_eq!(LessonCode::from_word("cancelled"), LessonCode::Cancelled);
    assert_eq!(LessonCode::from_word("regular"), LessonCode::Regular);
    assert_eq!(LessonCode::from_word(""), LessonCode::Regular);
    assert_eq!(LessonCode::from_word("Cancelled"), LessonCode::Regular);
    assert_eq!(LessonCode::default(), LessonCode::Regular);
}

#[test]
fn words_stand_for_lesson_types() {
    assert_eq!(LessonType::from_word("oh"), LessonType::OfficeHour);
    assert_eq!(LessonType::from_word("sb"), LessonType::Standby);
    assert_eq!(LessonType::from_word("bs"), LessonType::BreakSupervision);
    assert_eq!(LessonType::from_word("ex"), LessonType::Exam);
    assert_eq!(LessonType::from_word("ls"), LessonType::Lesson);
    assert_eq!(LessonType::from_word("xx"), LessonType::Lesson);
    assert_eq!(LessonType::default(), LessonType::Lesson);
}

#[test]
fn defaults_of_missing_fields() {
    assert_eq!(resources::default_id(), -1);
    assert_eq!(resources::default_activity_type(), "undefined");
    assert_eq!(response::default_id(), -1);
    assert_eq!(response::default_activity_type(), "undefined");
}
