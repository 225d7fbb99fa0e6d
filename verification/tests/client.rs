use untis::client::make_untis_url;
use untis::datetime::Date;
use untis::error::Error;
use untis::jsonrpc;
use untis::jsonrpc::{Body, Reply};
use untis::resources::{ElementType, School, Session};
use untis::Client;

fn date(year: i32, month: u32, day: u32) -> Date {
    Date::from_ymd_opt(year, month, day).unwrap()
}

fn session() -> Session {
    Session {
        session_id: String::from("SECRET-REDACTED"),
        class_id: 12,
        person_id: 345,
        person_type: ElementType::Student,
    }
}

fn answer(session: Session) -> Result<Reply<Session>, String> {
    Ok(Reply { status: 200, body: Body::Members { result: Some(session), error: None } })
}

fn logged_in() -> Client {
    let mut client = Client::new("server.webuntis.com", "school");
    let _ = client.login("user", "password");
    assert_eq!(client.finish_login(answer(session())), Ok(session()));
    client
}

fn names() -> Vec<String> {
    vec![String::from("id"), String::from("name")]
}

#[test]
fn url_names_server_and_school() {
    assert_eq!(
        make_untis_url("ajax.webuntis.com", "my-school"),
        "https://ajax.webuntis.com/WebUntis/jsonrpc.do?school=my-school"
    );
    assert_eq!(make_untis_url("", ""), "https:///WebUntis/jsonrpc.do?school=");
    let client = Client::new("ajax.webuntis.com", "my-school");
    assert_eq!(client.url(), "https://ajax.webuntis.com/WebUntis/jsonrpc.do?school=my-school");
}

#[test]
fn new_client_has_no_session() {
    let mut client = Client::new("server.webuntis.com", "school");
    assert!(client.session().is_none());
    assert!(client.can_call());
    assert_eq!(client.holidays(), Err(Error::NoSession));
    assert_eq!(client.rooms(), Err(Error::NoSession));
    assert_eq!(
        client.timetable_between(&1, &ElementType::Class, &date(2023, 8, 28), &date(2023, 9, 2)),
        Err(Error::NoSession)
    );
    assert_eq!(
        client.own_timetable_between(&date(2023, 8, 28), &date(2023, 9, 2)),
        Err(Error::NoSession)
    );
    assert_eq!(client.status_data(), Err(Error::NoSession));
    assert_eq!(client.current_schoolyear(), Err(Error::NoSession));
    assert_eq!(client.schoolyears(), Err(Error::NoSession));
    assert_eq!(client.classes(), Err(Error::NoSession));
    assert_eq!(client.subjects(), Err(Error::NoSession));
    assert_eq!(client.teachers(), Err(Error::NoSession));
    assert_eq!(client.students(), Err(Error::NoSession));
    assert_eq!(client.departments(), Err(Error::NoSession));
    assert_eq!(client.last_update_time(), Err(Error::NoSession));
    assert_eq!(client.logout(), Err(Error::NoSession));
    assert_eq!(
        client.timetable_for_week(&1, &ElementType::Class, &date(2023, 9, 1)),
        Some(Err(Error::NoSession))
    );
    assert_eq!(client.own_timetable_for_week(&date(2023, 9, 1)), Some(Err(Error::NoSession)));
}

#[test]
fn refused_calls_use_up_no_number() {
    let mut client = Client::new("server.webuntis.com", "school");
    assert_eq!(client.holidays(), Err(Error::NoSession));
    assert_eq!(client.rooms(), Err(Error::NoSession));
    let call = client.login("user", "password");
    assert_eq!(call.id, "1");
}

#[test]
fn login_is_the_authenticate_call() {
    let mut client = Client::new("server.webuntis.com", "school");
    let call = client.login("user", "password");
    assert_eq!(call.jsonrpc, "2.0");
    assert_eq!(call.id, "1");
    assert_eq!(call.method, "authenticate");
    assert_eq!(call.params.client, "untis-rs");
    assert_eq!(call.params.user, "user");
    assert_eq!(call.params.password, "password");
    assert!(client.session().is_none());
}

#[test]
fn login_is_possible_with_a_session() {
    let mut client = logged_in();
    let call = client.login("other", "word");
    assert_eq!(call.id, "2");
    assert_eq!(call.method, "authenticate");
    assert_eq!(client.session(), Some(&session()));
}

#[test]
fn finish_login_opens_the_session() {
    let mut client = Client::new("server.webuntis.com", "school");
    let _ = client.login("user", "password");
    let copy = client.finish_login(answer(session()));
    assert_eq!(copy, Ok(session()));
    assert_eq!(client.session(), Some(&session()));
}

#[test]
fn failed_login_opens_no_session() {
    let mut client = Client::new("server.webuntis.com", "school");
    let _ = client.login("user", "password");
    let failure = jsonrpc::Error { code: -8504, message: String::from("bad credentials") };
    let refused: Result<Reply<Session>, String> = Ok(Reply {
        status: 200,
        body: Body::Members { result: None, error: Some(failure.clone()) },
    });
    assert_eq!(client.finish_login(refused), Err(Error::Rpc(failure)));
    assert!(client.session().is_none());
    assert_eq!(client.rooms(), Err(Error::NoSession));

    let down: Result<Reply<Session>, String> = Ok(Reply { status: 503, body: Body::Unread });
    assert_eq!(client.finish_login(down), Err(Error::Http(503)));
    assert!(client.session().is_none());

    let lost: Result<Reply<Session>, String> = Err(String::from("no route"));
    assert_eq!(client.finish_login(lost), Err(Error::Transport(String::from("no route"))));
    assert!(client.session().is_none());
}

#[test]
fn failed_login_keeps_the_session() {
    let mut client = logged_in();
    let down: Result<Reply<Session>, String> = Ok(Reply { status: 500, body: Body::Unread });
    assert_eq!(client.finish_login(down), Err(Error::Http(500)));
    assert_eq!(client.session(), Some(&session()));
}

#[test]
fn calls_with_a_session_are_numbered() {
    let mut client = logged_in();
    let methods = [
        client.last_update_time().unwrap(),
        client.status_data().unwrap(),
        client.current_schoolyear().unwrap(),
        client.schoolyears().unwrap(),
        client.holidays().unwrap(),
        client.rooms().unwrap(),
        client.classes().unwrap(),
        client.subjects().unwrap(),
        client.teachers().unwrap(),
        client.students().unwrap(),
        client.departments().unwrap(),
    ];
    let expected = [
        "getLatestImportTime",
        "getStatusData",
        "getCurrentSchoolyear",
        "getSchoolyears",
        "getHolidays",
        "getRooms",
        "getKlassen",
        "getSubjects",
        "getTeachers",
        "getStudents",
        "getDepartments",
    ];
    for (n, (call, method)) in methods.iter().zip(expected).enumerate() {
        assert_eq!(call.jsonrpc, "2.0");
        assert_eq!(call.method, method);
        assert_eq!(call.id, format!("{}", n + 2));
    }
}

#[test]
fn timetable_between_asks_for_every_detail() {
    let mut client = logged_in();
    let call = client
        .timetable_between(&77, &ElementType::Room, &date(2023, 8, 28), &date(2023, 9, 2))
        .unwrap();
    assert_eq!(call.id, "2");
    assert_eq!(call.method, "getTimetable");
    let options = call.params.options;
    assert_eq!(options.element.id, 77);
    assert_eq!(options.element.ty, ElementType::Room);
    assert_eq!(options.start_date, date(2023, 8, 28));
    assert_eq!(options.end_date, date(2023, 9, 2));
    assert!(options.show_booking);
    assert!(options.show_info);
    assert!(options.show_subst_text);
    assert!(options.show_ls_text);
    assert!(options.show_ls_number);
    assert!(options.show_student_group);
    assert_eq!(options.class_fields, names());
    assert_eq!(options.room_fields, names());
    assert_eq!(options.subject_fields, names());
    assert_eq!(options.teacher_fields, names());
}

#[test]
fn own_timetable_is_that_of_the_person_of_the_session() {
    let mut client = logged_in();
    let call = client.own_timetable_between(&date(2023, 8, 28), &date(2023, 9, 2)).unwrap();
    assert_eq!(call.method, "getTimetable");
    assert_eq!(call.params.options.element.id, 345);
    assert_eq!(call.params.options.element.ty, ElementType::Student);
    assert_eq!(call.params.options.start_date, date(2023, 8, 28));
    assert_eq!(call.params.options.end_date, date(2023, 9, 2));
}

#[test]
fn timetable_for_week_runs_from_monday_to_saturday() {
    let mut client = logged_in();
    let call =
        client.timetable_for_week(&9, &ElementType::Teacher, &date(2023, 9, 1)).unwrap().unwrap();
    assert_eq!(call.params.options.element.id, 9);
    assert_eq!(call.params.options.element.ty, ElementType::Teacher);
    assert_eq!(call.params.options.start_date, date(2023, 8, 28));
    assert_eq!(call.params.options.end_date, date(2023, 9, 2));

    let own = client.own_timetable_for_week(&date(2023, 1, 1)).unwrap().unwrap();
    assert_eq!(own.id, "3");
    assert_eq!(own.params.options.element.id, 345);
    assert_eq!(own.params.options.start_date, date(2022, 12, 26));
    assert_eq!(own.params.options.end_date, date(2022, 12, 31));
}

#[test]
fn week_without_a_monday_is_not_asked_for() {
    let mut client = logged_in();
    let first = date(-262143, 1, 1);
    if first.weekday_from_monday() != 0 {
        assert_eq!(client.timetable_for_week(&9, &ElementType::Teacher, &first), None);
        assert_eq!(client.own_timetable_for_week(&first), None);
        assert_eq!(client.rooms().unwrap().id, "2");
    }
}

#[test]
fn logout_ends_the_session() {
    let mut client = logged_in();
    let call = client.logout().unwrap();
    assert_eq!(call.method, "logout");
    assert_eq!(call.id, "2");
    assert!(client.session().is_none());
    assert_eq!(client.holidays(), Err(Error::NoSession));
    assert_eq!(client.logout(), Err(Error::NoSession));
}

#[test]
fn school_logs_in_at_its_own_endpoint() {
    let school = School {
        server: String::from("ajax.webuntis.com"),
        login_name: String::from("my-school"),
        ..School::default()
    };
    let (mut client, call) = school.client_login("user", "password");
    assert_eq!(client.url(), "https://ajax.webuntis.com/WebUntis/jsonrpc.do?school=my-school");
    assert_eq!(call.id, "1");
    assert_eq!(call.method, "authenticate");
    assert_eq!(call.params.user, "user");
    assert_eq!(call.params.password, "password");
    assert!(client.session().is_none());
    assert_eq!(client.rooms(), Err(Error::NoSession));
}

#[test]
fn timetable_until_starts_today() {
    let mut client = logged_in();
    let before = Date::today();
    let call = client.timetable_until(&4, &ElementType::Class, &date(2999, 1, 1)).unwrap();
    let own = client.own_timetable_until(&date(2999, 1, 1)).unwrap();
    let after = Date::today();
    assert_eq!(call.method, "getTimetable");
    assert_eq!(call.params.options.element.id, 4);
    assert_eq!(call.params.options.element.ty, ElementType::Class);
    assert_eq!(call.params.options.end_date, date(2999, 1, 1));
    assert!(before <= call.params.options.start_date);
    assert!(call.params.options.start_date <= after);
    assert_eq!(own.params.options.element.id, 345);
    assert_eq!(own.params.options.end_date, date(2999, 1, 1));
    assert!(before <= own.params.options.start_date);
    assert!(own.params.options.start_date <= after);
}

#[test]
fn timetable_of_the_current_week_is_that_of_today() {
    let mut client = logged_in();
    let before = Date::today();
    let call = client.timetable_current_week(&4, &ElementType::Class).unwrap().unwrap();
    let own = client.own_timetable_current_week().unwrap().unwrap();
    let after = Date::today();
    if before == after {
        assert_eq!(call.params.options.start_date, before.relative_week_begin());
        assert_eq!(call.params.options.end_date, before.relative_week_end());
        assert_eq!(own.params.options.start_date, before.relative_week_begin());
        assert_eq!(own.params.options.end_date, before.relative_week_end());
    }
    assert_eq!(call.id, "2");
    assert_eq!(own.id, "3");
    assert_eq!(own.params.options.element.id, 345);
}

#[test]
fn timetable_until_needs_a_session() {
    let mut client = Client::new("server.webuntis.com", "school");
    assert_eq!(
        client.timetable_until(&4, &ElementType::Class, &date(2999, 1, 1)),
        Err(Error::NoSession)
    );
    assert_eq!(client.own_timetable_until(&date(2999, 1, 1)), Err(Error::NoSession));
    assert_eq!(
        client.timetable_current_week(&4, &ElementType::Class),
        Some(Err(Error::NoSession))
    );
    assert_eq!(client.own_timetable_current_week(), Some(Err(Error::NoSession)));
}
