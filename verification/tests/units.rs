use untis::datetime::Date;
use untis::error::Error;
use untis::jsonrpc::{Body, Reply};
use untis::response::SessionInfo;
use untis::untis::{make_untis_url, Units};

fn info() -> SessionInfo {
    SessionInfo {
        session_id: String::from("SECRET-REDACTED"),
        class_id: 3,
        person_id: 99,
        person_type: 5,
    }
}

fn answer() -> Result<Reply<SessionInfo>, String> {
    Ok(Reply { status: 200, body: Body::Members { result: Some(info()), error: None } })
}

fn logged_in() -> Units {
    let mut units = Units::new("server", "school", "student", "secret");
    let _ = units.login();
    assert_eq!(units.finish_login(answer()), Ok(info()));
    units
}

#[test]
fn units_url_is_on_webuntis_com() {
    assert_eq!(
        make_untis_url("ajax", "my-school"),
        "https://ajax.webuntis.com/WebUntis/jsonrpc.do?school=my-school"
    );
    let units = Units::new("ajax", "my-school", "student", "secret");
    assert_eq!(units.url(), "https://ajax.webuntis.com/WebUntis/jsonrpc.do?school=my-school");
    assert!(units.can_call());
}

#[test]
fn units_without_session_are_refused() {
    let mut units = Units::new("server", "school", "student", "secret");
    assert!(units.session().is_none());
    assert_eq!(units.status_data(), Err(Error::NoSession));
    assert_eq!(units.holidays(), Err(Error::NoSession));
    assert_eq!(units.rooms(), Err(Error::NoSession));
    assert_eq!(units.classes(), Err(Error::NoSession));
    assert_eq!(units.subjects(), Err(Error::NoSession));
    assert_eq!(units.departments(), Err(Error::NoSession));
    assert_eq!(units.logout(), Err(Error::NoSession));
    let date = Date::from_ymd_opt(2023, 9, 1).unwrap();
    assert_eq!(units.timetable(1, 5, date), Some(Err(Error::NoSession)));
    assert_eq!(units.login().id, "1");
}

#[test]
fn units_login_sends_the_credentials() {
    let mut units = Units::new("server", "school", "student", "secret");
    let call = units.login();
    assert_eq!(call.jsonrpc, "2.0");
    assert_eq!(call.id, "1");
    assert_eq!(call.method, "authenticate");
    assert_eq!(call.params.client, "untis-rs");
    assert_eq!(call.params.user, "student");
    assert_eq!(call.params.password, "secret");
}

#[test]
fn units_login_opens_the_session() {
    let mut units = Units::new("server", "school", "student", "secret");
    let _ = units.login();
    assert_eq!(units.finish_login(answer()), Ok(info()));
    assert_eq!(units.session(), Some(&info()));
}

#[test]
fn units_failed_login_opens_no_session() {
    let mut units = Units::new("server", "school", "student", "secret");
    let _ = units.login();
    let down: Result<Reply<SessionInfo>, String> = Ok(Reply { status: 500, body: Body::Unread });
    assert_eq!(units.finish_login(down), Err(Error::Http(500)));
    assert!(units.session().is_none());
    assert_eq!(units.rooms(), Err(Error::NoSession));
}

#[test]
fn units_calls_are_numbered() {
    let mut units = logged_in();
    let calls = [
        units.status_data().unwrap(),
        units.holidays().unwrap(),
        units.rooms().unwrap(),
        units.classes().unwrap(),
        units.subjects().unwrap(),
        units.departments().unwrap(),
    ];
    let expected = [
        "getStatusData",
        "getHolidays",
        "getRooms",
        "getKlassen",
        "getSubjects",
        "getDepartments",
    ];
    for (n, (call, method)) in calls.iter().zip(expected).enumerate() {
        assert_eq!(call.method, method);
        assert_eq!(call.id, format!("{}", n + 2));
    }
}

#[test]
fn units_timetable_spans_the_week() {
    let mut units = logged_in();
    let date = Date::from_ymd_opt(2023, 9, 1).unwrap();
    let call = units.timetable(7, 5, date).unwrap().unwrap();
    assert_eq!(call.method, "getTimetable");
    assert_eq!(call.id, "2");
    assert_eq!(call.params.id, 7);
    assert_eq!(call.params.ty, 5);
    assert_eq!(call.params.start_date.date(), Date::from_ymd_opt(2023, 8, 28).unwrap());
    assert_eq!(call.params.end_date.date(), Date::from_ymd_opt(2023, 9, 2).unwrap());
}

#[test]
fn units_logout_ends_the_session() {
    let mut units = logged_in();
    let call = units.logout().unwrap();
    assert_eq!(call.method, "logout");
    assert!(units.session().is_none());
    assert_eq!(units.rooms(), Err(Error::NoSession));
    assert_eq!(units.logout(), Err(Error::NoSession));
}
