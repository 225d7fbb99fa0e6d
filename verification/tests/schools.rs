use untis::error::Error;
use untis::jsonrpc;
use untis::params::FindSchoolParams;
use untis::resources::{School, SchoolSearchResult};
use untis::school_search;
use untis::schools;

fn school(id: usize, name: &str) -> School {
    School { id, display_name: String::from(name), ..School::default() }
}

fn rpc(code: isize) -> Error {
    Error::Rpc(jsonrpc::Error { code, message: String::from("message") })
}

#[test]
fn search_is_one_query_to_the_school_search() {
    let call = schools::search("gym");
    assert_eq!(call.url, "https://mobile.webuntis.com/ms/schoolquery2");
    assert_eq!(call.request.jsonrpc, "2.0");
    assert_eq!(call.request.id, "1");
    assert_eq!(call.request.method, "searchSchool");
    assert_eq!(call.request.params, vec![FindSchoolParams::Search { search: String::from("gym") }]);
}

#[test]
fn get_by_id_asks_for_the_id() {
    let call = schools::get_by_id(&42);
    assert_eq!(call.url, "https://mobile.webuntis.com/ms/schoolquery2");
    assert_eq!(call.request.id, "1");
    assert_eq!(call.request.method, "searchSchool");
    assert_eq!(call.request.params, vec![FindSchoolParams::ById { schoolid: 42 }]);
}

#[test]
fn get_by_name_asks_for_the_login_name() {
    let call = schools::get_by_name("my-school");
    assert_eq!(call.request.id, "1");
    assert_eq!(call.request.method, "searchSchool");
    assert_eq!(
        call.request.params,
        vec![FindSchoolParams::ByName { schoolname: String::from("my-school") }]
    );
}

#[test]
fn schools_of_a_result_are_returned() {
    let result = SchoolSearchResult { size: 2, schools: vec![school(1, "a"), school(2, "b")] };
    assert_eq!(schools::catch_too_many(Ok(result)), Ok(vec![school(1, "a"), school(2, "b")]));
}

#[test]
fn too_many_results_are_no_schools() {
    assert_eq!(schools::catch_too_many(Err(rpc(-6003))), Ok(vec![]));
}

#[test]
fn other_errors_of_a_search_stay() {
    assert_eq!(schools::catch_too_many(Err(rpc(-8504))), Err(rpc(-8504)));
    assert_eq!(schools::catch_too_many(Err(rpc(6003))), Err(rpc(6003)));
    assert_eq!(schools::catch_too_many(Err(Error::Http(500))), Err(Error::Http(500)));
    assert_eq!(schools::catch_too_many(Err(Error::NotFound)), Err(Error::NotFound));
    assert_eq!(
        schools::catch_too_many(Err(Error::Transport(String::from("down")))),
        Err(Error::Transport(String::from("down")))
    );
}

#[test]
fn first_of_no_schools_is_not_found() {
    assert_eq!(schools::get_first(vec![]), Err(Error::NotFound));
}

#[test]
fn first_of_some_schools_is_the_first() {
    assert_eq!(schools::get_first(vec![school(1, "a")]), Ok(school(1, "a")));
    assert_eq!(
        schools::get_first(vec![school(1, "a"), school(2, "b"), school(3, "c")]),
        Ok(school(1, "a"))
    );
}

#[test]
fn one_school_is_found_or_not() {
    let result = SchoolSearchResult { size: 2, schools: vec![school(5, "e"), school(6, "f")] };
    assert_eq!(schools::first_found(Ok(result)), Ok(school(5, "e")));
    let nothing = SchoolSearchResult { size: 0, schools: vec![] };
    assert_eq!(schools::first_found(Ok(nothing)), Err(Error::NotFound));
    assert_eq!(schools::first_found(Err(rpc(-6003))), Err(Error::NotFound));
    assert_eq!(schools::first_found(Err(rpc(-8500))), Err(rpc(-8500)));
    assert_eq!(schools::first_found(Err(Error::Http(502))), Err(Error::Http(502)));
}

#[test]
fn long_names_do_the_same() {
    assert_eq!(school_search::search_schools("gym"), schools::search("gym"));
    assert_eq!(school_search::get_school_by_id(&42), schools::get_by_id(&42));
    assert_eq!(school_search::get_school_by_name("n"), schools::get_by_name("n"));
    assert_eq!(school_search::get_first(vec![]), Err(Error::NotFound));
    assert_eq!(school_search::get_first(vec![school(1, "a")]), Ok(school(1, "a")));
    assert_eq!(school_search::catch_err(Err(rpc(-6003))), Ok(vec![]));
    assert_eq!(school_search::catch_err(Err(rpc(-1))), Err(rpc(-1)));
    assert_eq!(school_search::first_found(Err(rpc(-6003))), Err(Error::NotFound));
}
