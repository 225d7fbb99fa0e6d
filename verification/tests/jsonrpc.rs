use untis::error::Error;
use untis::jsonrpc;
use untis::jsonrpc::{receive, status_is_success, Body, ErrorCode, Reply, Request, Response};

fn members<T>(status: u16, result: Option<T>, error: Option<jsonrpc::Error>) -> Result<Reply<T>, String> {
    Ok(Reply { status, body: Body::Members { result, error } })
}

fn rpc_error(code: isize, message: &str) -> jsonrpc::Error {
    jsonrpc::Error { code, message: String::from(message) }
}

#[test]
fn error_codes_are_those_of_the_api() {
    assert_eq!(ErrorCode::UserBlocked.as_isize(), -8998);
    assert_eq!(ErrorCode::NotAuthenticated.as_isize(), -8520);
    assert_eq!(ErrorCode::NoAccess.as_isize(), -8509);
    assert_eq!(ErrorCode::InvalidCredentials.as_isize(), -8504);
    assert_eq!(ErrorCode::InvalidSchoolName.as_isize(), -8500);
    assert_eq!(ErrorCode::TooManyResults.as_isize(), -6003);
}

#[test]
fn request_is_framed_as_json_rpc_2_0() {
    let request = Request::new("17", "getRooms", ());
    assert_eq!(request.jsonrpc, "2.0");
    assert_eq!(request.id, "17");
    assert_eq!(request.method, "getRooms");
    assert_eq!(request.params, ());
}

#[test]
fn calls_are_numbered_from_one() {
    let mut client = jsonrpc::Client::new("https://example.org/rpc");
    assert_eq!(client.url(), "https://example.org/rpc");
    assert_eq!(client.issued(), 0);
    let first = client.request("a", 1u8);
    let second = client.request("b", 2u8);
    assert_eq!(first.id, "1");
    assert_eq!(second.id, "2");
    assert_eq!(first.method, "a");
    assert_eq!(second.params, 2);
    assert_eq!(client.issued(), 2);
}

#[test]
fn ids_are_decimal_numerals() {
    let mut client = jsonrpc::Client::new("u");
    let mut last = String::new();
    for n in 1..=1234usize {
        let call = client.request("m", ());
        assert_eq!(call.id, format!("{}", n));
        assert_ne!(call.id, last);
        last = call.id;
    }
    assert_eq!(last, "1234");
}

#[test]
fn status_is_a_success_in_the_2xx_class() {
    assert!(!status_is_success(199));
    assert!(status_is_success(200));
    assert!(status_is_success(204));
    assert!(status_is_success(299));
    assert!(!status_is_success(300));
    assert!(!status_is_success(404));
    assert!(!status_is_success(500));
    assert!(!status_is_success(0));
}

#[test]
fn transport_failure_is_a_transport_error() {
    let exchange: Result<Reply<u8>, String> = Err(String::from("connection refused"));
    assert_eq!(receive(exchange), Err(Error::Transport(String::from("connection refused"))));
}

#[test]
fn http_500_is_an_http_error() {
    let unread: Result<Reply<u8>, String> = Ok(Reply { status: 500, body: Body::Unread });
    assert_eq!(receive(unread), Err(Error::Http(500)));
    assert_eq!(receive(members(500, Some(1u8), None)), Err(Error::Http(500)));
    assert_eq!(receive(members::<u8>(404, None, Some(rpc_error(-1, "x")))), Err(Error::Http(404)));
    assert_eq!(receive(members(199, Some(1u8), None)), Err(Error::Http(199)));
    assert_eq!(receive(members(300, Some(1u8), None)), Err(Error::Http(300)));
}

#[test]
fn result_member_is_the_result() {
    assert_eq!(receive(members(200, Some(42u8), None)), Ok(42));
    assert_eq!(receive(members(299, Some(String::from("x")), None)), Ok(String::from("x")));
    assert_eq!(receive(members(200, Some(()), None)), Ok(()));
}

#[test]
fn error_member_is_an_rpc_error() {
    let exchange = members::<u8>(200, None, Some(rpc_error(-8504, "bad credentials")));
    assert_eq!(receive(exchange), Err(Error::Rpc(rpc_error(-8504, "bad credentials"))));
}

#[test]
fn neither_member_is_a_serialization_error() {
    let r = receive(members::<u8>(200, None, None));
    assert!(matches!(r, Err(Error::Serialization(_))));
}

#[test]
fn both_members_are_a_serialization_error() {
    let r = receive(members(200, Some(1u8), Some(rpc_error(-1, "x"))));
    assert_eq!(
        r,
        Err(Error::Serialization(String::from(
            "data did not match any variant of untagged enum Response"
        )))
    );
}

#[test]
fn malformed_body_is_a_serialization_error() {
    let exchange: Result<Reply<u8>, String> =
        Ok(Reply { status: 200, body: Body::Malformed(String::from("expected value at line 1")) });
    assert_eq!(
        receive(exchange),
        Err(Error::Serialization(String::from("expected value at line 1")))
    );
}

#[test]
fn unread_body_of_a_success_is_a_serialization_error() {
    let exchange: Result<Reply<u8>, String> = Ok(Reply { status: 200, body: Body::Unread });
    assert_eq!(
        receive(exchange),
        Err(Error::Serialization(String::from("the response body was not read")))
    );
}

#[test]
fn response_decodes_by_its_members() {
    let success: Body<u8> = Body::Members { result: Some(3), error: None };
    assert_eq!(Response::decode(success), Ok(Response::Success { result: 3 }));
    let failure: Body<u8> = Body::Members { result: None, error: Some(rpc_error(-8520, "no")) };
    assert_eq!(
        Response::decode(failure),
        Ok(Response::Failure { error: rpc_error(-8520, "no") })
    );
    assert_eq!(Response::Success { result: 3u8 }.into_result(), Ok(3));
    assert_eq!(
        Response::<u8>::Failure { error: rpc_error(-8520, "no") }.into_result(),
        Err(Error::Rpc(rpc_error(-8520, "no")))
    );
}

#[test]
fn errors_are_described_in_words() {
    assert_eq!(Error::Http(500).message(), "HTTP Error: 500");
    assert_eq!(Error::Http(0).message(), "HTTP Error: 0");
    assert_eq!(Error::Http(65535).message(), "HTTP Error: 65535");
    assert_eq!(
        Error::Rpc(rpc_error(-8504, "bad credentials")).message(),
        "RPC Error: -8504 bad credentials"
    );
    assert_eq!(Error::Rpc(rpc_error(0, "")).message(), "RPC Error: 0 ");
    assert_eq!(Error::Rpc(rpc_error(10, "ten")).message(), "RPC Error: 10 ten");
    assert_eq!(
        Error::Rpc(rpc_error(isize::MIN, "least")).message(),
        format!("RPC Error: {} least", isize::MIN)
    );
    assert_eq!(
        Error::Rpc(rpc_error(isize::MAX, "most")).message(),
        format!("RPC Error: {} most", isize::MAX)
    );
    assert_eq!(Error::Transport(String::from("timeout")).message(), "Reqwest error: timeout");
    assert_eq!(Error::Serialization(String::from("eof")).message(), "Serde Error: eof");
    assert_eq!(Error::NoSession.message(), "No session");
    assert_eq!(Error::NotFound.message(), "Resource not found");
}
