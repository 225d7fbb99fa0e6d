//! The JSON-RPC envelope: numbering and framing calls, and classifying
//! what a transport got back for one.

use crate::error;
use crate::text::{decimal, decimal_string};
use vstd::prelude::*;
use vstd::string::*;

verus! {

/// Error codes contained in Untis API errors.
/// The underlying integer can be accessed using `code.as_isize()`.
#[derive(Copy, Clone, Eq, PartialEq, Ord, PartialOrd, Hash, Debug)]
pub enum ErrorCode {
    UserBlocked,
    NotAuthenticated,
    NoAccess,
    InvalidCredentials,
    InvalidSchoolName,
    TooManyResults,
}

impl ErrorCode {
    /// The integer that the API sends for this code.
    pub open spec fn code(self) -> int {
        match self {
            ErrorCode::UserBlocked => -8998,
            ErrorCode::NotAuthenticated => -8520,
            ErrorCode::NoAccess => -8509,
            ErrorCode::InvalidCredentials => -8504,
            ErrorCode::InvalidSchoolName => -8500,
            ErrorCode::TooManyResults => -6003,
        }
    }

    pub fn as_isize(&self) -> (r: isize)
        ensures
            r == self.code(),
    {
        match self {
            ErrorCode::UserBlocked => -8998,
            ErrorCode::NotAuthenticated => -8520,
            ErrorCode::NoAccess => -8509,
            ErrorCode::InvalidCredentials => -8504,
            ErrorCode::InvalidSchoolName => -8500,
            ErrorCode::TooManyResults => -6003,
        }
    }
}

/// JSON-RPC error object.
#[derive(Clone, Eq, PartialEq, Ord, PartialOrd, Hash, Debug)]
pub struct Error {
    pub code: isize,
    pub message: String,
}

/// An error object as a mathematical value.
pub struct ErrorView {
    pub code: int,
    pub message: Seq<char>,
}

impl View for Error {
    type V = ErrorView;

    open spec fn view(&self) -> ErrorView {
        ErrorView { code: self.code as int, message: self.message@ }
    }
}

/// The envelope of a call.
#[derive(Clone, Eq, PartialEq, Debug)]
pub struct Request<P> {
    pub jsonrpc: String,
    pub id: String,
    pub method: String,
    pub params: P,
}

/// The envelope of a call as a mathematical value.
pub struct Envelope<P> {
    pub jsonrpc: Seq<char>,
    pub id: Seq<char>,
    pub method: Seq<char>,
    pub params: P,
}

impl<P: View> View for Request<P> {
    type V = Envelope<P::V>;

    open spec fn view(&self) -> Envelope<P::V> {
        Envelope {
            jsonrpc: self.jsonrpc@,
            id: self.id@,
            method: self.method@,
            params: self.params@,
        }
    }
}

/// A call together with the endpoint that it goes to.
#[derive(Clone, Eq, PartialEq, Debug)]
pub struct Call<P> {
    pub url: String,
    pub request: Request<P>,
}

/// The envelope of the call with the given serial number.
pub open spec fn envelope<P>(serial: nat, method: Seq<char>, params: P) -> Envelope<P> {
    Envelope { jsonrpc: "2.0"@, id: decimal(serial), method, params }
}

impl<P: View> Request<P> {
    pub fn new(id: &str, method: &str, params: P) -> (r: Self)
        ensures
            r@ == (Envelope { jsonrpc: "2.0"@, id: id@, method: method@, params: params@ }),
    {
        Request {
            id: String::from_str(id),
            method: String::from_str(method),
            jsonrpc: String::from_str("2.0"),
            params,
        }
    }
}

/// The body of an HTTP response, as far as it was decoded.
#[derive(Clone, Eq, PartialEq, Debug)]
pub enum Body<T> {
    /// The body was not read.
    Unread,
    /// The body is not JSON, or a member of it has not the expected shape;
    /// the text says why.
    Malformed(String),
    /// The body is a JSON object. These are its members `result` and
    /// `error`, each where the object has it.
    Members { result: Option<T>, error: Option<Error> },
}

/// An HTTP response.
#[derive(Clone, Eq, PartialEq, Debug)]
pub struct Reply<T> {
    pub status: u16,
    pub body: Body<T>,
}

/// A decoded reply: a result, or an error object.
#[derive(Clone, Eq, PartialEq, Debug)]
pub enum Response<T> {
    Success { result: T },
    Failure { error: Error },
}

/// Whether an HTTP status is a success: one of the 2xx class.
pub open spec fn is_success(status: u16) -> bool {
    200 <= status <= 299
}

/// What is said of a body that has neither or both of `result` and `error`.
pub open spec fn no_variant() -> Seq<char> {
    "data did not match any variant of untagged enum Response"@
}

/// What is said of a successful response whose body was not read.
pub open spec fn no_body() -> Seq<char> {
    "the response body was not read"@
}

/// The reply that a body holds: a body with exactly one of the members
/// `result` and `error` is a success or a failure; every other body is
/// malformed.
pub open spec fn decoded<T>(body: Body<T>) -> Result<Response<T>, error::ErrorView> {
    match body {
        Body::Unread => Err(error::ErrorView::Serialization(no_body())),
        Body::Malformed(reason) => Err(error::ErrorView::Serialization(reason@)),
        Body::Members { result: Some(result), error: None } => Ok(Response::Success { result }),
        Body::Members { result: None, error: Some(error) } => Ok(Response::Failure { error }),
        Body::Members { .. } => Err(error::ErrorView::Serialization(no_variant())),
    }
}

/// What a call comes to, given what the transport got for it: its error
/// where it got no response, the status where that is no success, and else
/// what the body holds.
pub open spec fn outcome<T>(exchange: Result<Reply<T>, String>) -> Result<T, error::ErrorView> {
    match exchange {
        Err(reason) => Err(error::ErrorView::Transport(reason@)),
        Ok(reply) => if !is_success(reply.status) {
            Err(error::ErrorView::Http(reply.status))
        } else {
            match decoded(reply.body) {
                Err(e) => Err(e),
                Ok(Response::Success { result }) => Ok(result),
                Ok(Response::Failure { error }) => Err(error::ErrorView::Rpc(error@)),
            }
        },
    }
}

/// Whether `r` is `expected`, its error taken by its view.
pub open spec fn agrees<T>(r: Result<T, error::Error>, expected: Result<T, error::ErrorView>) -> bool {
    match r {
        Ok(t) => expected == Ok::<T, error::ErrorView>(t),
        Err(e) => expected == Err::<T, error::ErrorView>(e@),
    }
}

impl<T> Response<T> {
    /// Tells a success from a failure by the members of the body.
    pub fn decode(body: Body<T>) -> (r: Result<Response<T>, error::Error>)
        ensures
            agrees(r, decoded(body)),
    {
        match body {
            Body::Unread => Err(
                error::Error::Serialization(String::from_str("the response body was not read")),
            ),
            Body::Malformed(reason) => Err(error::Error::Serialization(reason)),
            Body::Members { result: Some(result), error: None } => Ok(Response::Success { result }),
            Body::Members { result: None, error: Some(error) } => Ok(Response::Failure { error }),
            Body::Members { .. } => Err(
                error::Error::Serialization(
                    String::from_str("data did not match any variant of untagged enum Response"),
                ),
            ),
        }
    }

    /// The result of a success, the error of a failure.
    pub fn into_result(self) -> (r: Result<T, error::Error>)
        ensures
            match self {
                Response::Success { result } => r == Ok::<T, error::Error>(result),
                Response::Failure { error } => r == Err::<T, error::Error>(error::Error::Rpc(error)),
            },
    {
        match self {
            Response::Success { result } => Ok(result),
            Response::Failure { error } => Err(error::Error::Rpc(error)),
        }
    }
}

/// Whether an HTTP status is a success.
pub fn status_is_success(status: u16) -> (r: bool)
    ensures
        r == is_success(status),
{
    200 <= status && status <= 299
}

/// Classifies what the transport got for a call.
pub fn receive<T>(exchange: Result<Reply<T>, String>) -> (r: Result<T, error::Error>)
    ensures
        agrees(r, outcome(exchange)),
{
    match exchange {
        Err(reason) => Err(error::Error::Transport(reason)),
        Ok(reply) => {
            if !status_is_success(reply.status) {
                return Err(error::Error::Http(reply.status));
            }
            match Response::decode(reply.body) {
                Err(e) => Err(e),
                Ok(response) => response.into_result(),
            }
        },
    }
}

/// The numbering of the calls to one endpoint.
#[derive(Debug)]
pub struct Client {
    url: String,
    last_req_id: usize,
}

/// A `Client` as a mathematical value: the endpoint, and how many calls
/// were numbered so far.
pub struct Numbering {
    pub url: Seq<char>,
    pub issued: nat,
}

impl View for Client {
    type V = Numbering;

    closed spec fn view(&self) -> Numbering {
        Numbering { url: self.url@, issued: self.last_req_id as nat }
    }
}

impl Client {
    pub fn new(url: &str) -> (r: Self)
        ensures
            r@ == (Numbering { url: url@, issued: 0 }),
    {
        Self { url: String::from_str(url), last_req_id: 0 }
    }

    /// The endpoint that the calls go to.
    pub fn url(&self) -> (r: &str)
        ensures
            r@ == self@.url,
    {
        self.url.as_str()
    }

    /// How many calls were numbered so far.
    pub fn issued(&self) -> (r: usize)
        ensures
            r == self@.issued,
    {
        self.last_req_id
    }

    fn get_id(&mut self) -> (r: String)
        requires
            old(self)@.issued < usize::MAX,
        ensures
            final(self)@ == (Numbering { issued: old(self)@.issued + 1, ..old(self)@ }),
            r@ == decimal(final(self)@.issued),
    {
        self.last_req_id += 1;
        decimal_string(self.last_req_id)
    }

    /// Numbers the next call and frames it.
    pub fn request<P: View>(&mut self, method: &str, params: P) -> (r: Request<P>)
        requires
            old(self)@.issued < usize::MAX,
        ensures
            final(self)@ == (Numbering { issued: old(self)@.issued + 1, ..old(self)@ }),
            r@ == envelope(old(self)@.issued + 1, method@, params@),
    {
        let req_id = self.get_id();
        Request::new(req_id.as_str(), method, params)
    }
}

/// A response whose status is no success comes to an HTTP error with that
/// status, whatever its body.
pub proof fn lemma_bad_status_is_http_error<T>(status: u16, body: Body<T>)
    requires
        !is_success(status),
    ensures
        outcome(Ok::<Reply<T>, String>((Reply { status, body }))) == Err::<T, error::ErrorView>(
            error::ErrorView::Http(status),
        ),
{
}

/// A successful response whose body has the member `error` alone comes to
/// an RPC error with the code and the message of that member.
pub proof fn lemma_error_member_is_rpc_error<T>(status: u16, error: Error)
    requires
        is_success(status),
    ensures
        outcome(
            Ok::<Reply<T>, String>(
                (Reply { status, body: Body::Members { result: None, error: Some(error) } }),
            ),
        ) == Err::<T, error::ErrorView>(
            error::ErrorView::Rpc((ErrorView { code: error.code as int, message: error.message@ })),
        ),
{
}

/// A successful response whose body has the member `result` alone comes
/// to that result.
pub proof fn lemma_result_member_is_result<T>(status: u16, result: T)
    requires
        is_success(status),
    ensures
        outcome(
            Ok::<Reply<T>, String>(
                (Reply { status, body: Body::Members { result: Some(result), error: None } }),
            ),
        ) == Ok::<T, error::ErrorView>(result),
{
}

/// A successful response whose body has neither or both of the members
/// comes to a serialization error.
pub proof fn lemma_neither_or_both_is_malformed<T>(
    status: u16,
    result: Option<T>,
    error: Option<Error>,
)
    requires
        is_success(status),
        (result is Some) == (error is Some),
    ensures
        outcome(Ok::<Reply<T>, String>((Reply { status, body: Body::Members { result, error } })))
            == Err::<T, error::ErrorView>(error::ErrorView::Serialization(no_variant())),
{
}

/// The calls of one client have different ids.
pub proof fn lemma_ids_are_unique<P>(a: nat, b: nat, method: Seq<char>, params: P)
    requires
        a != b,
    ensures
        envelope(a, method, params).id != envelope(b, method, params).id,
{
    if decimal(a) == decimal(b) {
        crate::text::lemma_decimal_is_injective(a, b);
    }
}

} // verus!
