//! Access to webuntis.com with the credentials of one student.

use crate::calendar::Ymd;
use crate::datetime::Date;
use crate::error::{Error, ErrorView};
use crate::jsonrpc::{agrees, outcome, receive, Envelope, Reply, Request};
use crate::params::Credentials;
use crate::request::{week_query, ParamsAuthenticate, ParamsTimetable, WeekQuery};
use crate::response::SessionInfo;
use crate::session::{sent, ChannelState, Channel};
use vstd::prelude::*;
use vstd::string::*;

verus! {

/// Provides access to webuntis.com.
///
/// `Units` performs no I/O. Each operation returns the call that is to be
/// sent to [`Units::url`]; what the transport got back goes through
/// [`crate::jsonrpc::receive`], and for `authenticate` through
/// [`Units::finish_login`].
#[derive(Debug)]
pub struct Units {
    student: String,
    password: String,
    channel: Channel<SessionInfo>,
}

/// A `Units` as a mathematical value.
pub struct UnitsState {
    pub student: Seq<char>,
    pub password: Seq<char>,
    pub channel: ChannelState<SessionInfo>,
}

impl View for Units {
    type V = UnitsState;

    closed spec fn view(&self) -> UnitsState {
        UnitsState { student: self.student@, password: self.password@, channel: self.channel@ }
    }
}

/// The endpoint of a school on a server of webuntis.com.
pub open spec fn untis_url(server: Seq<char>, school: Seq<char>) -> Seq<char> {
    "https://"@ + server + ".webuntis.com/WebUntis/jsonrpc.do?school="@ + school
}

/// The name under which `Units` logs in.
pub open spec fn client_name() -> Seq<char> {
    "untis-rs"@
}

impl UnitsState {
    /// The state before any call, with no session.
    pub open spec fn start(
        server: Seq<char>,
        school: Seq<char>,
        student: Seq<char>,
        password: Seq<char>,
    ) -> UnitsState {
        UnitsState {
            student,
            password,
            channel: ChannelState::<SessionInfo>::closed(untis_url(server, school)),
        }
    }

    /// The `authenticate` call of the student.
    pub open spec fn login(self) -> (UnitsState, Envelope<Credentials>) {
        let params = Credentials {
            client: client_name(),
            user: self.student,
            password: self.password,
        };
        (
            UnitsState { channel: self.channel.free_call("authenticate"@, params).0, ..self },
            self.channel.free_call("authenticate"@, params).1,
        )
    }

    /// The state after the reply to `authenticate`: a result is the session
    /// from then on; after an error the state is as before.
    pub open spec fn after_login(self, reply: Result<SessionInfo, ErrorView>) -> UnitsState {
        match reply {
            Ok(session) => UnitsState { channel: self.channel.opened(session), ..self },
            Err(_) => self,
        }
    }

    /// A call that needs a session.
    pub open spec fn retrieve<P>(self, method: Seq<char>, params: P) -> (
        UnitsState,
        Result<Envelope<P>, ErrorView>,
    ) {
        (
            UnitsState { channel: self.channel.call(method, params).0, ..self },
            self.channel.call(method, params).1,
        )
    }

    /// The call for `logout`: with it the session is given up.
    pub open spec fn logout(self) -> (UnitsState, Result<Envelope<()>, ErrorView>) {
        (
            UnitsState { channel: self.channel.call("logout"@, ()).0.shut(), ..self },
            self.channel.call("logout"@, ()).1,
        )
    }
}

impl Units {
    /// The server and school name comes from the URL to access untis using
    /// a browser: `https://SERVER.webuntis.com/WebUntis/jsonrpc.do?school=SCHOOL`.
    /// Username and password are required.
    pub fn new(server: &str, school: &str, student: &str, password: &str) -> (r: Self)
        ensures
            r@ == UnitsState::start(server@, school@, student@, password@),
    {
        let url = make_untis_url(server, school);
        Units {
            student: String::from_str(student),
            password: String::from_str(password),
            channel: Channel::new(url.as_str()),
        }
    }

    /// The endpoint that the calls go to.
    pub fn url(&self) -> (r: &str)
        ensures
            r@ == self@.channel.url,
    {
        self.channel.url()
    }

    /// Whether one more call can be numbered.
    pub fn can_call(&self) -> (r: bool)
        ensures
            r == (self@.channel.issued < usize::MAX),
    {
        self.channel.can_call()
    }

    /// The call that creates a new session.
    pub fn login(&mut self) -> (r: Request<ParamsAuthenticate>)
        requires
            old(self)@.channel.issued < usize::MAX,
        ensures
            final(self)@ == old(self)@.login().0,
            r@ == old(self)@.login().1,
    {
        let params = ParamsAuthenticate::new(
            "untis-rs",
            self.student.as_str(),
            self.password.as_str(),
        );
        self.channel.free_call("authenticate", params)
    }

    /// Takes what the transport got for `authenticate`. A result is the
    /// session from now on, and a copy of it is returned.
    pub fn finish_login(&mut self, exchange: Result<Reply<SessionInfo>, String>) -> (r: Result<
        SessionInfo,
        Error,
    >)
        ensures
            agrees(r, outcome(exchange)),
            final(self)@ == old(self)@.after_login(outcome(exchange)),
    {
        match receive(exchange) {
            Ok(result) => {
                let copy = result.clone();
                self.channel.open(result);
                Ok(copy)
            },
            Err(e) => Err(e),
        }
    }

    pub fn session(&self) -> (r: Option<&SessionInfo>)
        ensures
            r is Some <==> self@.channel.session is Some,
            r matches Some(s) ==> self@.channel.session == Some(*s),
    {
        self.channel.session()
    }

    pub fn status_data(&mut self) -> (r: Result<Request<()>, Error>)
        requires
            old(self)@.channel.issued < usize::MAX,
        ensures
            final(self)@ == old(self)@.retrieve("getStatusData"@, ()).0,
            sent(r) == old(self)@.retrieve("getStatusData"@, ()).1,
    {
        self.retrieve("getStatusData", ())
    }

    pub fn holidays(&mut self) -> (r: Result<Request<()>, Error>)
        requires
            old(self)@.channel.issued < usize::MAX,
        ensures
            final(self)@ == old(self)@.retrieve("getHolidays"@, ()).0,
            sent(r) == old(self)@.retrieve("getHolidays"@, ()).1,
    {
        self.retrieve("getHolidays", ())
    }

    pub fn rooms(&mut self) -> (r: Result<Request<()>, Error>)
        requires
            old(self)@.channel.issued < usize::MAX,
        ensures
            final(self)@ == old(self)@.retrieve("getRooms"@, ()).0,
            sent(r) == old(self)@.retrieve("getRooms"@, ()).1,
    {
        self.retrieve("getRooms", ())
    }

    pub fn classes(&mut self) -> (r: Result<Request<()>, Error>)
        requires
            old(self)@.channel.issued < usize::MAX,
        ensures
            final(self)@ == old(self)@.retrieve("getKlassen"@, ()).0,
            sent(r) == old(self)@.retrieve("getKlassen"@, ()).1,
    {
        self.retrieve("getKlassen", ())
    }

    pub fn subjects(&mut self) -> (r: Result<Request<()>, Error>)
        requires
            old(self)@.channel.issued < usize::MAX,
        ensures
            final(self)@ == old(self)@.retrieve("getSubjects"@, ()).0,
            sent(r) == old(self)@.retrieve("getSubjects"@, ()).1,
    {
        self.retrieve("getSubjects", ())
    }

    /// The call for the timetable of an element in the week of `date`, or
    /// `None` where that week has no representable Monday or Saturday.
    pub fn timetable(&mut self, id: usize, ty: usize, date: Date) -> (r: Option<
        Result<Request<ParamsTimetable>, Error>,
    >)
        requires
            old(self)@.channel.issued < usize::MAX,
        ensures
            r is Some <==> has_week(date@),
            r is None ==> final(self)@ == old(self)@,
            r matches Some(call) ==> {
                &&& final(self)@ == old(self)@.retrieve(
                    "getTimetable"@,
                    week_query(id, ty, date@),
                ).0
                &&& sent(call) == old(self)@.retrieve(
                    "getTimetable"@,
                    week_query(id, ty, date@),
                ).1
            },
    {
        match ParamsTimetable::new(id, ty, date) {
            Some(params) => Some(self.retrieve("getTimetable", params)),
            None => None,
        }
    }

    pub fn departments(&mut self) -> (r: Result<Request<()>, Error>)
        requires
            old(self)@.channel.issued < usize::MAX,
        ensures
            final(self)@ == old(self)@.retrieve("getDepartments"@, ()).0,
            sent(r) == old(self)@.retrieve("getDepartments"@, ()).1,
    {
        self.retrieve("getDepartments", ())
    }

    /// The call that quits the current session. From this call on there is
    /// no session.
    pub fn logout(&mut self) -> (r: Result<Request<()>, Error>)
        requires
            old(self)@.channel.issued < usize::MAX,
        ensures
            final(self)@ == old(self)@.logout().0,
            sent(r) == old(self)@.logout().1,
    {
        let call = self.channel.call("logout", ());
        self.channel.close();
        call
    }

    fn retrieve<P: View>(&mut self, method: &str, params: P) -> (r: Result<Request<P>, Error>)
        requires
            old(self)@.channel.issued < usize::MAX,
        ensures
            final(self)@ == old(self)@.retrieve(method@, params@).0,
            sent(r) == old(self)@.retrieve(method@, params@).1,
    {
        self.channel.call(method, params)
    }
}

/// Whether the week of a date can be asked for: its Monday and its
/// Saturday are representable.
pub open spec fn has_week(date: Ymd) -> bool {
    crate::client::has_week(date)
}

/// The endpoint of a school on a server of webuntis.com.
pub fn make_untis_url(server: &str, school: &str) -> (r: String)
    ensures
        r@ == untis_url(server@, school@),
{
    let mut url = String::from_str("https://");
    url.append(server);
    url.append(".webuntis.com/WebUntis/jsonrpc.do?school=");
    url.append(school);
    url
}

/// Before `login` was answered with a session, every call that needs one
/// is refused, and the state stays as it was.
pub proof fn lemma_no_session_no_call<P>(
    server: Seq<char>,
    school: Seq<char>,
    student: Seq<char>,
    password: Seq<char>,
    method: Seq<char>,
    params: P,
)
    ensures
        ({
            let units = UnitsState::start(server, school, student, password);
            &&& units.retrieve(method, params) == (
                units,
                Err::<Envelope<P>, ErrorView>(ErrorView::NoSession),
            )
            &&& units.logout().1 == Err::<Envelope<()>, ErrorView>(ErrorView::NoSession)
        }),
{
}

/// After `logout` every call that needs a session is refused.
pub proof fn lemma_logout_ends_session<P>(units: UnitsState, method: Seq<char>, params: P)
    ensures
        units.logout().0.retrieve(method, params).1 == Err::<Envelope<P>, ErrorView>(
            ErrorView::NoSession,
        ),
{
}

} // verus!
