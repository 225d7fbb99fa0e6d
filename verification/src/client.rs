//! The client of one school: logging in, and the calls that a session
//! allows.

use crate::calendar::Ymd;
use crate::datetime::{week_begin, week_end, Date};
use crate::error::{Error, ErrorView};
use crate::jsonrpc::{agrees, envelope, outcome, receive, Envelope, Reply, Request};
use crate::params::{
    id_and_name_fields, timetable_query, AuthenticateParams, Credentials, TimetableParams,
    TimetableParamsElem, TimetableParamsOpts, TimetableQuery,
};
use crate::resources::{ElementType, School, Session};
use crate::session::{sent, ChannelState, Channel};
use vstd::prelude::*;
use vstd::string::*;

verus! {

/// Client for accessing the Untis API of one school.
///
/// The client performs no I/O. Each operation returns the call that is to
/// be posted to [`Client::url`]; what the transport got back goes through
/// [`crate::jsonrpc::receive`], and for `authenticate` through
/// [`Client::finish_login`].
#[derive(Debug)]
pub struct Client {
    channel: Channel<Session>,
}

impl View for Client {
    type V = ChannelState<Session>;

    closed spec fn view(&self) -> ChannelState<Session> {
        self.channel@
    }
}

/// The endpoint of a school on a server.
pub open spec fn untis_url(server: Seq<char>, school: Seq<char>) -> Seq<char> {
    "https://"@ + server + "/WebUntis/jsonrpc.do?school="@ + school
}

/// The name under which this client logs in.
pub open spec fn client_name() -> Seq<char> {
    "untis-rs"@
}

/// The `authenticate` call of a user.
pub open spec fn login_call(channel: ChannelState<Session>, user: Seq<char>, password: Seq<char>) -> (
    ChannelState<Session>,
    Envelope<Credentials>,
) {
    channel.free_call("authenticate"@, Credentials { client: client_name(), user, password })
}

/// The channel after the reply to `authenticate`: a result is the session
/// from then on; after an error the channel is as before.
pub open spec fn after_login(channel: ChannelState<Session>, reply: Result<Session, ErrorView>)
    -> ChannelState<Session> {
    match reply {
        Ok(session) => channel.opened(session),
        Err(_) => channel,
    }
}

/// The call for the timetable of an element between two dates.
pub open spec fn timetable_call(
    channel: ChannelState<Session>,
    id: usize,
    ty: ElementType,
    start_date: Ymd,
    end_date: Ymd,
) -> (ChannelState<Session>, Result<Envelope<TimetableQuery>, ErrorView>) {
    channel.call("getTimetable"@, timetable_query(id, ty, start_date, end_date))
}

/// The call for the timetable of the user: that of the person of the
/// session.
pub open spec fn own_timetable_call(channel: ChannelState<Session>, start_date: Ymd, end_date: Ymd) -> (
    ChannelState<Session>,
    Result<Envelope<TimetableQuery>, ErrorView>,
) {
    match channel.session {
        Some(session) => timetable_call(
            channel,
            session.person_id,
            session.person_type,
            start_date,
            end_date,
        ),
        None => (channel, Err(ErrorView::NoSession)),
    }
}

/// Whether the week of a date can be asked for: its Monday and its
/// Saturday are representable.
pub open spec fn has_week(date: Ymd) -> bool {
    week_begin(date).representable() && week_end(date).representable()
}

/// Whether `r` and `after` are what asking for the timetable of an element
/// in the week of `date` comes to: nothing where that week cannot be asked
/// for, and else the call for the time from its Monday to its Saturday.
pub open spec fn week_call(
    before: ChannelState<Session>,
    id: usize,
    ty: ElementType,
    date: Ymd,
    after: ChannelState<Session>,
    r: Option<Result<Request<TimetableParams>, Error>>,
) -> bool {
    match r {
        None => !has_week(date) && after == before,
        Some(call) => {
            &&& has_week(date)
            &&& after == timetable_call(before, id, ty, week_begin(date), week_end(date)).0
            &&& sent(call) == timetable_call(before, id, ty, week_begin(date), week_end(date)).1
        },
    }
}

/// Whether `r` and `after` are what asking for the user's own timetable
/// in the week of `date` comes to.
pub open spec fn own_week_call(
    before: ChannelState<Session>,
    date: Ymd,
    after: ChannelState<Session>,
    r: Option<Result<Request<TimetableParams>, Error>>,
) -> bool {
    match r {
        None => !has_week(date) && after == before,
        Some(call) => {
            &&& has_week(date)
            &&& after == own_timetable_call(before, week_begin(date), week_end(date)).0
            &&& sent(call) == own_timetable_call(before, week_begin(date), week_end(date)).1
        },
    }
}

/// The call for `logout`: with it the session is given up.
pub open spec fn logout_call(channel: ChannelState<Session>) -> (
    ChannelState<Session>,
    Result<Envelope<()>, ErrorView>,
) {
    (channel.call("logout"@, ()).0.shut(), channel.call("logout"@, ()).1)
}

impl Client {
    /// The client of a school, without a session. The `server` and `school`
    /// parameter both depend on the school that the user is part of: they
    /// are its `server` and its `login_name`.
    pub fn new(server: &str, school: &str) -> (r: Self)
        ensures
            r@ == ChannelState::<Session>::closed(untis_url(server@, school@)),
    {
        let url = make_untis_url(server, school);
        Client { channel: Channel::new(url.as_str()) }
    }

    /// The endpoint that the calls go to.
    pub fn url(&self) -> (r: &str)
        ensures
            r@ == self@.url,
    {
        self.channel.url()
    }

    /// Whether one more call can be numbered.
    pub fn can_call(&self) -> (r: bool)
        ensures
            r == (self@.issued < usize::MAX),
    {
        self.channel.can_call()
    }

    /// The call that creates a new session.
    pub fn login(&mut self, username: &str, password: &str) -> (r: Request<AuthenticateParams>)
        requires
            old(self)@.issued < usize::MAX,
        ensures
            final(self)@ == login_call(old(self)@, username@, password@).0,
            r@ == login_call(old(self)@, username@, password@).1,
    {
        let params = AuthenticateParams {
            client: String::from_str("untis-rs"),
            user: String::from_str(username),
            password: String::from_str(password),
        };
        self.channel.free_call("authenticate", params)
    }

    /// Takes what the transport got for `authenticate`. A result is the
    /// session from now on, and a copy of it is returned.
    pub fn finish_login(&mut self, exchange: Result<Reply<Session>, String>) -> (r: Result<
        Session,
        Error,
    >)
        ensures
            agrees(r, outcome(exchange)),
            final(self)@ == after_login(old(self)@, outcome(exchange)),
    {
        match receive(exchange) {
            Ok(session) => {
                let copy = session.clone();
                self.channel.open(session);
                Ok(copy)
            },
            Err(e) => Err(e),
        }
    }

    /// Returns the active session.
    pub fn session(&self) -> (r: Option<&Session>)
        ensures
            r is Some <==> self@.session is Some,
            r matches Some(s) ==> self@.session == Some(*s),
    {
        self.channel.session()
    }

    /// The call for the last time that any timetable at this school was
    /// updated.
    pub fn last_update_time(&mut self) -> (r: Result<Request<()>, Error>)
        requires
            old(self)@.issued < usize::MAX,
        ensures
            final(self)@ == old(self)@.call("getLatestImportTime"@, ()).0,
            sent(r) == old(self)@.call("getLatestImportTime"@, ()).1,
    {
        self.channel.call("getLatestImportTime", ())
    }

    /// The call for status data that can be used for displaying a timetable.
    pub fn status_data(&mut self) -> (r: Result<Request<()>, Error>)
        requires
            old(self)@.issued < usize::MAX,
        ensures
            final(self)@ == old(self)@.call("getStatusData"@, ()).0,
            sent(r) == old(self)@.call("getStatusData"@, ()).1,
    {
        self.channel.call("getStatusData", ())
    }

    /// The call for the current schoolyear.
    pub fn current_schoolyear(&mut self) -> (r: Result<Request<()>, Error>)
        requires
            old(self)@.issued < usize::MAX,
        ensures
            final(self)@ == old(self)@.call("getCurrentSchoolyear"@, ()).0,
            sent(r) == old(self)@.call("getCurrentSchoolyear"@, ()).1,
    {
        self.channel.call("getCurrentSchoolyear", ())
    }

    /// The call for the list of all schoolyears.
    pub fn schoolyears(&mut self) -> (r: Result<Request<()>, Error>)
        requires
            old(self)@.issued < usize::MAX,
        ensures
            final(self)@ == old(self)@.call("getSchoolyears"@, ()).0,
            sent(r) == old(self)@.call("getSchoolyears"@, ()).1,
    {
        self.channel.call("getSchoolyears", ())
    }

    /// The call for the holidays in the current schoolyear.
    pub fn holidays(&mut self) -> (r: Result<Request<()>, Error>)
        requires
            old(self)@.issued < usize::MAX,
        ensures
            final(self)@ == old(self)@.call("getHolidays"@, ()).0,
            sent(r) == old(self)@.call("getHolidays"@, ()).1,
    {
        self.channel.call("getHolidays", ())
    }

    /// The call for the list of rooms in the user's school.
    pub fn rooms(&mut self) -> (r: Result<Request<()>, Error>)
        requires
            old(self)@.issued < usize::MAX,
        ensures
            final(self)@ == old(self)@.call("getRooms"@, ()).0,
            sent(r) == old(self)@.call("getRooms"@, ()).1,
    {
        self.channel.call("getRooms", ())
    }

    /// The call for the list of classes in the user's school.
    pub fn classes(&mut self) -> (r: Result<Request<()>, Error>)
        requires
            old(self)@.issued < usize::MAX,
        ensures
            final(self)@ == old(self)@.call("getKlassen"@, ()).0,
            sent(r) == old(self)@.call("getKlassen"@, ()).1,
    {
        self.channel.call("getKlassen", ())
    }

    /// The call for the list of subjects in the user's school.
    pub fn subjects(&mut self) -> (r: Result<Request<()>, Error>)
        requires
            old(self)@.issued < usize::MAX,
        ensures
            final(self)@ == old(self)@.call("getSubjects"@, ()).0,
            sent(r) == old(self)@.call("getSubjects"@, ()).1,
    {
        self.channel.call("getSubjects", ())
    }

    /// The call for the list of teachers in the user's school.
    pub fn teachers(&mut self) -> (r: Result<Request<()>, Error>)
        requires
            old(self)@.issued < usize::MAX,
        ensures
            final(self)@ == old(self)@.call("getTeachers"@, ()).0,
            sent(r) == old(self)@.call("getTeachers"@, ()).1,
    {
        self.channel.call("getTeachers", ())
    }

    /// The call for the list of students in the user's school.
    pub fn students(&mut self) -> (r: Result<Request<()>, Error>)
        requires
            old(self)@.issued < usize::MAX,
        ensures
            final(self)@ == old(self)@.call("getStudents"@, ()).0,
            sent(r) == old(self)@.call("getStudents"@, ()).1,
    {
        self.channel.call("getStudents", ())
    }

    /// The call for the list of departments in the user's school.
    pub fn departments(&mut self) -> (r: Result<Request<()>, Error>)
        requires
            old(self)@.issued < usize::MAX,
        ensures
            final(self)@ == old(self)@.call("getDepartments"@, ()).0,
            sent(r) == old(self)@.call("getDepartments"@, ()).1,
    {
        self.channel.call("getDepartments", ())
    }

    /// The call for the user's own timetable between now and a given date.
    pub fn own_timetable_until(&mut self, end_date: &Date) -> (r: Result<
        Request<TimetableParams>,
        Error,
    >)
        requires
            old(self)@.issued < usize::MAX,
        ensures
            exists|today: Ymd| #[trigger]
                today.representable() && final(self)@ == own_timetable_call(
                    old(self)@,
                    today,
                    end_date@,
                ).0 && sent(r) == own_timetable_call(old(self)@, today, end_date@).1,
    {
        let today = Date::today();
        let r = self.own_timetable_between(&today, end_date);
        assert(today@.representable() && self@ == own_timetable_call(
            old(self)@,
            today@,
            end_date@,
        ).0 && sent(r) == own_timetable_call(old(self)@, today@, end_date@).1);
        r
    }

    /// The call for the user's own timetable for the current week, or
    /// `None` where that week has no representable Monday or Saturday.
    pub fn own_timetable_current_week(&mut self) -> (r: Option<
        Result<Request<TimetableParams>, Error>,
    >)
        requires
            old(self)@.issued < usize::MAX,
        ensures
            exists|today: Ymd| #[trigger]
                today.representable() && own_week_call(old(self)@, today, final(self)@, r),
    {
        let today = Date::today();
        let r = self.own_timetable_for_week(&today);
        assert(today@.representable() && own_week_call(old(self)@, today@, self@, r));
        r
    }

    /// The call for the user's own timetable for the week that a given date
    /// is in, or `None` where that week has no representable Monday or
    /// Saturday.
    pub fn own_timetable_for_week(&mut self, date: &Date) -> (r: Option<
        Result<Request<TimetableParams>, Error>,
    >)
        requires
            old(self)@.issued < usize::MAX,
        ensures
            own_week_call(old(self)@, date@, final(self)@, r),
    {
        match (date.checked_relative_week_begin(), date.checked_relative_week_end()) {
            (Some(monday), Some(saturday)) => Some(self.own_timetable_between(&monday, &saturday)),
            _ => None,
        }
    }

    /// The call for the user's own timetable between two dates.
    pub fn own_timetable_between(&mut self, start_date: &Date, end_date: &Date) -> (r: Result<
        Request<TimetableParams>,
        Error,
    >)
        requires
            old(self)@.issued < usize::MAX,
        ensures
            final(self)@ == own_timetable_call(old(self)@, start_date@, end_date@).0,
            sent(r) == own_timetable_call(old(self)@, start_date@, end_date@).1,
    {
        let person = match self.channel.session() {
            Some(session) => Some((session.person_id, session.person_type)),
            None => None,
        };
        match person {
            Some((id, ty)) => self.timetable_between(&id, &ty, start_date, end_date),
            None => Err(Error::NoSession),
        }
    }

    /// The call for an element's timetable between now and a given date.
    pub fn timetable_until(&mut self, id: &usize, ty: &ElementType, end_date: &Date) -> (r: Result<
        Request<TimetableParams>,
        Error,
    >)
        requires
            old(self)@.issued < usize::MAX,
        ensures
            exists|today: Ymd| #[trigger]
                today.representable() && final(self)@ == timetable_call(
                    old(self)@,
                    *id,
                    *ty,
                    today,
                    end_date@,
                ).0 && sent(r) == timetable_call(old(self)@, *id, *ty, today, end_date@).1,
    {
        let today = Date::today();
        let r = self.timetable_between(id, ty, &today, end_date);
        assert(today@.representable() && self@ == timetable_call(
            old(self)@,
            *id,
            *ty,
            today@,
            end_date@,
        ).0 && sent(r) == timetable_call(old(self)@, *id, *ty, today@, end_date@).1);
        r
    }

    /// The call for an element's timetable for the current week, or `None`
    /// where that week has no representable Monday or Saturday.
    pub fn timetable_current_week(&mut self, id: &usize, ty: &ElementType) -> (r: Option<
        Result<Request<TimetableParams>, Error>,
    >)
        requires
            old(self)@.issued < usize::MAX,
        ensures
            exists|today: Ymd| #[trigger]
                today.representable() && week_call(old(self)@, *id, *ty, today, final(self)@, r),
    {
        let today = Date::today();
        let r = self.timetable_for_week(id, ty, &today);
        assert(today@.representable() && week_call(old(self)@, *id, *ty, today@, self@, r));
        r
    }

    /// The call for an element's timetable for the week that a given date
    /// is in, or `None` where that week has no representable Monday or
    /// Saturday.
    pub fn timetable_for_week(&mut self, id: &usize, ty: &ElementType, date: &Date) -> (r: Option<
        Result<Request<TimetableParams>, Error>,
    >)
        requires
            old(self)@.issued < usize::MAX,
        ensures
            week_call(old(self)@, *id, *ty, date@, final(self)@, r),
    {
        match (date.checked_relative_week_begin(), date.checked_relative_week_end()) {
            (Some(monday), Some(saturday)) => Some(
                self.timetable_between(id, ty, &monday, &saturday),
            ),
            _ => None,
        }
    }

    /// The call for an element's timetable between two dates.
    pub fn timetable_between(
        &mut self,
        id: &usize,
        ty: &ElementType,
        start_date: &Date,
        end_date: &Date,
    ) -> (r: Result<Request<TimetableParams>, Error>)
        requires
            old(self)@.issued < usize::MAX,
        ensures
            final(self)@ == timetable_call(old(self)@, *id, *ty, start_date@, end_date@).0,
            sent(r) == timetable_call(old(self)@, *id, *ty, start_date@, end_date@).1,
    {
        let params = TimetableParams {
            options: TimetableParamsOpts {
                element: TimetableParamsElem { id: *id, ty: *ty },
                start_date: *start_date,
                end_date: *end_date,
                show_booking: true,
                show_info: true,
                show_subst_text: true,
                show_ls_text: true,
                show_ls_number: true,
                show_student_group: true,
                class_fields: id_and_name_fields(),
                room_fields: id_and_name_fields(),
                subject_fields: id_and_name_fields(),
                teacher_fields: id_and_name_fields(),
            },
        };
        self.channel.call("getTimetable", params)
    }

    /// The call that quits the session. From this call on the client has
    /// no session.
    pub fn logout(&mut self) -> (r: Result<Request<()>, Error>)
        requires
            old(self)@.issued < usize::MAX,
        ensures
            final(self)@ == logout_call(old(self)@).0,
            sent(r) == logout_call(old(self)@).1,
    {
        let call = self.channel.call("logout", ());
        self.channel.close();
        call
    }
}

impl School {
    /// A client of this school, and its call to log in.
    pub fn client_login(&self, username: &str, password: &str) -> (r: (
        Client,
        Request<AuthenticateParams>,
    ))
        ensures
            r.0@ == login_call(
                ChannelState::<Session>::closed(untis_url(self.server@, self.login_name@)),
                username@,
                password@,
            ).0,
            r.1@ == login_call(
                ChannelState::<Session>::closed(untis_url(self.server@, self.login_name@)),
                username@,
                password@,
            ).1,
    {
        let mut client = Client::new(self.server.as_str(), self.login_name.as_str());
        let call = client.login(username, password);
        (client, call)
    }
}

/// The endpoint of a school on a server.
pub fn make_untis_url(server: &str, school: &str) -> (r: String)
    ensures
        r@ == untis_url(server@, school@),
{
    let mut url = String::from_str("https://");
    url.append(server);
    url.append("/WebUntis/jsonrpc.do?school=");
    url.append(school);
    url
}

/// A client that never logged in is refused every call that needs a
/// session, its own timetable among them, and stays as it was.
pub proof fn lemma_new_client_is_refused<P>(
    url: Seq<char>,
    method: Seq<char>,
    params: P,
    id: usize,
    ty: ElementType,
    start_date: Ymd,
    end_date: Ymd,
)
    ensures
        ({
            let fresh = ChannelState::<Session>::closed(url);
            &&& fresh.call(method, params) == (
                fresh,
                Err::<Envelope<P>, ErrorView>(ErrorView::NoSession),
            )
            &&& timetable_call(fresh, id, ty, start_date, end_date) == (
                fresh,
                Err::<Envelope<TimetableQuery>, ErrorView>(ErrorView::NoSession),
            )
            &&& own_timetable_call(fresh, start_date, end_date) == (
                fresh,
                Err::<Envelope<TimetableQuery>, ErrorView>(ErrorView::NoSession),
            )
        }),
{
}

/// After `logout` every call that needs a session is refused.
pub proof fn lemma_logout_ends_session<P>(
    channel: ChannelState<Session>,
    method: Seq<char>,
    params: P,
)
    ensures
        logout_call(channel).0.call(method, params).1 == Err::<Envelope<P>, ErrorView>(
            ErrorView::NoSession,
        ),
{
}

/// Once `authenticate` has returned a session, the call for the user's
/// own timetable goes out, and asks for the person and the person type of
/// that session.
pub proof fn lemma_own_timetable_is_that_of_session(
    channel: ChannelState<Session>,
    session: Session,
    start_date: Ymd,
    end_date: Ymd,
)
    ensures
        own_timetable_call(after_login(channel, Ok(session)), start_date, end_date).1 == Ok::<
            Envelope<TimetableQuery>,
            ErrorView,
        >(
            envelope(
                channel.issued + 1,
                "getTimetable"@,
                timetable_query(session.person_id, session.person_type, start_date, end_date),
            ),
        ),
{
}

/// A failed `authenticate` opens no session.
pub proof fn lemma_failed_login_opens_nothing(channel: ChannelState<Session>, error: ErrorView)
    ensures
        after_login(channel, Err(error)) == channel,
{
}

} // verus!
