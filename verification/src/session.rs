//! The channel to one endpoint: which calls may go out, and under which number.

use crate::error::{Error, ErrorView};
use crate::jsonrpc;
use crate::jsonrpc::{envelope, Envelope, Request};
use vstd::prelude::*;

verus! {

/// The calls to one endpoint, and the session under which they are made.
#[derive(Debug)]
pub struct Channel<S> {
    rpc_client: jsonrpc::Client,
    session: Option<S>,
}

/// A channel as a mathematical value: the endpoint, how many calls went out,
/// and the session, if one is open.
pub struct ChannelState<S> {
    pub url: Seq<char>,
    pub issued: nat,
    pub session: Option<S>,
}

impl<S> ChannelState<S> {
    /// The channel to an endpoint before any call, with no session.
    pub open spec fn closed(url: Seq<char>) -> ChannelState<S> {
        ChannelState { url, issued: 0, session: None }
    }

    /// The channel after one more call went out.
    pub open spec fn numbered(self) -> ChannelState<S> {
        ChannelState { issued: self.issued + 1, ..self }
    }

    /// The channel once `session` was opened.
    pub open spec fn opened(self, session: S) -> ChannelState<S> {
        ChannelState { session: Some(session), ..self }
    }

    /// The channel once the session was given up.
    pub open spec fn shut(self) -> ChannelState<S> {
        ChannelState { session: None, ..self }
    }

    /// A call that needs no session: it goes out under the next number.
    pub open spec fn free_call<P>(self, method: Seq<char>, params: P) -> (
        ChannelState<S>,
        Envelope<P>,
    ) {
        (self.numbered(), envelope(self.issued + 1, method, params))
    }

    /// A call that needs a session: with one it goes out under the next
    /// number; without one it is refused, and the channel stays as it is.
    pub open spec fn call<P>(self, method: Seq<char>, params: P) -> (
        ChannelState<S>,
        Result<Envelope<P>, ErrorView>,
    ) {
        if self.session is Some {
            (self.numbered(), Ok(envelope(self.issued + 1, method, params)))
        } else {
            (self, Err(ErrorView::NoSession))
        }
    }
}

/// A call or its refusal as a mathematical value.
pub open spec fn sent<P: View>(r: Result<Request<P>, Error>) -> Result<Envelope<P::V>, ErrorView> {
    match r {
        Ok(request) => Ok(request@),
        Err(e) => Err(e@),
    }
}

impl<S> View for Channel<S> {
    type V = ChannelState<S>;

    closed spec fn view(&self) -> ChannelState<S> {
        ChannelState {
            url: self.rpc_client@.url,
            issued: self.rpc_client@.issued,
            session: self.session,
        }
    }
}

impl<S> Channel<S> {
    /// The channel to an endpoint, with no session.
    pub fn new(url: &str) -> (r: Self)
        ensures
            r@ == ChannelState::<S>::closed(url@),
    {
        Channel { rpc_client: jsonrpc::Client::new(url), session: None }
    }

    /// The endpoint that the calls go to.
    pub fn url(&self) -> (r: &str)
        ensures
            r@ == self@.url,
    {
        self.rpc_client.url()
    }

    /// Whether one more call can be numbered.
    pub fn can_call(&self) -> (r: bool)
        ensures
            r == (self@.issued < usize::MAX),
    {
        self.rpc_client.issued() < usize::MAX
    }

    /// The open session.
    pub fn session(&self) -> (r: Option<&S>)
        ensures
            r is Some <==> self@.session is Some,
            r matches Some(s) ==> self@.session == Some(*s),
    {
        self.session.as_ref()
    }

    /// Frames a call that needs no session.
    pub fn free_call<P: View>(&mut self, method: &str, params: P) -> (r: Request<P>)
        requires
            old(self)@.issued < usize::MAX,
        ensures
            final(self)@ == old(self)@.free_call(method@, params@).0,
            r@ == old(self)@.free_call(method@, params@).1,
    {
        self.rpc_client.request(method, params)
    }

    /// Frames a call that needs a session, or refuses it.
    pub fn call<P: View>(&mut self, method: &str, params: P) -> (r: Result<Request<P>, Error>)
        requires
            old(self)@.issued < usize::MAX,
        ensures
            final(self)@ == old(self)@.call(method@, params@).0,
            sent(r) == old(self)@.call(method@, params@).1,
    {
        if self.session.is_none() {
            return Err(Error::NoSession);
        }
        Ok(self.rpc_client.request(method, params))
    }

    /// Opens a session, in place of the one that was open.
    pub fn open(&mut self, session: S)
        ensures
            final(self)@ == old(self)@.opened(session),
    {
        self.session = Some(session);
    }

    /// Gives the session up.
    pub fn close(&mut self)
        ensures
            final(self)@ == old(self)@.shut(),
    {
        self.session = None;
    }
}

/// Before a session is opened, every call that needs one is refused, and
/// no number is used up.
pub proof fn lemma_closed_channel_refuses<S, P>(url: Seq<char>, method: Seq<char>, params: P)
    ensures
        ChannelState::<S>::closed(url).call(method, params) == (
            ChannelState::<S>::closed(url),
            Err::<Envelope<P>, ErrorView>(ErrorView::NoSession),
        ),
{
}

/// Once the session is given up, every call that needs one is refused.
pub proof fn lemma_shut_channel_refuses<S, P>(channel: ChannelState<S>, method: Seq<char>, params: P)
    ensures
        channel.shut().call(method, params) == (
            channel.shut(),
            Err::<Envelope<P>, ErrorView>(ErrorView::NoSession),
        ),
{
}

/// With a session open, a call goes out under the next number, and the
/// session stays open.
pub proof fn lemma_open_channel_numbers<S, P>(
    channel: ChannelState<S>,
    session: S,
    method: Seq<char>,
    params: P,
)
    ensures
        channel.opened(session).call(method, params) == (
            channel.opened(session).numbered(),
            Ok::<Envelope<P>, ErrorView>(envelope(channel.issued + 1, method, params)),
        ),
{
}

} // verus!
