//! The collector: the owner of the vendor session.
//!
//! A session is opened by the caller, who is told with what by a
//! [`ConnectRequest`] and reports back how it went. The collector is generic
//! in the session handle `S`, which it keeps and never looks into.

use crate::event::StreamType;
use crate::stream::EventStream;
use vstd::prelude::*;

verus! {

/// The endpoint a collector connects to unless it is pointed elsewhere.
pub const FIBER_DEFAULT_URL: &'static str = "beta.fiberapi.io:8080";

/// What a session is to be opened with.
#[derive(Debug, PartialEq, Eq)]
pub struct ConnectRequest {
    /// The endpoint to connect to, as `host:port`.
    pub endpoint: String,
    /// The API key to present.
    pub api_key: String,
}

/// A session could not be opened. The collector does not try again.
#[derive(Debug, PartialEq, Eq)]
pub struct ConnectError {
    /// The endpoint that was tried.
    pub endpoint: String,
    /// What the vendor's client reported.
    pub reason: String,
}

/// A collector that subscribes to one of the vendor's feeds.
pub struct FiberCollector<S> {
    /// The live session.
    client: S,
    /// The endpoint the session was opened against.
    endpoint: String,
    /// The API key the session was opened with.
    api_key: String,
    /// The feed to subscribe to.
    ty: StreamType,
}

/// A collector as contracts see it.
pub ghost struct CollectorView<S> {
    pub client: S,
    pub endpoint: Seq<char>,
    pub api_key: Seq<char>,
    pub ty: StreamType,
}

impl<S> CollectorView<S> {
    /// The collector once `session`, opened against `endpoint`, has taken the
    /// place of the session it held.
    pub open spec fn repointed(self, endpoint: Seq<char>, session: S) -> CollectorView<S> {
        CollectorView { client: session, endpoint, ..self }
    }
}

impl<S> View for FiberCollector<S> {
    type V = CollectorView<S>;

    closed spec fn view(&self) -> CollectorView<S> {
        CollectorView {
            client: self.client,
            endpoint: self.endpoint@,
            api_key: self.api_key@,
            ty: self.ty,
        }
    }
}

/// What a caller needs to open a subscription: the session to open it on, and
/// the stream that turns its deliveries into events.
pub struct Subscription<'a, S> {
    /// The session to issue the vendor's subscription call on.
    pub session: &'a S,
    /// The stream for that subscription.
    pub events: EventStream,
}

impl ConnectRequest {
    /// The request a new collector is connected with: the default endpoint
    /// and the given key.
    pub fn initial(api_key: &String) -> (request: ConnectRequest)
        ensures
            request.endpoint@ == FIBER_DEFAULT_URL@,
            request.api_key@ == api_key@,
    {
        ConnectRequest { endpoint: FIBER_DEFAULT_URL.to_owned(), api_key: api_key.clone() }
    }
}

impl<S> FiberCollector<S> {
    /// Makes a collector for the feed `ty` from the outcome of connecting with
    /// [`ConnectRequest::initial`]: the session, or the reason there is none.
    ///
    /// Without a session there is no collector.
    pub fn new(api_key: String, ty: StreamType, connected: Result<S, String>) -> (collector: Result<
        Self,
        ConnectError,
    >)
        ensures
            match connected {
                Ok(session) => collector matches Ok(c) && c@ == (CollectorView {
                    client: session,
                    endpoint: FIBER_DEFAULT_URL@,
                    api_key: api_key@,
                    ty,
                }),
                Err(reason) => collector matches Err(e) && e.endpoint@ == FIBER_DEFAULT_URL@
                    && e.reason@ == reason@,
            },
    {
        let endpoint = FIBER_DEFAULT_URL.to_owned();
        match connected {
            Ok(client) => Ok(FiberCollector { client, endpoint, api_key, ty }),
            Err(reason) => Err(ConnectError { endpoint, reason }),
        }
    }

    /// The request that points the collector at `endpoint`: that endpoint, and
    /// the key the collector already holds.
    pub fn repoint_request(&self, endpoint: &String) -> (request: ConnectRequest)
        ensures
            request.endpoint@ == endpoint@,
            request.api_key@ == self@.api_key,
    {
        ConnectRequest { endpoint: endpoint.clone(), api_key: self.api_key.clone() }
    }

    /// Points the collector at `endpoint`, given the outcome of connecting with
    /// [`FiberCollector::repoint_request`].
    ///
    /// A new session takes the place of the old one, which is dropped. When
    /// there is none, the collector stays as it was.
    pub fn set_fiber_endpoint(&mut self, endpoint: String, connected: Result<S, String>) -> (done:
        Result<(), ConnectError>)
        ensures
            match connected {
                Ok(session) => done is Ok && final(self)@ == old(self)@.repointed(
                    endpoint@,
                    session,
                ),
                Err(reason) => done matches Err(e) && e.endpoint@ == endpoint@ && e.reason@
                    == reason@ && *final(self) == *old(self),
            },
    {
        match connected {
            Ok(client) => {
                self.client = client;
                self.endpoint = endpoint;
                Ok(())
            },
            Err(reason) => Err(ConnectError { endpoint, reason }),
        }
    }

    /// Opens the event stream: names the session to subscribe on, which is the
    /// one the collector holds, and starts a fresh stream for the collector's
    /// feed.
    pub fn get_event_stream(&self) -> (subscription: Subscription<'_, S>)
        ensures
            *subscription.session == self@.client,
            subscription.events.wf(),
            subscription.events.selector() == self@.ty,
            !subscription.events.ended(),
            subscription.events.delivered() == Seq::<crate::vendor::VendorItem>::empty(),
            subscription.events.yielded() == Seq::<crate::event::Event>::empty(),
    {
        Subscription { session: &self.client, events: EventStream::open(self.ty) }
    }

    /// The live session.
    pub fn client(&self) -> (client: &S)
        ensures
            *client == self@.client,
    {
        &self.client
    }

    /// The endpoint the live session was opened against.
    pub fn endpoint(&self) -> (endpoint: &String)
        ensures
            endpoint@ == self@.endpoint,
    {
        &self.endpoint
    }

    /// The feed the collector subscribes to.
    pub fn stream_type(&self) -> (ty: StreamType)
        ensures
            ty == self@.ty,
    {
        self.ty
    }
}

/// Once a collector has been pointed at a new endpoint, the session it holds, and
/// so the session every later subscription is issued on, is the one opened
/// against that endpoint. The key and the feed are what they were.
pub proof fn lemma_repoint_redirects<S>(before: CollectorView<S>, endpoint: Seq<char>, session: S)
    ensures
        before.repointed(endpoint, session).client == session,
        before.repointed(endpoint, session).endpoint == endpoint,
        before.repointed(endpoint, session).api_key == before.api_key,
        before.repointed(endpoint, session).ty == before.ty,
{
}

} // verus!
