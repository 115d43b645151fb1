//! The session of one client connection, as a state machine.
//!
//! A session listens for a request, polls the upstream service for it, and
//! relays a success to the client. It does no I/O: each step hands out the
//! next [`SessionAction`], the driver performs it and reports what came of it
//! as a [`SessionEvent`]:
//!
//! | action | what the driver does | events to report |
//! |---|---|---|
//! | `Receive` | reads the next message of the client | `Request`, `Malformed`, `PeerClosed`, `OtherMessage`, `ChannelFault`, `ChannelEnded` |
//! | `ReadClock` | reads the clock | `Clock` |
//! | `Call` | calls the upstream service once | `Upstream` |
//! | `Ping` | sends one empty ping to the client | `PingSent` |
//! | `Sleep` | sleeps that long, then reads the clock | `Clock` |
//! | `Send` | sends the text to the client | `ResponseSent` |
//! | `Close` | drops the connection | none |

use crate::poll::{
    begun,
    poll_step,
    PollAction,
    PollActionView,
    PollEvent,
    PollEventView,
    PollLoop,
    PollLoopView,
    PollOutcome,
    PollOutcomeView,
    PollPhaseView,
};
use crate::request::{request_of_text, ClientRequest, ClientRequestView, RequestError};
use crate::response::{encoded_response, ClientResponse};
use crate::upstream::{
    classified,
    classify,
    UpstreamReply,
    UpstreamReplyView,
    UpstreamResult,
    UpstreamResultView,
};
use vstd::prelude::*;

verus! {

/// What the driver reports to the session.
#[derive(Clone, Debug, PartialEq, Eq)]
pub enum SessionEvent {
    /// The client sent a text message that is a request.
    Request(ClientRequest),
    /// The client sent a text message that is no request.
    Malformed(RequestError),
    /// The client sent a close message.
    PeerClosed,
    /// The client sent a message of another kind.
    OtherMessage,
    /// Reading from the channel failed.
    ChannelFault,
    /// The channel has no more messages.
    ChannelEnded,
    /// The clock was read.
    Clock(u64),
    /// A call to the upstream service came back.
    Upstream(UpstreamResult),
    /// A ping was handed to the channel: `true` where the channel took it.
    PingSent(bool),
    /// A response was handed to the channel: `true` where the channel took it.
    ResponseSent(bool),
}

/// What the driver reports to the session, with its texts as sequences.
pub enum SessionEventView {
    Request(ClientRequestView),
    Malformed(RequestError),
    PeerClosed,
    OtherMessage,
    ChannelFault,
    ChannelEnded,
    Clock(u64),
    Upstream(UpstreamResultView),
    PingSent(bool),
    ResponseSent(bool),
}

impl View for SessionEvent {
    type V = SessionEventView;

    open spec fn view(&self) -> SessionEventView {
        match self {
            SessionEvent::Request(request) => SessionEventView::Request(request@),
            SessionEvent::Malformed(error) => SessionEventView::Malformed(*error),
            SessionEvent::PeerClosed => SessionEventView::PeerClosed,
            SessionEvent::OtherMessage => SessionEventView::OtherMessage,
            SessionEvent::ChannelFault => SessionEventView::ChannelFault,
            SessionEvent::ChannelEnded => SessionEventView::ChannelEnded,
            SessionEvent::Clock(now) => SessionEventView::Clock(*now),
            SessionEvent::Upstream(result) => SessionEventView::Upstream(result@),
            SessionEvent::PingSent(sent) => SessionEventView::PingSent(*sent),
            SessionEvent::ResponseSent(sent) => SessionEventView::ResponseSent(*sent),
        }
    }
}

/// What the session asks of its driver.
#[derive(Clone, Debug, PartialEq, Eq)]
pub enum SessionAction {
    /// Read the next message of the client.
    Receive,
    /// Read the clock.
    ReadClock,
    /// Call the upstream service once.
    Call,
    /// Send one empty ping to the client.
    Ping,
    /// Sleep for so many nanoseconds, then read the clock.
    Sleep(u64),
    /// Send this text to the client.
    Send(String),
    /// Drop the connection: the session is over.
    Close,
}

/// What the session asks of its driver, with its text as a sequence.
pub enum SessionActionView {
    Receive,
    ReadClock,
    Call,
    Ping,
    Sleep(u64),
    Send(Seq<char>),
    Close,
}

impl View for SessionAction {
    type V = SessionActionView;

    open spec fn view(&self) -> SessionActionView {
        match self {
            SessionAction::Receive => SessionActionView::Receive,
            SessionAction::ReadClock => SessionActionView::ReadClock,
            SessionAction::Call => SessionActionView::Call,
            SessionAction::Ping => SessionActionView::Ping,
            SessionAction::Sleep(span) => SessionActionView::Sleep(*span),
            SessionAction::Send(text) => SessionActionView::Send(text@),
            SessionAction::Close => SessionActionView::Close,
        }
    }
}

/// The view of an action that may be missing.
pub open spec fn session_action_view(action: Option<SessionAction>) -> Option<SessionActionView> {
    match action {
        Some(action) => Some(action@),
        None => None,
    }
}

/// Where a session stands.
#[derive(Clone, Debug, PartialEq, Eq)]
pub enum SessionPhase {
    /// Waiting for a message of the client.
    Listening,
    /// A request came in; the clock reading that starts its budget is awaited.
    Starting(ClientRequest),
    /// The upstream service is being polled for a request.
    Polling(ClientRequest, PollLoop),
    /// A response is on its way to the client.
    Relaying,
    /// Over.
    Closed,
}

/// Where a session stands, as a value of the model.
pub enum SessionView {
    Listening,
    Starting(ClientRequestView),
    Polling(ClientRequestView, PollLoopView),
    Relaying,
    Closed,
}

impl View for SessionPhase {
    type V = SessionView;

    open spec fn view(&self) -> SessionView {
        match self {
            SessionPhase::Listening => SessionView::Listening,
            SessionPhase::Starting(request) => SessionView::Starting(request@),
            SessionPhase::Polling(request, polling) => SessionView::Polling(request@, polling@),
            SessionPhase::Relaying => SessionView::Relaying,
            SessionPhase::Closed => SessionView::Closed,
        }
    }
}

/// The session of one client connection.
#[derive(Clone, Debug, PartialEq, Eq)]
pub struct Session {
    phase: SessionPhase,
}

impl View for Session {
    type V = SessionView;

    closed spec fn view(&self) -> SessionView {
        self.phase@
    }
}

/// The event that a text message of the client makes.
pub open spec fn event_of_text(text: Seq<char>) -> SessionEventView {
    match request_of_text(text) {
        Ok(request) => SessionEventView::Request(request),
        Err(error) => SessionEventView::Malformed(error),
    }
}

/// The event that the raw reply of a call makes.
pub open spec fn event_of_reply(reply: UpstreamReplyView) -> SessionEventView {
    SessionEventView::Upstream(classified(reply))
}

/// The event of a polling loop that a session event stands for, if any.
pub open spec fn poll_event_of(event: SessionEventView) -> Option<PollEventView> {
    match event {
        SessionEventView::Clock(now) => Some(PollEventView::Clock(now)),
        SessionEventView::Upstream(result) => Some(PollEventView::Upstream(result)),
        SessionEventView::PingSent(sent) => Some(PollEventView::PingSent(sent)),
        _ => None,
    }
}

/// What a session does with one step of its polling loop: it hands the
/// loop's requests on, relays a success, and closes on a timeout or a fault.
pub open spec fn session_after_poll(
    request: ClientRequestView,
    polling: PollLoopView,
    action: PollActionView,
) -> (SessionView, SessionActionView) {
    match action {
        PollActionView::ReadClock => (
            SessionView::Polling(request, polling),
            SessionActionView::ReadClock,
        ),
        PollActionView::Call => (SessionView::Polling(request, polling), SessionActionView::Call),
        PollActionView::Ping => (SessionView::Polling(request, polling), SessionActionView::Ping),
        PollActionView::Sleep(span) => (
            SessionView::Polling(request, polling),
            SessionActionView::Sleep(span),
        ),
        PollActionView::Finish(PollOutcomeView::Succeeded(message)) => (
            SessionView::Relaying,
            SessionActionView::Send(encoded_response(message)),
        ),
        PollActionView::Finish(_) => (SessionView::Closed, SessionActionView::Close),
    }
}

/// One step of the session: the state after an event, and the action that
/// the event calls for. An event that the session does not wait for changes
/// nothing and calls for nothing.
pub open spec fn session_step(state: SessionView, event: SessionEventView) -> (
    SessionView,
    Option<SessionActionView>,
) {
    match state {
        SessionView::Listening => match event {
            SessionEventView::Request(request) => (
                SessionView::Starting(request),
                Some(SessionActionView::ReadClock),
            ),
            SessionEventView::Malformed(_) | SessionEventView::OtherMessage => (
                SessionView::Listening,
                Some(SessionActionView::Receive),
            ),
            SessionEventView::PeerClosed
            | SessionEventView::ChannelFault
            | SessionEventView::ChannelEnded => (
                SessionView::Closed,
                Some(SessionActionView::Close),
            ),
            _ => (state, None),
        },
        SessionView::Starting(request) => match event {
            SessionEventView::Clock(now) => (
                SessionView::Polling(request, begun(now)),
                Some(SessionActionView::ReadClock),
            ),
            _ => (state, None),
        },
        SessionView::Polling(request, polling) => match poll_event_of(event) {
            Some(poll_event) => match poll_step(polling, poll_event) {
                (next, Some(action)) => {
                    let (after, asked) = session_after_poll(request, next, action);
                    (after, Some(asked))
                },
                (_, None) => (state, None),
            },
            None => (state, None),
        },
        SessionView::Relaying => match event {
            SessionEventView::ResponseSent(true) => (
                SessionView::Listening,
                Some(SessionActionView::Receive),
            ),
            SessionEventView::ResponseSent(false) => (
                SessionView::Closed,
                Some(SessionActionView::Close),
            ),
            _ => (state, None),
        },
        SessionView::Closed => (state, None),
    }
}

impl SessionEvent {
    /// The event for a text message of the client: a request where the text
    /// holds one, and else the reason why it holds none.
    pub fn from_text(text: &str) -> (event: SessionEvent)
        ensures
            event@ == event_of_text(text@),
    {
        match ClientRequest::parse(text) {
            Ok(request) => SessionEvent::Request(request),
            Err(error) => SessionEvent::Malformed(error),
        }
    }

    /// The event for the raw reply of a call to the upstream service.
    pub fn from_reply(reply: UpstreamReply) -> (event: SessionEvent)
        ensures
            event@ == event_of_reply(reply@),
    {
        SessionEvent::Upstream(classify(reply))
    }
}

impl Session {
    /// A session for a connection that has just been accepted. Its first
    /// action is to read a message.
    pub fn open() -> (opened: (Session, SessionAction))
        ensures
            opened.0@ == SessionView::Listening,
            opened.1 == SessionAction::Receive,
    {
        (Session { phase: SessionPhase::Listening }, SessionAction::Receive)
    }

    /// Where this session stands.
    pub fn phase(&self) -> (phase: &SessionPhase)
        ensures
            phase@ == self@,
    {
        &self.phase
    }

    /// Whether this session is over.
    pub fn is_closed(&self) -> (closed: bool)
        ensures
            closed == (self@ is Closed),
    {
        match self.phase {
            SessionPhase::Closed => true,
            _ => false,
        }
    }

    /// Takes one event and says what to do next. `None` where the session
    /// does not wait for this event: the session is then as it was.
    pub fn step(self, event: SessionEvent) -> (next: (Session, Option<SessionAction>))
        ensures
            (next.0@, session_action_view(next.1)) == session_step(self@, event@),
    {
        match self.phase {
            SessionPhase::Listening => match event {
                SessionEvent::Request(request) => (
                    Session { phase: SessionPhase::Starting(request) },
                    Some(SessionAction::ReadClock),
                ),
                SessionEvent::Malformed(_) | SessionEvent::OtherMessage => (
                    Session { phase: SessionPhase::Listening },
                    Some(SessionAction::Receive),
                ),
                SessionEvent::PeerClosed
                | SessionEvent::ChannelFault
                | SessionEvent::ChannelEnded => (
                    Session { phase: SessionPhase::Closed },
                    Some(SessionAction::Close),
                ),
                _ => (Session { phase: SessionPhase::Listening }, None),
            },
            SessionPhase::Starting(request) => match event {
                SessionEvent::Clock(now) => {
                    let (polling, first) = PollLoop::begin(now);
                    let (session, asked) = Session::after_poll(request, polling, first);
                    (session, Some(asked))
                },
                _ => (Session { phase: SessionPhase::Starting(request) }, None),
            },
            SessionPhase::Polling(request, polling) => {
                let poll_event = match event {
                    SessionEvent::Clock(now) => Some(PollEvent::Clock(now)),
                    SessionEvent::Upstream(result) => Some(PollEvent::Upstream(result)),
                    SessionEvent::PingSent(sent) => Some(PollEvent::PingSent(sent)),
                    _ => None,
                };
                match poll_event {
                    Some(poll_event) => {
                        let (polling, action) = polling.step(poll_event);
                        match action {
                            Some(action) => {
                                let (session, asked) = Session::after_poll(request, polling, action);
                                (session, Some(asked))
                            },
                            None => (Session { phase: SessionPhase::Polling(request, polling) }, None),
                        }
                    },
                    None => (Session { phase: SessionPhase::Polling(request, polling) }, None),
                }
            },
            SessionPhase::Relaying => match event {
                SessionEvent::ResponseSent(true) => (
                    Session { phase: SessionPhase::Listening },
                    Some(SessionAction::Receive),
                ),
                SessionEvent::ResponseSent(false) => (
                    Session { phase: SessionPhase::Closed },
                    Some(SessionAction::Close),
                ),
                _ => (Session { phase: SessionPhase::Relaying }, None),
            },
            SessionPhase::Closed => (Session { phase: SessionPhase::Closed }, None),
        }
    }

    /// The session after one step of its polling loop, and what to do next.
    fn after_poll(request: ClientRequest, polling: PollLoop, action: PollAction) -> (next: (
        Session,
        SessionAction,
    ))
        ensures
            (next.0@, next.1@) == session_after_poll(request@, polling@, action@),
    {
        match action {
            PollAction::ReadClock => (
                Session { phase: SessionPhase::Polling(request, polling) },
                SessionAction::ReadClock,
            ),
            PollAction::Call => (
                Session { phase: SessionPhase::Polling(request, polling) },
                SessionAction::Call,
            ),
            PollAction::Ping => (
                Session { phase: SessionPhase::Polling(request, polling) },
                SessionAction::Ping,
            ),
            PollAction::Sleep(span) => (
                Session { phase: SessionPhase::Polling(request, polling) },
                SessionAction::Sleep(span),
            ),
            PollAction::Finish(PollOutcome::Succeeded(message)) => {
                let response = ClientResponse { message };
                (Session { phase: SessionPhase::Relaying }, SessionAction::Send(response.encode()))
            },
            PollAction::Finish(_) => (Session { phase: SessionPhase::Closed }, SessionAction::Close),
        }
    }
}

/// A text message that is no request is harmless: in whatever state it is
/// reported, the session stays as it was, so it neither ends nor starts a
/// poll; a session that listens goes on listening.
pub proof fn law_malformed_text_is_harmless(state: SessionView, text: Seq<char>)
    ensures
        request_of_text(text) is Err ==> ({
            let (after, action) = session_step(state, event_of_text(text));
            &&& after == state
            &&& action == if state is Listening {
                Some(SessionActionView::Receive)
            } else {
                None
            }
            &&& action != Some(SessionActionView::Call)
            &&& action != Some(SessionActionView::Close)
        }),
{
}

/// While a request is being served no other is taken up: a request that is
/// reported to a session that does not listen changes nothing.
pub proof fn law_one_request_at_a_time(state: SessionView, request: ClientRequestView)
    requires
        !(state is Listening),
    ensures
        session_step(state, SessionEventView::Request(request)) == (
            state,
            None::<SessionActionView>,
        ),
{
}

/// The client is sent a payload only for a success: the session asks to
/// send a text only when the ping of a poll that reported success has been
/// sent, and the text is then the response with the message of that success.
pub proof fn law_only_success_is_relayed(state: SessionView, event: SessionEventView)
    requires
        session_step(state, event).1 matches Some(SessionActionView::Send(_)),
    ensures
        event == SessionEventView::PingSent(true),
        session_step(state, event).0 is Relaying,
        state matches SessionView::Polling(_, polling) && polling.phase matches PollPhaseView::Pinging(
            Some(message),
        ) && session_step(state, event).1 == Some(
            SessionActionView::Send(encoded_response(message)),
        ),
{
}

/// A session that is over stays over, and asks for nothing more.
pub proof fn law_closed_session_is_silent(event: SessionEventView)
    ensures
        session_step(SessionView::Closed, event) == (SessionView::Closed, None::<SessionActionView>),
{
}

} // verus!
