//! Whole runs of a session, and what holds of every one of them.
//!
//! A run is a session and the events that its driver reports, in order.

use crate::session::{session_step, SessionActionView, SessionEventView, SessionView};
use vstd::prelude::*;

verus! {

/// The session after a run of events.
pub open spec fn session_run(state: SessionView, events: Seq<SessionEventView>) -> SessionView
    decreases events.len(),
{
    if events.len() == 0 {
        state
    } else {
        session_run(session_step(state, events[0]).0, events.drop_first())
    }
}

/// Whether an event makes a session take up a request.
pub open spec fn takes_request(state: SessionView, event: SessionEventView) -> bool {
    state is Listening && event is Request
}

/// Whether an event makes a session ask to send a payload to the client.
pub open spec fn sends_payload(state: SessionView, event: SessionEventView) -> bool {
    session_step(state, event).1 matches Some(SessionActionView::Send(_))
}

/// How many requests a session takes up along a run.
pub open spec fn requests_in(state: SessionView, events: Seq<SessionEventView>) -> nat
    decreases events.len(),
{
    if events.len() == 0 {
        0
    } else {
        let here: nat = if takes_request(state, events[0]) {
            1
        } else {
            0
        };
        here + requests_in(session_step(state, events[0]).0, events.drop_first())
    }
}

/// How many payloads a session asks to send along a run.
pub open spec fn payloads_in(state: SessionView, events: Seq<SessionEventView>) -> nat
    decreases events.len(),
{
    if events.len() == 0 {
        0
    } else {
        let here: nat = if sends_payload(state, events[0]) {
            1
        } else {
            0
        };
        here + payloads_in(session_step(state, events[0]).0, events.drop_first())
    }
}

/// The requests that a session has taken up and not yet answered or given
/// up: one while it starts or polls, none otherwise.
pub open spec fn requests_open(state: SessionView) -> nat {
    if state is Starting || state is Polling {
        1
    } else {
        0
    }
}

/// A session that is over stays over along any run, takes up no request and
/// sends no payload.
pub proof fn lemma_closed_run(events: Seq<SessionEventView>)
    ensures
        session_run(SessionView::Closed, events) == SessionView::Closed,
        requests_in(SessionView::Closed, events) == 0,
        payloads_in(SessionView::Closed, events) == 0,
    decreases events.len(),
{
    if events.len() > 0 {
        lemma_closed_run(events.drop_first());
    }
}

/// Along any run, the requests that a session has taken up are those that
/// it has answered with a payload, the one that is still open, and at most
/// one that it gave up, after which it is over.
pub proof fn lemma_payloads_and_requests(state: SessionView, events: Seq<SessionEventView>)
    ensures
        ({
            let taken = requests_open(state) + requests_in(state, events);
            let settled = payloads_in(state, events) + requests_open(session_run(state, events));
            &&& settled <= taken <= settled + 1
            &&& taken == settled + 1 ==> session_run(state, events) is Closed
        }),
    decreases events.len(),
{
    if events.len() > 0 {
        let next = session_step(state, events[0]).0;
        lemma_payloads_and_requests(next, events.drop_first());
        if next is Closed {
            lemma_closed_run(events.drop_first());
        }
    }
}

/// Each request is answered at most once, and no payload goes out without a
/// request: along any run of a session that has just been opened, the
/// payloads sent are as many as the requests taken up, less the one that is
/// still being served or was given up on a timeout or a fault. A request is
/// given up only by a session that is over.
pub proof fn law_one_payload_per_request(events: Seq<SessionEventView>)
    ensures
        ({
            let taken = requests_in(SessionView::Listening, events);
            let sent = payloads_in(SessionView::Listening, events);
            let end = session_run(SessionView::Listening, events);
            &&& sent <= taken <= sent + 1
            &&& end is Listening || end is Relaying ==> sent == taken
            &&& end is Starting || end is Polling ==> taken == sent + 1
        }),
{
    lemma_payloads_and_requests(SessionView::Listening, events);
}

} // verus!
