use poll_bridge::poll::PollPhase;
use poll_bridge::request::{ClientRequest, RequestError};
use poll_bridge::session::{Session, SessionAction, SessionEvent, SessionPhase};
use poll_bridge::upstream::{UpstreamReply, UpstreamResult};

const SECOND: u64 = 1_000_000_000;

fn check_request() -> ClientRequest {
    ClientRequest { action: "check".to_string(), data: "x".to_string() }
}

/// A session that has taken a request and the reading that starts its budget,
/// and asks for the clock again.
fn polling_session(start: u64) -> Session {
    let (session, _) = Session::open();
    let (session, action) = session.step(SessionEvent::Request(check_request()));
    assert_eq!(action, Some(SessionAction::ReadClock));
    let (session, action) = session.step(SessionEvent::Clock(start));
    assert_eq!(action, Some(SessionAction::ReadClock));
    session
}

/// A session whose response is on its way to the client.
fn relaying_session() -> Session {
    let session = polling_session(0);
    let (session, _) = session.step(SessionEvent::Clock(0));
    let (session, _) = session.step(SessionEvent::Upstream(UpstreamResult::Success("D".to_string())));
    let (session, action) = session.step(SessionEvent::PingSent(true));
    assert_eq!(
        action,
        Some(SessionAction::Send("{\"message\":\"Received success response: D\"}".to_string()))
    );
    session
}

#[test]
fn session_opens_listening() {
    let (session, action) = Session::open();
    assert_eq!(action, SessionAction::Receive);
    assert_eq!(session.phase(), &SessionPhase::Listening);
    assert!(!session.is_closed());
}

#[test]
fn text_with_a_request_is_a_request_event() {
    assert_eq!(
        SessionEvent::from_text("{\"action\":\"check\",\"data\":\"x\"}"),
        SessionEvent::Request(check_request())
    );
}

#[test]
fn text_without_a_request_is_a_malformed_event() {
    assert_eq!(SessionEvent::from_text("hello"), SessionEvent::Malformed(RequestError::NotJson));
    assert_eq!(
        SessionEvent::from_text("{\"action\":\"check\"}"),
        SessionEvent::Malformed(RequestError::NotARequest)
    );
}

#[test]
fn reply_is_an_upstream_event() {
    assert_eq!(
        SessionEvent::from_reply(UpstreamReply::Body(b"{\"flag\":\"success\"}".to_vec())),
        SessionEvent::Upstream(UpstreamResult::Success("Object {\"flag\": String(\"success\")}".to_string()))
    );
    assert_eq!(
        SessionEvent::from_reply(UpstreamReply::Body(b"oops".to_vec())),
        SessionEvent::Upstream(UpstreamResult::NotYetSuccessful(None))
    );
    assert_eq!(
        SessionEvent::from_reply(UpstreamReply::Failed("dns".to_string())),
        SessionEvent::Upstream(UpstreamResult::TransportError("dns".to_string()))
    );
}

#[test]
fn malformed_text_keeps_the_session_listening() {
    let (mut session, _) = Session::open();
    for text in ["hello", "", "{", "{\"action\":1,\"data\":\"x\"}", "[]", "{\"data\":\"x\"}"] {
        let (next, action) = session.step(SessionEvent::from_text(text));
        assert_eq!(action, Some(SessionAction::Receive));
        assert_eq!(next.phase(), &SessionPhase::Listening);
        assert!(!next.is_closed());
        session = next;
    }
    let (session, action) = session.step(SessionEvent::from_text("{\"action\":\"a\",\"data\":\"b\"}"));
    assert_eq!(action, Some(SessionAction::ReadClock));
    assert_eq!(
        session.phase(),
        &SessionPhase::Starting(ClientRequest { action: "a".to_string(), data: "b".to_string() })
    );
}

#[test]
fn malformed_text_changes_no_state() {
    let malformed = || SessionEvent::Malformed(RequestError::NotJson);
    let (starting, _) = Session::open().0.step(SessionEvent::Request(check_request()));
    let (calling, _) = polling_session(0).step(SessionEvent::Clock(0));
    let (closed, _) = Session::open().0.step(SessionEvent::PeerClosed);
    for session in [starting, polling_session(0), calling, relaying_session(), closed] {
        let before = session.clone();
        let (after, action) = session.step(malformed());
        assert_eq!(action, None);
        assert_eq!(after, before);
    }
}

#[test]
fn other_messages_are_passed_over() {
    let (session, _) = Session::open();
    let (session, action) = session.step(SessionEvent::OtherMessage);
    assert_eq!(action, Some(SessionAction::Receive));
    assert_eq!(session.phase(), &SessionPhase::Listening);
}

#[test]
fn close_message_ends_the_session() {
    let (session, _) = Session::open();
    let (session, action) = session.step(SessionEvent::PeerClosed);
    assert_eq!(action, Some(SessionAction::Close));
    assert!(session.is_closed());
    assert_eq!(session.phase(), &SessionPhase::Closed);
}

#[test]
fn read_fault_ends_the_session() {
    let (session, _) = Session::open();
    let (session, action) = session.step(SessionEvent::ChannelFault);
    assert_eq!(action, Some(SessionAction::Close));
    assert!(session.is_closed());
}

#[test]
fn end_of_the_channel_ends_the_session() {
    let (session, _) = Session::open();
    let (session, action) = session.step(SessionEvent::ChannelEnded);
    assert_eq!(action, Some(SessionAction::Close));
    assert!(session.is_closed());
}

#[test]
fn closed_session_takes_no_more_events() {
    let (session, _) = Session::open();
    let (mut session, _) = session.step(SessionEvent::PeerClosed);
    let events = [
        SessionEvent::Request(check_request()),
        SessionEvent::Malformed(RequestError::NotARequest),
        SessionEvent::PeerClosed,
        SessionEvent::OtherMessage,
        SessionEvent::ChannelFault,
        SessionEvent::ChannelEnded,
        SessionEvent::Clock(0),
        SessionEvent::Upstream(UpstreamResult::Success("x".to_string())),
        SessionEvent::PingSent(true),
        SessionEvent::ResponseSent(true),
    ];
    for event in events {
        let (next, action) = session.step(event);
        assert_eq!(action, None);
        assert!(next.is_closed());
        session = next;
    }
}

#[test]
fn request_starts_a_budget_at_the_next_reading() {
    let session = polling_session(7 * SECOND);
    match session.phase() {
        SessionPhase::Polling(taken, polling) => {
            assert_eq!(taken, &check_request());
            assert_eq!(polling.budget().start, 7 * SECOND);
            assert_eq!(polling.budget().limit, 180 * SECOND);
            assert_eq!(polling.phase(), &PollPhase::Waiting);
        }
        other => panic!("not polling: {:?}", other),
    }
}

#[test]
fn second_request_is_not_taken_while_one_is_served() {
    let session = polling_session(0);
    let before = session.clone();
    let (session, action) = session.step(SessionEvent::Request(ClientRequest {
        action: "other".to_string(),
        data: "y".to_string(),
    }));
    assert_eq!(action, None);
    assert_eq!(session, before);
}

#[test]
fn messages_are_not_awaited_while_polling() {
    let (session, action) = polling_session(0).step(SessionEvent::Clock(1));
    assert_eq!(action, Some(SessionAction::Call));
    let before = session.clone();
    for event in [SessionEvent::PeerClosed, SessionEvent::ChannelFault, SessionEvent::OtherMessage] {
        let (after, action) = before.clone().step(event);
        assert_eq!(action, None);
        assert_eq!(after, before);
    }
}

#[test]
fn session_hands_on_what_its_loop_asks_for() {
    let session = polling_session(0);
    let (session, action) = session.step(SessionEvent::Clock(1));
    assert_eq!(action, Some(SessionAction::Call));
    let (session, action) = session.step(SessionEvent::Upstream(UpstreamResult::NotYetSuccessful(None)));
    assert_eq!(action, Some(SessionAction::Ping));
    let (session, action) = session.step(SessionEvent::PingSent(true));
    assert_eq!(action, Some(SessionAction::Sleep(5 * SECOND)));
    let (session, action) = session.step(SessionEvent::Clock(5 * SECOND + 1));
    assert_eq!(action, Some(SessionAction::Call));
    assert!(!session.is_closed());
}

#[test]
fn success_is_relayed_and_the_session_listens_again() {
    let session = relaying_session();
    assert_eq!(session.phase(), &SessionPhase::Relaying);
    let (session, action) = session.step(SessionEvent::ResponseSent(true));
    assert_eq!(action, Some(SessionAction::Receive));
    assert_eq!(session.phase(), &SessionPhase::Listening);
    let (session, action) = session.step(SessionEvent::Request(check_request()));
    assert_eq!(action, Some(SessionAction::ReadClock));
    assert!(!session.is_closed());
}

#[test]
fn response_that_cannot_be_sent_ends_the_session() {
    let (session, action) = relaying_session().step(SessionEvent::ResponseSent(false));
    assert_eq!(action, Some(SessionAction::Close));
    assert!(session.is_closed());
}

#[test]
fn timeout_ends_the_session_without_a_payload() {
    let session = polling_session(SECOND);
    let (session, action) = session.step(SessionEvent::Clock(181 * SECOND));
    assert_eq!(action, Some(SessionAction::Close));
    assert!(session.is_closed());
}

#[test]
fn lost_ping_ends_the_session_without_a_payload() {
    let session = polling_session(0);
    let (session, _) = session.step(SessionEvent::Clock(0));
    let (session, _) = session.step(SessionEvent::Upstream(UpstreamResult::NotYetSuccessful(None)));
    let (session, action) = session.step(SessionEvent::PingSent(false));
    assert_eq!(action, Some(SessionAction::Close));
    assert!(session.is_closed());
}

#[test]
fn response_escapes_the_description() {
    let session = polling_session(0);
    let (session, _) = session.step(SessionEvent::Clock(0));
    let (session, _) = session.step(SessionEvent::from_reply(UpstreamReply::Body(
        b"{\"flag\":\"success\"}".to_vec(),
    )));
    let (_, action) = session.step(SessionEvent::PingSent(true));
    assert_eq!(
        action,
        Some(SessionAction::Send(
            "{\"message\":\"Received success response: Object {\\\"flag\\\": String(\\\"success\\\")}\"}"
                .to_string()
        ))
    );
}
