use poll_bridge::session::{Session, SessionAction, SessionEvent};
use poll_bridge::upstream::UpstreamReply;

const SECOND: u64 = 1_000_000_000;

/// What came of a connection.
struct Connection {
    calls: u32,
    pings: u32,
    sent: Vec<String>,
    clock: u64,
    closed: bool,
    unread: usize,
}

/// Drives a session over a scripted connection: `inbox` holds the text
/// messages of the client, after which the client closes; `reply` gives the
/// body of each call by its number, from 1 on. The clock advances by what
/// each sleep asks for.
fn connect(inbox: &[&str], reply: impl Fn(u32) -> &'static str) -> Connection {
    let mut connection =
        Connection { calls: 0, pings: 0, sent: Vec::new(), clock: 0, closed: false, unread: inbox.len() };
    let (mut session, mut action) = Session::open();
    for _ in 0..10_000 {
        let event = match action {
            SessionAction::Receive => {
                if connection.unread == 0 {
                    SessionEvent::PeerClosed
                } else {
                    let text = inbox[inbox.len() - connection.unread];
                    connection.unread -= 1;
                    SessionEvent::from_text(text)
                }
            }
            SessionAction::ReadClock => SessionEvent::Clock(connection.clock),
            SessionAction::Sleep(span) => {
                connection.clock += span;
                SessionEvent::Clock(connection.clock)
            }
            SessionAction::Call => {
                connection.calls += 1;
                SessionEvent::from_reply(UpstreamReply::Body(reply(connection.calls).as_bytes().to_vec()))
            }
            SessionAction::Ping => {
                connection.pings += 1;
                SessionEvent::PingSent(true)
            }
            SessionAction::Send(text) => {
                connection.sent.push(text);
                SessionEvent::ResponseSent(true)
            }
            SessionAction::Close => {
                assert!(session.is_closed());
                connection.closed = true;
                return connection;
            }
        };
        let (next, asked) = session.step(event);
        session = next;
        action = asked.unwrap();
    }
    panic!("the session did not end");
}

#[test]
fn success_on_the_first_call_is_relayed_once() {
    let connection =
        connect(&["{\"action\":\"check\",\"data\":\"x\"}"], |_| "{\"flag\":\"success\",\"id\":7}");
    assert_eq!(connection.calls, 1);
    assert_eq!(connection.pings, 1);
    assert_eq!(
        connection.sent,
        vec![
            "{\"message\":\"Received success response: Object {\\\"flag\\\": String(\\\"success\\\"), \\\"id\\\": Number(7)}\"}"
                .to_string()
        ]
    );
    let relayed = serde_json::from_str::<serde_json::Value>(&connection.sent[0]).unwrap();
    let message = relayed.get("message").unwrap().as_str().unwrap();
    assert!(message.starts_with("Received success response: "));
    assert!(message.contains("\"id\": Number(7)"));
    assert_eq!(connection.clock, 0);
    assert!(connection.closed);
}

#[test]
fn upstream_that_stays_pending_ends_the_connection() {
    let connection = connect(
        &["{\"action\":\"check\",\"data\":\"x\"}", "{\"action\":\"again\",\"data\":\"y\"}"],
        |_| "{\"flag\":\"pending\"}",
    );
    assert_eq!(connection.calls, 36);
    assert_eq!(connection.pings, 36);
    assert_eq!(connection.clock, 180 * SECOND);
    assert!(connection.sent.is_empty());
    assert!(connection.closed);
    assert_eq!(connection.unread, 1);
}

#[test]
fn plain_text_starts_no_poll() {
    let silent = connect(&["just some words"], |_| "{\"flag\":\"success\"}");
    assert_eq!(silent.calls, 0);
    assert_eq!(silent.pings, 0);
    assert!(silent.sent.is_empty());
    assert_eq!(silent.unread, 0);

    let served = connect(
        &["just some words", "{\"action\":\"check\",\"data\":\"x\"}"],
        |_| "{\"flag\":\"success\"}",
    );
    assert_eq!(served.calls, 1);
    assert_eq!(served.pings, 1);
    assert_eq!(served.sent.len(), 1);
}

#[test]
fn plain_text_leaves_the_connection_open() {
    let (session, _) = Session::open();
    let (session, action) = session.step(SessionEvent::from_text("just some words"));
    assert_eq!(action, Some(SessionAction::Receive));
    assert!(!session.is_closed());
}

#[test]
fn success_on_the_third_call_is_relayed_once() {
    let connection = connect(&["{\"action\":\"check\",\"data\":\"x\"}"], |call| {
        if call == 3 {
            "{\"flag\":\"success\",\"id\":7}"
        } else {
            "{\"flag\":\"pending\"}"
        }
    });
    assert_eq!(connection.calls, 3);
    assert_eq!(connection.pings, 3);
    assert_eq!(connection.clock, 10 * SECOND);
    assert_eq!(connection.sent.len(), 1);
}

#[test]
fn two_requests_are_served_on_one_connection() {
    let connection = connect(
        &["{\"action\":\"one\",\"data\":\"x\"}", "noise", "{\"action\":\"two\",\"data\":\"y\"}"],
        |call| if call % 2 == 0 { "{\"flag\":\"success\"}" } else { "{}" },
    );
    assert_eq!(connection.calls, 4);
    assert_eq!(connection.pings, 4);
    assert_eq!(connection.sent.len(), 2);
    assert_eq!(connection.sent[0], connection.sent[1]);
    assert_eq!(connection.clock, 10 * SECOND);
    assert!(connection.closed);
}

#[test]
fn request_content_does_not_matter() {
    let one = connect(&["{\"action\":\"check\",\"data\":\"x\"}"], |_| "{\"flag\":\"success\"}");
    let other = connect(&["{\"action\":\"\",\"data\":\"anything else\"}"], |_| "{\"flag\":\"success\"}");
    assert_eq!(one.sent, other.sent);
    assert_eq!(one.calls, other.calls);
}
