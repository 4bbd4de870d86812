//! Session protocol tests: admission, dispatch, heartbeat, closing.

use futures_channel::mpsc::{unbounded, UnboundedReceiver};
use suiperchat_core::messages::{ChatMessage, ClientMessage, MessageType};
use suiperchat_core::encode::serialize_chat_message;
use suiperchat_core::decode::parse_client_message;
use suiperchat_core::registry::{ClientInfo, ConnectionManager, get_connections_count};
use suiperchat_core::session::{HeartbeatAction, SessionState, WsFrame, WsSession};

const NOW_MS: i64 = 1_700_000_000_000;
const NOW_RFC: &str = "2023-11-14T22:13:20Z";

fn client(id: &str) -> ClientInfo {
    ClientInfo::new(id.to_string(), "127.0.0.1".to_string(), NOW_RFC.to_string())
}

fn active_session(mgr: &mut ConnectionManager, id: &str) -> (WsSession, UnboundedReceiver<String>) {
    let (tx, rx) = unbounded::<String>();
    let mut s = WsSession::new();
    s.set_session_id(Some("session-1".to_string()));
    let reply = s.started(mgr, client(id), tx, NOW_MS, NOW_RFC);
    assert!(reply.is_none());
    assert_eq!(s.state, SessionState::Active);
    (s, rx)
}

#[test]
fn admission_rejection_sends_error_and_closes() {
    let mut mgr = ConnectionManager::new(1);
    let (mut s1, _rx1) = active_session(&mut mgr, "a");
    let _ = &mut s1;

    let (tx, _rx) = unbounded::<String>();
    let mut s2 = WsSession::new();
    let reply = s2.started(&mut mgr, client("b"), tx, NOW_MS, NOW_RFC);
    let text = reply.expect("a rejected client gets a message");
    assert!(text.contains("Maximum connections reached. Try again later."));
    assert_eq!(s2.state, SessionState::Closed);
    assert_eq!(get_connections_count(&mgr), 1);
}

#[test]
fn chat_frame_round_trips_through_the_protocol() {
    let mut mgr = ConnectionManager::new(10);
    let (mut sender_session, mut sender_rx) = active_session(&mut mgr, "sender");
    let (_other_session, mut other_rx) = active_session(&mut mgr, "other");

    let original = ChatMessage {
        message_type: MessageType::Chat,
        id: "msg-1".to_string(),
        display_name: "Alice".to_string(),
        content: "hello viewers".to_string(),
        timestamp: None,
    };
    let frame = WsFrame::Text(serialize_chat_message(&original));
    let outcome = sender_session.handle(&mut mgr, frame, NOW_MS, NOW_RFC);

    // exactly one delivery attempt per registered client
    assert_eq!(outcome.broadcast_attempts, Some(2));
    assert!(outcome.reply.is_none());
    assert!(!outcome.closed);

    // the persisted record carries the server timestamp and session
    let record = outcome.persist.expect("chat messages are persisted");
    assert_eq!(record.id, "msg-1");
    assert_eq!(record.timestamp, NOW_MS);
    assert_eq!(record.session_id, Some("session-1".to_string()));
    assert_eq!(record.amount_nanos, None);

    // both clients received the broadcast; parsing it back yields the
    // same id, display name and content, with the server-assigned time
    let payload = sender_rx.try_next().unwrap().expect("the sender hears its own message");
    assert_eq!(other_rx.try_next().unwrap(), Some(payload.clone()));
    match parse_client_message(&payload).expect("the broadcast payload parses") {
        ClientMessage::Chat(echo) => {
            assert_eq!(echo.id, original.id);
            assert_eq!(echo.display_name, original.display_name);
            assert_eq!(echo.content, original.content);
            assert_eq!(echo.timestamp, Some(NOW_MS));
        },
        _ => panic!("the broadcast payload is not a chat message"),
    }

    // the sender's registry record counted the message
    let info = mgr.get_client("sender").unwrap();
    assert_eq!(info.messages_sent, 1);
}

#[test]
fn malformed_text_keeps_the_session_open() {
    let mut mgr = ConnectionManager::new(10);
    let (mut s, _rx) = active_session(&mut mgr, "a");
    let outcome = s.handle(&mut mgr, WsFrame::Text("{broken".to_string()), NOW_MS, NOW_RFC);
    let reply = outcome.reply.expect("a malformed frame draws an error reply");
    assert!(reply.contains("Invalid message format"));
    assert!(!outcome.closed);
    assert_eq!(s.state, SessionState::Active);
    assert_eq!(get_connections_count(&mgr), 1);
}

#[test]
fn binary_frames_close_the_session() {
    let mut mgr = ConnectionManager::new(10);
    let (mut s, _rx) = active_session(&mut mgr, "a");
    let outcome = s.handle(&mut mgr, WsFrame::Binary, NOW_MS, NOW_RFC);
    assert!(outcome.reply.expect("unsupported framing is reported").contains("not supported"));
    assert!(outcome.closed);
    assert_eq!(s.state, SessionState::Closed);
    assert_eq!(get_connections_count(&mgr), 0);
}

#[test]
fn heartbeat_timeout_drops_the_client() {
    let mut mgr = ConnectionManager::new(10);
    let (mut s, _rx) = active_session(&mut mgr, "a");

    // inside the window a ping is owed
    assert_eq!(s.hb(&mut mgr, NOW_MS + 9_000), HeartbeatAction::Ping);
    assert_eq!(s.state, SessionState::Active);

    // a pong refreshes the stamp
    let _ = s.handle(&mut mgr, WsFrame::Pong, NOW_MS + 9_000, NOW_RFC);

    // silence past the timeout disconnects and deregisters
    assert_eq!(s.hb(&mut mgr, NOW_MS + 9_000 + 10_001), HeartbeatAction::Disconnect);
    assert_eq!(s.state, SessionState::Closed);
    assert_eq!(get_connections_count(&mgr), 0);
}

#[test]
fn close_frame_removes_the_client_exactly_once() {
    let mut mgr = ConnectionManager::new(10);
    let (mut s, _rx) = active_session(&mut mgr, "a");
    let outcome = s.handle(&mut mgr, WsFrame::Close, NOW_MS, NOW_RFC);
    assert!(outcome.closed);
    assert_eq!(get_connections_count(&mgr), 0);
    // winding down an already-closed session touches nothing
    s.stopped(&mut mgr);
    assert_eq!(get_connections_count(&mgr), 0);
}

#[test]
fn history_request_is_clamped_and_scoped_to_the_session() {
    let mut mgr = ConnectionManager::new(10);
    let (mut s, _rx) = active_session(&mut mgr, "a");

    let outcome = s.handle(
        &mut mgr,
        WsFrame::Text("{\"type\":\"GET_HISTORY\"}".to_string()),
        NOW_MS,
        NOW_RFC,
    );
    let q = outcome.history.expect("a history request yields a query");
    assert_eq!(q.session_id, "session-1");
    assert_eq!(q.limit, 50);
    assert_eq!(q.before_timestamp, None);

    let outcome = s.handle(
        &mut mgr,
        WsFrame::Text(
            "{\"type\":\"GET_HISTORY\",\"limit\":2000,\"before_timestamp\":5}".to_string(),
        ),
        NOW_MS,
        NOW_RFC,
    );
    let q = outcome.history.expect("a history request yields a query");
    assert_eq!(q.limit, 1000);
    assert_eq!(q.before_timestamp, Some(5));
}

#[test]
fn history_without_a_session_is_refused() {
    let mut mgr = ConnectionManager::new(10);
    let (tx, _rx) = unbounded::<String>();
    let mut s = WsSession::new();
    let reply = s.started(&mut mgr, client("a"), tx, NOW_MS, NOW_RFC);
    assert!(reply.is_none());
    let outcome = s.handle(
        &mut mgr,
        WsFrame::Text("{\"type\":\"GET_HISTORY\"}".to_string()),
        NOW_MS,
        NOW_RFC,
    );
    assert!(outcome.history.is_none());
    assert!(outcome.reply.expect("the refusal is reported").contains("No active session"));
}
