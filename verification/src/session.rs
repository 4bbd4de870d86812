//! The per-connection session protocol.
//!
//! One `WsSession` accompanies each WebSocket connection through its
//! states: admission on connect, heartbeat supervision, frame
//! dispatch while active, and removal from the registry on close.
//! The session itself performs no I/O: the caller reads frames, hands
//! them in together with the current time, and carries out the
//! returned outcome (texts to send, a record to persist, a history
//! query to answer).

use vstd::prelude::*;
use crate::registry::{ConnectionManager, ClientInfo};
use crate::messages::{MessageType, ChatMessage, SuperchatMessage, ClientMessage, ChatMessageView,
    SuperchatMessageView, ClientMessageView};
use crate::decode::{parse_client_message, parse_client_message_spec};
use crate::encode::{serialize_chat_message, serialize_superchat_message, serialize_error};
use crate::history::{Message, MessageView, effective_limit, spec_effective_limit};
use crate::wire::{chat_wire, superchat_wire, error_wire};

verus! {

/// How often the heartbeat timer fires, in milliseconds.
pub const HEARTBEAT_INTERVAL_MS: i64 = 5_000;

/// How long a client may stay silent before it is dropped, in
/// milliseconds.
pub const CLIENT_TIMEOUT_MS: i64 = 10_000;

/// Where a session stands in its life.
#[derive(Clone, Copy, PartialEq, Eq, Structural, Debug)]
pub enum SessionState {
    /// The socket is open but the client is not admitted yet.
    Connecting,
    /// The client is admitted and frames are being handled.
    Active,
    /// The session is shutting down.
    Closing,
    /// The session is over and the client deregistered.
    Closed,
}

/// One frame or condition coming in from the transport.
pub enum WsFrame {
    /// A text frame.
    Text(String),
    /// A binary frame, which the protocol does not support.
    Binary,
    /// A liveness probe from the client.
    Ping,
    /// The client's answer to a probe.
    Pong,
    /// The client closed the connection.
    Close,
    /// A continuation frame, which the protocol does not support.
    Continuation,
    /// An empty frame.
    Nop,
    /// The transport reported a protocol error.
    ProtocolError,
}

/// A history request the storage adapter is asked to answer with up to
/// `limit + 1` rows, newest first.
pub struct HistoryQuery {
    /// The session whose messages are wanted.
    pub session_id: String,
    /// The clamped number of rows the client asked for.
    pub limit: i64,
    /// Only rows older than this stamp, if given.
    pub before_timestamp: Option<i64>,
}

/// What handling one frame asks the caller to do.
pub struct FrameOutcome {
    /// A text to send to this client alone.
    pub reply: Option<String>,
    /// Answer the client's ping with a pong.
    pub pong: bool,
    /// The payload that was broadcast, if any.
    pub broadcast_payload: Option<String>,
    /// How many delivery attempts the broadcast made.
    pub broadcast_attempts: Option<usize>,
    /// A record to hand to the persistence adapter, fire-and-forget.
    pub persist: Option<Message>,
    /// A history query to answer with [`crate::history::paginate`].
    pub history: Option<HistoryQuery>,
    /// The session ended with this frame.
    pub closed: bool,
}

/// What the heartbeat timer decided.
#[derive(Clone, Copy, PartialEq, Eq, Structural, Debug)]
pub enum HeartbeatAction {
    /// The client is live: send a ping.
    Ping,
    /// The client has been silent too long: it was dropped.
    Disconnect,
}

/// The state accompanying one WebSocket connection.
pub struct WsSession {
    /// Where the session stands.
    pub state: SessionState,
    /// The id under which the client is registered, once admitted.
    pub client_id: Option<String>,
    /// When the client last showed liveness, in Unix milliseconds.
    pub last_heartbeat_ms: i64,
    /// The stream session messages are filed under.
    pub current_session_id: Option<String>,
}

/// The broadcast form of a chat message: the client's timestamp, or
/// the server's when the client sent none.
pub open spec fn with_default_ts(m: ChatMessageView, now_ms: i64) -> ChatMessageView {
    ChatMessageView {
        timestamp: Some(
            match m.timestamp {
                Some(t) => t,
                None => now_ms,
            },
        ),
        ..m
    }
}

/// The broadcast form of a superchat message.
pub open spec fn with_default_ts_sc(m: SuperchatMessageView, now_ms: i64) -> SuperchatMessageView {
    SuperchatMessageView {
        timestamp: Some(
            match m.timestamp {
                Some(t) => t,
                None => now_ms,
            },
        ),
        ..m
    }
}

/// The persisted record of a chat message: the server assigns the
/// timestamp and files the message under the current stream session.
pub open spec fn chat_record(
    m: ChatMessageView,
    now_ms: i64,
    session: Option<Seq<char>>,
) -> MessageView {
    MessageView {
        id: m.id,
        timestamp: now_ms,
        display_name: m.display_name,
        content: m.content,
        amount_nanos: None,
        coin: None,
        tx_hash: None,
        wallet_address: None,
        session_id: session,
    }
}

/// The persisted record of a superchat message.
pub open spec fn superchat_record(
    m: SuperchatMessageView,
    now_ms: i64,
    session: Option<Seq<char>>,
) -> MessageView {
    MessageView {
        id: m.id,
        timestamp: now_ms,
        display_name: m.display_name,
        content: m.content,
        amount_nanos: Some(m.superchat.amount_nanos),
        coin: Some(m.superchat.coin),
        tx_hash: Some(m.superchat.tx_hash),
        wallet_address: Some(m.superchat.wallet_address),
        session_id: session,
    }
}

/// The ghost image of an optional owned string.
pub open spec fn opt_view(o: Option<String>) -> Option<Seq<char>> {
    match o {
        Some(s) => Some(s@),
        None => None,
    }
}

/// An outcome that asks the caller to do nothing.
pub open spec fn is_quiet(r: FrameOutcome) -> bool {
    &&& r.reply is None
    &&& r.pong == false
    &&& r.broadcast_payload is None
    &&& r.broadcast_attempts is None
    &&& r.persist is None
    &&& r.history is None
    &&& r.closed == false
}

/// An outcome whose only effect is a reply to this client.
pub open spec fn is_reply_only(r: FrameOutcome, text: Seq<char>) -> bool {
    &&& r.reply matches Some(e) && e@ == text
    &&& r.pong == false
    &&& r.broadcast_payload is None
    &&& r.broadcast_attempts is None
    &&& r.persist is None
    &&& r.history is None
    &&& r.closed == false
}

fn outcome_none() -> (r: FrameOutcome)
    ensures
        is_quiet(r),
{
    FrameOutcome {
        reply: None,
        pong: false,
        broadcast_payload: None,
        broadcast_attempts: None,
        persist: None,
        history: None,
        closed: false,
    }
}

impl WsSession {
    /// A fresh session for a connection that just opened.
    pub fn new() -> (r: WsSession)
        ensures
            r.state == SessionState::Connecting,
            r.client_id is None,
            r.current_session_id is None,
            r.last_heartbeat_ms == 0,
    {
        WsSession {
            state: SessionState::Connecting,
            client_id: None,
            last_heartbeat_ms: 0,
            current_session_id: None,
        }
    }

    /// File this connection's messages under the given stream session.
    pub fn set_session_id(&mut self, session_id: Option<String>)
        ensures
            final(self).state == old(self).state,
            final(self).client_id == old(self).client_id,
            final(self).last_heartbeat_ms == old(self).last_heartbeat_ms,
            opt_view(final(self).current_session_id) == opt_view(session_id),
    {
        self.current_session_id = session_id;
    }

    /// The structured error text sent to this client.
    pub fn create_error_response(&self, error_message: &str, now_rfc: &str) -> (r: String)
        ensures
            r@ == error_wire(error_message@, now_rfc@),
    {
        serialize_error(error_message, now_rfc)
    }

    /// Try to admit the client.  On success the session turns active
    /// and the client is registered; on rejection (the registry is
    /// full) the session sends a rejection message and closes, with
    /// the registry untouched.
    pub fn started(
        &mut self,
        mgr: &mut ConnectionManager,
        client_info: ClientInfo,
        sender: futures_channel::mpsc::UnboundedSender<String>,
        now_ms: i64,
        now_rfc: &str,
    ) -> (r: Option<String>)
        requires
            old(self).state == SessionState::Connecting,
            old(mgr).wf(),
        ensures
            final(mgr).wf(),
            final(mgr).spec_max() == old(mgr).spec_max(),
            final(self).current_session_id == old(self).current_session_id,
            ({
                let admitted = old(mgr).spec_active() < old(mgr).spec_max() && !old(mgr).spec_contains_id(client_info.id@);
                if admitted {
                    &&& r is None
                    &&& final(self).state == SessionState::Active
                    &&& opt_view(final(self).client_id) == Some(client_info.id@)
                    &&& final(self).last_heartbeat_ms == now_ms
                    &&& final(mgr).spec_active() == old(mgr).spec_active() + 1
                    &&& final(mgr).spec_contains_id(client_info.id@)
                } else {
                    &&& r matches Some(e) && e@ == error_wire(
                        "Maximum connections reached. Try again later."@,
                        now_rfc@,
                    )
                    &&& final(self).state == SessionState::Closed
                    &&& *final(mgr) == *old(mgr)
                }
            }),
    {
        let id_copy = client_info.id.clone();
        let admitted = mgr.add_client(client_info, sender);
        if admitted {
            proof {
                let entries = mgr.spec_clients();
                assert(entries[entries.len() - 1].client_info.id@ == id_copy@);
            }
            self.state = SessionState::Active;
            self.client_id = Some(id_copy);
            self.last_heartbeat_ms = now_ms;
            None
        } else {
            self.state = SessionState::Closed;
            Some(self.create_error_response("Maximum connections reached. Try again later.", now_rfc))
        }
    }

    /// Deregister the client and close the session.
    fn close_and_remove(&mut self, mgr: &mut ConnectionManager)
        requires
            old(mgr).wf(),
            old(self).client_id is Some,
        ensures
            final(mgr).wf(),
            ConnectionManager::removed_one(*old(mgr), *final(mgr), old(self).client_id->Some_0@),
            final(self).state == SessionState::Closed,
            final(self).client_id == old(self).client_id,
            final(self).current_session_id == old(self).current_session_id,
            final(self).last_heartbeat_ms == old(self).last_heartbeat_ms,
    {
        match &self.client_id {
            Some(id) => {
                mgr.remove_client(id.as_str());
            },
            None => {},
        }
        self.state = SessionState::Closed;
    }

    /// The heartbeat timer fired.  A client silent for longer than the
    /// timeout is dropped from the registry and the session closes;
    /// otherwise a ping is owed.
    pub fn hb(&mut self, mgr: &mut ConnectionManager, now_ms: i64) -> (r: HeartbeatAction)
        requires
            old(self).state == SessionState::Active,
            old(self).client_id is Some,
            old(mgr).wf(),
            0 <= old(self).last_heartbeat_ms <= now_ms,
        ensures
            final(mgr).wf(),
            if now_ms - old(self).last_heartbeat_ms > CLIENT_TIMEOUT_MS {
                &&& r == HeartbeatAction::Disconnect
                &&& final(self).state == SessionState::Closed
                &&& ConnectionManager::removed_one(
                    *old(mgr),
                    *final(mgr),
                    old(self).client_id->Some_0@,
                )
            } else {
                &&& r == HeartbeatAction::Ping
                &&& *final(self) == *old(self)
                &&& *final(mgr) == *old(mgr)
            },
    {
        if now_ms - self.last_heartbeat_ms > CLIENT_TIMEOUT_MS {
            self.close_and_remove(mgr);
            HeartbeatAction::Disconnect
        } else {
            HeartbeatAction::Ping
        }
    }

    /// Persist, count and broadcast one chat message.
    fn handle_chat(
        &mut self,
        mgr: &mut ConnectionManager,
        m: ChatMessage,
        now_ms: i64,
        now_rfc: &str,
    ) -> (r: FrameOutcome)
        requires
            old(self).state == SessionState::Active,
            old(self).client_id is Some,
            old(mgr).wf(),
        ensures
            final(mgr).wf(),
            *final(self) == *old(self),
            ConnectionManager::updated_one(
                *old(mgr),
                *final(mgr),
                old(self).client_id->Some_0@,
                now_rfc@,
            ),
            r.broadcast_payload matches Some(p) && p@ == chat_wire(with_default_ts(m@, now_ms)),
            r.broadcast_attempts == Some(final(mgr).spec_clients().len() as usize),
            final(mgr).spec_clients().len() == old(mgr).spec_clients().len(),
            r.persist matches Some(rec) && rec@ == chat_record(
                m@,
                now_ms,
                opt_view(old(self).current_session_id),
            ),
            r.reply is None,
            r.pong == false,
            r.history is None,
            r.closed == false,
    {
        let session_clone = match &self.current_session_id {
            Some(s) => Some(s.clone()),
            None => None,
        };
        let record = Message {
            id: m.id.clone(),
            timestamp: now_ms,
            display_name: m.display_name.clone(),
            content: m.content.clone(),
            amount_nanos: None,
            coin: None,
            tx_hash: None,
            wallet_address: None,
            session_id: session_clone,
        };
        match &self.client_id {
            Some(id) => {
                mgr.update_client(id.as_str(), now_rfc);
            },
            None => {},
        }
        let ts = match m.timestamp {
            Some(t) => t,
            None => now_ms,
        };
        let out_msg = ChatMessage {
            message_type: m.message_type,
            id: m.id,
            display_name: m.display_name,
            content: m.content,
            timestamp: Some(ts),
        };
        let payload = serialize_chat_message(&out_msg);
        let attempts = mgr.broadcast(payload.as_str());
        FrameOutcome {
            reply: None,
            pong: false,
            broadcast_payload: Some(payload),
            broadcast_attempts: Some(attempts),
            persist: Some(record),
            history: None,
            closed: false,
        }
    }

    /// Persist, count and broadcast one superchat message.
    fn handle_superchat(
        &mut self,
        mgr: &mut ConnectionManager,
        m: SuperchatMessage,
        now_ms: i64,
        now_rfc: &str,
    ) -> (r: FrameOutcome)
        requires
            old(self).state == SessionState::Active,
            old(self).client_id is Some,
            old(mgr).wf(),
        ensures
            final(mgr).wf(),
            *final(self) == *old(self),
            ConnectionManager::updated_one(
                *old(mgr),
                *final(mgr),
                old(self).client_id->Some_0@,
                now_rfc@,
            ),
            r.broadcast_payload matches Some(p) && p@ == superchat_wire(
                with_default_ts_sc(m@, now_ms),
            ),
            r.broadcast_attempts == Some(final(mgr).spec_clients().len() as usize),
            final(mgr).spec_clients().len() == old(mgr).spec_clients().len(),
            r.persist matches Some(rec) && rec@ == superchat_record(
                m@,
                now_ms,
                opt_view(old(self).current_session_id),
            ),
            r.reply is None,
            r.pong == false,
            r.history is None,
            r.closed == false,
    {
        let session_clone = match &self.current_session_id {
            Some(s) => Some(s.clone()),
            None => None,
        };
        let record = Message {
            id: m.id.clone(),
            timestamp: now_ms,
            display_name: m.display_name.clone(),
            content: m.content.clone(),
            amount_nanos: Some(m.superchat.amount_nanos),
            coin: Some(m.superchat.coin.clone()),
            tx_hash: Some(m.superchat.tx_hash.clone()),
            wallet_address: Some(m.superchat.wallet_address.clone()),
            session_id: session_clone,
        };
        match &self.client_id {
            Some(id) => {
                mgr.update_client(id.as_str(), now_rfc);
            },
            None => {},
        }
        let ts = match m.timestamp {
            Some(t) => t,
            None => now_ms,
        };
        let out_msg = SuperchatMessage {
            message_type: m.message_type,
            id: m.id,
            display_name: m.display_name,
            content: m.content,
            superchat: m.superchat,
            timestamp: Some(ts),
        };
        let payload = serialize_superchat_message(&out_msg);
        let attempts = mgr.broadcast(payload.as_str());
        FrameOutcome {
            reply: None,
            pong: false,
            broadcast_payload: Some(payload),
            broadcast_attempts: Some(attempts),
            persist: Some(record),
            history: None,
            closed: false,
        }
    }

    /// Turn a history request into a query for the storage adapter,
    /// or refuse it when no stream session is current.
    fn handle_get_history(
        &self,
        limit: Option<i64>,
        before_timestamp: Option<i64>,
        now_rfc: &str,
    ) -> (r: FrameOutcome)
        ensures
            match self.current_session_id {
                Some(ref sid) => {
                    &&& r.history matches Some(q) && q.session_id@ == sid@ && q.limit
                        == spec_effective_limit(limit) && q.before_timestamp == before_timestamp
                    &&& r.reply is None
                    &&& r.pong == false
                    &&& r.broadcast_payload is None
                    &&& r.broadcast_attempts is None
                    &&& r.persist is None
                    &&& r.closed == false
                },
                None => is_reply_only(
                    r,
                    error_wire("No active session; history is unavailable"@, now_rfc@),
                ),
            },
    {
        match &self.current_session_id {
            Some(sid) => FrameOutcome {
                reply: None,
                pong: false,
                broadcast_payload: None,
                broadcast_attempts: None,
                persist: None,
                history: Some(
                    HistoryQuery {
                        session_id: sid.clone(),
                        limit: effective_limit(limit),
                        before_timestamp,
                    },
                ),
                closed: false,
            },
            None => FrameOutcome {
                reply: Some(
                    self.create_error_response("No active session; history is unavailable", now_rfc),
                ),
                pong: false,
                broadcast_payload: None,
                broadcast_attempts: None,
                persist: None,
                history: None,
                closed: false,
            },
        }
    }

    /// Handle one inbound frame while active.
    ///
    /// Liveness frames refresh the heartbeat stamp; a text frame is
    /// parsed and dispatched; a malformed text frame draws an error
    /// reply but keeps the session open; unsupported framing draws an
    /// error reply and closes the session; a close frame or transport
    /// error closes it.  Whenever the session closes, the client is
    /// removed from the registry.
    pub fn handle(
        &mut self,
        mgr: &mut ConnectionManager,
        frame: WsFrame,
        now_ms: i64,
        now_rfc: &str,
    ) -> (r: FrameOutcome)
        requires
            old(self).state == SessionState::Active,
            old(self).client_id is Some,
            old(mgr).wf(),
        ensures
            final(mgr).wf(),
            final(self).client_id == old(self).client_id,
            final(self).current_session_id == old(self).current_session_id,
            r.closed == (final(self).state == SessionState::Closed),
            match frame {
                WsFrame::Pong => is_quiet(r) && final(self).state == SessionState::Active && final(self).last_heartbeat_ms == now_ms && *final(mgr) == *old(mgr),
                WsFrame::Ping => r.pong == true && r.reply is None && r.broadcast_payload is None
                    && r.persist is None && r.history is None && r.closed == false && final(self).state == SessionState::Active && final(self).last_heartbeat_ms == now_ms && *final(mgr) == *old(mgr),
                WsFrame::Nop => is_quiet(r) && *final(self) == *old(self) && *final(mgr) == *old(mgr),
                WsFrame::Close => r.reply is None && r.closed == true && final(self).state
                    == SessionState::Closed && ConnectionManager::removed_one(
                    *old(mgr),
                    *final(mgr),
                    old(self).client_id->Some_0@,
                ),
                WsFrame::Binary => r.reply matches Some(e) && e@ == error_wire(
                    "Binary frames are not supported"@,
                    now_rfc@,
                ) && r.closed == true && ConnectionManager::removed_one(
                    *old(mgr),
                    *final(mgr),
                    old(self).client_id->Some_0@,
                ),
                WsFrame::Continuation => r.reply matches Some(e) && e@ == error_wire(
                    "Continuation frames are not supported"@,
                    now_rfc@,
                ) && r.closed == true && ConnectionManager::removed_one(
                    *old(mgr),
                    *final(mgr),
                    old(self).client_id->Some_0@,
                ),
                WsFrame::ProtocolError => r.reply matches Some(e) && e@ == error_wire(
                    "WebSocket protocol error"@,
                    now_rfc@,
                ) && r.closed == true && ConnectionManager::removed_one(
                    *old(mgr),
                    *final(mgr),
                    old(self).client_id->Some_0@,
                ),
                WsFrame::Text(ref t) => final(self).last_heartbeat_ms == now_ms && match parse_client_message_spec(
                    t@,
                ) {
                    None => is_reply_only(r, error_wire("Invalid message format"@, now_rfc@))
                        && final(self).state == SessionState::Active && *final(mgr) == *old(mgr),
                    Some(v) => match v {
                        ClientMessageView::Chat(mv) => {
                            &&& final(self).state == SessionState::Active
                            &&& ConnectionManager::updated_one(
                                *old(mgr),
                                *final(mgr),
                                old(self).client_id->Some_0@,
                                now_rfc@,
                            )
                            &&& r.broadcast_payload matches Some(p) && p@ == chat_wire(
                                with_default_ts(mv, now_ms),
                            )
                            &&& r.broadcast_attempts == Some(
                                final(mgr).spec_clients().len() as usize,
                            )
                            &&& r.persist matches Some(rec) && rec@ == chat_record(
                                mv,
                                now_ms,
                                opt_view(old(self).current_session_id),
                            )
                            &&& r.reply is None && r.history is None && r.closed == false
                        },
                        ClientMessageView::Superchat(mv) => {
                            &&& final(self).state == SessionState::Active
                            &&& ConnectionManager::updated_one(
                                *old(mgr),
                                *final(mgr),
                                old(self).client_id->Some_0@,
                                now_rfc@,
                            )
                            &&& r.broadcast_payload matches Some(p) && p@ == superchat_wire(
                                with_default_ts_sc(mv, now_ms),
                            )
                            &&& r.broadcast_attempts == Some(
                                final(mgr).spec_clients().len() as usize,
                            )
                            &&& r.persist matches Some(rec) && rec@ == superchat_record(
                                mv,
                                now_ms,
                                opt_view(old(self).current_session_id),
                            )
                            &&& r.reply is None && r.history is None && r.closed == false
                        },
                        ClientMessageView::GetHistory { limit, before_timestamp } => {
                            &&& final(self).state == SessionState::Active
                            &&& *final(mgr) == *old(mgr)
                            &&& match old(self).current_session_id {
                                Some(ref sid) => r.history matches Some(q) && q.session_id@ == sid@
                                    && q.limit == spec_effective_limit(limit)
                                    && q.before_timestamp == before_timestamp && r.reply is None
                                    && r.broadcast_payload is None && r.persist is None
                                    && r.closed == false,
                                None => is_reply_only(
                                    r,
                                    error_wire(
                                        "No active session; history is unavailable"@,
                                        now_rfc@,
                                    ),
                                ),
                            }
                        },
                    },
                },
            },
    {
        match frame {
            WsFrame::Pong => {
                self.last_heartbeat_ms = now_ms;
                outcome_none()
            },
            WsFrame::Ping => {
                self.last_heartbeat_ms = now_ms;
                let mut out = outcome_none();
                out.pong = true;
                out
            },
            WsFrame::Nop => outcome_none(),
            WsFrame::Close => {
                self.close_and_remove(mgr);
                let mut out = outcome_none();
                out.closed = true;
                out
            },
            WsFrame::Binary => {
                let e = self.create_error_response("Binary frames are not supported", now_rfc);
                self.close_and_remove(mgr);
                let mut out = outcome_none();
                out.reply = Some(e);
                out.closed = true;
                out
            },
            WsFrame::Continuation => {
                let e = self.create_error_response(
                    "Continuation frames are not supported",
                    now_rfc,
                );
                self.close_and_remove(mgr);
                let mut out = outcome_none();
                out.reply = Some(e);
                out.closed = true;
                out
            },
            WsFrame::ProtocolError => {
                let e = self.create_error_response("WebSocket protocol error", now_rfc);
                self.close_and_remove(mgr);
                let mut out = outcome_none();
                out.reply = Some(e);
                out.closed = true;
                out
            },
            WsFrame::Text(t) => {
                self.last_heartbeat_ms = now_ms;
                match parse_client_message(t.as_str()) {
                    Err(_) => {
                        let e = self.create_error_response("Invalid message format", now_rfc);
                        let mut out = outcome_none();
                        out.reply = Some(e);
                        out
                    },
                    Ok(ClientMessage::Chat(m)) => self.handle_chat(mgr, m, now_ms, now_rfc),
                    Ok(ClientMessage::Superchat(m)) => self.handle_superchat(
                        mgr,
                        m,
                        now_ms,
                        now_rfc,
                    ),
                    Ok(ClientMessage::GetHistory { limit, before_timestamp }) => {
                        self.handle_get_history(limit, before_timestamp, now_rfc)
                    },
                }
            },
        }
    }

    /// Remove the client when the session winds down, exactly once.  A
    /// session that already closed leaves the registry untouched.
    pub fn stopped(&mut self, mgr: &mut ConnectionManager)
        requires
            old(mgr).wf(),
        ensures
            final(mgr).wf(),
            final(self).state == SessionState::Closed,
            if old(self).state != SessionState::Closed && old(self).client_id is Some {
                ConnectionManager::removed_one(
                    *old(mgr),
                    *final(mgr),
                    old(self).client_id->Some_0@,
                )
            } else {
                *final(mgr) == *old(mgr)
            },
    {
        if !matches!(self.state, SessionState::Closed) {
            match &self.client_id {
                Some(id) => {
                    mgr.remove_client(id.as_str());
                },
                None => {},
            }
        }
        self.state = SessionState::Closed;
    }
}

} // verus!
