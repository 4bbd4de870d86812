//! Message types exchanged over the WebSocket wire.
//!
//! A client sends chat messages, paid "superchat" messages, and history
//! requests.  The server answers with broadcast echoes, history data and
//! structured errors.  Coin amounts are carried as a fixed-point number
//! of nano-units (one coin is `1_000_000_000` nano-units), so that the
//! wire decimal can be represented and reasoned about exactly.

use vstd::prelude::*;

verus! {

/// Nano-units per whole coin.
pub const NANOS_PER_COIN: u64 = 1_000_000_000;

/// The kind of a wire message.
#[derive(Clone, Copy, PartialEq, Eq, Structural, Debug)]
pub enum MessageType {
    /// A plain chat message.
    Chat,
    /// A paid chat message.
    Superchat,
    /// A liveness probe.
    Ping,
    /// The answer to a liveness probe.
    Pong,
    /// A structured error sent to one client.
    Error,
    /// A connection-state update.
    ConnectionStatus,
    /// The connection has been closed.
    Disconnected,
}

/// The payment data attached to a superchat.
pub struct SuperchatData {
    /// The paid amount, in nano-units of the coin.
    pub amount_nanos: u64,
    /// The coin's symbol, e.g. `SUI`.
    pub coin: String,
    /// The transaction hash of the payment.
    pub tx_hash: String,
    /// The payer's wallet address.
    pub wallet_address: String,
}

/// A plain chat message.
pub struct ChatMessage {
    /// Always [`MessageType::Chat`] on the wire.
    pub message_type: MessageType,
    /// Client-generated unique id.
    pub id: String,
    /// The sender's display name.
    pub display_name: String,
    /// The message body.
    pub content: String,
    /// Unix-millisecond timestamp, if the client supplied one.
    pub timestamp: Option<i64>,
}

/// A paid chat message.
pub struct SuperchatMessage {
    /// Always [`MessageType::Superchat`] on the wire.
    pub message_type: MessageType,
    /// Client-generated unique id.
    pub id: String,
    /// The sender's display name.
    pub display_name: String,
    /// The message body.
    pub content: String,
    /// The payment data.
    pub superchat: SuperchatData,
    /// Unix-millisecond timestamp, if the client supplied one.
    pub timestamp: Option<i64>,
}

/// Fields shared by every wire message.
pub struct BaseMessage {
    /// The kind of the message.
    pub message_type: MessageType,
    /// Timestamp text, if any.
    pub timestamp: Option<String>,
}

/// A message received from a client, discriminated on its `type` field.
pub enum ClientMessage {
    /// A paid chat message.
    Superchat(SuperchatMessage),
    /// A plain chat message.
    Chat(ChatMessage),
    /// A request for older messages of the current session.
    GetHistory {
        /// At most this many messages are wanted.
        limit: Option<i64>,
        /// Only messages older than this Unix-millisecond stamp.
        before_timestamp: Option<i64>,
    },
}

/// A structured response sent to a single client.
pub struct ServerResponse {
    /// The kind of the response.
    pub message_type: MessageType,
    /// Human-readable text.
    pub message: String,
    /// RFC 3339 timestamp text.
    pub timestamp: String,
}

/// The greeting sent to a client whose connection was accepted.
pub struct ConnectionResponse {
    /// Whether the connection was accepted.
    pub success: bool,
    /// The id assigned to the client.
    pub client_id: String,
    /// Human-readable text.
    pub message: String,
}

/// Ghost image of [`SuperchatData`].
pub struct SuperchatDataView {
    /// The paid amount in nano-units.
    pub amount_nanos: u64,
    /// The coin symbol.
    pub coin: Seq<char>,
    /// The transaction hash.
    pub tx_hash: Seq<char>,
    /// The payer's wallet address.
    pub wallet_address: Seq<char>,
}

/// Ghost image of [`ChatMessage`].
pub struct ChatMessageView {
    /// The kind of the message.
    pub message_type: MessageType,
    /// The client-generated id.
    pub id: Seq<char>,
    /// The sender's display name.
    pub display_name: Seq<char>,
    /// The message body.
    pub content: Seq<char>,
    /// The client-supplied timestamp.
    pub timestamp: Option<i64>,
}

/// Ghost image of [`SuperchatMessage`].
pub struct SuperchatMessageView {
    /// The kind of the message.
    pub message_type: MessageType,
    /// The client-generated id.
    pub id: Seq<char>,
    /// The sender's display name.
    pub display_name: Seq<char>,
    /// The message body.
    pub content: Seq<char>,
    /// The payment data.
    pub superchat: SuperchatDataView,
    /// The client-supplied timestamp.
    pub timestamp: Option<i64>,
}

/// Ghost image of [`ClientMessage`].
pub enum ClientMessageView {
    /// A paid chat message.
    Superchat(SuperchatMessageView),
    /// A plain chat message.
    Chat(ChatMessageView),
    /// A history request.
    GetHistory {
        /// At most this many messages are wanted.
        limit: Option<i64>,
        /// Only messages older than this stamp.
        before_timestamp: Option<i64>,
    },
}

impl View for SuperchatData {
    type V = SuperchatDataView;

    open spec fn view(&self) -> SuperchatDataView {
        SuperchatDataView {
            amount_nanos: self.amount_nanos,
            coin: self.coin@,
            tx_hash: self.tx_hash@,
            wallet_address: self.wallet_address@,
        }
    }
}

impl View for ChatMessage {
    type V = ChatMessageView;

    open spec fn view(&self) -> ChatMessageView {
        ChatMessageView {
            message_type: self.message_type,
            id: self.id@,
            display_name: self.display_name@,
            content: self.content@,
            timestamp: self.timestamp,
        }
    }
}

impl View for SuperchatMessage {
    type V = SuperchatMessageView;

    open spec fn view(&self) -> SuperchatMessageView {
        SuperchatMessageView {
            message_type: self.message_type,
            id: self.id@,
            display_name: self.display_name@,
            content: self.content@,
            superchat: self.superchat@,
            timestamp: self.timestamp,
        }
    }
}

impl View for ClientMessage {
    type V = ClientMessageView;

    open spec fn view(&self) -> ClientMessageView {
        match self {
            ClientMessage::Superchat(m) => ClientMessageView::Superchat(m@),
            ClientMessage::Chat(m) => ClientMessageView::Chat(m@),
            ClientMessage::GetHistory { limit, before_timestamp } => ClientMessageView::GetHistory {
                limit: *limit,
                before_timestamp: *before_timestamp,
            },
        }
    }
}

/// The payment data of a superchat is valid: a positive amount and
/// non-empty coin, transaction hash and wallet address.
pub open spec fn valid_superchat_data(d: SuperchatDataView) -> bool {
    &&& d.amount_nanos > 0
    &&& d.coin.len() > 0
    &&& d.tx_hash.len() > 0
    &&& d.wallet_address.len() > 0
}

} // verus!
