//! Persisted messages, stream sessions, and history pagination.
//!
//! The store hands back up to one row more than asked for; the extra
//! row only signals that older messages exist and is never returned.

use vstd::prelude::*;
use vstd::seq_lib::*;
use crate::messages::{MessageType, ChatMessage, SuperchatMessage, SuperchatData, ChatMessageView,
    SuperchatMessageView, SuperchatDataView};
use crate::wire::{chat_wire, superchat_wire};
use crate::encode::{serialize_chat_message, serialize_superchat_message};
use crate::strutil::chars_to_string;

verus! {

/// How many history rows are returned when the client names no limit.
pub const DEFAULT_HISTORY_LIMIT: i64 = 50;

/// The largest number of history rows one request may return.
pub const MAX_HISTORY_LIMIT: i64 = 1000;

/// A persisted chat or superchat message.
pub struct Message {
    /// The client-generated message id.
    pub id: String,
    /// Server-assigned Unix-millisecond timestamp.
    pub timestamp: i64,
    /// The sender's display name.
    pub display_name: String,
    /// The message body.
    pub content: String,
    /// The paid amount in nano-units, for a superchat.
    pub amount_nanos: Option<u64>,
    /// The coin symbol, for a superchat.
    pub coin: Option<String>,
    /// The transaction hash, for a superchat.
    pub tx_hash: Option<String>,
    /// The payer's wallet address, for a superchat.
    pub wallet_address: Option<String>,
    /// The stream session the message belongs to.
    pub session_id: Option<String>,
}

/// Ghost image of a persisted message.
pub struct MessageView {
    /// The client-generated message id.
    pub id: Seq<char>,
    /// Server-assigned Unix-millisecond timestamp.
    pub timestamp: i64,
    /// The sender's display name.
    pub display_name: Seq<char>,
    /// The message body.
    pub content: Seq<char>,
    /// The paid amount in nano-units, for a superchat.
    pub amount_nanos: Option<u64>,
    /// The coin symbol, for a superchat.
    pub coin: Option<Seq<char>>,
    /// The transaction hash, for a superchat.
    pub tx_hash: Option<Seq<char>>,
    /// The payer's wallet address, for a superchat.
    pub wallet_address: Option<Seq<char>>,
    /// The stream session the message belongs to.
    pub session_id: Option<Seq<char>>,
}

impl View for Message {
    type V = MessageView;

    open spec fn view(&self) -> MessageView {
        MessageView {
            id: self.id@,
            timestamp: self.timestamp,
            display_name: self.display_name@,
            content: self.content@,
            amount_nanos: self.amount_nanos,
            coin: match self.coin {
                Some(ref c) => Some(c@),
                None => None,
            },
            tx_hash: match self.tx_hash {
                Some(ref c) => Some(c@),
                None => None,
            },
            wallet_address: match self.wallet_address {
                Some(ref c) => Some(c@),
                None => None,
            },
            session_id: match self.session_id {
                Some(ref c) => Some(c@),
                None => None,
            },
        }
    }
}

/// One stream session: the span from one server start to its stop.
pub struct Session {
    /// The session's id.
    pub id: String,
    /// When the session started (RFC 3339 text).
    pub started_at: String,
    /// When the session ended, if it has (RFC 3339 text).
    pub ended_at: Option<String>,
    /// When the record was created (RFC 3339 text).
    pub created_at: String,
    /// When the record was last updated (RFC 3339 text).
    pub updated_at: String,
}

/// Session data shaped for external reporting.
pub struct SessionInfo {
    /// The session's id.
    pub id: String,
    /// When the session started (RFC 3339 text).
    pub started_at: String,
    /// When the session ended, if it has (RFC 3339 text).
    pub ended_at: Option<String>,
}

impl Session {
    /// The reporting view of this session.
    pub fn to_info(&self) -> (r: SessionInfo)
        ensures
            r.id@ == self.id@,
            r.started_at@ == self.started_at@,
            match (r.ended_at, self.ended_at) {
                (Some(a), Some(b)) => a@ == b@,
                (None, None) => true,
                _ => false,
            },
    {
        SessionInfo {
            id: self.id.clone(),
            started_at: self.started_at.clone(),
            ended_at: match self.ended_at {
                Some(ref e) => Some(e.clone()),
                None => None,
            },
        }
    }
}

/// The limit actually applied to a history request: the default when
/// none or a non-positive one was named, the cap when too large.
pub open spec fn spec_effective_limit(limit: Option<i64>) -> i64 {
    match limit {
        None => DEFAULT_HISTORY_LIMIT,
        Some(v) => if v <= 0 {
            DEFAULT_HISTORY_LIMIT
        } else if v > MAX_HISTORY_LIMIT {
            MAX_HISTORY_LIMIT
        } else {
            v
        },
    }
}

/// Clamp a requested history limit.
pub fn effective_limit(limit: Option<i64>) -> (r: i64)
    ensures
        r == spec_effective_limit(limit),
        1 <= r <= MAX_HISTORY_LIMIT,
{
    match limit {
        None => DEFAULT_HISTORY_LIMIT,
        Some(v) => {
            if v <= 0 {
                DEFAULT_HISTORY_LIMIT
            } else if v > MAX_HISTORY_LIMIT {
                MAX_HISTORY_LIMIT
            } else {
                v
            }
        },
    }
}

/// Clamp the parameters of a bulk fetch: a non-positive limit falls
/// back to one hundred, a limit over the cap to the cap, and a
/// negative offset to zero.
pub fn clamp_fetch_params(limit: i64, offset: i64) -> (r: (i64, i64))
    ensures
        r.0 == if limit <= 0 {
            100int
        } else if limit > MAX_HISTORY_LIMIT {
            MAX_HISTORY_LIMIT as int
        } else {
            limit as int
        },
        r.1 == if offset < 0 {
            0int
        } else {
            offset as int
        },
{
    let safe_limit = if limit <= 0 {
        100
    } else if limit > MAX_HISTORY_LIMIT {
        MAX_HISTORY_LIMIT
    } else {
        limit
    };
    let safe_offset = if offset < 0 {
        0
    } else {
        offset
    };
    (safe_limit, safe_offset)
}

/// Cut a newest-first row list down to one page.
///
/// `rows` holds up to `limit + 1` rows, newest first, as fetched from
/// the store.  Exactly the `limit` newest rows are kept and returned
/// oldest-first; the flag tells whether more rows exist beyond the
/// page, which is the case exactly when more than `limit` rows came
/// back.
pub fn paginate(rows: Vec<Message>, limit: usize) -> (r: (Vec<Message>, bool))
    ensures
        r.1 == (rows@.len() > limit),
        r.0@.len() == if rows@.len() > limit {
            limit as int
        } else {
            rows@.len() as int
        },
        forall|i: int| 0 <= i < r.0@.len() ==> #[trigger] r.0@[i] == rows@[r.0@.len() - 1 - i],
{
    let ghost rows0 = rows@;
    let mut rows = rows;
    let has_more = rows.len() > limit;
    proof {
        assert(rows0.subrange(0, rows0.len() as int) =~= rows0);
    }
    while rows.len() > limit
        invariant
            rows@.len() <= rows0.len(),
            rows@ == rows0.subrange(0, rows@.len() as int),
            rows@.len() >= limit || rows@ == rows0,
        decreases rows@.len(),
    {
        let ghost before = rows@;
        rows.pop();
        proof {
            assert(before.subrange(0, before.len() - 1) =~= rows0.subrange(
                0,
                before.len() - 1,
            ));
        }
    }
    let ghost kept = rows@;
    let mut out: Vec<Message> = Vec::new();
    proof {
        assert(kept.subrange(0, kept.len() as int) =~= kept);
    }
    loop
        invariant_except_break
            out@.len() + rows@.len() == kept.len(),
            rows@ == kept.subrange(0, rows@.len() as int),
            forall|i: int| 0 <= i < out@.len() ==> #[trigger] out@[i] == kept[kept.len() - 1 - i],
        ensures
            out@.len() == kept.len(),
            forall|i: int| 0 <= i < out@.len() ==> #[trigger] out@[i] == kept[kept.len() - 1 - i],
        decreases rows@.len(),
    {
        let n = rows.len();
        if n == 0 {
            break ;
        }
        match rows.pop() {
            Some(x) => {
                proof {
                    assert(kept.subrange(0, n as int).drop_last() =~= kept.subrange(0, n - 1));
                    assert(x == kept[n - 1]);
                }
                out.push(x);
            },
            None => {
                break ;
            },
        }
    }
    (out, has_more)
}

/// Whether a persisted message carries complete superchat data.
pub open spec fn is_paid(m: MessageView) -> bool {
    &&& m.amount_nanos matches Some(a) && a > 0
    &&& m.coin is Some
    &&& m.tx_hash is Some
    &&& m.wallet_address is Some
}

/// The broadcast-shaped view of a persisted message: a superchat when
/// its payment data is complete, a plain chat otherwise.
pub open spec fn persisted_item_wire(m: MessageView) -> Seq<char> {
    if is_paid(m) {
        superchat_wire(
            SuperchatMessageView {
                message_type: MessageType::Superchat,
                id: m.id,
                display_name: m.display_name,
                content: m.content,
                superchat: SuperchatDataView {
                    amount_nanos: m.amount_nanos->Some_0,
                    coin: m.coin->Some_0,
                    tx_hash: m.tx_hash->Some_0,
                    wallet_address: m.wallet_address->Some_0,
                },
                timestamp: Some(m.timestamp),
            },
        )
    } else {
        chat_wire(
            ChatMessageView {
                message_type: MessageType::Chat,
                id: m.id,
                display_name: m.display_name,
                content: m.content,
                timestamp: Some(m.timestamp),
            },
        )
    }
}

/// The items of a history answer after the first, each preceded by a
/// comma.
pub open spec fn history_items_rest(s: Seq<MessageView>) -> Seq<char>
    decreases s.len(),
{
    if s.len() == 0 {
        Seq::empty()
    } else {
        seq![','] + persisted_item_wire(s[0]) + history_items_rest(s.skip(1))
    }
}

/// The comma-separated items of a history answer.
pub open spec fn history_items(s: Seq<MessageView>) -> Seq<char> {
    if s.len() == 0 {
        Seq::empty()
    } else {
        persisted_item_wire(s[0]) + history_items_rest(s.skip(1))
    }
}

/// `{"type":"HISTORY_DATA","messages":[`
pub open spec fn lit_history_head() -> Seq<char> {
    seq!['{', '"', 't', 'y', 'p', 'e', '"', ':', '"', 'H', 'I', 'S', 'T', 'O', 'R', 'Y', '_', 'D',
        'A', 'T', 'A', '"', ',', '"', 'm', 'e', 's', 's', 'a', 'g', 'e', 's', '"', ':', '[']
}

/// `],"has_more":`
pub open spec fn lit_history_mid() -> Seq<char> {
    seq![']', ',', '"', 'h', 'a', 's', '_', 'm', 'o', 'r', 'e', '"', ':']
}

/// `true` or `false`.
pub open spec fn bool_wire(b: bool) -> Seq<char> {
    if b {
        seq!['t', 'r', 'u', 'e']
    } else {
        seq!['f', 'a', 'l', 's', 'e']
    }
}

/// The wire text of a history answer.
pub open spec fn history_wire(messages: Seq<MessageView>, has_more: bool) -> Seq<char> {
    lit_history_head() + history_items(messages) + lit_history_mid() + bool_wire(has_more) + seq![
        '}',
    ]
}

/// Appending one more item extends the comma-separated rest.
proof fn lemma_items_rest_push(s: Seq<MessageView>, x: MessageView)
    ensures
        history_items_rest(s.push(x)) == history_items_rest(s) + (seq![','] + persisted_item_wire(
            x,
        )),
    decreases s.len(),
{
    if s.len() == 0 {
        assert(s.push(x)[0] == x);
        assert(s.push(x).skip(1) =~= Seq::<MessageView>::empty());
        assert(history_items_rest(Seq::<MessageView>::empty()) == Seq::<char>::empty());
        assert(history_items_rest(s.push(x)) =~= seq![','] + persisted_item_wire(x));
        assert(history_items_rest(s) + (seq![','] + persisted_item_wire(x)) =~= seq![',']
            + persisted_item_wire(x));
    } else {
        assert(s.push(x)[0] == s[0]);
        assert(s.push(x).skip(1) =~= s.skip(1).push(x));
        lemma_items_rest_push(s.skip(1), x);
        assert(history_items_rest(s.push(x)) =~= history_items_rest(s) + (seq![',']
            + persisted_item_wire(x)));
    }
}

/// Encode one persisted message in broadcast shape.
fn serialize_persisted(m: &Message) -> (r: String)
    ensures
        r@ == persisted_item_wire(m@),
{
    let is_super: bool = match (&m.amount_nanos, &m.coin, &m.tx_hash, &m.wallet_address) {
        (Some(a), Some(_), Some(_), Some(_)) => *a > 0,
        _ => false,
    };
    if is_super {
        let sc = SuperchatMessage {
            message_type: MessageType::Superchat,
            id: m.id.clone(),
            display_name: m.display_name.clone(),
            content: m.content.clone(),
            superchat: SuperchatData {
                amount_nanos: match m.amount_nanos {
                    Some(a) => a,
                    None => 0,
                },
                coin: match m.coin {
                    Some(ref c) => c.clone(),
                    None => String::new(),
                },
                tx_hash: match m.tx_hash {
                    Some(ref c) => c.clone(),
                    None => String::new(),
                },
                wallet_address: match m.wallet_address {
                    Some(ref c) => c.clone(),
                    None => String::new(),
                },
            },
            timestamp: Some(m.timestamp),
        };
        serialize_superchat_message(&sc)
    } else {
        let c = ChatMessage {
            message_type: MessageType::Chat,
            id: m.id.clone(),
            display_name: m.display_name.clone(),
            content: m.content.clone(),
            timestamp: Some(m.timestamp),
        };
        serialize_chat_message(&c)
    }
}

/// Encode a history answer for the wire.
pub fn serialize_history(messages: &Vec<Message>, has_more: bool) -> (r: String)
    ensures
        r@ == history_wire(messages@.map_values(|m: Message| m@), has_more),
{
    let ghost views = messages@.map_values(|m: Message| m@);
    let mut out: Vec<char> = Vec::new();
    crate::encode::append_str(&mut out, "{\"type\":\"HISTORY_DATA\",\"messages\":[");
    proof {
        reveal_strlit("{\"type\":\"HISTORY_DATA\",\"messages\":[");
        assert(("{\"type\":\"HISTORY_DATA\",\"messages\":["@) =~= lit_history_head());
    }
    let n = messages.len();
    if n > 0 {
        let first = serialize_persisted(&messages[0]);
        crate::encode::append_str(&mut out, first.as_str());
        proof {
            assert(views[0] == messages@[0]@);
            assert(views.subrange(1, 1) =~= Seq::<MessageView>::empty());
            assert(history_items_rest(views.subrange(1, 1)) == Seq::<char>::empty());
        }
        let mut i: usize = 1;
        while i < n
            invariant
                1 <= i <= n,
                n == messages@.len(),
                views == messages@.map_values(|m: Message| m@),
                views.len() == n,
                out@ == lit_history_head() + persisted_item_wire(views[0]) + history_items_rest(
                    views.subrange(1, i as int),
                ),
            decreases n - i,
        {
            crate::encode::append_str(&mut out, ",");
            proof {
                reveal_strlit(",");
                assert((","@) =~= seq![',']);
            }
            let item = serialize_persisted(&messages[i]);
            crate::encode::append_str(&mut out, item.as_str());
            proof {
                assert(views[i as int] == messages@[i as int]@);
                assert(views.subrange(1, i + 1 as int) =~= views.subrange(1, i as int).push(
                    views[i as int],
                ));
                lemma_items_rest_push(views.subrange(1, i as int), views[i as int]);
                assert(out@ =~= lit_history_head() + persisted_item_wire(views[0])
                    + history_items_rest(views.subrange(1, i + 1 as int)));
            }
            i = i + 1;
        }
        proof {
            assert(views.subrange(1, n as int) =~= views.skip(1));
            assert(out@ =~= lit_history_head() + history_items(views));
        }
    } else {
        proof {
            assert(history_items(views) == Seq::<char>::empty());
            assert(out@ =~= lit_history_head() + history_items(views));
        }
    }
    crate::encode::append_str(&mut out, "],\"has_more\":");
    proof {
        reveal_strlit("],\"has_more\":");
        assert(("],\"has_more\":"@) =~= lit_history_mid());
    }
    if has_more {
        crate::encode::append_str(&mut out, "true");
        proof {
            reveal_strlit("true");
            assert(("true"@) =~= bool_wire(true));
        }
    } else {
        crate::encode::append_str(&mut out, "false");
        proof {
            reveal_strlit("false");
            assert(("false"@) =~= bool_wire(false));
        }
    }
    out.push('}');
    proof {
        assert(out@ =~= history_wire(views, has_more));
    }
    chars_to_string(&out)
}

} // verus!
