//! Parsing wire text into client messages, verified against a
//! specification parser.
//!
//! The grammar follows the documented wire protocol: an object whose
//! first member is `type`, then the members of that message kind in
//! their documented order, with JSON whitespace allowed between tokens.

use vstd::prelude::*;
use vstd::string::StrSliceExecFns;
use crate::messages::{MessageType, ChatMessage, SuperchatMessage, SuperchatData, ClientMessage,
    ChatMessageView, SuperchatMessageView, SuperchatDataView, ClientMessageView};
use crate::wire::{name_chat, name_superchat, name_get_history};
use crate::json::{skip_ws, expect, parse_string_body, parse_int, parse_amount, skip_ws_exec,
    expect_exec, parse_string_body_exec, parse_int_exec, parse_amount_exec};
use crate::strutil::{str_chars, chars_to_string};

verus! {

/// Why a frame could not be understood.
#[derive(Clone, Copy, PartialEq, Eq, Structural, Debug)]
pub enum ParseError {
    /// The text is not a well-formed message.
    Malformed,
}

/// A key wrapped in quotes.
pub open spec fn quoted(k: Seq<char>) -> Seq<char> {
    seq!['"'] + k + seq!['"']
}

/// `type`
pub open spec fn bare_type() -> Seq<char> {
    seq!['t', 'y', 'p', 'e']
}

/// `id`
pub open spec fn bare_id() -> Seq<char> {
    seq!['i', 'd']
}

/// `display_name`
pub open spec fn bare_display_name() -> Seq<char> {
    seq!['d', 'i', 's', 'p', 'l', 'a', 'y', '_', 'n', 'a', 'm', 'e']
}

/// `message`
pub open spec fn bare_message() -> Seq<char> {
    seq!['m', 'e', 's', 's', 'a', 'g', 'e']
}

/// `timestamp`
pub open spec fn bare_timestamp() -> Seq<char> {
    seq!['t', 'i', 'm', 'e', 's', 't', 'a', 'm', 'p']
}

/// `superchat`
pub open spec fn bare_superchat() -> Seq<char> {
    seq!['s', 'u', 'p', 'e', 'r', 'c', 'h', 'a', 't']
}

/// `amount`
pub open spec fn bare_amount() -> Seq<char> {
    seq!['a', 'm', 'o', 'u', 'n', 't']
}

/// `coin`
pub open spec fn bare_coin() -> Seq<char> {
    seq!['c', 'o', 'i', 'n']
}

/// `tx_hash`
pub open spec fn bare_tx_hash() -> Seq<char> {
    seq!['t', 'x', '_', 'h', 'a', 's', 'h']
}

/// `wallet_address`
pub open spec fn bare_wallet_address() -> Seq<char> {
    seq!['w', 'a', 'l', 'l', 'e', 't', '_', 'a', 'd', 'd', 'r', 'e', 's', 's']
}

/// `limit`
pub open spec fn bare_limit() -> Seq<char> {
    seq!['l', 'i', 'm', 'i', 't']
}

/// `before_timestamp`
pub open spec fn bare_before_timestamp() -> Seq<char> {
    seq!['b', 'e', 'f', 'o', 'r', 'e', '_', 't', 'i', 'm', 'e', 's', 't', 'a', 'm', 'p']
}

/// `null`
pub open spec fn lit_null() -> Seq<char> {
    seq!['n', 'u', 'l', 'l']
}

/// A `,"key":"value"` member with a string value.
pub open spec fn parse_member_string(s: Seq<char>, key: Seq<char>) -> Option<(Seq<char>, Seq<char>)> {
    match expect(s, seq![',']) {
        Some(s1) => match expect(s1, quoted(key)) {
            Some(s2) => match expect(s2, seq![':']) {
                Some(s3) => match expect(s3, seq!['"']) {
                    Some(s4) => parse_string_body(s4),
                    None => None,
                },
                None => None,
            },
            None => None,
        },
        None => None,
    }
}

/// A `,"key":value` member with an integer value.
pub open spec fn parse_member_int(s: Seq<char>, key: Seq<char>) -> Option<(int, Seq<char>)> {
    match expect(s, seq![',']) {
        Some(s1) => match expect(s1, quoted(key)) {
            Some(s2) => match expect(s2, seq![':']) {
                Some(s3) => parse_int(s3),
                None => None,
            },
            None => None,
        },
        None => None,
    }
}

/// The end of a message object: either the closing brace, or a
/// `timestamp` member and then the closing brace.
pub open spec fn parse_timestamp_tail(s: Seq<char>) -> Option<(Option<int>, Seq<char>)> {
    match expect(s, seq!['}']) {
        Some(r) => Some((None::<int>, r)),
        None => match parse_member_int(s, bare_timestamp()) {
            Some((t, s1)) => match expect(s1, seq!['}']) {
                Some(r) => Some((Some(t), r)),
                None => None,
            },
            None => None,
        },
    }
}

/// Narrow a parsed integer to the machine type that carries it.
pub open spec fn opt_int_to_i64(o: Option<int>) -> Option<i64> {
    match o {
        Some(v) => Some(v as i64),
        None => None,
    }
}

/// The members of a chat message after its `type`.
pub open spec fn parse_chat_rest(s: Seq<char>) -> Option<(ChatMessageView, Seq<char>)> {
    match parse_member_string(s, bare_id()) {
        Some((id, s1)) => match parse_member_string(s1, bare_display_name()) {
            Some((dn, s2)) => match parse_member_string(s2, bare_message()) {
                Some((content, s3)) => match parse_timestamp_tail(s3) {
                    Some((ts, rest)) => Some(
                        (
                            ChatMessageView {
                                message_type: MessageType::Chat,
                                id,
                                display_name: dn,
                                content,
                                timestamp: opt_int_to_i64(ts),
                            },
                            rest,
                        ),
                    ),
                    None => None,
                },
                None => None,
            },
            None => None,
        },
        None => None,
    }
}

/// The opening of the `,"superchat":{...}` member, up to and
/// including the amount.
pub open spec fn parse_superchat_obj_head(s: Seq<char>) -> Option<(nat, Seq<char>)> {
    match expect(s, seq![',']) {
        Some(s1) => match expect(s1, quoted(bare_superchat())) {
            Some(s2) => match expect(s2, seq![':']) {
                Some(s3) => match expect(s3, seq!['{']) {
                    Some(s4) => match expect(s4, quoted(bare_amount())) {
                        Some(s5) => match expect(s5, seq![':']) {
                            Some(s6) => parse_amount(s6),
                            None => None,
                        },
                        None => None,
                    },
                    None => None,
                },
                None => None,
            },
            None => None,
        },
        None => None,
    }
}

/// The rest of the `,"superchat":{...}` member after the amount.
pub open spec fn parse_superchat_obj_tail(a: nat, s: Seq<char>) -> Option<
    (SuperchatDataView, Seq<char>),
> {
    match parse_member_string(s, bare_coin()) {
        Some((coin, s8)) => match parse_member_string(s8, bare_tx_hash()) {
            Some((tx, s9)) => match parse_member_string(s9, bare_wallet_address()) {
                Some((w, s10)) => match expect(s10, seq!['}']) {
                    Some(s11) => Some(
                        (
                            SuperchatDataView {
                                amount_nanos: a as u64,
                                coin,
                                tx_hash: tx,
                                wallet_address: w,
                            },
                            s11,
                        ),
                    ),
                    None => None,
                },
                None => None,
            },
            None => None,
        },
        None => None,
    }
}

/// The `,"superchat":{...}` member.
pub open spec fn parse_superchat_obj(s: Seq<char>) -> Option<(SuperchatDataView, Seq<char>)> {
    match parse_superchat_obj_head(s) {
        Some((a, s7)) => parse_superchat_obj_tail(a, s7),
        None => None,
    }
}

/// The members of a superchat message after its `type`.
pub open spec fn parse_superchat_rest(s: Seq<char>) -> Option<(SuperchatMessageView, Seq<char>)> {
    match parse_member_string(s, bare_id()) {
        Some((id, s1)) => match parse_member_string(s1, bare_display_name()) {
            Some((dn, s2)) => match parse_member_string(s2, bare_message()) {
                Some((content, s3)) => match parse_superchat_obj(s3) {
                    Some((data, s4)) => match parse_timestamp_tail(s4) {
                        Some((ts, rest)) => Some(
                            (
                                SuperchatMessageView {
                                    message_type: MessageType::Superchat,
                                    id,
                                    display_name: dn,
                                    content,
                                    superchat: data,
                                    timestamp: opt_int_to_i64(ts),
                                },
                                rest,
                            ),
                        ),
                        None => None,
                    },
                    None => None,
                },
                None => None,
            },
            None => None,
        },
        None => None,
    }
}

/// An integer value or `null`.
pub open spec fn parse_opt_int_value(s: Seq<char>) -> Option<(Option<int>, Seq<char>)> {
    match expect(s, lit_null()) {
        Some(r) => Some((None::<int>, r)),
        None => match parse_int(s) {
            Some((v, r)) => Some((Some(v), r)),
            None => None,
        },
    }
}

/// The members of a history request after its `type`: an optional
/// `limit` and an optional `before_timestamp`, in that order.
pub open spec fn parse_history_rest(s: Seq<char>) -> Option<
    ((Option<int>, Option<int>), Seq<char>),
> {
    match expect(s, seq!['}']) {
        Some(r) => Some(((None::<int>, None::<int>), r)),
        None => match expect(s, seq![',']) {
            None => None,
            Some(s1) => match expect(s1, quoted(bare_limit())) {
                Some(s2) => match expect(s2, seq![':']) {
                    Some(s3) => match parse_opt_int_value(s3) {
                        Some((l, s4)) => match expect(s4, seq!['}']) {
                            Some(r) => Some(((l, None::<int>), r)),
                            None => match expect(s4, seq![',']) {
                                Some(s5) => match expect(s5, quoted(bare_before_timestamp())) {
                                    Some(s6) => match expect(s6, seq![':']) {
                                        Some(s7) => match parse_opt_int_value(s7) {
                                            Some((b, s8)) => match expect(s8, seq!['}']) {
                                                Some(r) => Some(((l, b), r)),
                                                None => None,
                                            },
                                            None => None,
                                        },
                                        None => None,
                                    },
                                    None => None,
                                },
                                None => None,
                            },
                        },
                        None => None,
                    },
                    None => None,
                },
                None => match expect(s1, quoted(bare_before_timestamp())) {
                    Some(s2) => match expect(s2, seq![':']) {
                        Some(s3) => match parse_opt_int_value(s3) {
                            Some((b, s4)) => match expect(s4, seq!['}']) {
                                Some(r) => Some(((None::<int>, b), r)),
                                None => None,
                            },
                            None => None,
                        },
                        None => None,
                    },
                    None => None,
                },
            },
        },
    }
}

/// The opening of a message object up to and including the value of
/// its `type` member.
pub open spec fn parse_type(s: Seq<char>) -> Option<(Seq<char>, Seq<char>)> {
    match expect(s, seq!['{']) {
        None => None,
        Some(s1) => match expect(s1, quoted(bare_type())) {
            None => None,
            Some(s2) => match expect(s2, seq![':']) {
                None => None,
                Some(s3) => match expect(s3, seq!['"']) {
                    None => None,
                    Some(s4) => parse_string_body(s4),
                },
            },
        },
    }
}

/// The message encoded by a whole text frame, or `None` when the frame
/// is not a well-formed message of the protocol.
pub open spec fn parse_client_message_spec(s: Seq<char>) -> Option<ClientMessageView> {
    match parse_type(s) {
        None => None,
        Some((tname, s5)) => if tname == name_chat() {
                            match parse_chat_rest(s5) {
                                Some((m, rest)) => if skip_ws(rest).len() == 0 {
                                    Some(ClientMessageView::Chat(m))
                                } else {
                                    None
                                },
                                None => None,
                            }
                        } else if tname == name_superchat() {
                            match parse_superchat_rest(s5) {
                                Some((m, rest)) => if skip_ws(rest).len() == 0 {
                                    Some(ClientMessageView::Superchat(m))
                                } else {
                                    None
                                },
                                None => None,
                            }
                        } else if tname == name_get_history() {
                            match parse_history_rest(s5) {
                                Some(((l, b), rest)) => if skip_ws(rest).len() == 0 {
                                    Some(
                                        ClientMessageView::GetHistory {
                                            limit: opt_int_to_i64(l),
                                            before_timestamp: opt_int_to_i64(b),
                                        },
                                    )
                                } else {
                                    None
                                },
                                None => None,
                            }
                        } else {
                            None
                        },
    }
}

// ---------------------------------------------------------------------
// Executable parser.
// ---------------------------------------------------------------------

/// Whether a character vector holds the same text as a string.
fn vec_eq_str(v: &Vec<char>, s: &str) -> (r: bool)
    ensures
        r == (v@ == s@),
{
    let n = s.unicode_len();
    if v.len() != n {
        return false;
    }
    let mut i: usize = 0;
    while i < n
        invariant
            i <= n,
            n == s@.len(),
            n == v@.len(),
            forall|j: int| 0 <= j < i ==> v@[j] == s@[j],
        decreases n - i,
    {
        if v[i] != s.get_char(i) {
            return false;
        }
        i = i + 1;
    }
    proof {
        assert(v@ =~= s@);
    }
    true
}

/// Parse a `,"key":"value"` member at `pos`.
fn parse_member_string_exec(
    chars: &Vec<char>,
    pos: usize,
    key_lit: &str,
    Ghost(key): Ghost<Seq<char>>,
) -> (r: Option<(Vec<char>, usize)>)
    requires
        pos <= chars@.len(),
        key_lit@ == quoted(key),
    ensures
        match r {
            Some(p) => pos <= p.1 <= chars@.len() && parse_member_string(
                chars@.skip(pos as int),
                key,
            ) == Some((p.0@, chars@.skip(p.1 as int))),
            None => parse_member_string(chars@.skip(pos as int), key) is None,
        },
{
    proof {
        reveal_strlit(",");
        assert((","@) =~= seq![',']);
        reveal_strlit(":");
        assert((":"@) =~= seq![':']);
        reveal_strlit("\"");
        assert(("\""@) =~= seq!['"']);
    }
    match expect_exec(chars, pos, ",") {
        None => None,
        Some(p1) => match expect_exec(chars, p1, key_lit) {
            None => None,
            Some(p2) => match expect_exec(chars, p2, ":") {
                None => None,
                Some(p3) => match expect_exec(chars, p3, "\"") {
                    None => None,
                    Some(p4) => parse_string_body_exec(chars, p4),
                },
            },
        },
    }
}

/// Parse a `,"key":value` integer member at `pos`.
fn parse_member_int_exec(
    chars: &Vec<char>,
    pos: usize,
    key_lit: &str,
    Ghost(key): Ghost<Seq<char>>,
) -> (r: Option<(i64, usize)>)
    requires
        pos <= chars@.len(),
        key_lit@ == quoted(key),
    ensures
        match r {
            Some(p) => pos <= p.1 <= chars@.len() && parse_member_int(chars@.skip(pos as int), key)
                == Some((p.0 as int, chars@.skip(p.1 as int))),
            None => parse_member_int(chars@.skip(pos as int), key) is None,
        },
{
    proof {
        reveal_strlit(",");
        assert((","@) =~= seq![',']);
        reveal_strlit(":");
        assert((":"@) =~= seq![':']);
    }
    match expect_exec(chars, pos, ",") {
        None => None,
        Some(p1) => match expect_exec(chars, p1, key_lit) {
            None => None,
            Some(p2) => match expect_exec(chars, p2, ":") {
                None => None,
                Some(p3) => parse_int_exec(chars, p3),
            },
        },
    }
}

/// Parse the optional timestamp member and the closing brace.
fn parse_timestamp_tail_exec(chars: &Vec<char>, pos: usize) -> (r: Option<(Option<i64>, usize)>)
    requires
        pos <= chars@.len(),
    ensures
        match r {
            Some(p) => pos <= p.1 <= chars@.len() && parse_timestamp_tail(chars@.skip(pos as int))
                == Some((opt_i64_to_int(p.0), chars@.skip(p.1 as int))),
            None => parse_timestamp_tail(chars@.skip(pos as int)) is None,
        },
{
    proof {
        reveal_strlit("}");
        assert(("}"@) =~= seq!['}']);
        reveal_strlit("\"timestamp\"");
        assert(("\"timestamp\""@) =~= quoted(bare_timestamp()));
    }
    match expect_exec(chars, pos, "}") {
        Some(r) => Some((None, r)),
        None => match parse_member_int_exec(chars, pos, "\"timestamp\"", Ghost(bare_timestamp())) {
            Some((t, p1)) => match expect_exec(chars, p1, "}") {
                Some(r) => Some((Some(t), r)),
                None => None,
            },
            None => None,
        },
    }
}

/// Widen an optional machine integer for the specification.
pub open spec fn opt_i64_to_int(o: Option<i64>) -> Option<int> {
    match o {
        Some(v) => Some(v as int),
        None => None,
    }
}

/// Parse the members of a chat message after its `type`.
fn parse_chat_rest_exec(chars: &Vec<char>, pos: usize) -> (r: Option<(ChatMessage, usize)>)
    requires
        pos <= chars@.len(),
    ensures
        match r {
            Some(p) => pos <= p.1 <= chars@.len() && parse_chat_rest(chars@.skip(pos as int))
                == Some((p.0@, chars@.skip(p.1 as int))),
            None => parse_chat_rest(chars@.skip(pos as int)) is None,
        },
{
    proof {
        reveal_strlit("\"id\"");
        assert(("\"id\""@) =~= quoted(bare_id()));
        reveal_strlit("\"display_name\"");
        assert(("\"display_name\""@) =~= quoted(bare_display_name()));
        reveal_strlit("\"message\"");
        assert(("\"message\""@) =~= quoted(bare_message()));
    }
    match parse_member_string_exec(chars, pos, "\"id\"", Ghost(bare_id())) {
        None => None,
        Some((idv, p1)) => match parse_member_string_exec(
            chars,
            p1,
            "\"display_name\"",
            Ghost(bare_display_name()),
        ) {
            None => None,
            Some((dnv, p2)) => match parse_member_string_exec(
                chars,
                p2,
                "\"message\"",
                Ghost(bare_message()),
            ) {
                None => None,
                Some((cv, p3)) => match parse_timestamp_tail_exec(chars, p3) {
                    None => None,
                    Some((ts, p4)) => {
                        let m = ChatMessage {
                            message_type: MessageType::Chat,
                            id: chars_to_string(&idv),
                            display_name: chars_to_string(&dnv),
                            content: chars_to_string(&cv),
                            timestamp: ts,
                        };
                        Some((m, p4))
                    },
                },
            },
        },
    }
}

/// Parse the `,"superchat":{...}` member.
fn parse_superchat_obj_exec(chars: &Vec<char>, pos: usize) -> (r: Option<(SuperchatData, usize)>)
    requires
        pos <= chars@.len(),
    ensures
        match r {
            Some(p) => pos <= p.1 <= chars@.len() && parse_superchat_obj(chars@.skip(pos as int))
                == Some((p.0@, chars@.skip(p.1 as int))),
            None => parse_superchat_obj(chars@.skip(pos as int)) is None,
        },
{
    proof {
        reveal_strlit(",");
        assert((","@) =~= seq![',']);
        reveal_strlit(":");
        assert((":"@) =~= seq![':']);
        reveal_strlit("{");
        assert(("{"@) =~= seq!['{']);
        reveal_strlit("}");
        assert(("}"@) =~= seq!['}']);
        reveal_strlit("\"superchat\"");
        assert(("\"superchat\""@) =~= quoted(bare_superchat()));
        reveal_strlit("\"amount\"");
        assert(("\"amount\""@) =~= quoted(bare_amount()));
        reveal_strlit("\"coin\"");
        assert(("\"coin\""@) =~= quoted(bare_coin()));
        reveal_strlit("\"tx_hash\"");
        assert(("\"tx_hash\""@) =~= quoted(bare_tx_hash()));
        reveal_strlit("\"wallet_address\"");
        assert(("\"wallet_address\""@) =~= quoted(bare_wallet_address()));
    }
    match expect_exec(chars, pos, ",") {
        None => None,
        Some(s1) => match expect_exec(chars, s1, "\"superchat\"") {
            None => None,
            Some(s2) => match expect_exec(chars, s2, ":") {
                None => None,
                Some(s3) => match expect_exec(chars, s3, "{") {
                    None => None,
                    Some(s4) => match expect_exec(chars, s4, "\"amount\"") {
                        None => None,
                        Some(s5) => match expect_exec(chars, s5, ":") {
                            None => None,
                            Some(s6) => match parse_amount_exec(chars, s6) {
                                None => None,
                                Some((a, s7)) => match parse_member_string_exec(
                                    chars,
                                    s7,
                                    "\"coin\"",
                                    Ghost(bare_coin()),
                                ) {
                                    None => None,
                                    Some((coinv, s8)) => match parse_member_string_exec(
                                        chars,
                                        s8,
                                        "\"tx_hash\"",
                                        Ghost(bare_tx_hash()),
                                    ) {
                                        None => None,
                                        Some((txv, s9)) => match parse_member_string_exec(
                                            chars,
                                            s9,
                                            "\"wallet_address\"",
                                            Ghost(bare_wallet_address()),
                                        ) {
                                            None => None,
                                            Some((wv, s10)) => match expect_exec(chars, s10, "}") {
                                                None => None,
                                                Some(s11) => {
                                                    let d = SuperchatData {
                                                        amount_nanos: a,
                                                        coin: chars_to_string(&coinv),
                                                        tx_hash: chars_to_string(&txv),
                                                        wallet_address: chars_to_string(&wv),
                                                    };
                                                    Some((d, s11))
                                                },
                                            },
                                        },
                                    },
                                },
                            },
                        },
                    },
                },
            },
        },
    }
}

/// Parse the members of a superchat message after its `type`.
fn parse_superchat_rest_exec(chars: &Vec<char>, pos: usize) -> (r: Option<(SuperchatMessage, usize)>)
    requires
        pos <= chars@.len(),
    ensures
        match r {
            Some(p) => pos <= p.1 <= chars@.len() && parse_superchat_rest(chars@.skip(pos as int))
                == Some((p.0@, chars@.skip(p.1 as int))),
            None => parse_superchat_rest(chars@.skip(pos as int)) is None,
        },
{
    proof {
        reveal_strlit("\"id\"");
        assert(("\"id\""@) =~= quoted(bare_id()));
        reveal_strlit("\"display_name\"");
        assert(("\"display_name\""@) =~= quoted(bare_display_name()));
        reveal_strlit("\"message\"");
        assert(("\"message\""@) =~= quoted(bare_message()));
    }
    match parse_member_string_exec(chars, pos, "\"id\"", Ghost(bare_id())) {
        None => None,
        Some((idv, p1)) => match parse_member_string_exec(
            chars,
            p1,
            "\"display_name\"",
            Ghost(bare_display_name()),
        ) {
            None => None,
            Some((dnv, p2)) => match parse_member_string_exec(
                chars,
                p2,
                "\"message\"",
                Ghost(bare_message()),
            ) {
                None => None,
                Some((cv, p3)) => match parse_superchat_obj_exec(chars, p3) {
                    None => None,
                    Some((data, p4)) => match parse_timestamp_tail_exec(chars, p4) {
                        None => None,
                        Some((ts, p5)) => {
                            let m = SuperchatMessage {
                                message_type: MessageType::Superchat,
                                id: chars_to_string(&idv),
                                display_name: chars_to_string(&dnv),
                                content: chars_to_string(&cv),
                                superchat: data,
                                timestamp: ts,
                            };
                            Some((m, p5))
                        },
                    },
                },
            },
        },
    }
}

/// Parse an integer value or `null`.
fn parse_opt_int_value_exec(chars: &Vec<char>, pos: usize) -> (r: Option<(Option<i64>, usize)>)
    requires
        pos <= chars@.len(),
    ensures
        match r {
            Some(p) => pos <= p.1 <= chars@.len() && parse_opt_int_value(chars@.skip(pos as int))
                == Some((opt_i64_to_int(p.0), chars@.skip(p.1 as int))),
            None => parse_opt_int_value(chars@.skip(pos as int)) is None,
        },
{
    proof {
        reveal_strlit("null");
        assert(("null"@) =~= lit_null());
    }
    match expect_exec(chars, pos, "null") {
        Some(r) => Some((None, r)),
        None => match parse_int_exec(chars, pos) {
            Some((v, r)) => Some((Some(v), r)),
            None => None,
        },
    }
}

/// Parse the members of a history request after its `type`.
fn parse_history_rest_exec(chars: &Vec<char>, pos: usize) -> (r: Option<
    ((Option<i64>, Option<i64>), usize),
>)
    requires
        pos <= chars@.len(),
    ensures
        match r {
            Some(p) => pos <= p.1 <= chars@.len() && parse_history_rest(chars@.skip(pos as int))
                == Some(
                (
                    (opt_i64_to_int(p.0.0), opt_i64_to_int(p.0.1)),
                    chars@.skip(p.1 as int),
                ),
            ),
            None => parse_history_rest(chars@.skip(pos as int)) is None,
        },
{
    proof {
        reveal_strlit("}");
        assert(("}"@) =~= seq!['}']);
        reveal_strlit(",");
        assert((","@) =~= seq![',']);
        reveal_strlit(":");
        assert((":"@) =~= seq![':']);
        reveal_strlit("\"limit\"");
        assert(("\"limit\""@) =~= quoted(bare_limit()));
        reveal_strlit("\"before_timestamp\"");
        assert(("\"before_timestamp\""@) =~= quoted(bare_before_timestamp()));
    }
    match expect_exec(chars, pos, "}") {
        Some(r) => Some(((None, None), r)),
        None => match expect_exec(chars, pos, ",") {
            None => None,
            Some(s1) => match expect_exec(chars, s1, "\"limit\"") {
                Some(s2) => match expect_exec(chars, s2, ":") {
                    None => None,
                    Some(s3) => match parse_opt_int_value_exec(chars, s3) {
                        None => None,
                        Some((l, s4)) => match expect_exec(chars, s4, "}") {
                            Some(r) => Some(((l, None), r)),
                            None => match expect_exec(chars, s4, ",") {
                                None => None,
                                Some(s5) => match expect_exec(chars, s5, "\"before_timestamp\"") {
                                    None => None,
                                    Some(s6) => match expect_exec(chars, s6, ":") {
                                        None => None,
                                        Some(s7) => match parse_opt_int_value_exec(chars, s7) {
                                            None => None,
                                            Some((b, s8)) => match expect_exec(chars, s8, "}") {
                                                Some(r) => Some(((l, b), r)),
                                                None => None,
                                            },
                                        },
                                    },
                                },
                            },
                        },
                    },
                },
                None => match expect_exec(chars, s1, "\"before_timestamp\"") {
                    None => None,
                    Some(s2) => match expect_exec(chars, s2, ":") {
                        None => None,
                        Some(s3) => match parse_opt_int_value_exec(chars, s3) {
                            None => None,
                            Some((b, s4)) => match expect_exec(chars, s4, "}") {
                                Some(r) => Some(((None, b), r)),
                                None => None,
                            },
                        },
                    },
                },
            },
        },
    }
}

/// Decode one text frame.  Returns the message it encodes; an error
/// exactly when the text is not a well-formed message of the protocol.
pub fn parse_client_message(text: &str) -> (r: Result<ClientMessage, ParseError>)
    ensures
        match r {
            Ok(m) => parse_client_message_spec(text@) == Some(m@),
            Err(_) => parse_client_message_spec(text@) is None,
        },
{
    let chars = str_chars(text);
    proof {
        assert(chars@.skip(0) =~= text@);
        reveal_strlit("{");
        assert(("{"@) =~= seq!['{']);
        reveal_strlit("\"type\"");
        assert(("\"type\""@) =~= quoted(bare_type()));
        reveal_strlit(":");
        assert((":"@) =~= seq![':']);
        reveal_strlit("\"");
        assert(("\""@) =~= seq!['"']);
        reveal_strlit("chat");
        assert(("chat"@) =~= name_chat());
        reveal_strlit("superchat");
        assert(("superchat"@) =~= name_superchat());
        reveal_strlit("GET_HISTORY");
        assert(("GET_HISTORY"@) =~= name_get_history());
    }
    let n = chars.len();
    let p1 = match expect_exec(&chars, 0, "{") {
        Some(p) => p,
        None => {
            return Err(ParseError::Malformed);
        },
    };
    let p2 = match expect_exec(&chars, p1, "\"type\"") {
        Some(p) => p,
        None => {
            return Err(ParseError::Malformed);
        },
    };
    let p3 = match expect_exec(&chars, p2, ":") {
        Some(p) => p,
        None => {
            return Err(ParseError::Malformed);
        },
    };
    let p4 = match expect_exec(&chars, p3, "\"") {
        Some(p) => p,
        None => {
            return Err(ParseError::Malformed);
        },
    };
    let (tname, p5) = match parse_string_body_exec(&chars, p4) {
        Some(p) => p,
        None => {
            return Err(ParseError::Malformed);
        },
    };
    if vec_eq_str(&tname, "chat") {
        match parse_chat_rest_exec(&chars, p5) {
            Some((m, rest)) => {
                let e = skip_ws_exec(&chars, rest);
                if e == n {
                    Ok(ClientMessage::Chat(m))
                } else {
                    proof {
                        assert(chars@.skip(e as int).len() > 0);
                    }
                    Err(ParseError::Malformed)
                }
            },
            None => Err(ParseError::Malformed),
        }
    } else if vec_eq_str(&tname, "superchat") {
        match parse_superchat_rest_exec(&chars, p5) {
            Some((m, rest)) => {
                let e = skip_ws_exec(&chars, rest);
                if e == n {
                    Ok(ClientMessage::Superchat(m))
                } else {
                    proof {
                        assert(chars@.skip(e as int).len() > 0);
                    }
                    Err(ParseError::Malformed)
                }
            },
            None => Err(ParseError::Malformed),
        }
    } else if vec_eq_str(&tname, "GET_HISTORY") {
        match parse_history_rest_exec(&chars, p5) {
            Some(((l, b), rest)) => {
                let e = skip_ws_exec(&chars, rest);
                if e == n {
                    Ok(ClientMessage::GetHistory { limit: l, before_timestamp: b })
                } else {
                    proof {
                        assert(chars@.skip(e as int).len() > 0);
                    }
                    Err(ParseError::Malformed)
                }
            },
            None => Err(ParseError::Malformed),
        }
    } else {
        Err(ParseError::Malformed)
    }
}

} // verus!
