//! The wire format, as mathematical functions over character sequences.
//!
//! Chat traffic travels as JSON text frames.  This module defines, at
//! the specification level, exactly which character sequence encodes a
//! message: string escaping, decimal numbers, fixed-point coin amounts,
//! and the layout of each message object.  The executable encoder and
//! decoder are verified against these definitions.

use vstd::prelude::*;
use crate::messages::{ChatMessageView, SuperchatMessageView, SuperchatDataView, NANOS_PER_COIN};

verus! {

/// JSON insignificant whitespace.
pub open spec fn is_ws(c: char) -> bool {
    c == ' ' || c == '\t' || c == '\n' || c == '\r'
}

/// A decimal digit.
pub open spec fn is_digit(c: char) -> bool {
    '0' <= c && c <= '9'
}

/// Numeric value of a decimal digit.
pub open spec fn digit_val(c: char) -> nat
    recommends
        is_digit(c),
{
    ((c as u32) - ('0' as u32)) as nat
}

/// The character for a decimal digit value.
pub open spec fn digit_char(n: nat) -> char
    recommends
        n < 10,
{
    (('0' as u32) + (n as u32)) as char
}

/// The lower-case hexadecimal character for a value below 16.
pub open spec fn hex_char(n: nat) -> char
    recommends
        n < 16,
{
    if n < 10 {
        digit_char(n)
    } else {
        (('a' as u32) + ((n - 10) as u32)) as char
    }
}

/// A hexadecimal digit (either case).
pub open spec fn is_hex(c: char) -> bool {
    is_digit(c) || ('a' <= c && c <= 'f') || ('A' <= c && c <= 'F')
}

/// Numeric value of a hexadecimal digit.
pub open spec fn hex_val(c: char) -> nat
    recommends
        is_hex(c),
{
    if is_digit(c) {
        digit_val(c)
    } else if 'a' <= c && c <= 'f' {
        (((c as u32) - ('a' as u32)) + 10) as nat
    } else {
        (((c as u32) - ('A' as u32)) + 10) as nat
    }
}

/// How one character appears inside a JSON string literal.
pub open spec fn escape_char(c: char) -> Seq<char> {
    if c == '"' {
        seq!['\\', '"']
    } else if c == '\\' {
        seq!['\\', '\\']
    } else if c == '\n' {
        seq!['\\', 'n']
    } else if c == '\r' {
        seq!['\\', 'r']
    } else if c == '\t' {
        seq!['\\', 't']
    } else if (c as u32) < 32 {
        seq!['\\', 'u', '0', '0', hex_char(((c as u32) / 16) as nat), hex_char(
            ((c as u32) % 16) as nat,
        )]
    } else {
        seq![c]
    }
}

/// The body of a JSON string literal holding the given characters.
pub open spec fn escape_string(s: Seq<char>) -> Seq<char>
    decreases s.len(),
{
    if s.len() == 0 {
        Seq::empty()
    } else {
        escape_char(s[0]) + escape_string(s.skip(1))
    }
}

/// Escaping a concatenation escapes each part.
pub proof fn lemma_escape_append(a: Seq<char>, b: Seq<char>)
    ensures
        escape_string(a + b) == escape_string(a) + escape_string(b),
    decreases a.len(),
{
    if a.len() == 0 {
        assert(a + b =~= b);
        assert(escape_string(a) + escape_string(b) =~= escape_string(b));
    } else {
        assert((a + b).skip(1) =~= a.skip(1) + b);
        lemma_escape_append(a.skip(1), b);
        assert(escape_char((a + b)[0]) == escape_char(a[0]));
        assert(escape_string(a + b) =~= escape_string(a) + escape_string(b));
    }
}

/// The decimal digits of a natural number, most significant first.
pub open spec fn dec_digits(n: nat) -> Seq<char>
    decreases n,
{
    if n < 10 {
        seq![digit_char(n)]
    } else {
        dec_digits(n / 10) + seq![digit_char(n % 10)]
    }
}

/// The decimal text of an integer.
pub open spec fn int_text(i: int) -> Seq<char> {
    if i < 0 {
        seq!['-'] + dec_digits((-i) as nat)
    } else {
        dec_digits(i as nat)
    }
}

/// The decimal digits of `n` written in exactly `width` positions,
/// zero-padded on the left (only the lowest `width` digits of `n`).
pub open spec fn pad_digits(n: nat, width: nat) -> Seq<char>
    decreases width,
{
    if width == 0 {
        Seq::empty()
    } else {
        pad_digits(n / 10, (width - 1) as nat) + seq![digit_char(n % 10)]
    }
}

/// Drop trailing `'0'` characters.
pub open spec fn trim_zeros(s: Seq<char>) -> Seq<char>
    decreases s.len(),
{
    if s.len() > 0 && s.last() == '0' {
        trim_zeros(s.drop_last())
    } else {
        s
    }
}

/// The wire text of a coin amount held as nano-units: the whole part,
/// then a fractional part without trailing zeros, if there is one.
pub open spec fn amount_text(nanos: nat) -> Seq<char> {
    if nanos % (NANOS_PER_COIN as nat) == 0 {
        dec_digits(nanos / (NANOS_PER_COIN as nat))
    } else {
        dec_digits(nanos / (NANOS_PER_COIN as nat)) + seq!['.'] + trim_zeros(
            pad_digits(nanos % (NANOS_PER_COIN as nat), 9),
        )
    }
}

/// `{"type":"`
pub open spec fn lit_open_type() -> Seq<char> {
    seq!['{', '"', 't', 'y', 'p', 'e', '"', ':', '"']
}

/// `chat`
pub open spec fn name_chat() -> Seq<char> {
    seq!['c', 'h', 'a', 't']
}

/// `superchat`
pub open spec fn name_superchat() -> Seq<char> {
    seq!['s', 'u', 'p', 'e', 'r', 'c', 'h', 'a', 't']
}

/// `GET_HISTORY`
pub open spec fn name_get_history() -> Seq<char> {
    seq!['G', 'E', 'T', '_', 'H', 'I', 'S', 'T', 'O', 'R', 'Y']
}

/// `,"id":"`
pub open spec fn key_id() -> Seq<char> {
    seq![',', '"', 'i', 'd', '"', ':', '"']
}

/// `,"display_name":"`
pub open spec fn key_display_name() -> Seq<char> {
    seq![',', '"', 'd', 'i', 's', 'p', 'l', 'a', 'y', '_', 'n', 'a', 'm', 'e', '"', ':', '"']
}

/// `,"message":"`
pub open spec fn key_message() -> Seq<char> {
    seq![',', '"', 'm', 'e', 's', 's', 'a', 'g', 'e', '"', ':', '"']
}

/// `,"superchat":{"amount":`
pub open spec fn key_superchat_amount() -> Seq<char> {
    seq![',', '"', 's', 'u', 'p', 'e', 'r', 'c', 'h', 'a', 't', '"', ':', '{', '"', 'a', 'm', 'o',
        'u', 'n', 't', '"', ':']
}

/// `,"coin":"`
pub open spec fn key_coin() -> Seq<char> {
    seq![',', '"', 'c', 'o', 'i', 'n', '"', ':', '"']
}

/// `,"tx_hash":"`
pub open spec fn key_tx_hash() -> Seq<char> {
    seq![',', '"', 't', 'x', '_', 'h', 'a', 's', 'h', '"', ':', '"']
}

/// `,"wallet_address":"`
pub open spec fn key_wallet_address() -> Seq<char> {
    seq![',', '"', 'w', 'a', 'l', 'l', 'e', 't', '_', 'a', 'd', 'd', 'r', 'e', 's', 's', '"', ':',
        '"']
}

/// `,"timestamp":`
pub open spec fn key_timestamp() -> Seq<char> {
    seq![',', '"', 't', 'i', 'm', 'e', 's', 't', 'a', 'm', 'p', '"', ':']
}

/// The trailing part shared by chat and superchat objects: the optional
/// timestamp member and the closing brace.
pub open spec fn timestamp_tail(timestamp: Option<i64>) -> Seq<char> {
    match timestamp {
        Some(t) => key_timestamp() + int_text(t as int) + seq!['}'],
        None => seq!['}'],
    }
}

/// The opening of a message object up to and including the quoted value
/// of its `type` member.
pub open spec fn head_wire(tname: Seq<char>) -> Seq<char> {
    lit_open_type() + tname + seq!['"']
}

/// The `id`, `display_name` and `message` members shared by chat and
/// superchat messages.
pub open spec fn members_wire(id: Seq<char>, dn: Seq<char>, content: Seq<char>) -> Seq<char> {
    key_id() + escape_string(id) + seq!['"'] + key_display_name() + escape_string(dn) + seq!['"']
        + key_message() + escape_string(content) + seq!['"']
}

/// The `,"superchat":{...}` member.
pub open spec fn superchat_obj_wire(d: SuperchatDataView) -> Seq<char> {
    key_superchat_amount() + amount_text(d.amount_nanos as nat) + key_coin() + escape_string(
        d.coin,
    ) + seq!['"'] + key_tx_hash() + escape_string(d.tx_hash) + seq!['"'] + key_wallet_address()
        + escape_string(d.wallet_address) + seq!['"', '}']
}

/// The wire text of a chat message.
pub open spec fn chat_wire(m: ChatMessageView) -> Seq<char> {
    head_wire(name_chat()) + members_wire(m.id, m.display_name, m.content) + timestamp_tail(
        m.timestamp,
    )
}

/// The wire text of a superchat message.
pub open spec fn superchat_wire(m: SuperchatMessageView) -> Seq<char> {
    head_wire(name_superchat()) + members_wire(m.id, m.display_name, m.content)
        + superchat_obj_wire(m.superchat) + timestamp_tail(m.timestamp)
}

/// `{"type":"error","message":"`
pub open spec fn lit_error_head() -> Seq<char> {
    seq!['{', '"', 't', 'y', 'p', 'e', '"', ':', '"', 'e', 'r', 'r', 'o', 'r', '"', ',', '"', 'm',
        'e', 's', 's', 'a', 'g', 'e', '"', ':', '"']
}

/// `","timestamp":"`
pub open spec fn lit_error_mid() -> Seq<char> {
    seq!['"', ',', '"', 't', 'i', 'm', 'e', 's', 't', 'a', 'm', 'p', '"', ':', '"']
}

/// The wire text of a structured error response.
pub open spec fn error_wire(message: Seq<char>, timestamp: Seq<char>) -> Seq<char> {
    lit_error_head() + escape_string(message) + lit_error_mid() + escape_string(timestamp) + seq![
        '"',
        '}',
    ]
}

} // verus!
