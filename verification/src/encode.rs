//! Executable encoding of wire messages, verified against `wire`.

use vstd::prelude::*;
use vstd::string::*;
use crate::messages::{ChatMessage, SuperchatMessage, NANOS_PER_COIN};
use crate::strutil::chars_to_string;
use crate::wire::{escape_char, escape_string, lemma_escape_append, dec_digits, int_text,
    pad_digits, trim_zeros, amount_text, digit_char, hex_char, lit_open_type, name_chat,
    name_superchat, key_id, key_display_name, key_message, key_superchat_amount, key_coin,
    key_tx_hash, key_wallet_address, key_timestamp, chat_wire, superchat_wire, lit_error_head,
    lit_error_mid, error_wire};

verus! {

/// Escaping a single character is one step of `escape_string`.
proof fn lemma_escape_single(c: char)
    ensures
        escape_string(seq![c]) == escape_char(c),
{
    assert(seq![c].skip(1) =~= Seq::<char>::empty());
    assert(escape_string(Seq::<char>::empty()) == Seq::<char>::empty());
    assert(escape_string(seq![c]) == escape_char(seq![c][0]) + escape_string(seq![c].skip(1)));
    assert(seq![c][0] == c);
    assert(escape_char(c) + Seq::<char>::empty() =~= escape_char(c));
}

/// Append the characters of `s` to `out`.
pub fn append_str(out: &mut Vec<char>, s: &str)
    ensures
        final(out)@ == old(out)@ + s@,
{
    let n = s.unicode_len();
    let mut i: usize = 0;
    while i < n
        invariant
            i <= n,
            n == s@.len(),
            out@ == old(out)@ + s@.subrange(0, i as int),
        decreases n - i,
    {
        out.push(s.get_char(i));
        proof {
            assert(old(out)@ + s@.subrange(0, i + 1 as int) =~= (old(out)@ + s@.subrange(
                0,
                i as int,
            )).push(s@[i as int]));
        }
        i = i + 1;
    }
    proof {
        assert(s@.subrange(0, n as int) =~= s@);
    }
}

/// Append the characters of `v` to `out`.
fn append_vec(out: &mut Vec<char>, v: &Vec<char>)
    ensures
        final(out)@ == old(out)@ + v@,
{
    let n = v.len();
    let mut i: usize = 0;
    while i < n
        invariant
            i <= n,
            n == v@.len(),
            out@ == old(out)@ + v@.subrange(0, i as int),
        decreases n - i,
    {
        out.push(v[i]);
        proof {
            assert(old(out)@ + v@.subrange(0, i + 1 as int) =~= (old(out)@ + v@.subrange(
                0,
                i as int,
            )).push(v@[i as int]));
        }
        i = i + 1;
    }
    proof {
        assert(v@.subrange(0, n as int) =~= v@);
    }
}

/// The lower-case hexadecimal character of a value below 16.
fn hex_char_exec(n: u32) -> (r: char)
    requires
        n < 16,
    ensures
        r == hex_char(n as nat),
{
    if n < 10 {
        let c = (('0' as u8) + (n as u8)) as char;
        proof {
            assert(c as u32 == digit_char(n as nat) as u32);
        }
        c
    } else {
        let c = (('a' as u8) + ((n - 10) as u8)) as char;
        proof {
            assert(c as u32 == hex_char(n as nat) as u32);
        }
        c
    }
}

/// Append the escaped form of the characters of `s` to `out`.
fn push_escaped(out: &mut Vec<char>, s: &str)
    ensures
        final(out)@ == old(out)@ + escape_string(s@),
{
    let n = s.unicode_len();
    let mut i: usize = 0;
    while i < n
        invariant
            i <= n,
            n == s@.len(),
            out@ == old(out)@ + escape_string(s@.subrange(0, i as int)),
        decreases n - i,
    {
        let c = s.get_char(i);
        if c == '"' {
            out.push('\\');
            out.push('"');
        } else if c == '\\' {
            out.push('\\');
            out.push('\\');
        } else if c == '\n' {
            out.push('\\');
            out.push('n');
        } else if c == '\r' {
            out.push('\\');
            out.push('r');
        } else if c == '\t' {
            out.push('\\');
            out.push('t');
        } else if (c as u32) < 32 {
            out.push('\\');
            out.push('u');
            out.push('0');
            out.push('0');
            out.push(hex_char_exec((c as u32) / 16));
            out.push(hex_char_exec((c as u32) % 16));
        } else {
            out.push(c);
        }
        proof {
            assert(s@.subrange(0, i + 1 as int) =~= s@.subrange(0, i as int) + seq![s@[i as int]]);
            lemma_escape_append(s@.subrange(0, i as int), seq![s@[i as int]]);
            lemma_escape_single(s@[i as int]);
            assert(out@ =~= old(out)@ + escape_string(s@.subrange(0, i + 1 as int)));
        }
        i = i + 1;
    }
    proof {
        assert(s@.subrange(0, n as int) =~= s@);
    }
}

/// Append the decimal digits of `n` to `out`.
pub(crate) fn push_dec_u64(out: &mut Vec<char>, n: u64)
    ensures
        final(out)@ == old(out)@ + dec_digits(n as nat),
    decreases n,
{
    if n >= 10 {
        push_dec_u64(out, n / 10);
    }
    let d = n % 10;
    let c = (('0' as u8) + (d as u8)) as char;
    proof {
        assert(c as u32 == digit_char((n % 10) as nat) as u32);
    }
    out.push(c);
    proof {
        if n < 10 {
            assert(old(out)@ + dec_digits(n as nat) =~= old(out)@.push(c));
        } else {
            assert(old(out)@ + dec_digits(n as nat) =~= (old(out)@ + dec_digits(
                (n / 10) as nat,
            )).push(c));
        }
    }
}

/// Append the decimal text of `t` to `out`.
fn push_int_i64(out: &mut Vec<char>, t: i64)
    ensures
        final(out)@ == old(out)@ + int_text(t as int),
{
    if t < 0 {
        out.push('-');
        let m: u64 = if t == i64::MIN {
            9223372036854775808u64
        } else {
            (-t) as u64
        };
        proof {
            assert(m as nat == (-(t as int)) as nat);
        }
        push_dec_u64(out, m);
        proof {
            assert(old(out)@ + int_text(t as int) =~= old(out)@.push('-') + dec_digits(
                (-(t as int)) as nat,
            ));
        }
    } else {
        push_dec_u64(out, t as u64);
    }
}

/// Append the lowest `width` decimal digits of `n`, zero-padded.
fn push_pad_digits(out: &mut Vec<char>, n: u64, width: u64)
    ensures
        final(out)@ == old(out)@ + pad_digits(n as nat, width as nat),
    decreases width,
{
    if width == 0 {
        proof {
            assert(old(out)@ + pad_digits(n as nat, 0) =~= old(out)@);
        }
        return ;
    }
    push_pad_digits(out, n / 10, width - 1);
    let d = n % 10;
    let c = (('0' as u8) + (d as u8)) as char;
    proof {
        assert(c as u32 == digit_char((n % 10) as nat) as u32);
    }
    out.push(c);
    proof {
        assert(old(out)@ + pad_digits(n as nat, width as nat) =~= (old(out)@ + pad_digits(
            (n / 10) as nat,
            (width - 1) as nat,
        )).push(c));
    }
}

/// Append the wire text of a coin amount to `out`.
fn push_amount(out: &mut Vec<char>, nanos: u64)
    ensures
        final(out)@ == old(out)@ + amount_text(nanos as nat),
{
    let whole = nanos / NANOS_PER_COIN;
    let frac = nanos % NANOS_PER_COIN;
    push_dec_u64(out, whole);
    if frac != 0 {
        out.push('.');
        let mut tmp: Vec<char> = Vec::new();
        push_pad_digits(&mut tmp, frac, 9);
        proof {
            assert(tmp@ == pad_digits(frac as nat, 9));
        }
        loop
            invariant_except_break
                trim_zeros(tmp@) == trim_zeros(pad_digits(frac as nat, 9)),
            ensures
                trim_zeros(tmp@) == trim_zeros(pad_digits(frac as nat, 9)),
                tmp@.len() == 0 || tmp@.last() != '0',
            decreases tmp@.len(),
        {
            let k = tmp.len();
            if k == 0 {
                break ;
            }
            if tmp[k - 1] != '0' {
                break ;
            }
            tmp.pop();
        }
        proof {
            assert(trim_zeros(tmp@) == tmp@);
        }
        append_vec(out, &tmp);
        proof {
            assert(out@ =~= old(out)@ + amount_text(nanos as nat));
        }
    }
}

/// Encode a chat message for the wire.
pub fn serialize_chat_message(m: &ChatMessage) -> (r: String)
    ensures
        r@ == chat_wire(m@),
{
    let mut out: Vec<char> = Vec::new();
    append_str(&mut out, "{\"type\":\"chat\"");
    proof {
        reveal_strlit("{\"type\":\"chat\"");
        assert(("{\"type\":\"chat\""@) =~= lit_open_type() + name_chat() + seq!['"']);
    }
    append_str(&mut out, ",\"id\":\"");
    proof {
        reveal_strlit(",\"id\":\"");
        assert((",\"id\":\""@) =~= key_id());
    }
    push_escaped(&mut out, m.id.as_str());
    append_str(&mut out, "\",\"display_name\":\"");
    proof {
        reveal_strlit("\",\"display_name\":\"");
        assert(("\",\"display_name\":\""@) =~= seq!['"'] + key_display_name());
    }
    push_escaped(&mut out, m.display_name.as_str());
    append_str(&mut out, "\",\"message\":\"");
    proof {
        reveal_strlit("\",\"message\":\"");
        assert(("\",\"message\":\""@) =~= seq!['"'] + key_message());
    }
    push_escaped(&mut out, m.content.as_str());
    append_str(&mut out, "\"");
    proof {
        reveal_strlit("\"");
        assert(("\""@) =~= seq!['"']);
    }
    match m.timestamp {
        Some(t) => {
            append_str(&mut out, ",\"timestamp\":");
            proof {
                reveal_strlit(",\"timestamp\":");
                assert((",\"timestamp\":"@) =~= key_timestamp());
            }
            push_int_i64(&mut out, t);
            out.push('}');
        },
        None => {
            out.push('}');
        },
    }
    proof {
        assert(out@ =~= chat_wire(m@));
    }
    chars_to_string(&out)
}

/// Encode a superchat message for the wire.
#[verifier::rlimit(100)]
pub fn serialize_superchat_message(m: &SuperchatMessage) -> (r: String)
    ensures
        r@ == superchat_wire(m@),
{
    let mut out: Vec<char> = Vec::new();
    append_str(&mut out, "{\"type\":\"superchat\"");
    proof {
        reveal_strlit("{\"type\":\"superchat\"");
        assert(("{\"type\":\"superchat\""@) =~= lit_open_type() + name_superchat() + seq!['"']);
    }
    append_str(&mut out, ",\"id\":\"");
    proof {
        reveal_strlit(",\"id\":\"");
        assert((",\"id\":\""@) =~= key_id());
    }
    push_escaped(&mut out, m.id.as_str());
    append_str(&mut out, "\",\"display_name\":\"");
    proof {
        reveal_strlit("\",\"display_name\":\"");
        assert(("\",\"display_name\":\""@) =~= seq!['"'] + key_display_name());
    }
    push_escaped(&mut out, m.display_name.as_str());
    append_str(&mut out, "\",\"message\":\"");
    proof {
        reveal_strlit("\",\"message\":\"");
        assert(("\",\"message\":\""@) =~= seq!['"'] + key_message());
    }
    push_escaped(&mut out, m.content.as_str());
    append_str(&mut out, "\",\"superchat\":{\"amount\":");
    proof {
        reveal_strlit("\",\"superchat\":{\"amount\":");
        assert(("\",\"superchat\":{\"amount\":"@) =~= seq!['"'] + key_superchat_amount());
    }
    push_amount(&mut out, m.superchat.amount_nanos);
    append_str(&mut out, ",\"coin\":\"");
    proof {
        reveal_strlit(",\"coin\":\"");
        assert((",\"coin\":\""@) =~= key_coin());
    }
    push_escaped(&mut out, m.superchat.coin.as_str());
    append_str(&mut out, "\",\"tx_hash\":\"");
    proof {
        reveal_strlit("\",\"tx_hash\":\"");
        assert(("\",\"tx_hash\":\""@) =~= seq!['"'] + key_tx_hash());
    }
    push_escaped(&mut out, m.superchat.tx_hash.as_str());
    append_str(&mut out, "\",\"wallet_address\":\"");
    proof {
        reveal_strlit("\",\"wallet_address\":\"");
        assert(("\",\"wallet_address\":\""@) =~= seq!['"'] + key_wallet_address());
    }
    push_escaped(&mut out, m.superchat.wallet_address.as_str());
    append_str(&mut out, "\"}");
    proof {
        reveal_strlit("\"}");
        assert(("\"}"@) =~= seq!['"', '}']);
    }
    match m.timestamp {
        Some(t) => {
            append_str(&mut out, ",\"timestamp\":");
            proof {
                reveal_strlit(",\"timestamp\":");
                assert((",\"timestamp\":"@) =~= key_timestamp());
            }
            push_int_i64(&mut out, t);
            out.push('}');
        },
        None => {
            out.push('}');
        },
    }
    proof {
        assert(out@ =~= superchat_wire(m@));
    }
    chars_to_string(&out)
}

/// Encode a structured error response for the wire.
pub fn serialize_error(message: &str, timestamp: &str) -> (r: String)
    ensures
        r@ == error_wire(message@, timestamp@),
{
    let mut out: Vec<char> = Vec::new();
    append_str(&mut out, "{\"type\":\"error\",\"message\":\"");
    proof {
        reveal_strlit("{\"type\":\"error\",\"message\":\"");
        assert(("{\"type\":\"error\",\"message\":\""@) =~= lit_error_head());
    }
    push_escaped(&mut out, message);
    append_str(&mut out, "\",\"timestamp\":\"");
    proof {
        reveal_strlit("\",\"timestamp\":\"");
        assert(("\",\"timestamp\":\""@) =~= lit_error_mid());
    }
    push_escaped(&mut out, timestamp);
    append_str(&mut out, "\"}");
    proof {
        reveal_strlit("\"}");
        assert(("\"}"@) =~= seq!['"', '}']);
    }
    proof {
        assert(out@ =~= error_wire(message@, timestamp@));
    }
    chars_to_string(&out)
}

} // verus!
