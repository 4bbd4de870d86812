//! The codec round-trip law: parsing the encoding of a message yields
//! the message back.

use vstd::prelude::*;
use crate::messages::{MessageType, ChatMessageView, SuperchatMessageView, SuperchatDataView,
    ClientMessageView, NANOS_PER_COIN};
use crate::wire::{is_ws, is_digit, is_hex, digit_val, hex_val, digit_char, hex_char, escape_char,
    escape_string, dec_digits, int_text, pad_digits, trim_zeros, amount_text, lit_open_type,
    name_chat, name_superchat, key_id, key_display_name, key_message, key_superchat_amount,
    key_coin, key_tx_hash, key_wallet_address, key_timestamp, timestamp_tail, head_wire,
    members_wire, superchat_obj_wire, chat_wire, superchat_wire};
use crate::json::{skip_ws, expect, parse_string_body, digit_span, digits_value, pow10, parse_nat,
    parse_int, parse_amount, lemma_pow10_pos, lemma_pow10_le, lemma_pow10_add};
use crate::decode::{quoted, bare_type, bare_id, bare_display_name, bare_message, bare_timestamp,
    bare_superchat, bare_amount, bare_coin, bare_tx_hash, bare_wallet_address,
    parse_member_string, parse_member_int, parse_timestamp_tail, parse_chat_rest,
    parse_superchat_obj, parse_superchat_obj_head, parse_superchat_obj_tail,
    parse_superchat_rest, parse_type, parse_client_message_spec,
    opt_int_to_i64, opt_i64_to_int};

verus! {

/// Text that starts with no whitespace is left alone.
proof fn lemma_skip_ws_id(s: Seq<char>)
    requires
        s.len() == 0 || !is_ws(s[0]),
    ensures
        skip_ws(s) == s,
{
}

/// A literal at the head of the text is consumed exactly.
proof fn lemma_expect_exact(lit: Seq<char>, rest: Seq<char>)
    requires
        lit.len() > 0,
        !is_ws(lit[0]),
    ensures
        expect(lit + rest, lit) == Some(rest),
{
    let s = lit + rest;
    assert(s[0] == lit[0]);
    lemma_skip_ws_id(s);
    assert(s.subrange(0, lit.len() as int) =~= lit);
    assert(s.skip(lit.len() as int) =~= rest);
}

/// A one-character literal that does not match is refused.
proof fn lemma_expect_one_mismatch(s: Seq<char>, c: char)
    requires
        s.len() > 0,
        !is_ws(s[0]),
        s[0] != c,
    ensures
        expect(s, seq![c]) is None,
{
    lemma_skip_ws_id(s);
    if s.subrange(0, 1) == seq![c] {
        assert(s.subrange(0, 1)[0] == s[0]);
    }
}

/// A character that needs no escaping.
pub open spec fn plain_char(c: char) -> bool {
    c != '"' && c != '\\' && (c as u32) >= 32
}

/// Plain text is its own escape.
proof fn lemma_escape_plain(s: Seq<char>)
    requires
        forall|i: int| 0 <= i < s.len() ==> plain_char(#[trigger] s[i]),
    ensures
        escape_string(s) == s,
    decreases s.len(),
{
    if s.len() > 0 {
        assert(plain_char(s[0]));
        assert(escape_char(s[0]) == seq![s[0]]);
        assert(forall|i: int| 0 <= i < s.skip(1).len() ==> plain_char(#[trigger] s.skip(1)[i]));
        lemma_escape_plain(s.skip(1));
        assert(escape_string(s) =~= s);
    }
}

/// Hexadecimal characters decode to the value they encode.
proof fn lemma_hex_round(n: nat)
    requires
        n < 16,
    ensures
        is_hex(hex_char(n)),
        hex_val(hex_char(n)) == n,
{
    if n < 10 {
        assert(hex_char(n) == digit_char(n));
        assert('0' <= digit_char(n) && digit_char(n) <= '9');
    } else {
        assert('a' <= hex_char(n) && hex_char(n) <= 'f');
    }
}

/// Parsing a string body that was produced by escaping recovers the
/// original text and leaves what follows the closing quote.
proof fn lemma_parse_string_escaped(v: Seq<char>, rest: Seq<char>)
    ensures
        parse_string_body(escape_string(v) + seq!['"'] + rest) == Some((v, rest)),
    decreases v.len(),
{
    if v.len() == 0 {
        let s = escape_string(v) + seq!['"'] + rest;
        assert(s =~= seq!['"'] + rest);
        assert(s[0] == '"');
        assert(s.skip(1) =~= rest);
    } else {
        let c = v[0];
        let t = escape_string(v.skip(1)) + seq!['"'] + rest;
        lemma_parse_string_escaped(v.skip(1), rest);
        let s = escape_string(v) + seq!['"'] + rest;
        assert(s =~= escape_char(c) + t);
        if plain_char(c) && c != '\n' && c != '\r' && c != '\t' {
            assert(escape_char(c) == seq![c]);
            assert(s[0] == c);
            assert(s.skip(1) =~= t);
            assert(parse_string_body(s) == Some((seq![c] + v.skip(1), rest)));
            assert(seq![c] + v.skip(1) =~= v);
        } else if c == '"' || c == '\\' || c == '\n' || c == '\r' || c == '\t' {
            assert(s[0] == '\\');
            assert(s[1] == escape_char(c)[1]);
            assert(s.skip(2) =~= t);
            assert(parse_string_body(s) == Some((seq![c] + v.skip(1), rest)));
            assert(seq![c] + v.skip(1) =~= v);
        } else {
            let code = c as u32;
            assert(code < 32);
            let h1 = hex_char((code / 16) as nat);
            let h2 = hex_char((code % 16) as nat);
            assert(escape_char(c) == seq!['\\', 'u', '0', '0', h1, h2]);
            assert(s[0] == '\\');
            assert(s[1] == 'u');
            assert(s[2] == '0');
            assert(s[3] == '0');
            assert(s[4] == h1);
            assert(s[5] == h2);
            assert(s.len() >= 6);
            lemma_hex_round((code / 16) as nat);
            lemma_hex_round((code % 16) as nat);
            assert(hex_val(s[4]) * 16 + hex_val(s[5]) == code);
            let d = (((hex_val(s[4]) * 16 + hex_val(s[5])) as u8) as char);
            assert((code as u8) as u32 == code);
            assert(d as u32 == code);
            assert(d as u32 == c as u32);
            vstd::utf8::char_u32_cast(c, c as u32);
            vstd::utf8::char_u32_cast(d, d as u32);
            assert(d == c);
            assert(s.skip(6) =~= t);
            assert(parse_string_body(s) == Some((seq![c] + v.skip(1), rest)));
            assert(seq![c] + v.skip(1) =~= v);
        }
    }
}

/// Every character of a decimal rendering is a digit.
proof fn lemma_dec_digits_are_digits(n: nat)
    ensures
        forall|i: int| 0 <= i < dec_digits(n).len() ==> is_digit(#[trigger] dec_digits(n)[i]),
        dec_digits(n).len() >= 1,
    decreases n,
{
    if n < 10 {
        assert(is_digit(digit_char(n)));
        assert(dec_digits(n)[0] == digit_char(n));
    } else {
        lemma_dec_digits_are_digits(n / 10);
        assert(is_digit(digit_char(n % 10)));
        assert forall|i: int| 0 <= i < dec_digits(n).len() implies is_digit(
            #[trigger] dec_digits(n)[i],
        ) by {
            if i < dec_digits(n / 10).len() {
                assert(dec_digits(n)[i] == dec_digits(n / 10)[i]);
            } else {
                assert(dec_digits(n)[i] == digit_char(n % 10));
            }
        }
    }
}

/// A number below ten to the `k` is rendered in at most `k` digits.
proof fn lemma_dec_digits_len(n: nat, k: nat)
    requires
        k >= 1,
        n < pow10(k),
    ensures
        dec_digits(n).len() <= k,
    decreases n,
{
    if n < 10 {
    } else {
        assert(pow10(k) == 10 * pow10((k - 1) as nat));
        assert(n / 10 < pow10((k - 1) as nat));
        assert(k - 1 >= 1) by {
            if k == 1 {
                assert(pow10(1) == 10) by {
                    reveal_with_fuel(pow10, 3);
                }
            }
        }
        lemma_dec_digits_len(n / 10, (k - 1) as nat);
    }
}

/// A positive number's rendering does not start with a zero.
proof fn lemma_dec_digits_first(n: nat)
    requires
        n > 0,
    ensures
        dec_digits(n)[0] != '0',
    decreases n,
{
    if n < 10 {
        assert(digit_char(n) as u32 == ('0' as u32) + n);
    } else {
        lemma_dec_digits_first(n / 10);
        assert(dec_digits(n)[0] == dec_digits(n / 10)[0]);
    }
}

/// The value of a decimal rendering is the number itself.
proof fn lemma_dec_digits_value(n: nat)
    ensures
        digits_value(dec_digits(n)) == n,
    decreases n,
{
    assert(digits_value(Seq::<char>::empty()) == 0);
    if n < 10 {
        let s = dec_digits(n);
        assert(s.drop_last() =~= Seq::<char>::empty());
        assert(s.last() == digit_char(n));
        assert(digit_val(digit_char(n)) == n);
        assert(digits_value(s) == digits_value(s.drop_last()) * 10 + digit_val(s.last()));
    } else {
        lemma_dec_digits_value(n / 10);
        let s = dec_digits(n);
        assert(s.drop_last() =~= dec_digits(n / 10));
        assert(s.last() == digit_char(n % 10));
        assert(digit_val(digit_char(n % 10)) == n % 10);
        assert(digits_value(s) == digits_value(s.drop_last()) * 10 + digit_val(s.last()));
    }
}

/// A run of digits followed by a non-digit spans exactly the run.
proof fn lemma_digit_span_concat(d: Seq<char>, rest: Seq<char>)
    requires
        forall|i: int| 0 <= i < d.len() ==> is_digit(#[trigger] d[i]),
        rest.len() == 0 || !is_digit(rest[0]),
    ensures
        digit_span(d + rest) == d.len(),
    decreases d.len(),
{
    let s = d + rest;
    if d.len() == 0 {
        assert(s =~= rest);
    } else {
        assert(s[0] == d[0]);
        assert(s.skip(1) =~= d.skip(1) + rest);
        assert(forall|i: int| 0 <= i < d.skip(1).len() ==> is_digit(#[trigger] d.skip(1)[i]));
        lemma_digit_span_concat(d.skip(1), rest);
    }
}

/// Parsing the rendering of a number below ten to the eighteenth
/// recovers the number.
proof fn lemma_parse_nat_exact(n: nat, rest: Seq<char>)
    requires
        n < pow10(18),
        rest.len() == 0 || !is_digit(rest[0]),
    ensures
        parse_nat(dec_digits(n) + rest) == Some((n, rest)),
{
    let d = dec_digits(n);
    let s = d + rest;
    lemma_dec_digits_are_digits(n);
    lemma_dec_digits_len(n, 18);
    lemma_digit_span_concat(d, rest);
    let k = digit_span(s);
    assert(k == d.len());
    assert(1 <= k <= 18);
    if n > 0 {
        lemma_dec_digits_first(n);
        assert(s[0] == d[0]);
        assert(!(s[0] == '0' && k > 1));
    } else {
        assert(d =~= seq![digit_char(0)]);
        assert(k == 1);
    }
    assert(s.subrange(0, k as int) =~= d);
    lemma_dec_digits_value(n);
    assert(s.skip(k as int) =~= rest);
}

/// Parsing the rendering of an integer of at most eighteen digits
/// recovers the integer.
proof fn lemma_parse_int_exact(t: int, rest: Seq<char>)
    requires
        -pow10(18) < t < pow10(18),
        rest.len() == 0 || !is_digit(rest[0]),
    ensures
        parse_int(int_text(t) + rest) == Some((t, rest)),
{
    if t < 0 {
        let m = (-t) as nat;
        let s = int_text(t) + rest;
        assert(s =~= seq!['-'] + (dec_digits(m) + rest));
        assert(s[0] == '-');
        lemma_skip_ws_id(s);
        assert(s.skip(1) =~= dec_digits(m) + rest);
        lemma_parse_nat_exact(m, rest);
    } else {
        let s = int_text(t) + rest;
        assert(s =~= dec_digits(t as nat) + rest);
        lemma_dec_digits_are_digits(t as nat);
        assert(s[0] == dec_digits(t as nat)[0]);
        assert(is_digit(s[0]));
        assert(!is_ws(s[0]));
        assert(s[0] != '-');
        lemma_skip_ws_id(s);
        lemma_parse_nat_exact(t as nat, rest);
    }
}

/// Padded digits are digits and have the asked width.
proof fn lemma_pad_digits_shape(n: nat, w: nat)
    ensures
        pad_digits(n, w).len() == w,
        forall|i: int| 0 <= i < w ==> is_digit(#[trigger] pad_digits(n, w)[i]),
    decreases w,
{
    if w > 0 {
        lemma_pad_digits_shape(n / 10, (w - 1) as nat);
        assert(is_digit(digit_char(n % 10)));
        assert forall|i: int| 0 <= i < w implies is_digit(#[trigger] pad_digits(n, w)[i]) by {
            if i < w - 1 {
                assert(pad_digits(n, w)[i] == pad_digits(n / 10, (w - 1) as nat)[i]);
            } else {
                assert(pad_digits(n, w)[i] == digit_char(n % 10));
            }
        }
    }
}

/// The value of padding a number below ten to the `w` is the number.
proof fn lemma_pad_digits_value(n: nat, w: nat)
    requires
        n < pow10(w),
    ensures
        digits_value(pad_digits(n, w)) == n,
    decreases w,
{
    if w == 0 {
        assert(pow10(0) == 1);
        assert(digits_value(pad_digits(n, 0)) == 0);
    } else {
        assert(pow10(w) == 10 * pow10((w - 1) as nat));
        assert(n / 10 < pow10((w - 1) as nat));
        lemma_pad_digits_value(n / 10, (w - 1) as nat);
        let s = pad_digits(n, w);
        lemma_pad_digits_shape(n / 10, (w - 1) as nat);
        assert(s.drop_last() =~= pad_digits(n / 10, (w - 1) as nat));
        assert(s.last() == digit_char(n % 10));
        assert(digit_val(digit_char(n % 10)) == n % 10);
        assert(digits_value(s) == digits_value(s.drop_last()) * 10 + digit_val(s.last()));
    }
}

/// Trimming keeps the digit property.
proof fn lemma_trim_digits(s: Seq<char>)
    requires
        forall|i: int| 0 <= i < s.len() ==> is_digit(#[trigger] s[i]),
    ensures
        trim_zeros(s).len() <= s.len(),
        forall|i: int| 0 <= i < trim_zeros(s).len() ==> is_digit(#[trigger] trim_zeros(s)[i]),
    decreases s.len(),
{
    if s.len() > 0 && s.last() == '0' {
        assert(forall|i: int|
            0 <= i < s.drop_last().len() ==> is_digit(#[trigger] s.drop_last()[i]));
        lemma_trim_digits(s.drop_last());
    }
}

/// Trimming trailing zeros keeps the scaled value.
proof fn lemma_trim_value(s: Seq<char>, w: nat)
    requires
        s.len() <= w,
    ensures
        digits_value(trim_zeros(s)) * pow10((w - trim_zeros(s).len()) as nat) == digits_value(s)
            * pow10((w - s.len()) as nat),
        trim_zeros(s).len() <= s.len(),
    decreases s.len(),
{
    if s.len() > 0 && s.last() == '0' {
        let d = s.drop_last();
        assert(digits_value(s) == digits_value(d) * 10 + digit_val('0'));
        assert(digit_val('0') == 0);
        lemma_trim_value(d, w);
        let wl = (w - s.len()) as nat;
        assert(pow10(wl + 1) == 10 * pow10(wl));
        assert((digits_value(d) * 10) * pow10(wl) == digits_value(d) * (10 * pow10(wl)))
            by (nonlinear_arith);
        assert(digits_value(s) * pow10(wl) == digits_value(d) * pow10((w - d.len()) as nat));
    }
}

/// The trimmed fraction digits scale back to the fraction.
proof fn lemma_frac_digits(frac: nat)
    requires
        0 < frac < pow10(9),
    ensures
        1 <= trim_zeros(pad_digits(frac, 9)).len() <= 9,
        forall|i: int|
            0 <= i < trim_zeros(pad_digits(frac, 9)).len() ==> is_digit(
                #[trigger] trim_zeros(pad_digits(frac, 9))[i],
            ),
        digits_value(trim_zeros(pad_digits(frac, 9))) * pow10(
            (9 - trim_zeros(pad_digits(frac, 9)).len()) as nat,
        ) == frac,
{
    let pad = pad_digits(frac, 9);
    let trimmed = trim_zeros(pad);
    lemma_pad_digits_shape(frac, 9);
    lemma_trim_digits(pad);
    lemma_trim_value(pad, 9);
    lemma_pad_digits_value(frac, 9);
    assert(pow10(0) == 1);
    assert(pad.len() == 9);
    assert(digits_value(pad) == frac);
    assert(pow10((9 - pad.len()) as nat) == 1);
    assert(digits_value(pad) * pow10((9 - pad.len()) as nat) == frac);
    if trimmed.len() == 0 {
        assert(digits_value(Seq::<char>::empty()) == 0);
        assert(trimmed =~= Seq::<char>::empty());
        assert(digits_value(trimmed) == 0);
        assert(digits_value(trimmed) * pow10((9 - trimmed.len()) as nat) == 0)
            by (nonlinear_arith)
            requires
                digits_value(trimmed) == 0,
        ;
        assert(frac == 0);
    }
}

/// Parsing the rendering of a coin amount recovers the nano-units.
#[verifier::rlimit(100)]
proof fn lemma_parse_amount_exact(nanos: nat, rest: Seq<char>)
    requires
        nanos < pow10(19),
        rest.len() == 0 || (!is_digit(rest[0]) && rest[0] != '.'),
    ensures
        parse_amount(amount_text(nanos) + rest) == Some((nanos, rest)),
{
    let b = NANOS_PER_COIN as nat;
    assert(b == pow10(9)) by {
        reveal_with_fuel(pow10, 10);
    }
    let whole = nanos / b;
    let frac = nanos % b;
    assert(whole < pow10(10)) by {
        lemma_pow10_add(10, 9);
        assert(nanos >= whole * b) by (nonlinear_arith)
            requires
                whole == nanos / b,
                b > 0,
        ;
        if whole >= pow10(10) {
            assert(whole * b >= pow10(10) * b) by (nonlinear_arith)
                requires
                    whole >= pow10(10),
                    b > 0,
            ;
        }
    }
    lemma_dec_digits_are_digits(whole);
    lemma_dec_digits_len(whole, 10);
    if frac == 0 {
        let s = amount_text(nanos) + rest;
        assert(amount_text(nanos) == dec_digits(whole));
        lemma_digit_span_concat(dec_digits(whole), rest);
        let k = digit_span(s);
        assert(s =~= dec_digits(whole) + rest);
        assert(k == dec_digits(whole).len());
        assert(1 <= k <= 10);
        assert(s[0] == dec_digits(whole)[0]);
        assert(!is_ws(s[0]));
        lemma_skip_ws_id(s);
        if whole > 0 {
            lemma_dec_digits_first(whole);
        } else {
            assert(dec_digits(whole) =~= seq![digit_char(0)]);
        }
        assert(s.subrange(0, k as int) =~= dec_digits(whole));
        lemma_dec_digits_value(whole);
        assert(s.skip(k as int) =~= rest);
        if rest.len() > 0 {
            assert(rest[0] != '.');
        }
        assert(nanos == whole * 1_000_000_000);
    } else {
        let trimmed = trim_zeros(pad_digits(frac, 9));
        let s = amount_text(nanos) + rest;
        assert(amount_text(nanos) == dec_digits(whole) + seq!['.'] + trimmed);
        let tail = seq!['.'] + trimmed + rest;
        assert(s =~= dec_digits(whole) + tail);
        assert(!is_digit('.'));
        lemma_digit_span_concat(dec_digits(whole), tail);
        let k = digit_span(s);
        assert(k == dec_digits(whole).len());
        assert(s[0] == dec_digits(whole)[0]);
        assert(!is_ws(s[0]));
        lemma_skip_ws_id(s);
        if whole > 0 {
            lemma_dec_digits_first(whole);
        } else {
            assert(dec_digits(whole) =~= seq![digit_char(0)]);
        }
        assert(s.subrange(0, k as int) =~= dec_digits(whole));
        lemma_dec_digits_value(whole);
        let r = s.skip(k as int);
        assert(r =~= tail);
        assert(r[0] == '.');
        let f = r.skip(1);
        assert(f =~= trimmed + rest);
        lemma_frac_digits(frac);
        lemma_digit_span_concat(trimmed, rest);
        let kf = digit_span(f);
        assert(kf == trimmed.len());
        assert(digits_value(trimmed) * pow10((9 - kf) as nat) == frac);
        assert(1 <= kf <= 9);
        assert(f.subrange(0, kf as int) =~= trimmed);
        assert(f.skip(kf as int) =~= rest);
        assert(whole * 1_000_000_000 + digits_value(trimmed) * pow10((9 - kf) as nat) == nanos);
    }
}

/// A member wire piece: `,"key":"value"`.
proof fn lemma_member_string(key: Seq<char>, v: Seq<char>, rest: Seq<char>)
    ensures
        parse_member_string(
            seq![','] + quoted(key) + seq![':'] + seq!['"'] + escape_string(v) + seq!['"'] + rest,
            key,
        ) == Some((v, rest)),
{
    let s = seq![','] + quoted(key) + seq![':'] + seq!['"'] + escape_string(v) + seq!['"'] + rest;
    let r1 = quoted(key) + seq![':'] + seq!['"'] + escape_string(v) + seq!['"'] + rest;
    assert(s =~= seq![','] + r1);
    lemma_expect_exact(seq![','], r1);
    let r2 = seq![':'] + seq!['"'] + escape_string(v) + seq!['"'] + rest;
    assert(r1 =~= quoted(key) + r2);
    assert(quoted(key)[0] == '"');
    lemma_expect_exact(quoted(key), r2);
    let r3 = seq!['"'] + escape_string(v) + seq!['"'] + rest;
    assert(r2 =~= seq![':'] + r3);
    lemma_expect_exact(seq![':'], r3);
    let r4 = escape_string(v) + seq!['"'] + rest;
    assert(r3 =~= seq!['"'] + r4);
    lemma_expect_exact(seq!['"'], r4);
    assert(r4 =~= escape_string(v) + seq!['"'] + rest);
    lemma_parse_string_escaped(v, rest);
}

/// A member wire piece with an integer value: `,"key":t`.
proof fn lemma_member_int(key: Seq<char>, t: int, rest: Seq<char>)
    requires
        -pow10(18) < t < pow10(18),
        rest.len() == 0 || !is_digit(rest[0]),
    ensures
        parse_member_int(seq![','] + quoted(key) + seq![':'] + int_text(t) + rest, key) == Some(
            (t, rest),
        ),
{
    let s = seq![','] + quoted(key) + seq![':'] + int_text(t) + rest;
    let r1 = quoted(key) + seq![':'] + int_text(t) + rest;
    assert(s =~= seq![','] + r1);
    lemma_expect_exact(seq![','], r1);
    let r2 = seq![':'] + int_text(t) + rest;
    assert(r1 =~= quoted(key) + r2);
    assert(quoted(key)[0] == '"');
    lemma_expect_exact(quoted(key), r2);
    let r3 = int_text(t) + rest;
    assert(r2 =~= seq![':'] + r3);
    lemma_expect_exact(seq![':'], r3);
    lemma_parse_int_exact(t, rest);
}

/// The timestamp tail round-trips.
proof fn lemma_timestamp_tail(ts: Option<i64>, rest: Seq<char>)
    requires
        match ts {
            Some(t) => -pow10(18) < (t as int) && (t as int) < pow10(18),
            None => true,
        },
        rest.len() == 0 || !is_ws(rest[0]),
    ensures
        parse_timestamp_tail(timestamp_tail(ts) + rest) == Some((opt_i64_to_int(ts), rest)),
{
    match ts {
        None => {
            let s = timestamp_tail(ts) + rest;
            assert(s =~= seq!['}'] + rest);
            lemma_expect_exact(seq!['}'], rest);
        },
        Some(t) => {
            let s = timestamp_tail(ts) + rest;
            let inner = seq!['}'] + rest;
            let body = seq![','] + quoted(bare_timestamp()) + seq![':'] + int_text(t as int)
                + inner;
            assert(key_timestamp() =~= seq![','] + quoted(bare_timestamp()) + seq![':']);
            assert(s =~= body);
            assert(s[0] == ',');
            lemma_expect_one_mismatch(s, '}');
            assert(inner.len() > 0 && !is_digit(inner[0]));
            lemma_member_int(bare_timestamp(), t as int, inner);
            assert(inner =~= seq!['}'] + rest);
            lemma_expect_exact(seq!['}'], rest);
        },
    }
}

/// The head of a canonical message parses to its type name.
proof fn lemma_parse_type_exact(tname: Seq<char>, rest: Seq<char>)
    requires
        forall|i: int| 0 <= i < tname.len() ==> plain_char(#[trigger] tname[i]),
    ensures
        parse_type(head_wire(tname) + rest) == Some((tname, rest)),
{
    let s = head_wire(tname) + rest;
    let r1 = quoted(bare_type()) + seq![':'] + seq!['"'] + tname + seq!['"'] + rest;
    assert(lit_open_type() =~= seq!['{'] + quoted(bare_type()) + seq![':'] + seq!['"']);
    assert(s =~= seq!['{'] + r1);
    lemma_expect_exact(seq!['{'], r1);
    let r2 = seq![':'] + seq!['"'] + tname + seq!['"'] + rest;
    assert(r1 =~= quoted(bare_type()) + r2);
    assert(quoted(bare_type())[0] == '"');
    lemma_expect_exact(quoted(bare_type()), r2);
    let r3 = seq!['"'] + tname + seq!['"'] + rest;
    assert(r2 =~= seq![':'] + r3);
    lemma_expect_exact(seq![':'], r3);
    let r4 = tname + seq!['"'] + rest;
    assert(r3 =~= seq!['"'] + r4);
    lemma_expect_exact(seq!['"'], r4);
    lemma_escape_plain(tname);
    assert(r4 =~= escape_string(tname) + seq!['"'] + rest);
    lemma_parse_string_escaped(tname, rest);
}

/// The three shared string members parse to their values in turn.
proof fn lemma_members3(id: Seq<char>, dn: Seq<char>, content: Seq<char>, rest: Seq<char>)
    ensures
        ({
            let w1 = key_display_name() + escape_string(dn) + seq!['"'] + key_message()
                + escape_string(content) + seq!['"'] + rest;
            let w2 = key_message() + escape_string(content) + seq!['"'] + rest;
            &&& parse_member_string(members_wire(id, dn, content) + rest, bare_id()) == Some(
                (id, w1),
            )
            &&& parse_member_string(w1, bare_display_name()) == Some((dn, w2))
            &&& parse_member_string(w2, bare_message()) == Some((content, rest))
        }),
{
    let w1 = key_display_name() + escape_string(dn) + seq!['"'] + key_message() + escape_string(
        content,
    ) + seq!['"'] + rest;
    let w2 = key_message() + escape_string(content) + seq!['"'] + rest;
    assert(key_id() =~= seq![','] + quoted(bare_id()) + seq![':'] + seq!['"']);
    assert(key_display_name() =~= seq![','] + quoted(bare_display_name()) + seq![':'] + seq!['"']);
    assert(key_message() =~= seq![','] + quoted(bare_message()) + seq![':'] + seq!['"']);
    assert(members_wire(id, dn, content) + rest =~= seq![','] + quoted(bare_id()) + seq![':']
        + seq!['"'] + escape_string(id) + seq!['"'] + w1);
    lemma_member_string(bare_id(), id, w1);
    assert(w1 =~= seq![','] + quoted(bare_display_name()) + seq![':'] + seq!['"'] + escape_string(
        dn,
    ) + seq!['"'] + w2);
    lemma_member_string(bare_display_name(), dn, w2);
    assert(w2 =~= seq![','] + quoted(bare_message()) + seq![':'] + seq!['"'] + escape_string(
        content,
    ) + seq!['"'] + rest);
    lemma_member_string(bare_message(), content, rest);
}

/// What follows the amount inside the superchat object.
spec fn obj_after_amount(d: SuperchatDataView, rest: Seq<char>) -> Seq<char> {
    seq![','] + quoted(bare_coin()) + seq![':'] + seq!['"'] + escape_string(d.coin) + seq!['"']
        + obj_after_coin(d, rest)
}

/// What follows the coin inside the superchat object.
spec fn obj_after_coin(d: SuperchatDataView, rest: Seq<char>) -> Seq<char> {
    seq![','] + quoted(bare_tx_hash()) + seq![':'] + seq!['"'] + escape_string(d.tx_hash)
        + seq!['"'] + obj_after_tx(d, rest)
}

/// What follows the transaction hash inside the superchat object.
spec fn obj_after_tx(d: SuperchatDataView, rest: Seq<char>) -> Seq<char> {
    seq![','] + quoted(bare_wallet_address()) + seq![':'] + seq!['"'] + escape_string(
        d.wallet_address,
    ) + seq!['"'] + (seq!['}'] + rest)
}

/// The head of the superchat object parses to the amount, whatever
/// follows it after the comma.
#[verifier::rlimit(100)]
proof fn lemma_obj_head_any(nanos: nat, after: Seq<char>)
    requires
        nanos < pow10(19),
        after.len() > 0,
        after[0] == ',',
    ensures
        parse_superchat_obj_head(key_superchat_amount() + amount_text(nanos) + after) == Some(
            (nanos, after),
        ),
{
    let amount = amount_text(nanos);
    assert(key_superchat_amount() =~= seq![','] + quoted(bare_superchat()) + seq![':'] + seq!['{']
        + quoted(bare_amount()) + seq![':']);
    let s = key_superchat_amount() + amount + after;
    let r0 = quoted(bare_superchat()) + seq![':'] + seq!['{'] + quoted(bare_amount()) + seq![':']
        + amount + after;
    assert(s =~= seq![','] + r0);
    lemma_expect_exact(seq![','], r0);
    let r1 = seq![':'] + seq!['{'] + quoted(bare_amount()) + seq![':'] + amount + after;
    assert(r0 =~= quoted(bare_superchat()) + r1);
    assert(quoted(bare_superchat())[0] == '"');
    lemma_expect_exact(quoted(bare_superchat()), r1);
    let r2 = seq!['{'] + quoted(bare_amount()) + seq![':'] + amount + after;
    assert(r1 =~= seq![':'] + r2);
    lemma_expect_exact(seq![':'], r2);
    let r3 = quoted(bare_amount()) + seq![':'] + amount + after;
    assert(r2 =~= seq!['{'] + r3);
    lemma_expect_exact(seq!['{'], r3);
    let r4 = seq![':'] + amount + after;
    assert(r3 =~= quoted(bare_amount()) + r4);
    assert(quoted(bare_amount())[0] == '"');
    lemma_expect_exact(quoted(bare_amount()), r4);
    let r5 = amount + after;
    assert(r4 =~= seq![':'] + r5);
    lemma_expect_exact(seq![':'], r5);
    assert(!is_digit(after[0]) && after[0] != '.');
    lemma_parse_amount_exact(nanos, after);
}

/// The tail of the superchat object parses to the remaining fields.
#[verifier::rlimit(100)]
proof fn lemma_obj_tail_exact(d: SuperchatDataView, rest: Seq<char>)
    ensures
        parse_superchat_obj_tail(d.amount_nanos as nat, obj_after_amount(d, rest)) == Some(
            (d, rest),
        ),
{
    lemma_member_string(bare_coin(), d.coin, obj_after_coin(d, rest));
    lemma_member_string(bare_tx_hash(), d.tx_hash, obj_after_tx(d, rest));
    lemma_member_string(bare_wallet_address(), d.wallet_address, seq!['}'] + rest);
    lemma_expect_exact(seq!['}'], rest);
    assert((d.amount_nanos as nat) as u64 == d.amount_nanos);
}

/// The superchat object member parses to its data.
#[verifier::rlimit(100)]
proof fn lemma_superchat_obj_exact(d: SuperchatDataView, rest: Seq<char>)
    requires
        d.amount_nanos < 10_000_000_000_000_000_000u64,
        rest.len() == 0 || !is_ws(rest[0]),
    ensures
        parse_superchat_obj(superchat_obj_wire(d) + rest) == Some((d, rest)),
{
    assert(pow10(19) == 10_000_000_000_000_000_000) by {
        reveal_with_fuel(pow10, 20);
    }
    let after = obj_after_amount(d, rest);
    assert(after[0] == ',');
    assert(superchat_obj_wire(d) + rest =~= key_superchat_amount() + amount_text(
        d.amount_nanos as nat,
    ) + after);
    lemma_obj_head_any(d.amount_nanos as nat, after);
    lemma_obj_tail_exact(d, rest);
}

/// Parsing the wire text of a chat message yields the message.
///
/// Holds for every chat message whose timestamp, if present, is below
/// ten to the eighteenth in magnitude, as every real Unix-millisecond
/// stamp is.
#[verifier::rlimit(60)]
pub proof fn lemma_chat_round_trip(m: ChatMessageView)
    requires
        m.message_type == MessageType::Chat,
        match m.timestamp {
            Some(t) => -1_000_000_000_000_000_000 < t < 1_000_000_000_000_000_000,
            None => true,
        },
    ensures
        parse_client_message_spec(chat_wire(m)) == Some(ClientMessageView::Chat(m)),
{
    assert(pow10(18) == 1_000_000_000_000_000_000) by {
        reveal_with_fuel(pow10, 19);
    }
    let tail = timestamp_tail(m.timestamp);
    let body = members_wire(m.id, m.display_name, m.content) + tail;
    assert(chat_wire(m) =~= head_wire(name_chat()) + body);
    assert(forall|i: int| 0 <= i < name_chat().len() ==> plain_char(#[trigger] name_chat()[i]));
    lemma_parse_type_exact(name_chat(), body);
    lemma_members3(m.id, m.display_name, m.content, tail);
    assert(tail =~= timestamp_tail(m.timestamp) + Seq::<char>::empty());
    lemma_timestamp_tail(m.timestamp, Seq::<char>::empty());
    assert(opt_int_to_i64(opt_i64_to_int(m.timestamp)) == m.timestamp);
    assert(skip_ws(Seq::<char>::empty()).len() == 0);
}

/// Parsing the wire text of a superchat message yields the message.
///
/// Holds whenever the amount is below ten to the nineteenth nano-units
/// and the timestamp, if present, is below ten to the eighteenth in
/// magnitude.
#[verifier::rlimit(100)]
pub proof fn lemma_superchat_round_trip(m: SuperchatMessageView)
    requires
        m.message_type == MessageType::Superchat,
        m.superchat.amount_nanos < 10_000_000_000_000_000_000u64,
        match m.timestamp {
            Some(t) => -1_000_000_000_000_000_000 < t < 1_000_000_000_000_000_000,
            None => true,
        },
    ensures
        parse_client_message_spec(superchat_wire(m)) == Some(ClientMessageView::Superchat(m)),
{
    let body = superchat_body_wire(m);
    assert(superchat_wire(m) =~= head_wire(name_superchat()) + body);
    assert(forall|i: int|
        0 <= i < name_superchat().len() ==> plain_char(#[trigger] name_superchat()[i]));
    lemma_parse_type_exact(name_superchat(), body);
    assert(name_superchat() != name_chat());
    lemma_superchat_rest_exact(m);
    assert(skip_ws(Seq::<char>::empty()).len() == 0);
}

/// The wire text of a superchat message after its type.
spec fn superchat_body_wire(m: SuperchatMessageView) -> Seq<char> {
    members_wire(m.id, m.display_name, m.content) + (superchat_obj_wire(m.superchat)
        + timestamp_tail(m.timestamp))
}

/// The members of a canonical superchat message parse to the message.
#[verifier::rlimit(100)]
proof fn lemma_superchat_rest_exact(m: SuperchatMessageView)
    requires
        m.message_type == MessageType::Superchat,
        m.superchat.amount_nanos < 10_000_000_000_000_000_000u64,
        match m.timestamp {
            Some(t) => -1_000_000_000_000_000_000 < t < 1_000_000_000_000_000_000,
            None => true,
        },
    ensures
        parse_superchat_rest(superchat_body_wire(m)) == Some((m, Seq::<char>::empty())),
{
    assert(pow10(18) == 1_000_000_000_000_000_000) by {
        reveal_with_fuel(pow10, 19);
    }
    let tail = timestamp_tail(m.timestamp);
    let obj = superchat_obj_wire(m.superchat);
    lemma_members3(m.id, m.display_name, m.content, obj + tail);
    assert(obj + tail =~= superchat_obj_wire(m.superchat) + tail);
    assert(tail.len() > 0 && !is_ws(tail[0]));
    lemma_superchat_obj_exact(m.superchat, tail);
    assert(tail =~= timestamp_tail(m.timestamp) + Seq::<char>::empty());
    lemma_timestamp_tail(m.timestamp, Seq::<char>::empty());
    assert(opt_int_to_i64(opt_i64_to_int(m.timestamp)) == m.timestamp);
}

} // verus!
