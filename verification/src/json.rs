//! JSON text primitives: whitespace, literals, string bodies, numbers.
//!
//! Each parsing step is defined as a specification function over the
//! remaining characters, and the executable code is verified to follow
//! it exactly.  A parse step consumes a prefix and leaves a suffix of
//! the original text, which the executable side tracks as an index.

use vstd::prelude::*;
use vstd::string::*;
use crate::wire::{is_ws, is_digit, is_hex, digit_val, hex_val};

verus! {

/// Drop leading insignificant whitespace.
pub open spec fn skip_ws(s: Seq<char>) -> Seq<char>
    decreases s.len(),
{
    if s.len() > 0 && is_ws(s[0]) {
        skip_ws(s.skip(1))
    } else {
        s
    }
}

/// Two successive suffixes are one suffix.
pub proof fn lemma_skip_skip(s: Seq<char>, a: int, b: int)
    requires
        0 <= a,
        0 <= b,
        a + b <= s.len(),
    ensures
        s.skip(a).skip(b) == s.skip(a + b),
{
    assert(s.skip(a).skip(b) =~= s.skip(a + b));
}

/// After a literal, the rest of the text; `None` when the literal is
/// not next (whitespace before it is allowed).
pub open spec fn expect(s: Seq<char>, lit: Seq<char>) -> Option<Seq<char>> {
    let t = skip_ws(s);
    if lit.len() <= t.len() && t.subrange(0, lit.len() as int) == lit {
        Some(t.skip(lit.len() as int))
    } else {
        None
    }
}

/// What a single-character escape stands for.
pub open spec fn unescape_simple(c: char) -> Option<char> {
    if c == '"' {
        Some('"')
    } else if c == '\\' {
        Some('\\')
    } else if c == '/' {
        Some('/')
    } else if c == 'n' {
        Some('\n')
    } else if c == 'r' {
        Some('\r')
    } else if c == 't' {
        Some('\t')
    } else if c == 'b' {
        Some('\u{8}')
    } else if c == 'f' {
        Some('\u{c}')
    } else {
        None
    }
}

/// The value and rest of a JSON string body (the text after the opening
/// quote, up to and including the closing quote).  Unicode escapes are
/// accepted for the two-digit form `\u00XX` used for control characters.
pub open spec fn parse_string_body(s: Seq<char>) -> Option<(Seq<char>, Seq<char>)>
    decreases s.len(),
{
    if s.len() == 0 {
        None
    } else if s[0] == '"' {
        Some((Seq::empty(), s.skip(1)))
    } else if s[0] == '\\' {
        if s.len() < 2 {
            None
        } else if s[1] == 'u' {
            if s.len() < 6 {
                None
            } else if s[2] == '0' && s[3] == '0' && is_hex(s[4]) && is_hex(s[5]) {
                match parse_string_body(s.skip(6)) {
                    Some(p) => Some(
                        (seq![(((hex_val(s[4]) * 16 + hex_val(s[5])) as u8) as char)] + p.0, p.1),
                    ),
                    None => None,
                }
            } else {
                None
            }
        } else {
            match unescape_simple(s[1]) {
                Some(c) => match parse_string_body(s.skip(2)) {
                    Some(p) => Some((seq![c] + p.0, p.1)),
                    None => None,
                },
                None => None,
            }
        }
    } else if (s[0] as u32) < 32 {
        None
    } else {
        match parse_string_body(s.skip(1)) {
            Some(p) => Some((seq![s[0]] + p.0, p.1)),
            None => None,
        }
    }
}

/// How many decimal digits start the text.
pub open spec fn digit_span(s: Seq<char>) -> nat
    decreases s.len(),
{
    if s.len() > 0 && is_digit(s[0]) {
        1 + digit_span(s.skip(1))
    } else {
        0
    }
}

/// The digit span never exceeds the text.
pub proof fn lemma_digit_span_le(s: Seq<char>)
    ensures
        digit_span(s) <= s.len(),
    decreases s.len(),
{
    if s.len() > 0 && is_digit(s[0]) {
        lemma_digit_span_le(s.skip(1));
    }
}

/// The value of an all-digit text.
pub open spec fn digits_value(s: Seq<char>) -> nat
    decreases s.len(),
{
    if s.len() == 0 {
        0
    } else {
        digits_value(s.drop_last()) * 10 + digit_val(s.last())
    }
}

/// Powers of ten.
pub open spec fn pow10(k: nat) -> nat
    decreases k,
{
    if k == 0 {
        1
    } else {
        10 * pow10((k - 1) as nat)
    }
}

/// Powers of ten are positive.
pub proof fn lemma_pow10_pos(k: nat)
    ensures
        pow10(k) >= 1,
    decreases k,
{
    if k > 0 {
        lemma_pow10_pos((k - 1) as nat);
    }
}

/// Powers of ten do not decrease.
pub proof fn lemma_pow10_le(a: nat, b: nat)
    requires
        a <= b,
    ensures
        pow10(a) <= pow10(b),
    decreases b,
{
    if a < b {
        lemma_pow10_le(a, (b - 1) as nat);
        lemma_pow10_pos((b - 1) as nat);
    }
}

/// Multiplying powers of ten adds the exponents.
pub proof fn lemma_pow10_add(a: nat, b: nat)
    ensures
        pow10(a + b) == pow10(a) * pow10(b),
    decreases a,
{
    if a == 0 {
        assert(pow10(a) == 1);
        assert(pow10(a + b) == pow10(b));
    } else {
        lemma_pow10_add((a - 1) as nat, b);
        assert(pow10(a + b) == 10 * pow10((a - 1) as nat + b));
        assert(10 * (pow10((a - 1) as nat) * pow10(b)) == (10 * pow10((a - 1) as nat)) * pow10(b))
            by (nonlinear_arith);
        assert(pow10(a + b) == 10 * (pow10((a - 1) as nat) * pow10(b)));
        assert(pow10(a) == 10 * pow10((a - 1) as nat));
        assert(pow10(a + b) == pow10(a) * pow10(b));
    }
}

/// A digit text's value is below ten to its length.
pub proof fn lemma_digits_value_bound(s: Seq<char>)
    requires
        forall|i: int| 0 <= i < s.len() ==> is_digit(#[trigger] s[i]),
    ensures
        digits_value(s) < pow10(s.len() as nat),
    decreases s.len(),
{
    if s.len() > 0 {
        lemma_digits_value_bound(s.drop_last());
    }
}

/// Maximal accepted digit count of an integer.
pub open spec fn max_int_digits() -> nat {
    18
}

/// The value and rest of an unsigned decimal integer of at most 18
/// digits, without leading zeros (after optional whitespace).
pub open spec fn parse_nat(s: Seq<char>) -> Option<(nat, Seq<char>)> {
    let k = digit_span(s);
    if k == 0 || k > max_int_digits() {
        None
    } else if s[0] == '0' && k > 1 {
        None
    } else {
        Some((digits_value(s.subrange(0, k as int)), s.skip(k as int)))
    }
}

/// The value and rest of a decimal integer with an optional sign.
pub open spec fn parse_int(s: Seq<char>) -> Option<(int, Seq<char>)> {
    let t = skip_ws(s);
    if t.len() > 0 && t[0] == '-' {
        match parse_nat(t.skip(1)) {
            Some(p) => Some((-(p.0 as int), p.1)),
            None => None,
        }
    } else {
        match parse_nat(t) {
            Some(p) => Some((p.0 as int, p.1)),
            None => None,
        }
    }
}

/// Any value a successful integer parse yields is below ten to the
/// eighteenth, so it fits the machine types that carry it.
pub proof fn lemma_parse_nat_bound(s: Seq<char>)
    ensures
        match parse_nat(s) {
            Some(p) => p.0 < pow10(max_int_digits()),
            None => true,
        },
{
    let k = digit_span(s);
    if 0 < k <= max_int_digits() && !(s[0] == '0' && k > 1) {
        lemma_digit_span_prefix(s);
        lemma_digit_span_le(s);
        lemma_digits_value_bound(s.subrange(0, k as int));
        lemma_pow10_le(k, max_int_digits());
    }
}

/// The first `digit_span` characters are digits.
pub proof fn lemma_digit_span_prefix(s: Seq<char>)
    ensures
        forall|i: int| 0 <= i < digit_span(s) ==> is_digit(#[trigger] s[i]),
        digit_span(s) == s.len() || !is_digit(s[digit_span(s) as int]),
    decreases s.len(),
{
    lemma_digit_span_le(s);
    if s.len() > 0 && is_digit(s[0]) {
        lemma_digit_span_prefix(s.skip(1));
        lemma_digit_span_le(s.skip(1));
        assert forall|i: int| 0 <= i < digit_span(s) implies is_digit(#[trigger] s[i]) by {
            if i > 0 {
                assert(s.skip(1)[i - 1] == s[i]);
            }
        }
        if digit_span(s) < s.len() {
            assert(s.skip(1)[digit_span(s.skip(1)) as int] == s[digit_span(s) as int]);
        }
    }
}

/// The value and rest of a non-negative fixed-point coin amount: a
/// whole part of at most 10 digits, optionally a point and at most 9
/// fraction digits; the result counts nano-units.
pub open spec fn parse_amount(s: Seq<char>) -> Option<(nat, Seq<char>)> {
    let t = skip_ws(s);
    let k = digit_span(t);
    if k == 0 || k > 10 {
        None
    } else if t[0] == '0' && k > 1 {
        None
    } else {
        let whole = digits_value(t.subrange(0, k as int));
        let r = t.skip(k as int);
        if r.len() > 0 && r[0] == '.' {
            let f = r.skip(1);
            let kf = digit_span(f);
            if kf == 0 || kf > 9 {
                None
            } else {
                let fv = digits_value(f.subrange(0, kf as int));
                Some(
                    (
                        whole * 1_000_000_000 + fv * pow10((9 - kf) as nat),
                        f.skip(kf as int),
                    ),
                )
            }
        } else {
            Some((whole * 1_000_000_000, r))
        }
    }
}

// ---------------------------------------------------------------------
// Executable counterparts.
// ---------------------------------------------------------------------

/// Index just past the leading whitespace.
pub fn skip_ws_exec(chars: &Vec<char>, pos: usize) -> (r: usize)
    requires
        pos <= chars@.len(),
    ensures
        pos <= r <= chars@.len(),
        chars@.skip(r as int) == skip_ws(chars@.skip(pos as int)),
{
    let n = chars.len();
    let mut r = pos;
    while r < n && (chars[r] == ' ' || chars[r] == '\t' || chars[r] == '\n' || chars[r] == '\r')
        invariant
            pos <= r <= n,
            n == chars@.len(),
            skip_ws(chars@.skip(pos as int)) == skip_ws(chars@.skip(r as int)),
        decreases n - r,
    {
        proof {
            assert(chars@.skip(r as int)[0] == chars@[r as int]);
            assert(is_ws(chars@.skip(r as int)[0]));
            lemma_skip_skip(chars@, r as int, 1);
            assert(skip_ws(chars@.skip(r as int)) == skip_ws(chars@.skip(r + 1 as int)));
        }
        r = r + 1;
    }
    proof {
        if r < n {
            assert(chars@.skip(r as int)[0] == chars@[r as int]);
            assert(!is_ws(chars@.skip(r as int)[0]));
        }
        assert(skip_ws(chars@.skip(r as int)) == chars@.skip(r as int));
    }
    r
}

/// Match a literal after optional whitespace; `Some` holds the index
/// just past it.
pub fn expect_exec(chars: &Vec<char>, pos: usize, lit: &str) -> (r: Option<usize>)
    requires
        pos <= chars@.len(),
    ensures
        match r {
            Some(p) => pos <= p <= chars@.len() && expect(chars@.skip(pos as int), lit@) == Some(
                chars@.skip(p as int),
            ),
            None => expect(chars@.skip(pos as int), lit@) is None,
        },
{
    let ghost s = chars@.skip(pos as int);
    let q = skip_ws_exec(chars, pos);
    let ghost t = chars@.skip(q as int);
    let m = lit.unicode_len();
    let n = chars.len();
    if n - q < m {
        proof {
            assert(t.len() < lit@.len());
        }
        return None;
    }
    let mut i: usize = 0;
    while i < m
        invariant
            i <= m,
            m == lit@.len(),
            pos <= q,
            q + m <= n,
            n == chars@.len(),
            t == chars@.skip(q as int),
            t == skip_ws(chars@.skip(pos as int)),
            forall|j: int| 0 <= j < i ==> t[j] == lit@[j],
        decreases m - i,
    {
        if chars[q + i] != lit.get_char(i) {
            proof {
                assert(t[i as int] == chars@[q + i as int]);
                assert(t.subrange(0, m as int)[i as int] == t[i as int]);
                assert(t.subrange(0, lit@.len() as int) != lit@);
                assert(skip_ws(chars@.skip(pos as int)) == t);
                assert(lit@.len() <= t.len());
                assert(expect(chars@.skip(pos as int), lit@) is None);
            }
            return None;
        }
        proof {
            assert(t[i as int] == chars@[q + i as int]);
        }
        i = i + 1;
    }
    proof {
        assert(t.subrange(0, m as int) =~= lit@);
        lemma_skip_skip(chars@, q as int, m as int);
    }
    Some(q + m)
}

/// Map a parse result by putting a prefix before its value.
pub open spec fn prepend_parse(
    prefix: Seq<char>,
    r: Option<(Seq<char>, Seq<char>)>,
) -> Option<(Seq<char>, Seq<char>)> {
    match r {
        Some(p) => Some((prefix + p.0, p.1)),
        None => None,
    }
}

proof fn lemma_prepend_push(prefix: Seq<char>, c: char, r: Option<(Seq<char>, Seq<char>)>)
    ensures
        prepend_parse(prefix, prepend_parse(seq![c], r)) == prepend_parse(prefix.push(c), r),
{
    match r {
        Some(p) => {
            assert(prefix + (seq![c] + p.0) =~= prefix.push(c) + p.0);
        },
        None => {},
    }
}

/// The numeric value of a hexadecimal digit character.
fn hex_val_exec(c: char) -> (r: u32)
    requires
        is_hex(c),
    ensures
        r == hex_val(c),
        r < 16,
{
    let v = c as u32;
    if c >= '0' && c <= '9' {
        v - ('0' as u32)
    } else if c >= 'a' && c <= 'f' {
        v - ('a' as u32) + 10
    } else {
        v - ('A' as u32) + 10
    }
}

fn is_hex_exec(c: char) -> (r: bool)
    ensures
        r == is_hex(c),
{
    (c >= '0' && c <= '9') || (c >= 'a' && c <= 'f') || (c >= 'A' && c <= 'F')
}

/// Parse a JSON string body starting at `pos` (just after the opening
/// quote); `Some` holds the decoded value and the index just past the
/// closing quote.
pub fn parse_string_body_exec(chars: &Vec<char>, pos: usize) -> (r: Option<(Vec<char>, usize)>)
    requires
        pos <= chars@.len(),
    ensures
        match r {
            Some(p) => pos <= p.1 <= chars@.len() && parse_string_body(chars@.skip(pos as int))
                == Some((p.0@, chars@.skip(p.1 as int))),
            None => parse_string_body(chars@.skip(pos as int)) is None,
        },
{
    let n = chars.len();
    let mut cur = pos;
    let mut out: Vec<char> = Vec::new();
    loop
        invariant
            pos <= cur <= n,
            n == chars@.len(),
            parse_string_body(chars@.skip(pos as int)) == prepend_parse(
                out@,
                parse_string_body(chars@.skip(cur as int)),
            ),
        decreases n - cur,
    {
        if cur == n {
            proof {
                assert(chars@.skip(cur as int).len() == 0);
            }
            return None;
        }
        let c = chars[cur];
        let ghost s = chars@.skip(cur as int);
        proof {
            assert(s[0] == chars@[cur as int]);
        }
        if c == '"' {
            proof {
                lemma_skip_skip(chars@, cur as int, 1);
                assert(parse_string_body(s) == Some(
                    (Seq::<char>::empty(), chars@.skip(cur + 1 as int)),
                ));
                assert(out@ + Seq::<char>::empty() =~= out@);
            }
            return Some((out, cur + 1));
        } else if c == '\\' {
            if cur + 1 >= n {
                proof {
                    assert(s.len() < 2);
                }
                return None;
            }
            let e = chars[cur + 1];
            proof {
                assert(s[1] == chars@[cur + 1 as int]);
            }
            if e == 'u' {
                if n - cur < 6 {
                    proof {
                        assert(s.len() < 6);
                    }
                    return None;
                }
                proof {
                    assert(s[2] == chars@[cur + 2 as int]);
                    assert(s[3] == chars@[cur + 3 as int]);
                    assert(s[4] == chars@[cur + 4 as int]);
                    assert(s[5] == chars@[cur + 5 as int]);
                }
                if chars[cur + 2] != '0' || chars[cur + 3] != '0' || !is_hex_exec(chars[cur + 4])
                    || !is_hex_exec(chars[cur + 5]) {
                    return None;
                }
                let v = hex_val_exec(chars[cur + 4]) * 16 + hex_val_exec(chars[cur + 5]);
                let d = (v as u8) as char;
                proof {
                    lemma_skip_skip(chars@, cur as int, 6);
                    assert(parse_string_body(s) == prepend_parse(
                        seq![d],
                        parse_string_body(chars@.skip(cur + 6 as int)),
                    ));
                    lemma_prepend_push(out@, d, parse_string_body(chars@.skip(cur + 6 as int)));
                }
                out.push(d);
                cur = cur + 6;
            } else {
                let decoded: char;
                if e == '"' {
                    decoded = '"';
                } else if e == '\\' {
                    decoded = '\\';
                } else if e == '/' {
                    decoded = '/';
                } else if e == 'n' {
                    decoded = '\n';
                } else if e == 'r' {
                    decoded = '\r';
                } else if e == 't' {
                    decoded = '\t';
                } else if e == 'b' {
                    decoded = '\u{8}';
                } else if e == 'f' {
                    decoded = '\u{c}';
                } else {
                    proof {
                        assert(unescape_simple(s[1]) is None);
                    }
                    return None;
                }
                proof {
                    assert(unescape_simple(s[1]) == Some(decoded));
                    lemma_skip_skip(chars@, cur as int, 2);
                    assert(parse_string_body(s) == prepend_parse(
                        seq![decoded],
                        parse_string_body(chars@.skip(cur + 2 as int)),
                    ));
                    lemma_prepend_push(
                        out@,
                        decoded,
                        parse_string_body(chars@.skip(cur + 2 as int)),
                    );
                }
                out.push(decoded);
                cur = cur + 2;
            }
        } else if (c as u32) < 32 {
            return None;
        } else {
            proof {
                lemma_skip_skip(chars@, cur as int, 1);
                assert(parse_string_body(s) == prepend_parse(
                    seq![c],
                    parse_string_body(chars@.skip(cur + 1 as int)),
                ));
                lemma_prepend_push(out@, c, parse_string_body(chars@.skip(cur + 1 as int)));
            }
            out.push(c);
            cur = cur + 1;
        }
    }
}

/// The length of the digit run starting at `pos`.
pub fn digit_span_exec(chars: &Vec<char>, pos: usize) -> (r: usize)
    requires
        pos <= chars@.len(),
    ensures
        r == digit_span(chars@.skip(pos as int)),
        pos + r <= chars@.len(),
{
    let n = chars.len();
    let mut r = pos;
    while r < n && chars[r] >= '0' && chars[r] <= '9'
        invariant
            pos <= r <= n,
            n == chars@.len(),
            digit_span(chars@.skip(pos as int)) == r - pos + digit_span(chars@.skip(r as int)),
        decreases n - r,
    {
        proof {
            assert(chars@.skip(r as int)[0] == chars@[r as int]);
            lemma_skip_skip(chars@, r as int, 1);
            assert(digit_span(chars@.skip(r as int)) == 1 + digit_span(chars@.skip(r + 1 as int)));
        }
        r = r + 1;
    }
    proof {
        if r < n {
            assert(chars@.skip(r as int)[0] == chars@[r as int]);
        }
        assert(digit_span(chars@.skip(r as int)) == 0);
    }
    r - pos
}

/// Value of the digit run `[pos, pos + k)`, which must be at most 18
/// digits long.
pub(crate) fn digits_value_exec(chars: &Vec<char>, pos: usize, k: usize) -> (r: u64)
    requires
        pos + k <= chars@.len(),
        k <= 18,
        forall|j: int| 0 <= j < k ==> is_digit(#[trigger] chars@.skip(pos as int)[j]),
    ensures
        r == digits_value(chars@.skip(pos as int).subrange(0, k as int)),
        r < pow10(k as nat),
{
    let ghost t = chars@.skip(pos as int);
    let n = chars.len();
    let mut acc: u64 = 0;
    let mut i: usize = 0;
    proof {
        assert(t.subrange(0, 0) =~= Seq::<char>::empty());
    }
    while i < k
        invariant
            i <= k,
            k <= 18,
            pos + k <= n,
            n == chars@.len(),
            t == chars@.skip(pos as int),
            forall|j: int| 0 <= j < k ==> is_digit(#[trigger] t[j]),
            acc == digits_value(t.subrange(0, i as int)),
            acc < pow10(i as nat),
        decreases k - i,
    {
        let c = chars[pos + i];
        proof {
            assert(t[i as int] == chars@[pos + i as int]);
            lemma_pow10_le(i as nat, 17);
            assert(pow10(17) == 100_000_000_000_000_000) by {
                reveal_with_fuel(pow10, 19);
            }
        }
        let d = (c as u32) - ('0' as u32);
        let new_acc = acc * 10 + (d as u64);
        proof {
            let sub1 = t.subrange(0, i + 1 as int);
            assert(sub1.drop_last() =~= t.subrange(0, i as int));
            assert(sub1.last() == t[i as int]);
            assert(new_acc == digits_value(sub1));
            assert(pow10((i + 1) as nat) == 10 * pow10(i as nat));
        }
        acc = new_acc;
        i = i + 1;
    }
    acc
}

/// Parse an unsigned integer at `pos` as `parse_nat`.
pub fn parse_nat_exec(chars: &Vec<char>, pos: usize) -> (r: Option<(u64, usize)>)
    requires
        pos <= chars@.len(),
    ensures
        match r {
            Some(p) => pos <= p.1 <= chars@.len() && parse_nat(chars@.skip(pos as int)) == Some(
                (p.0 as nat, chars@.skip(p.1 as int)),
            ),
            None => parse_nat(chars@.skip(pos as int)) is None,
        },
{
    let ghost t = chars@.skip(pos as int);
    let n = chars.len();
    let k = digit_span_exec(chars, pos);
    if k == 0 || k > 18 {
        return None;
    }
    proof {
        assert(t[0] == chars@[pos as int]);
    }
    if chars[pos] == '0' && k > 1 {
        return None;
    }
    proof {
        lemma_digit_span_prefix(t);
    }
    let v = digits_value_exec(chars, pos, k);
    proof {
        lemma_skip_skip(chars@, pos as int, k as int);
    }
    Some((v, pos + k))
}

/// Parse an optionally signed integer at `pos` as `parse_int`.
pub fn parse_int_exec(chars: &Vec<char>, pos: usize) -> (r: Option<(i64, usize)>)
    requires
        pos <= chars@.len(),
    ensures
        match r {
            Some(p) => pos <= p.1 <= chars@.len() && parse_int(chars@.skip(pos as int)) == Some(
                (p.0 as int, chars@.skip(p.1 as int)),
            ),
            None => parse_int(chars@.skip(pos as int)) is None,
        },
{
    let q = skip_ws_exec(chars, pos);
    let ghost t = chars@.skip(q as int);
    let n = chars.len();
    if q < n && chars[q] == '-' {
        proof {
            assert(t[0] == chars@[q as int]);
            lemma_skip_skip(chars@, q as int, 1);
        }
        match parse_nat_exec(chars, q + 1) {
            Some((v, p)) => {
                proof {
                    lemma_parse_nat_bound(chars@.skip(q + 1 as int));
                    assert(pow10(18) == 1_000_000_000_000_000_000) by {
                        reveal_with_fuel(pow10, 19);
                    }
                }
                let sv = -(v as i64);
                Some((sv, p))
            },
            None => None,
        }
    } else {
        proof {
            if q < n {
                assert(t[0] == chars@[q as int]);
            }
        }
        match parse_nat_exec(chars, q) {
            Some((v, p)) => {
                proof {
                    lemma_parse_nat_bound(chars@.skip(q as int));
                    assert(pow10(18) == 1_000_000_000_000_000_000) by {
                        reveal_with_fuel(pow10, 19);
                    }
                }
                Some((v as i64, p))
            },
            None => None,
        }
    }
}

/// Ten to a small power.
fn pow10_exec(k: u64) -> (r: u64)
    requires
        k <= 9,
    ensures
        r == pow10(k as nat),
{
    let mut r: u64 = 1;
    let mut i: u64 = 0;
    while i < k
        invariant
            i <= k,
            k <= 9,
            r == pow10(i as nat),
            r <= 1_000_000_000,
        decreases k - i,
    {
        proof {
            lemma_pow10_le(i as nat, 8);
            assert(pow10(8) == 100_000_000) by {
                reveal_with_fuel(pow10, 10);
            }
            assert(pow10((i + 1) as nat) == 10 * pow10(i as nat));
        }
        r = r * 10;
        i = i + 1;
    }
    r
}

/// Parse a fixed-point coin amount at `pos` as `parse_amount`; the
/// result is in nano-units.
pub fn parse_amount_exec(chars: &Vec<char>, pos: usize) -> (r: Option<(u64, usize)>)
    requires
        pos <= chars@.len(),
    ensures
        match r {
            Some(p) => pos <= p.1 <= chars@.len() && parse_amount(chars@.skip(pos as int)) == Some(
                (p.0 as nat, chars@.skip(p.1 as int)),
            ),
            None => parse_amount(chars@.skip(pos as int)) is None,
        },
{
    let q = skip_ws_exec(chars, pos);
    let ghost t = chars@.skip(q as int);
    let n = chars.len();
    let k = digit_span_exec(chars, q);
    if k == 0 || k > 10 {
        return None;
    }
    proof {
        assert(t[0] == chars@[q as int]);
    }
    if chars[q] == '0' && k > 1 {
        return None;
    }
    proof {
        lemma_digit_span_prefix(t);
    }
    let whole = digits_value_exec(chars, q, k);
    proof {
        lemma_pow10_le(k as nat, 10);
        assert(pow10(10) == 10_000_000_000) by {
            reveal_with_fuel(pow10, 11);
        }
        lemma_skip_skip(chars@, q as int, k as int);
    }
    let after = q + k;
    let ghost rrest = chars@.skip(after as int);
    if after < n && chars[after] == '.' {
        proof {
            assert(rrest[0] == chars@[after as int]);
            lemma_skip_skip(chars@, after as int, 1);
        }
        let fstart = after + 1;
        let ghost f = chars@.skip(fstart as int);
        let kf = digit_span_exec(chars, fstart);
        if kf == 0 || kf > 9 {
            return None;
        }
        proof {
            lemma_digit_span_prefix(f);
        }
        let fv = digits_value_exec(chars, fstart, kf);
        let scale = pow10_exec(9 - (kf as u64));
        proof {
            lemma_pow10_add(kf as nat, (9 - kf) as nat);
            assert(pow10(9) == 1_000_000_000) by {
                reveal_with_fuel(pow10, 10);
            }
            lemma_pow10_pos((9 - kf) as nat);
            assert(fv * scale < pow10(kf as nat) * pow10((9 - kf) as nat)) by (nonlinear_arith)
                requires
                    fv < pow10(kf as nat),
                    scale == pow10((9 - kf) as nat),
                    scale >= 1,
            ;
            lemma_skip_skip(chars@, fstart as int, kf as int);
        }
        let nanos = whole * 1_000_000_000 + fv * scale;
        Some((nanos, fstart + kf))
    } else {
        proof {
            if after < n {
                assert(rrest[0] == chars@[after as int]);
            }
        }
        let nanos = whole * 1_000_000_000;
        Some((nanos, after))
    }
}

} // verus!
