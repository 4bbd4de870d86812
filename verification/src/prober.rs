//! NAT and CGNAT probing decisions.
//!
//! The prober compares the public address reported by an HTTP echo
//! service with the reflexive address a STUN server saw.  The network
//! calls happen outside; this module parses their answers and draws
//! the conclusion.

use vstd::prelude::*;
use crate::wire::is_digit;
use crate::json::{digit_span, digits_value, pow10, digit_span_exec, digits_value_exec,
    lemma_pow10_le};
use crate::strutil::str_chars;

verus! {

/// An IPv4 address, as four octets.
#[derive(Clone, Copy, PartialEq, Eq, Structural, Debug)]
pub struct IpAddress {
    /// The first octet.
    pub a: u8,
    /// The second octet.
    pub b: u8,
    /// The third octet.
    pub c: u8,
    /// The fourth octet.
    pub d: u8,
}

impl IpAddress {
    /// An address from its four octets.
    pub fn new(a: u8, b: u8, c: u8, d: u8) -> (r: IpAddress)
        ensures
            r == (IpAddress { a, b, c, d }),
    {
        IpAddress { a, b, c, d }
    }
}

/// The value and rest of one decimal octet: one to three digits, no
/// leading zero, at most 255.
pub open spec fn parse_octet(s: Seq<char>) -> Option<(nat, Seq<char>)> {
    let k = digit_span(s);
    if k == 0 || k > 3 {
        None
    } else if s[0] == '0' && k > 1 {
        None
    } else {
        let v = digits_value(s.subrange(0, k as int));
        if v > 255 {
            None
        } else {
            Some((v, s.skip(k as int)))
        }
    }
}

/// The address a dotted-quad text denotes, if it is exactly one.
pub open spec fn parse_ipv4(s: Seq<char>) -> Option<IpAddress> {
    match parse_octet(s) {
        Some((a, r1)) => if r1.len() > 0 && r1[0] == '.' {
            match parse_octet(r1.skip(1)) {
                Some((b, r2)) => if r2.len() > 0 && r2[0] == '.' {
                    match parse_octet(r2.skip(1)) {
                        Some((c, r3)) => if r3.len() > 0 && r3[0] == '.' {
                            match parse_octet(r3.skip(1)) {
                                Some((d, r4)) => if r4.len() == 0 {
                                    Some(
                                        IpAddress {
                                            a: a as u8,
                                            b: b as u8,
                                            c: c as u8,
                                            d: d as u8,
                                        },
                                    )
                                } else {
                                    None
                                },
                                None => None,
                            }
                        } else {
                            None
                        },
                        None => None,
                    }
                } else {
                    None
                },
                None => None,
            }
        } else {
            None
        },
        None => None,
    }
}

/// Parse one octet at `pos`, as `parse_octet`.
fn parse_octet_exec(chars: &Vec<char>, pos: usize) -> (r: Option<(u8, usize)>)
    requires
        pos <= chars@.len(),
    ensures
        match r {
            Some(p) => pos <= p.1 <= chars@.len() && parse_octet(chars@.skip(pos as int)) == Some(
                (p.0 as nat, chars@.skip(p.1 as int)),
            ),
            None => parse_octet(chars@.skip(pos as int)) is None,
        },
{
    let ghost t = chars@.skip(pos as int);
    let n = chars.len();
    let k = digit_span_exec(chars, pos);
    if k == 0 || k > 3 {
        return None;
    }
    proof {
        assert(t[0] == chars@[pos as int]);
    }
    if chars[pos] == '0' && k > 1 {
        return None;
    }
    proof {
        crate::json::lemma_digit_span_prefix(t);
    }
    let v = digits_value_exec(chars, pos, k);
    proof {
        lemma_pow10_le(k as nat, 3);
        assert(pow10(3) == 1000) by {
            reveal_with_fuel(pow10, 5);
        }
        crate::json::lemma_skip_skip(chars@, pos as int, k as int);
    }
    if v > 255 {
        return None;
    }
    Some((v as u8, pos + k))
}

/// Parse a dotted-quad IPv4 address; succeeds exactly on texts that
/// `parse_ipv4` accepts.
pub fn parse_ip(s: &str) -> (r: Option<IpAddress>)
    ensures
        r == parse_ipv4(s@),
{
    let chars = str_chars(s);
    proof {
        assert(chars@.skip(0) =~= s@);
    }
    let n = chars.len();
    match parse_octet_exec(&chars, 0) {
        None => None,
        Some((a, p1)) => {
            proof {
                if p1 < n {
                    assert(chars@.skip(p1 as int)[0] == chars@[p1 as int]);
                }
            }
            if p1 >= n || chars[p1] != '.' {
                return None;
            }
            proof {
                crate::json::lemma_skip_skip(chars@, p1 as int, 1);
            }
            match parse_octet_exec(&chars, p1 + 1) {
                None => None,
                Some((b, p2)) => {
                    proof {
                        if p2 < n {
                            assert(chars@.skip(p2 as int)[0] == chars@[p2 as int]);
                        }
                    }
                    if p2 >= n || chars[p2] != '.' {
                        return None;
                    }
                    proof {
                        crate::json::lemma_skip_skip(chars@, p2 as int, 1);
                    }
                    match parse_octet_exec(&chars, p2 + 1) {
                        None => None,
                        Some((c, p3)) => {
                            proof {
                                if p3 < n {
                                    assert(chars@.skip(p3 as int)[0] == chars@[p3 as int]);
                                }
                            }
                            if p3 >= n || chars[p3] != '.' {
                                return None;
                            }
                            proof {
                                crate::json::lemma_skip_skip(chars@, p3 as int, 1);
                            }
                            match parse_octet_exec(&chars, p3 + 1) {
                                None => None,
                                Some((d, p4)) => {
                                    if p4 == n {
                                        Some(IpAddress::new(a, b, c, d))
                                    } else {
                                        None
                                    }
                                },
                            }
                        },
                    }
                },
            }
        },
    }
}

/// Compare the HTTP-reported public address with the STUN-reported
/// reflexive address: a mismatch means the host sits behind
/// carrier-grade or double NAT.
pub fn detect_cgnat_from_ips(public_ip: IpAddress, stun_ip: IpAddress) -> (r: bool)
    ensures
        r == (public_ip != stun_ip),
{
    !(public_ip == stun_ip)
}

/// Fold a probe that may have failed into the status flag: a failed
/// probe is treated as "assume NAT may be present", never as an error.
pub fn resolve_cgnat_outcome(outcome: Result<bool, String>) -> (r: bool)
    ensures
        match outcome {
            Ok(b) => r == b,
            Err(_) => r == true,
        },
{
    match outcome {
        Ok(b) => b,
        Err(_) => true,
    }
}

/// The `ip` member of a JSON text, when the text is an object with a
/// string-valued `ip` member.
pub uninterp spec fn ip_field_of(s: Seq<char>) -> Option<Seq<char>>;

/// Relies on `serde_json::from_str` and `Value::get`: parses the text
/// as JSON and hands back its top-level `ip` member when that member
/// holds a string.  The result is a function of the text alone.
#[verifier::external_body]
fn json_ip_field(text: &str) -> (r: Option<String>)
    ensures
        match (r, ip_field_of(text@)) {
            (Some(v), Some(w)) => v@ == w,
            (None, None) => true,
            _ => false,
        },
{
    match serde_json::from_str::<serde_json::Value>(text) {
        Ok(v) => v.get("ip").and_then(|x| x.as_str()).map(|s| s.to_string()),
        Err(_) => None,
    }
}

/// The public address in an IP-echo service's JSON answer: the `ip`
/// member parsed as a dotted quad.
pub fn ip_from_response(text: &str) -> (r: Option<IpAddress>)
    ensures
        match ip_field_of(text@) {
            Some(w) => r == parse_ipv4(w),
            None => r is None,
        },
{
    match json_ip_field(text) {
        Some(v) => parse_ip(v.as_str()),
        None => None,
    }
}

} // verus!
