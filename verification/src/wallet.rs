//! Wallet-address validation.
//!
//! A payout wallet address is accepted exactly when it is `0x` followed
//! by 64 hexadecimal digits (66 characters in total).

use vstd::prelude::*;
use vstd::string::*;

verus! {

/// One character is a hexadecimal digit (either case).
pub open spec fn is_hex_digit(c: char) -> bool {
    ('0' <= c && c <= '9') || ('a' <= c && c <= 'f') || ('A' <= c && c <= 'F')
}

/// The exact shape of an accepted wallet address: `0x` and then 64 hex digits.
pub open spec fn valid_wallet_address(s: Seq<char>) -> bool {
    &&& s.len() == 66
    &&& s[0] == '0'
    &&& s[1] == 'x'
    &&& forall|i: int| 2 <= i < 66 ==> is_hex_digit(#[trigger] s[i])
}

fn is_hex_digit_exec(c: char) -> (r: bool)
    ensures
        r == is_hex_digit(c),
{
    ('0' <= c && c <= '9') || ('a' <= c && c <= 'f') || ('A' <= c && c <= 'F')
}

/// Decide whether a string is a well-formed wallet address.
pub fn is_valid_wallet_address(s: &str) -> (r: bool)
    ensures
        r == valid_wallet_address(s@),
{
    let n = s.unicode_len();
    if n != 66 {
        return false;
    }
    if s.get_char(0) != '0' || s.get_char(1) != 'x' {
        return false;
    }
    let mut i: usize = 2;
    while i < 66
        invariant
            2 <= i <= 66,
            s@.len() == 66,
            forall|j: int| 2 <= j < i ==> is_hex_digit(#[trigger] s@[j]),
        decreases 66 - i,
    {
        if !is_hex_digit_exec(s.get_char(i)) {
            return false;
        }
        i = i + 1;
    }
    true
}

} // verus!
