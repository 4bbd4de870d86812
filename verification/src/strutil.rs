//! Small verified helpers over strings.

use vstd::prelude::*;
use vstd::string::*;

verus! {

/// Whether two strings hold the same characters.
pub fn str_eq(a: &str, b: &str) -> (r: bool)
    ensures
        r == (a@ == b@),
{
    let n = a.unicode_len();
    if n != b.unicode_len() {
        return false;
    }
    let mut i: usize = 0;
    while i < n
        invariant
            i <= n,
            n == a@.len(),
            n == b@.len(),
            forall|j: int| 0 <= j < i ==> a@[j] == b@[j],
        decreases n - i,
    {
        if a.get_char(i) != b.get_char(i) {
            return false;
        }
        i = i + 1;
    }
    proof {
        assert(a@ =~= b@);
    }
    true
}

/// The characters of a string, as a vector.
pub fn str_chars(s: &str) -> (r: Vec<char>)
    ensures
        r@ == s@,
{
    let n = s.unicode_len();
    let mut out: Vec<char> = Vec::new();
    let mut i: usize = 0;
    while i < n
        invariant
            i <= n,
            n == s@.len(),
            out@ == s@.subrange(0, i as int),
        decreases n - i,
    {
        out.push(s.get_char(i));
        proof {
            assert(out@ =~= s@.subrange(0, i + 1 as int));
        }
        i = i + 1;
    }
    proof {
        assert(out@ =~= s@);
    }
    out
}

/// Leading whitespace dropped.
pub open spec fn trim_front(s: Seq<char>) -> Seq<char>
    decreases s.len(),
{
    if s.len() > 0 && crate::wire::is_ws(s[0]) {
        trim_front(s.skip(1))
    } else {
        s
    }
}

/// Trailing whitespace dropped.
pub open spec fn trim_back(s: Seq<char>) -> Seq<char>
    decreases s.len(),
{
    if s.len() > 0 && crate::wire::is_ws(s.last()) {
        trim_back(s.drop_last())
    } else {
        s
    }
}

/// Leading and trailing whitespace dropped.
pub open spec fn trim_spaces(s: Seq<char>) -> Seq<char> {
    trim_back(trim_front(s))
}

/// Drop leading and trailing whitespace (space, tab, newline,
/// carriage return) from a string.
pub fn trim_str(s: &str) -> (r: String)
    ensures
        r@ == trim_spaces(s@),
{
    let chars = str_chars(s);
    let n = chars.len();
    let mut a: usize = 0;
    proof {
        assert(s@.skip(0) =~= s@);
    }
    while a < n && (chars[a] == ' ' || chars[a] == '\t' || chars[a] == '\n' || chars[a] == '\r')
        invariant
            a <= n,
            n == chars@.len(),
            chars@ == s@,
            trim_front(s@) == trim_front(s@.skip(a as int)),
        decreases n - a,
    {
        proof {
            assert(s@.skip(a as int)[0] == s@[a as int]);
            assert(s@.skip(a as int).skip(1) =~= s@.skip(a + 1 as int));
        }
        a = a + 1;
    }
    proof {
        if a < n {
            assert(s@.skip(a as int)[0] == s@[a as int]);
        }
        assert(trim_front(s@) == s@.skip(a as int));
    }
    let mut b: usize = n;
    proof {
        assert(s@.skip(a as int) =~= s@.subrange(a as int, n as int));
    }
    while b > a && (chars[b - 1] == ' ' || chars[b - 1] == '\t' || chars[b - 1] == '\n' || chars[b
        - 1] == '\r')
        invariant
            a <= b <= n,
            n == chars@.len(),
            chars@ == s@,
            trim_front(s@) == s@.skip(a as int),
            trim_back(s@.skip(a as int)) == trim_back(s@.subrange(a as int, b as int)),
        decreases b,
    {
        proof {
            let t = s@.subrange(a as int, b as int);
            assert(t.last() == s@[b - 1]);
            assert(t.drop_last() =~= s@.subrange(a as int, b - 1));
        }
        b = b - 1;
    }
    proof {
        let t = s@.subrange(a as int, b as int);
        if b > a {
            assert(t.last() == s@[b - 1]);
        }
        assert(trim_back(t) == t);
    }
    let mut out: Vec<char> = Vec::new();
    let mut i = a;
    while i < b
        invariant
            a <= i <= b,
            b <= n,
            n == chars@.len(),
            chars@ == s@,
            out@ == s@.subrange(a as int, i as int),
        decreases b - i,
    {
        out.push(chars[i]);
        proof {
            assert(s@.subrange(a as int, i + 1 as int) =~= s@.subrange(a as int, i as int).push(
                s@[i as int],
            ));
        }
        i = i + 1;
    }
    proof {
        assert(s@.skip(a as int).subrange(0, b - a) =~= s@.subrange(a as int, b as int));
    }
    chars_to_string(&out)
}

/// Relies on `String: FromIterator<char>` (`collect` over `Chars`):
/// the resulting string holds exactly the given characters, in order.
#[verifier::external_body]
pub(crate) fn chars_to_string(chars: &Vec<char>) -> (r: String)
    ensures
        r@ == chars@,
{
    chars.iter().collect()
}

} // verus!
