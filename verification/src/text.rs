//! Text utilities shared by the relay: exact and ASCII case-insensitive
//! string comparison, decimal rendering of status codes, and UTF-8 decoding.

use vstd::prelude::*;
use vstd::string::StrSliceExecFns;
use vstd::string::StringExecFns;

verus! {

/// Exact (case-sensitive) equality of two string slices.
pub fn str_eq(a: &str, b: &str) -> (r: bool)
    ensures
        r == (a@ == b@),
{
    a.to_owned() == b.to_owned()
}

/// `c` matches the (lower-case) character `l` when they are equal, or when
/// `c` is the ASCII upper-case form of `l`.
pub open spec fn char_matches_lower(c: char, l: char) -> bool {
    c == l || (65 <= c as u32 && c as u32 <= 90 && c as u32 + 32 == l as u32)
}

/// `n` matches `l` character for character, ignoring ASCII case in `n`
/// (`l` is expected to be written in lower case).
pub open spec fn name_matches_ci(n: Seq<char>, l: Seq<char>) -> bool {
    n.len() == l.len() && (forall|i: int| 0 <= i < n.len() ==> char_matches_lower(n[i], l[i]))
}

/// Decides whether `n` matches the lower-case word `l` up to ASCII case.
pub fn str_matches_ci(n: &str, l: &str) -> (r: bool)
    ensures
        r == name_matches_ci(n@, l@),
{
    let nlen = n.unicode_len();
    let llen = l.unicode_len();
    if nlen != llen {
        return false;
    }
    let mut i: usize = 0;
    while i < nlen
        invariant
            0 <= i <= nlen,
            nlen == n@.len(),
            nlen == l@.len(),
            forall|j: int| 0 <= j < i ==> char_matches_lower(n@[j], l@[j]),
        decreases nlen - i,
    {
        let c = n.get_char(i);
        let lc = l.get_char(i);
        let cc = c as u32;
        let lcc = lc as u32;
        let ok = c == lc || (65 <= cc && cc <= 90 && cc + 32 == lcc);
        if !ok {
            assert(!char_matches_lower(n@[i as int], l@[i as int]));
            return false;
        }
        i = i + 1;
    }
    true
}

/// The character for the decimal digit `d`.
pub open spec fn digit_char(d: int) -> char {
    if d == 0 {
        '0'
    } else if d == 1 {
        '1'
    } else if d == 2 {
        '2'
    } else if d == 3 {
        '3'
    } else if d == 4 {
        '4'
    } else if d == 5 {
        '5'
    } else if d == 6 {
        '6'
    } else if d == 7 {
        '7'
    } else if d == 8 {
        '8'
    } else {
        '9'
    }
}

/// The decimal digits of `n`, most significant first, without leading zeros
/// (a single `'0'` for zero).
pub open spec fn dec_digits(n: int) -> Seq<char>
    recommends
        n >= 0,
    decreases n,
{
    if n < 10 {
        seq![digit_char(n)]
    } else {
        dec_digits(n / 10).push(digit_char(n % 10))
    }
}

/// Renders `n` in decimal.
pub fn u16_digits(n: u16) -> (s: String)
    ensures
        s@ == dec_digits(n as int),
    decreases n,
{
    let d: u16 = n % 10;
    let digit: &str = if d == 0 {
        "0"
    } else if d == 1 {
        "1"
    } else if d == 2 {
        "2"
    } else if d == 3 {
        "3"
    } else if d == 4 {
        "4"
    } else if d == 5 {
        "5"
    } else if d == 6 {
        "6"
    } else if d == 7 {
        "7"
    } else if d == 8 {
        "8"
    } else {
        "9"
    };
    proof {
        reveal_strlit("0");
        reveal_strlit("1");
        reveal_strlit("2");
        reveal_strlit("3");
        reveal_strlit("4");
        reveal_strlit("5");
        reveal_strlit("6");
        reveal_strlit("7");
        reveal_strlit("8");
        reveal_strlit("9");
        assert(digit@ =~= seq![digit_char(d as int)]);
    }
    if n < 10 {
        digit.to_owned()
    } else {
        let mut s = u16_digits(n / 10);
        s.append(digit);
        proof {
            assert(s@ =~= dec_digits(n as int));
        }
        s
    }
}

/// Relies on core::str::from_utf8: it succeeds exactly on valid UTF-8 input,
/// and then returns the text that the bytes encode.
#[verifier::external_body]
pub(crate) fn utf8_decode(bytes: &[u8]) -> (r: Option<&str>)
    ensures
        r is Some <==> vstd::utf8::valid_utf8(bytes@),
        r matches Some(s) ==> s@ == vstd::utf8::decode_utf8(bytes@),
{
    match core::str::from_utf8(bytes) {
        Ok(s) => Some(s),
        Err(_) => None,
    }
}

} // verus!
