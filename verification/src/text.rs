//! Text helpers for the human-readable side of an event: decimal numerals,
//! NUL-padded buffers and path prefixes.

use vstd::prelude::*;
use vstd::string::*;
use vstd::utf8::{decode_utf8, valid_utf8};

verus! {

/// The character of a single decimal digit.
pub open spec fn digit_char(d: nat) -> char
    recommends
        d < 10,
{
    if d == 0 {
        '0'
    } else if d == 1 {
        '1'
    } else if d == 2 {
        '2'
    } else if d == 3 {
        '3'
    } else if d == 4 {
        '4'
    } else if d == 5 {
        '5'
    } else if d == 6 {
        '6'
    } else if d == 7 {
        '7'
    } else if d == 8 {
        '8'
    } else {
        '9'
    }
}

/// The decimal numeral of `n`, without sign or leading zeros.
pub open spec fn decimal(n: nat) -> Seq<char>
    decreases n,
{
    if n < 10 {
        seq![digit_char(n)]
    } else {
        decimal(n / 10).push(digit_char(n % 10))
    }
}

fn digit_str(d: u64) -> (s: &'static str)
    requires
        d < 10,
    ensures
        s@ == seq![digit_char(d as nat)],
{
    proof {
        reveal_strlit("0");
        reveal_strlit("1");
        reveal_strlit("2");
        reveal_strlit("3");
        reveal_strlit("4");
        reveal_strlit("5");
        reveal_strlit("6");
        reveal_strlit("7");
        reveal_strlit("8");
        reveal_strlit("9");
    }
    let s = if d == 0 {
        "0"
    } else if d == 1 {
        "1"
    } else if d == 2 {
        "2"
    } else if d == 3 {
        "3"
    } else if d == 4 {
        "4"
    } else if d == 5 {
        "5"
    } else if d == 6 {
        "6"
    } else if d == 7 {
        "7"
    } else if d == 8 {
        "8"
    } else {
        "9"
    };
    assert(s@ =~= seq![digit_char(d as nat)]);
    s
}

/// Writes `n` as a decimal numeral.
pub fn u64_to_decimal(n: u64) -> (s: String)
    ensures
        s@ == decimal(n as nat),
{
    let mut rest: u64 = n / 10;
    let mut s = String::from_str(digit_str(n % 10));
    assert(rest == 0 ==> s@ == decimal(n as nat));
    assert(rest > 0 ==> decimal(n as nat) == decimal(rest as nat) + s@);
    while rest > 0
        invariant
            rest == 0 ==> s@ == decimal(n as nat),
            rest > 0 ==> decimal(n as nat) == decimal(rest as nat) + s@,
        decreases rest,
    {
        let d = digit_str(rest % 10);
        let ghost before = s@;
        s = String::from_str(d).concat(s.as_str());
        proof {
            let r = rest as nat;
            if r < 10 {
                assert(decimal(r) + before =~= s@);
            } else {
                assert(decimal(r) + before =~= decimal(r / 10) + s@);
            }
        }
        rest = rest / 10;
    }
    s
}

/// `s` without the NUL characters at its start.
pub open spec fn trim_start_nul(s: Seq<char>) -> Seq<char>
    decreases s.len(),
{
    if s.len() > 0 && s.first() == '\0' {
        trim_start_nul(s.drop_first())
    } else {
        s
    }
}

/// `s` without the NUL characters at its end.
pub open spec fn trim_end_nul(s: Seq<char>) -> Seq<char>
    decreases s.len(),
{
    if s.len() > 0 && s.last() == '\0' {
        trim_end_nul(s.drop_last())
    } else {
        s
    }
}

/// `s` without the NUL characters at either end.
pub open spec fn trim_nul(s: Seq<char>) -> Seq<char> {
    trim_end_nul(trim_start_nul(s))
}

/// Strips the NUL padding from both ends of `s`.
pub fn trim_nul_padding(s: &str) -> (t: String)
    ensures
        t@ == trim_nul(s@),
{
    let n = s.unicode_len();
    let mut a: usize = 0;
    assert(s@.subrange(0, n as int) =~= s@);
    loop
        invariant_except_break
            a <= n,
            n == s@.len(),
            trim_start_nul(s@) == trim_start_nul(s@.subrange(a as int, n as int)),
        ensures
            a <= n,
            n == s@.len(),
            trim_start_nul(s@) == s@.subrange(a as int, n as int),
        decreases n - a,
    {
        if a >= n {
            break ;
        }
        let c = s.get_char(a);
        if c != '\0' {
            break ;
        }
        assert(s@.subrange(a as int, n as int).drop_first() =~= s@.subrange(a + 1, n as int));
        a = a + 1;
    }
    let mut b: usize = n;
    loop
        invariant_except_break
            a <= b <= n,
            n == s@.len(),
            trim_end_nul(s@.subrange(a as int, n as int)) == trim_end_nul(
                s@.subrange(a as int, b as int),
            ),
        ensures
            a <= b <= n,
            n == s@.len(),
            trim_end_nul(s@.subrange(a as int, n as int)) == s@.subrange(a as int, b as int),
        decreases b - a,
    {
        if b <= a {
            break ;
        }
        let c = s.get_char(b - 1);
        if c != '\0' {
            break ;
        }
        assert(s@.subrange(a as int, b as int).drop_last() =~= s@.subrange(a as int, b - 1));
        b = b - 1;
    }
    String::from_str(s.substring_char(a, b))
}

/// Whether `s` begins with `prefix`.
pub open spec fn has_prefix(s: Seq<char>, prefix: Seq<char>) -> bool {
    prefix.len() <= s.len() && s.subrange(0, prefix.len() as int) == prefix
}

/// Tests whether `s` begins with `prefix`.
pub fn starts_with(s: &str, prefix: &str) -> (b: bool)
    ensures
        b == has_prefix(s@, prefix@),
{
    let n = s.unicode_len();
    let m = prefix.unicode_len();
    if m > n {
        return false;
    }
    let mut i: usize = 0;
    while i < m
        invariant
            i <= m <= n,
            n == s@.len(),
            m == prefix@.len(),
            s@.subrange(0, i as int) == prefix@.subrange(0, i as int),
        decreases m - i,
    {
        if s.get_char(i) != prefix.get_char(i) {
            assert(s@.subrange(0, m as int)[i as int] != prefix@[i as int]);
            return false;
        }
        assert(s@.subrange(0, i + 1) =~= s@.subrange(0, i as int).push(s@[i as int]));
        assert(prefix@.subrange(0, i + 1) =~= prefix@.subrange(0, i as int).push(
            prefix@[i as int],
        ));
        i = i + 1;
    }
    assert(prefix@.subrange(0, m as int) =~= prefix@);
    true
}

/// The text that `bytes` hold as UTF-8, or `None` where they are not UTF-8.
///
/// Trusted: calls `std::str::from_utf8`, which accepts exactly the
/// well-formed UTF-8 sequences and yields their characters.
#[verifier::external_body]
fn utf8_text(bytes: &[u8]) -> (r: Option<String>)
    ensures
        r is Some <==> valid_utf8(bytes@),
        r matches Some(s) ==> s@ == decode_utf8(bytes@),
{
    match std::str::from_utf8(bytes) {
        Ok(s) => Some(s.to_string()),
        Err(_) => None,
    }
}

/// What a NUL-padded buffer reads as: its UTF-8 text, or `fallback` where the
/// bytes are not UTF-8, without the NULs at either end.
pub open spec fn spec_buffer_text(bytes: Seq<u8>, fallback: Seq<char>) -> Seq<char> {
    trim_nul(
        if valid_utf8(bytes) {
            decode_utf8(bytes)
        } else {
            fallback
        },
    )
}

/// Reads a NUL-padded buffer as text.
pub fn buffer_text(bytes: &[u8], fallback: &str) -> (t: String)
    ensures
        t@ == spec_buffer_text(bytes@, fallback@),
{
    match utf8_text(bytes) {
        Some(s) => trim_nul_padding(s.as_str()),
        None => trim_nul_padding(fallback),
    }
}

} // verus!
