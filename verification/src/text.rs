//! Verified text helpers: the upper-snake transformation applied to
//! target triples, and decimal formatting and parsing of API levels.

use vstd::prelude::*;
use vstd::string::StrSliceExecFns;

verus! {

/// Maps a lower-case ASCII letter to its upper-case form; leaves every
/// other character unchanged.
pub open spec fn upper_char(c: char) -> char {
    if 'a' <= c && c <= 'z' {
        ((c as u32) - 32) as char
    } else {
        c
    }
}

/// Upper-cases a character and turns `-` into `_`: the per-character
/// transformation applied to a target triple when it is embedded in an
/// environment variable name.
pub open spec fn snake_char(c: char) -> char {
    if c == '-' {
        '_'
    } else {
        upper_char(c)
    }
}

/// The target triple as it appears inside cargo environment variable
/// names: upper-cased, with `-` replaced by `_`.
pub open spec fn upper_snake(s: Seq<char>) -> Seq<char> {
    s.map(|i: int, c: char| snake_char(c))
}

/// Relies on String::push: appends exactly one character at the end.
#[verifier::external_body]
pub(crate) fn push_char(s: &mut String, c: char)
    ensures
        final(s)@ == old(s)@.push(c),
{
    s.push(c);
}

fn map_snake_char(c: char) -> (r: char)
    ensures
        r == snake_char(c),
{
    if c == '-' {
        '_'
    } else if 'a' <= c && c <= 'z' {
        (((c as u8) - 32) as char)
    } else {
        c
    }
}

/// Applies [`snake_char`] to every character of `s`.
pub fn snake_upper(s: &str) -> (r: String)
    ensures
        r@ == upper_snake(s@),
{
    let n = s.unicode_len();
    let mut r = String::new();
    let mut i: usize = 0;
    while i < n
        invariant
            i <= n,
            n == s@.len(),
            r@ == upper_snake(s@.take(i as int)),
        decreases n - i,
    {
        let c = s.get_char(i);
        let m = map_snake_char(c);
        push_char(&mut r, m);
        proof {
            assert(s@.take(i + 1).map(|j: int, c: char| snake_char(c)) =~= s@.take(i as int).map(
                |j: int, c: char| snake_char(c),
            ).push(snake_char(s@[i as int])));
        }
        i = i + 1;
    }
    proof {
        assert(s@.take(n as int) =~= s@);
    }
    r
}

/// Character-for-character equality of two strings.
pub fn str_eq(a: &str, b: &str) -> (r: bool)
    ensures
        r == (a@ == b@),
{
    let na = a.unicode_len();
    let nb = b.unicode_len();
    if na != nb {
        return false;
    }
    let mut i: usize = 0;
    while i < na
        invariant
            i <= na,
            na == a@.len(),
            nb == b@.len(),
            na == nb,
            forall|j: int| 0 <= j < i ==> a@[j] == b@[j],
        decreases na - i,
    {
        if a.get_char(i) != b.get_char(i) {
            return false;
        }
        i = i + 1;
    }
    proof {
        assert(a@ =~= b@);
    }
    true
}

/// Whether `s` begins with the prefix `p`.
pub fn str_starts_with(s: &str, p: &str) -> (r: bool)
    ensures
        r == (s@.len() >= p@.len() && s@.take(p@.len() as int) == p@),
{
    let ns = s.unicode_len();
    let np = p.unicode_len();
    if ns < np {
        return false;
    }
    let mut i: usize = 0;
    while i < np
        invariant
            i <= np,
            ns == s@.len(),
            np == p@.len(),
            np <= ns,
            forall|j: int| 0 <= j < i ==> s@[j] == p@[j],
        decreases np - i,
    {
        if s.get_char(i) != p.get_char(i) {
            proof {
                assert(s@.take(np as int)[i as int] != p@[i as int]);
            }
            return false;
        }
        i = i + 1;
    }
    proof {
        assert(s@.take(np as int) =~= p@);
    }
    true
}

/// Copies the elements of `v` from position `from` on into a fresh vector.
pub fn clone_strings(v: &Vec<String>, from: usize) -> (r: Vec<String>)
    requires
        from <= v@.len(),
    ensures
        r@ == v@.skip(from as int),
{
    let mut r: Vec<String> = Vec::new();
    let mut i: usize = from;
    while i < v.len()
        invariant
            from <= i <= v@.len(),
            r@ =~= v@.subrange(from as int, i as int),
        decreases v@.len() - i,
    {
        r.push(v[i].clone());
        proof {
            assert(v@.subrange(from as int, i + 1) =~= v@.subrange(from as int, i as int).push(
                v@[i as int],
            ));
        }
        i = i + 1;
    }
    proof {
        assert(v@.subrange(from as int, v@.len() as int) =~= v@.skip(from as int));
    }
    r
}

/// The character for a single decimal digit value.
pub open spec fn digit_char(d: int) -> char {
    (48 + d) as char
}

/// The decimal representation of `n`, most significant digit first.
pub open spec fn dec_digits(n: nat) -> Seq<char>
    decreases n,
{
    if n < 10 {
        seq![digit_char(n as int)]
    } else {
        dec_digits(n / 10).push(digit_char((n % 10) as int))
    }
}

/// Formats `n` in decimal, as its argument would appear inside a
/// toolchain file name.
pub fn fmt_usize(n: usize) -> (r: String)
    ensures
        r@ == dec_digits(n as nat),
    decreases n,
{
    if n < 10 {
        let mut s = String::new();
        let d = (48 + n) as u8;
        push_char(&mut s, d as char);
        s
    } else {
        let mut s = fmt_usize(n / 10);
        let d = (48 + n % 10) as u8;
        push_char(&mut s, d as char);
        s
    }
}

/// A decimal digit character.
pub open spec fn is_digit(c: char) -> bool {
    '0' <= c && c <= '9'
}

/// The value of a single decimal digit character.
pub open spec fn digit_val(c: char) -> int {
    (c as int) - 48
}

/// Every character of `s` is a decimal digit.
pub open spec fn all_digits(s: Seq<char>) -> bool {
    forall|i: int| 0 <= i < s.len() ==> is_digit(s[i])
}

/// The numeric value of a sequence of decimal digit characters.
pub open spec fn dec_val(s: Seq<char>) -> int
    decreases s.len(),
{
    if s.len() == 0 {
        0
    } else {
        dec_val(s.drop_last()) * 10 + digit_val(s.last())
    }
}

proof fn lemma_dec_val_nonneg(s: Seq<char>)
    requires
        all_digits(s),
    ensures
        dec_val(s) >= 0,
    decreases s.len(),
{
    if s.len() > 0 {
        lemma_dec_val_nonneg(s.drop_last());
    }
}

proof fn lemma_dec_val_prefix(s: Seq<char>, i: int)
    requires
        all_digits(s),
        0 <= i <= s.len(),
    ensures
        dec_val(s.take(i)) <= dec_val(s),
    decreases s.len() - i,
{
    if i < s.len() {
        assert(s.take(i + 1).drop_last() =~= s.take(i));
        assert(s.take(i + 1).last() == s[i]);
        lemma_dec_val_nonneg(s.take(i));
        lemma_dec_val_prefix(s, i + 1);
    } else {
        assert(s.take(i) =~= s);
    }
}

/// Parses a non-empty, all-digit string as a decimal number; rejects
/// anything else, including a value too large for `usize`.
pub fn parse_usize(s: &str) -> (r: Option<usize>)
    ensures
        match r {
            Some(v) => s@.len() > 0 && all_digits(s@) && v == dec_val(s@),
            None => !(s@.len() > 0 && all_digits(s@) && dec_val(s@) <= usize::MAX),
        },
{
    let n = s.unicode_len();
    if n == 0 {
        return None;
    }
    let mut val: usize = 0;
    let mut i: usize = 0;
    while i < n
        invariant
            i <= n,
            n == s@.len(),
            all_digits(s@.take(i as int)),
            val == dec_val(s@.take(i as int)),
        decreases n - i,
    {
        let c = s.get_char(i);
        if !('0' <= c && c <= '9') {
            assert(!is_digit(s@[i as int]));
            return None;
        }
        let d = ((c as u32) - 48) as usize;
        proof {
            assert(s@.take(i + 1).drop_last() =~= s@.take(i as int));
            assert(s@.take(i + 1).last() == s@[i as int]);
        }
        if val > (usize::MAX - d) / 10 {
            proof {
                assert(10 * val + d > usize::MAX) by (nonlinear_arith)
                    requires
                        val > (usize::MAX - d) / 10,
                        d <= 9,
                ;
                if all_digits(s@) {
                    lemma_dec_val_prefix(s@, i + 1);
                }
            }
            return None;
        }
        assert(val * 10 + d <= usize::MAX) by (nonlinear_arith)
            requires
                val <= (usize::MAX - d) / 10,
                d <= 9,
        ;
        val = val * 10 + d;
        i = i + 1;
    }
    proof {
        assert(s@.take(n as int) =~= s@);
    }
    Some(val)
}

} // verus!
