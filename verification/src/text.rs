//! Small helpers for building and comparing strings character by character.

use vstd::prelude::*;
use vstd::string::*;
use crate::outside::push_char;

verus! {

/// The lower-case form of an ASCII letter; every other character is itself.
pub open spec fn ascii_lower(c: char) -> char {
    if 'A' <= c && c <= 'Z' {
        ((c as u8) + 32) as char
    } else {
        c
    }
}

/// A sequence of characters with every ASCII upper-case letter lowered.
pub open spec fn lowercase(s: Seq<char>) -> Seq<char> {
    Seq::new(s.len(), |i: int| ascii_lower(s[i]))
}

/// No character of `s` is an ASCII upper-case letter.
pub open spec fn is_lowercase(s: Seq<char>) -> bool {
    forall|i: int| 0 <= i < s.len() ==> !('A' <= #[trigger] s[i] && s[i] <= 'Z')
}

/// Lowering leaves no upper-case letter, and lowering twice is lowering
/// once.
pub proof fn lemma_lowercase_is_lowercase(s: Seq<char>)
    ensures
        is_lowercase(lowercase(s)),
        lowercase(lowercase(s)) == lowercase(s),
        lowercase(s).len() == s.len(),
{
}

/// Lowers one character.
pub fn lower_char(c: char) -> (r: char)
    ensures
        r == ascii_lower(c),
{
    if 'A' <= c && c <= 'Z' {
        let b: u8 = c as u8;
        (b + 32) as char
    } else {
        c
    }
}

/// Returns `s` with its ASCII upper-case letters lowered, as
/// `str::to_ascii_lowercase` does.
pub fn to_ascii_lowercase(s: &str) -> (r: String)
    ensures
        r@ == lowercase(s@),
{
    let n = s.unicode_len();
    let mut out = String::new();
    let mut i: usize = 0;
    while i < n
        invariant
            n == s@.len(),
            i <= n,
            out@ == lowercase(s@.subrange(0, i as int)),
        decreases n - i,
    {
        let c = s.get_char(i);
        push_char(&mut out, lower_char(c));
        i += 1;
    }
    out
}

/// Tells whether `s` begins with `prefix`.
pub fn has_prefix(s: &str, prefix: &str) -> (r: bool)
    ensures
        r == prefix@.is_prefix_of(s@),
{
    let n = prefix.unicode_len();
    if n > s.unicode_len() {
        return false;
    }
    let mut i: usize = 0;
    while i < n
        invariant
            n == prefix@.len(),
            n <= s@.len(),
            i <= n,
            forall|j: int| 0 <= j < i ==> prefix@[j] == s@[j],
        decreases n - i,
    {
        if prefix.get_char(i) != s.get_char(i) {
            return false;
        }
        i += 1;
    }
    true
}

/// The character that stands for a decimal digit.
pub open spec fn digit_char(d: nat) -> char
    recommends
        d < 10,
{
    (48 + d) as u8 as char
}

/// The decimal numeral of `n`, without leading zeros.
pub open spec fn decimal(n: nat) -> Seq<char>
    decreases n,
{
    if n < 10 {
        seq![digit_char(n)]
    } else {
        decimal(n / 10).push(digit_char(n % 10))
    }
}

/// A numeral holds digits only, so no upper-case letter.
pub proof fn lemma_decimal_is_lowercase(n: nat)
    ensures
        is_lowercase(decimal(n)),
    decreases n,
{
    if n >= 10 {
        lemma_decimal_is_lowercase(n / 10);
    }
}

/// Appends the decimal numeral of `n` to `s`.
pub fn push_decimal(s: &mut String, n: u32)
    ensures
        final(s)@ == old(s)@ + decimal(n as nat),
    decreases n,
{
    if n >= 10 {
        push_decimal(s, n / 10);
    }
    let d: u8 = (n % 10) as u8;
    push_char(s, (48 + d) as char);
}

/// The decimal numeral of `n` as a string.
pub fn decimal_string(n: u32) -> (r: String)
    ensures
        r@ == decimal(n as nat),
{
    let mut out = String::new();
    push_decimal(&mut out, n);
    out
}

/// `s` with every occurrence of `from` replaced by `to`, reading from the
/// left and never looking again at what was replaced. An empty `from`
/// occurs nowhere.
pub open spec fn replaced(s: Seq<char>, from: Seq<char>, to: Seq<char>) -> Seq<char>
    decreases s.len(),
{
    if from.len() == 0 || s.len() == 0 {
        s
    } else if from.is_prefix_of(s) {
        to + replaced(s.subrange(from.len() as int, s.len() as int), from, to)
    } else {
        seq![s[0]] + replaced(s.drop_first(), from, to)
    }
}

/// Tells whether `from` stands in `s` at position `at`.
fn occurs_at(s: &str, at: usize, from: &str) -> (r: bool)
    requires
        at <= s@.len(),
    ensures
        r == from@.is_prefix_of(s@.subrange(at as int, s@.len() as int)),
{
    let n = s.unicode_len();
    let m = from.unicode_len();
    let ghost rest = s@.subrange(at as int, n as int);
    if m > n - at {
        return false;
    }
    let mut i: usize = 0;
    while i < m
        invariant
            n == s@.len(),
            m == from@.len(),
            at <= n,
            m <= n - at,
            i <= m,
            rest == s@.subrange(at as int, n as int),
            forall|j: int| 0 <= j < i ==> from@[j] == rest[j],
        decreases m - i,
    {
        if from.get_char(i) != s.get_char(at + i) {
            return false;
        }
        i += 1;
    }
    true
}

/// Returns `s` with every occurrence of `from` replaced by `to`.
pub fn replace_all(s: &str, from: &str, to: &str) -> (r: String)
    ensures
        r@ == replaced(s@, from@, to@),
{
    let n = s.unicode_len();
    let m = from.unicode_len();
    if m == 0 {
        return String::from_str(s);
    }
    let mut out = String::new();
    let mut i: usize = 0;
    assert(s@.subrange(0, n as int) =~= s@);
    while i < n
        invariant
            n == s@.len(),
            m == from@.len(),
            m > 0,
            i <= n,
            out@ + replaced(s@.subrange(i as int, n as int), from@, to@) == replaced(
                s@,
                from@,
                to@,
            ),
        decreases n - i,
    {
        let ghost rest = s@.subrange(i as int, n as int);
        if occurs_at(s, i, from) {
            out.append(to);
            proof {
                assert(rest.subrange(m as int, rest.len() as int) =~= s@.subrange(
                    i + m,
                    n as int,
                ));
            }
            i += m;
        } else {
            push_char(&mut out, s.get_char(i));
            proof {
                assert(rest.drop_first() =~= s@.subrange(i + 1, n as int));
            }
            i += 1;
        }
    }
    out
}

} // verus!
