//! Tunnel names: validation and derivation from a host name.

use vstd::prelude::*;
use vstd::string::*;
use crate::outside::push_char;

verus! {

/// Longest tunnel name the service accepts, in bytes of UTF-8.
pub const MAX_TUNNEL_NAME_LENGTH: usize = 20;

/// Number of leading host name characters that name derivation looks at.
pub const HOSTNAME_SCAN_LIMIT: usize = 60;

/// A tunnel name that failed validation, with the message for the user.
#[derive(Debug, PartialEq, Eq)]
pub struct InvalidTunnelName(pub String);

/// Characters a tunnel name may hold: ASCII letters, digits, `_` and `-`.
pub open spec fn is_name_char(c: char) -> bool {
    ('a' <= c && c <= 'z') || ('A' <= c && c <= 'Z') || ('0' <= c && c <= '9') || c == '_' || c
        == '-'
}

/// A non-empty run of name characters.
pub open spec fn name_charset_ok(s: Seq<char>) -> bool {
    s.len() > 0 && forall|i: int| 0 <= i < s.len() ==> is_name_char(#[trigger] s[i])
}

/// What makes a tunnel name acceptable: at most twenty characters, each of
/// them a name character, and at least one of them.
pub open spec fn valid_name(s: Seq<char>) -> bool {
    s.len() <= MAX_TUNNEL_NAME_LENGTH && name_charset_ok(s)
}

/// The message given for a name that is too long.
pub open spec fn too_long_message() -> Seq<char> {
    "Names cannot be longer than 20 characters. Please try a different name."@
}

/// The message given for a name with a character outside the allowed set.
pub open spec fn bad_charset_message() -> Seq<char> {
    "Names can only contain letters, numbers, and '-'. Spaces, commas, and all other special characters are not allowed. Please try a different name."@
}

/// The message for a name that is not valid: the one about its length where
/// its UTF-8 form is longer than the limit, else the one about its
/// characters.
pub open spec fn invalid_name_message(name: Seq<char>) -> Seq<char> {
    if vstd::utf8::encode_utf8(name).len() > MAX_TUNNEL_NAME_LENGTH {
        too_long_message()
    } else {
        bad_charset_message()
    }
}

/// A string of name characters is ASCII, so it has one byte per character.
pub proof fn lemma_name_chars_one_byte_each(name: &str)
    requires
        forall|i: int| 0 <= i < name@.len() ==> is_name_char(#[trigger] name@[i]),
    ensures
        name.spec_bytes().len() == name@.len(),
{
    is_ascii_spec_bytes(name);
}

/// Tells whether `c` may stand in a tunnel name.
pub fn name_char(c: char) -> (r: bool)
    ensures
        r == is_name_char(c),
{
    ('a' <= c && c <= 'z') || ('A' <= c && c <= 'Z') || ('0' <= c && c <= '9') || c == '_' || c
        == '-'
}

/// Checks a candidate tunnel name.
///
/// The name is accepted exactly when it is `valid_name`. The length test
/// comes first and counts bytes of UTF-8, which for every name that passes
/// the character test is the number of its characters.
pub fn is_valid_name(name: &str) -> (res: Result<(), InvalidTunnelName>)
    ensures
        res is Ok <==> valid_name(name@),
        res matches Err(e) ==> e.0@ == invalid_name_message(name@),
{
    if name.as_bytes().len() > MAX_TUNNEL_NAME_LENGTH {
        proof {
            if name_charset_ok(name@) {
                lemma_name_chars_one_byte_each(name);
            }
        }
        return Err(
            InvalidTunnelName(
                String::from_str(
                    "Names cannot be longer than 20 characters. Please try a different name.",
                ),
            ),
        );
    }
    let n = name.unicode_len();
    let mut all_ok = true;
    let mut i: usize = 0;
    while i < n
        invariant
            n == name@.len(),
            name.spec_bytes().len() <= MAX_TUNNEL_NAME_LENGTH,
            i <= n,
            all_ok <==> forall|j: int| 0 <= j < i ==> is_name_char(#[trigger] name@[j]),
        decreases n - i,
    {
        if !name_char(name.get_char(i)) {
            all_ok = false;
        }
        i += 1;
    }
    if n == 0 || !all_ok {
        return Err(
            InvalidTunnelName(
                String::from_str(
                    "Names can only contain letters, numbers, and '-'. Spaces, commas, and all other special characters are not allowed. Please try a different name.",
                ),
            ),
        );
    }
    proof {
        lemma_name_chars_one_byte_each(name);
    }
    Ok(())
}

/// What a host name character becomes in a tunnel name: letters and digits
/// stay, `-`, `_` and space become `-`, and everything else is dropped.
pub open spec fn hostname_char(c: char) -> Option<char> {
    if c == '-' || c == '_' || c == ' ' {
        Some('-')
    } else if ('0' <= c && c <= '9') || ('a' <= c && c <= 'z') || ('A' <= c && c <= 'Z') {
        Some(c)
    } else {
        None
    }
}

/// The characters of `s` that survive `hostname_char`, in order.
pub open spec fn keep_hostname_chars(s: Seq<char>) -> Seq<char>
    decreases s.len(),
{
    if s.len() == 0 {
        Seq::empty()
    } else {
        let rest = keep_hostname_chars(s.drop_last());
        match hostname_char(s.last()) {
            Some(c) => rest.push(c),
            None => rest,
        }
    }
}

/// `s` without its leading dashes.
pub open spec fn trim_leading_dashes(s: Seq<char>) -> Seq<char>
    decreases s.len(),
{
    if s.len() > 0 && s[0] == '-' {
        trim_leading_dashes(s.drop_first())
    } else {
        s
    }
}

/// `s` without its trailing dashes.
pub open spec fn trim_trailing_dashes(s: Seq<char>) -> Seq<char>
    decreases s.len(),
{
    if s.len() > 0 && s.last() == '-' {
        trim_trailing_dashes(s.drop_last())
    } else {
        s
    }
}

/// `s` without the dashes at either end.
pub open spec fn trim_dashes(s: Seq<char>) -> Seq<char> {
    trim_trailing_dashes(trim_leading_dashes(s))
}

/// The part of a host name that name derivation reads: its first sixty
/// characters.
pub open spec fn scanned_prefix(hostname: Seq<char>) -> Seq<char> {
    if hostname.len() <= HOSTNAME_SCAN_LIMIT {
        hostname
    } else {
        hostname.subrange(0, HOSTNAME_SCAN_LIMIT as int)
    }
}

/// The name used when a host name leaves fewer than two usable characters.
pub open spec fn fallback_name() -> Seq<char> {
    "remote-machine"@
}

/// The tunnel name derived from a host name.
pub open spec fn clean_hostname(hostname: Seq<char>) -> Seq<char> {
    let trimmed = trim_dashes(keep_hostname_chars(scanned_prefix(hostname)));
    if trimmed.len() < 2 {
        fallback_name()
    } else {
        trimmed
    }
}

/// Characters a derived name can hold: ASCII letters, digits and `-`.
pub open spec fn is_derived_char(c: char) -> bool {
    ('a' <= c && c <= 'z') || ('A' <= c && c <= 'Z') || ('0' <= c && c <= '9') || c == '-'
}

/// The shape every derived name has: two to sixty characters, each a letter,
/// a digit or a dash, with no dash at either end.
pub open spec fn derived_name_shape(s: Seq<char>) -> bool {
    &&& 2 <= s.len() <= HOSTNAME_SCAN_LIMIT
    &&& forall|i: int| 0 <= i < s.len() ==> is_derived_char(#[trigger] s[i])
    &&& s[0] != '-'
    &&& s.last() != '-'
}

/// What survives of a host name holds letters, digits and dashes only, and
/// is no longer than the host name.
pub proof fn lemma_kept_chars_are_derived(s: Seq<char>)
    ensures
        keep_hostname_chars(s).len() <= s.len(),
        forall|i: int|
            0 <= i < keep_hostname_chars(s).len() ==> is_derived_char(
                #[trigger] keep_hostname_chars(s)[i],
            ),
    decreases s.len(),
{
    if s.len() > 0 {
        lemma_kept_chars_are_derived(s.drop_last());
    }
}

/// Trimming leading dashes leaves the end of the sequence, beginning with
/// something other than a dash.
pub proof fn lemma_trim_leading(s: Seq<char>)
    ensures
        exists|k: int|
            0 <= k <= s.len() && #[trigger] s.subrange(k, s.len() as int) == trim_leading_dashes(s),
        trim_leading_dashes(s).len() > 0 ==> trim_leading_dashes(s)[0] != '-',
    decreases s.len(),
{
    if s.len() > 0 && s[0] == '-' {
        let rest = s.drop_first();
        lemma_trim_leading(rest);
        let k = choose|k: int|
            0 <= k <= rest.len() && #[trigger] rest.subrange(k, rest.len() as int)
                == trim_leading_dashes(rest);
        assert(s.subrange(k + 1, s.len() as int) =~= rest.subrange(k, rest.len() as int));
    } else {
        assert(s.subrange(0, s.len() as int) =~= s);
    }
}

/// Trimming trailing dashes leaves the beginning of the sequence, ending
/// with something other than a dash.
pub proof fn lemma_trim_trailing(s: Seq<char>)
    ensures
        exists|k: int| 0 <= k <= s.len() && #[trigger] s.subrange(0, k) == trim_trailing_dashes(s),
        trim_trailing_dashes(s).len() > 0 ==> trim_trailing_dashes(s).last() != '-',
    decreases s.len(),
{
    if s.len() > 0 && s.last() == '-' {
        let rest = s.drop_last();
        lemma_trim_trailing(rest);
        let k = choose|k: int|
            0 <= k <= rest.len() && #[trigger] rest.subrange(0, k) == trim_trailing_dashes(rest);
        assert(s.subrange(0, k) =~= rest.subrange(0, k));
    } else {
        assert(s.subrange(0, s.len() as int) =~= s);
    }
}

/// Whatever the host name, the name derived from it has the shape of a
/// derived name, and it depends on the first sixty characters only.
pub proof fn lemma_clean_hostname_shape(hostname: Seq<char>)
    ensures
        derived_name_shape(clean_hostname(hostname)),
        clean_hostname(hostname) == clean_hostname(scanned_prefix(hostname)),
{
    let scanned = scanned_prefix(hostname);
    let kept = keep_hostname_chars(scanned);
    lemma_kept_chars_are_derived(scanned);
    lemma_trim_leading(kept);
    lemma_trim_trailing(trim_leading_dashes(kept));
    reveal_strlit("remote-machine");
}

/// Maps one host name character as `hostname_char` says.
pub fn map_hostname_char(c: char) -> (r: Option<char>)
    ensures
        r == hostname_char(c),
        r matches Some(k) ==> is_derived_char(k),
{
    if c == '-' || c == '_' || c == ' ' {
        Some('-')
    } else if ('0' <= c && c <= '9') || ('a' <= c && c <= 'z') || ('A' <= c && c <= 'Z') {
        Some(c)
    } else {
        None
    }
}

/// Cleans up a host name so that it can serve as a tunnel name.
///
/// Only the first sixty characters are read. Whatever the host name, the
/// result has `derived_name_shape`.
pub fn clean_hostname_for_tunnel(hostname: &str) -> (r: String)
    ensures
        r@ == clean_hostname(hostname@),
        r@ == clean_hostname(scanned_prefix(hostname@)),
        derived_name_shape(r@),
{
    let total = hostname.unicode_len();
    let limit = if total < HOSTNAME_SCAN_LIMIT {
        total
    } else {
        HOSTNAME_SCAN_LIMIT
    };
    let ghost scanned = scanned_prefix(hostname@);
    assert(scanned =~= hostname@.subrange(0, limit as int));
    let mut kept: Vec<char> = Vec::new();
    let mut i: usize = 0;
    while i < limit
        invariant
            limit <= hostname@.len(),
            limit <= HOSTNAME_SCAN_LIMIT,
            i <= limit,
            kept@ == keep_hostname_chars(hostname@.subrange(0, i as int)),
            kept@.len() <= i,
            forall|k: int| 0 <= k < kept@.len() ==> is_derived_char(#[trigger] kept@[k]),
        decreases limit - i,
    {
        let c = hostname.get_char(i);
        proof {
            let next = hostname@.subrange(0, i + 1);
            assert(next.drop_last() =~= hostname@.subrange(0, i as int));
        }
        match map_hostname_char(c) {
            Some(k) => {
                kept.push(k);
            },
            None => {},
        }
        i += 1;
    }
    let mut start: usize = 0;
    assert(kept@.subrange(0, kept@.len() as int) =~= kept@);
    while start < kept.len() && kept[start] == '-'
        invariant
            start <= kept@.len(),
            trim_leading_dashes(kept@) == trim_leading_dashes(
                kept@.subrange(start as int, kept@.len() as int),
            ),
        decreases kept@.len() - start,
    {
        proof {
            let here = kept@.subrange(start as int, kept@.len() as int);
            assert(here.drop_first() =~= kept@.subrange(start + 1, kept@.len() as int));
        }
        start += 1;
    }
    let ghost front = kept@.subrange(start as int, kept@.len() as int);
    let mut end: usize = kept.len();
    while end > start && kept[end - 1] == '-'
        invariant
            start <= end <= kept@.len(),
            front == kept@.subrange(start as int, kept@.len() as int),
            trim_trailing_dashes(front) == trim_trailing_dashes(
                kept@.subrange(start as int, end as int),
            ),
        decreases end - start,
    {
        proof {
            let here = kept@.subrange(start as int, end as int);
            assert(here.drop_last() =~= kept@.subrange(start as int, end - 1));
        }
        end -= 1;
    }
    if end - start < 2 {
        proof {
            reveal_strlit("remote-machine");
        }
        return String::from_str("remote-machine");
    }
    let mut out = String::new();
    let mut j: usize = start;
    while j < end
        invariant
            start <= j <= end <= kept@.len(),
            out@ == kept@.subrange(start as int, j as int),
        decreases end - j,
    {
        push_char(&mut out, kept[j]);
        j += 1;
    }
    out
}

} // verus!
