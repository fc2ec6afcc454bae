//! The tags that the engine keeps on a tunnel: its name, the version of the
//! protocol that its host speaks, and the mark of this application.

use vstd::prelude::*;
use vstd::string::*;
use crate::names::{is_name_char, valid_name};
use crate::text::{decimal, has_prefix, push_decimal};
use crate::tunnel::{APPLICATION_TAG, PROTOCOL_VERSION_TAG_PREFIX};

verus! {

/// A tag that states a protocol version, whichever version it is.
pub open spec fn is_version_tag(tag: Seq<char>) -> bool {
    PROTOCOL_VERSION_TAG_PREFIX@.is_prefix_of(tag)
}

/// The tag that states protocol version `version`.
pub open spec fn version_tag(version: u32) -> Seq<char> {
    PROTOCOL_VERSION_TAG_PREFIX@ + decimal(version as nat)
}

/// The tags with which a tunnel named `name` is created.
pub open spec fn draft_tags(name: Seq<char>, version: u32) -> Seq<Seq<char>> {
    seq![name, version_tag(version), APPLICATION_TAG@]
}

/// The tags that a renamed tunnel is given. The version tag is left out;
/// the next start of the tunnel puts it back.
pub open spec fn renamed_tags(name: Seq<char>) -> Seq<Seq<char>> {
    seq![name, APPLICATION_TAG@]
}

/// The tags of a tunnel once its version tag is brought up to date: every
/// version tag is taken out and the current one is put at the end.
pub open spec fn with_version_tag(tags: Seq<Seq<char>>, version: u32) -> Seq<Seq<char>> {
    tags.filter(|t: Seq<char>| !is_version_tag(t)).push(version_tag(version))
}

/// After the version tag was brought up to date, exactly one tag states a
/// version, and it is the current one; the other tags are those that were
/// there, in their order.
pub proof fn lemma_one_version_tag(tags: Seq<Seq<char>>, version: u32)
    ensures
        with_version_tag(tags, version).filter(|t: Seq<char>| is_version_tag(t)) == seq![
            version_tag(version),
        ],
        with_version_tag(tags, version).filter(|t: Seq<char>| !is_version_tag(t)) == tags.filter(
            |t: Seq<char>| !is_version_tag(t),
        ),
        with_version_tag(tags, version).contains(version_tag(version)),
{
    let states = |t: Seq<char>| is_version_tag(t);
    let others = |t: Seq<char>| !is_version_tag(t);
    let kept = tags.filter(others);
    let current = version_tag(version);
    kept.lemma_all_neg_filter_empty(states);
    kept.lemma_filter_push(current, states);
    kept.lemma_filter_push(current, others);
    lemma_filter_all(kept, others);
    assert(kept.push(current)[kept.len() as int] == current);
}

/// A valid name states no version.
pub proof fn lemma_names_state_no_version(name: Seq<char>)
    requires
        valid_name(name),
    ensures
        !is_version_tag(name),
{
    reveal_strlit("pv=");
    if is_version_tag(name) {
        assert(name.subrange(0, 3)[2] == '=');
    }
}

/// The application's tag states no version.
pub proof fn lemma_application_tag_states_no_version()
    ensures
        !is_version_tag(APPLICATION_TAG@),
{
    reveal_strlit("pv=");
    reveal_strlit("vscode-server-launcher");
    if is_version_tag(APPLICATION_TAG@) {
        assert(APPLICATION_TAG@.subrange(0, 3)[0] == 'p');
    }
}

/// A tunnel is created with the application's tag and exactly one version
/// tag, the current one.
pub proof fn lemma_draft_tags(name: Seq<char>, version: u32)
    requires
        valid_name(name),
    ensures
        draft_tags(name, version).contains(APPLICATION_TAG@),
        draft_tags(name, version).filter(|t: Seq<char>| is_version_tag(t)) == seq![
            version_tag(version),
        ],
{
    let states = |t: Seq<char>| is_version_tag(t);
    let tags = draft_tags(name, version);
    lemma_names_state_no_version(name);
    lemma_application_tag_states_no_version();
    let empty = Seq::<Seq<char>>::empty();
    empty.lemma_filter_push(name, states);
    empty.push(name).lemma_filter_push(version_tag(version), states);
    empty.push(name).push(version_tag(version)).lemma_filter_push(APPLICATION_TAG@, states);
    assert(tags =~= empty.push(name).push(version_tag(version)).push(APPLICATION_TAG@));
}

/// Bringing the version tag up to date keeps the application's tag where
/// the tunnel had it.
pub proof fn lemma_application_tag_stays(tags: Seq<Seq<char>>, version: u32)
    requires
        tags.contains(APPLICATION_TAG@),
    ensures
        with_version_tag(tags, version).contains(APPLICATION_TAG@),
{
    let others = |t: Seq<char>| !is_version_tag(t);
    lemma_application_tag_states_no_version();
    let i = choose|i: int| 0 <= i < tags.len() && tags[i] == APPLICATION_TAG@;
    tags.lemma_filter_contains(others, i);
    let kept = tags.filter(others);
    let j = choose|j: int| 0 <= j < kept.len() && kept[j] == APPLICATION_TAG@;
    assert(kept.push(version_tag(version))[j] == APPLICATION_TAG@);
}

/// Filtering by a test that every element passes changes nothing.
pub proof fn lemma_filter_all<A>(s: Seq<A>, pred: spec_fn(A) -> bool)
    requires
        forall|i: int| 0 <= i < s.len() ==> pred(#[trigger] s[i]),
    ensures
        s.filter(pred) == s,
    decreases s.len(),
{
    reveal(Seq::filter);
    if s.len() > 0 {
        lemma_filter_all(s.drop_last(), pred);
    }
}

/// The tag that states protocol version `version`.
pub fn protocol_version_tag(version: u32) -> (r: String)
    ensures
        r@ == version_tag(version),
{
    let mut tag = String::from_str(PROTOCOL_VERSION_TAG_PREFIX);
    push_decimal(&mut tag, version);
    tag
}

/// The tags with which a tunnel named `name` is created.
pub fn new_tunnel_tags(name: &str, version: u32) -> (r: Vec<String>)
    ensures
        r.deep_view() == draft_tags(name@, version),
{
    let mut tags: Vec<String> = Vec::new();
    tags.push(String::from_str(name));
    tags.push(protocol_version_tag(version));
    tags.push(String::from_str(APPLICATION_TAG));
    tags
}

/// The tags that a tunnel renamed to `name` is given.
pub fn renamed_tunnel_tags(name: &str) -> (r: Vec<String>)
    ensures
        r.deep_view() == renamed_tags(name@),
{
    let mut tags: Vec<String> = Vec::new();
    tags.push(String::from_str(name));
    tags.push(String::from_str(APPLICATION_TAG));
    tags
}

/// Brings the version tag among `tags` up to date.
///
/// Every tag that states a version is dropped, the others keep their order,
/// and the tag of `version` is added at the end: afterwards exactly one tag
/// states a version, the current one.
pub fn update_version_tag(tags: &Vec<String>, version: u32) -> (r: Vec<String>)
    ensures
        r.deep_view() == with_version_tag(tags.deep_view(), version),
        r.deep_view().filter(|t: Seq<char>| is_version_tag(t)) == seq![version_tag(version)],
{
    let ghost others = |t: Seq<char>| !is_version_tag(t);
    let ghost all = tags.deep_view();
    let mut out: Vec<String> = Vec::new();
    let mut i: usize = 0;
    proof {
        reveal(Seq::filter);
    }
    while i < tags.len()
        invariant
            all == tags.deep_view(),
            others == |t: Seq<char>| !is_version_tag(t),
            i <= all.len(),
            out.deep_view() == all.take(i as int).filter(others),
        decreases all.len() - i,
    {
        proof {
            assert(all.take(i + 1) =~= all.take(i as int).push(all[i as int]));
            all.take(i as int).lemma_filter_push(all[i as int], others);
        }
        if !has_prefix(tags[i].as_str(), PROTOCOL_VERSION_TAG_PREFIX) {
            out.push(tags[i].clone());
        }
        i += 1;
    }
    assert(all.take(all.len() as int) =~= all);
    out.push(protocol_version_tag(version));
    proof {
        lemma_one_version_tag(all, version);
    }
    out
}

} // verus!
