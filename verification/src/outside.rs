//! The calls into the standard library and into other crates whose
//! contracts are taken on trust. Each is one call behind a function of this
//! library; everything else in the library is proved from what is stated
//! here.

use vstd::prelude::*;
use rand::seq::IteratorRandom;
use crate::async_pipe::is_uuid_text;

verus! {

/// Appends one character to `s`.
///
/// Trusted: calls `String::push`, which the standard library documents as
/// appending the given character to the end of the string.
#[verifier::external_body]
pub(crate) fn push_char(s: &mut String, c: char)
    ensures
        final(s)@ == old(s)@.push(c),
{
    s.push(c);
}

/// The host name of this machine.
///
/// Trusted: calls `gethostname::gethostname` and turns its result into a
/// string, replacing what is not Unicode. Nothing is claimed of the name.
#[verifier::external_body]
pub(crate) fn os_hostname() -> String {
    gethostname::gethostname().to_string_lossy().into_owned()
}

/// An index below `count`, chosen uniformly at random.
///
/// Trusted: calls `rand::seq::IteratorRandom::choose` on the range from 0 to
/// `count` with the thread's generator. By its source and documentation the
/// call returns `None` if and only if the range is empty, and otherwise one
/// of the numbers in the range; which one is not claimed.
#[verifier::external_body]
pub(crate) fn choose_index(count: usize) -> (r: Option<usize>)
    ensures
        r is None <==> count == 0,
        r matches Some(i) ==> i < count,
{
    (0..count).choose(&mut rand::thread_rng())
}

/// The text that `String::from_utf8_lossy` makes of `bytes`: the text
/// they encode, with a replacement character for what is not UTF-8.
pub uninterp spec fn lossy_utf8(bytes: Seq<u8>) -> Seq<char>;

/// Decodes bytes as text, whatever they hold.
///
/// Trusted: calls `String::from_utf8_lossy`, whose result depends on the
/// bytes alone. The contract only gives that result its name.
#[verifier::external_body]
pub(crate) fn utf8_lossy(bytes: &Vec<u8>) -> (r: String)
    ensures
        r@ == lossy_utf8(bytes@),
{
    String::from_utf8_lossy(bytes).into_owned()
}

/// A new random identifier, as text.
///
/// Trusted: calls `uuid::Uuid::new_v4` and renders the result with its
/// `Display`, which by the crate's source writes the hyphenated lower-case
/// form. Which identifier comes is not claimed. The call fails hard where
/// the system hands out no random bytes.
#[verifier::external_body]
pub(crate) fn new_uuid_text() -> (r: String)
    ensures
        is_uuid_text(r@),
{
    uuid::Uuid::new_v4().to_string()
}

} // verus!
