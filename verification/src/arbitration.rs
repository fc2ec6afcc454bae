//! Choosing a name for a new tunnel: the preferred name if it is valid and
//! free, else a name derived from the host name and made unique, which an
//! interactive user may replace.

use vstd::prelude::*;
use vstd::string::*;
use crate::errors::{wrap, wrap_http, wrapped, AnyError, AnyErrorView};
use crate::names::{
    clean_hostname, clean_hostname_for_tunnel, invalid_name_message, is_valid_name, valid_name,
};
use crate::protocol::{
    unexpected_reply, unexpected_reply_error, Ask, AskView, Reply, ReplyView, Request, RequestView,
    Step, StepView,
};
use crate::text::{
    decimal, is_lowercase, lemma_decimal_is_lowercase, lemma_lowercase_is_lowercase, lowercase,
    push_decimal, to_ascii_lowercase,
};
use crate::tunnel::{contains_string, RemoteTunnel, RemoteTunnelView, APPLICATION_TAG};

verus! {

/// No tunnel with a connected host carries `name`, so the name is free.
pub open spec fn name_free(existing: Seq<RemoteTunnelView>, name: Seq<char>) -> bool {
    forall|i: int| 0 <= i < existing.len() ==> !(#[trigger] existing[i]).holds_name(name)
}

/// `base` with the numeral of `n` behind it.
pub open spec fn numbered(base: Seq<char>, n: nat) -> Seq<char> {
    base + decimal(n)
}

/// The least number from `from` on, as far as numbers go, that makes `base`
/// free when put behind it.
pub open spec fn first_free_number(
    existing: Seq<RemoteTunnelView>,
    base: Seq<char>,
    from: nat,
) -> Option<nat>
    decreases u32::MAX + 1 - from,
{
    if from > u32::MAX {
        None
    } else if name_free(existing, numbered(base, from)) {
        Some(from)
    } else {
        first_free_number(existing, base, from + 1)
    }
}

/// The name offered for a new tunnel: `base` if it is free, else `base`
/// with the least number from 2 on that makes it free.
pub open spec fn placeholder_for(existing: Seq<RemoteTunnelView>, base: Seq<char>) -> Option<
    Seq<char>,
> {
    if name_free(existing, base) {
        Some(base)
    } else {
        match first_free_number(existing, base, 2) {
            Some(n) => Some(numbered(base, n)),
            None => None,
        }
    }
}

/// Whatever `placeholder_for` offers is free.
pub proof fn lemma_placeholder_is_free(existing: Seq<RemoteTunnelView>, base: Seq<char>)
    ensures
        placeholder_for(existing, base) matches Some(name) ==> name_free(existing, name),
{
    if !name_free(existing, base) {
        lemma_first_free_number(existing, base, 2);
    }
}

/// The number that `first_free_number` finds makes the name free, and no
/// smaller number from `from` on does.
pub proof fn lemma_first_free_number(existing: Seq<RemoteTunnelView>, base: Seq<char>, from: nat)
    ensures
        match first_free_number(existing, base, from) {
            Some(n) => from <= n <= u32::MAX && name_free(existing, numbered(base, n))
                && forall|k: nat| from <= k < n ==> !name_free(existing, numbered(base, k)),
            None => forall|k: nat| from <= k <= u32::MAX ==> !name_free(existing, numbered(base, k)),
        },
    decreases u32::MAX + 1 - from,
{
    if from <= u32::MAX && !name_free(existing, numbered(base, from)) {
        lemma_first_free_number(existing, base, from + 1);
    }
}

/// Tells whether no tunnel with a connected host carries `name`.
pub fn is_name_free(existing: &Vec<RemoteTunnel>, name: &String) -> (r: bool)
    ensures
        r == name_free(existing.deep_view(), name@),
{
    let mut i: usize = 0;
    while i < existing.len()
        invariant
            i <= existing@.len(),
            forall|j: int| 0 <= j < i ==> !(#[trigger] existing.deep_view()[j]).holds_name(name@),
        decreases existing@.len() - i,
    {
        if existing[i].connections() > 0 && contains_string(&existing[i].tags, name) {
            assert(existing.deep_view()[i as int].holds_name(name@));
            return false;
        }
        i += 1;
    }
    true
}

/// Makes `base` unique among the names in use.
///
/// Returns `base` itself where it is free, else `base` followed by the
/// least number from 2 on that makes it free. `None` means that every such
/// number is taken.
pub fn unique_placeholder(existing: &Vec<RemoteTunnel>, base: &str) -> (r: Option<String>)
    ensures
        r.deep_view() == placeholder_for(existing.deep_view(), base@),
{
    let plain = String::from_str(base);
    if is_name_free(existing, &plain) {
        return Some(plain);
    }
    let mut n: u32 = 2;
    loop
        invariant
            2 <= n,
            !name_free(existing.deep_view(), base@),
            first_free_number(existing.deep_view(), base@, 2) == first_free_number(
                existing.deep_view(),
                base@,
                n as nat,
            ),
        decreases u32::MAX - n,
    {
        let mut candidate = String::from_str(base);
        push_decimal(&mut candidate, n);
        if is_name_free(existing, &candidate) {
            return Some(candidate);
        }
        if n == u32::MAX {
            return None;
        }
        n += 1;
    }
}

/// Where the search for a name stands.
#[derive(Clone, Copy, Debug, PartialEq, Eq, Structural)]
pub enum NamePhase {
    /// The tunnels of this application were asked for.
    Listing,
    /// The host name was asked for.
    Hostname,
    /// The user was asked for a name.
    Prompting,
}

/// The search for the name of a new tunnel.
pub struct NameSearch {
    phase: NamePhase,
    preferred: Option<String>,
    use_random: bool,
    interactive: bool,
    existing: Vec<RemoteTunnel>,
    placeholder: String,
}

/// The mathematical value of a `NameSearch`.
pub struct NameSearchView {
    pub phase: NamePhase,
    pub preferred: Option<Seq<char>>,
    pub use_random: bool,
    pub interactive: bool,
    pub existing: Seq<RemoteTunnelView>,
    pub placeholder: Seq<char>,
}

impl View for NameSearch {
    type V = NameSearchView;

    closed spec fn view(&self) -> NameSearchView {
        NameSearchView {
            phase: self.phase,
            preferred: self.preferred.deep_view(),
            use_random: self.use_random,
            interactive: self.interactive,
            existing: self.existing.deep_view(),
            placeholder: self.placeholder@,
        }
    }
}

/// The request with which every search begins: the tunnels that carry the
/// application's tag.
pub open spec fn list_own_tunnels() -> AskView {
    AskView::Call(RequestView::ListTunnels { tags: seq![APPLICATION_TAG@] })
}

/// The failure reported when every numbered form of the derived name is in
/// use.
pub open spec fn no_free_name() -> AnyErrorView {
    AnyErrorView::DevTunnelError("no free name could be derived from the host name"@)
}

/// How a search begins.
pub open spec fn name_search_start(
    preferred: Option<Seq<char>>,
    use_random: bool,
    interactive: bool,
) -> StepView<NameSearchView, Seq<char>> {
    StepView::Next(
        NameSearchView {
            phase: NamePhase::Listing,
            preferred,
            use_random,
            interactive,
            existing: Seq::empty(),
            placeholder: Seq::empty(),
        },
        list_own_tunnels(),
    )
}

/// What a search does with the list of tunnels in use: it ends with the
/// preferred name if that is valid and free, fails if it is invalid, and
/// otherwise turns to the host name.
pub open spec fn name_search_listed(pre: NameSearchView, existing: Seq<RemoteTunnelView>) -> StepView<
    NameSearchView,
    Seq<char>,
> {
    let turn_to_host = |use_random: bool|
        StepView::Next(
            NameSearchView { phase: NamePhase::Hostname, existing, use_random, ..pre },
            AskView::Hostname,
        );
    match pre.preferred {
        Some(p) => {
            let name = lowercase(p);
            if !valid_name(name) {
                StepView::Done(Err(wrapped(invalid_name_message(name), "invalid name"@)))
            } else if name_free(existing, name) {
                StepView::Done(Ok(name))
            } else {
                turn_to_host(true)
            }
        },
        None => turn_to_host(pre.use_random),
    }
}

/// What a search does with the host name: it derives a unique name and
/// either ends with it or offers it to the user.
pub open spec fn name_search_hosted(pre: NameSearchView, hostname: Seq<char>) -> StepView<
    NameSearchView,
    Seq<char>,
> {
    match placeholder_for(pre.existing, lowercase(clean_hostname(hostname))) {
        None => StepView::Done(Err(no_free_name())),
        Some(placeholder) => if pre.use_random || !pre.interactive {
            StepView::Done(Ok(placeholder))
        } else {
            StepView::Next(
                NameSearchView { phase: NamePhase::Prompting, placeholder, ..pre },
                AskView::Call(RequestView::Prompt { placeholder }),
            )
        },
    }
}

/// What a search does with the user's answer: it ends with the answer if
/// that is valid and free, and asks again otherwise.
pub open spec fn name_search_prompted(pre: NameSearchView, answer: Seq<char>) -> StepView<
    NameSearchView,
    Seq<char>,
> {
    let name = lowercase(answer);
    if valid_name(name) && name_free(pre.existing, name) {
        StepView::Done(Ok(name))
    } else {
        StepView::Next(pre, AskView::Call(RequestView::Prompt { placeholder: pre.placeholder }))
    }
}

/// The search, as a function from its state and an answer to what comes
/// next.
pub open spec fn name_search_advance(pre: NameSearchView, reply: ReplyView) -> StepView<
    NameSearchView,
    Seq<char>,
> {
    match (pre.phase, reply) {
        (NamePhase::Listing, ReplyView::Tunnels(Ok(existing))) => name_search_listed(
            pre,
            existing,
        ),
        (NamePhase::Listing, ReplyView::Tunnels(Err(e))) => StepView::Done(
            Err(wrapped(e.body, "error listing current tunnels"@)),
        ),
        (NamePhase::Hostname, ReplyView::Hostname(h)) => name_search_hosted(pre, h),
        (NamePhase::Prompting, ReplyView::Prompted(Ok(answer))) => name_search_prompted(
            pre,
            answer,
        ),
        (NamePhase::Prompting, ReplyView::Prompted(Err(e))) => StepView::Done(
            Err(AnyErrorView::WrappedError(e)),
        ),
        _ => StepView::Done(Err(unexpected_reply())),
    }
}

/// The list of tunnels against which a step of the search tests a name: the
/// one that the step is given, or the one that the search holds.
pub open spec fn names_in_use(pre: NameSearchView, reply: ReplyView) -> Seq<RemoteTunnelView> {
    match reply {
        ReplyView::Tunnels(Ok(list)) => list,
        _ => pre.existing,
    }
}

/// A name that the search ends with is free and holds no upper-case letter.
/// Unless it was derived from the host name, it is a valid name as well.
pub proof fn lemma_found_name_is_free(pre: NameSearchView, reply: ReplyView)
    ensures
        name_search_advance(pre, reply) matches StepView::Done(Ok(name)) ==> {
            &&& name_free(names_in_use(pre, reply), name)
            &&& is_lowercase(name)
            &&& pre.phase != NamePhase::Hostname ==> valid_name(name)
        },
        name_search_advance(pre, reply) matches StepView::Next(post, _) ==> post.existing
            == names_in_use(pre, reply),
{
    match (pre.phase, reply) {
        (NamePhase::Listing, ReplyView::Tunnels(Ok(existing))) => {
            if pre.preferred is Some {
                lemma_lowercase_is_lowercase(pre.preferred->0);
            }
        },
        (NamePhase::Hostname, ReplyView::Hostname(h)) => {
            let base = lowercase(clean_hostname(h));
            lemma_lowercase_is_lowercase(clean_hostname(h));
            lemma_placeholder_is_free(pre.existing, base);
            if !name_free(pre.existing, base) {
                lemma_first_free_number(pre.existing, base, 2);
                let found = first_free_number(pre.existing, base, 2);
                if found is Some {
                    lemma_decimal_is_lowercase(found->0);
                }
            }
        },
        (NamePhase::Prompting, ReplyView::Prompted(Ok(answer))) => {
            lemma_lowercase_is_lowercase(answer);
        },
        _ => {},
    }
}

impl NameSearch {
    /// Begins the search for a name. `preferred` is the name the caller
    /// would like; `use_random` says that the user is not to be asked;
    /// `interactive` says whether there is a user to ask.
    pub fn start(preferred: Option<String>, use_random: bool, interactive: bool) -> (r: Step<
        NameSearch,
        String,
    >)
        ensures
            r@ == name_search_start(preferred.deep_view(), use_random, interactive),
    {
        let mut tags: Vec<String> = Vec::new();
        tags.push(String::from_str(APPLICATION_TAG));
        assert(tags.deep_view() =~= seq![APPLICATION_TAG@]);
        let state = NameSearch {
            phase: NamePhase::Listing,
            preferred,
            use_random,
            interactive,
            existing: Vec::new(),
            placeholder: String::new(),
        };
        assert(state@.existing =~= Seq::empty());
        Step::Next(state, Ask::Call(Request::ListTunnels { tags }))
    }

    /// Advances the search with the answer to its last question.
    pub fn advance(self, reply: Reply) -> (r: Step<NameSearch, String>)
        ensures
            r@ == name_search_advance(self@, reply@),
    {
        match (self.phase, reply) {
            (NamePhase::Listing, Reply::Tunnels(Ok(existing))) => self.listed(existing),
            (NamePhase::Listing, Reply::Tunnels(Err(e))) => Step::Done(
                Err(wrap_http(e, "error listing current tunnels")),
            ),
            (NamePhase::Hostname, Reply::Hostname(h)) => self.hosted(h),
            (NamePhase::Prompting, Reply::Prompted(Ok(answer))) => self.prompted(answer),
            (NamePhase::Prompting, Reply::Prompted(Err(e))) => Step::Done(
                Err(AnyError::WrappedError(e)),
            ),
            _ => Step::Done(Err(unexpected_reply_error())),
        }
    }

    fn listed(self, existing: Vec<RemoteTunnel>) -> (r: Step<NameSearch, String>)
        ensures
            r@ == name_search_listed(self@, existing.deep_view()),
    {
        let mut use_random = self.use_random;
        match &self.preferred {
            Some(p) => {
                let name = to_ascii_lowercase(p.as_str());
                match is_valid_name(name.as_str()) {
                    Err(e) => {
                        return Step::Done(Err(AnyError::WrappedError(wrap(e.0, "invalid name"))));
                    },
                    Ok(_) => {},
                }
                if is_name_free(&existing, &name) {
                    return Step::Done(Ok(name));
                }
                use_random = true;
            },
            None => {},
        }
        Step::Next(
            NameSearch {
                phase: NamePhase::Hostname,
                preferred: self.preferred,
                use_random,
                interactive: self.interactive,
                existing,
                placeholder: self.placeholder,
            },
            Ask::Hostname,
        )
    }

    fn hosted(self, hostname: String) -> (r: Step<NameSearch, String>)
        ensures
            r@ == name_search_hosted(self@, hostname@),
    {
        let derived = clean_hostname_for_tunnel(hostname.as_str());
        let base = to_ascii_lowercase(derived.as_str());
        match unique_placeholder(&self.existing, base.as_str()) {
            None => Step::Done(
                Err(
                    AnyError::DevTunnelError(
                        String::from_str("no free name could be derived from the host name"),
                    ),
                ),
            ),
            Some(placeholder) => {
                if self.use_random || !self.interactive {
                    Step::Done(Ok(placeholder))
                } else {
                    let offered = placeholder.clone();
                    Step::Next(
                        NameSearch {
                            phase: NamePhase::Prompting,
                            preferred: self.preferred,
                            use_random: self.use_random,
                            interactive: self.interactive,
                            existing: self.existing,
                            placeholder,
                        },
                        Ask::Call(Request::Prompt { placeholder: offered }),
                    )
                }
            },
        }
    }

    fn prompted(self, answer: String) -> (r: Step<NameSearch, String>)
        ensures
            r@ == name_search_prompted(self@, answer@),
    {
        let name = to_ascii_lowercase(answer.as_str());
        let valid = match is_valid_name(name.as_str()) {
            Ok(_) => true,
            Err(_) => false,
        };
        if valid && is_name_free(&self.existing, &name) {
            Step::Done(Ok(name))
        } else {
            let offered = self.placeholder.clone();
            Step::Next(self, Ask::Call(Request::Prompt { placeholder: offered }))
        }
    }
}

} // verus!
