//! Finding the tunnel that belongs to a persisted identity, or creating a
//! new one where the service no longer knows it.

use vstd::prelude::*;
use vstd::string::*;
use crate::create::{
    create_advance, create_start, lemma_create_starts_consistent, lemma_created_is_persisted,
    CreateTunnel, CreateTunnelView, Created, CreatedView,
};
use crate::errors::{wrap_http, wrapped};
use crate::protocol::{
    unexpected_reply, unexpected_reply_error, Ask, AskView, Reply, ReplyView, Request,
    RequestOptions, RequestOptionsView, RequestView, Step, StepView,
};
use crate::tunnel::{PersistedTunnel, PersistedTunnelView, RemoteTunnel, RemoteTunnelView};

verus! {

/// The search for the tunnel of a persisted identity.
pub enum GetOrCreate {
    /// The service was asked for the tunnel.
    Looking {
        persisted: PersistedTunnel,
        new_name: Option<String>,
        options: RequestOptions,
        version: u32,
    },
    /// The tunnel is gone and a new one is being created.
    Creating(CreateTunnel),
}

/// The mathematical value of a `GetOrCreate`.
pub enum GetOrCreateView {
    Looking {
        persisted: PersistedTunnelView,
        new_name: Option<Seq<char>>,
        options: RequestOptionsView,
        version: u32,
    },
    Creating(CreateTunnelView),
}

impl View for GetOrCreate {
    type V = GetOrCreateView;

    closed spec fn view(&self) -> GetOrCreateView {
        match self {
            GetOrCreate::Looking { persisted, new_name, options, version } => {
                GetOrCreateView::Looking {
                    persisted: persisted@,
                    new_name: new_name.deep_view(),
                    options: options@,
                    version: *version,
                }
            },
            GetOrCreate::Creating(inner) => GetOrCreateView::Creating(inner@),
        }
    }
}

/// What a finished search hands back: the service's record, the identity on
/// disk, and whether the tunnel was created just now.
pub type Resolved = (RemoteTunnel, PersistedTunnel, bool);

/// The mathematical value of a `Resolved`.
pub type ResolvedView = (RemoteTunnelView, PersistedTunnelView, bool);

/// How a search begins: by asking for the tunnel that the identity names.
pub open spec fn get_or_create_start(
    persisted: PersistedTunnelView,
    new_name: Option<Seq<char>>,
    options: RequestOptionsView,
    version: u32,
) -> StepView<GetOrCreateView, ResolvedView> {
    StepView::Next(
        GetOrCreateView::Looking { persisted, new_name, options, version },
        AskView::Call(RequestView::GetTunnel { locator: persisted.locator(), options }),
    )
}

/// A step of the creation, seen as a step of the search.
pub open spec fn resolve_by_creating(step: StepView<CreateTunnelView, CreatedView>) -> StepView<
    GetOrCreateView,
    ResolvedView,
> {
    match step {
        StepView::Next(inner, ask) => StepView::Next(GetOrCreateView::Creating(inner), ask),
        StepView::Done(Ok((persisted, tunnel))) => StepView::Done(Ok((tunnel, persisted, true))),
        StepView::Done(Err(e)) => StepView::Done(Err(e)),
    }
}

/// The name under which a missing tunnel is created again: the new name if
/// one was given, else the one it had.
pub open spec fn name_to_create(persisted: PersistedTunnelView, new_name: Option<Seq<char>>) -> Seq<
    char,
> {
    match new_name {
        Some(n) => n,
        None => persisted.name,
    }
}

/// The search, as a function from its state and an answer to what comes
/// next.
pub open spec fn get_or_create_advance(pre: GetOrCreateView, reply: ReplyView) -> StepView<
    GetOrCreateView,
    ResolvedView,
> {
    match pre {
        GetOrCreateView::Looking { persisted, new_name, options, version } => match reply {
            ReplyView::Tunnel(Ok(tunnel)) => StepView::Done(Ok((tunnel, persisted, false))),
            ReplyView::Tunnel(Err(e)) => if e.means_missing() {
                resolve_by_creating(
                    create_start(name_to_create(persisted, new_name), options, version),
                )
            } else {
                StepView::Done(Err(wrapped(e.body, "failed to lookup tunnel"@)))
            },
            _ => StepView::Done(Err(unexpected_reply())),
        },
        GetOrCreateView::Creating(inner) => resolve_by_creating(create_advance(inner, reply)),
    }
}

impl GetOrCreateView {
    /// The name that the tunnel has once the search has ended: the one it
    /// had if it is found, and the one it is created under if it is gone.
    pub open spec fn name_if_created(self) -> Seq<char> {
        match self {
            GetOrCreateView::Looking { persisted, new_name, .. } => name_to_create(
                persisted,
                new_name,
            ),
            GetOrCreateView::Creating(inner) => inner.name,
        }
    }

    /// What holds of a search at every step: a creation within it is
    /// consistent.
    pub open spec fn consistent(self) -> bool {
        self matches GetOrCreateView::Creating(inner) ==> inner.consistent()
    }
}

/// A search that ends well hands back either the tunnel that the service
/// showed, with the identity as it was, or a tunnel created just now under
/// the name that was called for, with its identity written to disk.
pub proof fn lemma_resolved_is_found_or_created(pre: GetOrCreateView, reply: ReplyView)
    requires
        pre.consistent(),
    ensures
        match get_or_create_advance(pre, reply) {
            StepView::Next(post, _) => post.consistent() && post.name_if_created()
                == pre.name_if_created() && post is Creating,
            StepView::Done(Ok((tunnel, persisted, is_new))) => if is_new {
                &&& pre is Creating
                &&& reply matches ReplyView::Saved(Ok(_))
                &&& persisted.name == pre.name_if_created()
                &&& tunnel.locator() == Some(persisted.locator())
            } else {
                &&& pre matches GetOrCreateView::Looking { persisted: known, .. }
                &&& persisted == known
                &&& reply == ReplyView::Tunnel(Ok(tunnel))
            },
            StepView::Done(Err(_)) => true,
        },
{
    match pre {
        GetOrCreateView::Looking { persisted, new_name, options, version } => {
            lemma_create_starts_consistent(name_to_create(persisted, new_name), options, version);
        },
        GetOrCreateView::Creating(inner) => {
            lemma_created_is_persisted(inner, reply);
        },
    }
}

impl GetOrCreate {
    /// Begins the search for the tunnel of `persisted`. Should the tunnel
    /// be gone, it is created again, under `new_name` if one is given.
    pub fn start(
        persisted: PersistedTunnel,
        new_name: Option<String>,
        options: RequestOptions,
        version: u32,
    ) -> (r: Step<GetOrCreate, Resolved>)
        ensures
            r@ == get_or_create_start(persisted@, new_name.deep_view(), options@, version),
    {
        let ask = Ask::Call(
            Request::GetTunnel { locator: persisted.locator(), options: options.clone() },
        );
        Step::Next(GetOrCreate::Looking { persisted, new_name, options, version }, ask)
    }

    fn by_creating(step: Step<CreateTunnel, Created>) -> (r: Step<GetOrCreate, Resolved>)
        ensures
            r@ == resolve_by_creating(step@),
    {
        match step {
            Step::Next(inner, ask) => Step::Next(GetOrCreate::Creating(inner), ask),
            Step::Done(Ok((persisted, tunnel))) => Step::Done(Ok((tunnel, persisted, true))),
            Step::Done(Err(e)) => Step::Done(Err(e)),
        }
    }

    /// Advances the search with the answer to its last question.
    pub fn advance(self, reply: Reply) -> (r: Step<GetOrCreate, Resolved>)
        ensures
            r@ == get_or_create_advance(self@, reply@),
    {
        match self {
            GetOrCreate::Looking { persisted, new_name, options, version } => match reply {
                Reply::Tunnel(Ok(tunnel)) => Step::Done(Ok((tunnel, persisted, false))),
                Reply::Tunnel(Err(e)) => {
                    if e.means_missing() {
                        let name = match new_name {
                            Some(n) => n,
                            None => persisted.name,
                        };
                        GetOrCreate::by_creating(CreateTunnel::start(name, options, version))
                    } else {
                        Step::Done(Err(wrap_http(e, "failed to lookup tunnel")))
                    }
                },
                _ => Step::Done(Err(unexpected_reply_error())),
            },
            GetOrCreate::Creating(inner) => GetOrCreate::by_creating(inner.advance(reply)),
        }
    }
}

} // verus!
