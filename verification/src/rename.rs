//! Giving the launcher's tunnel a new name. The name must be valid and not
//! in use; a tunnel that the service has lost is created again under the new
//! name.

use vstd::prelude::*;
use vstd::string::*;
use crate::create::{
    create_advance, create_start, creation_failed, lemma_create_starts_consistent,
    lemma_created_is_persisted, CreateTunnel, CreateTunnelView, Created, CreatedView,
};
use crate::errors::{wrap_http, wrapped, AnyError, AnyErrorView};
use crate::names::{invalid_name_message, is_valid_name, valid_name};
use crate::protocol::{
    no_options, unexpected_reply, unexpected_reply_error, Ask, AskView, Reply, ReplyView, Request,
    RequestOptions, RequestView, Step, StepView,
};
use crate::resolve::{
    get_or_create_advance, get_or_create_start, lemma_resolved_is_found_or_created, GetOrCreate,
    GetOrCreateView, Resolved, ResolvedView,
};
use crate::tags::{renamed_tags, renamed_tunnel_tags};
use crate::text::{lowercase, to_ascii_lowercase};
use crate::tunnel::{
    PersistedTunnel, PersistedTunnelView, RemoteTunnel, RemoteTunnelView, APPLICATION_TAG,
};

verus! {

/// The change of a tunnel's name.
pub enum UpdateName {
    /// The service was asked which tunnels carry the new name.
    Checking { known: Option<PersistedTunnel>, name: String, version: u32 },
    /// The tunnel of the persisted identity is being looked for.
    Resolving { search: GetOrCreate, name: String },
    /// Nothing was persisted and a tunnel is being created under the name.
    Creating { creation: CreateTunnel },
    /// The service was asked to replace the tunnel's tags.
    Updating { persisted: PersistedTunnel, name: String },
    /// The new identity is being written to disk.
    Saving { tunnel: RemoteTunnel, persisted: PersistedTunnel },
}

/// The mathematical value of an `UpdateName`.
pub enum UpdateNameView {
    Checking { known: Option<PersistedTunnelView>, name: Seq<char>, version: u32 },
    Resolving { search: GetOrCreateView, name: Seq<char> },
    Creating { creation: CreateTunnelView },
    Updating { persisted: PersistedTunnelView, name: Seq<char> },
    Saving { tunnel: RemoteTunnelView, persisted: PersistedTunnelView },
}

impl View for UpdateName {
    type V = UpdateNameView;

    closed spec fn view(&self) -> UpdateNameView {
        match self {
            UpdateName::Checking { known, name, version } => UpdateNameView::Checking {
                known: known.deep_view(),
                name: name@,
                version: *version,
            },
            UpdateName::Resolving { search, name } => UpdateNameView::Resolving {
                search: search@,
                name: name@,
            },
            UpdateName::Creating { creation } => UpdateNameView::Creating { creation: creation@ },
            UpdateName::Updating { persisted, name } => UpdateNameView::Updating {
                persisted: persisted@,
                name: name@,
            },
            UpdateName::Saving { tunnel, persisted } => UpdateNameView::Saving {
                tunnel: tunnel@,
                persisted: persisted@,
            },
        }
    }
}

/// What a finished change hands back: the service's record and the identity
/// on disk, both under the new name.
pub type Renamed = (RemoteTunnel, PersistedTunnel);

/// The mathematical value of a `Renamed`.
pub type RenamedView = (RemoteTunnelView, PersistedTunnelView);

/// What is reported of a name that another tunnel of this application
/// carries.
pub open spec fn name_in_use_message() -> Seq<char> {
    "tunnel name already in use"@
}

/// How a change of name begins: the name is lowered and tested, and the
/// service is asked which tunnels of this application carry it.
pub open spec fn update_name_start(
    persisted: Option<PersistedTunnelView>,
    raw_name: Seq<char>,
    version: u32,
) -> StepView<UpdateNameView, RenamedView> {
    let name = lowercase(raw_name);
    if !valid_name(name) {
        StepView::Done(Err(AnyErrorView::InvalidTunnelName(invalid_name_message(name))))
    } else {
        StepView::Next(
            UpdateNameView::Checking { known: persisted, name, version },
            AskView::Call(RequestView::ListTunnels { tags: seq![APPLICATION_TAG@, name] }),
        )
    }
}

/// A step of the creation, seen as a step of the change of name.
pub open spec fn rename_by_creating(step: StepView<CreateTunnelView, CreatedView>) -> StepView<
    UpdateNameView,
    RenamedView,
> {
    match step {
        StepView::Next(creation, ask) => StepView::Next(UpdateNameView::Creating { creation }, ask),
        StepView::Done(Ok((persisted, tunnel))) => StepView::Done(Ok((tunnel, persisted))),
        StepView::Done(Err(e)) => StepView::Done(Err(e)),
    }
}

/// A step of the search for the tunnel, seen as a step of the change of
/// name. A tunnel that was found has its tags replaced by the new name and
/// the application's tag; one that was created just now carries the new name
/// already.
pub open spec fn rename_by_resolving(
    name: Seq<char>,
    step: StepView<GetOrCreateView, ResolvedView>,
) -> StepView<UpdateNameView, RenamedView> {
    match step {
        StepView::Next(search, ask) => StepView::Next(
            UpdateNameView::Resolving { search, name },
            ask,
        ),
        StepView::Done(Ok((tunnel, persisted, is_new))) => if is_new {
            StepView::Done(Ok((tunnel, persisted)))
        } else {
            StepView::Next(
                UpdateNameView::Updating { persisted, name },
                AskView::Call(
                    RequestView::UpdateTunnel {
                        tunnel: RemoteTunnelView { tags: renamed_tags(name), ..tunnel },
                        options: no_options(),
                    },
                ),
            )
        },
        StepView::Done(Err(e)) => StepView::Done(Err(e)),
    }
}

/// The change of name, as a function from its state and an answer to what
/// comes next.
pub open spec fn update_name_advance(pre: UpdateNameView, reply: ReplyView) -> StepView<
    UpdateNameView,
    RenamedView,
> {
    match pre {
        UpdateNameView::Checking { known, name, version } => match reply {
            ReplyView::Tunnels(Ok(holders)) => if holders.len() > 0 {
                StepView::Done(Err(creation_failed(name, name_in_use_message())))
            } else {
                match known {
                    Some(p) => rename_by_resolving(
                        name,
                        get_or_create_start(p, Some(name), no_options(), version),
                    ),
                    None => rename_by_creating(create_start(name, no_options(), version)),
                }
            },
            ReplyView::Tunnels(Err(e)) => StepView::Done(
                Err(wrapped(e.body, "failed to list existing tunnels"@)),
            ),
            _ => StepView::Done(Err(unexpected_reply())),
        },
        UpdateNameView::Resolving { search, name } => rename_by_resolving(
            name,
            get_or_create_advance(search, reply),
        ),
        UpdateNameView::Creating { creation } => rename_by_creating(
            create_advance(creation, reply),
        ),
        UpdateNameView::Updating { persisted, name } => match reply {
            ReplyView::Tunnel(Ok(tunnel)) => {
                let renamed = PersistedTunnelView { name, ..persisted };
                StepView::Next(
                    UpdateNameView::Saving { tunnel, persisted: renamed },
                    AskView::Call(RequestView::SavePersisted(Some(renamed))),
                )
            },
            ReplyView::Tunnel(Err(e)) => StepView::Done(
                Err(wrapped(e.body, "failed to rename tunnel"@)),
            ),
            _ => StepView::Done(Err(unexpected_reply())),
        },
        UpdateNameView::Saving { tunnel, persisted } => match reply {
            ReplyView::Saved(Ok(_)) => StepView::Done(Ok((tunnel, persisted))),
            ReplyView::Saved(Err(e)) => StepView::Done(Err(AnyErrorView::WrappedError(e))),
            _ => StepView::Done(Err(unexpected_reply())),
        },
    }
}

impl UpdateNameView {
    /// The name that the tunnel is being given.
    pub open spec fn target(self) -> Seq<char> {
        match self {
            UpdateNameView::Checking { name, .. } => name,
            UpdateNameView::Resolving { name, .. } => name,
            UpdateNameView::Creating { creation } => creation.name,
            UpdateNameView::Updating { name, .. } => name,
            UpdateNameView::Saving { persisted, .. } => persisted.name,
        }
    }

    /// What holds of a change of name at every step: whatever it has
    /// created, it creates under the new name.
    pub open spec fn consistent(self) -> bool {
        match self {
            UpdateNameView::Resolving { search, name } => search.consistent()
                && search.name_if_created() == name,
            UpdateNameView::Creating { creation } => creation.consistent(),
            _ => true,
        }
    }
}

/// A change of name begins consistent, and its target is the name lowered.
pub proof fn lemma_rename_starts_consistent(
    persisted: Option<PersistedTunnelView>,
    raw_name: Seq<char>,
    version: u32,
)
    ensures
        update_name_start(persisted, raw_name, version) matches StepView::Next(state, _)
            ==> state.consistent() && state.target() == lowercase(raw_name) && valid_name(
            state.target(),
        ),
{
}

/// A change of name that ends well has written the identity to disk under
/// the new name: it ends well only on the acknowledgement of that writing,
/// and the identity it hands back carries the name it was begun with.
pub proof fn lemma_renamed_is_persisted(pre: UpdateNameView, reply: ReplyView)
    requires
        pre.consistent(),
    ensures
        match update_name_advance(pre, reply) {
            StepView::Next(post, ask) => {
                &&& post.consistent()
                &&& post.target() == pre.target()
                &&& post matches UpdateNameView::Saving { persisted, .. } ==> ask == AskView::Call(
                    RequestView::SavePersisted(Some(persisted)),
                )
            },
            StepView::Done(Ok((_, persisted))) => persisted.name == pre.target()
                && reply matches ReplyView::Saved(Ok(_)),
            StepView::Done(Err(_)) => true,
        },
{
    match pre {
        UpdateNameView::Checking { known, name, version } => {
            lemma_create_starts_consistent(name, no_options(), version);
        },
        UpdateNameView::Resolving { search, name } => {
            lemma_resolved_is_found_or_created(search, reply);
        },
        UpdateNameView::Creating { creation } => {
            lemma_created_is_persisted(creation, reply);
        },
        _ => {},
    }
}

impl UpdateName {
    /// Begins the change of the tunnel's name to `raw_name`. `persisted` is
    /// the identity on disk, if there is one.
    pub fn start(persisted: Option<PersistedTunnel>, raw_name: &str, version: u32) -> (r: Step<
        UpdateName,
        Renamed,
    >)
        ensures
            r@ == update_name_start(persisted.deep_view(), raw_name@, version),
    {
        let name = to_ascii_lowercase(raw_name);
        match is_valid_name(name.as_str()) {
            Err(e) => {
                return Step::Done(Err(AnyError::InvalidTunnelName(e.0)));
            },
            Ok(_) => {},
        }
        let mut tags: Vec<String> = Vec::new();
        tags.push(String::from_str(APPLICATION_TAG));
        tags.push(name.clone());
        assert(tags.deep_view() =~= seq![APPLICATION_TAG@, name@]);
        Step::Next(
            UpdateName::Checking { known: persisted, name, version },
            Ask::Call(Request::ListTunnels { tags }),
        )
    }

    fn by_creating(step: Step<CreateTunnel, Created>) -> (r: Step<UpdateName, Renamed>)
        ensures
            r@ == rename_by_creating(step@),
    {
        match step {
            Step::Next(creation, ask) => Step::Next(UpdateName::Creating { creation }, ask),
            Step::Done(Ok((persisted, tunnel))) => Step::Done(Ok((tunnel, persisted))),
            Step::Done(Err(e)) => Step::Done(Err(e)),
        }
    }

    fn by_resolving(name: String, step: Step<GetOrCreate, Resolved>) -> (r: Step<
        UpdateName,
        Renamed,
    >)
        ensures
            r@ == rename_by_resolving(name@, step@),
    {
        match step {
            Step::Next(search, ask) => Step::Next(UpdateName::Resolving { search, name }, ask),
            Step::Done(Ok((tunnel, persisted, is_new))) => {
                if is_new {
                    Step::Done(Ok((tunnel, persisted)))
                } else {
                    let changed = RemoteTunnel {
                        tags: renamed_tunnel_tags(name.as_str()),
                        ..tunnel
                    };
                    Step::Next(
                        UpdateName::Updating { persisted, name },
                        Ask::Call(
                            Request::UpdateTunnel {
                                tunnel: changed,
                                options: RequestOptions::none(),
                            },
                        ),
                    )
                }
            },
            Step::Done(Err(e)) => Step::Done(Err(e)),
        }
    }

    /// Advances the change of name with the answer to its last question.
    pub fn advance(self, reply: Reply) -> (r: Step<UpdateName, Renamed>)
        ensures
            r@ == update_name_advance(self@, reply@),
    {
        match self {
            UpdateName::Checking { known, name, version } => match reply {
                Reply::Tunnels(Ok(holders)) => {
                    if holders.len() > 0 {
                        Step::Done(
                            Err(
                                AnyError::TunnelCreationFailed {
                                    name,
                                    cause: String::from_str("tunnel name already in use"),
                                },
                            ),
                        )
                    } else {
                        match known {
                            Some(p) => {
                                let step = GetOrCreate::start(
                                    p,
                                    Some(name.clone()),
                                    RequestOptions::none(),
                                    version,
                                );
                                UpdateName::by_resolving(name, step)
                            },
                            None => UpdateName::by_creating(
                                CreateTunnel::start(name, RequestOptions::none(), version),
                            ),
                        }
                    }
                },
                Reply::Tunnels(Err(e)) => Step::Done(
                    Err(wrap_http(e, "failed to list existing tunnels")),
                ),
                _ => Step::Done(Err(unexpected_reply_error())),
            },
            UpdateName::Resolving { search, name } => UpdateName::by_resolving(
                name,
                search.advance(reply),
            ),
            UpdateName::Creating { creation } => UpdateName::by_creating(creation.advance(reply)),
            UpdateName::Updating { persisted, name } => match reply {
                Reply::Tunnel(Ok(tunnel)) => {
                    let renamed = PersistedTunnel {
                        name,
                        id: persisted.id,
                        cluster: persisted.cluster,
                    };
                    let saved = renamed.clone();
                    Step::Next(
                        UpdateName::Saving { tunnel, persisted: renamed },
                        Ask::Call(Request::SavePersisted(Some(saved))),
                    )
                },
                Reply::Tunnel(Err(e)) => Step::Done(Err(wrap_http(e, "failed to rename tunnel"))),
                _ => Step::Done(Err(unexpected_reply_error())),
            },
            UpdateName::Saving { tunnel, persisted } => match reply {
                Reply::Saved(Ok(_)) => Step::Done(Ok((tunnel, persisted))),
                Reply::Saved(Err(e)) => Step::Done(Err(AnyError::WrappedError(e))),
                _ => Step::Done(Err(unexpected_reply_error())),
            },
        }
    }
}

} // verus!
