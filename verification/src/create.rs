//! Creating a tunnel: one attempt, one more after an idle tunnel was given
//! up where the quota was reached, and the record of the new identity.

use vstd::prelude::*;
use vstd::string::*;
use crate::arbitration::list_own_tunnels;
use crate::errors::{
    wrap_http, wrapped, AnyError, AnyErrorView, HttpErrorView, TOO_MANY_REQUESTS,
};
use crate::protocol::{
    unexpected_reply, unexpected_reply_error, Ask, AskView, Reply, ReplyView, Request,
    RequestOptions, RequestOptionsView, RequestView, Step, StepView,
};
use crate::tags::{draft_tags, new_tunnel_tags};
use crate::tunnel::{
    draft_with, PersistedTunnel, PersistedTunnelView, RemoteTunnel, RemoteTunnelView,
    TunnelLocator, TunnelLocatorView, APPLICATION_TAG,
};

verus! {

/// Where the creation of a tunnel stands.
pub enum CreatePhase {
    /// The service was asked to create the tunnel.
    Creating,
    /// The quota was reached and the tunnels of this application were asked
    /// for.
    Listing,
    /// One of the idle tunnels is being chosen; `candidates` holds where
    /// each of them lives.
    Picking { candidates: Vec<Option<TunnelLocator>> },
    /// The service was asked to delete the chosen tunnel.
    Deleting,
    /// The tunnel exists and its identity is being written to disk.
    Saving { persisted: PersistedTunnel, tunnel: RemoteTunnel },
}

/// The mathematical value of a `CreatePhase`.
pub enum CreatePhaseView {
    Creating,
    Listing,
    Picking { candidates: Seq<Option<TunnelLocatorView>> },
    Deleting,
    Saving { persisted: PersistedTunnelView, tunnel: RemoteTunnelView },
}

impl View for CreatePhase {
    type V = CreatePhaseView;

    open spec fn view(&self) -> CreatePhaseView {
        match self {
            CreatePhase::Creating => CreatePhaseView::Creating,
            CreatePhase::Listing => CreatePhaseView::Listing,
            CreatePhase::Picking { candidates } => CreatePhaseView::Picking {
                candidates: candidates.deep_view(),
            },
            CreatePhase::Deleting => CreatePhaseView::Deleting,
            CreatePhase::Saving { persisted, tunnel } => CreatePhaseView::Saving {
                persisted: persisted@,
                tunnel: tunnel@,
            },
        }
    }
}

/// The creation of a tunnel named `name`.
pub struct CreateTunnel {
    phase: CreatePhase,
    name: String,
    options: RequestOptions,
    version: u32,
    recycled: bool,
}

/// The mathematical value of a `CreateTunnel`.
pub struct CreateTunnelView {
    pub phase: CreatePhaseView,
    pub name: Seq<char>,
    pub options: RequestOptionsView,
    pub version: u32,
    /// An idle tunnel was already given up for this creation.
    pub recycled: bool,
}

impl View for CreateTunnel {
    type V = CreateTunnelView;

    closed spec fn view(&self) -> CreateTunnelView {
        CreateTunnelView {
            phase: self.phase@,
            name: self.name@,
            options: self.options@,
            version: self.version,
            recycled: self.recycled,
        }
    }
}

/// What a finished creation hands back: the identity that was written to
/// disk and the service's record of the tunnel.
pub type Created = (PersistedTunnel, RemoteTunnel);

/// The mathematical value of a `Created`.
pub type CreatedView = (PersistedTunnelView, RemoteTunnelView);

/// The failure of a creation, with the name asked for and the reason.
pub open spec fn creation_failed(name: Seq<char>, cause: Seq<char>) -> AnyErrorView {
    AnyErrorView::TunnelCreationFailed { name, cause }
}

/// What the user is told when the quota is reached and nothing can be given
/// up.
pub open spec fn quota_message() -> Seq<char> {
    "You've exceeded the 10 machine limit for the port fowarding service. Please remove other machines before trying to add this machine."@
}

/// What is reported of a record that does not say where its tunnel lives.
pub open spec fn no_identity_message() -> Seq<char> {
    "the service returned a tunnel without a cluster or an identifier"@
}

/// The request that asks for the tunnel to be created.
pub open spec fn create_request(pre: CreateTunnelView) -> AskView {
    AskView::Call(
        RequestView::CreateTunnel {
            tunnel: draft_with(draft_tags(pre.name, pre.version)),
            options: pre.options,
        },
    )
}

/// Where each idle tunnel of `list` lives, in the order of the list.
pub open spec fn idle_locators(list: Seq<RemoteTunnelView>) -> Seq<Option<TunnelLocatorView>> {
    list.filter(|t: RemoteTunnelView| t.is_idle()).map_values(|t: RemoteTunnelView| t.locator())
}

/// How a creation begins.
pub open spec fn create_start(name: Seq<char>, options: RequestOptionsView, version: u32) -> StepView<
    CreateTunnelView,
    CreatedView,
> {
    let state = CreateTunnelView {
        phase: CreatePhaseView::Creating,
        name,
        options,
        version,
        recycled: false,
    };
    StepView::Next(state, create_request(state))
}

/// What a creation does once the service has answered the request to
/// create.
pub open spec fn create_answered(
    pre: CreateTunnelView,
    answer: Result<RemoteTunnelView, HttpErrorView>,
) -> StepView<CreateTunnelView, CreatedView> {
    match answer {
        Ok(tunnel) => match tunnel.locator() {
            Some(l) => {
                let persisted = PersistedTunnelView { name: pre.name, id: l.id, cluster: l.cluster };
                StepView::Next(
                    CreateTunnelView { phase: CreatePhaseView::Saving { persisted, tunnel }, ..pre },
                    AskView::Call(RequestView::SavePersisted(Some(persisted))),
                )
            },
            None => StepView::Done(Err(creation_failed(pre.name, no_identity_message()))),
        },
        Err(e) => if e.has_status(TOO_MANY_REQUESTS) {
            if pre.recycled {
                StepView::Done(Err(creation_failed(pre.name, quota_message())))
            } else {
                StepView::Next(
                    CreateTunnelView { phase: CreatePhaseView::Listing, ..pre },
                    list_own_tunnels(),
                )
            }
        } else {
            StepView::Done(Err(creation_failed(pre.name, e.body)))
        },
    }
}

/// What a creation does with the tunnels of this application: it has one of
/// the idle ones chosen, and fails where there is none.
pub open spec fn create_listed(pre: CreateTunnelView, list: Seq<RemoteTunnelView>) -> StepView<
    CreateTunnelView,
    CreatedView,
> {
    let candidates = idle_locators(list);
    if candidates.len() == 0 {
        StepView::Done(Err(creation_failed(pre.name, quota_message())))
    } else {
        StepView::Next(
            CreateTunnelView { phase: CreatePhaseView::Picking { candidates }, ..pre },
            AskView::Pick { count: candidates.len() },
        )
    }
}

/// What a creation does with the choice: it has the chosen tunnel deleted.
pub open spec fn create_picked(
    pre: CreateTunnelView,
    candidates: Seq<Option<TunnelLocatorView>>,
    k: nat,
) -> StepView<CreateTunnelView, CreatedView> {
    if k < candidates.len() {
        match candidates[k as int] {
            Some(locator) => StepView::Next(
                CreateTunnelView { phase: CreatePhaseView::Deleting, ..pre },
                AskView::Call(RequestView::DeleteTunnel { locator }),
            ),
            None => StepView::Done(Err(AnyErrorView::DevTunnelError(no_identity_message()))),
        }
    } else {
        StepView::Done(Err(unexpected_reply()))
    }
}

/// The creation, as a function from its state and an answer to what comes
/// next.
pub open spec fn create_advance(pre: CreateTunnelView, reply: ReplyView) -> StepView<
    CreateTunnelView,
    CreatedView,
> {
    match (pre.phase, reply) {
        (CreatePhaseView::Creating, ReplyView::Tunnel(answer)) => create_answered(pre, answer),
        (CreatePhaseView::Listing, ReplyView::Tunnels(Ok(list))) => create_listed(pre, list),
        (CreatePhaseView::Listing, ReplyView::Tunnels(Err(e))) => StepView::Done(
            Err(wrapped(e.body, "error listing current tunnels"@)),
        ),
        (CreatePhaseView::Picking { candidates }, ReplyView::Picked(k)) => create_picked(
            pre,
            candidates,
            k,
        ),
        (CreatePhaseView::Deleting, ReplyView::Deleted(Ok(_))) => {
            let state = CreateTunnelView {
                phase: CreatePhaseView::Creating,
                recycled: true,
                ..pre
            };
            StepView::Next(state, create_request(state))
        },
        (CreatePhaseView::Deleting, ReplyView::Deleted(Err(e))) => StepView::Done(
            Err(wrapped(e.body, "failed to execute `tunnel delete`"@)),
        ),
        (CreatePhaseView::Saving { persisted, tunnel }, ReplyView::Saved(Ok(_))) => StepView::Done(
            Ok((persisted, tunnel)),
        ),
        (CreatePhaseView::Saving { .. }, ReplyView::Saved(Err(e))) => StepView::Done(
            Err(AnyErrorView::WrappedError(e)),
        ),
        _ => StepView::Done(Err(unexpected_reply())),
    }
}

impl CreateTunnelView {
    /// What holds of a creation at every step: while the identity is being
    /// written to disk, it is the identity of the tunnel that was created,
    /// under the name that was asked for; and room is made only by a
    /// creation that has not made room before.
    pub open spec fn consistent(self) -> bool {
        &&& self.phase matches CreatePhaseView::Saving { persisted, tunnel } ==> persisted.name
            == self.name && tunnel.locator() == Some(persisted.locator())
        &&& self.phase is Listing || self.phase is Picking || self.phase is Deleting
            ==> !self.recycled
    }

    /// How many tunnels this creation may still have deleted to make room:
    /// one until it has asked for a deletion, none afterwards.
    pub open spec fn recycles_left(self) -> nat {
        if self.recycled || self.phase is Deleting {
            0
        } else {
            1
        }
    }
}

/// A creation begins consistent, with one deletion allowed.
pub proof fn lemma_create_starts_consistent(
    name: Seq<char>,
    options: RequestOptionsView,
    version: u32,
)
    ensures
        create_start(name, options, version) matches StepView::Next(state, ask) && state.consistent()
            && state.recycles_left() == 1 && state.name == name && ask == create_request(state),
{
}

/// A creation ends well only when the writing of the identity to disk was
/// acknowledged, and the identity written is the name that was asked for
/// with the cluster and the identifier of the tunnel that is handed back.
/// The writing is asked for exactly when the creation begins to wait for
/// it.
pub proof fn lemma_created_is_persisted(pre: CreateTunnelView, reply: ReplyView)
    requires
        pre.consistent(),
    ensures
        match create_advance(pre, reply) {
            StepView::Next(post, ask) => {
                &&& post.consistent()
                &&& post.name == pre.name
                &&& post.phase matches CreatePhaseView::Saving { persisted, .. } ==> ask
                    == AskView::Call(RequestView::SavePersisted(Some(persisted)))
                &&& ask matches AskView::Call(RequestView::SavePersisted(_)) ==> post.phase is Saving
            },
            StepView::Done(Ok((persisted, tunnel))) => {
                &&& pre.phase == (CreatePhaseView::Saving { persisted, tunnel })
                &&& reply matches ReplyView::Saved(Ok(_))
                &&& persisted.name == pre.name
                &&& tunnel.cluster_id == Some(persisted.cluster)
                &&& tunnel.tunnel_id == Some(persisted.id)
            },
            StepView::Done(Err(_)) => true,
        },
{
}

/// A creation has at most one tunnel deleted: a step that asks for a
/// deletion uses up the one that is allowed, and no step allows more.
pub proof fn lemma_one_recycle(pre: CreateTunnelView, reply: ReplyView)
    requires
        pre.consistent(),
    ensures
        create_advance(pre, reply) matches StepView::Next(post, ask) ==> post.recycles_left() + (
        if ask matches AskView::Call(RequestView::DeleteTunnel { .. }) {
            1nat
        } else {
            0nat
        }) <= pre.recycles_left(),
{
}

/// The number of deletions that a creation asks for when it is given
/// `replies` one after the other, as far as it goes.
pub open spec fn deletions_asked(state: CreateTunnelView, replies: Seq<ReplyView>) -> nat
    decreases replies.len(),
{
    if replies.len() == 0 {
        0
    } else {
        match create_advance(state, replies[0]) {
            StepView::Next(post, ask) => (if ask matches AskView::Call(
                RequestView::DeleteTunnel { .. },
            ) {
                1nat
            } else {
                0nat
            }) + deletions_asked(post, replies.drop_first()),
            StepView::Done(_) => 0,
        }
    }
}

/// Whatever answers a creation is given, it asks for no more deletions than
/// it has left: over its whole life, at most one.
pub proof fn lemma_run_recycles_at_most_once(state: CreateTunnelView, replies: Seq<ReplyView>)
    requires
        state.consistent(),
    ensures
        deletions_asked(state, replies) <= state.recycles_left(),
        deletions_asked(state, replies) <= 1,
    decreases replies.len(),
{
    if replies.len() > 0 {
        lemma_one_recycle(state, replies[0]);
        lemma_created_is_persisted(state, replies[0]);
        match create_advance(state, replies[0]) {
            StepView::Next(post, _) => {
                lemma_run_recycles_at_most_once(post, replies.drop_first());
            },
            StepView::Done(_) => {},
        }
    }
}

/// The tunnel that a creation has deleted is one of the idle tunnels of the
/// list it was given, whatever was chosen.
pub proof fn lemma_recycled_was_idle(pre: CreateTunnelView, list: Seq<RemoteTunnelView>, k: nat)
    requires
        pre.phase is Listing,
    ensures
        create_advance(pre, ReplyView::Tunnels(Ok(list))) matches StepView::Next(picking, _) ==> (
        create_advance(picking, ReplyView::Picked(k)) matches StepView::Next(
            _,
            AskView::Call(RequestView::DeleteTunnel { locator }),
        ) ==> exists|i: int|
            0 <= i < list.len() && (#[trigger] list[i]).is_idle() && list[i].locator() == Some(
                locator,
            )),
{
    let idle = |t: RemoteTunnelView| t.is_idle();
    let kept = list.filter(idle);
    if kept.len() > 0 && k < kept.len() {
        list.lemma_filter_pred(idle, k as int);
        list.lemma_filter_contains_rev(idle, kept[k as int]);
    }
}

/// Collects where each idle tunnel of `list` lives.
pub fn collect_idle(list: &Vec<RemoteTunnel>) -> (r: Vec<Option<TunnelLocator>>)
    ensures
        r.deep_view() == idle_locators(list.deep_view()),
{
    let ghost all = list.deep_view();
    let ghost idle = |t: RemoteTunnelView| t.is_idle();
    let ghost place = |t: RemoteTunnelView| t.locator();
    let mut out: Vec<Option<TunnelLocator>> = Vec::new();
    let mut i: usize = 0;
    proof {
        reveal(Seq::filter);
    }
    while i < list.len()
        invariant
            all == list.deep_view(),
            idle == |t: RemoteTunnelView| t.is_idle(),
            place == |t: RemoteTunnelView| t.locator(),
            i <= all.len(),
            out.deep_view() == all.take(i as int).filter(idle).map_values(place),
        decreases all.len() - i,
    {
        proof {
            assert(all.take(i + 1) =~= all.take(i as int).push(all[i as int]));
            all.take(i as int).lemma_filter_push(all[i as int], idle);
        }
        if list[i].connections() == 0 {
            let ghost before = out.deep_view();
            out.push(list[i].locator());
            assert(all.take(i + 1).filter(idle).map_values(place) =~= before.push(
                all[i as int].locator(),
            ));
        }
        i += 1;
    }
    assert(all.take(all.len() as int) =~= all);
    out
}

impl CreateTunnel {
    /// Begins the creation of a tunnel named `name`. `options` go with the
    /// request to create; `version` is the protocol version that the
    /// tunnel's host will speak.
    pub fn start(name: String, options: RequestOptions, version: u32) -> (r: Step<
        CreateTunnel,
        Created,
    >)
        ensures
            r@ == create_start(name@, options@, version),
    {
        let state = CreateTunnel {
            phase: CreatePhase::Creating,
            name,
            options,
            version,
            recycled: false,
        };
        let ask = state.request();
        Step::Next(state, ask)
    }

    fn request(&self) -> (r: Ask)
        ensures
            r@ == create_request(self@),
    {
        Ask::Call(
            Request::CreateTunnel {
                tunnel: RemoteTunnel::draft(new_tunnel_tags(self.name.as_str(), self.version)),
                options: self.options.clone(),
            },
        )
    }

    fn failed(name: String, cause: &str) -> (r: Step<CreateTunnel, Created>)
        ensures
            r@ == StepView::<CreateTunnelView, CreatedView>::Done(
                Err(creation_failed(name@, cause@)),
            ),
    {
        Step::Done(Err(AnyError::TunnelCreationFailed { name, cause: String::from_str(cause) }))
    }

    /// Advances the creation with the answer to its last question.
    pub fn advance(self, reply: Reply) -> (r: Step<CreateTunnel, Created>)
        ensures
            r@ == create_advance(self@, reply@),
    {
        let CreateTunnel { phase, name, options, version, recycled } = self;
        match (phase, reply) {
            (CreatePhase::Creating, Reply::Tunnel(Ok(tunnel))) => {
                match tunnel.locator() {
                    Some(l) => {
                        let persisted = PersistedTunnel {
                            name: name.clone(),
                            id: l.id,
                            cluster: l.cluster,
                        };
                        let saved = persisted.clone();
                        Step::Next(
                            CreateTunnel {
                                phase: CreatePhase::Saving { persisted, tunnel },
                                name,
                                options,
                                version,
                                recycled,
                            },
                            Ask::Call(Request::SavePersisted(Some(saved))),
                        )
                    },
                    None => CreateTunnel::failed(
                        name,
                        "the service returned a tunnel without a cluster or an identifier",
                    ),
                }
            },
            (CreatePhase::Creating, Reply::Tunnel(Err(e))) => {
                if e.has_status(TOO_MANY_REQUESTS) {
                    if recycled {
                        CreateTunnel::failed(
                            name,
                            "You've exceeded the 10 machine limit for the port fowarding service. Please remove other machines before trying to add this machine.",
                        )
                    } else {
                        let mut tags: Vec<String> = Vec::new();
                        tags.push(String::from_str(APPLICATION_TAG));
                        assert(tags.deep_view() =~= seq![APPLICATION_TAG@]);
                        Step::Next(
                            CreateTunnel {
                                phase: CreatePhase::Listing,
                                name,
                                options,
                                version,
                                recycled,
                            },
                            Ask::Call(Request::ListTunnels { tags }),
                        )
                    }
                } else {
                    Step::Done(Err(AnyError::TunnelCreationFailed { name, cause: e.body }))
                }
            },
            (CreatePhase::Listing, Reply::Tunnels(Ok(list))) => {
                let candidates = collect_idle(&list);
                if candidates.len() == 0 {
                    CreateTunnel::failed(
                        name,
                        "You've exceeded the 10 machine limit for the port fowarding service. Please remove other machines before trying to add this machine.",
                    )
                } else {
                    let count = candidates.len();
                    Step::Next(
                        CreateTunnel {
                            phase: CreatePhase::Picking { candidates },
                            name,
                            options,
                            version,
                            recycled,
                        },
                        Ask::Pick { count },
                    )
                }
            },
            (CreatePhase::Listing, Reply::Tunnels(Err(e))) => Step::Done(
                Err(wrap_http(e, "error listing current tunnels")),
            ),
            (CreatePhase::Picking { candidates }, Reply::Picked(k)) => {
                if k < candidates.len() {
                    match &candidates[k] {
                        Some(locator) => Step::Next(
                            CreateTunnel {
                                phase: CreatePhase::Deleting,
                                name,
                                options,
                                version,
                                recycled,
                            },
                            Ask::Call(Request::DeleteTunnel { locator: locator.clone() }),
                        ),
                        None => Step::Done(
                            Err(
                                AnyError::DevTunnelError(
                                    String::from_str(
                                        "the service returned a tunnel without a cluster or an identifier",
                                    ),
                                ),
                            ),
                        ),
                    }
                } else {
                    Step::Done(Err(unexpected_reply_error()))
                }
            },
            (CreatePhase::Deleting, Reply::Deleted(Ok(_))) => {
                let state = CreateTunnel {
                    phase: CreatePhase::Creating,
                    name,
                    options,
                    version,
                    recycled: true,
                };
                let ask = state.request();
                Step::Next(state, ask)
            },
            (CreatePhase::Deleting, Reply::Deleted(Err(e))) => Step::Done(
                Err(wrap_http(e, "failed to execute `tunnel delete`")),
            ),
            (CreatePhase::Saving { persisted, tunnel }, Reply::Saved(Ok(_))) => Step::Done(
                Ok((persisted, tunnel)),
            ),
            (CreatePhase::Saving { .. }, Reply::Saved(Err(e))) => Step::Done(
                Err(AnyError::WrappedError(e)),
            ),
            _ => Step::Done(Err(unexpected_reply_error())),
        }
    }
}

} // verus!
