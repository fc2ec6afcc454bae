//! The operations on the launcher's tunnel that the rest of the program
//! uses: removing it, renaming it, and hosting it.

use vstd::prelude::*;
use vstd::string::*;
use crate::active::{
    kill_steps, ActiveTunnel, ActiveTunnelManager, ActiveTunnelManagerView, ActiveTunnelView,
    KillStep,
};
use crate::ambient::{answer_locally, answers_locally, is_local};
use crate::errors::{wrap_http, wrapped, AnyError, AnyErrorView};
use crate::launcher::{
    launch_advance, launch_start, LaunchPlan, Settings, StartLauncher, StartLauncherView,
};
use crate::protocol::{
    unexpected_reply, unexpected_reply_error, Ask, AskView, Reply, ReplyView, Request,
    RequestView, Step, StepView,
};
use crate::rename::{
    update_name_advance, update_name_start, Renamed, RenamedView, UpdateName, UpdateNameView,
};
use crate::supervisor::{attempt_turn, fresh_supervisor, Endpoint, Supervisor, Turn};
use crate::tokens::{
    AccessTokenProvider, AccessTokenProviderView, LookupAccessTokenProvider,
    LookupAccessTokenProviderView, StaticAccessTokenProvider,
};
use crate::tunnel::{ExistingTunnel, PersistedTunnel, TunnelLocator, TunnelLocatorView};

verus! {

/// Name of the file, under the launcher's directory, that holds the
/// identity of its tunnel.
pub const PERSISTED_FILE_NAME: &'static str = "code_tunnel.json";

/// Where the removal of the launcher's tunnel stands.
#[derive(Clone, Copy, Debug, PartialEq, Eq, Structural)]
pub enum RemoveTunnel {
    /// The identity on disk was asked for.
    Loading,
    /// The service was asked to delete the tunnel.
    Deleting,
    /// Whatever is on disk in the place of the identity is being cleared.
    Saving,
}

impl View for RemoveTunnel {
    type V = RemoveTunnel;

    open spec fn view(&self) -> RemoveTunnel {
        *self
    }
}

/// How a removal begins.
pub open spec fn remove_start() -> StepView<RemoveTunnel, ()> {
    StepView::Next(RemoveTunnel::Loading, AskView::Call(RequestView::LoadPersisted))
}

/// The removal, as a function from its state and an answer to what comes
/// next. The tunnel is deleted if an identity could be read from disk, and
/// in either case whatever is on disk is cleared: a file that could not be
/// read as an identity goes as well.
pub open spec fn remove_advance(pre: RemoveTunnel, reply: ReplyView) -> StepView<RemoveTunnel, ()> {
    match (pre, reply) {
        (RemoveTunnel::Loading, ReplyView::Loaded(None)) => StepView::Next(
            RemoveTunnel::Saving,
            AskView::Call(RequestView::SavePersisted(None)),
        ),
        (RemoveTunnel::Loading, ReplyView::Loaded(Some(persisted))) => StepView::Next(
            RemoveTunnel::Deleting,
            AskView::Call(RequestView::DeleteTunnel { locator: persisted.locator() }),
        ),
        (RemoveTunnel::Deleting, ReplyView::Deleted(Ok(_))) => StepView::Next(
            RemoveTunnel::Saving,
            AskView::Call(RequestView::SavePersisted(None)),
        ),
        (RemoveTunnel::Deleting, ReplyView::Deleted(Err(e))) => StepView::Done(
            Err(wrapped(e.body, "failed to execute `tunnel delete`"@)),
        ),
        (RemoveTunnel::Saving, ReplyView::Saved(Ok(_))) => StepView::Done(Ok(())),
        (RemoveTunnel::Saving, ReplyView::Saved(Err(e))) => StepView::Done(
            Err(AnyErrorView::WrappedError(e)),
        ),
        _ => StepView::Done(Err(unexpected_reply())),
    }
}

/// A removal ends well only when the clearing of the identity on disk was
/// acknowledged, whatever was on disk before. It waits for that
/// acknowledgement exactly when it has asked for the clearing, and it asks
/// only once no tunnel is left to delete: none could be read from disk, or
/// the service has deleted the one that was.
pub proof fn lemma_removed_means_erased(pre: RemoveTunnel, reply: ReplyView)
    ensures
        remove_advance(pre, reply) matches StepView::Done(Ok(_)) ==> pre == RemoveTunnel::Saving
            && reply matches ReplyView::Saved(Ok(_)),
        remove_advance(pre, reply) matches StepView::Next(post, ask) ==> (post
            == RemoveTunnel::Saving <==> ask == AskView::Call(RequestView::SavePersisted(None))),
        remove_advance(pre, reply) matches StepView::Next(post, _) && post == RemoveTunnel::Saving
            ==> (pre == RemoveTunnel::Deleting && reply matches ReplyView::Deleted(Ok(_))) || (pre
            == RemoveTunnel::Loading && reply == ReplyView::Loaded(None)),
        remove_start() matches StepView::Next(first, _) && first != RemoveTunnel::Saving,
{
}

/// Whether a removal that is given `replies` one after the other ends well
/// on the last of them.
pub open spec fn removal_ends_well(state: RemoveTunnel, replies: Seq<ReplyView>) -> bool
    decreases replies.len(),
{
    if replies.len() == 0 {
        false
    } else {
        match remove_advance(state, replies[0]) {
            StepView::Next(post, _) => removal_ends_well(post, replies.drop_first()),
            StepView::Done(result) => replies.len() == 1 && result is Ok,
        }
    }
}

/// Whether a removal that is given `replies` one after the other asks for
/// the identity on disk to be cleared and is told that it was.
pub open spec fn removal_clears_disk(state: RemoveTunnel, replies: Seq<ReplyView>) -> bool
    decreases replies.len(),
{
    if replies.len() < 2 {
        false
    } else {
        match remove_advance(state, replies[0]) {
            StepView::Next(post, ask) => (ask == AskView::Call(RequestView::SavePersisted(None))
                && replies[1] matches ReplyView::Saved(Ok(_))) || removal_clears_disk(
                post,
                replies.drop_first(),
            ),
            StepView::Done(_) => false,
        }
    }
}

/// Whatever answers a removal is given from its beginning, if it ends well
/// it has asked for the identity on disk to be cleared and was told that it
/// was.
pub proof fn lemma_removal_clears_disk(state: RemoveTunnel, replies: Seq<ReplyView>)
    requires
        state != RemoveTunnel::Saving,
        removal_ends_well(state, replies),
    ensures
        removal_clears_disk(state, replies),
    decreases replies.len(),
{
    lemma_removed_means_erased(state, replies[0]);
    match remove_advance(state, replies[0]) {
        StepView::Next(post, ask) => {
            let rest = replies.drop_first();
            assert(removal_ends_well(post, rest));
            if post == RemoveTunnel::Saving {
                lemma_removed_means_erased(post, rest[0]);
            } else {
                lemma_removal_clears_disk(post, rest);
            }
        },
        StepView::Done(_) => {},
    }
}

impl RemoveTunnel {
    /// Advances the removal with the answer to its last question.
    pub fn advance(self, reply: Reply) -> (r: Step<RemoveTunnel, ()>)
        ensures
            r@ == remove_advance(self@, reply@),
    {
        match (self, reply) {
            (RemoveTunnel::Loading, Reply::Loaded(None)) => Step::Next(
                RemoveTunnel::Saving,
                Ask::Call(Request::SavePersisted(None)),
            ),
            (RemoveTunnel::Loading, Reply::Loaded(Some(persisted))) => Step::Next(
                RemoveTunnel::Deleting,
                Ask::Call(Request::DeleteTunnel { locator: persisted.into_locator() }),
            ),
            (RemoveTunnel::Deleting, Reply::Deleted(Ok(_))) => Step::Next(
                RemoveTunnel::Saving,
                Ask::Call(Request::SavePersisted(None)),
            ),
            (RemoveTunnel::Deleting, Reply::Deleted(Err(e))) => Step::Done(
                Err(wrap_http(e, "failed to execute `tunnel delete`")),
            ),
            (RemoveTunnel::Saving, Reply::Saved(Ok(_))) => Step::Done(Ok(())),
            (RemoveTunnel::Saving, Reply::Saved(Err(e))) => Step::Done(
                Err(AnyError::WrappedError(e)),
            ),
            _ => Step::Done(Err(unexpected_reply_error())),
        }
    }
}

/// The renaming of the launcher's tunnel.
pub enum RenameTunnel {
    /// The identity on disk was asked for.
    Loading { name: String, version: u32 },
    /// The name is being changed.
    Renaming(UpdateName),
}

/// The mathematical value of a `RenameTunnel`.
pub enum RenameTunnelView {
    Loading { name: Seq<char>, version: u32 },
    Renaming(UpdateNameView),
}

impl View for RenameTunnel {
    type V = RenameTunnelView;

    closed spec fn view(&self) -> RenameTunnelView {
        match self {
            RenameTunnel::Loading { name, version } => RenameTunnelView::Loading {
                name: name@,
                version: *version,
            },
            RenameTunnel::Renaming(inner) => RenameTunnelView::Renaming(inner@),
        }
    }
}

/// How a renaming begins.
pub open spec fn rename_start(name: Seq<char>, version: u32) -> StepView<RenameTunnelView, ()> {
    StepView::Next(
        RenameTunnelView::Loading { name, version },
        AskView::Call(RequestView::LoadPersisted),
    )
}

/// A step of the change of name, seen as a step of the renaming.
pub open spec fn rename_by_updating(step: StepView<UpdateNameView, RenamedView>) -> StepView<
    RenameTunnelView,
    (),
> {
    match step {
        StepView::Next(inner, ask) => StepView::Next(RenameTunnelView::Renaming(inner), ask),
        StepView::Done(Ok(_)) => StepView::Done(Ok(())),
        StepView::Done(Err(e)) => StepView::Done(Err(e)),
    }
}

/// The renaming, as a function from its state and an answer to what comes
/// next.
pub open spec fn rename_advance(pre: RenameTunnelView, reply: ReplyView) -> StepView<
    RenameTunnelView,
    (),
> {
    match pre {
        RenameTunnelView::Loading { name, version } => match reply {
            ReplyView::Loaded(found) => rename_by_updating(update_name_start(found, name, version)),
            _ => StepView::Done(Err(unexpected_reply())),
        },
        RenameTunnelView::Renaming(inner) => rename_by_updating(update_name_advance(inner, reply)),
    }
}

impl RenameTunnel {
    fn by_updating(step: Step<UpdateName, Renamed>) -> (r: Step<RenameTunnel, ()>)
        ensures
            r@ == rename_by_updating(step@),
    {
        match step {
            Step::Next(inner, ask) => Step::Next(RenameTunnel::Renaming(inner), ask),
            Step::Done(Ok(_)) => Step::Done(Ok(())),
            Step::Done(Err(e)) => Step::Done(Err(e)),
        }
    }

    /// Advances the renaming with the answer to its last question.
    pub fn advance(self, reply: Reply) -> (r: Step<RenameTunnel, ()>)
        ensures
            r@ == rename_advance(self@, reply@),
    {
        match self {
            RenameTunnel::Loading { name, version } => match reply {
                Reply::Loaded(found) => RenameTunnel::by_updating(
                    UpdateName::start(found, name.as_str(), version),
                ),
                _ => Step::Done(Err(unexpected_reply_error())),
            },
            RenameTunnel::Renaming(inner) => RenameTunnel::by_updating(inner.advance(reply)),
        }
    }

    /// Advances the renaming with the answer to its last question, and
    /// answers for it what the library answers itself: what comes back asks
    /// for outside work or is the end.
    pub fn step(self, reply: Reply) -> (r: Step<RenameTunnel, ()>)
        ensures
            settled(rename_advance(self@, reply@), r@, |m: RenameTunnelView, a: ReplyView|
                rename_advance(m, a)),
            r@ matches StepView::Next(_, ask) ==> !is_local(ask),
    {
        match self.advance(reply) {
            Step::Next(next, ask) => match answer_locally(&ask) {
                Some(local) => next.advance(local),
                None => Step::Next(next, ask),
            },
            Step::Done(result) => Step::Done(result),
        }
    }
}

/// `result` is what the step `first` comes to once the library has answered
/// what it answers itself: where `first` asks for the host name or for a
/// choice, `result` is the operation advanced with some such answer; else it
/// is `first`.
pub open spec fn settled<M, T>(
    first: StepView<M, T>,
    result: StepView<M, T>,
    advance: spec_fn(M, ReplyView) -> StepView<M, T>,
) -> bool {
    match first {
        StepView::Next(m, ask) => if is_local(ask) {
            exists|reply: ReplyView| answers_locally(ask, reply) && result == advance(m, reply)
        } else {
            result == first
        },
        StepView::Done(_) => result == first,
    }
}

impl StartLauncher {
    /// Advances the bringing up with the answer to its last question, and
    /// answers for it what the library answers itself: what comes back asks
    /// for outside work or is the end.
    pub fn step(self, reply: Reply) -> (r: Step<StartLauncher, LaunchPlan>)
        ensures
            settled(launch_advance(self@, reply@), r@, |m: StartLauncherView, a: ReplyView|
                launch_advance(m, a)),
            r@ matches StepView::Next(_, ask) ==> !is_local(ask),
    {
        match self.advance(reply) {
            Step::Next(next, ask) => match answer_locally(&ask) {
                Some(local) => next.advance(local),
                None => Step::Next(next, ask),
            },
            Step::Done(result) => Step::Done(result),
        }
    }
}

/// A tunnel that is being hosted, with the loop that keeps it connected and
/// the loop's first turn.
pub struct Hosting {
    pub tunnel: ActiveTunnel,
    pub supervisor: Supervisor,
    pub first_turn: Turn,
}

/// What the start of a hosted tunnel comes to once its loop has published
/// for the first time.
pub enum StartOutcome {
    /// The host is connected: the tunnel is handed to the caller.
    Serving(ActiveTunnel),
    /// The first attempt failed: the tunnel is shut down by `shutdown` and
    /// the failure is handed to the caller.
    Failed { tunnel: ActiveTunnel, error: AnyError, shutdown: Vec<KillStep> },
}

/// Decides what becomes of a tunnel whose loop has published for the first
/// time. A tunnel whose first attempt to connect failed is not handed out:
/// its shutdown is begun and the failure is passed on.
pub fn confirm_start(tunnel: ActiveTunnel, first: Result<Endpoint, AnyError>) -> (r: StartOutcome)
    ensures
        match first {
            Ok(_) => r matches StartOutcome::Serving(served) && served@ == tunnel@,
            Err(e) => r matches StartOutcome::Failed { tunnel: closing, error, shutdown } && {
                &&& error@ == e@
                &&& shutdown@ == kill_steps(tunnel@.manager.close_held)
                &&& closing@ == (ActiveTunnelView {
                    manager: tunnel@.manager.signalled(),
                    ..tunnel@
                })
            },
        },
{
    match first {
        Ok(_) => StartOutcome::Serving(tunnel),
        Err(error) => {
            let mut closing = tunnel;
            let shutdown = closing.close();
            StartOutcome::Failed { tunnel: closing, error, shutdown }
        },
    }
}

/// The entry to the operations on the launcher's tunnel.
#[derive(Clone, Copy)]
pub struct DevTunnels {
    settings: Settings,
}

impl DevTunnels {
    /// The operations under `settings`.
    pub fn new(settings: Settings) -> (r: DevTunnels)
        ensures
            r.settings() == settings,
    {
        DevTunnels { settings }
    }

    /// What the operations were made with.
    pub closed spec fn settings(&self) -> Settings {
        self.settings
    }

    /// Begins to remove the launcher's tunnel from the service and to clear
    /// what is on disk in the place of its identity.
    pub fn remove_tunnel(&self) -> (r: Step<RemoveTunnel, ()>)
        ensures
            r@ == remove_start(),
    {
        Step::Next(RemoveTunnel::Loading, Ask::Call(Request::LoadPersisted))
    }

    /// Begins to rename the launcher's tunnel to `name`.
    pub fn rename_tunnel(&self, name: &str) -> (r: Step<RenameTunnel, ()>)
        ensures
            r@ == rename_start(name@, self.settings().protocol_version),
    {
        Step::Next(
            RenameTunnel::Loading {
                name: String::from_str(name),
                version: self.settings.protocol_version,
            },
            Ask::Call(Request::LoadPersisted),
        )
    }

    /// Begins to bring up the launcher's tunnel, under `preferred_name` if
    /// one is given and free.
    pub fn start_new_launcher_tunnel(
        &self,
        preferred_name: Option<&str>,
        use_random_name: bool,
    ) -> (r: Step<StartLauncher, LaunchPlan>)
        ensures
            r@ == launch_start(
                match preferred_name {
                    Some(n) => Some(n@),
                    None => None,
                },
                use_random_name,
                self.settings(),
            ),
    {
        let preferred = match preferred_name {
            Some(n) => Some(String::from_str(n)),
            None => None,
        };
        StartLauncher::start(preferred, use_random_name, self.settings)
    }

    /// Hosts the tunnel that was brought up: its loop gets the token that
    /// came with the tunnel for its first attempt and looks up every later
    /// one.
    pub fn host_launcher_tunnel(&self, plan: LaunchPlan) -> (r: Hosting)
        ensures
            r.tunnel@ == (ActiveTunnelView {
                name: plan@.name,
                id: plan@.id,
                manager: ActiveTunnelManagerView::fresh(),
            }),
            (r.supervisor@, r.first_turn@) == attempt_turn(
                fresh_supervisor(
                    AccessTokenProviderView::Lookup(
                        LookupAccessTokenProviderView {
                            locator: plan@.locator,
                            initial_token: Some(plan@.host_token),
                        },
                    ),
                ),
            ),
    {
        let provider = AccessTokenProvider::Lookup(
            LookupAccessTokenProvider::new(plan.locator, Some(plan.host_token)),
        );
        DevTunnels::start_tunnel(plan.name, plan.id, provider)
    }

    /// Hosts a tunnel that exists, with the host token that the caller
    /// holds: the token is used at every attempt.
    pub fn start_existing_tunnel(&self, tunnel: ExistingTunnel) -> (r: (Hosting, TunnelLocator))
        ensures
            r.1@ == (TunnelLocatorView { cluster: tunnel.cluster@, id: tunnel.tunnel_id@ }),
            r.0.tunnel@ == (ActiveTunnelView {
                name: tunnel.tunnel_name@,
                id: tunnel.tunnel_id@,
                manager: ActiveTunnelManagerView::fresh(),
            }),
            (r.0.supervisor@, r.0.first_turn@) == attempt_turn(
                fresh_supervisor(AccessTokenProviderView::Static(tunnel.host_token@)),
            ),
    {
        let details = PersistedTunnel {
            name: tunnel.tunnel_name,
            id: tunnel.tunnel_id,
            cluster: tunnel.cluster,
        };
        let locator = details.locator();
        let provider = AccessTokenProvider::Static(
            StaticAccessTokenProvider::new(tunnel.host_token),
        );
        (DevTunnels::start_tunnel(details.name, details.id, provider), locator)
    }

    fn start_tunnel(name: String, id: String, access_token: AccessTokenProvider) -> (r: Hosting)
        ensures
            r.tunnel@ == (ActiveTunnelView {
                name: name@,
                id: id@,
                manager: ActiveTunnelManagerView::fresh(),
            }),
            (r.supervisor@, r.first_turn@) == attempt_turn(fresh_supervisor(access_token@)),
    {
        let (manager, supervisor, first_turn) = ActiveTunnelManager::new(access_token);
        Hosting { tunnel: ActiveTunnel::new(name, id, manager), supervisor, first_turn }
    }
}

} // verus!
