//! Bringing up the launcher's tunnel: the tunnel is found, renamed or
//! created, its version tag is brought up to date, and what earlier hosts
//! left behind is cleared away. What comes out says how to host it.

use vstd::prelude::*;
use vstd::string::*;
use crate::arbitration::{name_search_advance, name_search_start, NameSearch, NameSearchView};
use crate::create::{
    create_advance, create_start, no_identity_message, CreateTunnel, CreateTunnelView, Created,
    CreatedView,
};
use crate::errors::{wrap_http, wrapped, AnyError, AnyErrorView, HttpError, HttpErrorView};
use crate::protocol::{
    host_options, unexpected_reply, unexpected_reply_error, Ask, AskView, Reply, ReplyView,
    Request, RequestOptions, RequestView, Step, StepView,
};
use crate::rename::{
    update_name_advance, update_name_start, Renamed, RenamedView, UpdateName, UpdateNameView,
};
use crate::resolve::{
    get_or_create_advance, get_or_create_start, GetOrCreate, GetOrCreateView, Resolved,
    ResolvedView,
};
use crate::tags::{protocol_version_tag, update_version_tag, version_tag, with_version_tag};
use crate::text::{lowercase, to_ascii_lowercase};
use crate::tunnel::{
    contains_string, draft_with, get_host_token_from_tunnel, PersistedTunnel, PersistedTunnelView,
    RemoteTunnel, RemoteTunnelView, TunnelLocator, TunnelLocatorView,
};

verus! {

/// What the program fixes once, at its start.
#[derive(Clone, Copy, Debug, PartialEq, Eq)]
pub struct Settings {
    /// Version of the protocol that the tunnel's host speaks.
    pub protocol_version: u32,
    /// Port that carries the control connection; its forwarding is never
    /// deleted.
    pub control_port: u16,
    /// A user is there to be asked for a name.
    pub interactive: bool,
}

/// How to host a tunnel: where it lives, what it is called, and the token
/// for the first connection.
#[derive(Debug, PartialEq, Eq)]
pub struct LaunchPlan {
    pub locator: TunnelLocator,
    pub name: String,
    pub id: String,
    pub host_token: String,
}

/// The mathematical value of a `LaunchPlan`.
pub struct LaunchPlanView {
    pub locator: TunnelLocatorView,
    pub name: Seq<char>,
    pub id: Seq<char>,
    pub host_token: Seq<char>,
}

impl View for LaunchPlan {
    type V = LaunchPlanView;

    open spec fn view(&self) -> LaunchPlanView {
        LaunchPlanView {
            locator: self.locator@,
            name: self.name@,
            id: self.id@,
            host_token: self.host_token@,
        }
    }
}

/// The clearing away of what earlier hosts left on a tunnel.
pub struct Cleaning {
    plan: LaunchPlan,
    ports: Vec<u16>,
    endpoints: Vec<String>,
    ports_done: usize,
    endpoints_done: usize,
}

/// The mathematical value of a `Cleaning`: the ports and the endpoints that
/// are to be deleted, and how many of each are gone.
pub struct CleaningView {
    pub plan: LaunchPlanView,
    pub ports: Seq<u16>,
    pub endpoints: Seq<Seq<char>>,
    pub ports_done: nat,
    pub endpoints_done: nat,
}

impl View for Cleaning {
    type V = CleaningView;

    closed spec fn view(&self) -> CleaningView {
        CleaningView {
            plan: self.plan@,
            ports: self.ports@,
            endpoints: self.endpoints.deep_view(),
            ports_done: self.ports_done as nat,
            endpoints_done: self.endpoints_done as nat,
        }
    }
}

/// Where the bringing up of the tunnel stands.
pub enum LaunchPhase {
    /// The identity on disk was asked for.
    Loading { preferred: Option<String>, use_random: bool },
    /// The tunnel is being renamed to the preferred name.
    Renaming(UpdateName),
    /// The tunnel of the identity on disk is being looked for.
    Resolving(GetOrCreate),
    /// A name for a first tunnel is being chosen.
    Naming(NameSearch),
    /// A first tunnel is being created.
    Creating(CreateTunnel),
    /// The service was asked to bring the version tag up to date.
    Tagging { persisted: PersistedTunnel },
    /// Ports and endpoints of earlier hosts are being deleted.
    Cleaning(Cleaning),
}

/// The mathematical value of a `LaunchPhase`.
pub enum LaunchPhaseView {
    Loading { preferred: Option<Seq<char>>, use_random: bool },
    Renaming(UpdateNameView),
    Resolving(GetOrCreateView),
    Naming(NameSearchView),
    Creating(CreateTunnelView),
    Tagging { persisted: PersistedTunnelView },
    Cleaning(CleaningView),
}

impl View for LaunchPhase {
    type V = LaunchPhaseView;

    open spec fn view(&self) -> LaunchPhaseView {
        match self {
            LaunchPhase::Loading { preferred, use_random } => LaunchPhaseView::Loading {
                preferred: preferred.deep_view(),
                use_random: *use_random,
            },
            LaunchPhase::Renaming(inner) => LaunchPhaseView::Renaming(inner@),
            LaunchPhase::Resolving(inner) => LaunchPhaseView::Resolving(inner@),
            LaunchPhase::Naming(inner) => LaunchPhaseView::Naming(inner@),
            LaunchPhase::Creating(inner) => LaunchPhaseView::Creating(inner@),
            LaunchPhase::Tagging { persisted } => LaunchPhaseView::Tagging {
                persisted: persisted@,
            },
            LaunchPhase::Cleaning(c) => LaunchPhaseView::Cleaning(c@),
        }
    }
}

/// The bringing up of the launcher's tunnel.
pub struct StartLauncher {
    settings: Settings,
    phase: LaunchPhase,
}

/// The mathematical value of a `StartLauncher`.
pub struct StartLauncherView {
    pub settings: Settings,
    pub phase: LaunchPhaseView,
}

impl View for StartLauncher {
    type V = StartLauncherView;

    closed spec fn view(&self) -> StartLauncherView {
        StartLauncherView { settings: self.settings, phase: self.phase@ }
    }
}

/// A step of the bringing up.
pub type LaunchStep = StepView<StartLauncherView, LaunchPlanView>;

/// What is reported of a record that holds no token for the host.
pub open spec fn no_host_token_message() -> Seq<char> {
    "the service returned a tunnel without a host token"@
}

/// The test for a port that is to be deleted: it is not the control port.
pub open spec fn is_stale_port(control_port: u16) -> spec_fn(u16) -> bool {
    |p: u16| p != control_port
}

/// The ports of a tunnel that are to be deleted: all but the control port.
pub open spec fn stale_ports(ports: Seq<u16>, control_port: u16) -> Seq<u16> {
    ports.filter(is_stale_port(control_port))
}

/// How the bringing up begins.
pub open spec fn launch_start(
    preferred: Option<Seq<char>>,
    use_random: bool,
    settings: Settings,
) -> LaunchStep {
    StepView::Next(
        StartLauncherView { settings, phase: LaunchPhaseView::Loading { preferred, use_random } },
        AskView::Call(RequestView::LoadPersisted),
    )
}

/// What the clearing away asks next, or the plan when nothing is left.
pub open spec fn clean_next(settings: Settings, c: CleaningView) -> LaunchStep {
    let state = StartLauncherView { settings, phase: LaunchPhaseView::Cleaning(c) };
    if c.ports_done < c.ports.len() {
        StepView::Next(
            state,
            AskView::Call(
                RequestView::DeleteTunnelPort {
                    locator: c.plan.locator,
                    port: c.ports[c.ports_done as int],
                },
            ),
        )
    } else if c.endpoints_done < c.endpoints.len() {
        StepView::Next(
            state,
            AskView::Call(
                RequestView::DeleteTunnelEndpoints {
                    locator: c.plan.locator,
                    host_id: c.endpoints[c.endpoints_done as int],
                },
            ),
        )
    } else {
        StepView::Done(Ok(c.plan))
    }
}

/// What the clearing away does with the answer to a deletion.
pub open spec fn clean_answered(
    settings: Settings,
    c: CleaningView,
    answer: Result<(), HttpErrorView>,
) -> LaunchStep {
    let on_ports = c.ports_done < c.ports.len();
    match answer {
        Ok(_) => if on_ports {
            clean_next(settings, CleaningView { ports_done: c.ports_done + 1, ..c })
        } else if c.endpoints_done < c.endpoints.len() {
            clean_next(settings, CleaningView { endpoints_done: c.endpoints_done + 1, ..c })
        } else {
            clean_next(settings, c)
        },
        Err(e) => StepView::Done(
            Err(
                wrapped(
                    e.body,
                    if on_ports {
                        "failed to delete port"@
                    } else {
                        "failed to prune tunnel endpoint"@
                    },
                ),
            ),
        ),
    }
}

/// The start of the clearing away on a tunnel that is ready to be hosted.
pub open spec fn launch_cleanup(
    settings: Settings,
    tunnel: RemoteTunnelView,
    persisted: PersistedTunnelView,
) -> LaunchStep {
    match tunnel.locator() {
        None => StepView::Done(Err(AnyErrorView::DevTunnelError(no_identity_message()))),
        Some(locator) => match tunnel.host_token() {
            None => StepView::Done(Err(AnyErrorView::DevTunnelError(no_host_token_message()))),
            Some(host_token) => clean_next(
                settings,
                CleaningView {
                    plan: LaunchPlanView {
                        locator,
                        name: persisted.name,
                        id: persisted.id,
                        host_token,
                    },
                    ports: stale_ports(tunnel.ports, settings.control_port),
                    endpoints: tunnel.endpoints,
                    ports_done: 0,
                    endpoints_done: 0,
                },
            ),
        },
    }
}

/// The record that is pushed to bring the version tag of `tunnel` up to
/// date: its place, its tags with the current version tag, and nothing
/// else.
pub open spec fn version_update(tunnel: RemoteTunnelView, version: u32) -> RemoteTunnelView {
    RemoteTunnelView {
        cluster_id: tunnel.cluster_id,
        tunnel_id: tunnel.tunnel_id,
        ..draft_with(with_version_tag(tunnel.tags, version))
    }
}

/// What is done once the tunnel is at hand. A tunnel that was not created
/// just now and lacks the current version tag has its tags brought up to
/// date first.
pub open spec fn launch_resolved(
    settings: Settings,
    tunnel: RemoteTunnelView,
    persisted: PersistedTunnelView,
    fresh: bool,
) -> LaunchStep {
    if !fresh && !tunnel.tags.contains(version_tag(settings.protocol_version)) {
        StepView::Next(
            StartLauncherView { settings, phase: LaunchPhaseView::Tagging { persisted } },
            AskView::Call(
                RequestView::UpdateTunnel {
                    tunnel: version_update(tunnel, settings.protocol_version),
                    options: host_options(),
                },
            ),
        )
    } else {
        launch_cleanup(settings, tunnel, persisted)
    }
}

/// A step of the search for the tunnel, seen as a step of the bringing up.
pub open spec fn launch_by_resolving(
    settings: Settings,
    step: StepView<GetOrCreateView, ResolvedView>,
) -> LaunchStep {
    match step {
        StepView::Next(inner, ask) => StepView::Next(
            StartLauncherView { settings, phase: LaunchPhaseView::Resolving(inner) },
            ask,
        ),
        StepView::Done(Ok((tunnel, persisted, is_new))) => launch_resolved(
            settings,
            tunnel,
            persisted,
            is_new,
        ),
        StepView::Done(Err(e)) => StepView::Done(Err(e)),
    }
}

/// A step of the change of name, seen as a step of the bringing up.
pub open spec fn launch_by_renaming(
    settings: Settings,
    step: StepView<UpdateNameView, RenamedView>,
) -> LaunchStep {
    match step {
        StepView::Next(inner, ask) => StepView::Next(
            StartLauncherView { settings, phase: LaunchPhaseView::Renaming(inner) },
            ask,
        ),
        StepView::Done(Ok((_, persisted))) => launch_by_resolving(
            settings,
            get_or_create_start(persisted, None, host_options(), settings.protocol_version),
        ),
        StepView::Done(Err(e)) => StepView::Done(Err(e)),
    }
}

/// A step of the creation, seen as a step of the bringing up.
pub open spec fn launch_by_creating(
    settings: Settings,
    step: StepView<CreateTunnelView, CreatedView>,
) -> LaunchStep {
    match step {
        StepView::Next(inner, ask) => StepView::Next(
            StartLauncherView { settings, phase: LaunchPhaseView::Creating(inner) },
            ask,
        ),
        StepView::Done(Ok((persisted, tunnel))) => launch_resolved(
            settings,
            tunnel,
            persisted,
            true,
        ),
        StepView::Done(Err(e)) => StepView::Done(Err(e)),
    }
}

/// A step of the choice of a name, seen as a step of the bringing up.
pub open spec fn launch_by_naming(
    settings: Settings,
    step: StepView<NameSearchView, Seq<char>>,
) -> LaunchStep {
    match step {
        StepView::Next(inner, ask) => StepView::Next(
            StartLauncherView { settings, phase: LaunchPhaseView::Naming(inner) },
            ask,
        ),
        StepView::Done(Ok(name)) => launch_by_creating(
            settings,
            create_start(name, host_options(), settings.protocol_version),
        ),
        StepView::Done(Err(e)) => StepView::Done(Err(e)),
    }
}

/// What is done with the identity found on disk. With an identity, the
/// tunnel is renamed first where the preferred name differs from its name,
/// whatever the case of the letters; without one, a name is chosen and a
/// tunnel is created.
pub open spec fn launch_loaded(
    settings: Settings,
    preferred: Option<Seq<char>>,
    use_random: bool,
    found: Option<PersistedTunnelView>,
) -> LaunchStep {
    match found {
        Some(persisted) => {
            let resolve = launch_by_resolving(
                settings,
                get_or_create_start(persisted, None, host_options(), settings.protocol_version),
            );
            match preferred {
                Some(p) => if lowercase(persisted.name) != lowercase(p) {
                    launch_by_renaming(
                        settings,
                        update_name_start(Some(persisted), lowercase(p), settings.protocol_version),
                    )
                } else {
                    resolve
                },
                None => resolve,
            }
        },
        None => launch_by_naming(
            settings,
            name_search_start(preferred, use_random, settings.interactive),
        ),
    }
}

/// The bringing up, as a function from its state and an answer to what
/// comes next.
pub open spec fn launch_advance(pre: StartLauncherView, reply: ReplyView) -> LaunchStep {
    let settings = pre.settings;
    match pre.phase {
        LaunchPhaseView::Loading { preferred, use_random } => match reply {
            ReplyView::Loaded(found) => launch_loaded(settings, preferred, use_random, found),
            _ => StepView::Done(Err(unexpected_reply())),
        },
        LaunchPhaseView::Renaming(inner) => launch_by_renaming(
            settings,
            update_name_advance(inner, reply),
        ),
        LaunchPhaseView::Resolving(inner) => launch_by_resolving(
            settings,
            get_or_create_advance(inner, reply),
        ),
        LaunchPhaseView::Naming(inner) => launch_by_naming(
            settings,
            name_search_advance(inner, reply),
        ),
        LaunchPhaseView::Creating(inner) => launch_by_creating(
            settings,
            create_advance(inner, reply),
        ),
        LaunchPhaseView::Tagging { persisted } => match reply {
            ReplyView::Tunnel(Ok(tunnel)) => launch_cleanup(settings, tunnel, persisted),
            ReplyView::Tunnel(Err(e)) => StepView::Done(
                Err(wrapped(e.body, "tunnel tag update failed"@)),
            ),
            _ => StepView::Done(Err(unexpected_reply())),
        },
        LaunchPhaseView::Cleaning(c) => match reply {
            ReplyView::Deleted(answer) => clean_answered(settings, c, answer),
            _ => StepView::Done(Err(unexpected_reply())),
        },
    }
}

impl CleaningView {
    /// Everything that the clearing away deletes, in the order in which it
    /// asks: the ports, then the endpoints.
    pub open spec fn requests(self) -> Seq<RequestView> {
        self.ports.map_values(
            |port: u16| RequestView::DeleteTunnelPort { locator: self.plan.locator, port },
        ) + self.endpoints.map_values(
            |host_id: Seq<char>|
                RequestView::DeleteTunnelEndpoints { locator: self.plan.locator, host_id },
        )
    }

    /// How many deletions were acknowledged.
    pub open spec fn acknowledged(self) -> nat {
        self.ports_done + self.endpoints_done
    }

    /// The counts are in step with the order of the deletions: no endpoint
    /// is gone before every port is.
    pub open spec fn in_order(self) -> bool {
        &&& self.ports_done <= self.ports.len()
        &&& self.endpoints_done <= self.endpoints.len()
        &&& self.endpoints_done > 0 ==> self.ports_done == self.ports.len()
    }
}

/// The ports that are deleted are the ports of the tunnel other than the
/// control port, each as often as the tunnel lists it.
pub proof fn lemma_stale_ports(ports: Seq<u16>, control_port: u16)
    ensures
        forall|p: u16|
            #[trigger] stale_ports(ports, control_port).contains(p) <==> ports.contains(p) && p
                != control_port,
        !stale_ports(ports, control_port).contains(control_port),
{
    let stale = is_stale_port(control_port);
    assert forall|p: u16| #[trigger]
        stale_ports(ports, control_port).contains(p) <==> ports.contains(p) && p
            != control_port by {
        if stale_ports(ports, control_port).contains(p) {
            ports.lemma_filter_contains_rev(stale, p);
        }
        if ports.contains(p) && p != control_port {
            let i = choose|i: int| 0 <= i < ports.len() && ports[i] == p;
            ports.lemma_filter_contains(stale, i);
        }
    }
}

/// The clearing away asks for its deletions one after the other, in their
/// order, and ends with the plan exactly when all of them were
/// acknowledged.
pub proof fn lemma_cleaning_in_order(settings: Settings, c: CleaningView)
    requires
        c.in_order(),
    ensures
        match clean_next(settings, c) {
            StepView::Next(state, ask) => {
                &&& state == (StartLauncherView { settings, phase: LaunchPhaseView::Cleaning(c) })
                &&& c.acknowledged() < c.requests().len()
                &&& ask == AskView::Call(c.requests()[c.acknowledged() as int])
            },
            StepView::Done(Ok(plan)) => c.acknowledged() == c.requests().len() && plan == c.plan,
            StepView::Done(Err(_)) => false,
        },
{
}

/// An acknowledged deletion takes the clearing away to the next deletion
/// in the order, and a failed one ends it.
pub proof fn lemma_cleaning_advances(
    settings: Settings,
    c: CleaningView,
    answer: Result<(), HttpErrorView>,
)
    requires
        c.in_order(),
        c.acknowledged() < c.requests().len(),
    ensures
        match answer {
            Ok(_) => exists|next: CleaningView|
                {
                    &&& clean_answered(settings, c, answer) == clean_next(settings, next)
                    &&& next.in_order()
                    &&& next.acknowledged() == c.acknowledged() + 1
                    &&& next.requests() == c.requests()
                    &&& next.plan == c.plan
                },
            Err(_) => clean_answered(settings, c, answer) is Done,
        },
{
    if answer is Ok {
        let next = if c.ports_done < c.ports.len() {
            CleaningView { ports_done: c.ports_done + 1, ..c }
        } else {
            CleaningView { endpoints_done: c.endpoints_done + 1, ..c }
        };
        assert(next.requests() == c.requests());
    }
}

/// The ports among `ports` that are to be deleted.
pub fn ports_to_delete(ports: &Vec<u16>, control_port: u16) -> (r: Vec<u16>)
    ensures
        r@ == stale_ports(ports@, control_port),
{
    let ghost stale = is_stale_port(control_port);
    let mut out: Vec<u16> = Vec::new();
    let mut i: usize = 0;
    proof {
        reveal(Seq::filter);
    }
    while i < ports.len()
        invariant
            stale == is_stale_port(control_port),
            i <= ports@.len(),
            out@ == ports@.take(i as int).filter(stale),
        decreases ports@.len() - i,
    {
        proof {
            assert(ports@.take(i + 1) =~= ports@.take(i as int).push(ports@[i as int]));
            ports@.take(i as int).lemma_filter_push(ports@[i as int], stale);
        }
        if ports[i] != control_port {
            out.push(ports[i]);
        }
        i += 1;
    }
    assert(ports@.take(ports@.len() as int) =~= ports@);
    out
}

impl StartLauncher {
    /// Begins to bring up the launcher's tunnel. `preferred` is the name
    /// the caller would like the tunnel to have; `use_random` says that the
    /// user is not to be asked for one.
    pub fn start(preferred: Option<String>, use_random: bool, settings: Settings) -> (r: Step<
        StartLauncher,
        LaunchPlan,
    >)
        ensures
            r@ == launch_start(preferred.deep_view(), use_random, settings),
    {
        Step::Next(
            StartLauncher { settings, phase: LaunchPhase::Loading { preferred, use_random } },
            Ask::Call(Request::LoadPersisted),
        )
    }

    fn clean(settings: Settings, c: Cleaning) -> (r: Step<StartLauncher, LaunchPlan>)
        ensures
            r@ == clean_next(settings, c@),
    {
        if c.ports_done < c.ports.len() {
            let ask = Ask::Call(
                Request::DeleteTunnelPort {
                    locator: c.plan.locator.clone(),
                    port: c.ports[c.ports_done],
                },
            );
            Step::Next(StartLauncher { settings, phase: LaunchPhase::Cleaning(c) }, ask)
        } else if c.endpoints_done < c.endpoints.len() {
            let ask = Ask::Call(
                Request::DeleteTunnelEndpoints {
                    locator: c.plan.locator.clone(),
                    host_id: c.endpoints[c.endpoints_done].clone(),
                },
            );
            Step::Next(StartLauncher { settings, phase: LaunchPhase::Cleaning(c) }, ask)
        } else {
            Step::Done(Ok(c.plan))
        }
    }

    fn cleaned(settings: Settings, c: Cleaning, answer: Result<(), HttpError>) -> (r:
        Step<StartLauncher, LaunchPlan>)
        ensures
            r@ == clean_answered(
                settings,
                c@,
                match answer {
                    Ok(_) => Ok(()),
                    Err(e) => Err(e@),
                },
            ),
    {
        let on_ports = c.ports_done < c.ports.len();
        match answer {
            Ok(_) => {
                if on_ports {
                    let Cleaning { plan, ports, endpoints, ports_done, endpoints_done } = c;
                    StartLauncher::clean(
                        settings,
                        Cleaning { plan, ports, endpoints, ports_done: ports_done + 1, endpoints_done },
                    )
                } else if c.endpoints_done < c.endpoints.len() {
                    let Cleaning { plan, ports, endpoints, ports_done, endpoints_done } = c;
                    StartLauncher::clean(
                        settings,
                        Cleaning { plan, ports, endpoints, ports_done, endpoints_done: endpoints_done + 1 },
                    )
                } else {
                    StartLauncher::clean(settings, c)
                }
            },
            Err(e) => {
                if on_ports {
                    Step::Done(Err(wrap_http(e, "failed to delete port")))
                } else {
                    Step::Done(Err(wrap_http(e, "failed to prune tunnel endpoint")))
                }
            },
        }
    }

    fn cleanup(settings: Settings, tunnel: RemoteTunnel, persisted: PersistedTunnel) -> (r: Step<
        StartLauncher,
        LaunchPlan,
    >)
        ensures
            r@ == launch_cleanup(settings, tunnel@, persisted@),
    {
        match tunnel.locator() {
            None => Step::Done(
                Err(
                    AnyError::DevTunnelError(
                        String::from_str(
                            "the service returned a tunnel without a cluster or an identifier",
                        ),
                    ),
                ),
            ),
            Some(locator) => match get_host_token_from_tunnel(&tunnel) {
                None => Step::Done(
                    Err(
                        AnyError::DevTunnelError(
                            String::from_str("the service returned a tunnel without a host token"),
                        ),
                    ),
                ),
                Some(host_token) => {
                    let ports = ports_to_delete(&tunnel.ports, settings.control_port);
                    StartLauncher::clean(
                        settings,
                        Cleaning {
                            plan: LaunchPlan {
                                locator,
                                name: persisted.name,
                                id: persisted.id,
                                host_token,
                            },
                            ports,
                            endpoints: tunnel.endpoints,
                            ports_done: 0,
                            endpoints_done: 0,
                        },
                    )
                },
            },
        }
    }

    fn resolved(
        settings: Settings,
        tunnel: RemoteTunnel,
        persisted: PersistedTunnel,
        fresh: bool,
    ) -> (r: Step<StartLauncher, LaunchPlan>)
        ensures
            r@ == launch_resolved(settings, tunnel@, persisted@, fresh),
    {
        let current = protocol_version_tag(settings.protocol_version);
        if !fresh && !contains_string(&tunnel.tags, &current) {
            let update = RemoteTunnel {
                cluster_id: tunnel.cluster_id,
                tunnel_id: tunnel.tunnel_id,
                tags: update_version_tag(&tunnel.tags, settings.protocol_version),
                ports: Vec::new(),
                endpoints: Vec::new(),
                host_connection_count: None,
                access_tokens: Vec::new(),
            };
            assert(update@.endpoints =~= Seq::empty());
            assert(update@.access_tokens =~= Seq::empty());
            Step::Next(
                StartLauncher { settings, phase: LaunchPhase::Tagging { persisted } },
                Ask::Call(Request::UpdateTunnel { tunnel: update, options: RequestOptions::host() }),
            )
        } else {
            StartLauncher::cleanup(settings, tunnel, persisted)
        }
    }

    fn by_resolving(settings: Settings, step: Step<GetOrCreate, Resolved>) -> (r: Step<
        StartLauncher,
        LaunchPlan,
    >)
        ensures
            r@ == launch_by_resolving(settings, step@),
    {
        match step {
            Step::Next(inner, ask) => Step::Next(
                StartLauncher { settings, phase: LaunchPhase::Resolving(inner) },
                ask,
            ),
            Step::Done(Ok((tunnel, persisted, is_new))) => StartLauncher::resolved(
                settings,
                tunnel,
                persisted,
                is_new,
            ),
            Step::Done(Err(e)) => Step::Done(Err(e)),
        }
    }

    fn by_renaming(settings: Settings, step: Step<UpdateName, Renamed>) -> (r: Step<
        StartLauncher,
        LaunchPlan,
    >)
        ensures
            r@ == launch_by_renaming(settings, step@),
    {
        match step {
            Step::Next(inner, ask) => Step::Next(
                StartLauncher { settings, phase: LaunchPhase::Renaming(inner) },
                ask,
            ),
            Step::Done(Ok((_, persisted))) => StartLauncher::by_resolving(
                settings,
                GetOrCreate::start(
                    persisted,
                    None,
                    RequestOptions::host(),
                    settings.protocol_version,
                ),
            ),
            Step::Done(Err(e)) => Step::Done(Err(e)),
        }
    }

    fn by_creating(settings: Settings, step: Step<CreateTunnel, Created>) -> (r: Step<
        StartLauncher,
        LaunchPlan,
    >)
        ensures
            r@ == launch_by_creating(settings, step@),
    {
        match step {
            Step::Next(inner, ask) => Step::Next(
                StartLauncher { settings, phase: LaunchPhase::Creating(inner) },
                ask,
            ),
            Step::Done(Ok((persisted, tunnel))) => StartLauncher::resolved(
                settings,
                tunnel,
                persisted,
                true,
            ),
            Step::Done(Err(e)) => Step::Done(Err(e)),
        }
    }

    fn by_naming(settings: Settings, step: Step<NameSearch, String>) -> (r: Step<
        StartLauncher,
        LaunchPlan,
    >)
        ensures
            r@ == launch_by_naming(settings, step@),
    {
        match step {
            Step::Next(inner, ask) => Step::Next(
                StartLauncher { settings, phase: LaunchPhase::Naming(inner) },
                ask,
            ),
            Step::Done(Ok(name)) => StartLauncher::by_creating(
                settings,
                CreateTunnel::start(name, RequestOptions::host(), settings.protocol_version),
            ),
            Step::Done(Err(e)) => Step::Done(Err(e)),
        }
    }

    fn loaded(
        settings: Settings,
        preferred: Option<String>,
        use_random: bool,
        found: Option<PersistedTunnel>,
    ) -> (r: Step<StartLauncher, LaunchPlan>)
        ensures
            r@ == launch_loaded(settings, preferred.deep_view(), use_random, found.deep_view()),
    {
        match found {
            Some(persisted) => {
                match preferred {
                    Some(p) => {
                        let wanted = to_ascii_lowercase(p.as_str());
                        let current = to_ascii_lowercase(persisted.name.as_str());
                        if current != wanted {
                            return StartLauncher::by_renaming(
                                settings,
                                UpdateName::start(
                                    Some(persisted),
                                    wanted.as_str(),
                                    settings.protocol_version,
                                ),
                            );
                        }
                    },
                    None => {},
                }
                StartLauncher::by_resolving(
                    settings,
                    GetOrCreate::start(
                        persisted,
                        None,
                        RequestOptions::host(),
                        settings.protocol_version,
                    ),
                )
            },
            None => StartLauncher::by_naming(
                settings,
                NameSearch::start(preferred, use_random, settings.interactive),
            ),
        }
    }

    /// Advances the bringing up with the answer to its last question.
    pub fn advance(self, reply: Reply) -> (r: Step<StartLauncher, LaunchPlan>)
        ensures
            r@ == launch_advance(self@, reply@),
    {
        let StartLauncher { settings, phase } = self;
        match phase {
            LaunchPhase::Loading { preferred, use_random } => match reply {
                Reply::Loaded(found) => StartLauncher::loaded(
                    settings,
                    preferred,
                    use_random,
                    found,
                ),
                _ => Step::Done(Err(unexpected_reply_error())),
            },
            LaunchPhase::Renaming(inner) => StartLauncher::by_renaming(
                settings,
                inner.advance(reply),
            ),
            LaunchPhase::Resolving(inner) => StartLauncher::by_resolving(
                settings,
                inner.advance(reply),
            ),
            LaunchPhase::Naming(inner) => StartLauncher::by_naming(settings, inner.advance(reply)),
            LaunchPhase::Creating(inner) => StartLauncher::by_creating(
                settings,
                inner.advance(reply),
            ),
            LaunchPhase::Tagging { persisted } => match reply {
                Reply::Tunnel(Ok(tunnel)) => StartLauncher::cleanup(settings, tunnel, persisted),
                Reply::Tunnel(Err(e)) => Step::Done(Err(wrap_http(e, "tunnel tag update failed"))),
                _ => Step::Done(Err(unexpected_reply_error())),
            },
            LaunchPhase::Cleaning(c) => match reply {
                Reply::Deleted(answer) => StartLauncher::cleaned(settings, c, answer),
                _ => Step::Done(Err(unexpected_reply_error())),
            },
        }
    }
}

} // verus!
