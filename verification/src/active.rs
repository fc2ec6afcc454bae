//! The owner's side of a hosted tunnel: waiting for its endpoint, forwarding
//! ports through the relay, and shutting it down.

use vstd::prelude::*;
use vstd::string::*;
use crate::errors::{wrap, AnyError, AnyErrorView, WrappedError, WrappedErrorView};
use crate::supervisor::{
    attempt_turn, fresh_supervisor, Endpoint, EndpointView, Supervisor, Turn,
};
use crate::text::{decimal, push_decimal, replace_all, replaced};
use crate::tokens::AccessTokenProvider;

verus! {

/// What stands for the port's number in the pattern of a port's address.
pub const PORT_TOKEN: &'static str = "{port}";

/// The protocol named for a forwarded port when the relay is to find out.
pub const TUNNEL_PROTOCOL_AUTO: &'static str = "auto";

/// What the owner knows of the endpoint that the loop publishes.
#[derive(Debug, PartialEq, Eq)]
pub enum EndpointWatch {
    /// Nothing was published yet.
    Pending,
    /// The last thing published.
    Published(Result<Endpoint, WrappedError>),
    /// The loop is gone and nothing it published counts any longer.
    Closed,
}

/// The mathematical value of an `EndpointWatch`.
pub enum EndpointWatchView {
    Pending,
    Published(Result<EndpointView, WrappedErrorView>),
    Closed,
}

impl View for EndpointWatch {
    type V = EndpointWatchView;

    open spec fn view(&self) -> EndpointWatchView {
        match self {
            EndpointWatch::Pending => EndpointWatchView::Pending,
            EndpointWatch::Published(Ok(e)) => EndpointWatchView::Published(Ok(e@)),
            EndpointWatch::Published(Err(w)) => EndpointWatchView::Published(Err(w@)),
            EndpointWatch::Closed => EndpointWatchView::Closed,
        }
    }
}

/// A port to be forwarded.
#[derive(Debug, PartialEq, Eq)]
pub struct TunnelPort {
    pub port_number: u16,
    pub protocol: Option<String>,
}

/// Work for the relay.
#[derive(Debug, PartialEq, Eq)]
pub enum RelayRequest {
    /// Forward a port; the relay ends the connections on this machine.
    AddPort(TunnelPort),
    /// Forward a port and hand its connections to the caller.
    AddPortRaw(TunnelPort),
    /// Stop forwarding a port.
    RemovePort(u16),
    /// Take the host off the tunnel.
    Unregister,
}

/// The mathematical value of a `RelayRequest`. A port is forwarded with the
/// protocol left to the relay.
pub enum RelayRequestView {
    AddPort { port_number: u16, protocol: Option<Seq<char>> },
    AddPortRaw { port_number: u16, protocol: Option<Seq<char>> },
    RemovePort(u16),
    Unregister,
}

impl View for RelayRequest {
    type V = RelayRequestView;

    open spec fn view(&self) -> RelayRequestView {
        match self {
            RelayRequest::AddPort(p) => RelayRequestView::AddPort {
                port_number: p.port_number,
                protocol: p.protocol.deep_view(),
            },
            RelayRequest::AddPortRaw(p) => RelayRequestView::AddPortRaw {
                port_number: p.port_number,
                protocol: p.protocol.deep_view(),
            },
            RelayRequest::RemovePort(n) => RelayRequestView::RemovePort(*n),
            RelayRequest::Unregister => RelayRequestView::Unregister,
        }
    }
}

impl RelayRequestView {
    /// What is said of a failure of this work.
    pub open spec fn failure_context(self) -> Seq<char> {
        match self {
            RelayRequestView::AddPort { .. } => "error adding port to relay"@,
            RelayRequestView::AddPortRaw { .. } => "error adding port to relay"@,
            RelayRequestView::RemovePort(_) => "error remove port from relay"@,
            RelayRequestView::Unregister => "error unregistering relay"@,
        }
    }
}

impl RelayRequest {
    /// Wraps the failure of this work with what was being done.
    pub fn failed(&self, cause: String) -> (r: WrappedError)
        ensures
            r@ == (WrappedErrorView { context: self@.failure_context(), cause: cause@ }),
    {
        match self {
            RelayRequest::AddPort(_) => wrap(cause, "error adding port to relay"),
            RelayRequest::AddPortRaw(_) => wrap(cause, "error adding port to relay"),
            RelayRequest::RemovePort(_) => wrap(cause, "error remove port from relay"),
            RelayRequest::Unregister => wrap(cause, "error unregistering relay"),
        }
    }
}

/// What asking for the endpoint comes to.
#[derive(Debug, PartialEq, Eq)]
pub enum EndpointPoll {
    /// Nothing was published yet: wait for the watch to change.
    Wait,
    /// The answer.
    Ready(Result<Endpoint, AnyError>),
}

/// The mathematical value of an `EndpointPoll`.
pub enum EndpointPollView {
    Wait,
    Ready(Result<EndpointView, AnyErrorView>),
}

impl View for EndpointPoll {
    type V = EndpointPollView;

    open spec fn view(&self) -> EndpointPollView {
        match self {
            EndpointPoll::Wait => EndpointPollView::Wait,
            EndpointPoll::Ready(Ok(e)) => EndpointPollView::Ready(Ok(e@)),
            EndpointPoll::Ready(Err(e)) => EndpointPollView::Ready(Err(e@)),
        }
    }
}

/// A step in shutting a tunnel down.
#[derive(Clone, Copy, Debug, PartialEq, Eq, Structural)]
pub enum KillStep {
    /// Give the close signal by dropping its sender.
    DropCloseSender,
    /// Take the host off the tunnel. A failure to do so does not stop the
    /// shutdown.
    Unregister,
    /// Wait until the loop has dropped its side of the watch.
    Drain,
}

/// The steps of a shutdown, in their order. The close signal is given only
/// if its sender is still held.
pub open spec fn kill_steps(close_held: bool) -> Seq<KillStep> {
    if close_held {
        seq![KillStep::DropCloseSender, KillStep::Unregister, KillStep::Drain]
    } else {
        seq![KillStep::Unregister, KillStep::Drain]
    }
}

/// The owner's handle on the reconnect loop of a tunnel.
pub struct ActiveTunnelManager {
    close_held: bool,
    watch: EndpointWatch,
}

/// The mathematical value of an `ActiveTunnelManager`: whether it still
/// holds the sender of the close signal, and what it knows of the endpoint.
pub struct ActiveTunnelManagerView {
    pub close_held: bool,
    pub watch: EndpointWatchView,
}

impl View for ActiveTunnelManager {
    type V = ActiveTunnelManagerView;

    closed spec fn view(&self) -> ActiveTunnelManagerView {
        ActiveTunnelManagerView { close_held: self.close_held, watch: self.watch@ }
    }
}

/// The failure of one who waits for the endpoint of a tunnel that was shut
/// down.
pub open spec fn cancelled() -> AnyErrorView {
    AnyErrorView::DevTunnelError("tunnel creation cancelled"@)
}

impl ActiveTunnelManagerView {
    /// A handle on a loop that has published nothing yet.
    pub open spec fn fresh() -> ActiveTunnelManagerView {
        ActiveTunnelManagerView { close_held: true, watch: EndpointWatchView::Pending }
    }

    /// The handle after the loop published `value`. Nothing is taken from a
    /// loop that is known to be gone.
    pub open spec fn published(self, value: Result<EndpointView, WrappedErrorView>) -> Self {
        if self.watch is Closed {
            self
        } else {
            ActiveTunnelManagerView { watch: EndpointWatchView::Published(value), ..self }
        }
    }

    /// The handle after the loop was seen to be gone. What it published last
    /// stays known; if it published nothing, nothing will come.
    pub open spec fn abandoned(self) -> Self {
        if self.watch is Pending {
            ActiveTunnelManagerView { watch: EndpointWatchView::Closed, ..self }
        } else {
            self
        }
    }

    /// The handle after the close signal was given.
    pub open spec fn signalled(self) -> Self {
        ActiveTunnelManagerView { close_held: false, ..self }
    }

    /// The handle after the loop was waited for at the end of a shutdown:
    /// nothing the loop published counts any longer.
    pub open spec fn drained(self) -> Self {
        ActiveTunnelManagerView { watch: EndpointWatchView::Closed, ..self }
    }

    /// The handle after a shutdown.
    pub open spec fn killed(self) -> Self {
        self.signalled().drained()
    }

    /// What asking for the endpoint comes to.
    pub open spec fn poll(self) -> EndpointPollView {
        match self.watch {
            EndpointWatchView::Pending => EndpointPollView::Wait,
            EndpointWatchView::Published(Ok(e)) => EndpointPollView::Ready(Ok(e)),
            EndpointWatchView::Published(Err(w)) => EndpointPollView::Ready(
                Err(AnyErrorView::WrappedError(w)),
            ),
            EndpointWatchView::Closed => EndpointPollView::Ready(Err(cancelled())),
        }
    }
}

/// After a shutdown nobody gets an endpoint any more: every later request
/// for it fails as cancelled, whatever the loop had published. A second
/// shutdown finds the close signal given, does not give it again, and
/// changes nothing.
pub proof fn lemma_kill_is_final(m: ActiveTunnelManagerView)
    ensures
        m.killed().poll() == EndpointPollView::Ready(Err(cancelled())),
        forall|value: Result<EndpointView, WrappedErrorView>| #[trigger]
            m.killed().published(value).poll() == EndpointPollView::Ready(Err(cancelled())),
        m.killed().abandoned() == m.killed(),
        m.killed().killed() == m.killed(),
        kill_steps(m.killed().close_held) == seq![KillStep::Unregister, KillStep::Drain],
{
}

/// The request to forward `port_number` with the protocol left to the
/// relay.
fn auto_port(port_number: u16) -> (r: TunnelPort)
    ensures
        r.port_number == port_number,
        r.protocol.deep_view() == Some(TUNNEL_PROTOCOL_AUTO@),
{
    TunnelPort { port_number, protocol: Some(String::from_str(TUNNEL_PROTOCOL_AUTO)) }
}

impl ActiveTunnelManager {
    /// Starts the reconnect loop of a tunnel and returns the handle on it,
    /// the loop, and the loop's first turn.
    pub fn new(access_token: AccessTokenProvider) -> (r: (ActiveTunnelManager, Supervisor, Turn))
        ensures
            r.0@ == ActiveTunnelManagerView::fresh(),
            (r.1@, r.2@) == attempt_turn(fresh_supervisor(access_token@)),
    {
        let (supervisor, turn) = Supervisor::start(access_token);
        (
            ActiveTunnelManager { close_held: true, watch: EndpointWatch::Pending },
            supervisor,
            turn,
        )
    }

    /// Takes note of what the loop published.
    pub fn published(&mut self, value: Result<Endpoint, WrappedError>)
        ensures
            final(self)@ == old(self)@.published(
                match value {
                    Ok(e) => Ok(e@),
                    Err(w) => Err(w@),
                },
            ),
    {
        match self.watch {
            EndpointWatch::Closed => {},
            _ => {
                self.watch = EndpointWatch::Published(value);
            },
        }
    }

    /// Takes note that the loop is gone.
    pub fn abandoned(&mut self)
        ensures
            final(self)@ == old(self)@.abandoned(),
    {
        match self.watch {
            EndpointWatch::Pending => {
                self.watch = EndpointWatch::Closed;
            },
            _ => {},
        }
    }

    /// Asks for the endpoint. The answer is what the loop published last;
    /// there is none yet while nothing was published, and none any more
    /// once the loop is gone.
    pub fn get_endpoint(&self) -> (r: EndpointPoll)
        ensures
            r@ == self@.poll(),
    {
        match &self.watch {
            EndpointWatch::Pending => EndpointPoll::Wait,
            EndpointWatch::Published(Ok(e)) => EndpointPoll::Ready(Ok(e.clone())),
            EndpointWatch::Published(Err(w)) => EndpointPoll::Ready(
                Err(AnyError::WrappedError(w.clone())),
            ),
            EndpointWatch::Closed => EndpointPoll::Ready(
                Err(AnyError::DevTunnelError(String::from_str("tunnel creation cancelled"))),
            ),
        }
    }

    /// The work that forwards a port over TCP.
    pub fn add_port_tcp(&self, port_number: u16) -> (r: RelayRequest)
        ensures
            r@ == (RelayRequestView::AddPort {
                port_number,
                protocol: Some(TUNNEL_PROTOCOL_AUTO@),
            }),
    {
        RelayRequest::AddPort(auto_port(port_number))
    }

    /// The work that forwards a port to the caller.
    pub fn add_port_direct(&self, port_number: u16) -> (r: RelayRequest)
        ensures
            r@ == (RelayRequestView::AddPortRaw {
                port_number,
                protocol: Some(TUNNEL_PROTOCOL_AUTO@),
            }),
    {
        RelayRequest::AddPortRaw(auto_port(port_number))
    }

    /// The work that stops forwarding a port.
    pub fn remove_port(&self, port_number: u16) -> (r: RelayRequest)
        ensures
            r@ == RelayRequestView::RemovePort(port_number),
    {
        RelayRequest::RemovePort(port_number)
    }

    /// Begins the shutdown and says what it takes: the close signal is
    /// given by dropping its sender, which happens at most once; the host
    /// is taken off the tunnel; and the loop is waited for.
    pub fn kill(&mut self) -> (r: Vec<KillStep>)
        ensures
            r@ == kill_steps(old(self)@.close_held),
            final(self)@ == old(self)@.signalled(),
    {
        let mut steps: Vec<KillStep> = Vec::new();
        if self.close_held {
            steps.push(KillStep::DropCloseSender);
        }
        steps.push(KillStep::Unregister);
        steps.push(KillStep::Drain);
        self.close_held = false;
        steps
    }

    /// Ends the shutdown once the loop is gone.
    pub fn drained(&mut self)
        ensures
            final(self)@ == old(self)@.drained(),
    {
        self.watch = EndpointWatch::Closed;
    }
}

/// A tunnel that is being hosted.
pub struct ActiveTunnel {
    /// Name of the tunnel.
    pub name: String,
    /// Identifier of the tunnel.
    pub id: String,
    manager: ActiveTunnelManager,
}

/// The mathematical value of an `ActiveTunnel`.
pub struct ActiveTunnelView {
    pub name: Seq<char>,
    pub id: Seq<char>,
    pub manager: ActiveTunnelManagerView,
}

impl View for ActiveTunnel {
    type V = ActiveTunnelView;

    closed spec fn view(&self) -> ActiveTunnelView {
        ActiveTunnelView { name: self.name@, id: self.id@, manager: self.manager@ }
    }
}

/// What asking for the address of a port comes to.
#[derive(Debug, PartialEq, Eq)]
pub enum PortUriPoll {
    /// The endpoint is not known yet.
    Wait,
    /// The answer.
    Ready(Result<String, AnyError>),
}

/// The address of `port` by the pattern `format`.
pub open spec fn port_uri(format: Seq<char>, port: u16) -> Seq<char> {
    replaced(format, PORT_TOKEN@, decimal(port as nat))
}

/// What is reported of an endpoint that has no pattern for the address of a
/// port.
pub open spec fn no_port_format() -> AnyErrorView {
    AnyErrorView::DevTunnelError("expected to have port format"@)
}

/// The address of `port` at `endpoint`, where the endpoint has a pattern.
pub open spec fn port_uri_at(endpoint: EndpointView, port: u16) -> Result<Seq<char>, AnyErrorView> {
    match endpoint.port_uri_format {
        Some(format) => Ok(port_uri(format, port)),
        None => Err(no_port_format()),
    }
}

/// What asking for the address of a port comes to, given what asking for
/// the endpoint comes to.
pub open spec fn port_uri_poll(poll: EndpointPollView, port: u16) -> Option<
    Result<Seq<char>, AnyErrorView>,
> {
    match poll {
        EndpointPollView::Wait => None,
        EndpointPollView::Ready(Ok(endpoint)) => Some(port_uri_at(endpoint, port)),
        EndpointPollView::Ready(Err(e)) => Some(Err(e)),
    }
}

/// Renders the address of `port` by the pattern `format`.
pub fn render_port_uri(format: &str, port: u16) -> (r: String)
    ensures
        r@ == port_uri(format@, port),
{
    let mut number = String::new();
    push_decimal(&mut number, port as u32);
    replace_all(format, PORT_TOKEN, number.as_str())
}

impl ActiveTunnel {
    /// The tunnel called `name`, known to the service as `id`, behind
    /// `manager`.
    pub fn new(name: String, id: String, manager: ActiveTunnelManager) -> (r: ActiveTunnel)
        ensures
            r@ == (ActiveTunnelView { name: name@, id: id@, manager: manager@ }),
    {
        ActiveTunnel { name, id, manager }
    }

    /// Takes note of what the loop published.
    pub fn published(&mut self, value: Result<Endpoint, WrappedError>)
        ensures
            final(self)@ == (ActiveTunnelView {
                manager: old(self)@.manager.published(
                    match value {
                        Ok(e) => Ok(e@),
                        Err(w) => Err(w@),
                    },
                ),
                ..old(self)@
            }),
    {
        self.manager.published(value);
    }

    /// Takes note that the loop is gone.
    pub fn abandoned(&mut self)
        ensures
            final(self)@ == (ActiveTunnelView {
                manager: old(self)@.manager.abandoned(),
                ..old(self)@
            }),
    {
        self.manager.abandoned();
    }

    /// Asks for the endpoint of the tunnel.
    pub fn get_endpoint(&self) -> (r: EndpointPoll)
        ensures
            r@ == self@.manager.poll(),
    {
        self.manager.get_endpoint()
    }

    /// Begins to close the tunnel and says what it takes.
    pub fn close(&mut self) -> (r: Vec<KillStep>)
        ensures
            r@ == kill_steps(old(self)@.manager.close_held),
            final(self)@ == (ActiveTunnelView {
                manager: old(self)@.manager.signalled(),
                ..old(self)@
            }),
    {
        self.manager.kill()
    }

    /// Ends closing once the loop is gone.
    pub fn drained(&mut self)
        ensures
            final(self)@ == (ActiveTunnelView {
                manager: old(self)@.manager.drained(),
                ..old(self)@
            }),
    {
        self.manager.drained();
    }

    /// The work that forwards a port to the caller.
    pub fn add_port_direct(&self, port_number: u16) -> (r: RelayRequest)
        ensures
            r@ == (RelayRequestView::AddPortRaw {
                port_number,
                protocol: Some(TUNNEL_PROTOCOL_AUTO@),
            }),
    {
        self.manager.add_port_direct(port_number)
    }

    /// The work that forwards a port over TCP.
    pub fn add_port_tcp(&self, port_number: u16) -> (r: RelayRequest)
        ensures
            r@ == (RelayRequestView::AddPort {
                port_number,
                protocol: Some(TUNNEL_PROTOCOL_AUTO@),
            }),
    {
        self.manager.add_port_tcp(port_number)
    }

    /// The work that stops forwarding a port.
    pub fn remove_port(&self, port_number: u16) -> (r: RelayRequest)
        ensures
            r@ == RelayRequestView::RemovePort(port_number),
    {
        self.manager.remove_port(port_number)
    }

    /// The public address at which a forwarded port can be reached: the
    /// endpoint's pattern with the port's number in place of the token.
    /// There is no answer while the endpoint is not known, and a failure
    /// where the endpoint has no pattern.
    pub fn get_port_uri(&self, port: u16) -> (r: PortUriPoll)
        ensures
            match r {
                PortUriPoll::Wait => port_uri_poll(self@.manager.poll(), port) is None,
                PortUriPoll::Ready(Ok(uri)) => port_uri_poll(self@.manager.poll(), port)
                    == Some(Ok::<Seq<char>, AnyErrorView>(uri@)),
                PortUriPoll::Ready(Err(e)) => port_uri_poll(self@.manager.poll(), port)
                    == Some(Err::<Seq<char>, AnyErrorView>(e@)),
            },
    {
        match self.manager.get_endpoint() {
            EndpointPoll::Wait => PortUriPoll::Wait,
            EndpointPoll::Ready(Ok(endpoint)) => match endpoint.port_uri_format {
                Some(format) => PortUriPoll::Ready(Ok(render_port_uri(format.as_str(), port))),
                None => PortUriPoll::Ready(
                    Err(AnyError::DevTunnelError(String::from_str("expected to have port format"))),
                ),
            },
            EndpointPoll::Ready(Err(e)) => PortUriPoll::Ready(Err(e)),
        }
    }
}

} // verus!
