//! The loop that keeps a tunnel connected to the relay. It connects with a
//! fresh token, publishes the endpoint, waits for the connection to end and
//! connects again after a growing delay, until it is told to close.

use vstd::prelude::*;
use vstd::string::*;
use crate::backoff::{delay_after, Backoff, BackoffView};
use crate::errors::{wrap, HttpError, HttpErrorView, WrappedError, WrappedErrorView};
use crate::protocol::{Request, RequestView};
use crate::tokens::{
    lookup_view, token_of_lookup, AccessTokenProvider, AccessTokenProviderView,
    LookupAccessTokenProvider, TokenStep, TokenStepView,
};
use crate::tunnel::{RemoteTunnel, RemoteTunnelView};

verus! {

/// The delay after the first failure, in nanoseconds: five seconds.
pub const BASE_DELAY: u128 = 5_000_000_000;

/// The longest delay between two attempts, in nanoseconds: two minutes.
pub const MAX_DELAY: u128 = 120_000_000_000;

/// Where a connected host can be reached.
#[derive(Debug, PartialEq, Eq)]
pub struct Endpoint {
    /// Pattern of the public address of a forwarded port, with a token in
    /// place of the port's number.
    pub port_uri_format: Option<String>,
}

/// The mathematical value of an `Endpoint`.
pub struct EndpointView {
    pub port_uri_format: Option<Seq<char>>,
}

impl View for Endpoint {
    type V = EndpointView;

    open spec fn view(&self) -> EndpointView {
        EndpointView { port_uri_format: self.port_uri_format.deep_view() }
    }
}

impl Clone for Endpoint {
    fn clone(&self) -> (r: Self)
        ensures
            r == *self,
    {
        Endpoint { port_uri_format: self.port_uri_format.clone() }
    }
}

/// What the loop is waiting for.
#[derive(Clone, Copy, Debug, PartialEq, Eq, Structural)]
pub enum SupervisorPhase {
    /// The answer to the lookup of a token.
    Refreshing,
    /// The outcome of an attempt to connect.
    Connecting,
    /// The end of the connection, or the request to close.
    Running,
    /// The end of a delay.
    Sleeping,
    /// The closing of the connection.
    Closing,
    /// Nothing: the loop has ended.
    Stopped,
}

/// The reconnect loop of one tunnel.
pub struct Supervisor {
    phase: SupervisorPhase,
    backoff: Backoff,
    provider: AccessTokenProvider,
}

/// The mathematical value of a `Supervisor`.
pub struct SupervisorView {
    pub phase: SupervisorPhase,
    pub backoff: BackoffView,
    pub provider: AccessTokenProviderView,
}

impl View for Supervisor {
    type V = SupervisorView;

    closed spec fn view(&self) -> SupervisorView {
        SupervisorView { phase: self.phase, backoff: self.backoff@, provider: self.provider@ }
    }
}

/// What the loop is told.
#[derive(Debug, PartialEq, Eq)]
pub enum Signal {
    /// The answer to the lookup of a token.
    Looked(Result<RemoteTunnel, HttpError>),
    /// The relay was reached and gave this endpoint, or the attempt failed
    /// for this reason.
    Connected(Result<Endpoint, String>),
    /// The connection has ended, by itself or for this reason.
    Exited(Result<(), String>),
    /// The owner of the tunnel asked for it to be closed.
    CloseRequested,
    /// The delay is over.
    Slept,
    /// The connection was closed.
    Closed,
}

/// The mathematical value of a `Signal`.
pub enum SignalView {
    Looked(Result<RemoteTunnelView, HttpErrorView>),
    Connected(Result<EndpointView, Seq<char>>),
    Exited(Result<(), Seq<char>>),
    CloseRequested,
    Slept,
    Closed,
}

impl View for Signal {
    type V = SignalView;

    open spec fn view(&self) -> SignalView {
        match self {
            Signal::Looked(a) => SignalView::Looked(lookup_view(*a)),
            Signal::Connected(Ok(e)) => SignalView::Connected(Ok(e@)),
            Signal::Connected(Err(c)) => SignalView::Connected(Err(c@)),
            Signal::Exited(Ok(_)) => SignalView::Exited(Ok(())),
            Signal::Exited(Err(c)) => SignalView::Exited(Err(c@)),
            Signal::CloseRequested => SignalView::CloseRequested,
            Signal::Slept => SignalView::Slept,
            Signal::Closed => SignalView::Closed,
        }
    }
}

/// What the loop wants done next.
#[derive(Debug, PartialEq, Eq)]
pub enum Command {
    /// Fetch the tunnel for its token, and signal `Looked`.
    Lookup(Request),
    /// Connect to the relay with this token, and signal `Connected`.
    Connect { token: String },
    /// Drive the connection; signal `Exited` when it ends, or
    /// `CloseRequested` when the request to close comes first.
    Run,
    /// Wait for so many nanoseconds, and signal `Slept`.
    Sleep { nanos: u128 },
    /// Close the connection, and signal `Closed`.
    Close,
    /// Leave the loop.
    Stop,
    /// Go on waiting: the signal did not answer what was asked.
    Ignore,
}

/// The mathematical value of a `Command`.
pub enum CommandView {
    Lookup(RequestView),
    Connect { token: Seq<char> },
    Run,
    Sleep { nanos: nat },
    Close,
    Stop,
    Ignore,
}

impl View for Command {
    type V = CommandView;

    open spec fn view(&self) -> CommandView {
        match self {
            Command::Lookup(r) => CommandView::Lookup(r@),
            Command::Connect { token } => CommandView::Connect { token: token@ },
            Command::Run => CommandView::Run,
            Command::Sleep { nanos } => CommandView::Sleep { nanos: *nanos as nat },
            Command::Close => CommandView::Close,
            Command::Stop => CommandView::Stop,
            Command::Ignore => CommandView::Ignore,
        }
    }
}

/// One turn of the loop: what is published to those who wait for the
/// endpoint, if anything, and what is to be done next.
#[derive(Debug, PartialEq, Eq)]
pub struct Turn {
    pub publish: Option<Result<Endpoint, WrappedError>>,
    pub command: Command,
}

/// The mathematical value of a `Turn`.
pub struct TurnView {
    pub publish: Option<Result<EndpointView, WrappedErrorView>>,
    pub command: CommandView,
}

impl View for Turn {
    type V = TurnView;

    open spec fn view(&self) -> TurnView {
        TurnView {
            publish: match self.publish {
                Some(Ok(e)) => Some(Ok(e@)),
                Some(Err(w)) => Some(Err(w@)),
                None => None,
            },
            command: self.command@,
        }
    }
}

/// The turn after a failure: the failure is published and a delay begins,
/// longer than the one before.
pub open spec fn fail_turn(pre: SupervisorView, failure: WrappedErrorView) -> (
    SupervisorView,
    TurnView,
) {
    let failures = pre.backoff.failures + 1;
    (
        SupervisorView {
            phase: SupervisorPhase::Sleeping,
            backoff: BackoffView { failures, ..pre.backoff },
            ..pre
        },
        TurnView {
            publish: Some(Err(failure)),
            command: CommandView::Sleep {
                nanos: delay_after(pre.backoff.base, pre.backoff.cap, failures),
            },
        },
    )
}

/// The turn that connects with `token`.
pub open spec fn connect_turn(pre: SupervisorView, token: Seq<char>) -> (SupervisorView, TurnView) {
    (
        SupervisorView { phase: SupervisorPhase::Connecting, ..pre },
        TurnView { publish: None, command: CommandView::Connect { token } },
    )
}

/// The turn that begins an attempt: a token is asked of the provider, and
/// with the token at hand the relay is connected to.
pub open spec fn attempt_turn(pre: SupervisorView) -> (SupervisorView, TurnView) {
    let next = SupervisorView { provider: pre.provider.refreshed(), ..pre };
    match pre.provider.refresh() {
        TokenStepView::Ready(Ok(token)) => connect_turn(next, token),
        TokenStepView::Ready(Err(e)) => fail_turn(next, e),
        TokenStepView::Lookup(request) => (
            SupervisorView { phase: SupervisorPhase::Refreshing, ..next },
            TurnView { publish: None, command: CommandView::Lookup(request) },
        ),
    }
}

/// The turn for a signal that does not answer what was asked: nothing
/// changes.
pub open spec fn ignore_turn(pre: SupervisorView) -> (SupervisorView, TurnView) {
    (pre, TurnView { publish: None, command: CommandView::Ignore })
}

/// A failure with the place where it happened.
pub open spec fn wrapped_cause(cause: Seq<char>, context: Seq<char>) -> WrappedErrorView {
    WrappedErrorView { context, cause }
}

/// The loop, as a function from its state and a signal to its next state
/// and turn.
pub open spec fn supervise(pre: SupervisorView, signal: SignalView) -> (SupervisorView, TurnView) {
    match (pre.phase, signal) {
        (SupervisorPhase::Refreshing, SignalView::Looked(answer)) => match token_of_lookup(
            answer,
        ) {
            Ok(token) => connect_turn(pre, token),
            Err(e) => fail_turn(pre, e),
        },
        (SupervisorPhase::Connecting, SignalView::Connected(Ok(endpoint))) => (
            SupervisorView {
                phase: SupervisorPhase::Running,
                backoff: BackoffView { failures: 0, ..pre.backoff },
                ..pre
            },
            TurnView { publish: Some(Ok(endpoint)), command: CommandView::Run },
        ),
        (SupervisorPhase::Connecting, SignalView::Connected(Err(cause))) => fail_turn(
            pre,
            wrapped_cause(cause, "error connecting to tunnel"@),
        ),
        (SupervisorPhase::Running, SignalView::Exited(Err(cause))) => fail_turn(
            pre,
            wrapped_cause(cause, "error from tunnel connection"@),
        ),
        (SupervisorPhase::Running, SignalView::Exited(Ok(_))) => {
            let failures = pre.backoff.failures + 1;
            (
                SupervisorView {
                    phase: SupervisorPhase::Sleeping,
                    backoff: BackoffView { failures, ..pre.backoff },
                    ..pre
                },
                TurnView {
                    publish: None,
                    command: CommandView::Sleep {
                        nanos: delay_after(pre.backoff.base, pre.backoff.cap, failures),
                    },
                },
            )
        },
        (SupervisorPhase::Running, SignalView::CloseRequested) => (
            SupervisorView { phase: SupervisorPhase::Closing, ..pre },
            TurnView { publish: None, command: CommandView::Close },
        ),
        (SupervisorPhase::Closing, SignalView::Closed) => (
            SupervisorView { phase: SupervisorPhase::Stopped, ..pre },
            TurnView { publish: None, command: CommandView::Stop },
        ),
        (SupervisorPhase::Sleeping, SignalView::Slept) => attempt_turn(pre),
        (SupervisorPhase::Stopped, _) => (pre, TurnView { publish: None, command: CommandView::Stop }),
        _ => ignore_turn(pre),
    }
}

/// The loop before its first attempt, with the delays that the engine uses.
pub open spec fn fresh_supervisor(provider: AccessTokenProviderView) -> SupervisorView {
    SupervisorView {
        phase: SupervisorPhase::Sleeping,
        backoff: BackoffView { failures: 0, base: BASE_DELAY as nat, cap: MAX_DELAY as nat },
        provider,
    }
}

impl Supervisor {
    /// Starts the loop: the first attempt begins at once.
    pub fn start(provider: AccessTokenProvider) -> (r: (Supervisor, Turn))
        ensures
            (r.0@, r.1@) == attempt_turn(fresh_supervisor(provider@)),
    {
        let s = Supervisor {
            phase: SupervisorPhase::Sleeping,
            backoff: Backoff::new(BASE_DELAY, MAX_DELAY),
            provider,
        };
        s.attempt()
    }

    /// Tells whether the loop has ended.
    pub fn stopped(&self) -> (r: bool)
        ensures
            r == (self@.phase == SupervisorPhase::Stopped),
    {
        self.phase == SupervisorPhase::Stopped
    }

    fn fail(self, failure: WrappedError) -> (r: (Supervisor, Turn))
        ensures
            (r.0@, r.1@) == fail_turn(self@, failure@),
    {
        let Supervisor { phase, mut backoff, provider } = self;
        let nanos = backoff.next();
        (
            Supervisor { phase: SupervisorPhase::Sleeping, backoff, provider },
            Turn { publish: Some(Err(failure)), command: Command::Sleep { nanos } },
        )
    }

    fn connect(self, token: String) -> (r: (Supervisor, Turn))
        ensures
            (r.0@, r.1@) == connect_turn(self@, token@),
    {
        let Supervisor { phase, backoff, provider } = self;
        (
            Supervisor { phase: SupervisorPhase::Connecting, backoff, provider },
            Turn { publish: None, command: Command::Connect { token } },
        )
    }

    fn attempt(self) -> (r: (Supervisor, Turn))
        ensures
            (r.0@, r.1@) == attempt_turn(self@),
    {
        let Supervisor { phase, backoff, mut provider } = self;
        let step = provider.refresh_token();
        let next = Supervisor { phase, backoff, provider };
        match step {
            TokenStep::Ready(Ok(token)) => next.connect(token),
            TokenStep::Ready(Err(e)) => next.fail(e),
            TokenStep::Lookup(request) => {
                let Supervisor { phase, backoff, provider } = next;
                (
                    Supervisor { phase: SupervisorPhase::Refreshing, backoff, provider },
                    Turn { publish: None, command: Command::Lookup(request) },
                )
            },
        }
    }

    /// Takes the loop one turn further.
    pub fn advance(self, signal: Signal) -> (r: (Supervisor, Turn))
        ensures
            (r.0@, r.1@) == supervise(self@, signal@),
    {
        match (self.phase, signal) {
            (SupervisorPhase::Refreshing, Signal::Looked(answer)) => {
                match LookupAccessTokenProvider::token_from_lookup(answer) {
                    Ok(token) => self.connect(token),
                    Err(e) => self.fail(e),
                }
            },
            (SupervisorPhase::Connecting, Signal::Connected(Ok(endpoint))) => {
                let Supervisor { phase, mut backoff, provider } = self;
                backoff.reset();
                (
                    Supervisor { phase: SupervisorPhase::Running, backoff, provider },
                    Turn { publish: Some(Ok(endpoint)), command: Command::Run },
                )
            },
            (SupervisorPhase::Connecting, Signal::Connected(Err(cause))) => self.fail(
                wrap(cause, "error connecting to tunnel"),
            ),
            (SupervisorPhase::Running, Signal::Exited(Err(cause))) => self.fail(
                wrap(cause, "error from tunnel connection"),
            ),
            (SupervisorPhase::Running, Signal::Exited(Ok(_))) => {
                let Supervisor { phase, mut backoff, provider } = self;
                let nanos = backoff.next();
                (
                    Supervisor { phase: SupervisorPhase::Sleeping, backoff, provider },
                    Turn { publish: None, command: Command::Sleep { nanos } },
                )
            },
            (SupervisorPhase::Running, Signal::CloseRequested) => {
                let Supervisor { phase, backoff, provider } = self;
                (
                    Supervisor { phase: SupervisorPhase::Closing, backoff, provider },
                    Turn { publish: None, command: Command::Close },
                )
            },
            (SupervisorPhase::Closing, Signal::Closed) => {
                let Supervisor { phase, backoff, provider } = self;
                (
                    Supervisor { phase: SupervisorPhase::Stopped, backoff, provider },
                    Turn { publish: None, command: Command::Stop },
                )
            },
            (SupervisorPhase::Sleeping, Signal::Slept) => self.attempt(),
            (SupervisorPhase::Stopped, _) => (self, Turn { publish: None, command: Command::Stop }),
            _ => (self, Turn { publish: None, command: Command::Ignore }),
        }
    }
}

/// An endpoint is published as reachable only in answer to an attempt to
/// connect that succeeded, and the loop then drives that connection: it
/// takes another attempt to publish another.
pub proof fn lemma_one_endpoint_per_attempt(pre: SupervisorView, signal: SignalView)
    ensures
        supervise(pre, signal).1.publish matches Some(Ok(endpoint)) ==> {
            &&& pre.phase == SupervisorPhase::Connecting
            &&& signal == SignalView::Connected(Ok(endpoint))
            &&& supervise(pre, signal).0.phase == SupervisorPhase::Running
            &&& supervise(pre, signal).1.command == CommandView::Run
        },
        supervise(pre, signal).0.phase == SupervisorPhase::Connecting ==> supervise(
            pre,
            signal,
        ).1.command is Connect || (pre.phase == SupervisorPhase::Connecting && supervise(
            pre,
            signal,
        ).1.command is Ignore),
{
}

/// The number of endpoints that the loop publishes as reachable when it is
/// given `signals` one after the other.
pub open spec fn endpoints_published(state: SupervisorView, signals: Seq<SignalView>) -> nat
    decreases signals.len(),
{
    if signals.len() == 0 {
        0
    } else {
        let (post, turn) = supervise(state, signals[0]);
        (if turn.publish matches Some(Ok(_)) {
            1nat
        } else {
            0nat
        }) + endpoints_published(post, signals.drop_first())
    }
}

/// The number of attempts to connect that the loop commands when it is
/// given `signals` one after the other.
pub open spec fn attempts_commanded(state: SupervisorView, signals: Seq<SignalView>) -> nat
    decreases signals.len(),
{
    if signals.len() == 0 {
        0
    } else {
        let (post, turn) = supervise(state, signals[0]);
        (if turn.command is Connect {
            1nat
        } else {
            0nat
        }) + attempts_commanded(post, signals.drop_first())
    }
}

/// Whatever the loop is told, it publishes at most one endpoint for each
/// attempt to connect: no more endpoints than attempts it has commanded,
/// counting the attempt that it may be waiting for at the beginning.
pub proof fn lemma_endpoints_never_outnumber_attempts(
    state: SupervisorView,
    signals: Seq<SignalView>,
)
    ensures
        endpoints_published(state, signals) <= attempts_commanded(state, signals) + (if state.phase
            == SupervisorPhase::Connecting {
            1nat
        } else {
            0nat
        }),
    decreases signals.len(),
{
    if signals.len() > 0 {
        lemma_one_endpoint_per_attempt(state, signals[0]);
        let (post, _) = supervise(state, signals[0]);
        lemma_endpoints_never_outnumber_attempts(post, signals.drop_first());
    }
}

/// Whatever the loop is told, a delay that it asks for is the one that the
/// count of failures calls for and never passes the cap; a connection that
/// was made sets the count back to nothing.
pub proof fn lemma_supervisor_delays(pre: SupervisorView, signal: SignalView)
    ensures
        supervise(pre, signal).1.command matches CommandView::Sleep { nanos } ==> {
            &&& nanos == delay_after(pre.backoff.base, pre.backoff.cap, pre.backoff.failures + 1)
            &&& nanos <= pre.backoff.cap
            &&& supervise(pre, signal).0.backoff.failures == pre.backoff.failures + 1
        },
        supervise(pre, signal).1.command is Run ==> supervise(pre, signal).0.backoff.failures == 0,
        supervise(pre, signal).0.backoff.base == pre.backoff.base,
        supervise(pre, signal).0.backoff.cap == pre.backoff.cap,
{
}

/// The loop ends only when it is told that the connection was closed, and
/// it has the connection closed only when it is asked to while a connection
/// runs.
pub proof fn lemma_supervisor_stops_on_close(pre: SupervisorView, signal: SignalView)
    ensures
        supervise(pre, signal).0.phase == SupervisorPhase::Stopped ==> pre.phase
            == SupervisorPhase::Stopped || (pre.phase == SupervisorPhase::Closing && signal
            == SignalView::Closed),
        supervise(pre, signal).1.command is Close ==> pre.phase == SupervisorPhase::Running
            && signal == SignalView::CloseRequested,
{
}

} // verus!
