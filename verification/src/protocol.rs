//! What the engine asks of the outside world and what it takes back.
//!
//! The engine never performs I/O. An operation is a value that is advanced
//! with the answer to its last question and either asks the next question or
//! ends with its result.

use vstd::prelude::*;
use vstd::string::*;
use crate::errors::{AnyError, AnyErrorView, HttpError, HttpErrorView, WrappedError, WrappedErrorView};
use crate::tunnel::{
    PersistedTunnel, PersistedTunnelView, RemoteTunnel, RemoteTunnelView, TunnelLocator,
    TunnelLocatorView, HOST_SCOPE,
};

verus! {

/// What a request to the management service asks to be included.
#[derive(Debug, PartialEq, Eq)]
pub struct RequestOptions {
    /// Ask for the tunnel's ports.
    pub include_ports: bool,
    /// Scopes for which tokens are asked.
    pub token_scopes: Vec<String>,
}

/// The mathematical value of `RequestOptions`.
pub struct RequestOptionsView {
    pub include_ports: bool,
    pub token_scopes: Seq<Seq<char>>,
}

impl View for RequestOptions {
    type V = RequestOptionsView;

    open spec fn view(&self) -> RequestOptionsView {
        RequestOptionsView {
            include_ports: self.include_ports,
            token_scopes: self.token_scopes.deep_view(),
        }
    }
}

/// Options that ask for nothing.
pub open spec fn no_options() -> RequestOptionsView {
    RequestOptionsView { include_ports: false, token_scopes: Seq::empty() }
}

/// Options that ask for the ports and for a host token.
pub open spec fn host_options() -> RequestOptionsView {
    RequestOptionsView { include_ports: true, token_scopes: seq![HOST_SCOPE@] }
}

/// Options that ask for a host token only.
pub open spec fn token_options() -> RequestOptionsView {
    RequestOptionsView { include_ports: false, token_scopes: seq![HOST_SCOPE@] }
}

impl RequestOptions {
    /// Options that ask for nothing.
    pub fn none() -> (r: RequestOptions)
        ensures
            r@ == no_options(),
    {
        let r = RequestOptions { include_ports: false, token_scopes: Vec::new() };
        assert(r@.token_scopes =~= Seq::empty());
        r
    }

    /// Options that ask for the ports and for a host token.
    pub fn host() -> (r: RequestOptions)
        ensures
            r@ == host_options(),
    {
        let mut scopes: Vec<String> = Vec::new();
        scopes.push(String::from_str(HOST_SCOPE));
        let r = RequestOptions { include_ports: true, token_scopes: scopes };
        assert(r@.token_scopes =~= seq![HOST_SCOPE@]);
        r
    }

    /// Options that ask for a host token only.
    pub fn token() -> (r: RequestOptions)
        ensures
            r@ == token_options(),
    {
        let mut scopes: Vec<String> = Vec::new();
        scopes.push(String::from_str(HOST_SCOPE));
        let r = RequestOptions { include_ports: false, token_scopes: scopes };
        assert(r@.token_scopes =~= seq![HOST_SCOPE@]);
        r
    }
}

impl Clone for RequestOptions {
    fn clone(&self) -> (r: Self)
        ensures
            r@ == self@,
    {
        let scopes = self.token_scopes.clone();
        RequestOptions { include_ports: self.include_ports, token_scopes: scopes }
    }
}

/// One piece of outside work.
#[derive(Debug, PartialEq, Eq)]
pub enum Request {
    /// Read the identity kept on disk.
    LoadPersisted,
    /// Replace the identity kept on disk, or remove it.
    SavePersisted(Option<PersistedTunnel>),
    /// List the tunnels that carry all of these tags.
    ListTunnels { tags: Vec<String> },
    /// Fetch one tunnel.
    GetTunnel { locator: TunnelLocator, options: RequestOptions },
    /// Create a tunnel from a draft.
    CreateTunnel { tunnel: RemoteTunnel, options: RequestOptions },
    /// Push a changed record of a tunnel.
    UpdateTunnel { tunnel: RemoteTunnel, options: RequestOptions },
    /// Delete a tunnel.
    DeleteTunnel { locator: TunnelLocator },
    /// Delete one forwarded port of a tunnel.
    DeleteTunnelPort { locator: TunnelLocator, port: u16 },
    /// Delete the endpoints that a host published for a tunnel.
    DeleteTunnelEndpoints { locator: TunnelLocator, host_id: String },
    /// Ask the user for a name, offering `placeholder`.
    Prompt { placeholder: String },
}

/// The mathematical value of a `Request`.
pub enum RequestView {
    LoadPersisted,
    SavePersisted(Option<PersistedTunnelView>),
    ListTunnels { tags: Seq<Seq<char>> },
    GetTunnel { locator: TunnelLocatorView, options: RequestOptionsView },
    CreateTunnel { tunnel: RemoteTunnelView, options: RequestOptionsView },
    UpdateTunnel { tunnel: RemoteTunnelView, options: RequestOptionsView },
    DeleteTunnel { locator: TunnelLocatorView },
    DeleteTunnelPort { locator: TunnelLocatorView, port: u16 },
    DeleteTunnelEndpoints { locator: TunnelLocatorView, host_id: Seq<char> },
    Prompt { placeholder: Seq<char> },
}

impl View for Request {
    type V = RequestView;

    open spec fn view(&self) -> RequestView {
        match self {
            Request::LoadPersisted => RequestView::LoadPersisted,
            Request::SavePersisted(p) => RequestView::SavePersisted(p.deep_view()),
            Request::ListTunnels { tags } => RequestView::ListTunnels { tags: tags.deep_view() },
            Request::GetTunnel { locator, options } => RequestView::GetTunnel {
                locator: locator@,
                options: options@,
            },
            Request::CreateTunnel { tunnel, options } => RequestView::CreateTunnel {
                tunnel: tunnel@,
                options: options@,
            },
            Request::UpdateTunnel { tunnel, options } => RequestView::UpdateTunnel {
                tunnel: tunnel@,
                options: options@,
            },
            Request::DeleteTunnel { locator } => RequestView::DeleteTunnel { locator: locator@ },
            Request::DeleteTunnelPort { locator, port } => RequestView::DeleteTunnelPort {
                locator: locator@,
                port: *port,
            },
            Request::DeleteTunnelEndpoints { locator, host_id } => {
                RequestView::DeleteTunnelEndpoints { locator: locator@, host_id: host_id@ }
            },
            Request::Prompt { placeholder } => RequestView::Prompt { placeholder: placeholder@ },
        }
    }
}

/// What an operation needs next: outside work, or one of two values that
/// the library obtains for itself.
#[derive(Debug, PartialEq, Eq)]
pub enum Ask {
    /// Outside work, whose answer is a `Reply`.
    Call(Request),
    /// An index below `count`, chosen at random.
    Pick { count: usize },
    /// The host name of this machine.
    Hostname,
}

/// The mathematical value of an `Ask`.
pub enum AskView {
    Call(RequestView),
    Pick { count: nat },
    Hostname,
}

impl View for Ask {
    type V = AskView;

    open spec fn view(&self) -> AskView {
        match self {
            Ask::Call(r) => AskView::Call(r@),
            Ask::Pick { count } => AskView::Pick { count: *count as nat },
            Ask::Hostname => AskView::Hostname,
        }
    }
}

/// The answer to an `Ask`.
#[derive(Debug, PartialEq, Eq)]
pub enum Reply {
    /// The identity found on disk, if one could be read.
    Loaded(Option<PersistedTunnel>),
    /// How replacing the identity on disk went.
    Saved(Result<(), WrappedError>),
    /// The tunnels found.
    Tunnels(Result<Vec<RemoteTunnel>, HttpError>),
    /// The tunnel fetched, created or updated.
    Tunnel(Result<RemoteTunnel, HttpError>),
    /// How a deletion went.
    Deleted(Result<(), HttpError>),
    /// What the user typed.
    Prompted(Result<String, WrappedError>),
    /// The index that was chosen.
    Picked(usize),
    /// The host name of this machine.
    Hostname(String),
}

/// The mathematical value of a `Reply`.
pub enum ReplyView {
    Loaded(Option<PersistedTunnelView>),
    Saved(Result<(), WrappedErrorView>),
    Tunnels(Result<Seq<RemoteTunnelView>, HttpErrorView>),
    Tunnel(Result<RemoteTunnelView, HttpErrorView>),
    Deleted(Result<(), HttpErrorView>),
    Prompted(Result<Seq<char>, WrappedErrorView>),
    Picked(nat),
    Hostname(Seq<char>),
}

impl View for Reply {
    type V = ReplyView;

    open spec fn view(&self) -> ReplyView {
        match self {
            Reply::Loaded(p) => ReplyView::Loaded(p.deep_view()),
            Reply::Saved(Ok(_)) => ReplyView::Saved(Ok(())),
            Reply::Saved(Err(e)) => ReplyView::Saved(Err(e@)),
            Reply::Tunnels(Ok(list)) => ReplyView::Tunnels(Ok(list.deep_view())),
            Reply::Tunnels(Err(e)) => ReplyView::Tunnels(Err(e@)),
            Reply::Tunnel(Ok(t)) => ReplyView::Tunnel(Ok(t@)),
            Reply::Tunnel(Err(e)) => ReplyView::Tunnel(Err(e@)),
            Reply::Deleted(Ok(_)) => ReplyView::Deleted(Ok(())),
            Reply::Deleted(Err(e)) => ReplyView::Deleted(Err(e@)),
            Reply::Prompted(Ok(s)) => ReplyView::Prompted(Ok(s@)),
            Reply::Prompted(Err(e)) => ReplyView::Prompted(Err(e@)),
            Reply::Picked(k) => ReplyView::Picked(*k as nat),
            Reply::Hostname(h) => ReplyView::Hostname(h@),
        }
    }
}

/// Where an operation stands after it was advanced: it goes on from a new
/// state with a question, or it has ended.
pub enum Step<M, T> {
    /// The operation goes on.
    Next(M, Ask),
    /// The operation has ended with this result.
    Done(Result<T, AnyError>),
}

/// The mathematical value of a `Step`.
pub enum StepView<M, T> {
    Next(M, AskView),
    Done(Result<T, AnyErrorView>),
}

impl<M: View, T: View> View for Step<M, T> {
    type V = StepView<M::V, T::V>;

    open spec fn view(&self) -> StepView<M::V, T::V> {
        match self {
            Step::Next(m, ask) => StepView::Next(m@, ask@),
            Step::Done(Ok(t)) => StepView::Done(Ok(t@)),
            Step::Done(Err(e)) => StepView::Done(Err(e@)),
        }
    }
}

/// The text of the failure with which an operation ends when it is handed
/// an answer to a question that it did not ask.
pub open spec fn unexpected_reply_message() -> Seq<char> {
    "the reply does not answer the pending request"@
}

/// The failure with which an operation ends when it is handed an answer to a
/// question that it did not ask.
pub open spec fn unexpected_reply() -> AnyErrorView {
    AnyErrorView::DevTunnelError(unexpected_reply_message())
}

/// Builds the failure for an answer that was not asked for.
pub fn unexpected_reply_error() -> (e: AnyError)
    ensures
        e@ == unexpected_reply(),
{
    AnyError::DevTunnelError(String::from_str("the reply does not answer the pending request"))
}

} // verus!
