//! Where the token for hosting a tunnel comes from: it is fixed, or it is
//! looked up from the service each time after the first.

use vstd::prelude::*;
use vstd::string::*;
use crate::errors::{wrap, HttpError, HttpErrorView, WrappedError, WrappedErrorView};
use crate::protocol::{token_options, Request, RequestOptions, RequestView};
use crate::tunnel::{
    get_host_token_from_tunnel, RemoteTunnel, RemoteTunnelView, TunnelLocator, TunnelLocatorView,
};

verus! {

/// A token provider that hands out one fixed token.
#[derive(Debug, PartialEq, Eq)]
pub struct StaticAccessTokenProvider(pub String);

impl StaticAccessTokenProvider {
    /// A provider of `token`.
    pub fn new(token: String) -> (r: Self)
        ensures
            r.0@ == token@,
    {
        StaticAccessTokenProvider(token)
    }

    /// The token, the same at every call.
    pub fn refresh_token(&self) -> (r: Result<String, WrappedError>)
        ensures
            r matches Ok(t) && t@ == self.0@,
    {
        Ok(self.0.clone())
    }
}

/// A token provider that hands out a first token it was given and looks up
/// every later one from the service.
#[derive(Debug, PartialEq, Eq)]
pub struct LookupAccessTokenProvider {
    pub locator: TunnelLocator,
    pub initial_token: Option<String>,
}

/// The mathematical value of a `LookupAccessTokenProvider`.
pub struct LookupAccessTokenProviderView {
    pub locator: TunnelLocatorView,
    pub initial_token: Option<Seq<char>>,
}

impl View for LookupAccessTokenProvider {
    type V = LookupAccessTokenProviderView;

    open spec fn view(&self) -> LookupAccessTokenProviderView {
        LookupAccessTokenProviderView {
            locator: self.locator@,
            initial_token: self.initial_token.deep_view(),
        }
    }
}

/// What a refresh comes to: a token or a failure at once, or a request
/// whose answer holds the token.
#[derive(Debug, PartialEq, Eq)]
pub enum TokenStep {
    /// The outcome of the refresh.
    Ready(Result<String, WrappedError>),
    /// The tunnel has to be fetched; its record holds the token.
    Lookup(Request),
}

/// The mathematical value of a `TokenStep`.
pub enum TokenStepView {
    Ready(Result<Seq<char>, WrappedErrorView>),
    Lookup(RequestView),
}

impl View for TokenStep {
    type V = TokenStepView;

    open spec fn view(&self) -> TokenStepView {
        match self {
            TokenStep::Ready(Ok(t)) => TokenStepView::Ready(Ok(t@)),
            TokenStep::Ready(Err(e)) => TokenStepView::Ready(Err(e@)),
            TokenStep::Lookup(r) => TokenStepView::Lookup(r@),
        }
    }
}

/// The context of a failed lookup.
pub open spec fn lookup_context() -> Seq<char> {
    "failed to lookup tunnel for host token"@
}

/// What is reported of a record without a host token.
pub open spec fn missing_token_cause() -> Seq<char> {
    "the tunnel holds no host token"@
}

/// The request that fetches the tunnel with a token for the host.
pub open spec fn token_request(locator: TunnelLocatorView) -> RequestView {
    RequestView::GetTunnel { locator, options: token_options() }
}

/// The token that a looked-up record yields: its host token, or a wrapped
/// failure where the lookup failed or the record holds none.
pub open spec fn token_of_lookup(answer: Result<RemoteTunnelView, HttpErrorView>) -> Result<
    Seq<char>,
    WrappedErrorView,
> {
    match answer {
        Ok(tunnel) => match tunnel.host_token() {
            Some(token) => Ok(token),
            None => Err(
                WrappedErrorView { context: lookup_context(), cause: missing_token_cause() },
            ),
        },
        Err(e) => Err(WrappedErrorView { context: lookup_context(), cause: e.body }),
    }
}

impl LookupAccessTokenProvider {
    /// A provider for the tunnel at `locator` that hands out
    /// `initial_token` first, if there is one.
    pub fn new(locator: TunnelLocator, initial_token: Option<String>) -> (r: Self)
        ensures
            r@ == (LookupAccessTokenProviderView {
                locator: locator@,
                initial_token: initial_token.deep_view(),
            }),
    {
        LookupAccessTokenProvider { locator, initial_token }
    }

    /// Starts a refresh. The first token is handed out once and is gone
    /// afterwards; from then on the tunnel is fetched with a token for the
    /// host.
    pub fn refresh_token(&mut self) -> (r: TokenStep)
        ensures
            final(self)@ == (LookupAccessTokenProviderView { initial_token: None, ..old(self)@ }),
            r@ == match old(self)@.initial_token {
                Some(token) => TokenStepView::Ready(Ok(token)),
                None => TokenStepView::Lookup(token_request(old(self)@.locator)),
            },
    {
        match self.initial_token.take() {
            Some(token) => TokenStep::Ready(Ok(token)),
            None => TokenStep::Lookup(
                Request::GetTunnel {
                    locator: self.locator.clone(),
                    options: RequestOptions::token(),
                },
            ),
        }
    }

    /// Ends a refresh with the answer to the lookup.
    pub fn token_from_lookup(answer: Result<RemoteTunnel, HttpError>) -> (r: Result<
        String,
        WrappedError,
    >)
        ensures
            match r {
                Ok(t) => token_of_lookup(lookup_view(answer)) == Ok::<
                    Seq<char>,
                    WrappedErrorView,
                >(t@),
                Err(e) => token_of_lookup(lookup_view(answer)) == Err::<
                    Seq<char>,
                    WrappedErrorView,
                >(e@),
            },
    {
        match answer {
            Ok(tunnel) => match get_host_token_from_tunnel(&tunnel) {
                Some(token) => Ok(token),
                None => Err(
                    wrap(
                        String::from_str("the tunnel holds no host token"),
                        "failed to lookup tunnel for host token",
                    ),
                ),
            },
            Err(e) => Err(wrap(e.body, "failed to lookup tunnel for host token")),
        }
    }
}

/// The mathematical value of the answer to a lookup.
pub open spec fn lookup_view(answer: Result<RemoteTunnel, HttpError>) -> Result<
    RemoteTunnelView,
    HttpErrorView,
> {
    match answer {
        Ok(t) => Ok(t@),
        Err(e) => Err(e@),
    }
}

/// Either kind of token provider.
#[derive(Debug, PartialEq, Eq)]
pub enum AccessTokenProvider {
    Static(StaticAccessTokenProvider),
    Lookup(LookupAccessTokenProvider),
}

/// The mathematical value of an `AccessTokenProvider`.
pub enum AccessTokenProviderView {
    Static(Seq<char>),
    Lookup(LookupAccessTokenProviderView),
}

impl View for AccessTokenProvider {
    type V = AccessTokenProviderView;

    open spec fn view(&self) -> AccessTokenProviderView {
        match self {
            AccessTokenProvider::Static(p) => AccessTokenProviderView::Static(p.0@),
            AccessTokenProvider::Lookup(p) => AccessTokenProviderView::Lookup(p@),
        }
    }
}

impl AccessTokenProviderView {
    /// The provider after a refresh was started.
    pub open spec fn refreshed(self) -> AccessTokenProviderView {
        match self {
            AccessTokenProviderView::Static(t) => self,
            AccessTokenProviderView::Lookup(p) => AccessTokenProviderView::Lookup(
                LookupAccessTokenProviderView { initial_token: None, ..p },
            ),
        }
    }

    /// What starting a refresh comes to.
    pub open spec fn refresh(self) -> TokenStepView {
        match self {
            AccessTokenProviderView::Static(t) => TokenStepView::Ready(Ok(t)),
            AccessTokenProviderView::Lookup(p) => match p.initial_token {
                Some(token) => TokenStepView::Ready(Ok(token)),
                None => TokenStepView::Lookup(token_request(p.locator)),
            },
        }
    }
}

impl AccessTokenProvider {
    /// Starts a refresh with whichever provider this is.
    pub fn refresh_token(&mut self) -> (r: TokenStep)
        ensures
            final(self)@ == old(self)@.refreshed(),
            r@ == old(self)@.refresh(),
    {
        match self {
            AccessTokenProvider::Static(p) => TokenStep::Ready(p.refresh_token()),
            AccessTokenProvider::Lookup(p) => p.refresh_token(),
        }
    }
}

} // verus!
