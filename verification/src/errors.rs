//! The failures that the tunnel engine reports to its caller.

use vstd::prelude::*;
use vstd::string::*;

verus! {

/// Status with which the management service says that a tunnel is unknown.
pub const NOT_FOUND: u16 = 404;

/// Status with which the management service refuses access to a tunnel.
pub const FORBIDDEN: u16 = 403;

/// Status with which the management service says that the quota is used up.
pub const TOO_MANY_REQUESTS: u16 = 429;

/// A failed call of the management service. `status` is the HTTP status of
/// the answer, if there was one; `body` is what the failure said.
#[derive(Debug, PartialEq, Eq)]
pub struct HttpError {
    pub status: Option<u16>,
    pub body: String,
}

/// The mathematical value of an `HttpError`.
pub struct HttpErrorView {
    pub status: Option<u16>,
    pub body: Seq<char>,
}

impl View for HttpError {
    type V = HttpErrorView;

    open spec fn view(&self) -> HttpErrorView {
        HttpErrorView { status: self.status, body: self.body@ }
    }
}

impl Clone for HttpError {
    fn clone(&self) -> (r: Self)
        ensures
            r == *self,
    {
        HttpError { status: self.status, body: self.body.clone() }
    }
}

impl HttpErrorView {
    /// The failure is an answer with exactly this status.
    pub open spec fn has_status(self, code: u16) -> bool {
        self.status == Some(code)
    }

    /// The tunnel asked for is gone or out of reach, which the engine treats
    /// as a tunnel that does not exist.
    pub open spec fn means_missing(self) -> bool {
        self.has_status(NOT_FOUND) || self.has_status(FORBIDDEN)
    }
}

impl HttpError {
    /// Tells whether the failure is an answer with status `code`.
    pub fn has_status(&self, code: u16) -> (r: bool)
        ensures
            r == self@.has_status(code),
    {
        match self.status {
            Some(s) => s == code,
            None => false,
        }
    }

    /// Tells whether the failure stands for a missing tunnel.
    pub fn means_missing(&self) -> (r: bool)
        ensures
            r == self@.means_missing(),
    {
        self.has_status(NOT_FOUND) || self.has_status(FORBIDDEN)
    }
}

/// A failure together with what was being done when it happened.
#[derive(Debug, PartialEq, Eq)]
pub struct WrappedError {
    pub context: String,
    pub cause: String,
}

/// The mathematical value of a `WrappedError`.
pub struct WrappedErrorView {
    pub context: Seq<char>,
    pub cause: Seq<char>,
}

impl View for WrappedError {
    type V = WrappedErrorView;

    open spec fn view(&self) -> WrappedErrorView {
        WrappedErrorView { context: self.context@, cause: self.cause@ }
    }
}

impl Clone for WrappedError {
    fn clone(&self) -> (r: Self)
        ensures
            r == *self,
    {
        WrappedError { context: self.context.clone(), cause: self.cause.clone() }
    }
}

/// Every failure that an operation of the engine can end with.
#[derive(Debug, PartialEq, Eq)]
pub enum AnyError {
    /// A name failed the length or the character test.
    InvalidTunnelName(String),
    /// A tunnel could not be created, after any attempt to free a slot.
    TunnelCreationFailed { name: String, cause: String },
    /// A failure of the tunnel's own lifecycle.
    DevTunnelError(String),
    /// Another failure, with the place where it happened.
    WrappedError(WrappedError),
}

/// The mathematical value of an `AnyError`.
pub enum AnyErrorView {
    InvalidTunnelName(Seq<char>),
    TunnelCreationFailed { name: Seq<char>, cause: Seq<char> },
    DevTunnelError(Seq<char>),
    WrappedError(WrappedErrorView),
}

impl View for AnyError {
    type V = AnyErrorView;

    open spec fn view(&self) -> AnyErrorView {
        match self {
            AnyError::InvalidTunnelName(m) => AnyErrorView::InvalidTunnelName(m@),
            AnyError::TunnelCreationFailed { name, cause } => AnyErrorView::TunnelCreationFailed {
                name: name@,
                cause: cause@,
            },
            AnyError::DevTunnelError(m) => AnyErrorView::DevTunnelError(m@),
            AnyError::WrappedError(w) => AnyErrorView::WrappedError(w@),
        }
    }
}

/// The value of a failure wrapped with its context.
pub open spec fn wrapped(cause: Seq<char>, context: Seq<char>) -> AnyErrorView {
    AnyErrorView::WrappedError(WrappedErrorView { context, cause })
}

/// Records `context` beside the text of a failure.
pub fn wrap(cause: String, context: &str) -> (r: WrappedError)
    ensures
        r@ == (WrappedErrorView { context: context@, cause: cause@ }),
{
    WrappedError { context: String::from_str(context), cause }
}

/// Wraps a failed call of the management service.
pub fn wrap_http(e: HttpError, context: &str) -> (r: AnyError)
    ensures
        r@ == wrapped(e@.body, context@),
{
    AnyError::WrappedError(wrap(e.body, context))
}

} // verus!
