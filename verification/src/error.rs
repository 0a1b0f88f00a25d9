//! The ways a login attempt can fail. Every failure ends the attempt: nothing
//! is retried, and the caller starts a new attempt if it wants one.

use crate::config::REDIRECT_URI_VARIABLE;
use crate::text::{decimal, decimal_text};
use vstd::prelude::*;
use vstd::string::*;

verus! {

/// Why a redirect URI cannot be used as the loopback target.
#[derive(Debug, Clone, PartialEq, Eq)]
pub enum RedirectProblem {
    /// The text is not an absolute URL; `reason` is the parser's message.
    Unparsable { reason: String },
    /// The URL names no host to bind to.
    NoHost,
    /// The URL names no port and its scheme has no default one.
    NoPort,
}

/// A failed login attempt.
#[derive(Debug, Clone, PartialEq, Eq)]
pub enum OAuthError {
    /// The required configuration value `name` is absent.
    ConfigMissing { name: String },
    /// The required configuration value `name` is empty once trimmed.
    ConfigEmpty { name: String },
    /// The redirect URI cannot serve as the loopback target.
    ConfigInvalid { problem: RedirectProblem },
    /// The loopback listener could not be bound.
    BindFailure { reason: String },
    /// The system browser could not be opened.
    LaunchFailure { reason: String },
    /// Accepting the callback or answering it failed.
    CallbackIOError { reason: String },
    /// The callback carried no usable authorization code.
    MissingAuthorizationCode,
    /// The token endpoint could not be reached.
    NetworkError { reason: String },
    /// The token endpoint answered outside the success range.
    TokenEndpointError { status: u16, body: String },
    /// The token endpoint's body is not JSON.
    MalformedResponse { reason: String },
    /// The token endpoint's JSON holds no identity token.
    MissingIdToken { body: String },
}

/// Mathematical view of a [`RedirectProblem`].
pub enum RedirectProblemView {
    Unparsable { reason: Seq<char> },
    NoHost,
    NoPort,
}

/// Mathematical view of an [`OAuthError`].
pub enum OAuthErrorView {
    ConfigMissing { name: Seq<char> },
    ConfigEmpty { name: Seq<char> },
    ConfigInvalid { problem: RedirectProblemView },
    BindFailure { reason: Seq<char> },
    LaunchFailure { reason: Seq<char> },
    CallbackIOError { reason: Seq<char> },
    MissingAuthorizationCode,
    NetworkError { reason: Seq<char> },
    TokenEndpointError { status: u16, body: Seq<char> },
    MalformedResponse { reason: Seq<char> },
    MissingIdToken { body: Seq<char> },
}

impl View for RedirectProblem {
    type V = RedirectProblemView;

    open spec fn view(&self) -> RedirectProblemView {
        match self {
            RedirectProblem::Unparsable { reason } => RedirectProblemView::Unparsable {
                reason: reason@,
            },
            RedirectProblem::NoHost => RedirectProblemView::NoHost,
            RedirectProblem::NoPort => RedirectProblemView::NoPort,
        }
    }
}

impl View for OAuthError {
    type V = OAuthErrorView;

    open spec fn view(&self) -> OAuthErrorView {
        match self {
            OAuthError::ConfigMissing { name } => OAuthErrorView::ConfigMissing { name: name@ },
            OAuthError::ConfigEmpty { name } => OAuthErrorView::ConfigEmpty { name: name@ },
            OAuthError::ConfigInvalid { problem } => OAuthErrorView::ConfigInvalid {
                problem: problem@,
            },
            OAuthError::BindFailure { reason } => OAuthErrorView::BindFailure { reason: reason@ },
            OAuthError::LaunchFailure { reason } => OAuthErrorView::LaunchFailure {
                reason: reason@,
            },
            OAuthError::CallbackIOError { reason } => OAuthErrorView::CallbackIOError {
                reason: reason@,
            },
            OAuthError::MissingAuthorizationCode => OAuthErrorView::MissingAuthorizationCode,
            OAuthError::NetworkError { reason } => OAuthErrorView::NetworkError { reason: reason@ },
            OAuthError::TokenEndpointError { status, body } => OAuthErrorView::TokenEndpointError {
                status: *status,
                body: body@,
            },
            OAuthError::MalformedResponse { reason } => OAuthErrorView::MalformedResponse {
                reason: reason@,
            },
            OAuthError::MissingIdToken { body } => OAuthErrorView::MissingIdToken { body: body@ },
        }
    }
}

/// The view of a result whose two sides have views.
pub open spec fn result_view<T: View, E: View>(r: Result<T, E>) -> Result<T::V, E::V> {
    match r {
        Ok(value) => Ok(value@),
        Err(error) => Err(error@),
    }
}

impl RedirectProblemView {
    /// The message shown for this problem.
    pub open spec fn describe(self) -> Seq<char> {
        match self {
            RedirectProblemView::Unparsable { reason } => reason,
            RedirectProblemView::NoHost => REDIRECT_URI_VARIABLE@ + " no tiene host valido."@,
            RedirectProblemView::NoPort => REDIRECT_URI_VARIABLE@ + " no tiene puerto valido."@,
        }
    }
}

impl OAuthErrorView {
    /// The message shown for this failure. Messages that quote the provider
    /// carry its raw body; none is built from the client secret.
    pub open spec fn describe(self) -> Seq<char> {
        match self {
            OAuthErrorView::ConfigMissing { name } => "Falta variable de entorno requerida: "@
                + name,
            OAuthErrorView::ConfigEmpty { name } => "La variable de entorno "@ + name
                + " esta vacia."@,
            OAuthErrorView::ConfigInvalid { problem } => problem.describe(),
            OAuthErrorView::BindFailure { reason } => reason,
            OAuthErrorView::LaunchFailure { reason } => reason,
            OAuthErrorView::CallbackIOError { reason } => reason,
            OAuthErrorView::MissingAuthorizationCode => {
                "No se recibio codigo OAuth en el redirect."@
            },
            OAuthErrorView::NetworkError { reason } => reason,
            OAuthErrorView::TokenEndpointError { status, body } => "OAuth token endpoint error "@
                + decimal(status as nat) + ": "@ + body,
            OAuthErrorView::MalformedResponse { reason } => reason,
            OAuthErrorView::MissingIdToken { body } => "Respuesta OAuth sin id_token: "@ + body,
        }
    }
}

impl RedirectProblem {
    /// The message shown for this problem.
    pub fn describe(&self) -> (r: String)
        ensures
            r@ == self@.describe(),
    {
        match self {
            RedirectProblem::Unparsable { reason } => reason.clone(),
            RedirectProblem::NoHost => {
                let mut r = String::from_str(REDIRECT_URI_VARIABLE);
                r.append(" no tiene host valido.");
                r
            },
            RedirectProblem::NoPort => {
                let mut r = String::from_str(REDIRECT_URI_VARIABLE);
                r.append(" no tiene puerto valido.");
                r
            },
        }
    }
}

impl OAuthError {
    /// The message shown to the caller for this failure.
    pub fn describe(&self) -> (r: String)
        ensures
            r@ == self@.describe(),
    {
        match self {
            OAuthError::ConfigMissing { name } => {
                let mut r = String::from_str("Falta variable de entorno requerida: ");
                r.append(name.as_str());
                r
            },
            OAuthError::ConfigEmpty { name } => {
                let mut r = String::from_str("La variable de entorno ");
                r.append(name.as_str());
                r.append(" esta vacia.");
                r
            },
            OAuthError::ConfigInvalid { problem } => problem.describe(),
            OAuthError::BindFailure { reason } => reason.clone(),
            OAuthError::LaunchFailure { reason } => reason.clone(),
            OAuthError::CallbackIOError { reason } => reason.clone(),
            OAuthError::MissingAuthorizationCode => String::from_str(
                "No se recibio codigo OAuth en el redirect.",
            ),
            OAuthError::NetworkError { reason } => reason.clone(),
            OAuthError::TokenEndpointError { status, body } => {
                let mut r = String::from_str("OAuth token endpoint error ");
                let code = decimal_text(*status);
                r.append(code.as_str());
                r.append(": ");
                r.append(body.as_str());
                r
            },
            OAuthError::MalformedResponse { reason } => reason.clone(),
            OAuthError::MissingIdToken { body } => {
                let mut r = String::from_str("Respuesta OAuth sin id_token: ");
                r.append(body.as_str());
                r
            },
        }
    }
}

} // verus!
