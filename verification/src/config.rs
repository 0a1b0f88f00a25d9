//! Resolution of the login configuration from the values found in the
//! process environment.

use crate::error::{result_view, OAuthError, OAuthErrorView};
use crate::redirect::{parse_redirect, redirect_endpoint, Endpoint, EndpointView};
use crate::text::{is_trimmed, lemma_trimmed_is_trimmed, trim, trimmed};
use vstd::prelude::*;
use vstd::string::*;

verus! {

/// Name of the required configuration value that holds the client identifier.
pub const CLIENT_ID_VARIABLE: &'static str = "OAUTH_CLIENT_ID";

/// Name of the required configuration value that holds the client secret.
pub const CLIENT_SECRET_VARIABLE: &'static str = "OAUTH_CLIENT_SECRET";

/// Name of the optional configuration value that holds the redirect URI.
pub const REDIRECT_URI_VARIABLE: &'static str = "OAUTH_REDIRECT_URI";

/// The redirect URI used when none is configured.
pub const DEFAULT_REDIRECT_URI: &'static str = "http://localhost";

/// The three configuration values as the environment holds them; `None`
/// stands for a value that is absent. Like every type that holds the client
/// secret, it cannot be formatted for display or debugging.
#[derive(Clone, PartialEq, Eq)]
pub struct Environment {
    pub client_id: Option<String>,
    pub client_secret: Option<String>,
    pub redirect_uri: Option<String>,
}

/// Mathematical view of an [`Environment`].
pub struct EnvironmentView {
    pub client_id: Option<Seq<char>>,
    pub client_secret: Option<Seq<char>>,
    pub redirect_uri: Option<Seq<char>>,
}

impl View for Environment {
    type V = EnvironmentView;

    open spec fn view(&self) -> EnvironmentView {
        EnvironmentView {
            client_id: self.client_id.deep_view(),
            client_secret: self.client_secret.deep_view(),
            redirect_uri: self.redirect_uri.deep_view(),
        }
    }
}

/// The configuration of one login attempt. It is made by [`resolve_config`]
/// alone and never changes afterwards: both credentials are trimmed and not
/// empty, and the endpoint is the one that the redirect URI stands for.
#[derive(PartialEq, Eq)]
pub struct OAuthConfig {
    client_id: String,
    client_secret: String,
    redirect_uri: String,
    endpoint: Endpoint,
}

/// Mathematical view of an [`OAuthConfig`].
pub struct OAuthConfigView {
    pub client_id: Seq<char>,
    pub client_secret: Seq<char>,
    pub redirect_uri: Seq<char>,
    pub endpoint: EndpointView,
}

impl OAuthConfigView {
    /// What holds of every configuration: both credentials are trimmed and
    /// not empty, and the endpoint is the one the redirect URI stands for.
    pub open spec fn well_formed(self) -> bool {
        &&& self.client_id.len() > 0
        &&& is_trimmed(self.client_id)
        &&& self.client_secret.len() > 0
        &&& is_trimmed(self.client_secret)
        &&& redirect_endpoint(self.redirect_uri) == Ok::<EndpointView, OAuthErrorView>(
            self.endpoint,
        )
    }
}

impl View for OAuthConfig {
    type V = OAuthConfigView;

    closed spec fn view(&self) -> OAuthConfigView {
        OAuthConfigView {
            client_id: self.client_id@,
            client_secret: self.client_secret@,
            redirect_uri: self.redirect_uri@,
            endpoint: self.endpoint@,
        }
    }
}

impl OAuthConfig {
    #[verifier::type_invariant]
    spec fn holds_well_formed(self) -> bool {
        self@.well_formed()
    }

    /// The client identifier, trimmed.
    pub fn client_id(&self) -> (r: &str)
        ensures
            r@ == self@.client_id,
            self@.well_formed(),
    {
        proof {
            use_type_invariant(self);
        }
        self.client_id.as_str()
    }

    /// The client secret, trimmed.
    pub fn client_secret(&self) -> (r: &str)
        ensures
            r@ == self@.client_secret,
            self@.well_formed(),
    {
        proof {
            use_type_invariant(self);
        }
        self.client_secret.as_str()
    }

    /// The redirect URI as it was configured.
    pub fn redirect_uri(&self) -> (r: &str)
        ensures
            r@ == self@.redirect_uri,
            self@.well_formed(),
    {
        proof {
            use_type_invariant(self);
        }
        self.redirect_uri.as_str()
    }

    /// The endpoint that the redirect URI stands for.
    pub fn endpoint(&self) -> (r: &Endpoint)
        ensures
            r@ == self@.endpoint,
            self@.well_formed(),
    {
        proof {
            use_type_invariant(self);
        }
        &self.endpoint
    }
}

/// The value of the required configuration entry `name`: what the
/// environment holds, trimmed. An absent value and one that is empty once
/// trimmed are failures.
pub open spec fn required_value(name: Seq<char>, value: Option<Seq<char>>) -> Result<
    Seq<char>,
    OAuthErrorView,
> {
    match value {
        None => Err(OAuthErrorView::ConfigMissing { name }),
        Some(value) => if trimmed(value).len() == 0 {
            Err(OAuthErrorView::ConfigEmpty { name })
        } else {
            Ok(trimmed(value))
        },
    }
}

/// The configuration that an environment resolves to. The client identifier
/// is looked at first, then the client secret, then the redirect URI, and the
/// first failure is the result.
pub open spec fn resolved(env: EnvironmentView) -> Result<OAuthConfigView, OAuthErrorView> {
    let redirect_uri = match env.redirect_uri {
        Some(uri) => uri,
        None => DEFAULT_REDIRECT_URI@,
    };
    match (
        required_value(CLIENT_ID_VARIABLE@, env.client_id),
        required_value(CLIENT_SECRET_VARIABLE@, env.client_secret),
        redirect_endpoint(redirect_uri),
    ) {
        (Err(error), _, _) => Err(error),
        (Ok(_), Err(error), _) => Err(error),
        (Ok(_), Ok(_), Err(error)) => Err(error),
        (Ok(client_id), Ok(client_secret), Ok(endpoint)) => Ok(
            OAuthConfigView { client_id, client_secret, redirect_uri, endpoint },
        ),
    }
}

/// Every configuration that an environment resolves to is well formed.
pub proof fn lemma_resolved_is_well_formed(env: EnvironmentView)
    ensures
        resolved(env) matches Ok(config) ==> config.well_formed(),
{
    if let Some(value) = env.client_id {
        lemma_trimmed_is_trimmed(value);
    }
    if let Some(value) = env.client_secret {
        lemma_trimmed_is_trimmed(value);
    }
}

/// Resolves the required configuration entry `name` from what the
/// environment holds for it.
pub fn resolve_required(name: &str, value: Option<String>) -> (r: Result<String, OAuthError>)
    ensures
        result_view(r) == required_value(name@, value.deep_view()),
{
    match value {
        None => Err(OAuthError::ConfigMissing { name: String::from_str(name) }),
        Some(value) => {
            let value = trim(value.as_str());
            if value.as_str().is_empty() {
                Err(OAuthError::ConfigEmpty { name: String::from_str(name) })
            } else {
                Ok(value)
            }
        },
    }
}

/// Resolves the configuration of a login attempt from the environment.
pub fn resolve_config(env: Environment) -> (r: Result<OAuthConfig, OAuthError>)
    ensures
        result_view(r) == resolved(env@),
{
    let Environment { client_id, client_secret, redirect_uri } = env;
    let client_id = match resolve_required(CLIENT_ID_VARIABLE, client_id) {
        Ok(value) => value,
        Err(error) => {
            return Err(error);
        },
    };
    let client_secret = match resolve_required(CLIENT_SECRET_VARIABLE, client_secret) {
        Ok(value) => value,
        Err(error) => {
            return Err(error);
        },
    };
    let redirect_uri = match redirect_uri {
        Some(uri) => uri,
        None => String::from_str(DEFAULT_REDIRECT_URI),
    };
    let endpoint = match parse_redirect(redirect_uri.as_str()) {
        Ok(endpoint) => endpoint,
        Err(error) => {
            return Err(error);
        },
    };
    proof {
        lemma_resolved_is_well_formed(env@);
    }
    Ok(OAuthConfig { client_id, client_secret, redirect_uri, endpoint })
}

} // verus!
