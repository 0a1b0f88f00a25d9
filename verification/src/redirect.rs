//! The redirect URI as a network endpoint: which scheme, host and port the
//! loopback listener stands for.

use crate::error::{
    result_view, OAuthError, OAuthErrorView, RedirectProblem, RedirectProblemView,
};
use crate::text::{decimal, decimal_text, text_eq};
use vstd::prelude::*;
use vstd::string::*;

verus! {

/// What the flow reads from a parsed URL.
#[derive(Debug, Clone, PartialEq, Eq)]
pub struct UrlParts {
    /// The scheme, without the `:` that follows it.
    pub scheme: String,
    /// The host as the URL writes it, where it has one.
    pub host: Option<String>,
    /// The port, where the URL names one that is not its scheme's default.
    pub port: Option<u16>,
    /// The decoded name/value pairs of the query, in order.
    pub query_pairs: Vec<(String, String)>,
}

/// Mathematical view of [`UrlParts`].
pub struct UrlPartsView {
    pub scheme: Seq<char>,
    pub host: Option<Seq<char>>,
    pub port: Option<u16>,
    pub query_pairs: Seq<(Seq<char>, Seq<char>)>,
}

impl View for UrlParts {
    type V = UrlPartsView;

    open spec fn view(&self) -> UrlPartsView {
        UrlPartsView {
            scheme: self.scheme@,
            host: self.host.deep_view(),
            port: self.port,
            query_pairs: self.query_pairs.deep_view(),
        }
    }
}

/// What parsing `text` as an absolute URL gives: the parts of the URL, or the
/// parser's message where `text` is not one.
pub uninterp spec fn url_parse(text: Seq<char>) -> Result<UrlPartsView, Seq<char>>;

/// `Url::parse` of the `url` crate, with the parsed URL handed out through
/// its accessors `scheme`, `host_str`, `port` and `query_pairs`, and a parse
/// error through its `Display` text. The contract only names the outcome
/// [`url_parse`]: the same text always parses to the same parts or fails with
/// the same message.
#[verifier::external_body]
pub(crate) fn parse_url(text: &str) -> (r: Result<UrlParts, String>)
    ensures
        match r {
            Ok(parts) => url_parse(text@) == Ok::<UrlPartsView, Seq<char>>(parts@),
            Err(reason) => url_parse(text@) == Err::<UrlPartsView, Seq<char>>(reason@),
        },
{
    match url::Url::parse(text) {
        Ok(parsed) => Ok(
            UrlParts {
                scheme: parsed.scheme().to_string(),
                host: parsed.host_str().map(|host| host.to_string()),
                port: parsed.port(),
                query_pairs: parsed.query_pairs().into_owned().collect(),
            },
        ),
        Err(error) => Err(error.to_string()),
    }
}

/// The port that a scheme implies when a URL names none.
pub open spec fn default_port(scheme: Seq<char>) -> Option<u16> {
    if scheme == "http"@ || scheme == "ws"@ {
        Some(80u16)
    } else if scheme == "https"@ || scheme == "wss"@ {
        Some(443u16)
    } else if scheme == "ftp"@ {
        Some(21u16)
    } else {
        None
    }
}

/// The port that a scheme implies when a URL names none.
pub fn known_default_port(scheme: &str) -> (r: Option<u16>)
    ensures
        r == default_port(scheme@),
{
    if text_eq(scheme, "http") || text_eq(scheme, "ws") {
        Some(80)
    } else if text_eq(scheme, "https") || text_eq(scheme, "wss") {
        Some(443)
    } else if text_eq(scheme, "ftp") {
        Some(21)
    } else {
        None
    }
}

/// The scheme, host and port that a redirect URI stands for.
#[derive(Debug, Clone, PartialEq, Eq)]
pub struct Endpoint {
    pub scheme: String,
    pub host: String,
    pub port: u16,
}

/// Mathematical view of an [`Endpoint`].
pub struct EndpointView {
    pub scheme: Seq<char>,
    pub host: Seq<char>,
    pub port: u16,
}

impl View for Endpoint {
    type V = EndpointView;

    open spec fn view(&self) -> EndpointView {
        EndpointView { scheme: self.scheme@, host: self.host@, port: self.port }
    }
}

impl EndpointView {
    /// The address the listener binds to: `host:port`.
    pub open spec fn bind_address(self) -> Seq<char> {
        self.host + ":"@ + decimal(self.port as nat)
    }

    /// The start of every URL served at this endpoint: `scheme://host:port`.
    pub open spec fn origin(self) -> Seq<char> {
        self.scheme + "://"@ + self.bind_address()
    }
}

impl Endpoint {
    /// The address the listener binds to: `host:port`.
    pub fn bind_address(&self) -> (r: String)
        ensures
            r@ == self@.bind_address(),
    {
        let mut r = self.host.clone();
        r.append(":");
        let port = decimal_text(self.port);
        r.append(port.as_str());
        r
    }

    /// The start of every URL served at this endpoint: `scheme://host:port`.
    pub fn origin(&self) -> (r: String)
        ensures
            r@ == self@.origin(),
    {
        let mut r = self.scheme.clone();
        r.append("://");
        let address = self.bind_address();
        r.append(address.as_str());
        assert(self.scheme@ + "://"@ + self@.bind_address() =~= self@.origin());
        r
    }
}

impl UrlPartsView {
    /// The port of the URL: its own, or else the default of its scheme.
    pub open spec fn port_or_default(self) -> Option<u16> {
        match self.port {
            Some(port) => Some(port),
            None => default_port(self.scheme),
        }
    }

    /// The endpoint that the URL stands for. A URL without a host, or without
    /// a port and with a scheme that implies none, stands for no endpoint.
    pub open spec fn endpoint(self) -> Result<EndpointView, OAuthErrorView> {
        match (self.host, self.port_or_default()) {
            (None, _) => Err(
                OAuthErrorView::ConfigInvalid { problem: RedirectProblemView::NoHost },
            ),
            (Some(_), None) => Err(
                OAuthErrorView::ConfigInvalid { problem: RedirectProblemView::NoPort },
            ),
            (Some(host), Some(port)) => Ok(EndpointView { scheme: self.scheme, host, port }),
        }
    }
}

/// The endpoint that the redirect URI `uri` stands for.
pub open spec fn redirect_endpoint(uri: Seq<char>) -> Result<EndpointView, OAuthErrorView> {
    match url_parse(uri) {
        Ok(parts) => parts.endpoint(),
        Err(reason) => Err(
            OAuthErrorView::ConfigInvalid { problem: RedirectProblemView::Unparsable { reason } },
        ),
    }
}

/// Resolves the endpoint of a parsed URL.
pub fn resolve_endpoint(parts: UrlParts) -> (r: Result<Endpoint, OAuthError>)
    ensures
        result_view(r) == parts@.endpoint(),
{
    let UrlParts { scheme, host, port, query_pairs: _ } = parts;
    let host = match host {
        Some(host) => host,
        None => {
            return Err(OAuthError::ConfigInvalid { problem: RedirectProblem::NoHost });
        },
    };
    let port = match port {
        Some(port) => port,
        None => match known_default_port(scheme.as_str()) {
            Some(port) => port,
            None => {
                return Err(OAuthError::ConfigInvalid { problem: RedirectProblem::NoPort });
            },
        },
    };
    Ok(Endpoint { scheme, host, port })
}

/// Resolves the endpoint of a redirect URI.
pub fn parse_redirect(uri: &str) -> (r: Result<Endpoint, OAuthError>)
    ensures
        result_view(r) == redirect_endpoint(uri@),
{
    match parse_url(uri) {
        Ok(parts) => resolve_endpoint(parts),
        Err(reason) => Err(
            OAuthError::ConfigInvalid { problem: RedirectProblem::Unparsable { reason } },
        ),
    }
}

/// A URL that names a host and no port of its own resolves to the default
/// port of its scheme: 80 for `http`, 443 for `https`.
pub proof fn law_default_port(parts: UrlPartsView)
    requires
        parts.host is Some,
        parts.port is None,
    ensures
        parts.scheme == "http"@ ==> parts.endpoint() is Ok && parts.endpoint()->Ok_0.port == 80,
        parts.scheme == "https"@ ==> parts.endpoint() is Ok && parts.endpoint()->Ok_0.port == 443,
        parts.endpoint() matches Ok(endpoint) ==> Some(endpoint.port) == default_port(
            parts.scheme,
        ),
{
    reveal_strlit("http");
    reveal_strlit("https");
    reveal_strlit("ws");
    reveal_strlit("wss");
    reveal_strlit("ftp");
    assert("http"@.len() == 4 && "https"@.len() == 5 && "ws"@.len() == 2);
}

} // verus!
