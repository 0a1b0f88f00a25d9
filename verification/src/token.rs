//! The token exchange: the request that trades the authorization code for an
//! identity token, and the reading of the provider's answer.

use crate::config::{OAuthConfig, OAuthConfigView};
use crate::error::{result_view, OAuthError, OAuthErrorView};
use vstd::prelude::*;
use vstd::string::*;

verus! {

/// The provider's token endpoint.
pub const TOKEN_ENDPOINT: &'static str = "https://oauth2.googleapis.com/token";

/// The grant type of the exchange.
pub const GRANT_TYPE: &'static str = "authorization_code";

/// Name of the field of the answer that holds the identity token.
pub const ID_TOKEN_FIELD: &'static str = "id_token";

impl OAuthConfigView {
    /// The form fields of the token request for `code`, in the order in
    /// which they are sent.
    pub open spec fn token_request(self, code: Seq<char>) -> Seq<(Seq<char>, Seq<char>)> {
        seq![
            ("code"@, code),
            ("client_id"@, self.client_id),
            ("client_secret"@, self.client_secret),
            ("redirect_uri"@, self.redirect_uri),
            ("grant_type"@, GRANT_TYPE@),
        ]
    }
}

impl OAuthConfig {
    /// The form fields of the token request for `code`.
    pub fn token_request(&self, code: &str) -> (r: Vec<(String, String)>)
        ensures
            r.deep_view() == self@.token_request(code@),
    {
        let mut r: Vec<(String, String)> = Vec::new();
        r.push((String::from_str("code"), String::from_str(code)));
        r.push((String::from_str("client_id"), String::from_str(self.client_id())));
        r.push((String::from_str("client_secret"), String::from_str(self.client_secret())));
        r.push((String::from_str("redirect_uri"), String::from_str(self.redirect_uri())));
        r.push((String::from_str("grant_type"), String::from_str(GRANT_TYPE)));
        assert(r.deep_view() =~= self@.token_request(code@));
        r
    }
}

/// What reading the field `name` of the JSON text `body` gives: the parser's
/// message where `body` is not JSON; otherwise the string held under `name`,
/// where `body` is an object that holds a string there.
pub uninterp spec fn json_string_field(body: Seq<char>, name: Seq<char>) -> Result<
    Option<Seq<char>>,
    Seq<char>,
>;

/// `serde_json::from_str` into a `serde_json::Value`, read with `Value::get`
/// and `Value::as_str`, and with a parse error handed out through its
/// `Display` text. The contract only names the outcome
/// [`json_string_field`]: the same body and name always give the same answer.
#[verifier::external_body]
pub(crate) fn read_string_field(body: &str, name: &str) -> (r: Result<Option<String>, String>)
    ensures
        match r {
            Ok(field) => json_string_field(body@, name@) == Ok::<Option<Seq<char>>, Seq<char>>(
                field.deep_view(),
            ),
            Err(reason) => json_string_field(body@, name@) == Err::<Option<Seq<char>>, Seq<char>>(
                reason@,
            ),
        },
{
    match serde_json::from_str::<serde_json::Value>(body) {
        Ok(value) => Ok(value.get(name).and_then(|field| field.as_str()).map(|s| s.to_string())),
        Err(error) => Err(error.to_string()),
    }
}

/// Whether an HTTP status is in the success range.
pub open spec fn is_success(status: u16) -> bool {
    200 <= status <= 299
}

/// The identity token in an answer `body` whose `id_token` field read as
/// `field`: the string found there, unless it is empty.
pub open spec fn id_token_in(
    body: Seq<char>,
    field: Result<Option<Seq<char>>, Seq<char>>,
) -> Result<Seq<char>, OAuthErrorView> {
    match field {
        Err(reason) => Err(OAuthErrorView::MalformedResponse { reason }),
        Ok(None) => Err(OAuthErrorView::MissingIdToken { body }),
        Ok(Some(token)) => if token.len() > 0 {
            Ok(token)
        } else {
            Err(OAuthErrorView::MissingIdToken { body })
        },
    }
}

/// The outcome of the exchange when the token endpoint answers with `status`
/// and `body`. The status is looked at first: outside the success range the
/// body is kept as it came and not read.
pub open spec fn token_outcome(status: u16, body: Seq<char>) -> Result<Seq<char>, OAuthErrorView> {
    if is_success(status) {
        id_token_in(body, json_string_field(body, ID_TOKEN_FIELD@))
    } else {
        Err(OAuthErrorView::TokenEndpointError { status, body })
    }
}

/// An answer outside the success range is a `TokenEndpointError` that holds
/// the status and the body as they came, whatever the body is; an answer
/// inside it never is.
pub proof fn law_status_is_looked_at_first(status: u16, body: Seq<char>)
    ensures
        !is_success(status) ==> token_outcome(status, body) == Err::<Seq<char>, OAuthErrorView>(
            OAuthErrorView::TokenEndpointError { status, body },
        ),
        is_success(status) ==> !(token_outcome(status, body) matches Err(
            OAuthErrorView::TokenEndpointError { .. },
        )),
{
}

/// The view of what reading a string field gave.
pub open spec fn field_view(field: Result<Option<String>, String>) -> Result<
    Option<Seq<char>>,
    Seq<char>,
> {
    match field {
        Ok(value) => Ok(value.deep_view()),
        Err(reason) => Err(reason@),
    }
}

/// The identity token in an answer `body` whose `id_token` field read as
/// `field`.
pub fn id_token_from(body: String, field: Result<Option<String>, String>) -> (r: Result<
    String,
    OAuthError,
>)
    ensures
        result_view(r) == id_token_in(body@, field_view(field)),
        r matches Ok(token) ==> token@.len() > 0,
{
    match field {
        Err(reason) => Err(OAuthError::MalformedResponse { reason }),
        Ok(None) => Err(OAuthError::MissingIdToken { body }),
        Ok(Some(token)) => if token.as_str().is_empty() {
            Err(OAuthError::MissingIdToken { body })
        } else {
            Ok(token)
        },
    }
}

/// Reads the answer of the token endpoint.
pub fn interpret_token_response(status: u16, body: String) -> (r: Result<String, OAuthError>)
    ensures
        result_view(r) == token_outcome(status, body@),
        r matches Ok(token) ==> token@.len() > 0,
{
    if 200 <= status && status <= 299 {
        let field = read_string_field(body.as_str(), ID_TOKEN_FIELD);
        id_token_from(body, field)
    } else {
        Err(OAuthError::TokenEndpointError { status, body })
    }
}

} // verus!
