//! The authorization request: the URL at which the user grants access in the
//! system browser.

use crate::config::{OAuthConfig, OAuthConfigView};
use crate::form::{
    form_encode, is_word_char, lemma_form_encode_chars, lemma_form_encode_words,
    lemma_query_string_push, plus_for_space, query_string, serialize_pairs, with_pair,
};
use vstd::prelude::*;
use vstd::string::*;

verus! {

/// The provider's authorization endpoint.
pub const AUTHORIZATION_ENDPOINT: &'static str = "https://accounts.google.com/o/oauth2/v2/auth";

/// The response type asked for: an authorization code.
pub const RESPONSE_TYPE: &'static str = "code";

/// The scopes asked for.
pub const SCOPE: &'static str = "openid email profile";

impl OAuthConfigView {
    /// The parameters of the authorization request, in the order in which
    /// they are written.
    pub open spec fn authorization_parameters(self) -> Seq<(Seq<char>, Seq<char>)> {
        seq![
            ("client_id"@, self.client_id),
            ("redirect_uri"@, self.redirect_uri),
            ("response_type"@, RESPONSE_TYPE@),
            ("scope"@, SCOPE@),
        ]
    }

    /// The authorization URL: the endpoint, `?`, and the serialized
    /// parameters.
    pub open spec fn authorization_url(self) -> Seq<char> {
        AUTHORIZATION_ENDPOINT@ + "?"@ + query_string(self.authorization_parameters())
    }
}

impl OAuthConfig {
    /// The parameters of the authorization request. The redirect URI is the
    /// configured text, not a normalized form of it.
    pub fn authorization_parameters(&self) -> (r: Vec<(String, String)>)
        ensures
            r.deep_view() == self@.authorization_parameters(),
    {
        let mut r: Vec<(String, String)> = Vec::new();
        r.push((String::from_str("client_id"), String::from_str(self.client_id())));
        r.push((String::from_str("redirect_uri"), String::from_str(self.redirect_uri())));
        r.push((String::from_str("response_type"), String::from_str(RESPONSE_TYPE)));
        r.push((String::from_str("scope"), String::from_str(SCOPE)));
        assert(r.deep_view() =~= self@.authorization_parameters());
        r
    }

    /// The URL to open in the system browser.
    pub fn authorization_url(&self) -> (r: String)
        ensures
            r@ == self@.authorization_url(),
    {
        let parameters = self.authorization_parameters();
        let query = serialize_pairs(&parameters);
        let mut r = String::from_str(AUTHORIZATION_ENDPOINT);
        r.append("?");
        r.append(query.as_str());
        r
    }
}

/// The authorization URL holds the four parameters `client_id`,
/// `redirect_uri`, `response_type=code` and `scope=openid email profile`, the
/// two configured values in their serialized form. The serialized values hold
/// none of `&`, `=`, `?` and `#`, so each parameter ends where the next
/// begins.
pub proof fn law_authorization_url(config: OAuthConfigView)
    ensures
        config.authorization_url() == AUTHORIZATION_ENDPOINT@ + "?client_id="@ + form_encode(
            config.client_id,
        ) + "&redirect_uri="@ + form_encode(config.redirect_uri)
            + "&response_type=code&scope=openid+email+profile"@,
        !form_encode(config.client_id).contains('&') && !form_encode(config.client_id).contains(
            '=',
        ) && !form_encode(config.client_id).contains('#'),
        !form_encode(config.redirect_uri).contains('&') && !form_encode(
            config.redirect_uri,
        ).contains('=') && !form_encode(config.redirect_uri).contains('#'),
{
    lemma_form_encode_chars(config.client_id);
    lemma_form_encode_chars(config.redirect_uri);
    lemma_authorization_query(config);
    assert("?"@ + "client_id="@ =~= "?client_id="@) by {
        reveal_strlit("?");
        reveal_strlit("client_id=");
        reveal_strlit("?client_id=");
    }
    let id = form_encode(config.client_id);
    let uri = form_encode(config.redirect_uri);
    assert(config.authorization_url() =~= AUTHORIZATION_ENDPOINT@ + ("?"@ + "client_id="@) + id
        + "&redirect_uri="@ + uri + "&response_type=code&scope=openid+email+profile"@);
}

/// `query` followed by a pair whose name and value serialize to `name` and
/// `value`.
proof fn lemma_next_pair(
    query: Seq<char>,
    name: Seq<char>,
    value: Seq<char>,
    encoded_name: Seq<char>,
    encoded_value: Seq<char>,
)
    requires
        query.len() > 0,
        form_encode(name) == encoded_name,
        form_encode(value) == encoded_value,
    ensures
        with_pair(query, name, value) == query + seq!['&'] + encoded_name + seq!['=']
            + encoded_value,
{
    assert(query.push('&') =~= query + seq!['&']);
}

/// The query string of the authorization request, pair after pair.
proof fn lemma_authorization_pairs(config: OAuthConfigView)
    ensures
        query_string(config.authorization_parameters()) == with_pair(
            with_pair(
                with_pair(
                    with_pair(Seq::empty(), "client_id"@, config.client_id),
                    "redirect_uri"@,
                    config.redirect_uri,
                ),
                "response_type"@,
                RESPONSE_TYPE@,
            ),
            "scope"@,
            SCOPE@,
        ),
{
    let none = Seq::<(Seq<char>, Seq<char>)>::empty();
    let one = none.push(("client_id"@, config.client_id));
    let two = one.push(("redirect_uri"@, config.redirect_uri));
    let three = two.push(("response_type"@, RESPONSE_TYPE@));
    let four = three.push(("scope"@, SCOPE@));
    assert(four =~= config.authorization_parameters());
    lemma_query_string_push(none, "client_id"@, config.client_id);
    lemma_query_string_push(one, "redirect_uri"@, config.redirect_uri);
    lemma_query_string_push(two, "response_type"@, RESPONSE_TYPE@);
    lemma_query_string_push(three, "scope"@, SCOPE@);
}

proof fn lemma_authorization_query(config: OAuthConfigView)
    ensures
        query_string(config.authorization_parameters()) == "client_id="@ + form_encode(
            config.client_id,
        ) + "&redirect_uri="@ + form_encode(config.redirect_uri)
            + "&response_type=code&scope=openid+email+profile"@,
{
    lemma_authorization_pairs(config);
    lemma_fixed_texts();
    lemma_fixed_joins();
    let id = form_encode(config.client_id);
    let uri = form_encode(config.redirect_uri);
    let q1 = with_pair(Seq::empty(), "client_id"@, config.client_id);
    let q2 = with_pair(q1, "redirect_uri"@, config.redirect_uri);
    let q3 = with_pair(q2, "response_type"@, RESPONSE_TYPE@);
    let q4 = with_pair(q3, "scope"@, SCOPE@);
    assert(q1 =~= "client_id="@ + id && q1.len() > 0);
    lemma_next_pair(q1, "redirect_uri"@, config.redirect_uri, "redirect_uri"@, uri);
    lemma_next_pair(q2, "response_type"@, RESPONSE_TYPE@, "response_type"@, "code"@);
    lemma_next_pair(q3, "scope"@, SCOPE@, "scope"@, "openid+email+profile"@);
    assert(q2 =~= q1 + "&redirect_uri="@ + uri);
    assert(q4 =~= q2 + (seq!['&'] + "response_type"@ + seq!['='] + "code"@ + seq!['&'] + "scope"@
        + seq!['='] + "openid+email+profile"@));
}

/// How the fixed pieces of the query string join up.
proof fn lemma_fixed_joins()
    ensures
        "client_id"@ + seq!['='] == "client_id="@,
        seq!['&'] + "redirect_uri"@ + seq!['='] == "&redirect_uri="@,
        seq!['&'] + "response_type"@ + seq!['='] + "code"@ + seq!['&'] + "scope"@ + seq!['=']
            + "openid+email+profile"@ == "&response_type=code&scope=openid+email+profile"@,
{
    reveal_strlit("client_id");
    reveal_strlit("client_id=");
    reveal_strlit("redirect_uri");
    reveal_strlit("&redirect_uri=");
    reveal_strlit("response_type");
    reveal_strlit("code");
    reveal_strlit("scope");
    reveal_strlit("openid+email+profile");
    reveal_strlit("&response_type=code&scope=openid+email+profile");
    assert("client_id"@ + seq!['='] =~= "client_id="@);
    assert(seq!['&'] + "redirect_uri"@ + seq!['='] =~= "&redirect_uri="@);
    assert(seq!['&'] + "response_type"@ + seq!['='] + "code"@ + seq!['&'] + "scope"@ + seq!['=']
        + "openid+email+profile"@ =~= "&response_type=code&scope=openid+email+profile"@);
}

/// The fixed names and values of the authorization request serialize to
/// themselves, but for the spaces of the scope.
proof fn lemma_fixed_texts()
    ensures
        form_encode("client_id"@) == "client_id"@,
        form_encode("redirect_uri"@) == "redirect_uri"@,
        form_encode("response_type"@) == "response_type"@,
        form_encode("scope"@) == "scope"@,
        form_encode(RESPONSE_TYPE@) == "code"@,
        form_encode(SCOPE@) == "openid+email+profile"@,
{
    reveal_strlit("client_id");
    reveal_strlit("redirect_uri");
    reveal_strlit("response_type");
    reveal_strlit("scope");
    reveal_strlit("code");
    reveal_strlit("openid email profile");
    reveal_strlit("openid+email+profile");
    lemma_form_encode_words("client_id"@);
    lemma_form_encode_words("redirect_uri"@);
    lemma_form_encode_words("response_type"@);
    lemma_form_encode_words("scope"@);
    lemma_form_encode_words("code"@);
    lemma_form_encode_words("openid email profile"@);
    assert(plus_for_space("client_id"@) =~= "client_id"@);
    assert(plus_for_space("redirect_uri"@) =~= "redirect_uri"@);
    assert(plus_for_space("response_type"@) =~= "response_type"@);
    assert(plus_for_space("scope"@) =~= "scope"@);
    assert(plus_for_space("code"@) =~= "code"@);
    assert(plus_for_space("openid email profile"@) =~= "openid+email+profile"@);
}

} // verus!
