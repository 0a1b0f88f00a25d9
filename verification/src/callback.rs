//! The callback: the one request that the browser sends to the loopback
//! listener once the user has decided, and the authorization code it carries.

use crate::config::{OAuthConfig, OAuthConfigView};
use crate::error::{result_view, OAuthError, OAuthErrorView};
use crate::redirect::{parse_url, url_parse};
use crate::text::text_eq;
use vstd::prelude::*;
use vstd::string::*;

verus! {

/// Name of the query parameter that carries the authorization code.
pub const CODE_PARAMETER: &'static str = "code";

/// The text sent back to the browser once the code has arrived.
pub const CONFIRMATION_BODY: &'static str = "Login exitoso. Puede cerrar esta ventana.";

/// The value of the first pair named `name`, if there is one.
pub open spec fn first_value(pairs: Seq<(Seq<char>, Seq<char>)>, name: Seq<char>) -> Option<
    Seq<char>,
>
    decreases pairs.len(),
{
    if pairs.len() == 0 {
        None
    } else if pairs.first().0 == name {
        Some(pairs.first().1)
    } else {
        first_value(pairs.drop_first(), name)
    }
}

/// The authorization code among the query pairs of a callback: the value of
/// the first pair named `code`. A callback without such a pair, or with an
/// empty value in it, carries no code.
pub open spec fn code_among(pairs: Seq<(Seq<char>, Seq<char>)>) -> Result<
    Seq<char>,
    OAuthErrorView,
> {
    match first_value(pairs, CODE_PARAMETER@) {
        Some(code) => if code.len() > 0 {
            Ok(code)
        } else {
            Err(OAuthErrorView::MissingAuthorizationCode)
        },
        None => Err(OAuthErrorView::MissingAuthorizationCode),
    }
}

impl OAuthConfigView {
    /// The full URL of a callback whose request line asks for `target`: the
    /// origin of the redirect endpoint, then the path and query received.
    pub open spec fn callback_url(self, target: Seq<char>) -> Seq<char> {
        self.endpoint.origin() + target
    }

    /// The authorization code that a callback for `target` carries. A
    /// callback whose full URL does not parse carries none.
    pub open spec fn callback_code(self, target: Seq<char>) -> Result<Seq<char>, OAuthErrorView> {
        match url_parse(self.callback_url(target)) {
            Ok(parts) => code_among(parts.query_pairs),
            Err(_) => Err(OAuthErrorView::MissingAuthorizationCode),
        }
    }

    /// Whether the query of a callback for `target` holds no pair named
    /// `code`.
    pub open spec fn callback_omits_code(self, target: Seq<char>) -> bool {
        match url_parse(self.callback_url(target)) {
            Ok(parts) => forall|i: int|
                0 <= i < parts.query_pairs.len() ==> (#[trigger] parts.query_pairs[i]).0
                    != CODE_PARAMETER@,
            Err(_) => false,
        }
    }
}

/// `first_value` finds the earliest pair of that name, and finds none only
/// where no pair has it.
pub proof fn lemma_first_value(pairs: Seq<(Seq<char>, Seq<char>)>, name: Seq<char>)
    ensures
        match first_value(pairs, name) {
            Some(value) => exists|i: int|
                0 <= i < pairs.len() && #[trigger] pairs[i] == (name, value) && forall|j: int|
                    0 <= j < i ==> (#[trigger] pairs[j]).0 != name,
            None => forall|i: int| 0 <= i < pairs.len() ==> (#[trigger] pairs[i]).0 != name,
        },
    decreases pairs.len(),
{
    if pairs.len() == 0 {
    } else if pairs.first().0 == name {
        assert(pairs[0] == (name, pairs.first().1));
    } else {
        let rest = pairs.drop_first();
        lemma_first_value(rest, name);
        match first_value(rest, name) {
            Some(value) => {
                let i = choose|i: int|
                    0 <= i < rest.len() && #[trigger] rest[i] == (name, value) && forall|j: int|
                        0 <= j < i ==> (#[trigger] rest[j]).0 != name;
                assert(pairs[i + 1] == (name, value));
                assert forall|j: int| 0 <= j < i + 1 implies (#[trigger] pairs[j]).0 != name by {
                    if j > 0 {
                        assert(pairs[j] == rest[j - 1]);
                    }
                }
            },
            None => {
                assert forall|i: int| 0 <= i < pairs.len() implies (#[trigger] pairs[i]).0
                    != name by {
                    if i > 0 {
                        assert(pairs[i] == rest[i - 1]);
                    }
                }
            },
        }
    }
}

/// A callback whose query holds no pair named `code` carries no code.
pub proof fn law_query_without_code(pairs: Seq<(Seq<char>, Seq<char>)>)
    requires
        forall|i: int| 0 <= i < pairs.len() ==> (#[trigger] pairs[i]).0 != CODE_PARAMETER@,
    ensures
        code_among(pairs) == Err::<Seq<char>, OAuthErrorView>(
            OAuthErrorView::MissingAuthorizationCode,
        ),
{
    lemma_first_value(pairs, CODE_PARAMETER@);
}

/// The value of the first pair named `name`, if there is one.
pub fn find_value(pairs: &Vec<(String, String)>, name: &str) -> (r: Option<String>)
    ensures
        r.deep_view() == first_value(pairs.deep_view(), name@),
{
    let mut i: usize = 0;
    assert(pairs.deep_view().skip(0) =~= pairs.deep_view());
    while i < pairs.len()
        invariant
            i <= pairs.len(),
            first_value(pairs.deep_view(), name@) == first_value(
                pairs.deep_view().skip(i as int),
                name@,
            ),
        decreases pairs.len() - i,
    {
        let pair = &pairs[i];
        proof {
            let rest = pairs.deep_view().skip(i as int);
            assert(rest.first() == (pair.0@, pair.1@));
            assert(rest.drop_first() =~= pairs.deep_view().skip(i + 1));
        }
        if text_eq(pair.0.as_str(), name) {
            return Some(pair.1.clone());
        }
        i = i + 1;
    }
    None
}

/// The authorization code among the query pairs of a callback.
pub fn authorization_code(pairs: &Vec<(String, String)>) -> (r: Result<String, OAuthError>)
    ensures
        result_view(r) == code_among(pairs.deep_view()),
        r matches Ok(code) ==> code@.len() > 0,
{
    match find_value(pairs, CODE_PARAMETER) {
        Some(code) => if code.as_str().is_empty() {
            Err(OAuthError::MissingAuthorizationCode)
        } else {
            Ok(code)
        },
        None => Err(OAuthError::MissingAuthorizationCode),
    }
}

impl OAuthConfig {
    /// The full URL of a callback whose request line asks for `target`.
    pub fn callback_url(&self, target: &str) -> (r: String)
        ensures
            r@ == self@.callback_url(target@),
    {
        let mut r = self.endpoint().origin();
        r.append(target);
        r
    }

    /// The authorization code that a callback for `target` carries.
    pub fn callback_code(&self, target: &str) -> (r: Result<String, OAuthError>)
        ensures
            result_view(r) == self@.callback_code(target@),
            r matches Ok(code) ==> code@.len() > 0,
    {
        let url = self.callback_url(target);
        match parse_url(url.as_str()) {
            Ok(parts) => authorization_code(&parts.query_pairs),
            Err(_) => Err(OAuthError::MissingAuthorizationCode),
        }
    }
}

} // verus!
