//! The OAuth client: its endpoints and credentials, the authorization URL
//! a user is sent to, and the request that trades a code for a token.

use vstd::prelude::*;

use crate::error::Error;
use crate::external::{pairs_view, parse_url_with_params, url_with_params};
use crate::text::{
    has_char, join_strings, join_with, law_split_undoes_join, split_on, string_views,
};

verus! {

/// Where the provider authorizes users and hands out tokens.
#[derive(Clone)]
pub struct Endpoint {
    /// The authorization endpoint the user is sent to.
    pub auth_endpoint: String,
    /// The endpoint that trades an authorization code for a token.
    pub token_endpoint: String,
}

/// An OAuth client: its credentials, redirect URI, scopes and endpoints.
#[derive(Clone)]
pub struct OAuthClient {
    pub client_id: String,
    pub client_secret: String,
    pub redirect_uri: String,
    pub scopes: Vec<String>,
    pub endpoint: Endpoint,
}

/// The body of the request that trades an authorization code for a token.
pub struct CodeExchangeRequest {
    pub code: String,
    pub client_id: String,
    pub client_secret: String,
    pub redirect_uri: String,
    pub grant_type: String,
}

/// A URL outcome, as the library reports it: the URL, or an error carrying
/// the parse error's message.
pub open spec fn reports_outcome(r: Result<String, Error>, o: Result<Seq<char>, Seq<char>>) -> bool {
    match o {
        Ok(url) => r matches Ok(s) && s@ == url,
        Err(msg) => r matches Err(e) && e.message() == msg,
    }
}

/// The library's report of an outcome of URL building: the URL, or an error
/// with the parse error's message.
pub fn url_outcome(parsed: Result<String, String>) -> (r: Result<String, Error>)
    ensures
        reports_outcome(
            r,
            match parsed {
                Ok(s) => Ok(s@),
                Err(m) => Err(m@),
            },
        ),
{
    match parsed {
        Ok(s) => Ok(s),
        Err(m) => Err(Error::new(m)),
    }
}

/// The query pairs of an authorization-code URL, in the order they go.
pub open spec fn auth_query(
    client_id: Seq<char>,
    redirect_uri: Seq<char>,
    scopes: Seq<Seq<char>>,
    state: Seq<char>,
) -> Seq<(Seq<char>, Seq<char>)> {
    seq![
        ("client_id"@, client_id),
        ("response_type"@, "code"@),
        ("redirect_uri"@, redirect_uri),
        ("scope"@, join_with(scopes, " "@)),
        ("state"@, state),
    ]
}

/// Field views of a code exchange request.
pub open spec fn request_fields(r: CodeExchangeRequest) -> (
    Seq<char>,
    Seq<char>,
    Seq<char>,
    Seq<char>,
    Seq<char>,
) {
    (r.code@, r.client_id@, r.client_secret@, r.redirect_uri@, r.grant_type@)
}

/// The request that trades `code` for a token, with the grant type
/// `authorization_code`.
pub fn code_exchange_request(
    client_id: &str,
    client_secret: &str,
    redirect_uri: &str,
    code: &str,
) -> (r: CodeExchangeRequest)
    ensures
        request_fields(r) == (code@, client_id@, client_secret@, redirect_uri@, "authorization_code"@),
{
    CodeExchangeRequest {
        code: code.to_string(),
        client_id: client_id.to_string(),
        client_secret: client_secret.to_string(),
        redirect_uri: redirect_uri.to_string(),
        grant_type: "authorization_code".to_string(),
    }
}

impl OAuthClient {
    /// The query pairs of the authorization-code URL for `state`: client id,
    /// response type `code`, redirect URI, the scopes joined by spaces, and
    /// the state.
    pub fn auth_code_params(&self, state: &str) -> (r: Vec<(String, String)>)
        ensures
            pairs_view(r@) == auth_query(
                self.client_id@,
                self.redirect_uri@,
                string_views(self.scopes@),
                state@,
            ),
            r@.len() == 5,
            r@[0].0@ == "client_id"@ && r@[0].1@ == self.client_id@,
            r@[1].0@ == "response_type"@ && r@[1].1@ == "code"@,
            r@[2].0@ == "redirect_uri"@ && r@[2].1@ == self.redirect_uri@,
            r@[3].0@ == "scope"@,
            spaceless_scopes(string_views(self.scopes@)) ==> split_on(r@[3].1@, ' ')
                == string_views(self.scopes@),
            self.scopes@.len() == 0 ==> r@[3].1@.len() == 0,
            r@[4].0@ == "state"@ && r@[4].1@ == state@,
    {
        let mut v: Vec<(String, String)> = Vec::new();
        v.push(("client_id".to_string(), self.client_id.clone()));
        v.push(("response_type".to_string(), "code".to_string()));
        v.push(("redirect_uri".to_string(), self.redirect_uri.clone()));
        v.push(("scope".to_string(), join_strings(&self.scopes, " ")));
        v.push(("state".to_string(), state.to_string()));
        assert(pairs_view(v@) =~= auth_query(
            self.client_id@,
            self.redirect_uri@,
            string_views(self.scopes@),
            state@,
        ));
        proof {
            law_auth_query_pairs(
                self.client_id@,
                self.redirect_uri@,
                string_views(self.scopes@),
                state@,
            );
            assert(pairs_view(v@)[3] == (v@[3].0@, v@[3].1@));
        }
        v
    }

    /// The URL that sends a user to the authorization endpoint to grant this
    /// client a code, carrying `state`; or the error the endpoint's URL
    /// failed to parse with.
    pub fn auth_code_url(&self, state: &str) -> (r: Result<String, Error>)
        ensures
            reports_outcome(
                r,
                url_with_params(
                    self.endpoint.auth_endpoint@,
                    auth_query(
                        self.client_id@,
                        self.redirect_uri@,
                        string_views(self.scopes@),
                        state@,
                    ),
                ),
            ),
    {
        let params = self.auth_code_params(state);
        let parsed = parse_url_with_params(self.endpoint.auth_endpoint.as_str(), &params);
        url_outcome(parsed)
    }

    /// The request that trades `code` for a token at this client's token
    /// endpoint.
    pub fn exchange_request(&self, code: &str) -> (r: CodeExchangeRequest)
        ensures
            request_fields(r) == (
                code@,
                self.client_id@,
                self.client_secret@,
                self.redirect_uri@,
                "authorization_code"@,
            ),
    {
        code_exchange_request(
            self.client_id.as_str(),
            self.client_secret.as_str(),
            self.redirect_uri.as_str(),
            code,
        )
    }
}

/// Google's authorization endpoint.
pub const GOOGLE_AUTH_ENDPOINT: &'static str = "https://accounts.google.com/o/oauth2/v2/auth";

/// The scope the sign-in server asks Google for.
pub const GOOGLE_SIGN_IN_SCOPE: &'static str = "openid profile email";

/// The scope the login-only server asks Google for.
pub const GOOGLE_EMAIL_SCOPE: &'static str = "openid email";

/// The query pairs of a Google login URL, in the order they go.
pub open spec fn login_query(client_id: Seq<char>, redirect_uri: Seq<char>, scope: Seq<char>) -> Seq<
    (Seq<char>, Seq<char>),
> {
    seq![
        ("client_id"@, client_id),
        ("response_type"@, "code"@),
        ("redirect_uri"@, redirect_uri),
        ("scope"@, scope),
    ]
}

/// The query pairs of a Google login URL: client id, response type `code`,
/// redirect URI and scope.
pub fn login_params(client_id: &str, redirect_uri: &str, scope: &str) -> (r: Vec<(String, String)>)
    ensures
        pairs_view(r@) == login_query(client_id@, redirect_uri@, scope@),
        r@.len() == 4,
        r@[0].0@ == "client_id"@ && r@[0].1@ == client_id@,
        r@[1].0@ == "response_type"@ && r@[1].1@ == "code"@,
        r@[2].0@ == "redirect_uri"@ && r@[2].1@ == redirect_uri@,
        r@[3].0@ == "scope"@ && r@[3].1@ == scope@,
{
    let mut v: Vec<(String, String)> = Vec::new();
    v.push(("client_id".to_string(), client_id.to_string()));
    v.push(("response_type".to_string(), "code".to_string()));
    v.push(("redirect_uri".to_string(), redirect_uri.to_string()));
    v.push(("scope".to_string(), scope.to_string()));
    assert(pairs_view(v@) =~= login_query(client_id@, redirect_uri@, scope@));
    v
}

/// No scope holds a space, and there is at least one.
pub open spec fn spaceless_scopes(scopes: Seq<Seq<char>>) -> bool {
    &&& scopes.len() >= 1
    &&& forall|i: int| 0 <= i < scopes.len() ==> !has_char(#[trigger] scopes[i], ' ')
}

/// Names of query pairs, in order.
pub open spec fn pair_names(q: Seq<(Seq<char>, Seq<char>)>) -> Seq<Seq<char>> {
    q.map_values(|p: (Seq<char>, Seq<char>)| p.0)
}

/// The authorization-code query carries, in this order and once each: the
/// client id, response type `code`, the redirect URI, the scope, and the
/// state. The scope is every scope of the client joined by single spaces:
/// splitting it on spaces gives back the whole scope list, in order, when no
/// scope holds a space; with no scopes it is empty.
pub proof fn law_auth_query_pairs(
    client_id: Seq<char>,
    redirect_uri: Seq<char>,
    scopes: Seq<Seq<char>>,
    state: Seq<char>,
)
    ensures
        ({
            let q = auth_query(client_id, redirect_uri, scopes, state);
            &&& q.len() == 5
            &&& q[0] == ("client_id"@, client_id)
            &&& q[1] == ("response_type"@, "code"@)
            &&& q[2] == ("redirect_uri"@, redirect_uri)
            &&& q[3].0 == "scope"@
            &&& q[4] == ("state"@, state)
            &&& spaceless_scopes(scopes) ==> split_on(q[3].1, ' ') == scopes
            &&& scopes.len() == 0 ==> q[3].1.len() == 0
            &&& forall|i: int, j: int|
                0 <= i < j < 5 ==> #[trigger] pair_names(q)[i] != #[trigger] pair_names(q)[j]
        }),
{
    reveal_strlit(" ");
    reveal_strlit("client_id");
    reveal_strlit("response_type");
    reveal_strlit("redirect_uri");
    reveal_strlit("scope");
    reveal_strlit("state");
    assert(" "@ =~= seq![' ']);
    if spaceless_scopes(scopes) {
        law_split_undoes_join(scopes, ' ');
    }
    let q = auth_query(client_id, redirect_uri, scopes, state);
    assert(pair_names(q) =~= seq!["client_id"@, "response_type"@, "redirect_uri"@, "scope"@, "state"@]);
    assert("client_id"@[0] == 'c' && "response_type"@[0] == 'r' && "scope"@[0] == 's');
    assert("redirect_uri"@[2] == 'd' && "response_type"@[2] == 's');
    assert("redirect_uri"@[0] == 'r' && "state"@[0] == 's');
    assert("scope"@[1] == 'c' && "state"@[1] == 't');
    assert("client_id"@ != "response_type"@ && "client_id"@ != "redirect_uri"@);
    assert("client_id"@ != "scope"@ && "client_id"@ != "state"@);
    assert("response_type"@ != "redirect_uri"@ && "response_type"@ != "scope"@);
    assert("response_type"@ != "state"@ && "redirect_uri"@ != "scope"@);
    assert("redirect_uri"@ != "state"@ && "scope"@ != "state"@);
}

/// The Google login query carries, in this order and once each, for every
/// scope: the client id, response type `code`, the redirect URI, and the
/// scope.
pub proof fn law_login_query_pairs(client_id: Seq<char>, redirect_uri: Seq<char>, scope: Seq<char>)
    ensures
        ({
            let q = login_query(client_id, redirect_uri, scope);
            &&& q.len() == 4
            &&& q[0] == ("client_id"@, client_id)
            &&& q[1] == ("response_type"@, "code"@)
            &&& q[2] == ("redirect_uri"@, redirect_uri)
            &&& q[3] == ("scope"@, scope)
            &&& forall|i: int, j: int|
                0 <= i < j < 4 ==> #[trigger] pair_names(q)[i] != #[trigger] pair_names(q)[j]
        }),
{
    reveal_strlit("client_id");
    reveal_strlit("response_type");
    reveal_strlit("redirect_uri");
    reveal_strlit("scope");
    let q = login_query(client_id, redirect_uri, scope);
    assert(pair_names(q) =~= seq!["client_id"@, "response_type"@, "redirect_uri"@, "scope"@]);
    assert("client_id"@[0] == 'c' && "response_type"@[0] == 'r' && "scope"@[0] == 's');
    assert("redirect_uri"@[2] == 'd' && "response_type"@[2] == 's');
    assert("redirect_uri"@[0] == 'r');
    assert("client_id"@ != "response_type"@ && "client_id"@ != "redirect_uri"@);
    assert("client_id"@ != "scope"@ && "response_type"@ != "redirect_uri"@);
    assert("response_type"@ != "scope"@ && "redirect_uri"@ != "scope"@);
}

/// The URL that sends a user to Google to sign in with `scope`, coming back
/// to `redirect_uri` with a code.
pub fn google_login_url(client_id: &str, redirect_uri: &str, scope: &str) -> (r: Result<
    String,
    Error,
>)
    ensures
        reports_outcome(
            r,
            url_with_params(GOOGLE_AUTH_ENDPOINT@, login_query(client_id@, redirect_uri@, scope@)),
        ),
{
    let params = login_params(client_id, redirect_uri, scope);
    let parsed = parse_url_with_params(GOOGLE_AUTH_ENDPOINT, &params);
    url_outcome(parsed)
}

} // verus!
