use main_app::client::{
    code_exchange_request, google_login_url, Endpoint, OAuthClient, GOOGLE_EMAIL_SCOPE,
    GOOGLE_SIGN_IN_SCOPE,
};
use main_app::error::Error;
use main_app::text::join_strings;

fn client(auth_endpoint: &str, scopes: &[&str]) -> OAuthClient {
    OAuthClient {
        client_id: "my-client".to_string(),
        client_secret: "s3cret".to_string(),
        redirect_uri: "https://app.example.com/cb".to_string(),
        scopes: scopes.iter().map(|s| s.to_string()).collect(),
        endpoint: Endpoint {
            auth_endpoint: auth_endpoint.to_string(),
            token_endpoint: "https://accounts.example.com/token".to_string(),
        },
    }
}

#[test]
fn auth_code_url_appends_the_query_pairs() {
    let c = client("https://accounts.example.com/o/auth", &["openid", "email"]);
    let url = c.auth_code_url("st 1").unwrap();
    assert_eq!(
        url,
        "https://accounts.example.com/o/auth?client_id=my-client&response_type=code&redirect_uri=https%3A%2F%2Fapp.example.com%2Fcb&scope=openid+email&state=st+1"
    );
}

#[test]
fn auth_code_url_keeps_an_existing_query() {
    let c = client("https://accounts.example.com/auth?prompt=consent", &["openid"]);
    let url = c.auth_code_url("xyz").unwrap();
    assert_eq!(
        url,
        "https://accounts.example.com/auth?prompt=consent&client_id=my-client&response_type=code&redirect_uri=https%3A%2F%2Fapp.example.com%2Fcb&scope=openid&state=xyz"
    );
}

#[test]
fn auth_code_url_with_no_scopes_sends_an_empty_scope() {
    let c = client("https://accounts.example.com/auth", &[]);
    let url = c.auth_code_url("s").unwrap();
    assert!(url.contains("&scope=&state=s"));
}

#[test]
fn auth_code_url_reports_an_unparsable_endpoint() {
    let c = client("not a url", &["openid"]);
    let err: Error = c.auth_code_url("s").unwrap_err();
    assert_eq!(err.to_string(), "relative URL without a base");
}

#[test]
fn auth_code_params_in_order() {
    let c = client("https://accounts.example.com/auth", &["a", "b", "c"]);
    let params = c.auth_code_params("st");
    let expected: Vec<(String, String)> = vec![
        ("client_id".to_string(), "my-client".to_string()),
        ("response_type".to_string(), "code".to_string()),
        ("redirect_uri".to_string(), "https://app.example.com/cb".to_string()),
        ("scope".to_string(), "a b c".to_string()),
        ("state".to_string(), "st".to_string()),
    ];
    assert_eq!(params, expected);
}

#[test]
fn exchange_request_carries_the_code_and_credentials() {
    let c = client("https://accounts.example.com/auth", &["openid"]);
    let r = c.exchange_request("the-code");
    assert_eq!(r.code, "the-code");
    assert_eq!(r.client_id, "my-client");
    assert_eq!(r.client_secret, "s3cret");
    assert_eq!(r.redirect_uri, "https://app.example.com/cb");
    assert_eq!(r.grant_type, "authorization_code");
    let direct = code_exchange_request("id", "secret", "uri", "code");
    assert_eq!(direct.client_id, "id");
    assert_eq!(direct.client_secret, "secret");
    assert_eq!(direct.redirect_uri, "uri");
    assert_eq!(direct.code, "code");
    assert_eq!(direct.grant_type, "authorization_code");
}

#[test]
fn google_login_url_for_both_scopes() {
    let url = google_login_url("cid", "https://x.example/cb", "openid profile email").unwrap();
    assert_eq!(
        url,
        "https://accounts.google.com/o/oauth2/v2/auth?client_id=cid&response_type=code&redirect_uri=https%3A%2F%2Fx.example%2Fcb&scope=openid+profile+email"
    );
    let url = google_login_url("cid", "https://x.example/cb", "openid email").unwrap();
    assert!(url.ends_with("&scope=openid+email"));
}

#[test]
fn join_strings_puts_the_separator_between() {
    assert_eq!(join_strings(&vec![], " "), "");
    assert_eq!(join_strings(&vec!["one".to_string()], " "), "one");
    assert_eq!(
        join_strings(&vec!["a".to_string(), "b".to_string(), "c".to_string()], ", "),
        "a, b, c"
    );
}

#[test]
fn error_displays_its_message() {
    let e = Error::new("boom".to_string());
    assert_eq!(e.to_string(), "boom");
}

#[test]
fn google_login_scopes() {
    assert_eq!(GOOGLE_SIGN_IN_SCOPE, "openid profile email");
    assert_eq!(GOOGLE_EMAIL_SCOPE, "openid email");
    let url = google_login_url("cid", "https://x.example/cb", GOOGLE_SIGN_IN_SCOPE).unwrap();
    assert!(url.ends_with("&scope=openid+profile+email"));
}
