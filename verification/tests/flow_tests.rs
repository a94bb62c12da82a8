use main_app::claims::ClaimsError;
use main_app::flow::{
    CallbackAction, CallbackEvent, CallbackFlow, UserProfile, GOOGLE_DOCUMENT_DISCOVERY_URL,
};

const ID_TOKEN: &str = "header.eyJzdWIiOiIxIiwibmFtZSI6IkFubiJ9.signature";

fn profile() -> UserProfile {
    UserProfile {
        name: "Ann".to_string(),
        email: "ann@example.com".to_string(),
        sub: "1".to_string(),
        email_verified: true,
    }
}

fn flow_until_lookup() -> CallbackFlow {
    let (flow, action) = CallbackFlow::new(
        "cid".to_string(),
        "secret".to_string(),
        "https://app/cb".to_string(),
        "the-code".to_string(),
    );
    match action {
        CallbackAction::FetchDiscovery { url } => assert_eq!(url, GOOGLE_DOCUMENT_DISCOVERY_URL),
        _ => panic!("expected the discovery fetch"),
    }
    let (flow, action) = flow.step(CallbackEvent::DiscoveryFetched {
        token_endpoint: "https://oauth2.example/token".to_string(),
    });
    match action {
        CallbackAction::RequestTokens { token_endpoint, request } => {
            assert_eq!(token_endpoint, "https://oauth2.example/token");
            assert_eq!(request.code, "the-code");
            assert_eq!(request.client_id, "cid");
            assert_eq!(request.client_secret, "secret");
            assert_eq!(request.redirect_uri, "https://app/cb");
            assert_eq!(request.grant_type, "authorization_code");
        }
        _ => panic!("expected the token request"),
    }
    let event = CallbackEvent::TokensReceived { id_token: ID_TOKEN.to_string() };
    assert!(flow.accepts(&event));
    let (flow, action) = flow.step(event);
    match action {
        CallbackAction::ParseProfile { claims } => {
            assert_eq!(claims, "{\"sub\":\"1\",\"name\":\"Ann\"}")
        }
        _ => panic!("expected the profile parse"),
    }
    let (flow, action) = flow.step(CallbackEvent::ProfileParsed(profile()));
    match action {
        CallbackAction::FindAccount { provider, provider_id } => {
            assert_eq!(provider, "google");
            assert_eq!(provider_id, "1");
        }
        _ => panic!("expected the account lookup"),
    }
    flow
}

#[test]
fn existing_account_logs_in() {
    let flow = flow_until_lookup();
    assert!(!flow.is_finished());
    let (flow, action) = flow.step(CallbackEvent::AccountLookedUp { found: true });
    match action {
        CallbackAction::Respond { message } => assert_eq!(message, "Login successfullly"),
        _ => panic!("expected the login answer"),
    }
    assert!(flow.is_finished());
    assert!(!flow.accepts(&CallbackEvent::Committed));
}

#[test]
fn missing_account_registers_user_and_account() {
    let flow = flow_until_lookup();
    let (flow, action) = flow.step(CallbackEvent::AccountLookedUp { found: false });
    assert!(matches!(action, CallbackAction::BeginTransaction));
    let (flow, action) = flow.step(CallbackEvent::TransactionBegun);
    match action {
        CallbackAction::InsertUser(u) => {
            assert_eq!(u.name, "Ann");
            assert_eq!(u.email, "ann@example.com");
            assert!(u.email_verified);
        }
        _ => panic!("expected the user insert"),
    }
    let (flow, action) = flow.step(CallbackEvent::UserInserted { user_id: 77 });
    match action {
        CallbackAction::InsertAccount(a) => {
            assert_eq!(a.user_id, 77);
            assert_eq!(a.provider, "google");
            assert_eq!(a.password, None);
            assert_eq!(a.provider_id.as_deref(), Some("1"));
        }
        _ => panic!("expected the account insert"),
    }
    let (flow, action) = flow.step(CallbackEvent::AccountInserted);
    assert!(matches!(action, CallbackAction::Commit));
    assert!(!flow.is_finished());
    let (flow, action) = flow.step(CallbackEvent::Committed);
    match action {
        CallbackAction::Respond { message } => {
            assert_eq!(message, "Registration completed successfully")
        }
        _ => panic!("expected the registration answer"),
    }
    assert!(flow.is_finished());
}

#[test]
fn unreadable_claims_fail_the_flow() {
    let (flow, _) = CallbackFlow::new(
        "cid".to_string(),
        "secret".to_string(),
        "uri".to_string(),
        "code".to_string(),
    );
    let (flow, _) = flow.step(CallbackEvent::DiscoveryFetched { token_endpoint: "e".to_string() });
    let (flow, action) = flow.step(CallbackEvent::TokensReceived { id_token: "a.!!.b".to_string() });
    match action {
        CallbackAction::Fail(e) => assert_eq!(e, ClaimsError::InvalidBase64),
        _ => panic!("expected a failure"),
    }
    assert!(flow.is_finished());
}

#[test]
fn events_out_of_order_are_not_taken() {
    let (flow, _) = CallbackFlow::new(
        "cid".to_string(),
        "secret".to_string(),
        "uri".to_string(),
        "code".to_string(),
    );
    assert!(!flow.accepts(&CallbackEvent::Committed));
    assert!(!flow.accepts(&CallbackEvent::TokensReceived { id_token: ID_TOKEN.to_string() }));
    assert!(flow.accepts(&CallbackEvent::DiscoveryFetched { token_endpoint: "e".to_string() }));
    let (flow, _) = flow.step(CallbackEvent::DiscoveryFetched { token_endpoint: "e".to_string() });
    assert!(!flow.accepts(&CallbackEvent::TokensReceived { id_token: "nodots".to_string() }));
}

fn run_callback(accounts: &mut Vec<(String, String)>, user_id: u128) -> String {
    let (flow, _) = CallbackFlow::new(
        "cid".to_string(),
        "secret".to_string(),
        "uri".to_string(),
        "code".to_string(),
    );
    let (flow, _) = flow.step(CallbackEvent::DiscoveryFetched { token_endpoint: "e".to_string() });
    let (mut flow, mut action) =
        flow.step(CallbackEvent::TokensReceived { id_token: ID_TOKEN.to_string() });
    loop {
        let event = match action {
            CallbackAction::ParseProfile { .. } => CallbackEvent::ProfileParsed(profile()),
            CallbackAction::FindAccount { provider, provider_id } => CallbackEvent::AccountLookedUp {
                found: accounts.contains(&(provider, provider_id)),
            },
            CallbackAction::BeginTransaction => CallbackEvent::TransactionBegun,
            CallbackAction::InsertUser(_) => CallbackEvent::UserInserted { user_id },
            CallbackAction::InsertAccount(a) => {
                accounts.push((a.provider, a.provider_id.unwrap()));
                CallbackEvent::AccountInserted
            }
            CallbackAction::Commit => CallbackEvent::Committed,
            CallbackAction::Respond { message } => return message,
            _ => panic!("unexpected action"),
        };
        let (next, next_action) = flow.step(event);
        flow = next;
        action = next_action;
    }
}

#[test]
fn the_same_subject_never_registers_twice() {
    let mut accounts: Vec<(String, String)> = Vec::new();
    assert_eq!(run_callback(&mut accounts, 1), "Registration completed successfully");
    assert_eq!(accounts, vec![("google".to_string(), "1".to_string())]);
    assert_eq!(run_callback(&mut accounts, 2), "Login successfullly");
    assert_eq!(accounts.len(), 1);
}
