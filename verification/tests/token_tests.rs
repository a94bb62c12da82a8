use main_app::token::{ExtraFields, Token};

fn token_with_type(tt: &str) -> Token {
    Token::new(
        "access".to_string(),
        tt.to_string(),
        None,
        3600,
        ExtraFields::new(),
    )
}

#[test]
fn token_type_returns_the_field_when_not_empty() {
    assert_eq!(token_with_type("Bearer").token_type(), "Bearer");
    assert_eq!(token_with_type("bearer").token_type(), "bearer");
    assert_eq!(token_with_type("BEARER").token_type(), "BEARER");
    assert_eq!(token_with_type("mac").token_type(), "mac");
    assert_eq!(token_with_type("DPoP").token_type(), "DPoP");
    assert_eq!(token_with_type(" ").token_type(), " ");
    assert_eq!(token_with_type("bearér").token_type(), "bearér");
}

#[test]
fn token_type_defaults_to_bearer_when_empty() {
    assert_eq!(token_with_type("").token_type(), "Bearer");
}

#[test]
fn token_type_normalizing_twice_changes_nothing() {
    for tt in ["", "bEaReR", "MAC", "basic", "custom"] {
        let once = token_with_type(tt).token_type().to_string();
        let twice = token_with_type(&once).token_type().to_string();
        assert_eq!(once, twice);
        assert!(!once.is_empty());
    }
}

#[test]
fn get_extra_finds_present_keys_only() {
    let extra = ExtraFields::from_entries(vec![
        ("id_token".to_string(), serde_json::Value::String("abc".to_string())),
        ("scope".to_string(), serde_json::Value::String("openid".to_string())),
    ]);
    let token = Token::new("a".to_string(), "Bearer".to_string(), Some("r".to_string()), 10, extra);
    assert_eq!(
        token.get_extra("id_token"),
        Some(&serde_json::Value::String("abc".to_string()))
    );
    assert_eq!(
        token.get_extra("scope"),
        Some(&serde_json::Value::String("openid".to_string()))
    );
    assert_eq!(token.get_extra("missing"), None);
    assert_eq!(token.get_extra("Scope"), None);
}

#[test]
fn later_entry_for_a_key_wins() {
    let extra = ExtraFields::from_entries(vec![
        ("k".to_string(), serde_json::Value::from(1)),
        ("j".to_string(), serde_json::Value::from(2)),
        ("k".to_string(), serde_json::Value::from(3)),
    ]);
    assert_eq!(extra.get("k"), Some(&serde_json::Value::from(3)));
    assert_eq!(extra.get("j"), Some(&serde_json::Value::from(2)));
    assert_eq!(extra.into_entries().len(), 2);
}

#[test]
fn get_after_insert_reads_the_write() {
    let mut extra = ExtraFields::new();
    assert_eq!(extra.get("a"), None);
    extra.insert("a".to_string(), serde_json::Value::Bool(true));
    extra.insert("b".to_string(), serde_json::Value::Null);
    assert_eq!(extra.get("a"), Some(&serde_json::Value::Bool(true)));
    extra.insert("a".to_string(), serde_json::Value::Bool(false));
    assert_eq!(extra.get("a"), Some(&serde_json::Value::Bool(false)));
    assert_eq!(extra.get("b"), Some(&serde_json::Value::Null));
    let entries = extra.into_entries();
    assert_eq!(entries.len(), 2);
}

#[test]
fn token_keeps_its_fields() {
    let token = Token::new(
        "acc".to_string(),
        "bearer".to_string(),
        Some("ref".to_string()),
        42,
        ExtraFields::new(),
    );
    assert_eq!(token.access_token, "acc");
    assert_eq!(token.token_type, "bearer");
    assert_eq!(token.refresh_token.as_deref(), Some("ref"));
    assert_eq!(token.expires_in, 42);
}

#[test]
fn token_debug_shows_its_fields() {
    let token = token_with_type("bearer");
    let shown = format!("{:?}", token);
    assert!(shown.contains("access_token: \"access\""));
    assert!(shown.contains("expires_in: 3600"));
}
