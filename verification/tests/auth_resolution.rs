use bucketstore::ids::format_uuid;
use bucketstore::model::User;
use bucketstore::resolver::{
    api_key_of, bearer_token_of, resolve_api_key, resolve_bearer, resolve_credentials,
    AuthDecision,
};
use bucketstore::token::JwtConfig;

fn jwt() -> JwtConfig {
    JwtConfig::new("unit-test-secret".to_string(), 3600)
}

#[test]
fn bearer_prefix_stripped() {
    assert_eq!(bearer_token_of("Bearer abc.def.ghi"), Some("abc.def.ghi"));
    assert_eq!(bearer_token_of("Bearer "), Some(""));
}

#[test]
fn bearer_prefix_required() {
    assert_eq!(bearer_token_of("bearer abc"), None);
    assert_eq!(bearer_token_of("Bearer"), None);
    assert_eq!(bearer_token_of(""), None);
    assert_eq!(bearer_token_of("Basic abc"), None);
}

#[test]
fn api_key_simple() {
    assert_eq!(api_key_of("apiKey=k123"), Some("k123".to_string()));
}

#[test]
fn api_key_first_occurrence_wins() {
    assert_eq!(api_key_of("a=1&apiKey=first&apiKey=second"), Some("first".to_string()));
}

#[test]
fn api_key_needs_exactly_two_parts() {
    assert_eq!(api_key_of("apiKey=a=b"), None);
    assert_eq!(api_key_of("apiKey"), None);
    assert_eq!(api_key_of("apiKey=a=b&apiKey=ok"), Some("ok".to_string()));
}

#[test]
fn api_key_name_must_match_exactly() {
    assert_eq!(api_key_of("apikey=a"), None);
    assert_eq!(api_key_of("xapiKey=a"), None);
    assert_eq!(api_key_of(""), None);
    assert_eq!(api_key_of("foo=1&bar=2"), None);
}

#[test]
fn api_key_empty_value_allowed() {
    assert_eq!(api_key_of("apiKey="), Some("".to_string()));
}

#[test]
fn valid_token_resolves_principal() {
    let jwt = jwt();
    let uid: u128 = 0xabcdef0123456789abcdef0123456789;
    let token = jwt.generate_token(uid, "a@x.com", 1_000_000).unwrap();
    let header = format!("Bearer {}", token);
    assert_eq!(resolve_bearer(&jwt, Some(&header), 1_000_100), Some(uid));
}

#[test]
fn expired_token_falls_through_to_key_strategy() {
    let jwt = jwt();
    let uid: u128 = 42;
    // Issued at 1000, valid for 3600 seconds: expired well before `now`.
    let token = jwt.generate_token(uid, "a@x.com", 1_000).unwrap();
    let header = format!("Bearer {}", token);
    let now = 1_000_000;
    assert_eq!(resolve_bearer(&jwt, Some(&header), now), None);
    // Absent a valid key the request is rejected.
    match resolve_credentials(&jwt, Some(&header), "", now) {
        AuthDecision::Reject => {},
        _ => panic!("expired token must not resolve"),
    }
    // With an apiKey parameter present, the key strategy is consulted.
    match resolve_credentials(&jwt, Some(&header), "apiKey=k", now) {
        AuthDecision::NeedKeyLookup { api_key } => assert_eq!(api_key, "k"),
        _ => panic!("expired token must fall through to the key lookup"),
    }
}

#[test]
fn resolving_twice_is_identical() {
    let jwt = jwt();
    let uid: u128 = 7;
    let token = jwt.generate_token(uid, "a@x.com", 50_000).unwrap();
    let header = format!("Bearer {}", token);
    let first = resolve_bearer(&jwt, Some(&header), 50_100);
    let second = resolve_bearer(&jwt, Some(&header), 50_100);
    assert_eq!(first, Some(uid));
    assert_eq!(first, second);
}

#[test]
fn wrong_secret_fails_strategy_one() {
    let jwt = jwt();
    let other = JwtConfig::new("another-secret".to_string(), 3600);
    let token = other.generate_token(9, "a@x.com", 1_000).unwrap();
    let header = format!("Bearer {}", token);
    assert_eq!(resolve_bearer(&jwt, Some(&header), 1_100), None);
}

#[test]
fn token_wins_over_key() {
    let jwt = jwt();
    let uid: u128 = 11;
    let token = jwt.generate_token(uid, "a@x.com", 2_000).unwrap();
    let header = format!("Bearer {}", token);
    match resolve_credentials(&jwt, Some(&header), "apiKey=ignored", 2_100) {
        AuthDecision::Resolved { principal_id } => assert_eq!(principal_id, uid),
        _ => panic!("a successful token resolution must skip the key lookup"),
    }
}

#[test]
fn key_lookup_verdicts() {
    let user = User::new("a@x.com".to_string());
    let uid = user.id;
    assert_eq!(resolve_api_key(Ok(Some(user))), Some(uid));
    assert_eq!(resolve_api_key(Ok(None)), None);
    assert_eq!(resolve_api_key(Err(sqlx::Error::RowNotFound)), None);
}

#[test]
fn subject_text_matches_identifier() {
    let jwt = jwt();
    let uid: u128 = 0x1234;
    let token = jwt.generate_token(uid, "a@x.com", 5_000).unwrap();
    let claims = jwt.validate_token(&token, 5_100).unwrap();
    assert_eq!(claims.sub, format_uuid(uid));
    assert_eq!(claims.email, "a@x.com");
    assert_eq!(claims.iat, 5_000);
    assert_eq!(claims.exp, 5_000 + 3600);
}

#[test]
fn default_config_values() {
    let c = JwtConfig::default();
    assert_eq!(c.secret, "secretkey");
    assert_eq!(c.expiration, 24 * 60 * 60);
}
