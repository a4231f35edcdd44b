use auth_service::domain::data_stores::BannedTokenStore;
use auth_service::domain::email::Email;
use auth_service::services::hashset_banned_token_store::HashsetBannedTokenStore;
use auth_service::utils::auth::{
    create_auth_cookie, create_removal_cookie, create_token, decode_token_at, expiry_at,
    generate_auth_cookie, generate_auth_cookie_at, generate_auth_token, generate_auth_token_at,
    validate_token, validate_token_at, ban_verdict, Claims, SameSite, TokenError,
};
use auth_service::utils::constants::{TokenConfig, JWT_COOKIE_NAME, TOKEN_TTL_SECONDS};
use auth_service::domain::data_stores::BannedTokenStoreError;

fn config() -> TokenConfig {
    TokenConfig::new("secret".to_string()).unwrap()
}

fn now() -> i64 {
    chrono::Utc::now().timestamp()
}

#[test]
fn test_generate_auth_cookie() {
    let email = Email::parse("test@example.com".to_owned()).unwrap();
    let cookie = generate_auth_cookie(&email, &config()).unwrap();
    assert_eq!(cookie.name, JWT_COOKIE_NAME);
    assert_eq!(cookie.value.split('.').count(), 3);
    assert_eq!(cookie.path, "/");
    assert_eq!(cookie.http_only, true);
    assert_eq!(cookie.same_site, Some(SameSite::Lax));
}

#[test]
fn test_create_auth_cookie() {
    let token = "test_token".to_owned();
    let cookie = create_auth_cookie(token.clone());
    assert_eq!(cookie.name, JWT_COOKIE_NAME);
    assert_eq!(cookie.value, token);
    assert_eq!(cookie.path, "/");
    assert_eq!(cookie.http_only, true);
    assert_eq!(cookie.same_site, Some(SameSite::Lax));
    assert_eq!(cookie.domain, "");
    assert_eq!(cookie.secure, false);
    assert_eq!(cookie.max_age_seconds, None);
}

#[test]
fn removal_cookie_is_empty_and_expires_at_once() {
    let cookie = create_removal_cookie();
    assert_eq!(cookie.name, "jwt");
    assert_eq!(cookie.value, "");
    assert_eq!(cookie.path, "/");
    assert_eq!(cookie.http_only, true);
    assert_eq!(cookie.max_age_seconds, Some(0));
    assert_eq!(cookie.same_site, None);
}

#[test]
fn test_generate_auth_token() {
    let email = Email::parse("test@example.com".to_owned()).unwrap();
    let result = generate_auth_token(&email, &config()).unwrap();
    assert_eq!(result.split('.').count(), 3);
}

#[test]
fn test_validate_token_with_valid_token() {
    let email = Email::parse("test@example.com".to_owned()).unwrap();
    let token = generate_auth_token(&email, &config()).unwrap();
    let banned_token_store = HashsetBannedTokenStore::new();

    let result = validate_token(&token, &banned_token_store, &config()).unwrap();
    assert_eq!(result.sub, "test@example.com");

    let exp = chrono::Utc::now()
        .checked_add_signed(chrono::Duration::try_minutes(9).expect("valid duration"))
        .expect("valid timestamp")
        .timestamp();

    assert!(result.exp > exp as usize);
}

#[test]
fn test_validate_token_with_invalid_token() {
    let token = "invalid_token".to_owned();
    let banned_token_store = HashsetBannedTokenStore::new();

    let result = validate_token(&token, &banned_token_store, &config());
    assert!(result.is_err());
}

#[test]
fn test_validate_token_with_banned_token() {
    let email = Email::parse("test@example.com".to_owned()).unwrap();
    let token = generate_auth_token(&email, &config()).unwrap();
    let mut banned_token_store = HashsetBannedTokenStore::new();

    banned_token_store.store_token(token.clone()).unwrap();

    let result = validate_token(&token, &banned_token_store, &config());
    assert!(result.is_err());
}

#[test]
fn token_config_refuses_empty_secret_and_bad_lifetime() {
    assert!(TokenConfig::new("".to_string()).is_none());
    assert!(TokenConfig::with_ttl("secret".to_string(), 0).is_none());
    assert!(TokenConfig::with_ttl("secret".to_string(), -1).is_none());
    assert!(TokenConfig::with_ttl("".to_string(), 60).is_none());
    let config = TokenConfig::with_ttl("secret".to_string(), 60).unwrap();
    assert_eq!(config.ttl_seconds(), 60);
    assert_eq!(config.secret_text(), "secret");
    assert_eq!(TokenConfig::new("s".to_string()).unwrap().ttl_seconds(), 600);
    assert_eq!(TOKEN_TTL_SECONDS, 600);
}

#[test]
fn expiry_is_issue_time_plus_lifetime() {
    assert_eq!(expiry_at(1_000, 600), Ok(1_600));
    assert_eq!(expiry_at(0, 600), Ok(600));
    assert_eq!(expiry_at(-600, 600), Ok(0));
    assert_eq!(expiry_at(-601, 600), Err(TokenError::ExpiryOutOfRange));
    assert_eq!(expiry_at(i64::MAX, 1), Err(TokenError::ExpiryOutOfRange));
    assert_eq!(expiry_at(i64::MAX - 600, 600), Ok(i64::MAX as usize));
}

#[test]
fn issued_token_states_subject_and_expiry() {
    let email = Email::parse("test@example.com".to_owned()).unwrap();
    let token = generate_auth_token_at(&email, &config(), 1_000).unwrap();
    let claims = decode_token_at(&token, &config(), 1_000).unwrap();
    assert_eq!(claims.sub, "test@example.com");
    assert_eq!(claims.exp, 1_600);
    assert_eq!(
        generate_auth_token_at(&email, &config(), -601),
        Err(TokenError::ExpiryOutOfRange)
    );
}

#[test]
fn token_is_valid_up_to_its_expiry_and_expired_after() {
    let email = Email::parse("test@example.com".to_owned()).unwrap();
    let store = HashsetBannedTokenStore::new();
    let token = generate_auth_token_at(&email, &config(), 1_000).unwrap();
    assert!(validate_token_at(&token, &store, &config(), 1_000).is_ok());
    assert!(validate_token_at(&token, &store, &config(), 1_599).is_ok());
    assert!(validate_token_at(&token, &store, &config(), 1_600).is_ok());
    assert_eq!(
        validate_token_at(&token, &store, &config(), 1_601).map(|c| c.sub),
        Err(TokenError::Expired)
    );
    assert!(validate_token_at(&token, &store, &config(), -5).is_ok());
}

#[test]
fn token_of_another_secret_or_shape_is_malformed() {
    let email = Email::parse("test@example.com".to_owned()).unwrap();
    let store = HashsetBannedTokenStore::new();
    let other = TokenConfig::new("another secret".to_string()).unwrap();
    let token = generate_auth_token_at(&email, &other, 1_000).unwrap();
    assert_eq!(
        validate_token_at(&token, &store, &config(), 1_000).map(|c| c.sub),
        Err(TokenError::Malformed)
    );
    assert_eq!(
        validate_token_at("invalid_token", &store, &config(), 1_000).map(|c| c.sub),
        Err(TokenError::Malformed)
    );
    assert_eq!(
        validate_token_at("", &store, &config(), 1_000).map(|c| c.sub),
        Err(TokenError::Malformed)
    );
    let mut tampered = generate_auth_token_at(&email, &config(), 1_000).unwrap();
    tampered.push('x');
    assert_eq!(
        decode_token_at(&tampered, &config(), 1_000).map(|c| c.sub),
        Err(TokenError::Malformed)
    );
}

#[test]
fn revocation_is_checked_before_anything_else() {
    let email = Email::parse("test@example.com".to_owned()).unwrap();
    let mut store = HashsetBannedTokenStore::new();
    let token = generate_auth_token_at(&email, &config(), 1_000).unwrap();
    store.store_token(token.clone()).unwrap();
    store.store_token("invalid_token".to_string()).unwrap();
    assert_eq!(
        validate_token_at(&token, &store, &config(), 1_000).map(|c| c.sub),
        Err(TokenError::Revoked)
    );
    assert_eq!(
        validate_token_at(&token, &store, &config(), 5_000).map(|c| c.sub),
        Err(TokenError::Revoked)
    );
    assert_eq!(
        validate_token_at("invalid_token", &store, &config(), 1_000).map(|c| c.sub),
        Err(TokenError::Revoked)
    );
}

#[test]
fn ban_verdict_maps_each_answer() {
    assert_eq!(ban_verdict(Ok(false)), Ok(()));
    assert_eq!(ban_verdict(Ok(true)), Err(TokenError::Revoked));
    assert_eq!(
        ban_verdict(Err(BannedTokenStoreError::UnexpectedError("down".to_string()))),
        Err(TokenError::RevocationUnknown)
    );
}

#[test]
fn create_token_signs_the_given_claims() {
    let claims = Claims { sub: "who@example.com".to_string(), exp: 77 };
    let token = create_token(&claims, &config()).unwrap();
    assert_eq!(token.split('.').count(), 3);
    let decoded = decode_token_at(&token, &config(), 0).unwrap();
    assert_eq!(decoded.sub, "who@example.com");
    assert_eq!(decoded.exp, 77);
    // the same claims under the same key sign to the same text
    assert_eq!(create_token(&claims, &config()).unwrap(), token);
}

#[test]
fn round_trip_returns_the_subject() {
    let store = HashsetBannedTokenStore::new();
    for address in ["a@x.com", "b@x.com", "ünï@côdé.example"] {
        let email = Email::parse(address.to_string()).unwrap();
        let issued = now();
        let token = generate_auth_token_at(&email, &config(), issued).unwrap();
        let claims = validate_token_at(&token, &store, &config(), issued).unwrap();
        assert_eq!(claims.sub, address);
        assert_eq!(claims.exp as i64, issued + 600);
        let cookie = generate_auth_cookie_at(&email, &config(), issued).unwrap();
        assert_eq!(cookie.value, token);
    }
}
