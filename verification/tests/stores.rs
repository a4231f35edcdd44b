use auth_service::domain::data_stores::{
    BannedTokenStore, LoginAttemptId, TwoFACode, TwoFACodeStore, TwoFACodeStoreError, UserStore,
    UserStoreError,
};
use auth_service::domain::email::Email;
use auth_service::domain::email_client::EmailClient;
use auth_service::domain::password::Password;
use auth_service::domain::user::User;
use auth_service::services::hashmap_two_fa_code_store::HashmapTwoFACodeStore;
use auth_service::services::hashmap_user_store::HashmapUserStore;
use auth_service::services::hashset_banned_token_store::HashsetBannedTokenStore;
use auth_service::services::mock_email_client::MockEmailClient;
use auth_service::services::password_hash::{
    compute_password_hash, costs_acceptable, verify_password_hash,
};
use auth_service::services::postgres_user_store::{
    identity_from_row, insert_failure, validate_row,
};
use auth_service::services::redis_two_fa_code_store::{
    challenge_from_stored, get_banned_token_key, get_key, removal_outcome,
    BANNED_TOKEN_TTL_SECONDS, TEN_MINUTES_IN_SECONDS,
};
use auth_service::utils::constants::TOKEN_TTL_SECONDS;

#[test]
fn hashmap_two_fa_code_store_should_store_and_retrieve_code() {
    let mut store = HashmapTwoFACodeStore::default();
    let email = Email::parse("test@example.com".to_string()).unwrap();
    let login_attempt_id = LoginAttemptId::default();
    let code = TwoFACode::parse("123456".to_string()).unwrap();

    store
        .add_code(email.clone(), login_attempt_id.clone(), code.clone(), 1_000)
        .expect("Failed to store code");

    let (stored_id, stored_code) =
        store.get_code(&email, 1_000).expect("Failed to retrieve code");

    assert_eq!(stored_id, login_attempt_id);
    assert_eq!(stored_code, code);
}

#[test]
fn hashmap_two_fa_code_store_should_return_error_for_nonexistent_email() {
    let store = HashmapTwoFACodeStore::default();
    let email = Email::parse("nonexistent@example.com".to_string()).unwrap();
    let result = store.get_code(&email, 1_000);

    assert!(matches!(result, Err(TwoFACodeStoreError::LoginAttemptIdNotFound)));
}

#[test]
fn hashmap_two_fa_code_store_should_remove_existing_code() {
    let mut store = HashmapTwoFACodeStore::default();
    let email = Email::parse("test@example.com".to_string()).unwrap();
    let login_attempt_id = LoginAttemptId::default();
    let code = TwoFACode::parse("123456".to_string()).unwrap();

    store.add_code(email.clone(), login_attempt_id, code, 1_000).expect("Failed to store code");

    store.remove_code(&email).expect("Failed to remove code");

    let result = store.get_code(&email, 1_000);

    assert!(matches!(result, Err(TwoFACodeStoreError::LoginAttemptIdNotFound)));
}

#[test]
fn hashmap_two_fa_code_store_should_update_existing_code() {
    let mut store = HashmapTwoFACodeStore::default();
    let email = Email::parse("test@example.com".to_string()).unwrap();
    let initial_id = LoginAttemptId::default();
    let initial_code = TwoFACode::parse("123456".to_string()).unwrap();

    store
        .add_code(email.clone(), initial_id, initial_code, 1_000)
        .expect("Failed to store initial code");

    let new_id = LoginAttemptId::default();
    let new_code = TwoFACode::parse("654321".to_string()).unwrap();

    store
        .add_code(email.clone(), new_id.clone(), new_code.clone(), 1_000)
        .expect("Failed to update code");

    let (stored_id, stored_code) =
        store.get_code(&email, 1_000).expect("Failed to retrieve updated code");

    assert_eq!(stored_id, new_id);
    assert_eq!(stored_code, new_code);
}

#[test]
fn two_fa_code_store_consumes_a_challenge_once_and_keeps_the_others() {
    let mut store = HashmapTwoFACodeStore::new();
    let first = Email::parse("first@example.com".to_string()).unwrap();
    let second = Email::parse("second@example.com".to_string()).unwrap();
    let third = Email::parse("third@example.com".to_string()).unwrap();
    let id = LoginAttemptId::default();
    store.add_code(first.clone(), id.clone(), TwoFACode::from_number(1), 10).unwrap();
    store.add_code(second.clone(), id.clone(), TwoFACode::from_number(2), 20).unwrap();
    store.add_code(third.clone(), id.clone(), TwoFACode::from_number(3), 30).unwrap();

    assert_eq!(store.remove_code(&second), Ok(()));
    assert_eq!(store.remove_code(&second), Err(TwoFACodeStoreError::LoginAttemptIdNotFound));
    assert!(store.get_code(&second, 30).is_err());
    assert_eq!(store.get_code(&first, 30).unwrap().1.to_string(), "000001");
    assert_eq!(store.get_code(&third, 30).unwrap().1.to_string(), "000003");
}

#[test]
fn challenge_can_be_answered_for_ten_minutes() {
    let mut store = HashmapTwoFACodeStore::new();
    let email = Email::parse("test@example.com".to_string()).unwrap();
    let id = LoginAttemptId::default();
    store.add_code(email.clone(), id.clone(), TwoFACode::from_number(7), 1_000).unwrap();
    assert!(store.get_code(&email, 1_000).is_ok());
    assert!(store.get_code(&email, 1_599).is_ok());
    assert_eq!(
        store.get_code(&email, 1_600).map(|_| ()),
        Err(TwoFACodeStoreError::LoginAttemptIdNotFound)
    );
    assert!(store.get_code(&email, 1_601).is_err());
    // a new challenge replaces the expired one
    store.add_code(email.clone(), id, TwoFACode::from_number(8), 2_000).unwrap();
    assert_eq!(store.get_code(&email, 2_599).unwrap().1.to_string(), "000008");
    assert!(store.get_code(&email, 2_600).is_err());
}

#[test]
fn challenge_store_refuses_an_expiry_past_the_clock() {
    let mut store = HashmapTwoFACodeStore::new();
    let email = Email::parse("test@example.com".to_string()).unwrap();
    let id = LoginAttemptId::default();
    assert!(matches!(
        store.add_code(email.clone(), id.clone(), TwoFACode::from_number(7), i64::MAX - 599),
        Err(TwoFACodeStoreError::UnexpectedError(_))
    ));
    assert!(store.get_code(&email, 0).is_err());
    assert!(store.add_code(email.clone(), id, TwoFACode::from_number(7), i64::MAX - 600).is_ok());
    assert!(store.get_code(&email, i64::MAX - 1).is_ok());
    assert!(store.get_code(&email, i64::MAX).is_err());
}

#[test]
fn hashmap_user_store_test_add_user() {
    let mut store = HashmapUserStore::default();
    let email = Email::parse("test@example.com".to_string()).unwrap();
    let password = Password::parse("password123".to_string()).unwrap();
    let user = User::new(email.clone(), password, false);

    assert!(store.add_user(user.clone()).is_ok());
    assert_eq!(store.add_user(user), Err(UserStoreError::UserAlreadyExists));
}

#[test]
fn hashmap_user_store_test_get_user() {
    let mut store = HashmapUserStore::default();
    let email = Email::parse("test@example.com".to_string()).unwrap();
    let password = Password::parse("password123".to_string()).unwrap();
    let user = User::new(email.clone(), password, false);
    store.add_user(user.clone()).unwrap();

    let retrieved_user = store.get_user(&email).unwrap();
    assert_eq!(retrieved_user.email.as_ref(), "test@example.com");

    let nonexistent_email = Email::parse("nonexistent@example.com".to_string()).unwrap();
    assert_eq!(
        store.get_user(&nonexistent_email).map(|_| ()),
        Err(UserStoreError::UserNotFound)
    );
}

#[test]
fn hashmap_user_store_test_validate_user() {
    let mut store = HashmapUserStore::default();
    let email = Email::parse("test@example.com".to_string()).unwrap();
    let password = Password::parse("password123".to_string()).unwrap();
    let user = User::new(email.clone(), password.clone(), false);
    store.add_user(user).unwrap();

    assert!(store.validate_user(&email, &password).is_ok());
    let wrong_password = Password::parse("wrongpassword".to_string()).unwrap();
    assert_eq!(
        store.validate_user(&email, &wrong_password),
        Err(UserStoreError::InvalidCredentials)
    );
    let nonexistent_email = Email::parse("nonexistent@example.com".to_string()).unwrap();
    assert_eq!(
        store.validate_user(&nonexistent_email, &password),
        Err(UserStoreError::InvalidCredentials)
    );
}

#[test]
fn user_store_keeps_the_hash_and_the_flag_but_not_the_password() {
    let mut store = HashmapUserStore::new();
    let email = Email::parse("flag@example.com".to_string()).unwrap();
    let password = Password::parse("password123".to_string()).unwrap();
    store.add_user(User::new(email.clone(), password.clone(), true)).unwrap();

    let identity = store.get_user(&email).unwrap();
    assert!(identity.requires_2fa);
    assert_ne!(identity.password_hash, "password123");
    assert!(identity.password_hash.starts_with("$argon2id$v=19$m=15000,t=2,p=1$"));
    assert!(verify_password_hash(&identity.password_hash, &password));
}

#[test]
fn insert_registers_a_hashed_account_once() {
    let mut store = HashmapUserStore::new();
    let password = Password::parse("password123".to_string()).unwrap();
    let hash = compute_password_hash(&password).unwrap();
    let row = ("hashed@example.com".to_string(), hash.clone(), true);
    assert_eq!(store.insert(identity_from_row(Some(row.clone())).unwrap()), Ok(()));
    assert_eq!(
        store.insert(identity_from_row(Some(row)).unwrap()),
        Err(UserStoreError::UserAlreadyExists)
    );
    let email = Email::parse("hashed@example.com".to_string()).unwrap();
    assert_eq!(store.get_user(&email).unwrap().password_hash, hash);
    assert_eq!(store.validate_user(&email, &password), Ok(()));
}

#[test]
fn password_hash_accepts_its_password_only() {
    let password = Password::parse("password123".to_string()).unwrap();
    let other = Password::parse("password124".to_string()).unwrap();
    let first = compute_password_hash(&password).unwrap();
    let second = compute_password_hash(&password).unwrap();
    assert_ne!(first, second);
    assert_ne!(first, "password123");
    assert!(verify_password_hash(&first, &password));
    assert!(verify_password_hash(&second, &password));
    assert!(!verify_password_hash(&first, &other));
    assert!(!verify_password_hash("not a hash", &password));
    assert!(!verify_password_hash("", &password));
}

#[test]
fn stored_hash_beyond_the_limits_accepts_nothing() {
    let password = Password::parse("password123".to_string()).unwrap();
    let hash = compute_password_hash(&password).unwrap();
    assert!(hash.starts_with("$argon2id$v=19$m=15000,t=2,p=1$"));
    let tail = hash["$argon2id$v=19$m=15000,t=2,p=1$".len()..].to_string();
    for params in [
        "m=15000,t=2,p=536870912",
        "m=15000,t=2,p=17",
        "m=15000,t=17,p=1",
        "m=262145,t=2,p=1",
        "m=4294967295,t=2,p=1",
        "m=15000,t=0,p=1",
        "m=7,t=2,p=1",
        "m=15000,t=2,p=x",
    ] {
        let text = format!("$argon2id$v=19${}${}", params, tail);
        assert!(!verify_password_hash(&text, &password), "accepted {}", params);
    }
    // the same costs written out again are accepted
    let same = format!("$argon2id$v=19$m=15000,t=2,p=1${}", tail);
    assert!(verify_password_hash(&same, &password));
    // costs within the limits that differ from those of the hash verify to false
    let other = format!("$argon2id$v=19$m=8,t=1,p=1${}", tail);
    assert!(!verify_password_hash(&other, &password));
}

#[test]
fn costs_are_checked_one_parameter_at_a_time() {
    let ok = vec![
        ("m".to_string(), Some(15000)),
        ("t".to_string(), Some(2)),
        ("p".to_string(), Some(1)),
    ];
    assert!(costs_acceptable(&ok));
    assert!(costs_acceptable(&Vec::new()));
    assert!(costs_acceptable(&vec![("keyid".to_string(), None)]));
    assert!(costs_acceptable(&vec![("m".to_string(), Some(262_144))]));
    assert!(!costs_acceptable(&vec![("m".to_string(), Some(262_145))]));
    assert!(!costs_acceptable(&vec![("m".to_string(), Some(7))]));
    assert!(!costs_acceptable(&vec![("t".to_string(), Some(0))]));
    assert!(!costs_acceptable(&vec![("t".to_string(), Some(17))]));
    assert!(!costs_acceptable(&vec![("p".to_string(), Some(0))]));
    assert!(!costs_acceptable(&vec![("p".to_string(), Some(17))]));
    assert!(!costs_acceptable(&vec![("p".to_string(), None)]));
    assert!(!costs_acceptable(&vec![("p".to_string(), Some(1)), ("p".to_string(), Some(99))]));
}

#[test]
fn hashset_banned_token_store_test_store_token() {
    let mut store = HashsetBannedTokenStore::default();
    let token = "test_token".to_string();

    assert!(store.store_token(token).is_ok());
}

#[test]
fn hashset_banned_token_store_test_contains_token() {
    let mut store = HashsetBannedTokenStore::default();
    let token = "test_token".to_string();

    // Token should not exist initially
    assert!(!store.contains_token(&token).unwrap());

    // Store token
    store.store_token(token.clone()).unwrap();

    // Token should exist now
    assert!(store.contains_token(&token).unwrap());
}

#[test]
fn hashset_banned_token_store_test_multiple_tokens() {
    let mut store = HashsetBannedTokenStore::default();
    let token1 = "test_token_1".to_string();
    let token2 = "test_token_2".to_string();

    // Store both tokens
    store.store_token(token1.clone()).unwrap();
    store.store_token(token2.clone()).unwrap();

    // Both tokens should exist
    assert!(store.contains_token(&token1).unwrap());
    assert!(store.contains_token(&token2).unwrap());

    // Non-existent token should not exist
    assert!(!store.contains_token("nonexistent").unwrap());
}

#[test]
fn banning_a_token_twice_succeeds_and_keeps_it_banned() {
    let mut store = HashsetBannedTokenStore::new();
    assert!(store.store_token("again".to_string()).is_ok());
    assert!(store.store_token("again".to_string()).is_ok());
    assert!(store.contains_token("again").unwrap());
    assert!(!store.contains_token("agai").unwrap());
}

#[test]
fn mock_email_client_reports_success() {
    let mut client = MockEmailClient::default();
    assert!(client.sent.is_empty());
    let recipient = Email::parse("test@example.com".to_string()).unwrap();
    assert_eq!(client.send_email(&recipient, "subject", "content"), Ok(()));
    assert_eq!(client.send_email(&recipient, "again", "more"), Ok(()));
    assert_eq!(client.sent.len(), 2);
    assert_eq!(client.sent[0].recipient, "test@example.com");
    assert_eq!(client.sent[0].subject, "subject");
    assert_eq!(client.sent[0].content, "content");
    assert_eq!(client.sent[1].subject, "again");
}

#[test]
fn insert_failure_tells_a_duplicate_from_other_failures() {
    assert_eq!(
        insert_failure(Some("users_pkey"), "duplicate key".to_string()),
        UserStoreError::UserAlreadyExists
    );
    assert!(matches!(
        insert_failure(Some("users_email_check"), "check failed".to_string()),
        UserStoreError::UnexpectedError(cause) if cause == "check failed"
    ));
    assert!(matches!(
        insert_failure(None, "connection reset".to_string()),
        UserStoreError::UnexpectedError(cause) if cause == "connection reset"
    ));
}

#[test]
fn identity_from_row_checks_the_address() {
    let row = ("row@example.com".to_string(), "$argon2id$x".to_string(), true);
    let identity = identity_from_row(Some(row)).unwrap();
    assert_eq!(identity.email.as_ref(), "row@example.com");
    assert_eq!(identity.password_hash, "$argon2id$x");
    assert!(identity.requires_2fa);
    assert!(matches!(
        identity_from_row(Some(("row.example.com".to_string(), "h".to_string(), false))),
        Err(UserStoreError::UnexpectedError(_))
    ));
    assert!(matches!(identity_from_row(None), Err(UserStoreError::UserNotFound)));
}

#[test]
fn validate_row_answers_alike_for_missing_row_and_wrong_password() {
    let password = Password::parse("password123".to_string()).unwrap();
    let wrong = Password::parse("wrongpassword".to_string()).unwrap();
    let hash = compute_password_hash(&password).unwrap();
    assert_eq!(validate_row(Some(&hash), &password), Ok(()));
    assert_eq!(validate_row(Some(&hash), &wrong), Err(UserStoreError::InvalidCredentials));
    assert_eq!(validate_row(None, &password), Err(UserStoreError::InvalidCredentials));
}

#[test]
fn cache_keys_carry_their_prefix() {
    let email = Email::parse("test@example.com".to_string()).unwrap();
    assert_eq!(get_key(&email), "two_fa_code:test@example.com");
    assert_eq!(get_banned_token_key("abc.def.ghi"), "banned_token:abc.def.ghi");
}

#[test]
fn removal_of_no_key_means_no_challenge() {
    assert_eq!(removal_outcome(0), Err(TwoFACodeStoreError::LoginAttemptIdNotFound));
    assert_eq!(removal_outcome(1), Ok(()));
    assert_eq!(removal_outcome(2), Ok(()));
}

#[test]
fn cache_entries_live_as_long_as_tokens_and_challenges() {
    assert_eq!(TEN_MINUTES_IN_SECONDS, 600);
    assert!(BANNED_TOKEN_TTL_SECONDS as i64 >= TOKEN_TTL_SECONDS);
}

#[test]
fn challenge_from_stored_checks_both_texts() {
    let id = "123e4567-e89b-12d3-a456-426614174000".to_string();
    let (parsed_id, parsed_code) =
        challenge_from_stored(id.clone(), "123456".to_string()).unwrap();
    assert_eq!(parsed_id.as_ref(), &id);
    assert_eq!(parsed_code.as_ref(), "123456");
    assert!(matches!(
        challenge_from_stored("notauuid".to_string(), "123456".to_string()),
        Err(TwoFACodeStoreError::UnexpectedError(_))
    ));
    assert!(matches!(
        challenge_from_stored(id, "12345".to_string()),
        Err(TwoFACodeStoreError::UnexpectedError(_))
    ));
}
