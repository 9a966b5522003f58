use newsletter::authentication::{
    change_password, credential_verdict, get_stored_credentials, validate_credentials, AuthError,
    costs_bounded, Credentials, NEW_HASH_PREFIX, REFERENCE_PASSWORD_HASH,
};
use newsletter::store::{Store, StoreError};

fn credentials(username: &str, password: &str) -> Credentials {
    Credentials { username: username.to_string(), password: password.to_string() }
}

#[test]
fn unknown_user_and_wrong_password_are_both_invalid_credentials() {
    let mut store = Store::new();
    store.add_user(5, "operator".to_string(), "unset".to_string()).unwrap();
    change_password(&mut store, 5, "right").unwrap();
    let unknown = validate_credentials(&store, &credentials("nobody", "right"));
    let wrong = validate_credentials(&store, &credentials("operator", "wrong"));
    assert!(matches!(unknown, Err(AuthError::InvalidCredentials(_))));
    assert!(matches!(wrong, Err(AuthError::InvalidCredentials(_))));
    assert_eq!(validate_credentials(&store, &credentials("operator", "right")).unwrap(), 5);
}

#[test]
fn changed_password_replaces_the_old_one() {
    let mut store = Store::new();
    store.add_user(5, "operator".to_string(), "unset".to_string()).unwrap();
    change_password(&mut store, 5, "first").unwrap();
    let first_hash = store.users[0].password_hash.clone();
    assert!(first_hash.starts_with("$argon2id$v=19$m=15000,t=2,p=1$"));
    change_password(&mut store, 5, "second").unwrap();
    assert_ne!(store.users[0].password_hash, first_hash);
    assert!(matches!(
        validate_credentials(&store, &credentials("operator", "first")),
        Err(AuthError::InvalidCredentials(_))
    ));
    assert_eq!(validate_credentials(&store, &credentials("operator", "second")).unwrap(), 5);
}

#[test]
fn malformed_stored_hash_is_an_unexpected_error() {
    let mut store = Store::new();
    store.add_user(5, "operator".to_string(), "not a phc string".to_string()).unwrap();
    assert!(matches!(
        validate_credentials(&store, &credentials("operator", "x")),
        Err(AuthError::UnexpectedError(_))
    ));
}

#[test]
fn reference_hash_rejects_guesses() {
    let store = Store::new();
    assert!(REFERENCE_PASSWORD_HASH.starts_with("$argon2id$"));
    assert!(matches!(
        validate_credentials(&store, &credentials("", "")),
        Err(AuthError::InvalidCredentials(_))
    ));
}

#[test]
fn credential_verdict_decides_each_case() {
    assert_eq!(credential_verdict(Some(3), Some(true)).unwrap(), 3);
    assert!(matches!(credential_verdict(None, Some(true)), Err(AuthError::InvalidCredentials(_))));
    assert!(matches!(credential_verdict(Some(3), Some(false)), Err(AuthError::InvalidCredentials(_))));
    assert!(matches!(credential_verdict(None, Some(false)), Err(AuthError::InvalidCredentials(_))));
    assert!(matches!(credential_verdict(Some(3), None), Err(AuthError::UnexpectedError(_))));
}

#[test]
fn stored_credentials_are_looked_up_by_username() {
    let mut store = Store::new();
    store.add_user(1, "a".to_string(), "h1".to_string()).unwrap();
    store.add_user(2, "b".to_string(), "h2".to_string()).unwrap();
    assert_eq!(store.add_user(3, "a".to_string(), "h3".to_string()), Err(StoreError::DuplicateKey));
    assert_eq!(store.add_user(2, "c".to_string(), "h3".to_string()), Err(StoreError::DuplicateKey));
    assert_eq!(get_stored_credentials(&store, &"b".to_string()), Some((2, "h2".to_string())));
    assert_eq!(get_stored_credentials(&store, &"z".to_string()), None);
}

#[test]
fn oversized_costs_in_a_stored_hash_are_an_unexpected_error() {
    let mut store = Store::new();
    let hash = "$argon2id$v=19$m=4294967295,t=2,p=4294967295$c2FsdHNhbHQ$aGFzaGhhc2hoYXNoaGFzaA";
    store.add_user(5, "operator".to_string(), hash.to_string()).unwrap();
    assert!(!costs_bounded(hash));
    assert!(matches!(
        validate_credentials(&store, &credentials("operator", "x")),
        Err(AuthError::UnexpectedError(_))
    ));
}

#[test]
fn cost_bounds_accept_the_hashes_in_use() {
    assert!(costs_bounded(REFERENCE_PASSWORD_HASH));
    assert!(costs_bounded("$argon2id$v=19$m=999999,t=999,p=999$c2FsdHNhbHQ$aGFzaA"));
    assert!(!costs_bounded("$argon2id$v=19$m=1000000,t=2,p=1$c2FsdHNhbHQ$aGFzaA"));
    assert!(!costs_bounded("$argon2id$v=19$m=15000,t=1000,p=1$c2FsdHNhbHQ$aGFzaA"));
    assert!(!costs_bounded("$argon2id$v=19$m=15000,t=2,p=1000$c2FsdHNhbHQ$aGFzaA"));
}

#[test]
fn new_hashes_carry_the_stated_parameters() {
    let mut store = Store::new();
    store.add_user(5, "operator".to_string(), "unset".to_string()).unwrap();
    change_password(&mut store, 5, "pw").unwrap();
    assert!(store.users[0].password_hash.starts_with(NEW_HASH_PREFIX));
    assert!(costs_bounded(&store.users[0].password_hash));
}
