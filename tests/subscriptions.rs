use newsletter::domain::{parse_subscriber, FormData};
use newsletter::store::{Store, StoreError, SubscriptionStatus, Transaction};
use newsletter::subscriptions::{insert_subscriber, store_token};
use newsletter::subscriptions::{
    confirmation_email, confirmation_link, register, subscribe, SubscribeError, StoreTokenError,
};
use newsletter::subscriptions_confirm::{confirm, ConfirmError, Parameters};

fn form(name: &str, email: &str) -> FormData {
    FormData { name: name.to_string(), email: email.to_string() }
}

fn token_from_link(text: &str) -> String {
    let marker = "subscription_token=";
    let start = text.find(marker).unwrap() + marker.len();
    text[start..start + 25].to_string()
}

#[test]
fn subscribe_returns_a_200_for_valid_form_data() {
    let mut store = Store::new();
    let result = subscribe(&mut store, form("le guin", "ursula_le_guin@example.com"), "http://127.0.0.1");
    assert!(result.is_ok());
    assert_eq!(store.subscribers.len(), 1);
    assert_eq!(store.subscribers[0].email, "ursula_le_guin@example.com");
    assert_eq!(store.subscribers[0].name, "le guin");
}

#[test]
fn subscibe_persists_the_new_subscriber() {
    let mut store = Store::new();
    subscribe(&mut store, form("le guin", "ursula_le_guin@example.com"), "http://127.0.0.1").unwrap();
    assert_eq!(store.subscribers.len(), 1);
    let saved = &store.subscribers[0];
    assert_eq!(saved.email, "ursula_le_guin@example.com");
    assert_eq!(saved.name, "le guin");
    assert_eq!(saved.status.as_str(), "pending_confirmation");
}

#[test]
fn subscriptions_subscribe_returns_400_when_data_is_missing() {
    let cases = vec![
        (form("le guin", ""), "Missing the email"),
        (form("", "ursula_le_guin@gmail.com"), "Missing the name."),
        (form("", ""), "Missing both name and email."),
    ];
    for (data, message) in cases {
        let mut store = Store::new();
        let err = subscribe(&mut store, data, "http://127.0.0.1").unwrap_err();
        assert_eq!(err.status_code(), 400, "The API did not fail with 400 Bad Request when the payload was {}.", message);
        assert!(store.subscribers.is_empty());
        assert!(store.tokens.is_empty());
    }
}

#[test]
fn subscriptions_subscribe_returns_a_400_when_fields_are_present_but_invalid() {
    let cases = vec![
        (form("", "ursula_le_guin@gmail.com"), "empty name"),
        (form("Ursula", ""), "empty email"),
        (form("Ursula", "definitely-not-an-email"), "invalid email"),
    ];
    for (data, message) in cases {
        let mut store = Store::new();
        let err = subscribe(&mut store, data, "http://127.0.0.1").unwrap_err();
        assert_eq!(err.status_code(), 400, "The API did not return a 400 Bad Request when the payload was {}", message);
        assert!(matches!(err, SubscribeError::ValidationError(_)));
    }
}

#[test]
fn subscribe_sends_a_confirmation_email_for_valid_data() {
    let mut store = Store::new();
    let message = subscribe(&mut store, form("le guin", "ursula_le_guin@gmail.com"), "http://127.0.0.1").unwrap();
    assert_eq!(message.recipient, "ursula_le_guin@gmail.com");
    assert_eq!(message.subject, "Hi le guin,");
}

#[test]
fn subscribe_sends_a_confirmation_email_with_a_link() {
    let mut store = Store::new();
    let message = subscribe(&mut store, form("le guin", "ursula_le_guin@gmail.com"), "http://127.0.0.1").unwrap();
    let html_token = token_from_link(&message.html_body);
    let text_token = token_from_link(&message.text_body);
    assert_eq!(html_token, text_token);
    assert_eq!(store.tokens.len(), 1);
    assert_eq!(store.tokens[0].token, html_token);
    assert!(message.text_body.contains(&format!(
        "http://127.0.0.1/subscriptions/confirm?subscription_token={}",
        html_token
    )));
}

#[test]
fn the_link_returned_by_subscribe_returns_a_200_if_called() {
    let mut store = Store::new();
    let message = subscribe(&mut store, form("le guin", "ursula_le_guin@gmail.com"), "http://127.0.0.1").unwrap();
    let token = token_from_link(&message.html_body);
    let result = confirm(&mut store, &Parameters { subscription_token: token });
    assert!(result.is_ok());
    assert_eq!(store.subscribers[0].status, SubscriptionStatus::Confirmed);
}

#[test]
fn generated_tokens_are_25_alphanumeric_characters() {
    let mut store = Store::new();
    subscribe(&mut store, form("a", "a@example.com"), "http://x").unwrap();
    subscribe(&mut store, form("b", "b@example.com"), "http://x").unwrap();
    assert_eq!(store.tokens.len(), 2);
    for t in &store.tokens {
        assert_eq!(t.token.len(), 25);
        assert!(t.token.chars().all(|c| c.is_ascii_alphanumeric()));
    }
    assert_ne!(store.tokens[0].token, store.tokens[1].token);
    assert_ne!(store.subscribers[0].id, store.subscribers[1].id);
}

#[test]
fn scenario_register_le_guin() {
    let mut store = Store::new();
    let id = register(&mut store, form("le guin", "ursula@example.com"), 7, "abcdefghijklmnopqrstuvwxy".to_string(), 1_700_000_000);
    let new_subscriber = id.unwrap();
    assert_eq!(new_subscriber.name.inner_ref(), "le guin");
    assert_eq!(store.subscribers.len(), 1);
    assert_eq!(store.subscribers[0].id, 7);
    assert_eq!(store.subscribers[0].subscribed_at, 1_700_000_000);
    assert_eq!(store.subscribers[0].status, SubscriptionStatus::PendingConfirmation);
    assert_eq!(store.tokens.len(), 1);
    assert_eq!(store.tokens[0].token, "abcdefghijklmnopqrstuvwxy");
    assert_eq!(store.tokens[0].subscriber_id, 7);
}

#[test]
fn failed_token_insert_rolls_back_the_subscriber() {
    let mut store = Store::new();
    let token = "ABCDEFGHIJKLMNOPQRSTUVWXY".to_string();
    register(&mut store, form("first", "first@example.com"), 1, token.clone(), 0).unwrap();
    // The same token again: the token row is refused, so the subscriber row must go too.
    let err = register(&mut store, form("second", "second@example.com"), 2, token, 0).unwrap_err();
    assert_eq!(err.status_code(), 500);
    assert!(matches!(err, SubscribeError::UnexpectedError(_)));
    assert_eq!(store.subscribers.len(), 1);
    assert_eq!(store.subscribers[0].id, 1);
    assert_eq!(store.tokens.len(), 1);
}

#[test]
fn duplicate_subscriber_id_is_refused() {
    let mut store = Store::new();
    register(&mut store, form("first", "first@example.com"), 1, "a".repeat(25), 0).unwrap();
    let err = register(&mut store, form("second", "second@example.com"), 1, "b".repeat(25), 0).unwrap_err();
    assert!(matches!(err, SubscribeError::UnexpectedError(_)));
    assert_eq!(store.subscribers.len(), 1);
    assert_eq!(store.tokens.len(), 1);
}

#[test]
fn transaction_rows_stay_hidden_until_commit() {
    let mut store = Store::new();
    let new_subscriber = parse_subscriber(form("le guin", "ursula@example.com")).unwrap();
    let mut tx = Transaction::begin();
    assert_eq!(insert_subscriber(&mut tx, &store, &new_subscriber, 9, 5), Ok(9));
    assert_eq!(insert_subscriber(&mut tx, &store, &new_subscriber, 9, 5), Err(StoreError::DuplicateKey));
    assert_eq!(store_token(&mut tx, &store, 10, "x".repeat(25)), Err(StoreError::MissingReference));
    assert_eq!(store_token(&mut tx, &store, 9, "x".repeat(25)), Ok(()));
    assert_eq!(store_token(&mut tx, &store, 9, "x".repeat(25)), Err(StoreError::DuplicateKey));
    assert!(store.subscribers.is_empty());
    tx.commit(&mut store);
    assert_eq!(store.subscribers.len(), 1);
    assert_eq!(store.tokens.len(), 1);
}

#[test]
fn confirmation_email_has_the_exact_texts() {
    let new_subscriber = parse_subscriber(form("le guin", "ursula@example.com")).unwrap();
    let message = confirmation_email(&new_subscriber, "https://news.example", "tok");
    assert_eq!(message.recipient, "ursula@example.com");
    assert_eq!(message.subject, "Hi le guin,");
    assert_eq!(
        message.text_body,
        "Welcome to our newletter!\nPlease visit https://news.example/subscriptions/confirm?subscription_token=tok to confirm your subscription."
    );
    assert_eq!(
        message.html_body,
        "Welcome to our newletter!<br/> Click <a href=\"https://news.example/subscriptions/confirm?subscription_token=tok\"</a> to confirm your subscription."
    );
    assert_eq!(
        confirmation_link("http://h", "abc"),
        "http://h/subscriptions/confirm?subscription_token=abc"
    );
}

#[test]
fn store_token_error_message() {
    let e = StoreTokenError(StoreError::DuplicateKey);
    assert_eq!(
        e.message(),
        "A database error was encountered while trying to store a subscription token."
    );
}

#[test]
fn confirming_twice_changes_nothing_more() {
    let mut store = Store::new();
    let token = "Abc123Abc123Abc123Abc123Z".to_string();
    register(&mut store, form("le guin", "ursula@example.com"), 3, token.clone(), 0).unwrap();
    register(&mut store, form("other", "other@example.com"), 4, "Q".repeat(25), 0).unwrap();
    let params = Parameters { subscription_token: token };
    assert_eq!(confirm(&mut store, &params), Ok(()));
    assert_eq!(store.subscribers[0].status, SubscriptionStatus::Confirmed);
    assert_eq!(store.subscribers[1].status, SubscriptionStatus::PendingConfirmation);
    assert_eq!(confirm(&mut store, &params), Ok(()));
    assert_eq!(store.subscribers[0].status, SubscriptionStatus::Confirmed);
    assert_eq!(store.subscribers[1].status, SubscriptionStatus::PendingConfirmation);
    assert_eq!(store.subscribers.len(), 2);
    assert_eq!(store.tokens.len(), 2);
}

#[test]
fn unknown_or_malformed_tokens_are_rejected() {
    let mut store = Store::new();
    register(&mut store, form("le guin", "ursula@example.com"), 3, "A".repeat(25), 0).unwrap();
    for bad in ["B".repeat(25), "A".repeat(24), "A".repeat(26), format!("{}!", "A".repeat(24)), String::new()] {
        let err = confirm(&mut store, &Parameters { subscription_token: bad }).unwrap_err();
        assert_eq!(err, ConfirmError::UnknownToken);
        assert_eq!(err.status_code(), 401);
    }
    assert_eq!(store.subscribers[0].status, SubscriptionStatus::PendingConfirmation);
}

#[test]
fn malformed_tokens_are_never_stored() {
    let mut store = Store::new();
    let err = register(&mut store, form("le guin", "ursula@example.com"), 1, "short".to_string(), 0).unwrap_err();
    assert!(matches!(err, SubscribeError::UnexpectedError(_)));
    assert!(store.subscribers.is_empty());
    assert!(store.tokens.is_empty());
    let new_subscriber = parse_subscriber(form("le guin", "ursula@example.com")).unwrap();
    let mut tx = Transaction::begin();
    insert_subscriber(&mut tx, &store, &new_subscriber, 1, 0).unwrap();
    assert_eq!(store_token(&mut tx, &store, 1, "a-b".repeat(8) + "c"), Err(StoreError::InvalidValue));
}

#[test]
fn subscribe_on_an_empty_store_succeeds() {
    let mut store = Store::new();
    let message = subscribe(&mut store, form("le guin", "ursula@example.com"), "http://127.0.0.1").unwrap();
    assert_eq!(message.recipient, "ursula@example.com");
    assert_eq!(store.subscribers.len(), 1);
    assert_eq!(store.subscribers[0].status, SubscriptionStatus::PendingConfirmation);
    assert_eq!(store.tokens.iter().filter(|t| t.subscriber_id == store.subscribers[0].id).count(), 1);
}

#[test]
fn parse_subscriber_reports_the_name_first() {
    let err = parse_subscriber(form("<bad>", "")).unwrap_err();
    assert_eq!(err, "<bad> is not a valid subscriber name.");
    let err = parse_subscriber(form("good", "nope")).unwrap_err();
    assert_eq!(err, "nope is not a valid subscriber email.");
}
