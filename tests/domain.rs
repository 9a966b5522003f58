use newsletter::domain::{
    is_valid_name, meets_name_rules, parse_subscriber, FormData, SubscriberEmail, SubscriberName,
};

#[test]
fn a_256_grapheme_long_name_is_valid() {
    let name: String = "Æ".repeat(256);
    assert!(SubscriberName::parse(name).is_ok());
}

#[test]
fn name_longer_than_256_graphemes_is_rejected() {
    let name: String = "s".repeat(257);
    assert!(SubscriberName::parse(name).is_err());
}

#[test]
fn whitespace_only_names_rejected() {
    let name = " ".to_string();
    assert!(SubscriberName::parse(name).is_err());
}

#[test]
fn domain_empty_string_is_rejected() {
    let name = "".to_string();
    assert!(SubscriberName::parse(name).is_err());
}

#[test]
fn subscriber_email_empty_string_is_rejected() {
    let email = "".to_string();
    assert!(SubscriberEmail::parse(email).is_err());
}

#[test]
fn email_missing_at_symbol_is_rejected() {
    let email = "ursula_at_example.com".to_string();
    assert!(SubscriberEmail::parse(email).is_err());
}

#[test]
fn email_missing_subject_is_rejected() {
    let email = "@example.com".to_string();
    assert!(SubscriberEmail::parse(email).is_err());
}

#[test]
fn valid_email_is_parsed() {
    let email = SubscriberEmail::parse("ursula@example.com".to_string()).unwrap();
    assert_eq!(email.as_str(), "ursula@example.com");
}

#[test]
fn name_of_256_combined_graphemes_is_valid() {
    // Each "e" followed by a combining acute accent is one user-perceived character.
    let name: String = "e\u{301}".repeat(256);
    assert!(is_valid_name(&name));
    let longer: String = "e\u{301}".repeat(257);
    assert!(!is_valid_name(&longer));
}

#[test]
fn names_with_forbidden_characters_are_rejected() {
    for c in ['/', '(', ')', '"', '<', '>', '\\', ';', '{', '}'] {
        let name = format!("le{}guin", c);
        assert!(!is_valid_name(&name), "{} should be rejected", name);
    }
    assert!(SubscriberName::parse("le <guin>".to_string()).is_err());
}

#[test]
fn tabs_and_newlines_only_are_blank() {
    assert!(!is_valid_name("\t\n \u{3000}"));
    assert!(is_valid_name(" le guin "));
}

#[test]
fn parsed_name_keeps_its_text() {
    let name = SubscriberName::parse("le guin".to_string()).unwrap();
    assert_eq!(name.inner_ref(), "le guin");
    assert_eq!(name.inner(), "le guin".to_string());
}

#[test]
fn parse_subscriber_checks_both_fields() {
    let ok = parse_subscriber(FormData {
        email: "ursula@example.com".to_string(),
        name: "le guin".to_string(),
    });
    let ok = ok.unwrap();
    assert_eq!(ok.name.inner_ref(), "le guin");
    assert_eq!(ok.email.as_str(), "ursula@example.com");
    assert!(parse_subscriber(FormData { email: "".to_string(), name: "le guin".to_string() }).is_err());
    assert!(parse_subscriber(FormData {
        email: "ursula@example.com".to_string(),
        name: "".to_string()
    })
    .is_err());
}

#[test]
fn name_rules_take_the_grapheme_count_as_given() {
    assert!(meets_name_rules("le guin", 256));
    assert!(!meets_name_rules("le guin", 257));
    assert!(!meets_name_rules("   ", 3));
    assert!(!meets_name_rules("a;b", 3));
}
