//! Validation of subscriber names and email addresses.

use fake::faker::internet::en::SafeEmail;
use fake::Fake;
use zero2prod::domain::{NewSubscriber, SubscriberEmail, SubscriberName};
use zero2prod::routes::subscriptions::FormData;

#[test]
fn valid_emails_are_parsed_successfully() {
    let email: String = SafeEmail().fake();
    assert!(SubscriberEmail::try_from(email).is_ok());
}

#[test]
fn subscriber_email_empty_string_is_rejected() {
    let email = "".to_string();
    assert!(SubscriberEmail::try_from(email).is_err());
}

#[test]
fn email_missing_at_symbol_is_rejected() {
    let email = "ursuladomain.com".to_string();
    assert!(SubscriberEmail::try_from(email).is_err());
}

#[test]
fn email_missing_subject_is_rejected() {
    let email = "@domain.com".to_string();
    assert!(SubscriberEmail::try_from(email).is_err());
}

#[test]
fn a_256_grapheme_long_name_is_valid() {
    let name = "a\u{310}".repeat(256);
    assert!(SubscriberName::try_from(name).is_ok());
}

#[test]
fn a_name_longer_than_256_graphemes_is_rejected() {
    let name = "a".repeat(257);
    assert!(SubscriberName::try_from(name).is_err());
}

#[test]
fn whitespace_only_names_are_rejected() {
    let name = " ".to_string();
    assert!(SubscriberName::try_from(name).is_err());
}

#[test]
fn subscriber_name_empty_string_is_rejected() {
    let name = "".to_string();
    assert!(SubscriberName::try_from(name).is_err());
}

#[test]
fn names_containing_an_invalid_character_are_rejected() {
    let forbidden_characters = [
        '/', '(', ')', '[', ']', '{', '}', '"', '<', '>', '\\', '|', '`', '$', ';', ':', '.', ',',
    ];
    for name in forbidden_characters {
        let name = name.to_string();
        assert!(SubscriberName::try_from(name).is_err());
    }
}

#[test]
fn a_valid_name_is_parsed_successfully() {
    let name = "Ursula Le Guin".to_string();
    assert!(SubscriberName::try_from(name).is_ok());
}

#[test]
fn a_valid_form_becomes_a_new_subscriber() {
    let form = FormData {
        email: "ursula_le_guin@gmail.com".to_string(),
        name: "le guin".to_string(),
    };
    let subscriber = NewSubscriber::try_from(form).unwrap();
    assert_eq!(subscriber.email.as_ref(), "ursula_le_guin@gmail.com");
    assert_eq!(subscriber.name.as_ref(), "le guin");
}

#[test]
fn the_name_error_message_names_the_input() {
    let message = SubscriberName::try_from("name.with.dots".to_string()).unwrap_err();
    assert_eq!(message, "name.with.dots is not a valid subscriber name");
}

#[test]
fn the_email_error_message_quotes_the_input() {
    let message = SubscriberEmail::try_from("definitely-not-an-email".to_string()).unwrap_err();
    assert_eq!(
        message,
        "'definitely-not-an-email' is not a valid subscriber email"
    );
}

#[test]
fn the_form_is_checked_name_first() {
    let form = FormData {
        email: "not-an-email".to_string(),
        name: "".to_string(),
    };
    let message = NewSubscriber::try_from(form).unwrap_err();
    assert_eq!(message, " is not a valid subscriber name");
}
