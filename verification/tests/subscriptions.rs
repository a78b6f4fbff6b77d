//! Registration, token issuance and confirmation against the store.

use zero2prod::configuration::Environment;
use zero2prod::routes::error_chain_fmt;
use zero2prod::routes::subscriptions::{
    generate_subscription_token, subscribe, FormData, SubscribeError, TOKEN_LENGTH,
};
use zero2prod::routes::subscriptions_confirm::{confirm, ConfirmRequest, SubscriptionConfirmError};
use zero2prod::startup::ApplicationBaseUrl;
use zero2prod::store::SubscriberStore;

fn base_url() -> ApplicationBaseUrl {
    ApplicationBaseUrl("http://127.0.0.1".to_string())
}

fn valid_form() -> FormData {
    FormData {
        email: "ursula_le_guin@gmail.com".to_string(),
        name: "le guin".to_string(),
    }
}

/// The confirmation link, as it appears in the plain-text body.
fn extract_link(text: &str) -> &str {
    let start = text.find("http://").expect("no link in the email body");
    let end = text.find(" to confirm").expect("unexpected email body");
    &text[start..end]
}

#[test]
fn subscribe_persists_the_new_subscriber() {
    let mut store = SubscriberStore::new();
    let outcome = subscribe(&mut store, valid_form(), &base_url()).expect("registration failed");

    let subscribers = store.subscribers();
    assert_eq!(subscribers.len(), 1);
    let row = &subscribers[0];
    assert_eq!(row.email, "ursula_le_guin@gmail.com");
    assert_eq!(row.name, "le guin");
    assert_eq!(row.status.as_str(), "pending_confirmation");

    let tokens = store.tokens();
    assert_eq!(tokens.len(), 1);
    assert_eq!(tokens[0].subscriber_id, row.id);
    assert_eq!(tokens[0].subscription_token, outcome.subscription_token);
    assert_eq!(outcome.subscriber_id, row.id);
}

#[test]
fn subscribe_rejects_invalid_forms_with_a_validation_error() {
    let cases = [
        ("ursula_le_guin@gmail.com", "", "empty name"),
        ("", "Ursula", "empty email"),
        ("definitely-not-an-email", "Ursula", "invalid email"),
    ];
    for (email, name, reason) in cases {
        let mut store = SubscriberStore::new();
        let form = FormData {
            email: email.to_string(),
            name: name.to_string(),
        };
        let error = subscribe(&mut store, form, &base_url())
            .err()
            .unwrap_or_else(|| panic!("registration did not fail for {}", reason));
        assert!(
            matches!(error, SubscribeError::ValidationError(_)),
            "wrong error category for {}",
            reason
        );
        assert_eq!(error.status_code(), 400);
        assert_eq!(store.subscribers().len(), 0, "store changed for {}", reason);
    }
}

#[test]
fn subscription_tokens_are_25_alphanumeric_characters() {
    let token = generate_subscription_token();
    assert_eq!(token.chars().count(), TOKEN_LENGTH);
    assert!(token.chars().all(|c| c.is_ascii_alphanumeric()));
    assert_ne!(token, generate_subscription_token());
}

#[test]
fn the_confirmation_email_links_to_the_confirm_endpoint() {
    let mut store = SubscriberStore::new();
    let outcome = subscribe(&mut store, valid_form(), &base_url()).expect("registration failed");
    let expected = format!(
        "http://127.0.0.1/subscriptions/confirm?subscription_token={}",
        outcome.subscription_token
    );
    assert_eq!(extract_link(&outcome.confirmation_email.text), expected);
    assert!(outcome.confirmation_email.html.contains(&expected));
    assert_eq!(outcome.confirmation_email.subject, "Welcome");
    assert_eq!(
        outcome.confirmation_email.recipient.as_ref(),
        "ursula_le_guin@gmail.com"
    );
}

#[test]
fn the_confirmation_link_is_the_same_with_and_without_a_trailing_slash() {
    let mut store = SubscriberStore::new();
    let with = subscribe(
        &mut store,
        valid_form(),
        &ApplicationBaseUrl("http://127.0.0.1/".to_string()),
    )
    .expect("registration failed");
    let without = subscribe(
        &mut store,
        valid_form(),
        &ApplicationBaseUrl("http://127.0.0.1".to_string()),
    )
    .expect("registration failed");
    let with_link = extract_link(&with.confirmation_email.text)
        .split("subscription_token=")
        .next()
        .unwrap()
        .to_string();
    let without_link = extract_link(&without.confirmation_email.text)
        .split("subscription_token=")
        .next()
        .unwrap()
        .to_string();
    assert_eq!(with_link, without_link);
    assert!(with_link.ends_with("/subscriptions/confirm?"));
}

#[test]
fn clicking_on_the_confirmation_link_confirms_a_subscriber() {
    let mut store = SubscriberStore::new();
    let outcome = subscribe(&mut store, valid_form(), &base_url()).expect("registration failed");

    let link = extract_link(&outcome.confirmation_email.text).to_string();
    let token = link
        .split("subscription_token=")
        .nth(1)
        .expect("no token in the link")
        .to_string();

    confirm(
        &mut store,
        &ConfirmRequest {
            subscription_token: token,
        },
    )
    .expect("confirmation failed");

    let subscribers = store.subscribers();
    assert_eq!(subscribers.len(), 1);
    assert_eq!(subscribers[0].email, "ursula_le_guin@gmail.com");
    assert_eq!(subscribers[0].name, "le guin");
    assert_eq!(subscribers[0].status.as_str(), "confirmed");
}

#[test]
fn confirming_twice_with_the_same_token_succeeds_and_keeps_confirmed() {
    let mut store = SubscriberStore::new();
    let outcome = subscribe(&mut store, valid_form(), &base_url()).expect("registration failed");
    let request = ConfirmRequest {
        subscription_token: outcome.subscription_token,
    };

    assert!(confirm(&mut store, &request).is_ok());
    assert_eq!(store.subscribers()[0].status.as_str(), "confirmed");

    assert!(confirm(&mut store, &request).is_ok());
    assert_eq!(store.subscribers().len(), 1);
    assert_eq!(store.subscribers()[0].status.as_str(), "confirmed");
}

#[test]
fn confirmations_for_a_non_existing_token_are_rejected_with_a_401() {
    let mut store = SubscriberStore::new();
    subscribe(&mut store, valid_form(), &base_url()).expect("registration failed");

    let error = confirm(
        &mut store,
        &ConfirmRequest {
            subscription_token: "abcdef".to_string(),
        },
    )
    .expect_err("an unissued token was accepted");
    assert!(matches!(error, SubscriptionConfirmError::UnknownToken));
    assert_eq!(error.status_code(), 401);
    assert_eq!(store.subscribers()[0].status.as_str(), "pending_confirmation");
}

#[test]
fn repeated_registration_of_the_same_address_creates_another_pending_row() {
    let mut store = SubscriberStore::new();
    subscribe(&mut store, valid_form(), &base_url()).expect("registration failed");
    subscribe(&mut store, valid_form(), &base_url()).expect("registration failed");
    assert_eq!(store.subscribers().len(), 2);
    assert_eq!(store.tokens().len(), 2);
    assert_ne!(store.subscribers()[0].id, store.subscribers()[1].id);
}

#[test]
fn error_chain_fmt_renders_the_cause_chain() {
    let chain = vec![
        "Failed to send the confirmation email".to_string(),
        "connection reset by peer".to_string(),
    ];
    let rendered = error_chain_fmt(&chain);
    assert_eq!(
        rendered,
        "Failed to send the confirmation email\nCause by:\n\t connection reset by peer\n"
    );
}

#[test]
fn environment_names_are_read_case_insensitively() {
    assert!(matches!(
        Environment::try_from("LOCAL".to_string()),
        Ok(Environment::Local)
    ));
    assert!(matches!(
        Environment::try_from("Production".to_string()),
        Ok(Environment::Production)
    ));
    assert_eq!(Environment::Local.as_str(), "local");
    assert_eq!(Environment::Production.as_str(), "production");
    let message = Environment::try_from("Staging".to_string()).unwrap_err();
    assert_eq!(message, "staging is not a valid environment");
}

#[test]
fn a_bad_base_url_fails_the_registration_but_keeps_the_subscriber() {
    let mut store = SubscriberStore::new();
    let error = subscribe(
        &mut store,
        valid_form(),
        &ApplicationBaseUrl("not a base url".to_string()),
    )
    .expect_err("an unusable base URL was accepted");
    assert!(matches!(error, SubscribeError::UnexpectedError(_)));
    assert_eq!(error.status_code(), 500);
    // The commit happened before the link was built: the row stays.
    assert_eq!(store.subscribers().len(), 1);
    assert_eq!(store.subscribers()[0].status.as_str(), "pending_confirmation");
}

#[test]
fn confirm_status_codes_cover_both_failure_classes() {
    assert_eq!(SubscriptionConfirmError::UnknownToken.status_code(), 401);
    assert_eq!(
        SubscriptionConfirmError::UnexpectedError(vec!["storage failed".to_string()])
            .status_code(),
        500
    );
    assert_eq!(
        SubscribeError::UnexpectedError(vec!["storage failed".to_string()]).status_code(),
        500
    );
}
