//! Authentication and the newsletter broadcast plan.

use argon2::{Argon2, PasswordHasher};
use base64::prelude::BASE64_STANDARD;
use base64::Engine;
use zero2prod::auth::{
    parse_basic_auth, validate_credentials, BasicAuthorization, Credential, CredentialStore,
};
use zero2prod::domain::SubscriberEmail;
use zero2prod::email_client::build_send_email_request;
use zero2prod::routes::newsletters::{
    delivery_error, publish_newsletter, BodyData, Content, PublishError,
};
use zero2prod::routes::subscriptions::{subscribe, FormData};
use zero2prod::routes::subscriptions_confirm::{confirm, ConfirmRequest};
use zero2prod::startup::ApplicationBaseUrl;
use zero2prod::store::{SubscriberStatus, SubscriberStore};

fn phc_hash(password: &str) -> String {
    Argon2::default()
        .hash_password_with_salt(password.as_bytes(), b"a-sixteen-b-salt")
        .expect("failed to hash the password")
        .to_string()
}

fn operator_store() -> CredentialStore {
    let mut credentials = CredentialStore::new();
    assert!(credentials.add_user(Credential {
        user_id: 1,
        username: "operator".to_string(),
        password_hash: phc_hash("everythinghastostartsomewhere"),
    }));
    credentials
}

fn basic_header(username: &str, password: &str) -> String {
    format!(
        "Basic {}",
        BASE64_STANDARD.encode(format!("{}:{}", username, password))
    )
}

fn newsletter_body() -> BodyData {
    BodyData {
        title: "Newsletter title".to_string(),
        content: Content {
            html: "<p>Newsletter body as HTML</p>".to_string(),
            text: "Newsletter body as plain text".to_string(),
        },
    }
}

fn register(store: &mut SubscriberStore, email: &str, name: &str) -> String {
    let outcome = subscribe(
        store,
        FormData {
            email: email.to_string(),
            name: name.to_string(),
        },
        &ApplicationBaseUrl("http://127.0.0.1".to_string()),
    )
    .expect("registration failed");
    outcome.subscription_token
}

fn register_confirmed(store: &mut SubscriberStore, email: &str, name: &str) {
    let token = register(store, email, name);
    confirm(
        store,
        &ConfirmRequest {
            subscription_token: token,
        },
    )
    .expect("confirmation failed");
}

#[test]
fn newsletters_are_delivered_to_confirmed_subscribers() {
    let mut store = SubscriberStore::new();
    register_confirmed(&mut store, "a@x.com", "Confirmed Reader");
    register(&mut store, "b@x.com", "Pending Reader");

    let plan = publish_newsletter(
        &store,
        &operator_store(),
        Some(&basic_header("operator", "everythinghastostartsomewhere")),
        &newsletter_body(),
    )
    .expect("publish failed");

    assert_eq!(plan.len(), 1);
    assert_eq!(plan[0].recipient.as_ref(), "a@x.com");
    assert_eq!(plan[0].subject, "Newsletter title");
    assert_eq!(plan[0].html, "<p>Newsletter body as HTML</p>");
    assert_eq!(plan[0].text, "Newsletter body as plain text");
}

#[test]
fn newsletters_are_not_delivered_to_unconfirmed_subscribers() {
    let mut store = SubscriberStore::new();
    register(&mut store, "b@x.com", "Pending Reader");

    let plan = publish_newsletter(
        &store,
        &operator_store(),
        Some(&basic_header("operator", "everythinghastostartsomewhere")),
        &newsletter_body(),
    )
    .expect("publish failed");
    assert_eq!(plan.len(), 0);
}

#[test]
fn newsletters_are_delivered_to_confirmed_subscribers_while_skipping_invalid_ones() {
    let mut store = SubscriberStore::new();
    store
        .restore(
            "definitely-not-an-email".to_string(),
            "invalid-name".to_string(),
            0,
            SubscriberStatus::Confirmed,
            "legacytokenAAAABBBBCCCCDD".to_string(),
        )
        .expect("failed to restore the legacy row");
    register_confirmed(&mut store, "a@x.com", "Confirmed Reader");

    let plan = publish_newsletter(
        &store,
        &operator_store(),
        Some(&basic_header("operator", "everythinghastostartsomewhere")),
        &newsletter_body(),
    )
    .expect("publish failed");

    assert_eq!(plan.len(), 1);
    assert_eq!(plan[0].recipient.as_ref(), "a@x.com");
}

#[test]
fn requests_missing_authorization_are_rejected() {
    let store = SubscriberStore::new();
    let error = publish_newsletter(&store, &operator_store(), None, &newsletter_body())
        .expect_err("a publish without credentials was accepted");
    assert_eq!(error.status_code(), 401);
    let response = error.error_response();
    assert_eq!(response.status_code, 401);
    assert_eq!(response.headers.len(), 1);
    assert_eq!(response.headers[0].0, "WWW-Authenticate");
    assert_eq!(response.headers[0].1, r#"Basic realm="publish""#);
}

#[test]
fn non_existing_user_is_rejected() {
    let store = SubscriberStore::new();
    let error = publish_newsletter(
        &store,
        &operator_store(),
        Some(&basic_header("intruder", "anything")),
        &newsletter_body(),
    )
    .expect_err("an unknown username was accepted");
    assert!(matches!(error, PublishError::AuthError(_)));
    assert_eq!(error.status_code(), 401);
    assert_eq!(error.error_response().headers[0].1, r#"Basic realm="publish""#);
}

#[test]
fn invalid_password_is_rejected() {
    let store = SubscriberStore::new();
    let error = publish_newsletter(
        &store,
        &operator_store(),
        Some(&basic_header("operator", "wrong-password")),
        &newsletter_body(),
    )
    .expect_err("a wrong password was accepted");
    assert!(matches!(error, PublishError::AuthError(_)));
    assert_eq!(error.status_code(), 401);
    assert_eq!(error.error_response().headers[0].1, r#"Basic realm="publish""#);
}

#[test]
fn unknown_user_and_wrong_password_yield_the_same_error_category() {
    let credentials = operator_store();
    let unknown = validate_credentials(
        &BasicAuthorization {
            username: "intruder".to_string(),
            password: "anything".to_string(),
        },
        &credentials,
    )
    .expect_err("an unknown username was accepted");
    let wrong = validate_credentials(
        &BasicAuthorization {
            username: "operator".to_string(),
            password: "wrong-password".to_string(),
        },
        &credentials,
    )
    .expect_err("a wrong password was accepted");
    assert!(matches!(unknown, PublishError::AuthError(_)));
    assert!(matches!(wrong, PublishError::AuthError(_)));
    assert_eq!(unknown.status_code(), wrong.status_code());
}

#[test]
fn valid_credentials_resolve_to_the_operator_id() {
    let credentials = operator_store();
    let user_id = validate_credentials(
        &BasicAuthorization {
            username: "operator".to_string(),
            password: "everythinghastostartsomewhere".to_string(),
        },
        &credentials,
    )
    .expect("valid credentials were rejected");
    assert_eq!(user_id, 1);
}

#[test]
fn duplicate_operator_usernames_are_refused() {
    let mut credentials = operator_store();
    assert!(!credentials.add_user(Credential {
        user_id: 2,
        username: "operator".to_string(),
        password_hash: phc_hash("another-password"),
    }));
}

#[test]
fn basic_credentials_round_trip_through_the_header() {
    let parsed = parse_basic_auth(Some(&basic_header("ada:lovelace", "pa:ss:word")))
        .expect("a well-formed header was rejected");
    assert_eq!(parsed.username, "ada");
    assert_eq!(parsed.password, "lovelace:pa:ss:word");
}

#[test]
fn malformed_authorization_headers_are_rejected() {
    for header in [
        "Bearer abc",
        "Basic !!!not-base64!!!",
        "basic dXNlcjpwYXNz",
    ] {
        let error = parse_basic_auth(Some(header)).expect_err("a bad header was accepted");
        assert!(matches!(error, PublishError::AuthError(_)));
    }
    let without_colon = format!("Basic {}", BASE64_STANDARD.encode("just-a-username"));
    let error = parse_basic_auth(Some(&without_colon)).expect_err("a header without a password was accepted");
    assert!(matches!(error, PublishError::AuthError(_)));
}

#[test]
fn delivery_failures_are_internal_errors_naming_the_recipient() {
    let recipient = SubscriberEmail::try_from("a@x.com".to_string()).unwrap();
    let error = delivery_error(&recipient);
    assert_eq!(error.status_code(), 500);
    match &error {
        PublishError::UnexpectedError(chain) => {
            assert_eq!(chain.len(), 1);
            assert_eq!(chain[0], "Failed to send newsletter issue to a@x.com");
        }
        PublishError::AuthError(_) => panic!("wrong error category"),
    }
    assert_eq!(error.error_response().headers.len(), 0);
}

#[test]
fn the_gateway_request_carries_the_message_unchanged() {
    let sender = SubscriberEmail::try_from("newsletter@x.com".to_string()).unwrap();
    let mut store = SubscriberStore::new();
    register_confirmed(&mut store, "a@x.com", "Confirmed Reader");
    let plan = publish_newsletter(
        &store,
        &operator_store(),
        Some(&basic_header("operator", "everythinghastostartsomewhere")),
        &newsletter_body(),
    )
    .expect("publish failed");

    let request = build_send_email_request(&sender, &plan[0]);
    assert_eq!(request.from.email, "newsletter@x.com");
    assert_eq!(request.from.name, "");
    assert_eq!(request.to.len(), 1);
    assert_eq!(request.to[0].email, "a@x.com");
    assert_eq!(request.subject, "Newsletter title");
    assert_eq!(request.html, "<p>Newsletter body as HTML</p>");
    assert_eq!(request.text, "Newsletter body as plain text");
    assert_eq!(request.category, "");
}

#[test]
fn a_malformed_stored_hash_is_an_internal_failure_not_an_auth_verdict() {
    let mut credentials = CredentialStore::new();
    assert!(credentials.add_user(Credential {
        user_id: 7,
        username: "operator".to_string(),
        password_hash: "not-a-phc-string".to_string(),
    }));
    let error = validate_credentials(
        &BasicAuthorization {
            username: "operator".to_string(),
            password: "anything".to_string(),
        },
        &credentials,
    )
    .expect_err("a malformed stored hash validated");
    assert!(matches!(error, PublishError::UnexpectedError(_)));
    assert_eq!(error.status_code(), 500);
}

#[test]
fn credentials_that_are_not_utf8_are_rejected() {
    let header = format!("Basic {}", BASE64_STANDARD.encode([0xffu8, 0xfe, 0xfd]));
    let error = parse_basic_auth(Some(&header)).expect_err("invalid UTF-8 was accepted");
    assert!(matches!(error, PublishError::AuthError(_)));
}

#[test]
fn a_duplicate_token_is_refused_and_changes_nothing() {
    let mut store = SubscriberStore::new();
    store
        .restore(
            "a@x.com".to_string(),
            "First".to_string(),
            0,
            SubscriberStatus::PendingConfirmation,
            "sametokensametokensametok".to_string(),
        )
        .expect("the first row was refused");
    let result = store.restore(
        "b@x.com".to_string(),
        "Second".to_string(),
        0,
        SubscriberStatus::PendingConfirmation,
        "sametokensametokensametok".to_string(),
    );
    assert!(result.is_err());
    assert_eq!(store.subscribers().len(), 1);
    assert_eq!(store.tokens().len(), 1);
}

#[test]
fn rejecting_an_unknown_user_costs_a_hash_verification() {
    // Both rejection paths run a full password-hash verification, so their
    // cost is of the same order; a skipped verification would make the
    // unknown-username path orders of magnitude faster.
    let credentials = operator_store();
    let unknown = BasicAuthorization {
        username: "intruder".to_string(),
        password: "anything".to_string(),
    };
    let wrong = BasicAuthorization {
        username: "operator".to_string(),
        password: "wrong-password".to_string(),
    };
    // Warm-up.
    let _ = validate_credentials(&unknown, &credentials);
    let _ = validate_credentials(&wrong, &credentials);

    let started = std::time::Instant::now();
    for _ in 0..3 {
        let _ = validate_credentials(&unknown, &credentials);
    }
    let unknown_elapsed = started.elapsed();

    let started = std::time::Instant::now();
    for _ in 0..3 {
        let _ = validate_credentials(&wrong, &credentials);
    }
    let wrong_elapsed = started.elapsed();

    assert!(unknown_elapsed * 10 >= wrong_elapsed);
    assert!(wrong_elapsed * 10 >= unknown_elapsed);
}
