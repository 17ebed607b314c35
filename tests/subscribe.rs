use zero2prod::confirmation::{confirm, register, register_with_token, subscribe};
use zero2prod::email::{Email, EmailService, Mailer, MockEmailService};
use zero2prod::store::SubscriberStore;
use zero2prod::subscriber::{SubscriberError, SubscriberFormData, SubscriptionStatus};

fn form(name: &str, email: &str) -> SubscriberFormData {
    SubscriberFormData { email: email.into(), name: name.into() }
}

struct FailingGateway;

impl EmailService for FailingGateway {
    fn send(&mut self, _email: &Email) -> Result<(), String> {
        Err("relay unavailable".into())
    }
}

#[test]
fn subscribe_returns_a_200_for_valid_form_data() {
    let mut store = SubscriberStore::new();
    let mut mock = Mailer::new(MockEmailService::new());

    let id = subscribe(&mut store, &mut mock, form("Grace", "grace@example.com")).unwrap();
    assert_eq!(store.status_of(id), Some(SubscriptionStatus::Pending));

    let subscription_token = store.token_for(id).unwrap();
    assert_eq!(subscription_token.len(), 36);
    for (i, c) in subscription_token.chars().enumerate() {
        if [8, 13, 18, 23].contains(&i) {
            assert_eq!(c, '-');
        } else {
            assert!(c.is_ascii_digit() || ('a'..='f').contains(&c));
        }
    }
    let expected_confirmation_link =
        &format!("https://zero2prod.xyz/confirm?token={}", subscription_token);

    assert_eq!(mock.gateway().sent_messages.len(), 1);
    assert_eq!(mock.gateway().sent_messages[0].0, "grace@example.com");
    assert_eq!(mock.gateway().sent_messages[0].1.contains(expected_confirmation_link), true);
}

#[test]
fn subscribe_returns_a_400_when_data_is_missing() {
    let mut store = SubscriberStore::new();
    let mut mock = Mailer::new(MockEmailService::new());
    let cases = [
        ("", "", "missing name and email"),
        ("", "dev%40zero2prod.xyz", "missing name"),
        ("dev", "", "missing email"),
        ("user", "no-at-sign.com", "malformed email"),
    ];
    for (name, email, what) in cases {
        let err = subscribe(&mut store, &mut mock, form(name, email)).unwrap_err();
        assert_eq!(400, err.status_code(), "The API did not fail with 400 Bad Request {}.", what);
    }
    assert!(mock.gateway().sent_messages.is_empty());
    // Nothing was written: the first valid registration gets the first id.
    let (id, _) = register(&mut store, form("Ada", "ada@example.com")).unwrap();
    assert_eq!(id, 0);
}

#[test]
fn confirm_returns_200_with_valid_token() {
    let mut store = SubscriberStore::new();
    let mut mock = Mailer::new(MockEmailService::new());
    let id = subscribe(&mut store, &mut mock, form("Linus", "linus@example.com")).unwrap();
    let subscription_token = store.token_for(id).unwrap();

    assert!(confirm(&mut store, &subscription_token).is_ok());
    assert_eq!(store.status_of(id), Some(SubscriptionStatus::Confirmed));
}

#[test]
fn confirm_returns_400_with_invalid_token() {
    let mut store = SubscriberStore::new();
    let uuid = String::from("5b0e3f5e-8a4f-4c2e-9d59-0b4a3f6e2c11");
    let err = confirm(&mut store, &uuid).unwrap_err();
    assert_eq!(400, err.status_code());
    match err {
        SubscriberError::InvalidToken(t) => assert_eq!(t, uuid),
        _ => panic!("expected an invalid token"),
    }
}

#[test]
fn confirm_returns_400_with_no_token() {
    let mut store = SubscriberStore::new();
    register(&mut store, form("Ada", "ada@example.com")).unwrap();
    let err = confirm(&mut store, &String::new()).unwrap_err();
    assert_eq!(400, err.status_code());
}

#[test]
fn token_is_single_use() {
    let mut store = SubscriberStore::new();
    let id = register_with_token(&mut store, form("Ada", "ada@example.com"), "t-1".into()).unwrap();
    assert_eq!(store.status_of(id), Some(SubscriptionStatus::Pending));
    assert_eq!(store.token_for(id), Some("t-1".to_string()));
    assert_eq!(store.find_subscriber_by_token(&"t-1".to_string()), Some(id));

    confirm(&mut store, &"t-1".to_string()).unwrap();
    assert_eq!(store.status_of(id), Some(SubscriptionStatus::Confirmed));
    assert_eq!(store.token_for(id), None);

    let again = confirm(&mut store, &"t-1".to_string());
    assert!(matches!(again, Err(SubscriberError::InvalidToken(_))));
    assert_eq!(store.status_of(id), Some(SubscriptionStatus::Confirmed));
}

#[test]
fn registrations_get_distinct_ids_and_tokens() {
    let mut store = SubscriberStore::new();
    let (a, ta) = register(&mut store, form("Ada", "ada@example.com")).unwrap();
    let (b, tb) = register(&mut store, form("Bob", "bob@example.com")).unwrap();
    assert_ne!(a, b);
    assert_ne!(ta, tb);
    confirm(&mut store, &tb).unwrap();
    assert_eq!(store.status_of(a), Some(SubscriptionStatus::Pending));
    assert_eq!(store.status_of(b), Some(SubscriptionStatus::Confirmed));
    assert_eq!(store.confirmed_emails(), vec!["bob@example.com".to_string()]);
}

#[test]
fn reused_token_string_is_a_storage_error() {
    let mut store = SubscriberStore::new();
    register_with_token(&mut store, form("Ada", "ada@example.com"), "same".into()).unwrap();
    let err = register_with_token(&mut store, form("Bob", "bob@example.com"), "same".into()).unwrap_err();
    assert!(matches!(err, SubscriberError::DatabaseError(_)));
    assert_eq!(err.status_code(), 500);
    // The pending row of the second registration stays, without a token.
    assert_eq!(store.status_of(1), Some(SubscriptionStatus::Pending));
    assert_eq!(store.token_for(1), None);
    assert_eq!(store.find_subscriber_by_token(&"same".to_string()), Some(0));
}

#[test]
fn failed_confirmation_email_keeps_the_registration() {
    let mut store = SubscriberStore::new();
    let err = subscribe(&mut store, &mut Mailer::new(FailingGateway), form("Ada", "ada@example.com")).unwrap_err();
    match &err {
        SubscriberError::EmailError(m) => assert_eq!(m, "relay unavailable"),
        _ => panic!("expected a delivery error"),
    }
    assert_eq!(err.status_code(), 500);
    assert_eq!(store.status_of(0), Some(SubscriptionStatus::Pending));
    assert!(store.token_for(0).is_some());
}
