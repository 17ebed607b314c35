use argon2::password_hash::{PasswordHasher, SaltString};
use argon2::{Algorithm, Argon2, Params, Version};
use zero2prod::confirmation::{confirm, subscribe};
use zero2prod::email::{Email, EmailService, Mailer, MockEmailService};
use zero2prod::newsletter::{publish, publish_newsletter, Newsletter, NewsletterError};
use zero2prod::store::SubscriberStore;
use zero2prod::subscriber::SubscriberFormData;

/// An Argon2id hash with small parameters, so that the tests stay quick.
fn cheap_hash(password: &str) -> String {
    let params = Params::new(8, 1, 1, None).unwrap();
    let salt = SaltString::encode_b64(b"zero2prod-salt").unwrap();
    Argon2::new(Algorithm::Argon2id, Version::V0x13, params)
        .hash_password(password.as_bytes(), &salt)
        .unwrap()
        .to_string()
}

fn store_with_admin() -> SubscriberStore {
    let mut store = SubscriberStore::new();
    store.add_user("admin".to_string(), cheap_hash("password")).unwrap();
    store
}

fn issue(html: &str, text: &str, subject: &str) -> Newsletter {
    Newsletter { html: html.into(), text: text.into(), subject: subject.into() }
}

fn sample_issue() -> Newsletter {
    let text = "Lorem ipsum dolor sit amet.";
    issue(&format!("<p>{}</p>", text), text, "Issue one")
}

const ADMIN_PASSWORD: &str = "Basic YWRtaW46cGFzc3dvcmQ=";
const ADMIN_BAD_PASS: &str = "Basic YWRtaW46YmFkX3Bhc3M=";

fn form(name: &str, email: &str) -> SubscriberFormData {
    SubscriberFormData { email: email.into(), name: name.into() }
}

struct FailingAfter {
    left: usize,
    sent: Vec<String>,
}

impl EmailService for FailingAfter {
    fn send(&mut self, email: &Email) -> Result<(), String> {
        if self.left == 0 {
            return Err("mailbox full".into());
        }
        self.left -= 1;
        self.sent.push(email.to.clone());
        Ok(())
    }
}

#[test]
fn publish_newsletter_returns_200() {
    let store = store_with_admin();
    let mut mock = Mailer::new(MockEmailService::new());
    let header = ADMIN_PASSWORD.to_string();
    let r = publish_newsletter(&store, Some(&header), &sample_issue(), &mut mock);
    assert!(r.is_ok());
}

#[test]
fn missing_authorization_returns_401() {
    let store = SubscriberStore::new();
    let mut mock = Mailer::new(MockEmailService::new());
    let err = publish_newsletter(&store, None, &sample_issue(), &mut mock).unwrap_err();
    assert_eq!(401, err.status_code());
}

#[test]
fn bad_password_returns_401() {
    let store = store_with_admin();
    let mut mock = Mailer::new(MockEmailService::new());
    let header = ADMIN_BAD_PASS.to_string();
    let err = publish_newsletter(&store, Some(&header), &sample_issue(), &mut mock).unwrap_err();
    assert_eq!(401, err.status_code());
    assert!(matches!(err, NewsletterError::AuthError));
}

#[test]
fn publish_newsletter_returns_400_with_bad_html_text() {
    let subject = "Issue one";
    let text = "Lorem ipsum dolor sit amet.";
    let html = format!("<p>{}</p>", text);
    let cases = [
        ("", "", "", "Missing all fields"),
        ("", "", subject, "Missing body"),
        ("", text, subject, "Missing html body"),
        ("", text, "", "Missing subject and html body"),
        (html.as_str(), "", subject, "Missing text body"),
        (html.as_str(), "", "", "Missing text body and subject"),
        (html.as_str(), text, "", "Missing subject"),
    ];
    let store = store_with_admin();
    let mut mock = Mailer::new(MockEmailService::new());
    let header = ADMIN_PASSWORD.to_string();
    for (h, t, s, what) in cases {
        let err = publish_newsletter(&store, Some(&header), &issue(h, t, s), &mut mock).unwrap_err();
        assert_eq!(400, err.status_code(), "API did not fail with 400 Bad Request, {}", what);
        assert!(matches!(err, NewsletterError::PublishError(_)));
    }
    assert!(mock.gateway().sent_messages.is_empty());
}

#[test]
fn newsletter_sent_to_confirmed_subscribers() {
    let mut store = store_with_admin();
    let mut mock = Mailer::new(MockEmailService::new());
    for (name, email) in [("Ada", "ada@example.com"), ("Bob", "bob@example.com"), ("Cy", "cy@example.com")] {
        subscribe(&mut store, &mut mock, form(name, email)).unwrap();
    }
    for id in [1u64, 3u64] {
        let token = store.token_for(id).unwrap();
        confirm(&mut store, &token).unwrap();
    }
    let mut broadcast = Mailer::new(MockEmailService::new());
    let header = ADMIN_PASSWORD.to_string();
    let sent = publish_newsletter(&store, Some(&header), &sample_issue(), &mut broadcast).unwrap();

    let expected_emails = store.confirmed_emails().len();
    assert_eq!(expected_emails, 2);
    assert_eq!(expected_emails, broadcast.gateway().sent_messages.len());
    assert_eq!(sent.len(), 2);
    assert_eq!(sent[0].to, "ada@example.com");
    assert_eq!(sent[1].to, "cy@example.com");
    for e in &sent {
        assert_eq!(e.subject, "Issue one");
        assert_eq!(e.plaintext, "Lorem ipsum dolor sit amet.");
        assert_eq!(e.html, "<p>Lorem ipsum dolor sit amet.</p>");
        assert_eq!(e.from, "");
        assert_eq!(e.reply_to, "");
    }
}

#[test]
fn newsletter_not_sent_to_unconfirmed_subscribers() {
    let mut store = store_with_admin();
    let mut mock = Mailer::new(MockEmailService::new());
    let email = "bob@example.com";
    subscribe(&mut store, &mut mock, form("Bob", email)).unwrap();

    let header = ADMIN_PASSWORD.to_string();
    publish_newsletter(&store, Some(&header), &sample_issue(), &mut mock).unwrap();

    let unconfirmed: Vec<&(String, String, String)> =
        mock.gateway().sent_messages.iter().filter(|(to, _, _)| to == email).collect();
    assert_eq!(unconfirmed.len(), 1, "Expected recipient to receive only confirmation email");
    let (_, _, email_plaintext) = unconfirmed[0];
    assert!(email_plaintext.contains("confirm your subscription"), "Expected confirmation email text");
}

#[test]
fn scenario_register_confirm_publish_reaches_ada_once() {
    let mut store = store_with_admin();
    let mut mock = Mailer::new(MockEmailService::new());
    let id = subscribe(&mut store, &mut mock, form("Ada", "ada@example.com")).unwrap();
    let token = store.token_for(id).unwrap();
    assert!(mock.gateway().sent_messages[0].2.contains(&token));
    confirm(&mut store, &token).unwrap();

    let header = ADMIN_PASSWORD.to_string();
    let sent = publish_newsletter(&store, Some(&header), &sample_issue(), &mut mock).unwrap();
    assert_eq!(sent.len(), 1);
    assert_eq!(sent[0].to, "ada@example.com");
    let broadcast: Vec<_> = mock.gateway().sent_messages[1..].iter().collect();
    assert_eq!(broadcast.len(), 1);
    assert_eq!(broadcast[0].0, "ada@example.com");
}

#[test]
fn unknown_user_and_wrong_password_give_the_same_answer() {
    let store = store_with_admin();
    let mut mock = Mailer::new(MockEmailService::new());
    // "nobody:password"
    let unknown = "Basic bm9ib2R5OnBhc3N3b3Jk".to_string();
    let wrong = ADMIN_BAD_PASS.to_string();
    let a = publish_newsletter(&store, Some(&unknown), &sample_issue(), &mut mock).unwrap_err();
    let b = publish_newsletter(&store, Some(&wrong), &sample_issue(), &mut mock).unwrap_err();
    assert!(matches!(a, NewsletterError::AuthError));
    assert!(matches!(b, NewsletterError::AuthError));
    assert_eq!(a.status_code(), b.status_code());
    assert_eq!(a.message(), "Unauthorized");
}

#[test]
fn broadcast_stops_at_first_failed_delivery() {
    let mut store = SubscriberStore::new();
    let mut mock = Mailer::new(MockEmailService::new());
    for (name, email) in [("Ada", "ada@example.com"), ("Bob", "bob@example.com"), ("Cy", "cy@example.com")] {
        let id = subscribe(&mut store, &mut mock, form(name, email)).unwrap();
        let token = store.token_for(id).unwrap();
        confirm(&mut store, &token).unwrap();
    }
    let mut gateway = Mailer::new(FailingAfter { left: 1, sent: Vec::new() });
    let err = publish(&store, &sample_issue(), &mut gateway).unwrap_err();
    match &err {
        NewsletterError::EmailError(m) => assert_eq!(m, "mailbox full"),
        _ => panic!("expected a delivery error"),
    }
    assert_eq!(err.status_code(), 500);
    assert_eq!(err.message(), "Error sending email: mailbox full");
    assert_eq!(gateway.gateway().sent, vec!["ada@example.com".to_string()]);
}

#[test]
fn incomplete_issue_is_refused_before_anything_is_sent() {
    let mut store = SubscriberStore::new();
    let mut mock = Mailer::new(MockEmailService::new());
    let id = subscribe(&mut store, &mut mock, form("Ada", "ada@example.com")).unwrap();
    let token = store.token_for(id).unwrap();
    confirm(&mut store, &token).unwrap();
    let mut gateway = Mailer::new(FailingAfter { left: 5, sent: Vec::new() });
    let err = publish(&store, &issue("<p>x</p>", "x", ""), &mut gateway).unwrap_err();
    match &err {
        NewsletterError::PublishError(m) => assert_eq!(m, "Missing subject"),
        _ => panic!("expected a validation error"),
    }
    assert_eq!(err.message(), "Publish Error: Missing subject");
    assert!(gateway.gateway().sent.is_empty());
}
