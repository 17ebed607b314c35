use zero2prod::email::{
    confirmation_email, send_confirmation_email, Mailer, sender_or_default, ConfirmationEmailHtmlTemplate,
    ConfirmationEmailSubject, ConfirmationEmailTxtTemplate, Email, EmailService,
    MockEmailService,
};

#[test]
fn send_valid_email() {
    let email_service = &mut MockEmailService::new();

    let to = String::from("recipient@example.com");
    let from = String::from("sender@example.com");
    let subject = String::from("Greetings");
    let plaintext = String::from("Hello there, how are you?");

    let email = Email {
        to: to.clone(),
        from,
        html: String::new(),
        subject,
        reply_to: String::new(),
        plaintext,
    };

    let res = email_service.send(&email);
    assert!(res.is_ok());

    let sent_messages = &email_service.sent_messages;
    assert_eq!(1, sent_messages.len());

    if let Some(message) = sent_messages.get(0) {
        assert_eq!(to, message.0);
    } else {
        panic!("Message not sent");
    }
}

#[test]
fn mock_records_every_message_in_order() {
    let mut mock = MockEmailService::default();
    for (i, to) in ["a@x.io", "b@y.io"].iter().enumerate() {
        let email = Email {
            to: to.to_string(),
            html: format!("<p>{}</p>", i),
            from: String::new(),
            subject: "s".into(),
            reply_to: String::new(),
            plaintext: format!("{}", i),
        };
        mock.record(&email);
    }
    assert_eq!(
        mock.sent_messages,
        vec![
            ("a@x.io".to_string(), "<p>0</p>".to_string(), "0".to_string()),
            ("b@y.io".to_string(), "<p>1</p>".to_string(), "1".to_string()),
        ]
    );
}

#[test]
fn confirmation_message_carries_the_link() {
    let token = String::from("0f1e2d3c-4b5a-6978-8796-a5b4c3d2e1f0");
    let link = format!("https://zero2prod.xyz/confirm?token={}", token);
    let email = confirmation_email(&"ada@example.com".to_string(), &token);
    assert_eq!(email.to, "ada@example.com");
    assert_eq!(email.from, "");
    assert_eq!(email.reply_to, "");
    assert_eq!(email.subject, "Welcome to our newsletter!");
    assert!(email.html.contains(&link));
    assert!(email.plaintext.contains(&link));
    assert!(email.plaintext.contains("confirm your subscription"));
    assert_eq!(
        email.plaintext,
        format!("Welcome to our newsletter!\nPlease confirm your subscription by visiting: {}", link)
    );
    assert_eq!(
        email.html,
        format!(
            "<p>Welcome to our newsletter!</p>\n<p>Please <a href=\"{}\">confirm your subscription</a>.</p>",
            link
        )
    );
}

#[test]
fn templates_render_alone() {
    assert_eq!(ConfirmationEmailSubject {}.render(), "Welcome to our newsletter!");
    let t = ConfirmationEmailTxtTemplate { token: "tok".into() };
    assert!(t.render().ends_with("https://zero2prod.xyz/confirm?token=tok"));
    let h = ConfirmationEmailHtmlTemplate { token: "tok".into() };
    assert!(h.render().contains("href=\"https://zero2prod.xyz/confirm?token=tok\""));
}

#[test]
fn sender_defaults_when_empty() {
    let default = String::from("news@zero2prod.xyz");
    assert_eq!(sender_or_default(&String::new(), &default), "news@zero2prod.xyz");
    assert_eq!(sender_or_default(&"me@x.io".to_string(), &default), "me@x.io");
}

#[test]
fn confirmation_is_handed_over_once() {
    let mut mailer = Mailer::new(MockEmailService::new());
    let token = String::from("tok-123");
    let r = send_confirmation_email(&mut mailer, &"ada@example.com".to_string(), &token);
    assert!(r.is_ok());
    let sent = &mailer.gateway().sent_messages;
    assert_eq!(sent.len(), 1);
    assert_eq!(sent[0].0, "ada@example.com");
    assert!(sent[0].1.contains("https://zero2prod.xyz/confirm?token=tok-123"));
    assert!(sent[0].2.contains("https://zero2prod.xyz/confirm?token=tok-123"));
    assert!(sent[0].2.contains("confirm your subscription"));
}
