//! Email messages, the delivery gateway, and the confirmation message.

use vstd::prelude::*;
use vstd::string::*;

verus! {

/// An email message.
#[derive(Debug)]
pub struct Email {
    /// The recipient's address.
    pub to: String,
    /// The HTML body.
    pub html: String,
    /// The sender's address; empty means the gateway's configured sender.
    pub from: String,
    pub subject: String,
    /// The reply-to address; empty means none.
    pub reply_to: String,
    /// The plaintext body, for clients that do not show HTML.
    pub plaintext: String,
}

/// A delivery gateway: it attempts to deliver one message and reports
/// success or a delivery error.
pub trait EmailService {
    fn send(&mut self, email: &Email) -> (r: Result<(), String>);
}

/// The sender address to use for a message: its own, or the configured
/// default when it names none.
pub fn sender_or_default(from: &String, default_sender: &String) -> (r: String)
    ensures
        r@ == if from@.len() == 0 {
            default_sender@
        } else {
            from@
        },
{
    if from.as_str().unicode_len() == 0 {
        default_sender.clone()
    } else {
        from.clone()
    }
}

/// A gateway that delivers nothing and records the recipient, the HTML
/// body and the plaintext body of every message it is handed.
#[derive(Debug)]
pub struct MockEmailService {
    pub sent_messages: Vec<(String, String, String)>,
}

impl MockEmailService {
    pub fn new() -> (r: MockEmailService)
        ensures
            r.sent_messages@.len() == 0,
    {
        MockEmailService { sent_messages: Vec::new() }
    }

    /// Appends the message to the record.
    pub fn record(&mut self, email: &Email)
        ensures
            final(self).sent_messages@.len() == old(self).sent_messages@.len() + 1,
            final(self).sent_messages@.subrange(0, old(self).sent_messages@.len() as int)
                == old(self).sent_messages@,
            final(self).sent_messages@.last().0@ == email.to@,
            final(self).sent_messages@.last().1@ == email.html@,
            final(self).sent_messages@.last().2@ == email.plaintext@,
    {
        self.sent_messages.push((email.to.clone(), email.html.clone(), email.plaintext.clone()));
        assert(self.sent_messages@.subrange(0, old(self).sent_messages@.len() as int)
            =~= old(self).sent_messages@);
    }
}

impl Default for MockEmailService {
    fn default() -> (r: MockEmailService)
        ensures
            r.sent_messages@.len() == 0,
    {
        MockEmailService::new()
    }
}

impl EmailService for MockEmailService {
    fn send(&mut self, email: &Email) -> (r: Result<(), String>)
        ensures
            r is Ok,
            final(self).sent_messages@.len() == old(self).sent_messages@.len() + 1,
            final(self).sent_messages@.subrange(0, old(self).sent_messages@.len() as int)
                == old(self).sent_messages@,
            final(self).sent_messages@.last().0@ == email.to@,
            final(self).sent_messages@.last().1@ == email.html@,
            final(self).sent_messages@.last().2@ == email.plaintext@,
    {
        self.record(email);
        Ok(())
    }
}

/// A gateway together with a record of every message handed to it and of
/// the answer it gave. The library hands messages over only through
/// `Mailer::send`, so the record is what the gateway was asked to deliver.
pub struct Mailer<E: EmailService> {
    gateway: E,
    handed: Ghost<Seq<(Email, Result<(), String>)>>,
}

impl<E: EmailService> Mailer<E> {
    /// The messages handed over so far, each with the gateway's answer.
    pub closed spec fn handed(&self) -> Seq<(Email, Result<(), String>)> {
        self.handed@
    }

    pub closed spec fn gateway_view(&self) -> E {
        self.gateway
    }

    pub fn new(gateway: E) -> (r: Mailer<E>)
        ensures
            r.handed() == Seq::<(Email, Result<(), String>)>::empty(),
            r.gateway_view() == gateway,
    {
        Mailer { gateway, handed: Ghost(Seq::empty()) }
    }

    pub fn gateway(&self) -> (r: &E)
        ensures
            *r == self.gateway_view(),
    {
        &self.gateway
    }

    pub fn into_gateway(self) -> (r: E)
        ensures
            r == self.gateway_view(),
    {
        self.gateway
    }

    /// Hands `email` to the gateway and records it with the answer.
    pub fn send(&mut self, email: &Email) -> (r: Result<(), String>)
        ensures
            final(self).handed() == old(self).handed().push((*email, r)),
    {
        let r = self.gateway.send(email);
        proof {
            self.handed@ = self.handed@.push((*email, r));
        }
        r
    }
}

/// The page that confirms a subscription.
pub const CONFIRMATION_URL: &'static str = "https://zero2prod.xyz/confirm?token=";

pub const WELCOME: &'static str = "Welcome to our newsletter!";

pub open spec fn confirmation_link(token: Seq<char>) -> Seq<char> {
    CONFIRMATION_URL@ + token
}

pub open spec fn confirmation_subject() -> Seq<char> {
    WELCOME@
}

pub open spec fn confirmation_text(token: Seq<char>) -> Seq<char> {
    WELCOME@ + "\nPlease confirm your subscription by visiting: "@ + confirmation_link(token)
}

pub open spec fn confirmation_html(token: Seq<char>) -> Seq<char> {
    "<p>"@ + WELCOME@ + "</p>\n<p>Please <a href=\""@ + confirmation_link(token)
        + "\">confirm your subscription</a>.</p>"@
}

/// The subject of the confirmation message.
pub struct ConfirmationEmailSubject {}

impl ConfirmationEmailSubject {
    pub fn render(&self) -> (r: String)
        ensures
            r@ == confirmation_subject(),
    {
        String::from_str(WELCOME)
    }
}

/// The plaintext body of the confirmation message.
pub struct ConfirmationEmailTxtTemplate {
    pub token: String,
}

impl ConfirmationEmailTxtTemplate {
    pub fn render(&self) -> (r: String)
        ensures
            r@ == confirmation_text(self.token@),
    {
        let mut r = String::from_str(WELCOME);
        r.append("\nPlease confirm your subscription by visiting: ");
        r.append(CONFIRMATION_URL);
        r.append(self.token.as_str());
        assert(r@ =~= confirmation_text(self.token@));
        r
    }
}

/// The HTML body of the confirmation message.
pub struct ConfirmationEmailHtmlTemplate {
    pub token: String,
}

impl ConfirmationEmailHtmlTemplate {
    pub fn render(&self) -> (r: String)
        ensures
            r@ == confirmation_html(self.token@),
    {
        let mut r = String::from_str("<p>");
        r.append(WELCOME);
        r.append("</p>\n<p>Please <a href=\"");
        r.append(CONFIRMATION_URL);
        r.append(self.token.as_str());
        r.append("\">confirm your subscription</a>.</p>");
        assert(r@ =~= confirmation_html(self.token@));
        r
    }
}

/// `e` asks `to` to confirm with `token`: the welcome subject, the link
/// in both bodies, the gateway's default sender, no reply-to address.
pub open spec fn is_confirmation_message(e: Email, to: Seq<char>, token: Seq<char>) -> bool {
    &&& e.to@ == to
    &&& e.from@.len() == 0
    &&& e.reply_to@.len() == 0
    &&& e.subject@ == confirmation_subject()
    &&& e.plaintext@ == confirmation_text(token)
    &&& e.html@ == confirmation_html(token)
}

/// The message that asks `to` to confirm with `token`.
pub fn confirmation_email(to: &String, token: &String) -> (r: Email)
    ensures
        is_confirmation_message(r, to@, token@),
{
    let html = ConfirmationEmailHtmlTemplate { token: token.clone() };
    let text = ConfirmationEmailTxtTemplate { token: token.clone() };
    Email {
        to: to.clone(),
        html: html.render(),
        from: String::new(),
        subject: ConfirmationEmailSubject {}.render(),
        reply_to: String::new(),
        plaintext: text.render(),
    }
}

/// Hands the confirmation message for `token` to the gateway, once, and
/// returns the gateway's answer.
pub fn send_confirmation_email<E: EmailService>(mailer: &mut Mailer<E>, to: &String, token: &String) -> (r: Result<(), String>)
    ensures
        final(mailer).handed().len() == old(mailer).handed().len() + 1,
        final(mailer).handed().drop_last() == old(mailer).handed(),
        is_confirmation_message(final(mailer).handed().last().0, to@, token@),
        final(mailer).handed().last().1 == r,
{
    let email = confirmation_email(to, token);
    let r = mailer.send(&email);
    assert(mailer.handed().drop_last() =~= old(mailer).handed());
    r
}

} // verus!
