//! Newsletter issues and their broadcast to the confirmed subscribers.

use vstd::prelude::*;
use crate::email::{Email, EmailService, Mailer};
use crate::auth::{request_operator, validate_request};
use crate::store::SubscriberStore;
use crate::text::prefixed;

verus! {

/// A newsletter issue.
#[derive(Debug)]
pub struct Newsletter {
    pub html: String,
    pub text: String,
    pub subject: String,
}

/// An issue can be sent only with all three parts present.
pub open spec fn complete(issue: Newsletter) -> bool {
    issue.html@.len() > 0 && issue.text@.len() > 0 && issue.subject@.len() > 0
}

/// The errors of publishing an issue.
#[derive(Debug)]
pub enum NewsletterError {
    /// The issue lacks its html body, its text body or its subject.
    PublishError(String),
    /// A delivery failed; the broadcast stopped there.
    EmailError(String),
    /// The requester could not be authenticated.
    AuthError,
}

impl NewsletterError {
    /// 400 for an incomplete issue, 401 for refused credentials, 500 for a
    /// failed delivery.
    pub fn status_code(&self) -> (r: u16)
        ensures
            r == (match self {
                NewsletterError::PublishError(_) => 400u16,
                NewsletterError::EmailError(_) => 500u16,
                NewsletterError::AuthError => 401u16,
            }),
    {
        match self {
            NewsletterError::PublishError(_) => 400,
            NewsletterError::EmailError(_) => 500,
            NewsletterError::AuthError => 401,
        }
    }

    /// A description of the error.
    pub fn message(&self) -> (r: String)
        ensures
            r@ == (match self {
                NewsletterError::PublishError(e) => "Publish Error: "@ + e@,
                NewsletterError::EmailError(e) => "Error sending email: "@ + e@,
                NewsletterError::AuthError => "Unauthorized"@,
            }),
    {
        match self {
            NewsletterError::PublishError(e) => prefixed("Publish Error: ", e),
            NewsletterError::EmailError(e) => prefixed("Error sending email: ", e),
            NewsletterError::AuthError => String::from_str("Unauthorized"),
        }
    }
}

/// `e` is the message of `issue` for the recipient `to`: the gateway's
/// default sender, no reply-to address.
pub open spec fn is_issue_message(e: Email, issue: Newsletter, to: Seq<char>) -> bool {
    &&& e.to@ == to
    &&& e.from@.len() == 0
    &&& e.reply_to@.len() == 0
    &&& e.subject@ == issue.subject@
    &&& e.html@ == issue.html@
    &&& e.plaintext@ == issue.text@
}

pub fn check_issue(issue: &Newsletter) -> (r: Result<(), NewsletterError>)
    ensures
        complete(*issue) ==> r is Ok,
        !complete(*issue) ==> (r matches Err(NewsletterError::PublishError(_))),
{
    if issue.html.as_str().unicode_len() == 0 {
        return Err(NewsletterError::PublishError(String::from_str("Missing html body")));
    }
    if issue.text.as_str().unicode_len() == 0 {
        return Err(NewsletterError::PublishError(String::from_str("Missing text body")));
    }
    if issue.subject.as_str().unicode_len() == 0 {
        return Err(NewsletterError::PublishError(String::from_str("Missing subject")));
    }
    Ok(())
}

/// `after` is `before` followed by `sent`, all accepted by the gateway;
/// `sent` holds the message of `issue` for each address of `to`, in order.
pub open spec fn delivered_all(
    before: Seq<(Email, Result<(), String>)>,
    after: Seq<(Email, Result<(), String>)>,
    sent: Seq<Email>,
    issue: Newsletter,
    to: Seq<Seq<char>>,
) -> bool {
    &&& sent.len() == to.len()
    &&& after.len() == before.len() + sent.len()
    &&& after.subrange(0, before.len() as int) == before
    &&& forall|i: int| 0 <= i < sent.len() ==> is_issue_message(#[trigger] sent[i], issue, to[i])
    &&& forall|j: int|
        before.len() <= j < after.len() ==> (#[trigger] after[j]).0 == sent[j - before.len()]
            && after[j].1 is Ok
}

/// `after` is `before` followed by the message of `issue` for the first
/// addresses of `to`, in order; the gateway accepted all of them but the
/// last, which it refused with `e`.
pub open spec fn stopped_at_failure(
    before: Seq<(Email, Result<(), String>)>,
    after: Seq<(Email, Result<(), String>)>,
    issue: Newsletter,
    to: Seq<Seq<char>>,
    e: String,
) -> bool {
    &&& before.len() < after.len() <= before.len() + to.len()
    &&& after.subrange(0, before.len() as int) == before
    &&& forall|j: int|
        before.len() <= j < after.len() ==> is_issue_message(
            (#[trigger] after[j]).0,
            issue,
            to[j - before.len()],
        )
    &&& forall|j: int| before.len() <= j < after.len() - 1 ==> (#[trigger] after[j]).1 is Ok
    &&& after.last().1 == Err::<(), String>(e)
}

/// The message of `issue` for `to`.
pub fn issue_email(issue: &Newsletter, to: &String) -> (r: Email)
    ensures
        is_issue_message(r, *issue, to@),
{
    Email {
        to: to.clone(),
        html: issue.html.clone(),
        from: String::new(),
        subject: issue.subject.clone(),
        reply_to: String::new(),
        plaintext: issue.text.clone(),
    }
}

/// Sends `issue` to every confirmed subscriber, in order of registration,
/// and returns the messages sent. An incomplete issue is refused before the
/// store is read, and nothing is sent. The first failed delivery ends the
/// broadcast with `EmailError`; the messages before it have gone out.
pub fn publish<E: EmailService>(store: &SubscriberStore, issue: &Newsletter, mailer: &mut Mailer<E>) -> (r: Result<Vec<Email>, NewsletterError>)
    ensures
        !complete(*issue) <==> (r matches Err(NewsletterError::PublishError(_))),
        !complete(*issue) ==> *final(mailer) == *old(mailer),
        r matches Ok(sent) ==> delivered_all(
            old(mailer).handed(),
            final(mailer).handed(),
            sent@,
            *issue,
            store@.confirmed_emails(),
        ),
        r matches Err(NewsletterError::EmailError(e)) ==> stopped_at_failure(
            old(mailer).handed(),
            final(mailer).handed(),
            *issue,
            store@.confirmed_emails(),
            e,
        ),
        complete(*issue) && store@.confirmed_emails().len() == 0 ==> r is Ok && *final(mailer)
            == *old(mailer),
        r matches Err(e) ==> !(e is AuthError),
{
    check_issue(issue)?;
    let recipients = store.confirmed_emails();
    let ghost to = store@.confirmed_emails();
    let ghost before = mailer.handed();
    let mut sent: Vec<Email> = Vec::new();
    let mut i: usize = 0;
    while i < recipients.len()
        invariant
            complete(*issue),
            to == store@.confirmed_emails(),
            before == old(mailer).handed(),
            recipients@.len() == to.len(),
            forall|k: int| 0 <= k < recipients@.len() ==> (#[trigger] recipients@[k])@ == to[k],
            i <= recipients.len(),
            sent@.len() == i,
            mailer.handed().len() == before.len() + i,
            mailer.handed().subrange(0, before.len() as int) == before,
            forall|k: int| 0 <= k < i ==> is_issue_message(#[trigger] sent@[k], *issue, to[k]),
            forall|j: int|
                before.len() <= j < mailer.handed().len() ==> (#[trigger] mailer.handed()[j]).0
                    == sent@[j - before.len()] && mailer.handed()[j].1 is Ok,
            i == 0 ==> *mailer == *old(mailer),
        decreases recipients.len() - i,
    {
        let email = issue_email(issue, &recipients[i]);
        let ghost h = mailer.handed();
        let ghost prev = sent@;
        let answer = mailer.send(&email);
        let ghost sent_email = email;
        match answer {
            Ok(()) => {
                sent.push(email);
                proof {
                    let after = mailer.handed();
                    assert(after == h.push((sent_email, answer)));
                    assert(sent@ == prev.push(sent_email));
                    assert(after.subrange(0, before.len() as int) =~= h.subrange(0, before.len() as int));
                    assert forall|j: int| before.len() <= j < after.len() implies (#[trigger] after[j]).0
                        == sent@[j - before.len()] && after[j].1 is Ok by {
                        if j < after.len() - 1 {
                            assert(after[j] == h[j]);
                            assert(sent@[j - before.len()] == prev[j - before.len()]);
                        } else {
                            assert(after[j] == (sent_email, answer));
                            assert(j - before.len() == prev.len());
                        }
                    }
                }
            },
            Err(e) => {
                proof {
                    let after = mailer.handed();
                    assert(after.subrange(0, before.len() as int) =~= h.subrange(0, before.len() as int));
                    assert forall|j: int| before.len() <= j < after.len() implies is_issue_message(
                        (#[trigger] after[j]).0,
                        *issue,
                        to[j - before.len()],
                    ) by {
                        if j < after.len() - 1 {
                            assert(after[j] == h[j]);
                        }
                    }
                    assert forall|j: int| before.len() <= j < after.len() - 1 implies (#[trigger] after[j]).1 is Ok by {
                        assert(after[j] == h[j]);
                    }
                }
                return Err(NewsletterError::EmailError(e));
            },
        }
        i += 1;
    }
    Ok(sent)
}

/// The publish request: the issue is checked first, then the requester's
/// credentials, and only then is the issue broadcast. A refused request
/// sends nothing.
pub fn publish_newsletter<E: EmailService>(
    store: &SubscriberStore,
    authorization: Option<&String>,
    issue: &Newsletter,
    mailer: &mut Mailer<E>,
) -> (r: Result<Vec<Email>, NewsletterError>)
    requires
        store.wf(),
    ensures
        !complete(*issue) <==> (r matches Err(NewsletterError::PublishError(_))),
        complete(*issue) && request_operator(store@, authorization) is None <==> (r matches Err(
            NewsletterError::AuthError,
        )),
        (r matches Err(NewsletterError::PublishError(_))) || (r matches Err(NewsletterError::AuthError))
            ==> *final(mailer) == *old(mailer),
        r matches Ok(sent) ==> delivered_all(
            old(mailer).handed(),
            final(mailer).handed(),
            sent@,
            *issue,
            store@.confirmed_emails(),
        ),
        r matches Err(NewsletterError::EmailError(e)) ==> stopped_at_failure(
            old(mailer).handed(),
            final(mailer).handed(),
            *issue,
            store@.confirmed_emails(),
            e,
        ),
        complete(*issue) && request_operator(store@, authorization) is Some
            && store@.confirmed_emails().len() == 0 ==> r is Ok,
{
    check_issue(issue)?;
    if validate_request(store, authorization).is_err() {
        return Err(NewsletterError::AuthError);
    }
    publish(store, issue, mailer)
}

} // verus!
