//! The double opt-in protocol: registration of a pending subscriber with a
//! single-use token, and confirmation by presenting that token.

use vstd::prelude::*;
use crate::email::{is_confirmation_message, send_confirmation_email, EmailService, Mailer};
use crate::store::{StoreModel, SubscriberStore};
use crate::subscriber::{parse_subscriber, valid_email, valid_name, SubscriberError, SubscriberFormData};

verus! {

/// The store after registering `email` and `name` with token `token`.
pub open spec fn registered(m: StoreModel, email: Seq<char>, name: Seq<char>, token: Seq<char>) -> StoreModel {
    m.with_pending(email, name).with_token(token, m.next_id)
}

/// The store after `token` was presented for confirmation.
pub open spec fn confirmed(m: StoreModel, token: Seq<char>) -> StoreModel {
    match m.token_owner(token) {
        Some(id) => m.with_confirmed(id).without_token(token),
        None => m,
    }
}

/// The query of a confirmation request.
#[derive(Debug)]
pub struct ConfirmRequest {
    pub token: String,
}

/// The form of a hyphenated UUID: 36 characters, hyphens at positions 8,
/// 13, 18 and 23, lowercase hexadecimal digits elsewhere.
pub open spec fn is_uuid_text(t: Seq<char>) -> bool {
    &&& t.len() == 36
    &&& forall|i: int|
        0 <= i < 36 ==> if i == 8 || i == 13 || i == 18 || i == 23 {
            #[trigger] t[i] == '-'
        } else {
            ('0' <= t[i] && t[i] <= '9') || ('a' <= t[i] && t[i] <= 'f')
        }
}

/// Relies on `uuid::Uuid::new_v4`, a random version 4 UUID, written out by
/// its `Display` (lowercase hexadecimal, hyphenated).
#[verifier::external_body]
fn new_token() -> (r: String)
    ensures
        is_uuid_text(r@),
{
    uuid::Uuid::new_v4().to_string()
}

/// Validates the form, then stores a pending subscriber and makes `token`
/// live for it. Invalid input writes nothing. A token that is already live
/// fails the second write and leaves the pending subscriber without a token.
pub fn register_with_token(store: &mut SubscriberStore, form: SubscriberFormData, token: String) -> (r: Result<u64, SubscriberError>)
    requires
        old(store).wf(),
    ensures
        final(store).wf(),
        !(valid_email(form.email@) && valid_name(form.name@)) ==> (r matches Err(
            SubscriberError::ParseError(_),
        )) && final(store)@ == old(store)@,
        valid_email(form.email@) && valid_name(form.name@) && old(store)@.next_id == u64::MAX ==> (r matches Err(
            SubscriberError::DatabaseError(_),
        )) && final(store)@ == old(store)@,
        valid_email(form.email@) && valid_name(form.name@) && old(store)@.next_id < u64::MAX
            && old(store)@.token_owner(token@) is Some ==> (r matches Err(
            SubscriberError::DatabaseError(_),
        )) && final(store)@ == old(store)@.with_pending(form.email@, form.name@),
        valid_email(form.email@) && valid_name(form.name@) && old(store)@.next_id < u64::MAX
            && old(store)@.token_owner(token@) is None ==> r == Ok::<u64, SubscriberError>(
            old(store)@.next_id,
        ) && final(store)@ == registered(old(store)@, form.email@, form.name@, token@),
{
    let ghost email = form.email@;
    let ghost name = form.name@;
    let new_subscriber = parse_subscriber(form)?;
    let id = store.insert_pending_subscriber(new_subscriber)?;
    proof {
        let m = store@;
        if m.holds_token(id) {
            let i = choose|i: int| 0 <= i < m.tokens.len() && #[trigger] m.tokens[i].subscriber_id == id;
            assert(old(store)@.tokens[i].subscriber_id < old(store)@.next_id);
        }
    }
    store.insert_token(token, id)?;
    Ok(id)
}

/// Registers with a fresh random token, and returns the new subscriber's id
/// and its token. Only a token that happens to be live already can make a
/// valid registration fail while ids remain.
pub fn register(store: &mut SubscriberStore, form: SubscriberFormData) -> (r: Result<(u64, String), SubscriberError>)
    requires
        old(store).wf(),
    ensures
        final(store).wf(),
        !(valid_email(form.email@) && valid_name(form.name@)) ==> (r matches Err(
            SubscriberError::ParseError(_),
        )) && final(store)@ == old(store)@,
        valid_email(form.email@) && valid_name(form.name@) ==> !(r matches Err(
            SubscriberError::ParseError(_),
        )),
        valid_email(form.email@) && valid_name(form.name@) && old(store)@.next_id == u64::MAX ==> (r matches Err(
            SubscriberError::DatabaseError(_),
        )) && final(store)@ == old(store)@,
        valid_email(form.email@) && valid_name(form.name@) && old(store)@.next_id < u64::MAX && (forall|
            t: Seq<char>,
        | is_uuid_text(t) ==> (#[trigger] old(store)@.token_owner(t)) is None) ==> r is Ok,
        r matches Ok((id, t)) ==> id == old(store)@.next_id && is_uuid_text(t@)
            && old(store)@.token_owner(t@) is None && final(store)@ == registered(
            old(store)@,
            form.email@,
            form.name@,
            t@,
        ),
        r matches Err(SubscriberError::DatabaseError(_)) ==> final(store)@ == old(store)@
            || final(store)@ == old(store)@.with_pending(form.email@, form.name@),
        r matches Err(e) ==> (e is ParseError || e is DatabaseError),
{
    let token = new_token();
    let id = register_with_token(store, form, token.clone())?;
    Ok((id, token))
}

/// The subscription flow: registers, then hands the confirmation message,
/// with the stored token, to the gateway. A failed delivery keeps the
/// registration and is answered with the gateway's words. A refused
/// registration sends nothing.
pub fn subscribe<E: EmailService>(store: &mut SubscriberStore, mailer: &mut Mailer<E>, form: SubscriberFormData) -> (r: Result<u64, SubscriberError>)
    requires
        old(store).wf(),
    ensures
        final(store).wf(),
        !(valid_email(form.email@) && valid_name(form.name@)) ==> (r matches Err(
            SubscriberError::ParseError(_),
        )) && final(store)@ == old(store)@ && *final(mailer) == *old(mailer),
        valid_email(form.email@) && valid_name(form.name@) ==> !(r matches Err(
            SubscriberError::ParseError(_),
        )),
        valid_email(form.email@) && valid_name(form.name@) && old(store)@.next_id == u64::MAX ==> (r matches Err(
            SubscriberError::DatabaseError(_),
        )) && final(store)@ == old(store)@,
        valid_email(form.email@) && valid_name(form.name@) && old(store)@.next_id < u64::MAX && (forall|
            t: Seq<char>,
        | is_uuid_text(t) ==> (#[trigger] old(store)@.token_owner(t)) is None) ==> (r is Ok || (r matches Err(
            SubscriberError::EmailError(_),
        ))),
        r matches Err(SubscriberError::DatabaseError(_)) ==> *final(mailer) == *old(mailer)
            && (final(store)@ == old(store)@
            || final(store)@ == old(store)@.with_pending(form.email@, form.name@)),
        r is Ok || (r matches Err(SubscriberError::EmailError(_))) ==> exists|t: Seq<char>|
            old(store)@.token_owner(t) is None && final(store)@ == #[trigger] registered(
                old(store)@,
                form.email@,
                form.name@,
                t,
            ) && is_confirmation_message(final(mailer).handed().last().0, form.email@, t),
        r is Ok || (r matches Err(SubscriberError::EmailError(_))) ==> final(mailer).handed().len()
            == old(mailer).handed().len() + 1
            && final(mailer).handed().drop_last() == old(mailer).handed(),
        r matches Ok(id) ==> id == old(store)@.next_id && final(mailer).handed().last().1 is Ok,
        r matches Err(SubscriberError::EmailError(m)) ==> final(mailer).handed().last().1 == Err::<
            (),
            String,
        >(m),
        r matches Err(e) ==> !(e is InvalidToken),
{
    let email = form.email.clone();
    let ghost name = form.name@;
    let (id, token) = register(store, form)?;
    let sent = send_confirmation_email(mailer, &email, &token);
    assert(store@ == registered(old(store)@, email@, name, token@));
    match sent {
        Ok(()) => Ok(id),
        Err(e) => Err(SubscriberError::EmailError(e)),
    }
}

/// Confirms the subscriber that owns `token`: its status becomes confirmed,
/// then the token is deleted. A token that is not live is refused.
pub fn confirm(store: &mut SubscriberStore, token: &String) -> (r: Result<(), SubscriberError>)
    requires
        old(store).wf(),
    ensures
        final(store).wf(),
        final(store)@ == confirmed(old(store)@, token@),
        old(store)@.token_owner(token@) is Some ==> r is Ok,
        old(store)@.token_owner(token@) is None ==> (r matches Err(SubscriberError::InvalidToken(t))
            && t@ == token@),
{
    match store.find_subscriber_by_token(token) {
        None => Err(SubscriberError::InvalidToken(token.clone())),
        Some(id) => {
            store.set_confirmed(id);
            store.delete_token(token);
            Ok(())
        },
    }
}

} // verus!
