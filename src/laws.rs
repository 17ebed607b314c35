//! Properties of the service that relate several operations, proved over
//! the store model and the validation rules.

use vstd::prelude::*;
use crate::auth::{argon2_accepts, credentials_check};
use crate::confirmation::{confirmed, registered};
use crate::store::{confirmed_emails_of, StoreModel, SubscriberModel};
use crate::subscriber::{valid_email, valid_name, SubscriptionStatus};
use crate::text::{is_blank, trimmed_len};

verus! {

/// Registering a valid subscriber with a token that is not live stores it
/// as pending, with that token as its one live token. Presenting the token
/// then confirms the subscriber and consumes the token, so that presenting
/// it a second time changes nothing and is refused.
pub proof fn lemma_register_confirm_cycle(m: StoreModel, email: Seq<char>, name: Seq<char>, token: Seq<char>)
    requires
        m.wf(),
        valid_email(email),
        valid_name(name),
        m.next_id < u64::MAX,
        m.token_owner(token) is None,
    ensures
        registered(m, email, name, token).wf(),
        registered(m, email, name, token).subscriber(m.next_id) == Some(
            SubscriberModel { id: m.next_id, email, name, status: SubscriptionStatus::Pending },
        ),
        registered(m, email, name, token).live_tokens(m.next_id) == set![token],
        confirmed(registered(m, email, name, token), token).wf(),
        confirmed(registered(m, email, name, token), token).subscriber(m.next_id) == Some(
            SubscriberModel { id: m.next_id, email, name, status: SubscriptionStatus::Confirmed },
        ),
        confirmed(registered(m, email, name, token), token).token_owner(token) is None,
        confirmed(confirmed(registered(m, email, name, token), token), token) == confirmed(
            registered(m, email, name, token),
            token,
        ),
{
    let id = m.next_id;
    let p = m.with_pending(email, name);
    m.lemma_with_pending_wf(email, name);
    let last = p.subscribers.len() - 1;
    assert(p.subscribers[last].id == id);
    assert(p.tokens == m.tokens);
    if p.holds_token(id) {
        let i = choose|i: int| 0 <= i < p.tokens.len() && #[trigger] p.tokens[i].subscriber_id == id;
        assert(m.tokens[i].subscriber_id < m.next_id);
    }
    p.lemma_with_token_wf(token, id);
    let m1 = registered(m, email, name, token);
    assert(m1.subscribers == p.subscribers);
    assert(m1.subscribers[last].id == id);
    let k = choose|i: int| 0 <= i < m1.subscribers.len() && #[trigger] m1.subscribers[i].id == id;
    assert(k == last);
    let tl = m1.tokens.len() - 1;
    assert(m1.tokens[tl].token == token);
    let j = choose|i: int| 0 <= i < m1.tokens.len() && #[trigger] m1.tokens[i].token == token;
    assert(j == tl);
    assert(m1.token_owner(token) == Some(id));
    assert forall|t: Seq<char>| m1.live_tokens(id).contains(t) <==> set![token].contains(t) by {
        if m1.token_owner(t) == Some(id) {
            let a = choose|i: int| 0 <= i < m1.tokens.len() && #[trigger] m1.tokens[i].token == t;
            assert(m1.tokens[a].subscriber_id == id);
            assert(a == tl);
        }
    }
    assert(m1.live_tokens(id) =~= set![token]);

    let c = m1.with_confirmed(id);
    m1.lemma_with_confirmed_wf(id);
    c.lemma_without_token_wf(token);
    let m2 = c.without_token(token);
    assert(m2 == confirmed(m1, token));
    assert(c.tokens == m1.tokens);
    assert(c.tokens[tl].token == token);
    assert(m2.tokens == m1.tokens.remove(tl));
    assert(m2.subscribers == c.subscribers);
    assert(m2.subscribers[last].id == id);
    let k2 = choose|i: int| 0 <= i < m2.subscribers.len() && #[trigger] m2.subscribers[i].id == id;
    assert(k2 == last);
    if exists|i: int| 0 <= i < m2.tokens.len() && #[trigger] m2.tokens[i].token == token {
        let a = choose|i: int| 0 <= i < m2.tokens.len() && #[trigger] m2.tokens[i].token == token;
        assert(m2.tokens[a] == m1.tokens[a]);
    }
}

/// In every well-formed store a subscriber holds at most one live token.
pub proof fn lemma_one_live_token(m: StoreModel, id: u64, t1: Seq<char>, t2: Seq<char>)
    requires
        m.wf(),
        m.token_owner(t1) == Some(id),
        m.token_owner(t2) == Some(id),
    ensures
        t1 == t2,
{
    let i1 = choose|i: int| 0 <= i < m.tokens.len() && #[trigger] m.tokens[i].token == t1;
    let i2 = choose|i: int| 0 <= i < m.tokens.len() && #[trigger] m.tokens[i].token == t2;
    assert(m.tokens[i1].subscriber_id == m.tokens[i2].subscriber_id);
}

/// An address without `@`, one that begins with `@`, and a blank one are
/// all malformed, so registration refuses them.
pub proof fn lemma_malformed_emails(s: Seq<char>)
    requires
        (forall|i: int| 0 <= i < s.len() ==> s[i] != '@') || (s.len() > 0 && s[0] == '@')
            || is_blank(s),
    ensures
        !valid_email(s),
{
    if valid_email(s) {
        let k = choose|k: int|
            0 <= k < s.len() && #[trigger] s[k] == '@' && crate::subscriber::is_dot_atom(s.subrange(0, k))
                && crate::subscriber::is_domain(s.subrange(k + 1, s.len() as int));
        if k > 0 {
            assert(s.subrange(0, k)[0] == s[0]);
        }
        assert(s[k] == '@');
    }
}

/// A name that trims to nothing, or to more than fifty characters, is
/// refused.
pub proof fn lemma_malformed_names(n: Seq<char>)
    requires
        trimmed_len(n) == 0 || trimmed_len(n) > 50,
    ensures
        !valid_name(n),
{
}

/// An unknown username and a wrong password for a known one are refused
/// alike: neither authenticates anyone.
pub proof fn lemma_rejections_look_alike(
    m: StoreModel,
    unknown: Seq<char>,
    any_password: Seq<char>,
    known: Seq<char>,
    wrong_password: Seq<char>,
)
    requires
        m.user_named(unknown) is None,
        m.user_named(known) matches Some(u) && !argon2_accepts(u.password_hash, wrong_password),
    ensures
        credentials_check(m, unknown, any_password) is None,
        credentials_check(m, known, wrong_password) is None,
{
}

/// A broadcast goes to an address exactly when a confirmed subscriber has
/// that address: a subscriber who never confirmed receives none, unless a
/// confirmed subscriber shares the address.
pub proof fn lemma_broadcast_reaches_confirmed_only(m: StoreModel, e: Seq<char>)
    ensures
        m.confirmed_emails().contains(e) <==> exists|j: int|
            0 <= j < m.subscribers.len() && (#[trigger] m.subscribers[j]).status
                == SubscriptionStatus::Confirmed && m.subscribers[j].email == e,
{
    lemma_confirmed_emails_of(m.subscribers, e);
}

proof fn lemma_confirmed_emails_of(s: Seq<SubscriberModel>, e: Seq<char>)
    ensures
        confirmed_emails_of(s).contains(e) <==> exists|j: int|
            0 <= j < s.len() && (#[trigger] s[j]).status == SubscriptionStatus::Confirmed && s[j].email
                == e,
    decreases s.len(),
{
    if s.len() > 0 {
        let init = s.drop_last();
        lemma_confirmed_emails_of(init, e);
        let rest = confirmed_emails_of(init);
        let last = s.len() - 1;
        if exists|j: int|
            0 <= j < s.len() && (#[trigger] s[j]).status == SubscriptionStatus::Confirmed && s[j].email == e {
            let j = choose|j: int|
                0 <= j < s.len() && (#[trigger] s[j]).status == SubscriptionStatus::Confirmed && s[j].email == e;
            if j < last {
                assert(init[j] == s[j]);
                let i = choose|i: int| 0 <= i < rest.len() && rest[i] == e;
                if s.last().status == SubscriptionStatus::Confirmed {
                    assert(rest.push(s.last().email)[i] == e);
                }
            } else {
                let r = rest.push(s.last().email);
                assert(r[r.len() - 1] == e);
            }
        }
        if confirmed_emails_of(s).contains(e) {
            if s.last().status == SubscriptionStatus::Confirmed && s.last().email == e {
                assert(s[last].email == e);
            } else {
                if s.last().status == SubscriptionStatus::Confirmed {
                    let i = choose|i: int|
                        0 <= i < confirmed_emails_of(s).len() && confirmed_emails_of(s)[i] == e;
                    assert(i < rest.len());
                    assert(rest[i] == e);
                }
                assert(rest.contains(e));
                let j = choose|j: int|
                    0 <= j < init.len() && (#[trigger] init[j]).status == SubscriptionStatus::Confirmed
                        && init[j].email == e;
                assert(s[j] == init[j]);
            }
        }
    }
}

} // verus!
