//! The subscriber store: subscribers, their confirmation tokens and the
//! operator credentials, held in memory.
//!
//! `StoreModel` is the mathematical picture of the store; every operation
//! of `SubscriberStore` is stated as a transition of that model.

use vstd::prelude::*;
use crate::subscriber::{
    valid_email, valid_name, NewSubscriber, Subscriber, SubscriberError, SubscriptionStatus,
};

verus! {

pub struct SubscriberModel {
    pub id: u64,
    pub email: Seq<char>,
    pub name: Seq<char>,
    pub status: SubscriptionStatus,
}

pub struct TokenModel {
    pub token: Seq<char>,
    pub subscriber_id: u64,
}

pub struct UserModel {
    pub id: u64,
    pub username: Seq<char>,
    pub password_hash: Seq<char>,
}

pub struct StoreModel {
    pub subscribers: Seq<SubscriberModel>,
    pub tokens: Seq<TokenModel>,
    pub users: Seq<UserModel>,
    /// The id that the next record will get.
    pub next_id: u64,
}

impl StoreModel {
    pub open spec fn empty() -> StoreModel {
        StoreModel {
            subscribers: Seq::empty(),
            tokens: Seq::empty(),
            users: Seq::empty(),
            next_id: 0,
        }
    }

    /// Ids are unique and already handed out, stored addresses and names
    /// are valid, a token string is live at most once, a subscriber holds at
    /// most one live token, and usernames are unique.
    pub open spec fn wf(self) -> bool {
        &&& forall|i: int| 0 <= i < self.subscribers.len() ==> #[trigger] self.subscribers[i].id < self.next_id
        &&& forall|i: int, j: int|
            0 <= i < self.subscribers.len() && 0 <= j < self.subscribers.len() && i != j
                ==> #[trigger] self.subscribers[i].id != #[trigger] self.subscribers[j].id
        &&& forall|i: int|
            0 <= i < self.subscribers.len() ==> valid_email(#[trigger] self.subscribers[i].email)
                && valid_name(self.subscribers[i].name)
        &&& forall|i: int| 0 <= i < self.tokens.len() ==> #[trigger] self.tokens[i].subscriber_id < self.next_id
        &&& forall|i: int, j: int|
            0 <= i < self.tokens.len() && 0 <= j < self.tokens.len() && i != j
                ==> #[trigger] self.tokens[i].token != #[trigger] self.tokens[j].token
        &&& forall|i: int, j: int|
            0 <= i < self.tokens.len() && 0 <= j < self.tokens.len() && i != j
                ==> #[trigger] self.tokens[i].subscriber_id != #[trigger] self.tokens[j].subscriber_id
        &&& forall|i: int| 0 <= i < self.users.len() ==> #[trigger] self.users[i].id < self.next_id
        &&& forall|i: int, j: int|
            0 <= i < self.users.len() && 0 <= j < self.users.len() && i != j
                ==> #[trigger] self.users[i].username != #[trigger] self.users[j].username
    }

    /// The subscriber that owns the live token `t`, if any.
    pub open spec fn token_owner(self, t: Seq<char>) -> Option<u64> {
        if exists|i: int| 0 <= i < self.tokens.len() && #[trigger] self.tokens[i].token == t {
            let i = choose|i: int| 0 <= i < self.tokens.len() && #[trigger] self.tokens[i].token == t;
            Some(self.tokens[i].subscriber_id)
        } else {
            None
        }
    }

    /// Whether subscriber `id` holds a live token.
    pub open spec fn holds_token(self, id: u64) -> bool {
        exists|i: int| 0 <= i < self.tokens.len() && #[trigger] self.tokens[i].subscriber_id == id
    }

    /// The live tokens of subscriber `id`.
    pub open spec fn live_tokens(self, id: u64) -> Set<Seq<char>> {
        Set::new(|t: Seq<char>| self.token_owner(t) == Some(id))
    }

    /// The stored subscriber with id `id`, if any.
    pub open spec fn subscriber(self, id: u64) -> Option<SubscriberModel> {
        if exists|i: int| 0 <= i < self.subscribers.len() && #[trigger] self.subscribers[i].id == id {
            let i = choose|i: int|
                0 <= i < self.subscribers.len() && #[trigger] self.subscribers[i].id == id;
            Some(self.subscribers[i])
        } else {
            None
        }
    }

    /// The operator account named `username`, if any.
    pub open spec fn user_named(self, username: Seq<char>) -> Option<UserModel> {
        if exists|i: int| 0 <= i < self.users.len() && #[trigger] self.users[i].username == username {
            let i = choose|i: int|
                0 <= i < self.users.len() && #[trigger] self.users[i].username == username;
            Some(self.users[i])
        } else {
            None
        }
    }

    /// The addresses of the confirmed subscribers, in order of registration.
    pub open spec fn confirmed_emails(self) -> Seq<Seq<char>> {
        confirmed_emails_of(self.subscribers)
    }

    /// A new pending subscriber under the next id.
    pub open spec fn with_pending(self, email: Seq<char>, name: Seq<char>) -> StoreModel {
        StoreModel {
            subscribers: self.subscribers.push(
                SubscriberModel { id: self.next_id, email, name, status: SubscriptionStatus::Pending },
            ),
            next_id: (self.next_id + 1) as u64,
            ..self
        }
    }

    /// Token `t` made live for subscriber `id`.
    pub open spec fn with_token(self, t: Seq<char>, id: u64) -> StoreModel {
        StoreModel { tokens: self.tokens.push(TokenModel { token: t, subscriber_id: id }), ..self }
    }

    /// Subscriber `id` marked as confirmed.
    pub open spec fn with_confirmed(self, id: u64) -> StoreModel {
        StoreModel {
            subscribers: self.subscribers.map_values(
                |s: SubscriberModel|
                    if s.id == id {
                        SubscriberModel { status: SubscriptionStatus::Confirmed, ..s }
                    } else {
                        s
                    },
            ),
            ..self
        }
    }

    /// Token `t` no longer live.
    pub open spec fn without_token(self, t: Seq<char>) -> StoreModel {
        if exists|i: int| 0 <= i < self.tokens.len() && #[trigger] self.tokens[i].token == t {
            let i = choose|i: int| 0 <= i < self.tokens.len() && #[trigger] self.tokens[i].token == t;
            StoreModel { tokens: self.tokens.remove(i), ..self }
        } else {
            self
        }
    }

    /// A new operator account under the next id.
    pub open spec fn with_user(self, username: Seq<char>, password_hash: Seq<char>) -> StoreModel {
        StoreModel {
            users: self.users.push(UserModel { id: self.next_id, username, password_hash }),
            next_id: (self.next_id + 1) as u64,
            ..self
        }
    }
}

impl StoreModel {
    pub proof fn lemma_with_pending_wf(self, email: Seq<char>, name: Seq<char>)
        requires
            self.wf(),
            valid_email(email),
            valid_name(name),
            self.next_id < u64::MAX,
        ensures
            self.with_pending(email, name).wf(),
    {
        let m = self.with_pending(email, name);
        assert forall|i: int| 0 <= i < m.subscribers.len() implies #[trigger] m.subscribers[i].id < m.next_id
            && valid_email(m.subscribers[i].email) && valid_name(m.subscribers[i].name) by {
            if i < self.subscribers.len() {
                assert(m.subscribers[i] == self.subscribers[i]);
            }
        }
        assert forall|i: int, j: int|
            0 <= i < m.subscribers.len() && 0 <= j < m.subscribers.len() && i != j
                implies #[trigger] m.subscribers[i].id != #[trigger] m.subscribers[j].id by {
            if i < self.subscribers.len() {
                assert(m.subscribers[i] == self.subscribers[i]);
            }
            if j < self.subscribers.len() {
                assert(m.subscribers[j] == self.subscribers[j]);
            }
        }
    }

    pub proof fn lemma_with_token_wf(self, t: Seq<char>, id: u64)
        requires
            self.wf(),
            id < self.next_id,
            self.token_owner(t) is None,
            !self.holds_token(id),
        ensures
            self.with_token(t, id).wf(),
    {
        let m = self.with_token(t, id);
        assert forall|i: int, j: int|
            0 <= i < m.tokens.len() && 0 <= j < m.tokens.len() && i != j
                implies #[trigger] m.tokens[i].token != #[trigger] m.tokens[j].token
                && m.tokens[i].subscriber_id != m.tokens[j].subscriber_id by {
            if i < self.tokens.len() {
                assert(m.tokens[i] == self.tokens[i]);
            }
            if j < self.tokens.len() {
                assert(m.tokens[j] == self.tokens[j]);
            }
        }
        assert forall|i: int| 0 <= i < m.tokens.len() implies #[trigger] m.tokens[i].subscriber_id < m.next_id by {
            if i < self.tokens.len() {
                assert(m.tokens[i] == self.tokens[i]);
            }
        }
    }

    pub proof fn lemma_with_confirmed_wf(self, id: u64)
        requires
            self.wf(),
        ensures
            self.with_confirmed(id).wf(),
    {
        let m = self.with_confirmed(id);
        assert forall|i: int, j: int|
            0 <= i < m.subscribers.len() && 0 <= j < m.subscribers.len() && i != j
                implies #[trigger] m.subscribers[i].id != #[trigger] m.subscribers[j].id by {
            assert(m.subscribers[i].id == self.subscribers[i].id);
            assert(m.subscribers[j].id == self.subscribers[j].id);
        }
        assert forall|i: int| 0 <= i < m.subscribers.len() implies #[trigger] m.subscribers[i].id < m.next_id
            && valid_email(m.subscribers[i].email) && valid_name(m.subscribers[i].name) by {
            assert(m.subscribers[i].id == self.subscribers[i].id);
            assert(m.subscribers[i].email == self.subscribers[i].email);
        }
    }

    pub proof fn lemma_without_token_wf(self, t: Seq<char>)
        requires
            self.wf(),
        ensures
            self.without_token(t).wf(),
    {
        if exists|i: int| 0 <= i < self.tokens.len() && #[trigger] self.tokens[i].token == t {
            let k = choose|i: int| 0 <= i < self.tokens.len() && #[trigger] self.tokens[i].token == t;
            let m = self.without_token(t);
            assert(m.tokens == self.tokens.remove(k));
            assert forall|a: int, b: int|
                0 <= a < m.tokens.len() && 0 <= b < m.tokens.len() && a != b implies #[trigger] m.tokens[a].token
                    != #[trigger] m.tokens[b].token && m.tokens[a].subscriber_id != m.tokens[b].subscriber_id by {
                let a2 = if a < k { a } else { a + 1 };
                let b2 = if b < k { b } else { b + 1 };
                assert(m.tokens[a] == self.tokens[a2]);
                assert(m.tokens[b] == self.tokens[b2]);
            }
            assert forall|a: int| 0 <= a < m.tokens.len() implies #[trigger] m.tokens[a].subscriber_id < m.next_id by {
                let a2 = if a < k { a } else { a + 1 };
                assert(m.tokens[a] == self.tokens[a2]);
            }
        }
    }
}

pub open spec fn confirmed_emails_of(s: Seq<SubscriberModel>) -> Seq<Seq<char>>
    decreases s.len(),
{
    if s.len() == 0 {
        Seq::empty()
    } else {
        let rest = confirmed_emails_of(s.drop_last());
        if s.last().status == SubscriptionStatus::Confirmed {
            rest.push(s.last().email)
        } else {
            rest
        }
    }
}

pub struct SubscriberRecord {
    pub id: u64,
    pub subscriber: Subscriber,
}

impl View for SubscriberRecord {
    type V = SubscriberModel;

    open spec fn view(&self) -> SubscriberModel {
        SubscriberModel {
            id: self.id,
            email: self.subscriber.email@,
            name: self.subscriber.name@,
            status: self.subscriber.status,
        }
    }
}

pub struct TokenRecord {
    pub token: String,
    pub subscriber_id: u64,
}

impl View for TokenRecord {
    type V = TokenModel;

    open spec fn view(&self) -> TokenModel {
        TokenModel { token: self.token@, subscriber_id: self.subscriber_id }
    }
}

pub struct UserRecord {
    pub id: u64,
    pub username: String,
    pub password_hash: String,
}

impl View for UserRecord {
    type V = UserModel;

    open spec fn view(&self) -> UserModel {
        UserModel { id: self.id, username: self.username@, password_hash: self.password_hash@ }
    }
}

/// The subscriber store.
pub struct SubscriberStore {
    subscribers: Vec<SubscriberRecord>,
    tokens: Vec<TokenRecord>,
    users: Vec<UserRecord>,
    next_id: u64,
}

impl View for SubscriberStore {
    type V = StoreModel;

    closed spec fn view(&self) -> StoreModel {
        StoreModel {
            subscribers: self.subscribers@.map_values(|r: SubscriberRecord| r@),
            tokens: self.tokens@.map_values(|r: TokenRecord| r@),
            users: self.users@.map_values(|r: UserRecord| r@),
            next_id: self.next_id,
        }
    }
}

impl SubscriberStore {
    pub open spec fn wf(&self) -> bool {
        self@.wf()
    }

    /// An empty store.
    pub fn new() -> (r: SubscriberStore)
        ensures
            r@ == StoreModel::empty(),
            r.wf(),
    {
        let r = SubscriberStore { subscribers: Vec::new(), tokens: Vec::new(), users: Vec::new(), next_id: 0 };
        assert(r@.subscribers =~= Seq::empty());
        assert(r@.tokens =~= Seq::empty());
        assert(r@.users =~= Seq::empty());
        r
    }

    /// Stores a pending subscriber under the next id; fails when the ids are
    /// used up.
    pub fn insert_pending_subscriber(&mut self, new: NewSubscriber) -> (r: Result<u64, SubscriberError>)
        requires
            old(self).wf(),
            valid_email(new.email@),
            valid_name(new.name@),
        ensures
            final(self).wf(),
            old(self)@.next_id < u64::MAX ==> r == Ok::<u64, SubscriberError>(old(self)@.next_id)
                && final(self)@ == old(self)@.with_pending(new.email@, new.name@),
            old(self)@.next_id == u64::MAX ==> (r matches Err(SubscriberError::DatabaseError(_)))
                && final(self)@ == old(self)@,
    {
        if self.next_id == u64::MAX {
            return Err(SubscriberError::DatabaseError(String::from_str("subscriber ids exhausted")));
        }
        let id = self.next_id;
        let ghost old_view = self@;
        self.subscribers.push(
            SubscriberRecord {
                id,
                subscriber: Subscriber {
                    email: new.email,
                    name: new.name,
                    status: SubscriptionStatus::Pending,
                },
            },
        );
        self.next_id = id + 1;
        assert(self@.subscribers =~= old_view.with_pending(new.email@, new.name@).subscribers);
        Ok(id)
    }

    /// Makes `token` live for subscriber `id`; fails when the token string
    /// is already live or the subscriber already holds a token.
    pub fn insert_token(&mut self, token: String, id: u64) -> (r: Result<(), SubscriberError>)
        requires
            old(self).wf(),
            id < old(self)@.next_id,
        ensures
            final(self).wf(),
            old(self)@.token_owner(token@) is None && !old(self)@.holds_token(id) ==> r is Ok
                && final(self)@ == old(self)@.with_token(token@, id),
            !(old(self)@.token_owner(token@) is None && !old(self)@.holds_token(id)) ==> (r matches Err(
                SubscriberError::DatabaseError(_),
            )) && final(self)@ == old(self)@,
    {
        let mut i: usize = 0;
        while i < self.tokens.len()
            invariant
                self.wf(),
                i <= self.tokens.len(),
                forall|j: int|
                    0 <= j < i ==> (#[trigger] self@.tokens[j]).token != token@
                        && self@.tokens[j].subscriber_id != id,
            decreases self.tokens.len() - i,
        {
            if self.tokens[i].token == token || self.tokens[i].subscriber_id == id {
                proof {
                    let t = self@.tokens[i as int];
                    assert(t == self.tokens@[i as int]@);
                    if self.tokens@[i as int].token@ == token@ {
                        assert(t.token == token@);
                        assert(self@.token_owner(token@) is Some);
                    } else {
                        assert(t.subscriber_id == id);
                        assert(self@.holds_token(id));
                    }
                }
                return Err(SubscriberError::DatabaseError(String::from_str("token already issued")));
            }
            i += 1;
        }
        let ghost old_view = self@;
        self.tokens.push(TokenRecord { token, subscriber_id: id });
        assert(self@.tokens =~= old_view.with_token(token@, id).tokens);
        Ok(())
    }

    /// The subscriber that owns the live token `token`, if any.
    pub fn find_subscriber_by_token(&self, token: &String) -> (r: Option<u64>)
        requires
            self.wf(),
        ensures
            r == self@.token_owner(token@),
    {
        let mut i: usize = 0;
        while i < self.tokens.len()
            invariant
                self.wf(),
                i <= self.tokens.len(),
                forall|j: int| 0 <= j < i ==> (#[trigger] self@.tokens[j]).token != token@,
            decreases self.tokens.len() - i,
        {
            if self.tokens[i].token == *token {
                assert(self@.tokens[i as int].token == token@);
                return Some(self.tokens[i].subscriber_id);
            }
            i += 1;
        }
        None
    }

    /// Marks subscriber `id` as confirmed.
    pub fn set_confirmed(&mut self, id: u64)
        requires
            old(self).wf(),
        ensures
            final(self).wf(),
            final(self)@ == old(self)@.with_confirmed(id),
    {
        let ghost old_view = self@;
        let mut i: usize = 0;
        while i < self.subscribers.len()
            invariant
                old_view.wf(),
                old_view == old(self)@,
                i <= self.subscribers.len(),
                self@ == old_view,
                forall|j: int| 0 <= j < i ==> (#[trigger] self@.subscribers[j]).id != id,
            decreases self.subscribers.len() - i,
        {
            if self.subscribers[i].id == id {
                self.subscribers[i].subscriber.status = SubscriptionStatus::Confirmed;
                proof {
                    let target = old_view.with_confirmed(id).subscribers;
                    assert forall|j: int| 0 <= j < self@.subscribers.len() implies self@.subscribers[j]
                        == target[j] by {
                        if j != i {
                            assert(old_view.subscribers[j].id != old_view.subscribers[i as int].id);
                        }
                    }
                    assert(self@.subscribers =~= target);
                    assert(self@ == old_view.with_confirmed(id));
                }
                return;
            }
            i += 1;
        }
        assert(self@.subscribers =~= old_view.with_confirmed(id).subscribers);
    }

    /// Makes `token` no longer live.
    pub fn delete_token(&mut self, token: &String)
        requires
            old(self).wf(),
        ensures
            final(self).wf(),
            final(self)@ == old(self)@.without_token(token@),
    {
        let ghost old_view = self@;
        let mut i: usize = 0;
        while i < self.tokens.len()
            invariant
                old_view.wf(),
                old_view == old(self)@,
                i <= self.tokens.len(),
                self@ == old_view,
                forall|j: int| 0 <= j < i ==> (#[trigger] self@.tokens[j]).token != token@,
            decreases self.tokens.len() - i,
        {
            if self.tokens[i].token == *token {
                assert(self@.tokens[i as int].token == token@);
                self.tokens.remove(i);
                proof {
                    assert(self@.tokens =~= old_view.tokens.remove(i as int));
                    let k = choose|k: int|
                        0 <= k < old_view.tokens.len() && #[trigger] old_view.tokens[k].token == token@;
                    assert(k == i);
                    let m = self@;
                    assert forall|a: int, b: int|
                        0 <= a < m.tokens.len() && 0 <= b < m.tokens.len() && a != b implies #[trigger] m.tokens[a].token
                            != #[trigger] m.tokens[b].token && m.tokens[a].subscriber_id != m.tokens[b].subscriber_id by {
                        let a2 = if a < i { a } else { a + 1 };
                        let b2 = if b < i { b } else { b + 1 };
                        assert(m.tokens[a] == old_view.tokens[a2]);
                        assert(m.tokens[b] == old_view.tokens[b2]);
                    }
                    assert forall|a: int| 0 <= a < m.tokens.len() implies #[trigger] m.tokens[a].subscriber_id < m.next_id by {
                        let a2 = if a < i { a } else { a + 1 };
                        assert(m.tokens[a] == old_view.tokens[a2]);
                    }
                    assert(m == old_view.without_token(token@));
                    assert(m.wf());
                }
                return;
            }
            i += 1;
        }
    }

    /// The addresses of the confirmed subscribers, in order of registration.
    pub fn confirmed_emails(&self) -> (r: Vec<String>)
        ensures
            r@.len() == self@.confirmed_emails().len(),
            forall|i: int| 0 <= i < r@.len() ==> (#[trigger] r@[i])@ == self@.confirmed_emails()[i],
    {
        let mut r: Vec<String> = Vec::new();
        let mut i: usize = 0;
        while i < self.subscribers.len()
            invariant
                i <= self.subscribers.len(),
                r@.len() == confirmed_emails_of(self@.subscribers.subrange(0, i as int)).len(),
                forall|k: int|
                    0 <= k < r@.len() ==> (#[trigger] r@[k])@ == confirmed_emails_of(
                        self@.subscribers.subrange(0, i as int),
                    )[k],
            decreases self.subscribers.len() - i,
        {
            assert(self@.subscribers.subrange(0, i + 1).drop_last() =~= self@.subscribers.subrange(0, i as int));
            assert(self@.subscribers[i as int] == self.subscribers@[i as int]@);
            if self.subscribers[i].subscriber.status == SubscriptionStatus::Confirmed {
                r.push(self.subscribers[i].subscriber.email.as_ref().clone());
            }
            i += 1;
        }
        assert(self@.subscribers.subrange(0, i as int) =~= self@.subscribers);
        r
    }

    /// The id and password hash of the operator named `username`, if any.
    pub fn find_user(&self, username: &String) -> (r: Option<(u64, String)>)
        requires
            self.wf(),
        ensures
            match r {
                Some((id, hash)) => self@.user_named(username@) == Some(
                    UserModel { id, username: username@, password_hash: hash@ },
                ),
                None => self@.user_named(username@) is None,
            },
    {
        let mut i: usize = 0;
        while i < self.users.len()
            invariant
                self.wf(),
                i <= self.users.len(),
                forall|j: int| 0 <= j < i ==> (#[trigger] self@.users[j]).username != username@,
            decreases self.users.len() - i,
        {
            if self.users[i].username == *username {
                assert(self@.users[i as int].username == username@);
                return Some((self.users[i].id, self.users[i].password_hash.clone()));
            }
            i += 1;
        }
        None
    }

    /// Provisions an operator account with an already computed password
    /// hash; fails when the username is taken or the ids are used up.
    pub fn add_user(&mut self, username: String, password_hash: String) -> (r: Option<u64>)
        requires
            old(self).wf(),
        ensures
            final(self).wf(),
            old(self)@.user_named(username@) is None && old(self)@.next_id < u64::MAX ==> r == Some(
                old(self)@.next_id,
            ) && final(self)@ == old(self)@.with_user(username@, password_hash@),
            !(old(self)@.user_named(username@) is None && old(self)@.next_id < u64::MAX) ==> r is None
                && final(self)@ == old(self)@,
    {
        if self.next_id == u64::MAX {
            return None;
        }
        if self.find_user(&username).is_some() {
            return None;
        }
        let id = self.next_id;
        let ghost old_view = self@;
        self.users.push(UserRecord { id, username, password_hash });
        self.next_id = id + 1;
        assert(self@.users =~= old_view.with_user(username@, password_hash@).users);
        Some(id)
    }

    /// The status of subscriber `id`, if it is stored.
    pub fn status_of(&self, id: u64) -> (r: Option<SubscriptionStatus>)
        requires
            self.wf(),
        ensures
            r == (match self@.subscriber(id) {
                Some(s) => Some(s.status),
                None => None::<SubscriptionStatus>,
            }),
    {
        let mut i: usize = 0;
        while i < self.subscribers.len()
            invariant
                self.wf(),
                i <= self.subscribers.len(),
                forall|j: int| 0 <= j < i ==> (#[trigger] self@.subscribers[j]).id != id,
            decreases self.subscribers.len() - i,
        {
            if self.subscribers[i].id == id {
                assert(self@.subscribers[i as int].id == id);
                return Some(self.subscribers[i].subscriber.status);
            }
            i += 1;
        }
        None
    }

    /// The live token of subscriber `id`, if it holds one.
    pub fn token_for(&self, id: u64) -> (r: Option<String>)
        requires
            self.wf(),
        ensures
            r matches Some(t) ==> self@.token_owner(t@) == Some(id),
            r is None ==> !self@.holds_token(id),
    {
        let mut i: usize = 0;
        while i < self.tokens.len()
            invariant
                self.wf(),
                i <= self.tokens.len(),
                forall|j: int| 0 <= j < i ==> (#[trigger] self@.tokens[j]).subscriber_id != id,
            decreases self.tokens.len() - i,
        {
            if self.tokens[i].subscriber_id == id {
                assert(self@.tokens[i as int].token == self.tokens@[i as int].token@);
                return Some(self.tokens[i].token.clone());
            }
            i += 1;
        }
        None
    }
}

} // verus!
