//! The persistent state: subscribers, their confirmation tokens, and the
//! operators' credentials, with all-or-nothing registration transactions.
use vstd::prelude::*;

use crate::domain::{email_is_valid, name_is_valid, NewSubscriber};
use crate::subscriptions::{is_well_formed_token, token_is_well_formed};

verus! {

/// Where a subscriber stands in the double-opt-in workflow.
#[derive(Debug, Clone, Copy, PartialEq, Eq, Structural)]
pub enum SubscriptionStatus {
    PendingConfirmation,
    Confirmed,
}

impl SubscriptionStatus {
    /// The text the status is stored as.
    pub fn as_str(&self) -> (r: &'static str)
        ensures
            *self == SubscriptionStatus::PendingConfirmation ==> r@ == "pending_confirmation"@,
            *self == SubscriptionStatus::Confirmed ==> r@ == "confirmed"@,
    {
        match self {
            SubscriptionStatus::PendingConfirmation => "pending_confirmation",
            SubscriptionStatus::Confirmed => "confirmed",
        }
    }
}

/// One stored subscriber.
#[derive(Debug)]
pub struct Subscriber {
    pub id: u128,
    pub email: String,
    pub name: String,
    pub subscribed_at: i64,
    pub status: SubscriptionStatus,
}

pub struct SubscriberRecord {
    pub id: u128,
    pub email: Seq<char>,
    pub name: Seq<char>,
    pub subscribed_at: i64,
    pub status: SubscriptionStatus,
}

impl View for Subscriber {
    type V = SubscriberRecord;

    open spec fn view(&self) -> SubscriberRecord {
        SubscriberRecord {
            id: self.id,
            email: self.email@,
            name: self.name@,
            subscribed_at: self.subscribed_at,
            status: self.status,
        }
    }
}

/// A confirmation token and the subscriber it belongs to.
#[derive(Debug)]
pub struct TokenRecord {
    pub token: String,
    pub subscriber_id: u128,
}

impl View for TokenRecord {
    type V = (Seq<char>, u128);

    open spec fn view(&self) -> (Seq<char>, u128) {
        (self.token@, self.subscriber_id)
    }
}

/// An operator's stored credential: a PHC-formatted password hash.
#[derive(Debug)]
pub struct UserCredential {
    pub user_id: u128,
    pub username: String,
    pub password_hash: String,
}

pub struct UserRecord {
    pub user_id: u128,
    pub username: Seq<char>,
    pub password_hash: Seq<char>,
}

impl View for UserCredential {
    type V = UserRecord;

    open spec fn view(&self) -> UserRecord {
        UserRecord {
            user_id: self.user_id,
            username: self.username@,
            password_hash: self.password_hash@,
        }
    }
}

/// Why the store refused a write.
#[derive(Debug, Clone, Copy, PartialEq, Eq, Structural)]
pub enum StoreError {
    /// A row with the same primary key exists.
    DuplicateKey,
    /// The row refers to a subscriber that does not exist.
    MissingReference,
    /// A value breaks the constraint of its column.
    InvalidValue,
}

pub struct StoreView {
    pub subscribers: Seq<SubscriberRecord>,
    pub tokens: Seq<(Seq<char>, u128)>,
    pub users: Seq<UserRecord>,
}

/// The whole persistent state.
#[derive(Debug)]
pub struct Store {
    pub subscribers: Vec<Subscriber>,
    pub tokens: Vec<TokenRecord>,
    pub users: Vec<UserCredential>,
}

impl View for Store {
    type V = StoreView;

    open spec fn view(&self) -> StoreView {
        StoreView {
            subscribers: self.subscribers@.map_values(|s: Subscriber| s@),
            tokens: self.tokens@.map_values(|t: TokenRecord| t@),
            users: self.users@.map_values(|u: UserCredential| u@),
        }
    }
}

pub open spec fn has_subscriber(subs: Seq<SubscriberRecord>, id: u128) -> bool {
    exists|i: int| 0 <= i < subs.len() && (#[trigger] subs[i]).id == id
}

pub open spec fn has_token(tokens: Seq<(Seq<char>, u128)>, token: Seq<char>) -> bool {
    exists|i: int| 0 <= i < tokens.len() && (#[trigger] tokens[i]).0 == token
}

impl StoreView {
    /// No two operators share a username or an id.
    pub open spec fn users_wf(&self) -> bool {
        forall|i: int, j: int|
            0 <= i < j < self.users.len() ==> (#[trigger] self.users[i]).username != (
            #[trigger] self.users[j]).username && self.users[i].user_id != self.users[j].user_id
    }

    /// Primary keys are unique, every token is well formed and belongs to a
    /// stored subscriber, and stored names and emails are valid.
    pub open spec fn keys_wf(&self) -> bool {
        &&& forall|i: int, j: int|
            0 <= i < j < self.subscribers.len() ==> (#[trigger] self.subscribers[i]).id
                != (#[trigger] self.subscribers[j]).id
        &&& forall|i: int, j: int|
            0 <= i < j < self.tokens.len() ==> (#[trigger] self.tokens[i]).0 != (
            #[trigger] self.tokens[j]).0
        &&& self.users_wf()
        &&& forall|i: int|
            0 <= i < self.tokens.len() ==> token_is_well_formed((#[trigger] self.tokens[i]).0)
        &&& forall|i: int|
            0 <= i < self.tokens.len() ==> has_subscriber(
                self.subscribers,
                (#[trigger] self.tokens[i]).1,
            )
        &&& forall|i: int|
            0 <= i < self.subscribers.len() ==> name_is_valid((#[trigger] self.subscribers[i]).name)
                && email_is_valid(self.subscribers[i].email)
    }

    /// `keys_wf`, and no subscriber is visible without its token.
    pub open spec fn wf(&self) -> bool {
        &&& self.keys_wf()
        &&& forall|i: int|
            0 <= i < self.subscribers.len() ==> has_token_for(
                self.tokens,
                (#[trigger] self.subscribers[i]).id,
            )
    }
}

pub open spec fn has_token_for(tokens: Seq<(Seq<char>, u128)>, id: u128) -> bool {
    exists|j: int| 0 <= j < tokens.len() && (#[trigger] tokens[j]).1 == id
}

pub open spec fn pending_record(
    id: u128,
    email: Seq<char>,
    name: Seq<char>,
    now: i64,
) -> SubscriberRecord {
    SubscriberRecord {
        id,
        email,
        name,
        subscribed_at: now,
        status: SubscriptionStatus::PendingConfirmation,
    }
}

fn find_subscriber(subs: &Vec<Subscriber>, id: u128) -> (r: Option<usize>)
    ensures
        r matches Some(i) ==> i < subs@.len() && subs@[i as int].id == id,
        r is None <==> !has_subscriber(subs@.map_values(|s: Subscriber| s@), id),
{
    let ghost v = subs@.map_values(|s: Subscriber| s@);
    let mut i: usize = 0;
    while i < subs.len()
        invariant
            v == subs@.map_values(|s: Subscriber| s@),
            i <= subs@.len(),
            forall|k: int| 0 <= k < i ==> (#[trigger] v[k]).id != id,
        decreases subs@.len() - i,
    {
        if subs[i].id == id {
            assert(v[i as int].id == id);
            return Some(i);
        }
        i = i + 1;
    }
    None
}

fn find_token(tokens: &Vec<TokenRecord>, token: &String) -> (r: Option<usize>)
    ensures
        r matches Some(i) ==> i < tokens@.len() && tokens@[i as int].token@ == token@,
        r is None <==> !has_token(tokens@.map_values(|t: TokenRecord| t@), token@),
{
    let ghost v = tokens@.map_values(|t: TokenRecord| t@);
    let mut i: usize = 0;
    while i < tokens.len()
        invariant
            v == tokens@.map_values(|t: TokenRecord| t@),
            i <= tokens@.len(),
            forall|k: int| 0 <= k < i ==> (#[trigger] v[k]).0 != token@,
        decreases tokens@.len() - i,
    {
        if tokens[i].token == *token {
            assert(v[i as int].0 == token@);
            return Some(i);
        }
        i = i + 1;
    }
    None
}

impl Store {
    /// A store with no rows.
    pub fn new() -> (r: Store)
        ensures
            r@.subscribers.len() == 0,
            r@.tokens.len() == 0,
            r@.users.len() == 0,
            r@.wf(),
    {
        Store { subscribers: Vec::new(), tokens: Vec::new(), users: Vec::new() }
    }

    /// Adds an operator's credential, unless the id or the username is taken.
    pub fn add_user(&mut self, user_id: u128, username: String, password_hash: String) -> (r:
        Result<(), StoreError>)
        requires
            old(self)@.wf(),
        ensures
            final(self)@.wf(),
            r is Ok <==> forall|i: int|
                0 <= i < old(self)@.users.len() ==> (#[trigger] old(self)@.users[i]).user_id
                    != user_id && old(self)@.users[i].username != username@,
            r is Ok ==> final(self)@.users == old(self)@.users.push(
                UserRecord { user_id, username: username@, password_hash: password_hash@ },
            ) && final(self)@.subscribers == old(self)@.subscribers && final(self)@.tokens
                == old(self)@.tokens,
            r matches Err(e) ==> e == StoreError::DuplicateKey && final(self)@ == old(self)@,
    {
        let ghost v = self@.users;
        let mut i: usize = 0;
        while i < self.users.len()
            invariant
                v == self@.users,
                self@ == old(self)@,
                old(self)@.wf(),
                i <= v.len(),
                forall|k: int|
                    0 <= k < i ==> (#[trigger] v[k]).user_id != user_id && v[k].username
                        != username@,
            decreases v.len() - i,
        {
            if self.users[i].user_id == user_id || self.users[i].username == username {
                assert(v[i as int].user_id == user_id || v[i as int].username == username@);
                return Err(StoreError::DuplicateKey);
            }
            i = i + 1;
        }
        self.users.push(UserCredential { user_id, username, password_hash });
        proof {
            let n = v.len() as int;
            assert(self@.users =~= v.push(
                UserRecord { user_id, username: username@, password_hash: password_hash@ },
            ));
            assert(self@.subscribers =~= old(self)@.subscribers);
            assert(self@.tokens =~= old(self)@.tokens);
            assert forall|a: int, b: int|
                0 <= a < b < self@.users.len() implies (#[trigger] self@.users[a]).username != (
                #[trigger] self@.users[b]).username && self@.users[a].user_id
                    != self@.users[b].user_id by {
                if b < n {
                    assert(self@.users[a] == v[a] && self@.users[b] == v[b]);
                } else {
                    assert(self@.users[a] == v[a]);
                }
            }
        }
        Ok(())
    }
}

/// Rows written inside a transaction that the store does not show yet.
#[derive(Debug)]
pub struct Transaction {
    subscribers: Vec<Subscriber>,
    tokens: Vec<TokenRecord>,
}

pub struct TransactionView {
    pub subscribers: Seq<SubscriberRecord>,
    pub tokens: Seq<(Seq<char>, u128)>,
}

impl View for Transaction {
    type V = TransactionView;

    closed spec fn view(&self) -> TransactionView {
        TransactionView {
            subscribers: self.subscribers@.map_values(|s: Subscriber| s@),
            tokens: self.tokens@.map_values(|t: TokenRecord| t@),
        }
    }
}

impl TransactionView {
    /// What the store shows once these rows are committed on top of `s`.
    pub open spec fn applied_to(&self, s: StoreView) -> StoreView {
        StoreView {
            subscribers: s.subscribers + self.subscribers,
            tokens: s.tokens + self.tokens,
            users: s.users,
        }
    }
}

impl Transaction {
    /// Opens a transaction with nothing written yet.
    pub fn begin() -> (r: Transaction)
        ensures
            r@.subscribers.len() == 0,
            r@.tokens.len() == 0,
    {
        Transaction { subscribers: Vec::new(), tokens: Vec::new() }
    }

    /// Makes every row written in this transaction visible in `store`.
    pub fn commit(self, store: &mut Store)
        requires
            self@.applied_to(old(store)@).wf(),
        ensures
            final(store)@ == self@.applied_to(old(store)@),
            final(store)@.wf(),
    {
        let Transaction { mut subscribers, mut tokens } = self;
        let ghost s0 = subscribers@;
        let ghost t0 = tokens@;
        store.subscribers.append(&mut subscribers);
        store.tokens.append(&mut tokens);
        proof {
            assert(store@.subscribers =~= old(store)@.subscribers + s0.map_values(
                |s: Subscriber| s@,
            ));
            assert(store@.tokens =~= old(store)@.tokens + t0.map_values(|t: TokenRecord| t@));
            assert(store@.users =~= old(store)@.users);
        }
    }
}

/// Writes a pending subscriber under `id`, unless that key is taken.
pub fn insert_subscriber(
    transaction: &mut Transaction,
    store: &Store,
    new_subscriber: &NewSubscriber,
    id: u128,
    now: i64,
) -> (r: Result<u128, StoreError>)
    requires
        old(transaction)@.applied_to(store@).keys_wf(),
        name_is_valid(new_subscriber.name@),
        email_is_valid(new_subscriber.email@),
    ensures
        final(transaction)@.applied_to(store@).keys_wf(),
        r is Ok <==> !has_subscriber(old(transaction)@.applied_to(store@).subscribers, id),
        r matches Ok(k) ==> k == id && final(transaction)@.subscribers == old(
            transaction,
        )@.subscribers.push(
            pending_record(id, new_subscriber.email@, new_subscriber.name@, now),
        ) && final(transaction)@.tokens == old(transaction)@.tokens,
        r matches Err(e) ==> e == StoreError::DuplicateKey && final(transaction)@ == old(transaction)@,
{
    let ghost combined = transaction@.applied_to(store@).subscribers;
    let in_store = find_subscriber(&store.subscribers, id);
    let staged = find_subscriber(&transaction.subscribers, id);
    if in_store.is_some() || staged.is_some() {
        proof {
            if let Some(i) = in_store {
                assert(combined[i as int].id == id);
            } else if let Some(i) = staged {
                assert(combined[store@.subscribers.len() + i].id == id);
            }
        }
        return Err(StoreError::DuplicateKey);
    }
    proof {
        assert forall|k: int| 0 <= k < combined.len() implies combined[k].id != id by {
            if k < store@.subscribers.len() {
                assert(store@.subscribers[k] == combined[k]);
            } else {
                assert(transaction@.subscribers[k - store@.subscribers.len()] == combined[k]);
            }
        }
    }
    let email = new_subscriber.email.as_str().to_owned();
    let name = new_subscriber.name.inner_ref().to_owned();
    transaction.subscribers.push(
        Subscriber {
            id,
            email,
            name,
            subscribed_at: now,
            status: SubscriptionStatus::PendingConfirmation,
        },
    );
    proof {
        let before = old(transaction)@.applied_to(store@);
        let after = transaction@.applied_to(store@);
        assert(transaction@.subscribers =~= old(transaction)@.subscribers.push(
            pending_record(id, new_subscriber.email@, new_subscriber.name@, now),
        ));
        assert(transaction@.tokens =~= old(transaction)@.tokens);
        assert(after.subscribers =~= before.subscribers.push(
            pending_record(id, new_subscriber.email@, new_subscriber.name@, now),
        ));
        assert(after.tokens =~= before.tokens);
        assert(after.users =~= before.users);
        assert forall|i: int| 0 <= i < after.tokens.len() implies has_subscriber(
            after.subscribers,
            (#[trigger] after.tokens[i]).1,
        ) by {
            let w = choose|w: int|
                0 <= w < before.subscribers.len() && (#[trigger] before.subscribers[w]).id
                    == before.tokens[i].1;
            assert(after.subscribers[w] == before.subscribers[w]);
        }
        let n = before.subscribers.len() as int;
        assert(after.subscribers[n].id == id);
        assert forall|i: int, j: int|
            0 <= i < j < after.subscribers.len() implies (#[trigger] after.subscribers[i]).id
            != (#[trigger] after.subscribers[j]).id by {
            if j == n {
                assert(after.subscribers[i] == combined[i]);
            } else {
                assert(after.subscribers[i] == before.subscribers[i]);
                assert(after.subscribers[j] == before.subscribers[j]);
            }
        }
        assert forall|i: int|
            0 <= i < after.subscribers.len() implies name_is_valid(
            (#[trigger] after.subscribers[i]).name,
        ) && email_is_valid(after.subscribers[i].email) by {
            if i < n {
                assert(after.subscribers[i] == before.subscribers[i]);
            }
        }
    }
    Ok(id)
}

/// Writes `token` for `subscriber_id`, unless the token is malformed or
/// taken, or no such subscriber exists.
pub fn store_token(transaction: &mut Transaction, store: &Store, subscriber_id: u128, token: String) -> (r: Result<
    (),
    StoreError,
>)
    requires
        old(transaction)@.applied_to(store@).keys_wf(),
    ensures
        final(transaction)@.applied_to(store@).keys_wf(),
        r is Err ==> final(transaction)@ == old(transaction)@,
        !token_is_well_formed(token@) ==> r == Err::<(), StoreError>(StoreError::InvalidValue),
        token_is_well_formed(token@) && has_token(old(transaction)@.applied_to(store@).tokens, token@)
            ==> r == Err::<(), StoreError>(StoreError::DuplicateKey),
        token_is_well_formed(token@) && !has_token(old(transaction)@.applied_to(store@).tokens, token@)
            && !has_subscriber(old(transaction)@.applied_to(store@).subscribers, subscriber_id)
            ==> r == Err::<(), StoreError>(StoreError::MissingReference),
        r is Ok <==> token_is_well_formed(token@) && !has_token(
            old(transaction)@.applied_to(store@).tokens,
            token@,
        ) && has_subscriber(old(transaction)@.applied_to(store@).subscribers, subscriber_id),
        r is Ok ==> final(transaction)@.tokens == old(transaction)@.tokens.push((token@, subscriber_id))
            && final(transaction)@.subscribers == old(transaction)@.subscribers,
{
    let ghost before = transaction@.applied_to(store@);
    if !is_well_formed_token(&token) {
        return Err(StoreError::InvalidValue);
    }
    let in_store = find_token(&store.tokens, &token);
    let staged = find_token(&transaction.tokens, &token);
    if in_store.is_some() || staged.is_some() {
        proof {
            if let Some(i) = in_store {
                assert(before.tokens[i as int].0 == token@);
            } else if let Some(i) = staged {
                assert(before.tokens[store@.tokens.len() + i].0 == token@);
            }
        }
        return Err(StoreError::DuplicateKey);
    }
    proof {
        assert forall|k: int| 0 <= k < before.tokens.len() implies before.tokens[k].0
            != token@ by {
            if k < store@.tokens.len() {
                assert(store@.tokens[k] == before.tokens[k]);
            } else {
                assert(transaction@.tokens[k - store@.tokens.len()] == before.tokens[k]);
            }
        }
    }
    let owner_in_store = find_subscriber(&store.subscribers, subscriber_id);
    let owner_staged = find_subscriber(&transaction.subscribers, subscriber_id);
    if owner_in_store.is_none() && owner_staged.is_none() {
        proof {
            assert forall|k: int| 0 <= k < before.subscribers.len() implies (
            #[trigger] before.subscribers[k]).id != subscriber_id by {
                if k < store@.subscribers.len() {
                    assert(store@.subscribers[k] == before.subscribers[k]);
                } else {
                    assert(transaction@.subscribers[k - store@.subscribers.len()]
                        == before.subscribers[k]);
                }
            }
        }
        return Err(StoreError::MissingReference);
    }
    proof {
        if let Some(i) = owner_in_store {
            assert(before.subscribers[i as int].id == subscriber_id);
        } else if let Some(i) = owner_staged {
            assert(before.subscribers[store@.subscribers.len() + i].id == subscriber_id);
        }
    }
    transaction.tokens.push(TokenRecord { token, subscriber_id });
    proof {
        let after = transaction@.applied_to(store@);
        let n = before.tokens.len() as int;
        assert(transaction@.tokens =~= old(transaction)@.tokens.push((token@, subscriber_id)));
        assert(transaction@.subscribers =~= old(transaction)@.subscribers);
        assert(after.tokens =~= before.tokens.push((token@, subscriber_id)));
        assert(after.subscribers =~= before.subscribers);
        assert(after.users =~= before.users);
        assert forall|i: int, j: int|
            0 <= i < j < after.tokens.len() implies (#[trigger] after.tokens[i]).0 != (
            #[trigger] after.tokens[j]).0 by {
            if j == n {
                assert(after.tokens[i] == before.tokens[i]);
            } else {
                assert(after.tokens[i] == before.tokens[i]);
                assert(after.tokens[j] == before.tokens[j]);
            }
        }
        assert forall|i: int| 0 <= i < after.tokens.len() implies has_subscriber(
            after.subscribers,
            (#[trigger] after.tokens[i]).1,
        ) by {
            if i < n {
                assert(after.tokens[i] == before.tokens[i]);
            }
        }
    }
    Ok(())
}

} // verus!
