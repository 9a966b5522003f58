//! Redeeming a confirmation token.
use vstd::prelude::*;

use crate::store::{
    has_token, Store, StoreView, SubscriberRecord, SubscriptionStatus,
};
use crate::subscriptions::{is_well_formed_token, token_is_well_formed};

verus! {

/// The query of a confirmation link.
#[derive(Debug, Clone)]
pub struct Parameters {
    pub subscription_token: String,
}

/// The one rejection a client sees: it does not tell an unknown token from a
/// malformed one.
#[derive(Debug, Clone, Copy, PartialEq, Eq, Structural)]
pub enum ConfirmError {
    UnknownToken,
}

impl ConfirmError {
    /// The HTTP status this error is reported with.
    pub fn status_code(&self) -> (r: u16)
        ensures
            r == 401,
    {
        401
    }
}

/// The subscriber that `token` belongs to.
pub open spec fn token_owner(tokens: Seq<(Seq<char>, u128)>, token: Seq<char>) -> u128 {
    tokens[choose|i: int| 0 <= i < tokens.len() && (#[trigger] tokens[i]).0 == token].1
}

/// Whether `token` redeems anything in `s`.
pub open spec fn token_is_redeemable(s: StoreView, token: Seq<char>) -> bool {
    token_is_well_formed(token) && has_token(s.tokens, token)
}

pub open spec fn with_status_confirmed(r: SubscriberRecord, id: u128) -> SubscriberRecord {
    if r.id == id {
        SubscriberRecord { status: SubscriptionStatus::Confirmed, ..r }
    } else {
        r
    }
}

/// The store after `token` is redeemed: its owner is confirmed, and nothing
/// else changes. A token that redeems nothing changes nothing.
pub open spec fn confirm_spec(s: StoreView, token: Seq<char>) -> StoreView {
    if token_is_redeemable(s, token) {
        let id = token_owner(s.tokens, token);
        StoreView {
            subscribers: s.subscribers.map_values(|r: SubscriberRecord| with_status_confirmed(r, id)),
            ..s
        }
    } else {
        s
    }
}

/// Redeeming a token keeps the store well formed: keys, names, emails and
/// tokens are untouched.
pub proof fn lemma_confirm_preserves_wf(s: StoreView, token: Seq<char>)
    requires
        s.wf(),
    ensures
        confirm_spec(s, token).wf(),
{
    let t = confirm_spec(s, token);
    if token_is_redeemable(s, token) {
        assert forall|i: int| 0 <= i < s.subscribers.len() implies #[trigger] t.subscribers[i].id
            == s.subscribers[i].id && t.subscribers[i].name == s.subscribers[i].name
            && t.subscribers[i].email == s.subscribers[i].email by {}
        assert forall|i: int| 0 <= i < t.tokens.len() implies crate::store::has_subscriber(
            t.subscribers,
            (#[trigger] t.tokens[i]).1,
        ) by {
            let w = choose|w: int|
                0 <= w < s.subscribers.len() && (#[trigger] s.subscribers[w]).id == s.tokens[i].1;
            assert(t.subscribers[w].id == s.subscribers[w].id);
        }
        assert forall|i: int| 0 <= i < t.subscribers.len() implies crate::store::has_token_for(
            t.tokens,
            (#[trigger] t.subscribers[i]).id,
        ) by {
            assert(t.subscribers[i].id == s.subscribers[i].id);
            assert(crate::store::has_token_for(s.tokens, s.subscribers[i].id));
        }
        assert forall|i: int, j: int|
            0 <= i < j < t.subscribers.len() implies (#[trigger] t.subscribers[i]).id != (
            #[trigger] t.subscribers[j]).id by {
            assert(s.subscribers[i].id != s.subscribers[j].id);
        }
        assert forall|i: int|
            0 <= i < t.subscribers.len() implies crate::domain::name_is_valid(
            (#[trigger] t.subscribers[i]).name,
        ) && crate::domain::email_is_valid(t.subscribers[i].email) by {
            assert(t.subscribers[i].name == s.subscribers[i].name);
        }
    }
}

/// Every stored token can be redeemed; redeeming it confirms the subscriber
/// it belongs to, and redeeming it a second time succeeds again and changes
/// nothing.
pub proof fn lemma_confirm_idempotent(s: StoreView, token: Seq<char>)
    requires
        s.wf(),
    ensures
        token_is_redeemable(confirm_spec(s, token), token) == token_is_redeemable(s, token),
        confirm_spec(confirm_spec(s, token), token) == confirm_spec(s, token),
        has_token(s.tokens, token) ==> token_is_redeemable(s, token),
        token_is_redeemable(s, token) ==> exists|i: int|
            0 <= i < s.subscribers.len() && (#[trigger] s.subscribers[i]).id == token_owner(
                s.tokens,
                token,
            ) && confirm_spec(s, token).subscribers[i].status == SubscriptionStatus::Confirmed,
{
    let t = confirm_spec(s, token);
    if has_token(s.tokens, token) {
        let k = choose|k: int| 0 <= k < s.tokens.len() && (#[trigger] s.tokens[k]).0 == token;
        assert(token_is_well_formed(s.tokens[k].0));
    }
    if token_is_redeemable(s, token) {
        let id = token_owner(s.tokens, token);
        let k = choose|k: int| 0 <= k < s.tokens.len() && (#[trigger] s.tokens[k]).0 == token;
        assert(crate::store::has_subscriber(s.subscribers, s.tokens[k].1));
        let w = choose|w: int|
            0 <= w < s.subscribers.len() && (#[trigger] s.subscribers[w]).id == id;
        assert(t.subscribers[w].status == SubscriptionStatus::Confirmed);
        let tt = confirm_spec(t, token);
        assert(tt.subscribers =~= t.subscribers);
    }
}

/// A confirmed subscriber stays confirmed, whatever token is redeemed.
pub proof fn lemma_confirmed_stays_confirmed(s: StoreView, token: Seq<char>, i: int)
    requires
        0 <= i < s.subscribers.len(),
        s.subscribers[i].status == SubscriptionStatus::Confirmed,
    ensures
        confirm_spec(s, token).subscribers[i].status == SubscriptionStatus::Confirmed,
        confirm_spec(s, token).subscribers[i].id == s.subscribers[i].id,
{
}

fn owner_of(store: &Store, token: &String) -> (r: Option<u128>)
    requires
        store@.keys_wf(),
    ensures
        r is Some <==> has_token(store@.tokens, token@),
        r matches Some(id) ==> id == token_owner(store@.tokens, token@),
{
    let ghost v = store@.tokens;
    let mut i: usize = 0;
    while i < store.tokens.len()
        invariant
            v == store@.tokens,
            store@.keys_wf(),
            i <= store.tokens@.len(),
            forall|k: int| 0 <= k < i ==> (#[trigger] v[k]).0 != token@,
        decreases store.tokens@.len() - i,
    {
        if store.tokens[i].token == *token {
            proof {
                assert(v[i as int].0 == token@);
                let c = choose|c: int| 0 <= c < v.len() && (#[trigger] v[c]).0 == token@;
                if c != i {
                    if c < i {
                        assert(v[c].0 != v[i as int].0);
                    } else {
                        let ii = i as int;
                        assert(0 <= ii < c < store@.tokens.len());
                        assert(store@.tokens[ii].0 != store@.tokens[c].0);
                    }
                }
            }
            return Some(store.tokens[i].subscriber_id);
        }
        i = i + 1;
    }
    None
}

/// Confirms the subscriber that `parameters.subscription_token` belongs to.
/// Redeeming a token again succeeds and changes nothing more.
pub fn confirm(store: &mut Store, parameters: &Parameters) -> (r: Result<(), ConfirmError>)
    requires
        old(store)@.wf(),
    ensures
        final(store)@.wf(),
        r is Ok <==> token_is_redeemable(old(store)@, parameters.subscription_token@),
        final(store)@ == confirm_spec(old(store)@, parameters.subscription_token@),
{
    let token = &parameters.subscription_token;
    if !is_well_formed_token(token) {
        return Err(ConfirmError::UnknownToken);
    }
    let id = match owner_of(store, token) {
        Some(id) => id,
        None => {
            return Err(ConfirmError::UnknownToken);
        },
    };
    let ghost old_subs = store.subscribers@;
    let mut i: usize = 0;
    while i < store.subscribers.len()
        invariant
            i <= store.subscribers@.len(),
            store.subscribers@.len() == old_subs.len(),
            store.tokens == old(store).tokens,
            store.users == old(store).users,
            old_subs == old(store).subscribers@,
            forall|k: int|
                0 <= k < i ==> (#[trigger] store.subscribers@[k])@ == with_status_confirmed(
                    old_subs[k]@,
                    id,
                ),
            forall|k: int| i <= k < old_subs.len() ==> #[trigger] store.subscribers@[k] == old_subs[k],
        decreases old_subs.len() - i,
    {
        if store.subscribers[i].id == id {
            store.subscribers[i].status = SubscriptionStatus::Confirmed;
        }
        i = i + 1;
    }
    proof {
        let target = confirm_spec(old(store)@, token@);
        assert(store@.subscribers =~= target.subscribers);
        assert(store@.tokens =~= target.tokens);
        assert(store@.users =~= target.users);
        lemma_confirm_preserves_wf(old(store)@, token@);
    }
    Ok(())
}

} // verus!
