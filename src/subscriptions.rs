//! Registration: validate the form, persist the subscriber together with its
//! confirmation token in one transaction, and compose the confirmation email.
use vstd::prelude::*;
use vstd::string::StringExecFns;

use crate::domain::{
    email_is_valid, email_shape_ok, name_is_valid, parse_subscriber, FormData, NewSubscriber,
};
use crate::email::{EmailMessage, MessageView};
use crate::store::{has_subscriber, has_token, pending_record, Store, Transaction};
pub use crate::store::{insert_subscriber, store_token};

verus! {

/// How long a confirmation token is.
pub const TOKEN_LENGTH: usize = 25;

pub open spec fn is_ascii_alphanumeric(c: char) -> bool {
    ('a' <= c && c <= 'z') || ('A' <= c && c <= 'Z') || ('0' <= c && c <= '9')
}

/// Exactly `TOKEN_LENGTH` ASCII letters and digits.
pub open spec fn token_is_well_formed(t: Seq<char>) -> bool {
    t.len() == TOKEN_LENGTH && forall|i: int| 0 <= i < t.len() ==> is_ascii_alphanumeric(
        #[trigger] t[i],
    )
}

/// Whether `t` has the form of a confirmation token.
pub fn is_well_formed_token(t: &String) -> (r: bool)
    ensures
        r == token_is_well_formed(t@),
{
    let s = t.as_str();
    let n = s.unicode_len();
    if n != TOKEN_LENGTH {
        return false;
    }
    let mut i: usize = 0;
    while i < n
        invariant
            n == s@.len(),
            s@ == t@,
            i <= n,
            forall|j: int| 0 <= j < i ==> is_ascii_alphanumeric(#[trigger] s@[j]),
        decreases n - i,
    {
        let c = s.get_char(i);
        if !(('a' <= c && c <= 'z') || ('A' <= c && c <= 'Z') || ('0' <= c && c <= '9')) {
            return false;
        }
        i = i + 1;
    }
    true
}

/// Why a registration failed.
#[derive(Debug)]
pub enum SubscribeError {
    /// The name or the email is invalid; nothing was stored.
    ValidationError(String),
    /// The store refused the write or the email could not be sent.
    UnexpectedError(String),
}

impl SubscribeError {
    /// The HTTP status this error is reported with.
    pub fn status_code(&self) -> (r: u16)
        ensures
            self is ValidationError ==> r == 400,
            self is UnexpectedError ==> r == 500,
    {
        match self {
            SubscribeError::ValidationError(_) => 400,
            SubscribeError::UnexpectedError(_) => 500,
        }
    }
}

/// A failure to write a confirmation token.
#[derive(Debug, Clone, Copy)]
pub struct StoreTokenError(pub crate::store::StoreError);

impl StoreTokenError {
    /// The text reported for this error.
    pub fn message(&self) -> (r: String)
        ensures
            r@ == "A database error was encountered while trying to store a subscription token."@,
    {
        "A database error was encountered while trying to store a subscription token.".to_owned()
    }
}

/// Relies on `rand::distributions::Alphanumeric` sampled through
/// `DistString::sample_string` with `thread_rng`: `len` characters, each an
/// ASCII letter or digit.
#[verifier::external_body]
fn random_alphanumeric(len: usize) -> (r: String)
    ensures
        r@.len() == len,
        forall|i: int| 0 <= i < r@.len() ==> is_ascii_alphanumeric(#[trigger] r@[i]),
{
    rand::distributions::DistString::sample_string(
        &rand::distributions::Alphanumeric,
        &mut rand::thread_rng(),
        len,
    )
}

/// Relies on `uuid::Uuid::new_v4` for a fresh random identifier, as an integer.
#[verifier::external_body]
fn new_subscriber_id() -> (r: u128) {
    uuid::Uuid::new_v4().as_u128()
}

/// Relies on `chrono::Utc::now`, in seconds since the Unix epoch.
#[verifier::external_body]
fn now_timestamp() -> (r: i64) {
    chrono::Utc::now().timestamp()
}

/// `{base_url}/subscriptions/confirm?subscription_token={token}`
pub open spec fn confirmation_link_spec(base_url: Seq<char>, token: Seq<char>) -> Seq<char> {
    base_url + "/subscriptions/confirm?subscription_token="@ + token
}

/// The confirmation email sent to a new subscriber.
pub open spec fn confirmation_email_spec(
    email: Seq<char>,
    name: Seq<char>,
    base_url: Seq<char>,
    token: Seq<char>,
) -> MessageView {
    let link = confirmation_link_spec(base_url, token);
    MessageView {
        recipient: email,
        subject: "Hi "@ + name + ","@,
        html_body: "Welcome to our newletter!<br/> Click <a href=\""@ + link
            + "\"</a> to confirm your subscription."@,
        text_body: "Welcome to our newletter!\nPlease visit "@ + link
            + " to confirm your subscription."@,
    }
}

/// The link that redeems `token`.
pub fn confirmation_link(base_url: &str, token: &str) -> (r: String)
    ensures
        r@ == confirmation_link_spec(base_url@, token@),
{
    let mut link = base_url.to_owned();
    link.append("/subscriptions/confirm?subscription_token=");
    link.append(token);
    link
}

/// Composes the email that asks `new_subscriber` to confirm.
pub fn confirmation_email(new_subscriber: &NewSubscriber, base_url: &str, token: &str) -> (r:
    EmailMessage)
    ensures
        r@ == confirmation_email_spec(
            new_subscriber.email@,
            new_subscriber.name@,
            base_url@,
            token@,
        ),
{
    let link = confirmation_link(base_url, token);
    let mut subject = "Hi ".to_owned();
    subject.append(new_subscriber.name.inner_ref());
    subject.append(",");
    let mut html_body = "Welcome to our newletter!<br/> Click <a href=\"".to_owned();
    html_body.append(link.as_str());
    html_body.append("\"</a> to confirm your subscription.");
    let mut text_body = "Welcome to our newletter!\nPlease visit ".to_owned();
    text_body.append(link.as_str());
    text_body.append(" to confirm your subscription.");
    EmailMessage {
        recipient: new_subscriber.email.as_str().to_owned(),
        subject,
        html_body,
        text_body,
    }
}

/// Validates `form` and, in one transaction, stores a pending subscriber
/// under `id` together with `token`. Nothing is stored unless both writes
/// succeed.
pub fn register(store: &mut Store, form: FormData, id: u128, token: String, now: i64) -> (r:
    Result<NewSubscriber, SubscribeError>)
    requires
        old(store)@.wf(),
    ensures
        final(store)@.wf(),
        r is Err ==> final(store)@ == old(store)@,
        r matches Err(e) ==> (e is ValidationError <==> !(name_is_valid(form.name@)
            && email_is_valid(form.email@))),
        !email_shape_ok(form.email@) ==> (r matches Err(e) && e is ValidationError),
        r is Ok <==> name_is_valid(form.name@) && email_is_valid(form.email@) && token_is_well_formed(
            token@,
        ) && !has_subscriber(old(store)@.subscribers, id) && !has_token(old(store)@.tokens, token@),
        r matches Ok(n) ==> n.name@ == form.name@ && n.email@ == form.email@
            && final(store)@.subscribers == old(store)@.subscribers.push(
            pending_record(id, form.email@, form.name@, now),
        ) && final(store)@.tokens == old(store)@.tokens.push((token@, id))
            && final(store)@.users == old(store)@.users,
{
    let ghost name = form.name@;
    let ghost email = form.email@;
    let new_subscriber = match parse_subscriber(form) {
        Ok(n) => n,
        Err(e) => {
            return Err(SubscribeError::ValidationError(e));
        },
    };
    let mut transaction = Transaction::begin();
    proof {
        assert(transaction@.applied_to(store@).subscribers =~= store@.subscribers);
        assert(transaction@.applied_to(store@).tokens =~= store@.tokens);
    }
    match insert_subscriber(&mut transaction, store, &new_subscriber, id, now) {
        Ok(_) => {},
        Err(_) => {
            return Err(
                SubscribeError::UnexpectedError(
                    "Failed to insert new subscriber into database".to_owned(),
                ),
            );
        },
    }
    let ghost t = token@;
    match store_token(&mut transaction, store, id, token) {
        Ok(_) => {},
        Err(_) => {
            proof {
                let sv = transaction@.applied_to(store@);
                assert(sv.subscribers[sv.subscribers.len() - 1].id == id);
                assert(sv.tokens =~= store@.tokens);
            }
            return Err(
                SubscribeError::UnexpectedError(
                    "Failed to store the confirmation token for a new subscriber.".to_owned(),
                ),
            );
        },
    }
    proof {
        let sv = transaction@.applied_to(store@);
        let n = store@.subscribers.len() as int;
        assert(sv.subscribers =~= store@.subscribers.push(pending_record(id, email, name, now)));
        assert(sv.tokens =~= store@.tokens.push((t, id)));
        assert(sv.tokens[store@.tokens.len() as int].1 == id);
        assert forall|i: int|
            0 <= i < sv.subscribers.len() implies crate::store::has_token_for(
            sv.tokens,
            (#[trigger] sv.subscribers[i]).id,
        ) by {
            if i < n {
                assert(sv.subscribers[i] == store@.subscribers[i]);
                let j = choose|j: int|
                    0 <= j < store@.tokens.len() && (#[trigger] store@.tokens[j]).1
                        == store@.subscribers[i].id;
                assert(sv.tokens[j] == store@.tokens[j]);
            } else {
                assert(sv.tokens[store@.tokens.len() as int].1 == sv.subscribers[i].id);
            }
        }
    }
    transaction.commit(store);
    Ok(new_subscriber)
}

/// Registers the subscriber in `form` under a fresh random id and a fresh
/// random token, and returns the confirmation email to send.
pub fn subscribe(store: &mut Store, form: FormData, base_url: &str) -> (r: Result<
    EmailMessage,
    SubscribeError,
>)
    requires
        old(store)@.wf(),
    ensures
        final(store)@.wf(),
        r is Err ==> final(store)@ == old(store)@,
        r matches Err(e) ==> (e is ValidationError <==> !(name_is_valid(form.name@)
            && email_is_valid(form.email@))),
        r is Ok ==> name_is_valid(form.name@) && email_is_valid(form.email@),
        !email_shape_ok(form.email@) ==> (r matches Err(e) && e is ValidationError),
        name_is_valid(form.name@) && email_is_valid(form.email@) && old(store)@.subscribers.len()
            == 0 ==> r is Ok,
        r matches Ok(m) ==> {
            let subs = final(store)@.subscribers;
            let tokens = final(store)@.tokens;
            let (token, id) = tokens.last();
            &&& subs == old(store)@.subscribers.push(
                pending_record(id, form.email@, form.name@, subs.last().subscribed_at),
            )
            &&& tokens == old(store)@.tokens.push((token, id))
            &&& final(store)@.users == old(store)@.users
            &&& token_is_well_formed(token)
            &&& m@ == confirmation_email_spec(form.email@, form.name@, base_url@, token)
        },
{
    let ghost email = form.email@;
    let ghost name = form.name@;
    let id = new_subscriber_id();
    let token = random_alphanumeric(TOKEN_LENGTH);
    let now = now_timestamp();
    let ghost t = token@;
    let link_token = token.clone();
    proof {
        if store@.subscribers.len() == 0 && store@.tokens.len() > 0 {
            assert(has_subscriber(store@.subscribers, store@.tokens[0].1));
        }
    }
    let new_subscriber = register(store, form, id, token, now)?;
    let message = confirmation_email(&new_subscriber, base_url, link_token.as_str());
    proof {
        assert(store@.tokens.last() == (t, id));
        assert(store@.subscribers.last() == pending_record(id, email, name, now));
    }
    Ok(message)
}

} // verus!
