//! Publishing an issue: authenticate the caller with HTTP Basic credentials,
//! pick the confirmed subscribers whose stored address is still valid, and
//! deliver to them one at a time, stopping at the first failure.
use vstd::prelude::*;
use vstd::string::StrSliceExecFns;
use vstd::utf8::{decode_utf8, valid_utf8};

use crate::authentication::{
    credential_outcome, validate_credentials, AuthError, AuthOutcome, Credentials,
};
use crate::domain::{email_is_valid, SubscriberEmail};
use crate::email::{EmailMessage, MessageView};
use crate::store::{Store, SubscriberRecord, SubscriptionStatus};

verus! {

/// Why a publish request failed.
#[derive(Debug)]
pub enum PublishError {
    /// Missing or wrong credentials.
    AuthError(String),
    /// The issue lacks a title or a body.
    InvalidPayload(String),
    /// The store, the hashing or the email gateway failed.
    UnexpectedError(String),
}

impl PublishError {
    /// The HTTP status this error is reported with.
    pub fn status_code(&self) -> (r: u16)
        ensures
            self is AuthError ==> r == 401,
            self is InvalidPayload ==> r == 400,
            self is UnexpectedError ==> r == 500,
    {
        match self {
            PublishError::AuthError(_) => 401,
            PublishError::InvalidPayload(_) => 400,
            PublishError::UnexpectedError(_) => 500,
        }
    }

    /// The `WWW-Authenticate` challenge that goes with the response, if any.
    pub fn www_authenticate(&self) -> (r: Option<String>)
        ensures
            self is AuthError ==> (r matches Some(h) && h@ == "Basic realm=\"publish\""@),
            !(self is AuthError) ==> r is None,
    {
        match self {
            PublishError::AuthError(_) => Some("Basic realm=\"publish\"".to_owned()),
            _ => None,
        }
    }
}

/// The two bodies of an issue.
#[derive(Debug, Clone)]
pub struct Content {
    pub html: String,
    pub text: String,
}

/// An issue to publish.
#[derive(Debug, Clone)]
pub struct BodyData {
    pub title: String,
    pub content: Content,
}

/// What `base64`'s standard engine decodes `s` to, if anything.
pub uninterp spec fn base64_decoded(s: Seq<char>) -> Option<Seq<u8>>;

/// Relies on `base64::Engine::decode` of `base64::engine::general_purpose::STANDARD`.
#[verifier::external_body]
fn base64_decode(s: &str) -> (r: Option<Vec<u8>>)
    ensures
        r is Some <==> base64_decoded(s@) is Some,
        r matches Some(b) ==> b@ == base64_decoded(s@)->0,
{
    base64::Engine::decode(&base64::engine::general_purpose::STANDARD, s).ok()
}

/// Relies on `String::from_utf8`, documented to fail exactly on bytes that
/// are not UTF-8.
#[verifier::external_body]
fn string_from_utf8(bytes: Vec<u8>) -> (r: Option<String>)
    ensures
        r is Some <==> valid_utf8(bytes@),
        r matches Some(s) ==> s@ == decode_utf8(bytes@),
{
    String::from_utf8(bytes).ok()
}

pub open spec fn has_basic_prefix(h: Seq<char>) -> bool {
    h.len() >= 6 && h[0] == 'B' && h[1] == 'a' && h[2] == 's' && h[3] == 'i' && h[4] == 'c'
        && h[5] == ' '
}

pub open spec fn is_first_colon(s: Seq<char>, k: int) -> bool {
    0 <= k < s.len() && s[k] == ':' && forall|j: int| 0 <= j < k ==> s[j] != ':'
}

/// The username and password of `username:password`, split at the first `:`.
pub open spec fn split_credentials(s: Seq<char>) -> Option<(Seq<char>, Seq<char>)> {
    if exists|k: int| is_first_colon(s, k) {
        let k = choose|k: int| is_first_colon(s, k);
        Some((s.take(k), s.skip(k + 1)))
    } else {
        None
    }
}

/// The credentials that an `Authorization` header holds, if it holds any.
pub open spec fn basic_credentials(header: Option<Seq<char>>) -> Option<(Seq<char>, Seq<char>)> {
    match header {
        None => None,
        Some(h) => if !has_basic_prefix(h) {
            None
        } else {
            match base64_decoded(h.skip(6)) {
                None => None,
                Some(bytes) => if !valid_utf8(bytes) {
                    None
                } else {
                    split_credentials(decode_utf8(bytes))
                },
            }
        },
    }
}

pub open spec fn header_view(header: Option<&str>) -> Option<Seq<char>> {
    match header {
        None => None,
        Some(h) => Some(h@),
    }
}

fn split_at_first_colon(s: &str) -> (r: Option<(String, String)>)
    ensures
        r is Some <==> split_credentials(s@) is Some,
        r matches Some((u, p)) ==> split_credentials(s@) == Some((u@, p@)),
{
    let n = s.unicode_len();
    let mut k: usize = 0;
    while k < n
        invariant
            n == s@.len(),
            k <= n,
            forall|j: int| 0 <= j < k ==> s@[j] != ':',
        decreases n - k,
    {
        if s.get_char(k) == ':' {
            let username = s.substring_char(0, k).to_owned();
            let password = s.substring_char(k + 1, n).to_owned();
            proof {
                assert(is_first_colon(s@, k as int));
                let c = choose|c: int| is_first_colon(s@, c);
                assert(c == k as int) by {
                    if c < k as int {
                        assert(s@[c] != ':');
                    } else if c > k as int {
                        assert(s@[k as int] != ':');
                    }
                }
                assert(username@ =~= s@.take(k as int));
                assert(password@ =~= s@.skip(k + 1));
            }
            return Some((username, password));
        }
        k = k + 1;
    }
    None
}

/// Reads the credentials of an `Authorization` header of the `Basic` scheme.
/// Every way that fails is an `AuthError`.
pub fn basic_authentication(header: Option<&str>) -> (r: Result<Credentials, PublishError>)
    ensures
        r is Ok <==> basic_credentials(header_view(header)) is Some,
        r matches Ok(c) ==> basic_credentials(header_view(header)) == Some(
            (c.username@, c.password@),
        ),
        r matches Err(e) ==> e is AuthError,
{
    let h = match header {
        Some(h) => h,
        None => {
            return Err(PublishError::AuthError("The 'Authorization' header was missing.".to_owned()));
        },
    };
    let n = h.unicode_len();
    if !(n >= 6 && h.get_char(0) == 'B' && h.get_char(1) == 'a' && h.get_char(2) == 's'
        && h.get_char(3) == 'i' && h.get_char(4) == 'c' && h.get_char(5) == ' ') {
        return Err(PublishError::AuthError("The authorization scheme was not 'Basic'.".to_owned()));
    }
    let encoded = h.substring_char(6, n);
    assert(encoded@ =~= h@.skip(6));
    match base64_decode(encoded) {
        Some(bytes) => decode_credentials(bytes),
        None => Err(
            PublishError::AuthError("Failed to base64-decode 'Basic' credentials.".to_owned()),
        ),
    }
}

/// The credentials in the decoded payload of a `Basic` header:
/// `username:password` in UTF-8, split at the first `:`.
pub fn decode_credentials(bytes: Vec<u8>) -> (r: Result<Credentials, PublishError>)
    ensures
        r is Ok <==> valid_utf8(bytes@) && split_credentials(decode_utf8(bytes@)) is Some,
        r matches Ok(c) ==> split_credentials(decode_utf8(bytes@)) == Some(
            (c.username@, c.password@),
        ),
        r matches Err(e) ==> e is AuthError,
{
    let ghost b = bytes@;
    let decoded = match string_from_utf8(bytes) {
        Some(s) => s,
        None => {
            return Err(
                PublishError::AuthError(
                    "The decoded credential string is not valid UTF8.".to_owned(),
                ),
            );
        },
    };
    match split_at_first_colon(decoded.as_str()) {
        Some((username, password)) => Ok(Credentials { username, password }),
        None => Err(
            PublishError::AuthError("A password must be provided in 'Basic' auth.".to_owned()),
        ),
    }
}

/// The stored emails of the confirmed subscribers, in store order.
pub open spec fn confirmed_emails(subs: Seq<SubscriberRecord>) -> Seq<Seq<char>>
    decreases subs.len(),
{
    if subs.len() == 0 {
        Seq::empty()
    } else {
        let rest = confirmed_emails(subs.drop_last());
        if subs.last().status == SubscriptionStatus::Confirmed {
            rest.push(subs.last().email)
        } else {
            rest
        }
    }
}

/// The addresses an issue goes to: confirmed subscribers whose stored email
/// is still valid, in store order.
pub open spec fn recipients_spec(subs: Seq<SubscriberRecord>) -> Seq<Seq<char>>
    decreases subs.len(),
{
    if subs.len() == 0 {
        Seq::empty()
    } else {
        let rest = recipients_spec(subs.drop_last());
        if subs.last().status == SubscriptionStatus::Confirmed && email_is_valid(subs.last().email) {
            rest.push(subs.last().email)
        } else {
            rest
        }
    }
}

/// An issue only ever goes to confirmed subscribers, at an address that
/// validates.
pub proof fn lemma_recipients_are_confirmed(subs: Seq<SubscriberRecord>)
    ensures
        forall|i: int|
            0 <= i < recipients_spec(subs).len() ==> email_is_valid(
                #[trigger] recipients_spec(subs)[i],
            ) && exists|j: int|
                0 <= j < subs.len() && subs[j].status == SubscriptionStatus::Confirmed
                    && subs[j].email == recipients_spec(subs)[i],
    decreases subs.len(),
{
    if subs.len() > 0 {
        let rest = subs.drop_last();
        lemma_recipients_are_confirmed(rest);
        let r = recipients_spec(subs);
        assert forall|i: int| 0 <= i < r.len() implies email_is_valid(#[trigger] r[i]) && exists|
            j: int,
        |
            0 <= j < subs.len() && subs[j].status == SubscriptionStatus::Confirmed && subs[j].email
                == r[i] by {
            if i < recipients_spec(rest).len() {
                assert(r[i] == recipients_spec(rest)[i]);
                let j = choose|j: int|
                    0 <= j < rest.len() && rest[j].status == SubscriptionStatus::Confirmed
                        && rest[j].email == recipients_spec(rest)[i];
                assert(subs[j] == rest[j]);
            } else {
                assert(subs[subs.len() - 1] == subs.last());
            }
        }
    }
}

/// Every confirmed subscriber, in store order, with its email checked again:
/// an address that no longer validates comes back as an error.
pub fn get_confirmed_subscribers(store: &Store) -> (r: Vec<Result<SubscriberEmail, String>>)
    ensures
        r@.len() == confirmed_emails(store@.subscribers).len(),
        forall|i: int|
            0 <= i < r@.len() ==> {
                let e = confirmed_emails(store@.subscribers)[i];
                &&& (#[trigger] r@[i]) is Ok <==> email_is_valid(e)
                &&& r@[i] matches Ok(a) ==> a@ == e
            },
{
    let ghost subs = store@.subscribers;
    let mut out: Vec<Result<SubscriberEmail, String>> = Vec::new();
    let mut i: usize = 0;
    while i < store.subscribers.len()
        invariant
            subs == store@.subscribers,
            i <= subs.len(),
            out@.len() == confirmed_emails(subs.take(i as int)).len(),
            forall|k: int|
                0 <= k < out@.len() ==> {
                    let e = confirmed_emails(subs.take(i as int))[k];
                    &&& (#[trigger] out@[k]) is Ok <==> email_is_valid(e)
                    &&& out@[k] matches Ok(a) ==> a@ == e
                },
        decreases subs.len() - i,
    {
        let ghost prev = out@;
        assert(subs.take(i + 1).drop_last() =~= subs.take(i as int));
        assert(subs.take(i + 1).last() == subs[i as int]);
        if store.subscribers[i].status == SubscriptionStatus::Confirmed {
            let parsed = SubscriberEmail::parse(store.subscribers[i].email.clone());
            out.push(parsed);
        }
        i = i + 1;
    }
    assert(subs.take(subs.len() as int) =~= subs);
    out
}

/// The step a delivery is at.
pub enum DeliveryStep {
    /// Hand this message to the email gateway, then report how it went.
    Send(EmailMessage),
    /// Every message went out.
    Done,
    /// A send failed; nothing more is sent.
    Failed,
}

/// An issue being delivered to its recipients in order.
#[derive(Debug)]
pub struct Delivery {
    recipients: Vec<String>,
    title: String,
    html: String,
    text: String,
    next: usize,
    failed: bool,
}

pub struct DeliveryView {
    pub recipients: Seq<Seq<char>>,
    pub title: Seq<char>,
    pub html: Seq<char>,
    pub text: Seq<char>,
    pub next: nat,
    pub failed: bool,
}

impl View for Delivery {
    type V = DeliveryView;

    closed spec fn view(&self) -> DeliveryView {
        DeliveryView {
            recipients: self.recipients@.map_values(|r: String| r@),
            title: self.title@,
            html: self.html@,
            text: self.text@,
            next: self.next as nat,
            failed: self.failed,
        }
    }
}

impl DeliveryView {
    /// The message for the `i`-th recipient.
    pub open spec fn message(&self, i: int) -> MessageView {
        MessageView {
            recipient: self.recipients[i],
            subject: self.title,
            html_body: self.html,
            text_body: self.text,
        }
    }
}

impl Delivery {
    pub closed spec fn wf(&self) -> bool {
        self.next <= self.recipients@.len()
    }

    /// Sends nothing more once a send failed; else the next recipient's
    /// message, or `Done` when there is none.
    pub fn next_step(&self) -> (r: DeliveryStep)
        requires
            self.wf(),
        ensures
            self@.failed ==> r is Failed,
            !self@.failed && self@.next < self@.recipients.len() ==> (r matches DeliveryStep::Send(
                m,
            ) && m@ == self@.message(self@.next as int)),
            !self@.failed && self@.next >= self@.recipients.len() ==> r is Done,
    {
        if self.failed {
            DeliveryStep::Failed
        } else if self.next < self.recipients.len() {
            DeliveryStep::Send(
                EmailMessage {
                    recipient: self.recipients[self.next].clone(),
                    subject: self.title.clone(),
                    html_body: self.html.clone(),
                    text_body: self.text.clone(),
                },
            )
        } else {
            DeliveryStep::Done
        }
    }

    /// Records how the send of the current message went: on success the next
    /// recipient is up; on failure the delivery stops for good.
    pub fn record(&mut self, sent: bool)
        requires
            old(self).wf(),
            !old(self)@.failed,
            old(self)@.next < old(self)@.recipients.len(),
        ensures
            final(self).wf(),
            final(self)@ == (if sent {
                DeliveryView { next: old(self)@.next + 1, ..old(self)@ }
            } else {
                DeliveryView { failed: true, ..old(self)@ }
            }),
    {
        if sent {
            let len = self.recipients.len();
            assert(self.next < len);
            self.next = self.next + 1;
        } else {
            self.failed = true;
        }
    }

    /// How the publish request ends, once no more is to be sent.
    pub fn outcome(&self) -> (r: Option<Result<(), PublishError>>)
        requires
            self.wf(),
        ensures
            self@.failed ==> (r matches Some(Err(e)) && e is UnexpectedError),
            !self@.failed && self@.next >= self@.recipients.len() ==> r == Some(
                Ok::<(), PublishError>(()),
            ),
            !self@.failed && self@.next < self@.recipients.len() ==> r is None,
    {
        if self.failed {
            Some(
                Err(
                    PublishError::UnexpectedError(
                        "Failed to send newsletter issue to a confirmed subscriber.".to_owned(),
                    ),
                ),
            )
        } else if self.next < self.recipients.len() {
            None
        } else {
            Some(Ok(()))
        }
    }
}

/// Whether every field of the issue holds something.
pub open spec fn issue_is_complete(body: BodyData) -> bool {
    body.title@.len() > 0 && body.content.html@.len() > 0 && body.content.text@.len() > 0
}

fn recipients_of(store: &Store) -> (r: Vec<String>)
    ensures
        r@.map_values(|s: String| s@) == recipients_spec(store@.subscribers),
{
    let ghost subs = store@.subscribers;
    let mut out: Vec<String> = Vec::new();
    let mut i: usize = 0;
    while i < store.subscribers.len()
        invariant
            subs == store@.subscribers,
            i <= subs.len(),
            out@.map_values(|s: String| s@) == recipients_spec(subs.take(i as int)),
        decreases subs.len() - i,
    {
        assert(subs.take(i + 1).drop_last() =~= subs.take(i as int));
        assert(subs.take(i + 1).last() == subs[i as int]);
        if store.subscribers[i].status == SubscriptionStatus::Confirmed {
            let parsed = SubscriberEmail::parse(store.subscribers[i].email.clone());
            if let Ok(email) = parsed {
                let ghost before = out@;
                out.push(email.as_str().to_owned());
                assert(out@.map_values(|s: String| s@) =~= before.map_values(|s: String| s@).push(
                    subs[i as int].email,
                ));
            }
        }
        i = i + 1;
    }
    assert(subs.take(subs.len() as int) =~= subs);
    out
}

/// Checks the issue and the caller's credentials, and on success returns the
/// delivery of the issue to every confirmed subscriber whose stored address
/// is valid, in store order, with nothing sent yet.
pub fn publish_newletter(store: &Store, body: &BodyData, authorization: Option<&str>) -> (r:
    Result<Delivery, PublishError>)
    requires
        store@.users_wf(),
    ensures
        r matches Err(e) ==> (e is InvalidPayload <==> !issue_is_complete(*body)),
        !issue_is_complete(*body) ==> (r matches Err(e) && e is InvalidPayload),
        issue_is_complete(*body) ==> match basic_credentials(header_view(authorization)) {
            None => r matches Err(e) && e is AuthError,
            Some((username, password)) => match credential_outcome(
                store@.users,
                username,
                password,
            ) {
                AuthOutcome::Invalid => r matches Err(e) && e is AuthError,
                AuthOutcome::Unexpected => r matches Err(e) && e is UnexpectedError,
                AuthOutcome::Authenticated(_) => r matches Ok(d) && d.wf() && d@ == DeliveryView {
                    recipients: recipients_spec(store@.subscribers),
                    title: body.title@,
                    html: body.content.html@,
                    text: body.content.text@,
                    next: 0,
                    failed: false,
                },
            },
        },
{
    if body.title.as_str().unicode_len() == 0 || body.content.html.as_str().unicode_len() == 0
        || body.content.text.as_str().unicode_len() == 0 {
        return Err(PublishError::InvalidPayload("The issue needs a title and both bodies.".to_owned()));
    }
    let credentials = basic_authentication(authorization)?;
    match validate_credentials(store, &credentials) {
        Ok(_) => {},
        Err(AuthError::InvalidCredentials(cause)) => {
            return Err(PublishError::AuthError(cause));
        },
        Err(AuthError::UnexpectedError(cause)) => {
            return Err(PublishError::UnexpectedError(cause));
        },
    }
    let recipients = recipients_of(store);
    Ok(
        Delivery {
            recipients,
            title: body.title.clone(),
            html: body.content.html.clone(),
            text: body.content.text.clone(),
            next: 0,
            failed: false,
        },
    )
}

} // verus!
