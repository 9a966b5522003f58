//! Operator credentials: verification that does the same work for unknown
//! users as for known ones, and password changes.
use vstd::prelude::*;

use argon2::password_hash::{PasswordHasher, PasswordVerifier, SaltString};
use crate::store::{Store, StoreView, UserRecord};

verus! {

/// A hash that no operator has, verified against when the username is
/// unknown so that both cases take the same time.
pub const REFERENCE_PASSWORD_HASH: &'static str =
    "$argon2id$v=19$m=15000,t=2,p=1$gZiV/M1gPc22ElAH/Jh1Hw$CWOrkoo7oJBQ/iyh7uJ0LO2aLEfrHwTWllSAxT0zRno";

/// Argon2id memory cost of new hashes, in KiB.
pub const HASH_MEMORY_KIB: u32 = 15000;

/// Argon2id iterations of new hashes.
pub const HASH_ITERATIONS: u32 = 2;

/// Argon2id parallelism of new hashes.
pub const HASH_PARALLELISM: u32 = 1;

/// Whether `hash` is a password hash in PHC string format.
pub uninterp spec fn phc_parses(hash: Seq<char>) -> bool;

/// Whether Argon2 verification of `password` against the PHC string `hash`
/// succeeds.
pub uninterp spec fn argon2_accepts(hash: Seq<char>, password: Seq<char>) -> bool;

pub open spec fn is_ascii_digit(c: char) -> bool {
    '0' <= c && c <= '9'
}

/// More than `n` digits in a row start at `j`.
pub open spec fn long_digit_run(h: Seq<char>, j: int, n: int) -> bool {
    j + n < h.len() && forall|k: int| j <= k <= j + n ==> is_ascii_digit(#[trigger] h[k])
}

/// At `i`, no `m=` value has more than six digits and no `t=` or `p=` value
/// more than three.
pub open spec fn cost_ok_at(h: Seq<char>, i: int) -> bool {
    &&& (h[i] == 'm' && h[i + 1] == '=' ==> !long_digit_run(h, i + 2, 6))
    &&& (h[i] == 't' && h[i + 1] == '=' ==> !long_digit_run(h, i + 2, 3))
    &&& (h[i] == 'p' && h[i + 1] == '=' ==> !long_digit_run(h, i + 2, 3))
}

/// The cost parameters written in a PHC string are small enough that
/// verifying against it neither overflows nor asks for more than a GiB: a
/// parameter whose value is not all digits is refused by the parser anyway.
pub open spec fn hash_costs_bounded(h: Seq<char>) -> bool {
    forall|i: int| 0 <= i && i + 1 < h.len() ==> #[trigger] cost_ok_at(h, i)
}

pub open spec fn digit_char(d: nat) -> char {
    if d == 0 { '0' } else if d == 1 { '1' } else if d == 2 { '2' } else if d == 3 { '3' }
    else if d == 4 { '4' } else if d == 5 { '5' } else if d == 6 { '6' } else if d == 7 { '7' }
    else if d == 8 { '8' } else { '9' }
}

/// `n` written in decimal, without leading zeros.
pub open spec fn decimal(n: nat) -> Seq<char>
    decreases n,
{
    if n < 10 {
        seq![digit_char(n)]
    } else {
        decimal(n / 10).push(digit_char(n % 10))
    }
}

/// How a PHC string of Argon2id, version 0x13, with these costs begins.
pub open spec fn argon2id_prefix(memory_kib: nat, iterations: nat, parallelism: nat) -> Seq<
    char,
> {
    "$argon2id$v=19$m="@ + decimal(memory_kib) + ",t="@ + decimal(iterations) + ",p="@ + decimal(
        parallelism,
    ) + "$"@
}

/// Relies on `argon2::PasswordHash::new` to parse the PHC string (`None` when
/// it fails) and on `PasswordVerifier::verify_password` of
/// `Argon2::default()`, which recomputes the hash with the parameters and salt
/// that the string holds and compares. `Params::new` computes `p * 8` before
/// it checks `p`, and the memory cost is allocated: hence the bound.
#[verifier::external_body]
fn verify_password_hash(expected_hash: &str, candidate: &str) -> (r: Option<bool>)
    requires
        hash_costs_bounded(expected_hash@),
    ensures
        r is Some <==> phc_parses(expected_hash@),
        r matches Some(ok) ==> ok == argon2_accepts(expected_hash@, candidate@),
{
    let parsed = argon2::PasswordHash::new(expected_hash).ok()?;
    Some(argon2::Argon2::default().verify_password(candidate.as_bytes(), &parsed).is_ok())
}

/// Relies on `SaltString::generate` with `thread_rng` for a fresh 16-byte
/// salt and on `PasswordHasher::hash_password` of an Argon2id (version 0x13)
/// hasher built by `argon2::Params::new`. Within these costs neither fails;
/// hashing fails only on a password over `u32::MAX` bytes. The PHC string
/// (`PasswordHash`'s `Display`) is `$argon2id$v=19$m=..,t=..,p=..$` followed by
/// the salt and the output in unpadded B64, which hold no `=`; it records the
/// salt and the costs, so verifying the same password against it succeeds.
#[verifier::external_body]
fn hash_password(password: &str, memory_kib: u32, iterations: u32, parallelism: u32) -> (r:
    Option<String>)
    requires
        1 <= parallelism <= 999,
        8 * parallelism <= memory_kib <= 999_999,
        1 <= iterations <= 999,
    ensures
        password@.len() <= 0x3FFF_FFFF ==> r is Some,
        r matches Some(h) ==> {
            let prefix = argon2id_prefix(memory_kib as nat, iterations as nat, parallelism as nat);
            &&& phc_parses(h@)
            &&& argon2_accepts(h@, password@)
            &&& hash_costs_bounded(h@)
            &&& prefix.len() < h@.len()
            &&& h@.take(prefix.len() as int) == prefix
        },
{
    let salt = SaltString::generate(&mut rand::thread_rng());
    let params = argon2::Params::new(memory_kib, iterations, parallelism, None).ok()?;
    let hasher = argon2::Argon2::new(argon2::Algorithm::Argon2id, argon2::Version::V0x13, params);
    Some(hasher.hash_password(password.as_bytes(), &salt).ok()?.to_string())
}

fn long_run_at(h: &str, len: usize, j: usize, n: usize) -> (r: bool)
    requires
        len == h@.len(),
        j <= len,
    ensures
        r == long_digit_run(h@, j as int, n as int),
{
    if n >= len - j {
        return false;
    }
    let mut k: usize = j;
    while k <= j + n
        invariant
            len == h@.len(),
            j + n < len,
            j <= k <= j + n + 1,
            forall|q: int| j <= q < k ==> is_ascii_digit(#[trigger] h@[q]),
        decreases j + n + 1 - k,
    {
        let c = h.get_char(k);
        if !('0' <= c && c <= '9') {
            return false;
        }
        k = k + 1;
    }
    true
}

/// Whether the cost parameters written in `h` are within bounds.
pub fn costs_bounded(h: &str) -> (r: bool)
    ensures
        r == hash_costs_bounded(h@),
{
    let len = h.unicode_len();
    let mut i: usize = 0;
    while i < len && i + 1 < len
        invariant
            len == h@.len(),
            i <= len,
            forall|q: int| 0 <= q < i && q + 1 < len ==> #[trigger] cost_ok_at(h@, q),
        decreases len - i,
    {
        let c = h.get_char(i);
        if h.get_char(i + 1) == '=' {
            if c == 'm' && long_run_at(h, len, i + 2, 6) {
                assert(!cost_ok_at(h@, i as int));
                return false;
            }
            if (c == 't' || c == 'p') && long_run_at(h, len, i + 2, 3) {
                assert(!cost_ok_at(h@, i as int));
                return false;
            }
        }
        assert(cost_ok_at(h@, i as int));
        i = i + 1;
    }
    true
}

/// Why credentials were not accepted. Both kinds carry a cause for
/// diagnostics; clients only ever see the kind.
#[derive(Debug)]
pub enum AuthError {
    InvalidCredentials(String),
    UnexpectedError(String),
}

/// A username and the password offered for it. It has no `Debug`, so that
/// the password cannot end up in a log.
#[derive(Clone)]
pub struct Credentials {
    pub username: String,
    pub password: String,
}

/// What a credential check comes to, without the causes.
pub enum AuthOutcome {
    Authenticated(u128),
    Invalid,
    Unexpected,
}

pub open spec fn outcome_of(r: Result<u128, AuthError>) -> AuthOutcome {
    match r {
        Ok(id) => AuthOutcome::Authenticated(id),
        Err(AuthError::InvalidCredentials(_)) => AuthOutcome::Invalid,
        Err(AuthError::UnexpectedError(_)) => AuthOutcome::Unexpected,
    }
}

pub open spec fn has_user(users: Seq<UserRecord>, username: Seq<char>) -> bool {
    exists|i: int| 0 <= i < users.len() && (#[trigger] users[i]).username == username
}

/// The stored credential of `username`.
pub open spec fn user_named(users: Seq<UserRecord>, username: Seq<char>) -> UserRecord {
    users[choose|i: int| 0 <= i < users.len() && (#[trigger] users[i]).username == username]
}

/// The hash that the password offered for `username` is verified against.
pub open spec fn hash_to_verify(users: Seq<UserRecord>, username: Seq<char>) -> Seq<char> {
    if has_user(users, username) {
        user_named(users, username).password_hash
    } else {
        REFERENCE_PASSWORD_HASH@
    }
}

/// How a verification result and the user found (if any) decide the check.
pub open spec fn verdict_spec(user_id: Option<u128>, verified: Option<bool>) -> AuthOutcome {
    match verified {
        None => AuthOutcome::Unexpected,
        Some(false) => AuthOutcome::Invalid,
        Some(true) => match user_id {
            Some(id) => AuthOutcome::Authenticated(id),
            None => AuthOutcome::Invalid,
        },
    }
}

/// What checking `password` for `username` against `users` comes to.
pub open spec fn credential_outcome(
    users: Seq<UserRecord>,
    username: Seq<char>,
    password: Seq<char>,
) -> AuthOutcome {
    let hash = hash_to_verify(users, username);
    let user_id = if has_user(users, username) {
        Some(user_named(users, username).user_id)
    } else {
        None
    };
    let verified = if hash_costs_bounded(hash) && phc_parses(hash) {
        Some(argon2_accepts(hash, password))
    } else {
        None
    };
    verdict_spec(user_id, verified)
}

/// Decides a credential check from the user found (if any) and the result of
/// verifying the password: `None` means the stored hash could not be parsed
/// or its costs are out of bounds.
pub fn credential_verdict(user_id: Option<u128>, verified: Option<bool>) -> (r: Result<
    u128,
    AuthError,
>)
    ensures
        outcome_of(r) == verdict_spec(user_id, verified),
{
    match verified {
        None => Err(AuthError::UnexpectedError("Failed to parse hash in PHC string format.".to_owned())),
        Some(false) => Err(AuthError::InvalidCredentials("Invalid Password.".to_owned())),
        Some(true) => match user_id {
            Some(id) => Ok(id),
            None => Err(AuthError::InvalidCredentials("Unknown Username.".to_owned())),
        },
    }
}

/// The user id and password hash stored for `username`, if any.
pub fn get_stored_credentials(store: &Store, username: &String) -> (r: Option<(u128, String)>)
    requires
        store@.users_wf(),
    ensures
        r is Some <==> has_user(store@.users, username@),
        r matches Some((id, hash)) ==> id == user_named(store@.users, username@).user_id
            && hash@ == user_named(store@.users, username@).password_hash,
{
    let ghost v = store@.users;
    let mut i: usize = 0;
    while i < store.users.len()
        invariant
            v == store@.users,
            store@.users_wf(),
            i <= v.len(),
            forall|k: int| 0 <= k < i ==> (#[trigger] v[k]).username != username@,
        decreases v.len() - i,
    {
        if store.users[i].username == *username {
            proof {
                let ii = i as int;
                assert(v[ii].username == username@);
                let c = choose|c: int| 0 <= c < v.len() && (#[trigger] v[c]).username == username@;
                if c != ii {
                    if c < ii {
                        assert(v[c].username != v[ii].username);
                    } else {
                        assert(v[ii].username != v[c].username);
                    }
                }
            }
            return Some((store.users[i].user_id, store.users[i].password_hash.clone()));
        }
        i = i + 1;
    }
    None
}

/// Checks `credentials` against the store. The password is verified whether
/// or not the username is known: against the reference hash when it is not.
pub fn validate_credentials(store: &Store, credentials: &Credentials) -> (r: Result<
    u128,
    AuthError,
>)
    requires
        store@.users_wf(),
    ensures
        outcome_of(r) == credential_outcome(
            store@.users,
            credentials.username@,
            credentials.password@,
        ),
{
    let mut user_id: Option<u128> = None;
    let mut expected_hash = REFERENCE_PASSWORD_HASH.to_owned();
    if let Some((stored_id, stored_hash)) = get_stored_credentials(store, &credentials.username) {
        user_id = Some(stored_id);
        expected_hash = stored_hash;
    }
    let verified = if costs_bounded(expected_hash.as_str()) {
        verify_password_hash(expected_hash.as_str(), credentials.password.as_str())
    } else {
        None
    };
    credential_verdict(user_id, verified)
}

/// `users` with the hash of the user `user_id` replaced by `hash`.
pub open spec fn with_password_hash(
    users: Seq<UserRecord>,
    user_id: u128,
    hash: Seq<char>,
) -> Seq<UserRecord> {
    users.map_values(
        |u: UserRecord|
            if u.user_id == user_id {
                UserRecord { password_hash: hash, ..u }
            } else {
                u
            },
    )
}

/// Replaces the password hash of the user `user_id`; with no such user,
/// nothing changes.
pub fn set_password_hash(store: &mut Store, user_id: u128, hash: String)
    requires
        old(store)@.wf(),
    ensures
        final(store)@.wf(),
        final(store)@.users == with_password_hash(old(store)@.users, user_id, hash@),
        final(store)@.subscribers == old(store)@.subscribers,
        final(store)@.tokens == old(store)@.tokens,
{
    let ghost v = store@.users;
    let mut i: usize = 0;
    while i < store.users.len() && store.users[i].user_id != user_id
        invariant
            v == store@.users,
            store@ == old(store)@,
            old(store)@.wf(),
            i <= v.len(),
            forall|k: int| 0 <= k < i ==> (#[trigger] v[k]).user_id != user_id,
        decreases v.len() - i,
    {
        i = i + 1;
    }
    if i < store.users.len() {
        store.users[i].password_hash = hash;
    }
    proof {
        let target = with_password_hash(v, user_id, hash@);
        if i < v.len() {
            let ii = i as int;
            assert(v[ii].user_id == user_id);
            assert forall|k: int| 0 <= k < v.len() implies #[trigger] store@.users[k] == target[k] by {
                if k < ii {
                    assert(v[k].user_id != v[ii].user_id);
                } else if k > ii {
                    assert(v[ii].user_id != v[k].user_id);
                }
            }
        }
        assert(store@.users =~= target);
        assert(store@.subscribers =~= old(store)@.subscribers);
        assert(store@.tokens =~= old(store)@.tokens);
    }
}

/// How every hash that `change_password` stores begins: Argon2id, version
/// 0x13, 15000 KiB, two iterations, one lane.
pub const NEW_HASH_PREFIX: &'static str = "$argon2id$v=19$m=15000,t=2,p=1$";

proof fn lemma_new_hash_prefix()
    ensures
        argon2id_prefix(HASH_MEMORY_KIB as nat, HASH_ITERATIONS as nat, HASH_PARALLELISM as nat)
            == NEW_HASH_PREFIX@,
{
    reveal_with_fuel(decimal, 6);
    reveal_strlit("$argon2id$v=19$m=");
    reveal_strlit(",t=");
    reveal_strlit(",p=");
    reveal_strlit("$");
    reveal_strlit("$argon2id$v=19$m=15000,t=2,p=1$");
    assert(decimal(15000) =~= seq!['1', '5', '0', '0', '0']);
    assert(decimal(2) =~= seq!['2']);
    assert(decimal(1) =~= seq!['1']);
    assert(argon2id_prefix(15000, 2, 1) =~= NEW_HASH_PREFIX@);
}

/// Hashes `new_password` with a fresh salt and stores the hash for
/// `user_id`, replacing the previous one.
pub fn change_password(store: &mut Store, user_id: u128, new_password: &str) -> (r: Result<
    (),
    AuthError,
>)
    requires
        old(store)@.wf(),
    ensures
        final(store)@.wf(),
        r is Ok || r matches Err(AuthError::UnexpectedError(_)),
        r is Err ==> final(store)@ == old(store)@,
        new_password@.len() <= 0x3FFF_FFFF ==> r is Ok,
        r is Ok ==> exists|hash: Seq<char>|
            {
                &&& phc_parses(hash)
                &&& argon2_accepts(hash, new_password@)
                &&& hash_costs_bounded(hash)
                &&& NEW_HASH_PREFIX@.len() < hash.len()
                &&& hash.take(NEW_HASH_PREFIX@.len() as int) == NEW_HASH_PREFIX@
                &&& #[trigger] with_password_hash(old(store)@.users, user_id, hash)
                    == final(store)@.users
            },
        final(store)@.subscribers == old(store)@.subscribers,
        final(store)@.tokens == old(store)@.tokens,
{
    proof {
        lemma_new_hash_prefix();
    }
    match hash_password(new_password, HASH_MEMORY_KIB, HASH_ITERATIONS, HASH_PARALLELISM) {
        Some(hash) => {
            let ghost h = hash@;
            set_password_hash(store, user_id, hash);
            assert(with_password_hash(old(store)@.users, user_id, h) == store@.users);
            Ok(())
        },
        None => Err(AuthError::UnexpectedError("Failed to hash password".to_owned())),
    }
}

/// An unknown username and a wrong password for a known one are told apart
/// by nothing: both come to `Invalid` (the former as long as the reference
/// hash parses and is within the cost bounds, which it is; it is never
/// `Authenticated` in any case).
pub proof fn lemma_unknown_user_looks_like_wrong_password(
    users: Seq<UserRecord>,
    unknown: Seq<char>,
    known: Seq<char>,
    password: Seq<char>,
    wrong_password: Seq<char>,
)
    requires
        !has_user(users, unknown),
        has_user(users, known),
        hash_costs_bounded(user_named(users, known).password_hash),
        phc_parses(user_named(users, known).password_hash),
        !argon2_accepts(user_named(users, known).password_hash, wrong_password),
    ensures
        !(credential_outcome(users, unknown, password) is Authenticated),
        phc_parses(REFERENCE_PASSWORD_HASH@) && hash_costs_bounded(REFERENCE_PASSWORD_HASH@)
            ==> credential_outcome(users, unknown, password) == credential_outcome(
            users,
            known,
            wrong_password,
        ),
        credential_outcome(users, known, wrong_password) == AuthOutcome::Invalid,
{
}

/// After a password change, the new password authenticates the user.
pub proof fn lemma_changed_password_authenticates(
    s: StoreView,
    i: int,
    hash: Seq<char>,
    password: Seq<char>,
)
    requires
        s.users_wf(),
        0 <= i < s.users.len(),
        hash_costs_bounded(hash),
        phc_parses(hash),
        argon2_accepts(hash, password),
    ensures
        credential_outcome(
            with_password_hash(s.users, s.users[i].user_id, hash),
            s.users[i].username,
            password,
        ) == AuthOutcome::Authenticated(s.users[i].user_id),
{
    let users = with_password_hash(s.users, s.users[i].user_id, hash);
    let name = s.users[i].username;
    assert(users[i].username == name);
    let c = choose|c: int| 0 <= c < users.len() && (#[trigger] users[c]).username == name;
    if c != i {
        if c < i {
            assert(s.users[c].username != s.users[i].username);
        } else {
            assert(s.users[i].username != s.users[c].username);
        }
    }
}

} // verus!
