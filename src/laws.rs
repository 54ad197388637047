use vstd::prelude::*;

use crate::error::ServiceError;
use crate::identity::{login_post, User};
use crate::resource::{access_decision, bearer_of, bearer_prefix, session_claims};
use crate::session::{is_live_in, lapse_time, SESSION_TTL_SECS};
use crate::token::{jwt_claims, TOKEN_LIFETIME_SECS};

verus! {

/// A `Bearer ` header value carries exactly the (non-empty) token after the prefix.
pub proof fn lemma_bearer_round_trip(t: Seq<char>)
    requires
        t.len() > 0,
    ensures
        bearer_of(Some(bearer_prefix() + t)) == Some(t),
{
    let h = bearer_prefix() + t;
    assert(h.subrange(0, 7) =~= bearer_prefix());
    assert(h.subrange(7, h.len() as int) =~= t);
}

/// A token that login issued at `issued_at`, once its session record is
/// written with the session time-to-live, is accepted by the resource
/// services' validation at any time before its embedded expiry, with the
/// logged-in user's email.
pub proof fn lemma_issued_token_accepted(
    users: Seq<User>,
    secret: Seq<char>,
    email: Seq<char>,
    password: Seq<char>,
    issued_at: u64,
    token: String,
    store_before: Map<Seq<char>, u64>,
    now: u64,
)
    requires
        login_post(users, secret, email, password, issued_at, Ok::<String, ServiceError>(token)),
        issued_at <= now < issued_at + TOKEN_LIFETIME_SECS,
    ensures
        ({
            let store = store_before.insert(token@, lapse_time(issued_at, SESSION_TTL_SECS));
            let header = Some(bearer_prefix() + token@);
            &&& access_decision(header, secret, now, Some(is_live_in(store, token@, now))) == Ok::<
                (Seq<char>, Seq<char>, usize),
                ServiceError,
            >(jwt_claims(token@, secret)->Some_0)
            &&& jwt_claims(token@, secret)->Some_0.1 == email
        }),
{
    lemma_bearer_round_trip(token@);
}

/// A token whose session record is gone is rejected, however valid its
/// signature and embedded expiry.
pub proof fn lemma_revoked_token_rejected(
    header: Option<Seq<char>>,
    secret: Seq<char>,
    now: u64,
    store: Map<Seq<char>, u64>,
    t: Seq<char>,
)
    requires
        bearer_of(header) == Some(t),
    ensures
        access_decision(header, secret, now, Some(is_live_in(store.remove(t), t, now))) == Err::<
            (Seq<char>, Seq<char>, usize),
            ServiceError,
        >(ServiceError::Unauthorized),
{
}

/// A token that does not verify under the secret (forged signature, altered
/// payload, or malformed) is rejected whatever the session store holds, and
/// even when the store cannot be reached.
pub proof fn lemma_unverified_token_rejected(
    header: Option<Seq<char>>,
    secret: Seq<char>,
    now: u64,
    live: Option<bool>,
)
    requires
        bearer_of(header) matches Some(t) && jwt_claims(t, secret) is None,
    ensures
        access_decision(header, secret, now, live) == Err::<
            (Seq<char>, Seq<char>, usize),
            ServiceError,
        >(ServiceError::Unauthorized),
{
}

/// A request without an `Authorization` header is never granted access, so
/// the login status for it is "not logged in".
pub proof fn lemma_no_header_rejected(secret: Seq<char>, now: u64, live: Option<bool>)
    ensures
        access_decision(None, secret, now, live) == Err::<
            (Seq<char>, Seq<char>, usize),
            ServiceError,
        >(ServiceError::Unauthorized),
{
}

/// Once the time-to-live of a token's session record has elapsed, the token
/// is rejected, whatever its signature and embedded expiry say.
pub proof fn lemma_lapsed_session_rejected(
    header: Option<Seq<char>>,
    secret: Seq<char>,
    store_before: Map<Seq<char>, u64>,
    t: Seq<char>,
    written_at: u64,
    ttl: u64,
    now: u64,
)
    requires
        bearer_of(header) == Some(t),
        now >= lapse_time(written_at, ttl),
    ensures
        access_decision(
            header,
            secret,
            now,
            Some(is_live_in(store_before.insert(t, lapse_time(written_at, ttl)), t, now)),
        ) == Err::<(Seq<char>, Seq<char>, usize), ServiceError>(ServiceError::Unauthorized),
{
}

/// Once a token's embedded expiry has passed, the token is rejected, whatever
/// the session store holds.
pub proof fn lemma_expired_claim_rejected(
    header: Option<Seq<char>>,
    secret: Seq<char>,
    now: u64,
    live: Option<bool>,
)
    requires
        bearer_of(header) matches Some(t) && (jwt_claims(t, secret) matches Some(c) && c.2 <= now),
    ensures
        session_claims(header, secret, now) is None,
        access_decision(header, secret, now, live) == Err::<
            (Seq<char>, Seq<char>, usize),
            ServiceError,
        >(ServiceError::Unauthorized),
{
}

} // verus!
