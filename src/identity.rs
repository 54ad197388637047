use vstd::prelude::*;
use vstd::utf8::encode_utf8;

use crate::error::ServiceError;
use crate::password::{hash_password, password_matches, verify_password, MAX_PASSWORD_BYTES};
use crate::token::{create_jwt, expiry_for, jwt_claims, jwt_token_of, uuid_text_of};

verus! {

/// A registered user. `password_hash` is an Argon2 PHC string.
#[derive(Debug)]
pub struct User {
    pub id: u128,
    pub email: String,
    pub password_hash: String,
}

/// The body of a registration request.
#[derive(Debug)]
pub struct RegisterRequest {
    pub email: String,
    pub password: String,
}

/// The body of a login request.
#[derive(Debug)]
pub struct LoginRequest {
    pub email: String,
    pub password: String,
}

/// The body of a successful login response.
#[derive(Debug)]
pub struct AuthResponse {
    pub access_token: String,
}

/// The identity service's user directory and the secret it signs tokens with.
pub struct UserStore {
    pub users: Vec<User>,
    pub jwt_secret: String,
}

/// Some user in `users` has email `email`.
pub open spec fn has_email(users: Seq<User>, email: Seq<char>) -> bool {
    exists|i: int| 0 <= i < users.len() && (#[trigger] users[i]).email@ == email
}

/// No two users share an email.
pub open spec fn emails_unique(users: Seq<User>) -> bool {
    forall|i: int, j: int|
        0 <= i < users.len() && 0 <= j < users.len() && i != j ==> (#[trigger] users[i]).email@
            != (#[trigger] users[j]).email@
}

/// No two users share an id.
pub open spec fn ids_unique(users: Seq<User>) -> bool {
    forall|i: int, j: int|
        0 <= i < users.len() && 0 <= j < users.len() && i != j ==> (#[trigger] users[i]).id
            != (#[trigger] users[j]).id
}

/// Some user in `users` has id `id`.
pub open spec fn has_id(users: Seq<User>, id: u128) -> bool {
    exists|i: int| 0 <= i < users.len() && (#[trigger] users[i]).id == id
}

/// How many ids registration draws before it gives up on finding one that
/// no user holds.
pub const ID_ATTEMPTS: usize = 4;

/// The user registered under `email`, if any.
pub open spec fn user_with_email(users: Seq<User>, email: Seq<char>) -> Option<User> {
    if has_email(users, email) {
        Some(users[choose|i: int| 0 <= i < users.len() && (#[trigger] users[i]).email@ == email])
    } else {
        None
    }
}

/// The effect of registering `email` with `password` on a directory that
/// held `before`: a duplicate email is a conflict and changes nothing; a
/// password longer than Argon2 accepts is an internal fault and changes
/// nothing; otherwise one user with that email, a digest of that password
/// and an id no other user holds is added, unless every id drawn was taken
/// (an internal fault that changes nothing).
pub open spec fn register_post(
    before: Seq<User>,
    email: Seq<char>,
    password: Seq<char>,
    r: Result<(), ServiceError>,
    after: Seq<User>,
) -> bool {
    if has_email(before, email) {
        r == Err::<(), ServiceError>(ServiceError::Conflict) && after == before
    } else if encode_utf8(password).len() > MAX_PASSWORD_BYTES {
        r == Err::<(), ServiceError>(ServiceError::Internal) && after == before
    } else {
        match r {
            Ok(_) => {
                &&& after.len() == before.len() + 1
                &&& after.subrange(0, before.len() as int) == before
                &&& after.last().email@ == email
                &&& !has_id(before, after.last().id)
                &&& password_matches(password, after.last().password_hash@)
            },
            Err(e) => e == ServiceError::Internal && after == before,
        }
    }
}

/// What a login with `email` and `password` at `now` yields for a directory
/// holding `users` and signing with `secret`: `Unauthorized` alike for an
/// unknown email and a wrong password; otherwise a token that carries the
/// user's id, email and an expiry an hour after `now`, unless signing fails.
pub open spec fn login_post(
    users: Seq<User>,
    secret: Seq<char>,
    email: Seq<char>,
    password: Seq<char>,
    now: u64,
    r: Result<String, ServiceError>,
) -> bool {
    match user_with_email(users, email) {
        None => r == Err::<String, ServiceError>(ServiceError::Unauthorized),
        Some(u) => if !password_matches(password, u.password_hash@) {
            r == Err::<String, ServiceError>(ServiceError::Unauthorized)
        } else {
            &&& r matches Err(e) ==> e == ServiceError::Internal
            &&& expiry_for(now) is None <==> r is Err
            &&& r matches Ok(t) ==> t@.len() > 0
            &&& r matches Ok(t) ==> t@ == jwt_token_of(
                uuid_text_of(u.id),
                u.email@,
                expiry_for(now)->Some_0,
                secret,
            )
            &&& r matches Ok(t) ==> jwt_claims(t@, secret) == Some(
                (uuid_text_of(u.id), u.email@, expiry_for(now)->Some_0),
            )
        },
    }
}

/// Relies on uuid's `Uuid::new_v4`: a random id, of which nothing is promised.
#[verifier::external_body]
fn new_user_id() -> (r: u128) {
    uuid::Uuid::new_v4().as_u128()
}

impl UserStore {
    /// An empty directory that signs tokens with `jwt_secret`.
    pub fn new(jwt_secret: String) -> (r: Self)
        ensures
            r.users@.len() == 0,
            r.jwt_secret == jwt_secret,
            r.wf(),
    {
        UserStore { users: Vec::new(), jwt_secret }
    }

    pub open spec fn wf(&self) -> bool {
        emails_unique(self.users@) && ids_unique(self.users@)
    }

    /// Whether some user holds `id`.
    pub fn holds_id(&self, id: u128) -> (r: bool)
        ensures
            r == has_id(self.users@, id),
    {
        let mut i: usize = 0;
        while i < self.users.len()
            invariant
                i <= self.users@.len(),
                forall|j: int| 0 <= j < i ==> (#[trigger] self.users@[j]).id != id,
            decreases self.users@.len() - i,
        {
            if self.users[i].id == id {
                return true;
            }
            i = i + 1;
        }
        false
    }

    /// An id that no user holds, drawn at random; `None` when each of
    /// `ID_ATTEMPTS` draws was taken.
    fn fresh_id(&self) -> (r: Option<u128>)
        ensures
            r matches Some(id) ==> !has_id(self.users@, id),
    {
        let mut attempt: usize = 0;
        while attempt < ID_ATTEMPTS
            invariant
                attempt <= ID_ATTEMPTS,
            decreases ID_ATTEMPTS - attempt,
        {
            let id = new_user_id();
            if !self.holds_id(id) {
                return Some(id);
            }
            attempt = attempt + 1;
        }
        None
    }

    /// The position of the user registered under `email`, if any.
    pub fn find(&self, email: &String) -> (r: Option<usize>)
        ensures
            r is None <==> !has_email(self.users@, email@),
            r matches Some(i) ==> i < self.users@.len() && self.users@[i as int].email@ == email@,
    {
        let mut i: usize = 0;
        while i < self.users.len()
            invariant
                i <= self.users@.len(),
                forall|j: int| 0 <= j < i ==> (#[trigger] self.users@[j]).email@ != email@,
            decreases self.users@.len() - i,
        {
            if self.users[i].email == *email {
                return Some(i);
            }
            i = i + 1;
        }
        None
    }
}

proof fn lemma_user_at(users: Seq<User>, email: Seq<char>, i: int)
    requires
        emails_unique(users),
        0 <= i < users.len(),
        users[i].email@ == email,
    ensures
        user_with_email(users, email) == Some(users[i]),
{
    let k = choose|k: int| 0 <= k < users.len() && (#[trigger] users[k]).email@ == email;
    assert(users[k].email@ == email);
}

/// Registers a user: a duplicate email is refused with `Conflict`; otherwise
/// the password is hashed and a user with a fresh id is stored.
pub fn register(store: &mut UserStore, req: RegisterRequest) -> (r: Result<(), ServiceError>)
    requires
        old(store).wf(),
    ensures
        final(store).wf(),
        final(store).jwt_secret == old(store).jwt_secret,
        register_post(old(store).users@, req.email@, req.password@, r, final(store).users@),
{
    if store.find(&req.email).is_some() {
        return Err(ServiceError::Conflict);
    }
    if req.password.as_str().as_bytes().len() > MAX_PASSWORD_BYTES {
        return Err(ServiceError::Internal);
    }
    let id = match store.fresh_id() {
        Some(id) => id,
        None => return Err(ServiceError::Internal),
    };
    let password_hash = hash_password(req.password.as_str());
    let user = User { id, email: req.email, password_hash };
    let ghost before = store.users@;
    store.users.push(user);
    assert(store.users@.subrange(0, before.len() as int) =~= before);
    assert forall|i: int, j: int|
        0 <= i < store.users@.len() && 0 <= j < store.users@.len() && i != j implies (
        #[trigger] store.users@[i]).email@ != (#[trigger] store.users@[j]).email@ by {
        if i < before.len() && j < before.len() {
            assert(store.users@[i] == before[i] && store.users@[j] == before[j]);
        } else if i < before.len() {
            assert(store.users@[i] == before[i]);
        } else {
            assert(store.users@[j] == before[j]);
        }
    }
    assert forall|i: int, j: int|
        0 <= i < store.users@.len() && 0 <= j < store.users@.len() && i != j implies (
        #[trigger] store.users@[i]).id != (#[trigger] store.users@[j]).id by {
        if i < before.len() && j < before.len() {
            assert(store.users@[i] == before[i] && store.users@[j] == before[j]);
        } else if i < before.len() {
            assert(store.users@[i] == before[i]);
        } else {
            assert(store.users@[j] == before[j]);
        }
    }
    Ok(())
}

/// Checks the credentials and, when they hold, issues a token for the user at
/// time `now`. The token is not yet registered as a session: `complete_login`
/// hands it out only once the session store has recorded it.
pub fn login(store: &UserStore, req: LoginRequest, now: u64) -> (r: Result<String, ServiceError>)
    requires
        store.wf(),
    ensures
        login_post(store.users@, store.jwt_secret@, req.email@, req.password@, now, r),
{
    let i = match store.find(&req.email) {
        None => return Err(ServiceError::Unauthorized),
        Some(i) => i,
    };
    let user = &store.users[i];
    proof {
        lemma_user_at(store.users@, req.email@, i as int);
    }
    if !verify_password(req.password.as_str(), user.password_hash.as_str()) {
        return Err(ServiceError::Unauthorized);
    }
    match create_jwt(user.id, user.email.clone(), store.jwt_secret.as_str(), now) {
        Ok(token) => Ok(token),
        Err(_) => Err(ServiceError::Internal),
    }
}

/// Hands the token out once the session store has recorded it (`stored`);
/// a failed store write makes the login fail with `Internal`.
pub fn complete_login(token: String, stored: bool) -> (r: Result<AuthResponse, ServiceError>)
    ensures
        stored ==> (r matches Ok(a) && a.access_token == token),
        !stored ==> r == Err::<AuthResponse, ServiceError>(ServiceError::Internal),
{
    if stored {
        Ok(AuthResponse { access_token: token })
    } else {
        Err(ServiceError::Internal)
    }
}

/// Once an email has been registered, registering it again is a conflict and leaves the directory, and so the
/// first user's record, unchanged.
pub proof fn lemma_duplicate_registration_conflicts(
    s0: Seq<User>,
    s1: Seq<User>,
    s2: Seq<User>,
    email: Seq<char>,
    first_password: Seq<char>,
    second_password: Seq<char>,
    r1: Result<(), ServiceError>,
    r2: Result<(), ServiceError>,
)
    requires
        register_post(s0, email, first_password, r1, s1),
        r1 is Ok,
        register_post(s1, email, second_password, r2, s2),
    ensures
        r2 == Err::<(), ServiceError>(ServiceError::Conflict),
        s2 == s1,
        user_with_email(s2, email) == user_with_email(s1, email),
{
    if !has_email(s0, email) {
        assert(s1[s1.len() - 1].email@ == email);
        assert(has_email(s1, email));
    }
}

} // verus!

verus! {

/// After a user registers, logging in with the same email and password at a
/// time whose expiry fits succeeds, with a token that carries that email.
pub proof fn lemma_registered_user_can_log_in(
    s0: Seq<User>,
    s1: Seq<User>,
    email: Seq<char>,
    password: Seq<char>,
    r1: Result<(), ServiceError>,
    secret: Seq<char>,
    now: u64,
    r2: Result<String, ServiceError>,
)
    requires
        emails_unique(s0),
        register_post(s0, email, password, r1, s1),
        r1 is Ok,
        login_post(s1, secret, email, password, now, r2),
        expiry_for(now) is Some,
    ensures
        r2 matches Ok(t) && (jwt_claims(t@, secret) matches Some(c) && c.1 == email),
{
    let n = s0.len() as int;
    assert forall|i: int, j: int|
        0 <= i < s1.len() && 0 <= j < s1.len() && i != j implies (#[trigger] s1[i]).email@
            != (#[trigger] s1[j]).email@ by {
        if i < n {
            assert(s1[i] == s0[i]);
        }
        if j < n {
            assert(s1[j] == s0[j]);
        }
    }
    lemma_user_at(s1, email, n);
}

} // verus!
