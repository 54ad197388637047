use vstd::prelude::*;

use crate::error::ServiceError;
use crate::session::{is_live_in, SessionTable};
use crate::text::{has_prefix, starts_with, suffix_from};
use crate::token::{accepts, jwt_claims, verify_token, Claims};

verus! {

/// A token that verified under the secret and has not expired, but whose
/// session record has yet to be checked.
pub struct PendingSession {
    pub token: String,
    pub claims: Claims,
}

/// One item of the data service's payload.
pub struct DataItem {
    pub id: i32,
    pub name: String,
    pub description: String,
}

/// The data service's response to an authenticated caller.
pub struct DataResponse {
    pub message: String,
    pub user_email: String,
    pub data: Vec<DataItem>,
}

/// The answer to "is the caller logged in?".
pub struct LoginStatus {
    pub is_logged_in: bool,
    pub user: Option<String>,
}

pub open spec fn bearer_prefix() -> Seq<char> {
    seq!['B', 'e', 'a', 'r', 'e', 'r', ' ']
}

/// The token that an `Authorization` header value carries, if it has the
/// `Bearer ` form with a non-empty token.
pub open spec fn bearer_of(header: Option<Seq<char>>) -> Option<Seq<char>> {
    match header {
        Some(h) => if has_prefix(h, bearer_prefix()) && h.len() > 7 {
            Some(h.subrange(7, h.len() as int))
        } else {
            None
        },
        None => None,
    }
}

/// The token and its claims when the header carries a token that verifies
/// under `secret` and has not expired at `now`.
pub open spec fn session_claims(header: Option<Seq<char>>, secret: Seq<char>, now: u64) -> Option<
    (Seq<char>, (Seq<char>, Seq<char>, usize)),
> {
    match bearer_of(header) {
        None => None,
        Some(t) => match jwt_claims(t, secret) {
            None => None,
            Some(c) => if accepts(c, now) {
                Some((t, c))
            } else {
                None
            },
        },
    }
}

/// The decision of a resource service, given what the session store said of
/// the token (`None` when the store could not be reached): the caller's
/// claims, `Unauthorized`, or `Internal` (failing closed).
pub open spec fn access_decision(
    header: Option<Seq<char>>,
    secret: Seq<char>,
    now: u64,
    live: Option<bool>,
) -> Result<(Seq<char>, Seq<char>, usize), ServiceError> {
    match session_claims(header, secret, now) {
        None => Err(ServiceError::Unauthorized),
        Some((t, c)) => match live {
            Some(true) => Ok(c),
            Some(false) => Err(ServiceError::Unauthorized),
            None => Err(ServiceError::Internal),
        },
    }
}

/// The view of an optional header value.
pub open spec fn header_view(header: Option<&str>) -> Option<Seq<char>> {
    match header {
        Some(h) => Some(h@),
        None => None,
    }
}

/// The token of a `Bearer ` authorization header value.
pub fn bearer_token(header: Option<&str>) -> (r: Option<String>)
    ensures
        r is None <==> bearer_of(header_view(header)) is None,
        r matches Some(t) ==> bearer_of(header_view(header)) == Some(t@),
{
    match header {
        None => None,
        Some(h) => {
            proof {
                reveal_strlit("Bearer ");
            }
            assert("Bearer "@ =~= bearer_prefix());
            if starts_with(h, "Bearer ") && h.unicode_len() > 7 {
                Some(suffix_from(h, 7))
            } else {
                None
            }
        },
    }
}

/// The first step of a resource service: extract the bearer token and verify
/// it under `secret` at `now`. Anything missing, malformed, forged or expired
/// is `Unauthorized`; otherwise the token still has to be looked up in the
/// session store.
pub fn authenticate(header: Option<&str>, secret: &str, now: u64) -> (r: Result<
    PendingSession,
    ServiceError,
>)
    ensures
        session_claims(header_view(header), secret@, now) is None ==> r == Err::<
            PendingSession,
            ServiceError,
        >(ServiceError::Unauthorized),
        session_claims(header_view(header), secret@, now) matches Some(s) ==> (r matches Ok(p)
            && p.token@ == s.0 && p.claims@ == s.1),
{
    let token = match bearer_token(header) {
        None => return Err(ServiceError::Unauthorized),
        Some(t) => t,
    };
    match verify_token(token.as_str(), secret, now) {
        Ok(claims) => Ok(PendingSession { token, claims }),
        Err(_) => Err(ServiceError::Unauthorized),
    }
}

/// The second step: what the session store said of the token. A live
/// record grants access, a missing or lapsed one is `Unauthorized`, and an
/// unreachable store (`None`) is `Internal`, never access.
pub fn confirm_session(pending: PendingSession, live: Option<bool>) -> (r: Result<
    Claims,
    ServiceError,
>)
    ensures
        live == Some(true) ==> (r matches Ok(c) && c@ == pending.claims@),
        live == Some(false) ==> r == Err::<Claims, ServiceError>(ServiceError::Unauthorized),
        live is None ==> r == Err::<Claims, ServiceError>(ServiceError::Internal),
{
    match live {
        Some(true) => Ok(pending.claims),
        Some(false) => Err(ServiceError::Unauthorized),
        None => Err(ServiceError::Internal),
    }
}

/// Both steps against an in-process session store.
pub fn authorize(table: &SessionTable, header: Option<&str>, secret: &str, now: u64) -> (r: Result<
    Claims,
    ServiceError,
>)
    requires
        table.wf(),
    ensures
        match access_decision(
            header_view(header),
            secret@,
            now,
            Some(is_live_in(table@, bearer_of(header_view(header))->Some_0, now)),
        ) {
            Ok(c) => r matches Ok(v) && v@ == c,
            Err(e) => r == Err::<Claims, ServiceError>(e),
        },
        match session_claims(header_view(header), secret@, now) {
            None => r == Err::<Claims, ServiceError>(ServiceError::Unauthorized),
            Some(s) => if is_live_in(table@, s.0, now) {
                r matches Ok(c) && c@ == s.1
            } else {
                r == Err::<Claims, ServiceError>(ServiceError::Unauthorized)
            },
        },
{
    let pending = authenticate(header, secret, now)?;
    let live = table.is_live(pending.token.as_str(), now);
    confirm_session(pending, Some(live))
}

/// The data service's answer to a request with `header` at `now`, with
/// sessions in `table`: the payload for the caller when access is granted,
/// and otherwise the error that access was refused with.
pub fn data_request(table: &SessionTable, header: Option<&str>, secret: &str, now: u64) -> (r: Result<
    DataResponse,
    ServiceError,
>)
    requires
        table.wf(),
    ensures
        match access_decision(
            header_view(header),
            secret@,
            now,
            Some(is_live_in(table@, bearer_of(header_view(header))->Some_0, now)),
        ) {
            Ok(c) => r matches Ok(d) && d.user_email@ == c.1 && d.data@.len() == 3,
            Err(e) => r == Err::<DataResponse, ServiceError>(e),
        },
{
    let claims = authorize(table, header, secret, now)?;
    Ok(get_data(&claims))
}

/// The data service's payload for the caller `claims`: three items, with the
/// caller's email echoed back.
pub fn get_data(claims: &Claims) -> (r: DataResponse)
    ensures
        r.message@ == "Here is your mock data!"@,
        r.user_email@ == claims.email@,
        r.data@.len() == 3,
        r.data@[0].id == 1 && r.data@[1].id == 2 && r.data@[2].id == 3,
        r.data@[0].name@ == "Item 1"@ && r.data@[1].name@ == "Item 2"@ && r.data@[2].name@
            == "Item 3"@,
        r.data@[0].description@ == "This is the first mock item"@,
        r.data@[1].description@ == "This is the second mock item"@,
        r.data@[2].description@ == "This is the third mock item"@,
{
    let mut data: Vec<DataItem> = Vec::new();
    data.push(
        DataItem {
            id: 1,
            name: String::from_str("Item 1"),
            description: String::from_str("This is the first mock item"),
        },
    );
    data.push(
        DataItem {
            id: 2,
            name: String::from_str("Item 2"),
            description: String::from_str("This is the second mock item"),
        },
    );
    data.push(
        DataItem {
            id: 3,
            name: String::from_str("Item 3"),
            description: String::from_str("This is the third mock item"),
        },
    );
    DataResponse {
        message: String::from_str("Here is your mock data!"),
        user_email: claims.email.clone(),
        data,
    }
}

/// The login status for the outcome of authorization: logged in, with the
/// caller's email, exactly when access was granted; never an error.
pub fn check_login(access: Result<Claims, ServiceError>) -> (r: LoginStatus)
    ensures
        r.is_logged_in == access is Ok,
        access matches Ok(c) ==> (r.user matches Some(u) && u@ == c.email@),
        access is Err ==> r.user is None,
{
    match access {
        Ok(c) => LoginStatus { is_logged_in: true, user: Some(c.email) },
        Err(_) => LoginStatus { is_logged_in: false, user: None },
    }
}

} // verus!
