use vstd::prelude::*;

verus! {

/// How long an issued token's embedded expiry lies after its issue time, in seconds.
pub const TOKEN_LIFETIME_SECS: u64 = 3600;

/// The claims that a session token carries: the subject's id, its email and
/// the expiry as seconds since the Unix epoch.
#[derive(Debug)]
pub struct Claims {
    pub sub: String,
    pub email: String,
    pub exp: usize,
}

impl View for Claims {
    type V = (Seq<char>, Seq<char>, usize);

    open spec fn view(&self) -> Self::V {
        (self.sub@, self.email@, self.exp)
    }
}

/// Why a token was not issued or not accepted.
#[derive(Debug, Clone, Copy, PartialEq, Eq, Structural)]
pub enum TokenError {
    /// The token is malformed, or its signature does not verify under the secret.
    Invalid,
    /// The token verifies, but its embedded expiry has passed.
    Expired,
    /// The issue time is so late that the expiry cannot be represented.
    ClockFault,
}

/// The claims (subject, email, expiry) that `token` carries when it is a
/// well-formed HS256 token whose signature verifies under `secret` and whose
/// payload holds a string `sub`, a string `email` and an unsigned integer
/// `exp`; `None` otherwise. Expiry is not compared with any clock.
pub uninterp spec fn jwt_claims(token: Seq<char>, secret: Seq<char>) -> Option<(Seq<char>, Seq<char>, usize)>;

/// The token that jsonwebtoken::encode produces, with the default HS256
/// header and `secret` as the HMAC key, for the claims `sub`, `email`, `exp`.
pub uninterp spec fn jwt_token_of(sub: Seq<char>, email: Seq<char>, exp: usize, secret: Seq<char>) -> Seq<char>;

/// The hyphenated lower-case text of the UUID whose 128 bits are `id`.
pub uninterp spec fn uuid_text_of(id: u128) -> Seq<char>;

/// Relies on jsonwebtoken::encode with the default (HS256) header and an
/// `EncodingKey::from_secret` key: the key family matches the header, HMAC
/// signing does not fail, and a map of two strings and an integer always
/// serialises, so a token comes back. It depends on the claims and the secret
/// alone, and jsonwebtoken::decode, under the same secret, reads the same
/// three claims back from it.
#[verifier::external_body]
fn jwt_encode(claims: &Claims, secret: &str) -> (r: Option<String>)
    ensures
        r is Some,
        r matches Some(t) ==> t@.len() > 0,
        r matches Some(t) ==> t@ == jwt_token_of(claims.sub@, claims.email@, claims.exp, secret@),
        r matches Some(t) ==> jwt_claims(t@, secret@) == Some(claims@),
{
    let mut m = serde_json::Map::new();
    m.insert("sub".to_string(), serde_json::Value::from(claims.sub.as_str()));
    m.insert("email".to_string(), serde_json::Value::from(claims.email.as_str()));
    m.insert("exp".to_string(), serde_json::Value::from(claims.exp as u64));
    let key = jsonwebtoken::EncodingKey::from_secret(secret.as_bytes());
    jsonwebtoken::encode(&jsonwebtoken::Header::default(), &m, &key).ok()
}

/// Relies on jsonwebtoken::decode with HS256 and expiry validation switched
/// off: the signature check and the claims it reads depend on the token and
/// the secret alone.
#[verifier::external_body]
fn jwt_decode(token: &str, secret: &str) -> (r: Option<Claims>)
    ensures
        r is None <==> jwt_claims(token@, secret@) is None,
        r matches Some(c) ==> jwt_claims(token@, secret@) == Some(c@),
{
    let mut validation = jsonwebtoken::Validation::default();
    validation.validate_exp = false;
    let key = jsonwebtoken::DecodingKey::from_secret(secret.as_bytes());
    let data = jsonwebtoken::decode::<serde_json::Value>(token, &key, &validation).ok()?;
    let c = &data.claims;
    match (c["sub"].as_str(), c["email"].as_str(), c["exp"].as_u64()) {
        (Some(sub), Some(email), Some(exp)) => Some(
            Claims { sub: sub.to_string(), email: email.to_string(), exp: exp as usize },
        ),
        _ => None,
    }
}

/// Relies on uuid's `Display`: the hyphenated text of the id.
#[verifier::external_body]
fn uuid_text(id: u128) -> (r: String)
    ensures
        r@ == uuid_text_of(id),
{
    uuid::Uuid::from_u128(id).to_string()
}

/// The expiry of a token issued at `now`, when it fits a `usize`.
pub open spec fn expiry_for(now: u64) -> Option<usize> {
    if now + TOKEN_LIFETIME_SECS <= usize::MAX {
        Some((now + TOKEN_LIFETIME_SECS) as usize)
    } else {
        None
    }
}

/// Whether a token with these claims is accepted at time `now`.
pub open spec fn accepts(c: (Seq<char>, Seq<char>, usize), now: u64) -> bool {
    c.2 > now
}

/// Signs a token for the user `user_id` with `email`, issued at `now`
/// (seconds since the Unix epoch) and expiring an hour later.
pub fn create_jwt(user_id: u128, email: String, secret: &str, now: u64) -> (r: Result<
    String,
    TokenError,
>)
    ensures
        expiry_for(now) is None <==> r == Err::<String, TokenError>(TokenError::ClockFault),
        expiry_for(now) is Some <==> r is Ok,
        r matches Ok(t) ==> t@.len() > 0,
        r matches Ok(t) ==> t@ == jwt_token_of(
            uuid_text_of(user_id),
            email@,
            expiry_for(now)->Some_0,
            secret@,
        ),
        r matches Ok(t) ==> jwt_claims(t@, secret@) == Some(
            (uuid_text_of(user_id), email@, expiry_for(now)->Some_0),
        ),
{
    if now > usize::MAX as u64 - TOKEN_LIFETIME_SECS {
        return Err(TokenError::ClockFault);
    }
    let exp = (now + TOKEN_LIFETIME_SECS) as usize;
    let claims = Claims { sub: uuid_text(user_id), email, exp };
    match jwt_encode(&claims, secret) {
        Some(t) => Ok(t),
        None => Err(TokenError::ClockFault),
    }
}

/// Verifies `token` under `secret` at time `now`: its signature must verify
/// and its embedded expiry must lie after `now`.
pub fn verify_token(token: &str, secret: &str, now: u64) -> (r: Result<Claims, TokenError>)
    ensures
        match jwt_claims(token@, secret@) {
            None => r == Err::<Claims, TokenError>(TokenError::Invalid),
            Some(c) => if accepts(c, now) {
                r matches Ok(v) && v@ == c
            } else {
                r == Err::<Claims, TokenError>(TokenError::Expired)
            },
        },
{
    match jwt_decode(token, secret) {
        None => Err(TokenError::Invalid),
        Some(c) => {
            if c.exp as u64 > now {
                Ok(c)
            } else {
                Err(TokenError::Expired)
            }
        },
    }
}

} // verus!
