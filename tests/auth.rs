use service_mesh::error::ServiceError;
use service_mesh::identity::{complete_login, login, register, LoginRequest, RegisterRequest, UserStore};
use service_mesh::password::{hash_password, verify_password};
use service_mesh::token::{create_jwt, verify_token, TokenError};

const SECRET: &str = "dev-secret";
const NOW: u64 = 1_700_000_000;

fn reg(email: &str, password: &str) -> RegisterRequest {
    RegisterRequest { email: email.to_string(), password: password.to_string() }
}

fn creds(email: &str, password: &str) -> LoginRequest {
    LoginRequest { email: email.to_string(), password: password.to_string() }
}

#[test]
fn token_round_trip_carries_claims() {
    let id: u128 = 0x0123_4567_89ab_cdef_0123_4567_89ab_cdef;
    let t = create_jwt(id, "u1@example.com".to_string(), SECRET, NOW).unwrap();
    let c = verify_token(&t, SECRET, NOW).unwrap();
    assert_eq!(c.sub, "01234567-89ab-cdef-0123-456789abcdef");
    assert_eq!(c.email, "u1@example.com");
    assert_eq!(c.exp, (NOW + 3600) as usize);
    assert!(verify_token(&t, SECRET, NOW + 3599).is_ok());
}

#[test]
fn token_expires_after_an_hour() {
    let t = create_jwt(7, "a@b.com".to_string(), SECRET, NOW).unwrap();
    assert_eq!(verify_token(&t, SECRET, NOW + 3600).err(), Some(TokenError::Expired));
    assert_eq!(verify_token(&t, SECRET, NOW + 100_000).err(), Some(TokenError::Expired));
}

#[test]
fn token_under_other_secret_is_invalid() {
    let t = create_jwt(7, "a@b.com".to_string(), SECRET, NOW).unwrap();
    assert_eq!(verify_token(&t, "other-secret", NOW).err(), Some(TokenError::Invalid));
}

#[test]
fn tampered_signature_is_invalid() {
    let t = create_jwt(7, "a@b.com".to_string(), SECRET, NOW).unwrap();
    let mut bytes = t.into_bytes();
    let last = bytes.len() - 1;
    bytes[last] = if bytes[last] == b'A' { b'B' } else { b'A' };
    let forged = String::from_utf8(bytes).unwrap();
    assert_eq!(verify_token(&forged, SECRET, NOW).err(), Some(TokenError::Invalid));
}

#[test]
fn altered_payload_is_invalid() {
    let t = create_jwt(7, "a@b.com".to_string(), SECRET, NOW).unwrap();
    let other = create_jwt(8, "evil@b.com".to_string(), SECRET, NOW).unwrap();
    let parts: Vec<&str> = t.split('.').collect();
    let other_parts: Vec<&str> = other.split('.').collect();
    let spliced = format!("{}.{}.{}", parts[0], other_parts[1], parts[2]);
    assert_eq!(verify_token(&spliced, SECRET, NOW).err(), Some(TokenError::Invalid));
    assert_eq!(verify_token("not-a-token", SECRET, NOW).err(), Some(TokenError::Invalid));
    assert_eq!(verify_token("", SECRET, NOW).err(), Some(TokenError::Invalid));
}

#[test]
fn issue_time_too_late_is_clock_fault() {
    let r = create_jwt(7, "a@b.com".to_string(), SECRET, u64::MAX);
    assert_eq!(r.err(), Some(TokenError::ClockFault));
}

#[test]
fn password_hash_verifies() {
    let digest = hash_password("hunter2");
    assert_ne!(digest, "hunter2");
    assert!(digest.starts_with("$argon2"));
    assert!(verify_password("hunter2", &digest));
    assert!(!verify_password("hunter3", &digest));
    assert!(!verify_password("hunter2", "not a digest"));
}

#[test]
fn duplicate_registration_conflicts() {
    let mut store = UserStore::new(SECRET.to_string());
    assert_eq!(register(&mut store, reg("a@b.com", "x")), Ok(()));
    let first_id = store.users[0].id;
    let first_hash = store.users[0].password_hash.clone();
    assert_eq!(register(&mut store, reg("a@b.com", "other")), Err(ServiceError::Conflict));
    assert_eq!(store.users.len(), 1);
    assert_eq!(store.users[0].id, first_id);
    assert_eq!(store.users[0].password_hash, first_hash);
    assert!(verify_password("x", &store.users[0].password_hash));
    assert_eq!(register(&mut store, reg("A@b.com", "x")), Ok(()));
    assert_eq!(store.users.len(), 2);
}

#[test]
fn login_rejects_unknown_user_and_wrong_password_alike() {
    let mut store = UserStore::new(SECRET.to_string());
    register(&mut store, reg("a@b.com", "x")).unwrap();
    assert_eq!(login(&store, creds("nobody@b.com", "x"), NOW), Err(ServiceError::Unauthorized));
    assert_eq!(login(&store, creds("a@b.com", "wrong"), NOW), Err(ServiceError::Unauthorized));
}

#[test]
fn login_issues_token_for_the_user() {
    let mut store = UserStore::new(SECRET.to_string());
    register(&mut store, reg("a@b.com", "x")).unwrap();
    let t = login(&store, creds("a@b.com", "x"), NOW).unwrap();
    let c = verify_token(&t, SECRET, NOW).unwrap();
    assert_eq!(c.email, "a@b.com");
    assert_eq!(c.sub, uuid::Uuid::from_u128(store.users[0].id).to_string());
    assert_eq!(c.exp, (NOW + 3600) as usize);
}

#[test]
fn login_hands_token_out_only_once_stored() {
    let ok = complete_login("tok".to_string(), true).unwrap();
    assert_eq!(ok.access_token, "tok");
    assert_eq!(complete_login("tok".to_string(), false).err().map(|e| e.status_code()), Some(500));
}

#[test]
fn equal_inputs_give_equal_tokens() {
    let a = create_jwt(9, "a@b.com".to_string(), SECRET, NOW).unwrap();
    let b = create_jwt(9, "a@b.com".to_string(), SECRET, NOW).unwrap();
    assert_eq!(a, b);
    let c = create_jwt(9, "a@b.com".to_string(), SECRET, NOW + 1).unwrap();
    assert_ne!(a, c);
}

#[test]
fn registered_users_get_distinct_ids() {
    let mut store = UserStore::new(SECRET.to_string());
    register(&mut store, reg("a@b.com", "x")).unwrap();
    register(&mut store, reg("c@d.com", "y")).unwrap();
    assert_ne!(store.users[0].id, store.users[1].id);
    assert!(store.holds_id(store.users[1].id));
}
