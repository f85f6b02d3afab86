use bookstore::auth::{complete_sign_up, ReqSignUp};
use bookstore::guard::{admit_claims, authenticate, parse_bearer, AuthenticatedUser};
use bookstore::error::AuthError;
use bookstore::password::{hash_password, verify_password};
use bookstore::store::{StoreError, UserStore};
use bookstore::token::{decode_claims, issue_token, parse_claims, Claims, RawClaims, Role};

#[test]
fn hash_verifies_and_rejects_other_password() {
    let h = hash_password("pw123456").unwrap();
    assert_ne!(h, "pw123456");
    assert_eq!(verify_password("pw123456", &h), Ok(true));
    assert_eq!(verify_password("pw123457", &h), Ok(false));
    assert_eq!(verify_password("", &h), Ok(false));
}

#[test]
fn rehash_gives_distinct_hashes_that_both_verify() {
    let h1 = hash_password("secret").unwrap();
    let h2 = hash_password("secret").unwrap();
    assert_ne!(h1, h2);
    assert_eq!(verify_password("secret", &h1), Ok(true));
    assert_eq!(verify_password("secret", &h2), Ok(true));
}

#[test]
fn malformed_hash_is_an_error() {
    assert_eq!(verify_password("pw", "garbage"), Err(()));
}

#[test]
fn token_round_trip() {
    let secret = "k".to_string();
    let claims = Claims { sub: 7, role: Role::User, exp: 99 };
    let token = issue_token(&claims, &secret).unwrap();
    assert_eq!(token.split('.').count(), 3);
    assert_eq!(decode_claims(&token, &secret), Some(claims));
    assert_eq!(decode_claims(&token, &"other".to_string()), None);
    assert_eq!(decode_claims("a.b.c", &secret), None);
    // the expiry is judged by the guard, not by the decoder
    let header = format!("Bearer {}", token);
    assert_eq!(authenticate(Some(header.as_str()), &secret, 99), Ok(AuthenticatedUser { id: 7 }));
    assert_eq!(authenticate(Some(header.as_str()), &secret, 100), Err(AuthError::Unauthorized));
}

#[test]
fn bearer_parsing() {
    assert_eq!(parse_bearer("Bearer abc"), Some("abc"));
    assert_eq!(parse_bearer("Bearer "), None);
    assert_eq!(parse_bearer("bearer abc"), None);
    assert_eq!(parse_bearer("Basic abc"), None);
    assert_eq!(parse_bearer(""), None);
    assert_eq!(authenticate(Some("Token xyz"), &"k".to_string(), 0), Err(AuthError::Unauthorized));
    assert_eq!(authenticate(Some("Bearer xyz"), &"k".to_string(), 0), Err(AuthError::Unauthorized));
}

#[test]
fn claims_are_judged_by_expiry() {
    let c = Claims { sub: 3, role: Role::User, exp: 10 };
    assert_eq!(admit_claims(Some(c), 9), Ok(AuthenticatedUser { id: 3 }));
    assert_eq!(admit_claims(Some(c), 10), Ok(AuthenticatedUser { id: 3 }));
    assert_eq!(admit_claims(Some(c), 11), Err(AuthError::Unauthorized));
    assert_eq!(admit_claims(None, 0), Err(AuthError::Unauthorized));
}

#[test]
fn raw_claims_parsing() {
    let ok = RawClaims { sub: 5, role: "user".to_string(), exp: 1 };
    assert_eq!(parse_claims(Some(ok)), Some(Claims { sub: 5, role: Role::User, exp: 1 }));
    let admin = RawClaims { sub: 5, role: "admin".to_string(), exp: 1 };
    assert_eq!(parse_claims(Some(admin)), None);
    let big = RawClaims { sub: 1 << 40, role: "user".to_string(), exp: 1 };
    assert_eq!(parse_claims(Some(big)), None);
    assert_eq!(parse_claims(None), None);
    assert_eq!(Role::User.name(), "user");
    assert_eq!(Role::from_name(&"user".to_string()), Some(Role::User));
}

#[test]
fn store_insert_and_lookup() {
    let mut store = UserStore::new();
    let u = store
        .insert("a@x.com".to_string(), "h".to_string(), "A".to_string(), "B".to_string())
        .unwrap();
    assert_eq!(u.id, 1);
    let dup = store.insert("a@x.com".to_string(), "h2".to_string(), "C".to_string(), "D".to_string());
    assert_eq!(dup.err(), Some(StoreError::DuplicateEmail));
    let found = store.find_by_email(&"a@x.com".to_string()).unwrap();
    assert_eq!(found.password, "h");
    assert_eq!(found.last_name, "B");
    assert!(store.find_by_email(&"b@x.com".to_string()).is_none());
    assert_eq!(store.len(), 1);
}

#[test]
fn complete_sign_up_takes_hasher_result() {
    let req = ReqSignUp {
        email: "a@x.com".to_string(),
        password: "pw".to_string(),
        first_name: "A".to_string(),
        last_name: "B".to_string(),
    };
    let mut store = UserStore::new();
    assert_eq!(complete_sign_up(&mut store, &req, Err(())), Err(AuthError::Internal));
    assert_eq!(store.len(), 0);
    assert_eq!(
        complete_sign_up(&mut store, &req, Ok("stored-hash".to_string())),
        Ok("Account created!".to_string())
    );
    let u = store.find_by_email(&"a@x.com".to_string()).unwrap();
    assert_eq!((u.id, u.password.as_str()), (1, "stored-hash"));
    assert_eq!(complete_sign_up(&mut store, &req, Ok("h".to_string())), Err(AuthError::Conflict));
    assert_eq!(store.len(), 1);
}
