use bookstore::auth::{me, sign_in, sign_up, ReqSignIn, ReqSignUp};
use bookstore::config::{index, AppConfig};
use bookstore::error::AuthError;
use bookstore::guard::{authenticate, AuthenticatedUser};
use bookstore::store::UserStore;
use bookstore::token::TOKEN_VALIDITY_SECS;

const NOW: u64 = 1_700_000_000;

fn config(secret: &str) -> AppConfig {
    AppConfig::from_values(None, None, None, None, None, Some(secret.to_string())).unwrap()
}

fn signup_req(email: &str, password: &str) -> ReqSignUp {
    ReqSignUp {
        email: email.to_string(),
        password: password.to_string(),
        first_name: "A".to_string(),
        last_name: "B".to_string(),
    }
}

fn signin_req(email: &str, password: &str) -> ReqSignIn {
    ReqSignIn { email: email.to_string(), password: password.to_string() }
}

#[test]
fn example_sign_up_sign_in_me() {
    let cfg = config("top-secret");
    let mut store = UserStore::new();
    let created = sign_up(&mut store, &signup_req("a@x.com", "pw123456"));
    assert_eq!(created, Ok("Account created!".to_string()));
    assert_eq!(store.len(), 1);

    let res = sign_in(&store, &cfg, &signin_req("a@x.com", "pw123456"), NOW).unwrap();
    assert_eq!(res.token.split('.').count(), 3);
    assert!(res.token.split('.').all(|seg| !seg.is_empty()));

    let header = format!("Bearer {}", res.token);
    let user = authenticate(Some(header.as_str()), &cfg.jwt_secret, NOW + 1).unwrap();
    assert_eq!(user, AuthenticatedUser { id: 1 });
    assert_eq!(me(&user), "User ID :1");

    let missing = authenticate(None, &cfg.jwt_secret, NOW + 1);
    assert_eq!(missing, Err(AuthError::Unauthorized));
    assert_eq!(missing.unwrap_err().status(), 401);
}

#[test]
fn second_user_gets_next_id() {
    let cfg = config("s");
    let mut store = UserStore::new();
    assert!(sign_up(&mut store, &signup_req("a@x.com", "one")).is_ok());
    assert!(sign_up(&mut store, &signup_req("b@x.com", "two")).is_ok());
    let res = sign_in(&store, &cfg, &signin_req("b@x.com", "two"), NOW).unwrap();
    let header = format!("Bearer {}", res.token);
    let user = authenticate(Some(header.as_str()), &cfg.jwt_secret, NOW).unwrap();
    assert_eq!(user.id, 2);
    assert_eq!(store.find_by_email(&"b@x.com".to_string()).unwrap().first_name, "A");
}

#[test]
fn token_window_accepts_then_expires() {
    let cfg = config("window-secret");
    let mut store = UserStore::new();
    sign_up(&mut store, &signup_req("a@x.com", "pw123456")).unwrap();
    let res = sign_in(&store, &cfg, &signin_req("a@x.com", "pw123456"), NOW).unwrap();
    let header = format!("Bearer {}", res.token);
    assert!(authenticate(Some(header.as_str()), &cfg.jwt_secret, NOW + 1).is_ok());
    assert!(authenticate(Some(header.as_str()), &cfg.jwt_secret, NOW + TOKEN_VALIDITY_SECS).is_ok());
    assert_eq!(
        authenticate(Some(header.as_str()), &cfg.jwt_secret, NOW + 14401),
        Err(AuthError::Unauthorized)
    );
}

#[test]
fn token_from_other_secret_is_rejected() {
    let issuer = config("secret-one");
    let checker = config("secret-two");
    let mut store = UserStore::new();
    sign_up(&mut store, &signup_req("a@x.com", "pw123456")).unwrap();
    let res = sign_in(&store, &issuer, &signin_req("a@x.com", "pw123456"), NOW).unwrap();
    let header = format!("Bearer {}", res.token);
    assert_eq!(
        authenticate(Some(header.as_str()), &checker.jwt_secret, NOW + 1),
        Err(AuthError::Unauthorized)
    );
}

#[test]
fn duplicate_sign_up_conflicts() {
    let mut store = UserStore::new();
    sign_up(&mut store, &signup_req("a@x.com", "pw123456")).unwrap();
    let again = sign_up(&mut store, &signup_req("a@x.com", "other"));
    assert_eq!(again, Err(AuthError::Conflict));
    assert_eq!(again.unwrap_err().status(), 422);
    assert_eq!(
        AuthError::Conflict.body(),
        "{\"message\":\"An account already exist with this email address\"}"
    );
    assert_eq!(store.len(), 1);
}

#[test]
fn email_match_is_case_sensitive() {
    let mut store = UserStore::new();
    sign_up(&mut store, &signup_req("a@x.com", "pw")).unwrap();
    assert!(sign_up(&mut store, &signup_req("A@x.com", "pw")).is_ok());
    assert_eq!(store.len(), 2);
}

#[test]
fn unknown_email_and_wrong_password_look_alike() {
    let cfg = config("s");
    let mut store = UserStore::new();
    sign_up(&mut store, &signup_req("a@x.com", "pw123456")).unwrap();
    let unknown = sign_in(&store, &cfg, &signin_req("nobody@x.com", "pw123456"), NOW);
    let wrong = sign_in(&store, &cfg, &signin_req("a@x.com", "wrong"), NOW);
    let (e1, e2) = (unknown.err().unwrap(), wrong.err().unwrap());
    assert_eq!(e1, AuthError::Unauthorized);
    assert_eq!(e1, e2);
    assert_eq!(e1.status(), e2.status());
    assert_eq!(e1.body(), e2.body());
    assert_eq!(e1.status(), 401);
    assert_eq!(e1.body(), "{\"message\":\"Invalid Credentials\"}");
}

#[test]
fn sign_in_with_corrupt_hash_is_internal() {
    // A store only ever holds hashes made by the hasher; this one is built by
    // hand to reach the malformed-hash path.
    let cfg = config("s");
    let mut store = UserStore::new();
    store
        .insert("a@x.com".to_string(), "not-a-hash".to_string(), "A".to_string(), "B".to_string())
        .unwrap();
    let r = sign_in(&store, &cfg, &signin_req("a@x.com", "pw"), NOW);
    assert_eq!(r.err(), Some(AuthError::Internal));
    assert_eq!(AuthError::Internal.status(), 500);
}

#[test]
fn sign_in_near_time_limit_is_internal() {
    let cfg = config("s");
    let mut store = UserStore::new();
    sign_up(&mut store, &signup_req("a@x.com", "pw")).unwrap();
    let r = sign_in(&store, &cfg, &signin_req("a@x.com", "pw"), u64::MAX - 10);
    assert_eq!(r.err(), Some(AuthError::Internal));
}

#[test]
fn me_reports_negative_id() {
    assert_eq!(me(&AuthenticatedUser { id: -42 }), "User ID :-42");
    assert_eq!(me(&AuthenticatedUser { id: 0 }), "User ID :0");
    assert_eq!(me(&AuthenticatedUser { id: i32::MIN }), "User ID :-2147483648");
    assert_eq!(me(&AuthenticatedUser { id: 1234567890 }), "User ID :1234567890");
}

#[test]
fn config_defaults_and_missing_secret() {
    assert!(AppConfig::from_values(None, None, None, None, None, None).is_none());
    let c = AppConfig::from_values(Some("db".to_string()), None, None, None, None, Some("k".to_string()))
        .unwrap();
    assert_eq!(c.db_host, "db");
    assert_eq!(c.db_port, "5432");
    assert_eq!(c.db_username, "root");
    assert_eq!(c.db_password, "0101");
    assert_eq!(c.db_database, "bookstore");
    assert_eq!(c.jwt_secret, "k");
    assert_eq!(index(), "Hello, Rocket!");
}
