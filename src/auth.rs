use vstd::prelude::*;
use crate::config::AppConfig;
use crate::decimal::{int_decimal, push_decimal};
use crate::error::AuthError;
use crate::guard::AuthenticatedUser;
use crate::password::{bcrypt_verdict, hash_password, verify_password};
use crate::store::{has_email, lemma_lookup_at, lookup, users_wf, StoreError, UserStore, UserView};
use crate::token::{
    claims_from, issue_token, signed_token, token_claims, Claims, Role, TOKEN_VALIDITY_SECS,
};

verus! {

/// The body of a sign-in request.
pub struct ReqSignIn {
    pub email: String,
    pub password: String,
}

/// The body of a successful sign-in: the session token.
pub struct ResSignIn {
    pub token: String,
}

/// The body of a sign-up request.
pub struct ReqSignUp {
    pub email: String,
    pub password: String,
    pub first_name: String,
    pub last_name: String,
}

/// What a sign-in answers, with the token as text: found by address, the
/// password checked against the stored hash, and a token issued for the
/// user's id with the fixed role and an expiry of `now` plus the validity
/// window. An unknown address and a wrong password give the same answer.
pub open spec fn sign_in_outcome(
    users: Seq<UserView>,
    secret: Seq<char>,
    email: Seq<char>,
    password: Seq<char>,
    now: int,
) -> Result<Seq<char>, AuthError> {
    match lookup(users, email) {
        None => Err(AuthError::Unauthorized),
        Some(u) => match bcrypt_verdict(password, u.password) {
            None => Err(AuthError::Internal),
            Some(false) => Err(AuthError::Unauthorized),
            Some(true) => if now + TOKEN_VALIDITY_SECS > u64::MAX {
                Err(AuthError::Internal)
            } else {
                match signed_token(u.id, Role::User.spec_name(), now + TOKEN_VALIDITY_SECS, secret) {
                    Some(t) => Ok(t),
                    None => Err(AuthError::Internal),
                }
            },
        },
    }
}

pub open spec fn sign_in_view(r: Result<ResSignIn, AuthError>) -> Result<Seq<char>, AuthError> {
    match r {
        Ok(res) => Ok(res.token@),
        Err(e) => Err(e),
    }
}

/// Authenticates by email and password and issues a session token that
/// expires `TOKEN_VALIDITY_SECS` after `now` (Unix seconds).
pub fn sign_in(store: &UserStore, config: &AppConfig, req: &ReqSignIn, now: u64) -> (r: Result<
    ResSignIn,
    AuthError,
>)
    requires
        store.wf(),
    ensures
        sign_in_view(r) == sign_in_outcome(store@, config.jwt_secret@, req.email@, req.password@, now as int),
        r matches Ok(res) ==> (lookup(store@, req.email@) matches Some(u) && claims_from(
            token_claims(res.token@, config.jwt_secret@),
        ) == Some(
            Claims { sub: u.id as i32, role: Role::User, exp: (now + TOKEN_VALIDITY_SECS) as u64 },
        )),
{
    let user = match store.find_by_email(&req.email) {
        Some(u) => u,
        None => return Err(AuthError::Unauthorized),
    };
    match verify_password(req.password.as_str(), user.password.as_str()) {
        Err(_) => return Err(AuthError::Internal),
        Ok(false) => return Err(AuthError::Unauthorized),
        Ok(true) => {},
    }
    let exp = match now.checked_add(TOKEN_VALIDITY_SECS) {
        Some(e) => e,
        None => return Err(AuthError::Internal),
    };
    let claims = Claims { sub: user.id, role: Role::User, exp };
    match issue_token(&claims, &config.jwt_secret) {
        Ok(token) => Ok(ResSignIn { token }),
        Err(_) => Err(AuthError::Internal),
    }
}

/// `after` is `before` with one more user at the end: the next id, the
/// given address and names, and a hash that verifies the given password.
pub open spec fn registered(
    before: Seq<UserView>,
    after: Seq<UserView>,
    email: Seq<char>,
    password: Seq<char>,
    first_name: Seq<char>,
    last_name: Seq<char>,
) -> bool {
    &&& after.len() == before.len() + 1
    &&& after.drop_last() == before
    &&& after.last().id == before.len() as int + 1
    &&& after.last().email == email
    &&& after.last().first_name == first_name
    &&& after.last().last_name == last_name
    &&& bcrypt_verdict(password, after.last().password) == Some(true)
}

/// Registers a new user with a salted hash of the password. A taken address
/// gives `Conflict`; a failure of the hasher, or a store with no identifier
/// left, gives `Internal`. On any failure the store is unchanged.
pub fn sign_up(store: &mut UserStore, req: &ReqSignUp) -> (r: Result<String, AuthError>)
    requires
        old(store).wf(),
    ensures
        final(store).wf(),
        has_email(old(store)@, req.email@) ==> r == Err::<String, AuthError>(AuthError::Conflict),
        !has_email(old(store)@, req.email@) ==> (r is Ok || r == Err::<String, AuthError>(
            AuthError::Internal,
        )),
        !has_email(old(store)@, req.email@) && old(store)@.len() >= i32::MAX ==> r is Err,
        r is Err ==> final(store)@ == old(store)@,
        r matches Ok(msg) ==> msg@ == "Account created!"@ && registered(
            old(store)@,
            final(store)@,
            req.email@,
            req.password@,
            req.first_name@,
            req.last_name@,
        ),
{
    if store.find_by_email(&req.email).is_some() {
        return Err(AuthError::Conflict);
    }
    let hashed = hash_password(req.password.as_str());
    let r = complete_sign_up(store, req, hashed);
    proof {
        if r is Ok {
            assert(final(store)@.drop_last() =~= old(store)@);
        }
    }
    r
}

/// The part of sign-up that follows hashing: given what the hasher returned
/// for the request's password, stores the new user or says why not.
pub fn complete_sign_up(store: &mut UserStore, req: &ReqSignUp, hashed: Result<String, ()>) -> (r:
    Result<String, AuthError>)
    requires
        old(store).wf(),
    ensures
        final(store).wf(),
        has_email(old(store)@, req.email@) ==> r == Err::<String, AuthError>(AuthError::Conflict),
        !has_email(old(store)@, req.email@) && (hashed is Err || old(store)@.len() >= i32::MAX)
            ==> r == Err::<String, AuthError>(AuthError::Internal),
        r is Err ==> final(store)@ == old(store)@,
        !has_email(old(store)@, req.email@) && old(store)@.len() < i32::MAX ==> (hashed matches Ok(
            h,
        ) ==> (r matches Ok(msg) && msg@ == "Account created!"@ && final(store)@ == old(store)@.push(
            UserView {
                id: old(store)@.len() as int + 1,
                email: req.email@,
                password: h@,
                first_name: req.first_name@,
                last_name: req.last_name@,
            },
        ))),
{
    if store.find_by_email(&req.email).is_some() {
        return Err(AuthError::Conflict);
    }
    let hash = match hashed {
        Ok(h) => h,
        Err(_) => return Err(AuthError::Internal),
    };
    let inserted = store.insert(
        req.email.clone(),
        hash,
        req.first_name.clone(),
        req.last_name.clone(),
    );
    match inserted {
        Ok(_) => Ok(String::from_str("Account created!")),
        Err(StoreError::DuplicateEmail) => Err(AuthError::Conflict),
        Err(StoreError::Full) => Err(AuthError::Internal),
    }
}

/// Reports the authenticated user's id.
pub fn me(user: &AuthenticatedUser) -> (r: String)
    ensures
        r@ == "User ID :"@ + int_decimal(user.id as int),
{
    let mut s = String::from_str("User ID :");
    push_decimal(&mut s, user.id);
    s
}

/// A user who has just signed up can sign in with the same address and
/// password: the answer is the token signed for the new user's id, unless
/// the signer itself fails.
pub proof fn lemma_sign_up_then_sign_in(
    before: Seq<UserView>,
    after: Seq<UserView>,
    secret: Seq<char>,
    email: Seq<char>,
    password: Seq<char>,
    first_name: Seq<char>,
    last_name: Seq<char>,
    now: u64,
)
    requires
        users_wf(after),
        registered(before, after, email, password, first_name, last_name),
        now + TOKEN_VALIDITY_SECS <= u64::MAX,
    ensures
        sign_in_outcome(after, secret, email, password, now as int) == match signed_token(
            before.len() as int + 1,
            Role::User.spec_name(),
            now + TOKEN_VALIDITY_SECS,
            secret,
        ) {
            Some(t) => Ok(t),
            None => Err(AuthError::Internal),
        },
{
    lemma_lookup_at(after, email, before.len() as int);
}

/// Signing in with an unknown address and signing in with a known address
/// and a wrong password give the same answer, so the answer does not tell
/// whether an account exists.
pub proof fn lemma_no_account_oracle(
    users: Seq<UserView>,
    secret: Seq<char>,
    unknown_email: Seq<char>,
    known_email: Seq<char>,
    password: Seq<char>,
    wrong_password: Seq<char>,
    now: int,
)
    requires
        !has_email(users, unknown_email),
        lookup(users, known_email) matches Some(u) && bcrypt_verdict(wrong_password, u.password)
            == Some(false),
    ensures
        sign_in_outcome(users, secret, unknown_email, password, now) == sign_in_outcome(
            users,
            secret,
            known_email,
            wrong_password,
            now,
        ),
        sign_in_outcome(users, secret, unknown_email, password, now) == Err::<Seq<char>, AuthError>(
            AuthError::Unauthorized,
        ),
{
}

} // verus!
