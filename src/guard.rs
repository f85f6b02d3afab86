use vstd::prelude::*;
use crate::error::AuthError;
use crate::token::{claims_from, decode_claims, token_claims, Claims, Role, TOKEN_VALIDITY_SECS};

verus! {

/// The identity that a valid bearer token proves, handed to protected
/// handlers.
#[derive(Debug, Clone, Copy, PartialEq, Eq, Structural)]
pub struct AuthenticatedUser {
    pub id: i32,
}

pub open spec fn bearer_prefix() -> Seq<char> {
    seq!['B', 'e', 'a', 'r', 'e', 'r', ' ']
}

/// The token of an `Authorization` value of the form `Bearer <token>`, with
/// a non-empty token.
pub open spec fn bearer_token(header: Seq<char>) -> Option<Seq<char>> {
    if header.len() > bearer_prefix().len() && header.subrange(0, bearer_prefix().len() as int)
        == bearer_prefix() {
        Some(header.subrange(bearer_prefix().len() as int, header.len() as int))
    } else {
        None
    }
}

/// Whether the claims still hold at `now` (Unix seconds): the expiry itself
/// is the last second of validity.
pub open spec fn claims_live(claims: Claims, now: int) -> bool {
    now <= claims.exp
}

/// The guard's verdict on the claims read from a token whose signature held.
pub open spec fn admit_outcome(claims: Option<Claims>, now: int) -> Result<
    AuthenticatedUser,
    AuthError,
> {
    match claims {
        Some(c) => if claims_live(c, now) {
            Ok(AuthenticatedUser { id: c.sub })
        } else {
            Err(AuthError::Unauthorized)
        },
        None => Err(AuthError::Unauthorized),
    }
}

/// The guard's verdict on a request with the given `Authorization` header.
pub open spec fn guard_outcome(header: Option<Seq<char>>, secret: Seq<char>, now: int) -> Result<
    AuthenticatedUser,
    AuthError,
> {
    match header {
        None => Err(AuthError::Unauthorized),
        Some(h) => match bearer_token(h) {
            None => Err(AuthError::Unauthorized),
            Some(t) => admit_outcome(claims_from(token_claims(t, secret)), now),
        },
    }
}

/// Extracts the token from a `Bearer <token>` header value.
pub fn parse_bearer(header: &str) -> (r: Option<&str>)
    ensures
        match r {
            Some(t) => bearer_token(header@) == Some(t@),
            None => bearer_token(header@) is None,
        },
{
    let prefix = bearer_prefix_chars();
    let n = header.unicode_len();
    if n <= 7 {
        return None;
    }
    let mut i: usize = 0;
    while i < 7
        invariant
            i <= 7 < n,
            n == header@.len(),
            prefix@ == bearer_prefix(),
            forall|k: int| 0 <= k < i ==> header@[k] == bearer_prefix()[k],
        decreases 7 - i,
    {
        if header.get_char(i) != prefix[i] {
            assert(header@.subrange(0, 7)[i as int] != bearer_prefix()[i as int]);
            return None;
        }
        i = i + 1;
    }
    assert(header@.subrange(0, 7) =~= bearer_prefix());
    Some(header.substring_char(7, n))
}

fn bearer_prefix_chars() -> (r: Vec<char>)
    ensures
        r@ == bearer_prefix(),
{
    let r = vec!['B', 'e', 'a', 'r', 'e', 'r', ' '];
    assert(r@ =~= bearer_prefix());
    r
}

/// Judges claims read from a token whose signature held: they are accepted
/// up to and including their expiry second, and the subject becomes the
/// authenticated identity.
pub fn admit_claims(claims: Option<Claims>, now: u64) -> (r: Result<AuthenticatedUser, AuthError>)
    ensures
        r == admit_outcome(claims, now as int),
{
    match claims {
        Some(c) => if now <= c.exp {
            Ok(AuthenticatedUser { id: c.sub })
        } else {
            Err(AuthError::Unauthorized)
        },
        None => Err(AuthError::Unauthorized),
    }
}

/// The request guard: a missing header, another scheme, a token that does
/// not verify under the secret, unknown claims or an expired token all give
/// the same `Unauthorized`; otherwise the token's subject is the identity.
pub fn authenticate(authorization: Option<&str>, secret: &String, now: u64) -> (r: Result<
    AuthenticatedUser,
    AuthError,
>)
    ensures
        r == guard_outcome(
            match authorization {
                Some(h) => Some(h@),
                None => None,
            },
            secret@,
            now as int,
        ),
{
    match authorization {
        None => Err(AuthError::Unauthorized),
        Some(h) => match parse_bearer(h) {
            None => Err(AuthError::Unauthorized),
            Some(t) => admit_claims(decode_claims(t, secret), now),
        },
    }
}

/// A token issued at `issued_at` for `sub` is accepted by the guard at
/// every second up to the end of the validity window, among them
/// `issued_at + 1`, and rejected at every later second, among them
/// `issued_at + TOKEN_VALIDITY_SECS + 1`.
pub proof fn lemma_issued_token_window(
    header: Seq<char>,
    secret: Seq<char>,
    sub: i32,
    issued_at: u64,
    now: int,
)
    requires
        issued_at + TOKEN_VALIDITY_SECS <= u64::MAX,
        bearer_token(header) matches Some(t) && token_claims(t, secret) == Some(
            (sub as int, Role::User.spec_name(), issued_at + TOKEN_VALIDITY_SECS),
        ),
    ensures
        now <= issued_at + TOKEN_VALIDITY_SECS ==> guard_outcome(Some(header), secret, now) == Ok::<
            AuthenticatedUser,
            AuthError,
        >(AuthenticatedUser { id: sub }),
        now > issued_at + TOKEN_VALIDITY_SECS ==> guard_outcome(Some(header), secret, now) == Err::<
            AuthenticatedUser,
            AuthError,
        >(AuthError::Unauthorized),
        guard_outcome(Some(header), secret, issued_at + 1) == Ok::<AuthenticatedUser, AuthError>(
            AuthenticatedUser { id: sub },
        ),
        guard_outcome(Some(header), secret, issued_at + TOKEN_VALIDITY_SECS + 1) == Err::<
            AuthenticatedUser,
            AuthError,
        >(AuthError::Unauthorized),
{
}

} // verus!
