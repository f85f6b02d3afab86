use vstd::prelude::*;
use std::collections::BTreeMap;
use jsonwebtoken::{Algorithm, DecodingKey, EncodingKey, Header, Validation};

verus! {

#[verifier::external_type_specification]
#[verifier::external_body]
pub struct ExJwtError(jsonwebtoken::errors::Error);

/// How long a session token stays valid after it is issued, in seconds.
pub const TOKEN_VALIDITY_SECS: u64 = 14400;

/// The roles a session may carry. One is supported today; the claims carry
/// the role by name, so more can be added without a format change.
#[derive(Debug, Clone, Copy, PartialEq, Eq, Structural)]
pub enum Role {
    User,
}

impl Role {
    pub open spec fn spec_name(self) -> Seq<char> {
        match self {
            Role::User => "user"@,
        }
    }

    /// The name under which the role stands in the claims.
    pub fn name(&self) -> (r: String)
        ensures
            r@ == self.spec_name(),
    {
        match self {
            Role::User => String::from_str("user"),
        }
    }

    /// The role with the given name, if there is one.
    pub fn from_name(name: &String) -> (r: Option<Role>)
        ensures
            r matches Some(role) ==> role.spec_name() == name@,
            r is None ==> name@ != Role::User.spec_name(),
    {
        let user = String::from_str("user");
        if *name == user {
            Some(Role::User)
        } else {
            None
        }
    }
}

/// The claims that a session token carries: the user's id, the role and the
/// absolute expiry in Unix seconds.
#[derive(Debug, Clone, Copy, PartialEq, Eq, Structural)]
pub struct Claims {
    pub sub: i32,
    pub role: Role,
    pub exp: u64,
}

/// The compact token that jsonwebtoken::encode produces for the claims
/// `{sub, role, exp}` under HS256 with `secret`; `None` where it fails.
pub uninterp spec fn signed_token(sub: int, role: Seq<char>, exp: int, secret: Seq<char>) -> Option<
    Seq<char>,
>;

/// The claims `(sub, role, exp)` that jsonwebtoken::decode finds in `token`
/// under HS256 with `secret`, with the expiry left unchecked; `None` where
/// the token is malformed, its signature does not match or a claim is
/// missing or of another type.
pub uninterp spec fn token_claims(token: Seq<char>, secret: Seq<char>) -> Option<
    (int, Seq<char>, int),
>;

/// Relies on jsonwebtoken::encode with the default HS256 header and an HMAC
/// key made from the secret's bytes: the result depends on its arguments
/// alone, and jsonwebtoken::decode with the same secret reads the claims
/// back as they were given.
#[verifier::external_body]
fn jwt_encode(sub: i32, role: &str, exp: u64, secret: &str) -> (r: Result<String, jsonwebtoken::errors::Error>)
    ensures
        r is Ok <==> signed_token(sub as int, role@, exp as int, secret@) is Some,
        r matches Ok(t) ==> signed_token(sub as int, role@, exp as int, secret@) == Some(t@),
        r matches Ok(t) ==> token_claims(t@, secret@) == Some((sub as int, role@, exp as int)),
{
    let mut m = BTreeMap::new();
    m.insert("sub", serde_json::Value::from(sub));
    m.insert("role", serde_json::Value::from(role));
    m.insert("exp", serde_json::Value::from(exp));
    jsonwebtoken::encode(&Header::default(), &m, &EncodingKey::from_secret(secret.as_bytes()))
}

/// The claims of a token as the decoder reads them, before they are judged.
pub struct RawClaims {
    pub sub: i64,
    pub role: String,
    pub exp: u64,
}

impl RawClaims {
    pub open spec fn spec_tuple(&self) -> (int, Seq<char>, int) {
        (self.sub as int, self.role@, self.exp as int)
    }
}

/// Relies on jsonwebtoken::decode under HS256 with the expiry check off: it
/// checks the signature and reads the claims back.
#[verifier::external_body]
fn jwt_decode(token: &str, secret: &str) -> (r: Result<Option<RawClaims>, jsonwebtoken::errors::Error>)
    ensures
        r matches Ok(Some(_)) <==> token_claims(token@, secret@) is Some,
        r matches Ok(Some(c)) ==> token_claims(token@, secret@) == Some(c.spec_tuple()),
{
    let mut v = Validation::new(Algorithm::HS256);
    v.validate_exp = false;
    let c = jsonwebtoken::decode::<BTreeMap<String, serde_json::Value>>(token, &DecodingKey::from_secret(secret.as_bytes()), &v)?.claims;
    let field = |k: &str| c.get(k).cloned();
    Ok(match (field("sub").and_then(|x| x.as_i64()), field("role"), field("exp").and_then(|x| x.as_u64())) {
        (Some(sub), Some(serde_json::Value::String(role)), Some(exp)) => Some(RawClaims { sub, role, exp }),
        _ => None,
    })
}

/// Signs the claims with the secret into a compact token, which reads back
/// to the same claims under the same secret.
pub fn issue_token(claims: &Claims, secret: &String) -> (r: Result<String, ()>)
    ensures
        r is Ok <==> signed_token(claims.sub as int, claims.role.spec_name(), claims.exp as int, secret@) is Some,
        r matches Ok(t) ==> signed_token(claims.sub as int, claims.role.spec_name(), claims.exp as int, secret@) == Some(t@),
        r matches Ok(t) ==> claims_from(token_claims(t@, secret@)) == Some(*claims),
{
    let role = claims.role.name();
    match jwt_encode(claims.sub, role.as_str(), claims.exp, secret.as_str()) {
        Ok(t) => Ok(t),
        Err(_) => Err(()),
    }
}

/// What the decoded claims stand for: an id in range and a known role.
pub open spec fn claims_from(decoded: Option<(int, Seq<char>, int)>) -> Option<Claims> {
    match decoded {
        Some((sub, role, exp)) => if i32::MIN <= sub <= i32::MAX && role == Role::User.spec_name() && 0 <= exp <= u64::MAX {
            Some(Claims { sub: sub as i32, role: Role::User, exp: exp as u64 })
        } else {
            None
        },
        None => None,
    }
}

/// Reads the claims out of the values that the decoder returned.
pub fn parse_claims(decoded: Option<RawClaims>) -> (r: Option<Claims>)
    ensures
        r == claims_from(
            match decoded {
                Some(c) => Some(c.spec_tuple()),
                None => None,
            },
        ),
{
    match decoded {
        None => None,
        Some(RawClaims { sub, role, exp }) => {
            if sub < i32::MIN as i64 || sub > i32::MAX as i64 {
                return None;
            }
            match Role::from_name(&role) {
                Some(r) => Some(Claims { sub: sub as i32, role: r, exp }),
                None => None,
            }
        }
    }
}

/// Checks the token's signature with the secret and reads its claims; the
/// expiry is not judged here.
pub fn decode_claims(token: &str, secret: &String) -> (r: Option<Claims>)
    ensures
        r == claims_from(token_claims(token@, secret@)),
{
    let decoded = match jwt_decode(token, secret.as_str()) {
        Ok(d) => d,
        Err(_) => None,
    };
    parse_claims(decoded)
}

} // verus!
