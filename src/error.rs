use vstd::prelude::*;

verus! {

/// The outward failure kinds of the authentication flows.
#[derive(Debug, Clone, Copy, PartialEq, Eq, Structural)]
pub enum AuthError {
    /// Bad credentials, or a missing, malformed, forged or expired token.
    Unauthorized,
    /// The email address is already registered.
    Conflict,
    /// The store, the hasher or the signer failed.
    Internal,
}

impl AuthError {
    pub open spec fn spec_status(self) -> u16 {
        match self {
            AuthError::Unauthorized => 401,
            AuthError::Conflict => 422,
            AuthError::Internal => 500,
        }
    }

    pub open spec fn spec_message(self) -> Seq<char> {
        match self {
            AuthError::Unauthorized => "Invalid Credentials"@,
            AuthError::Conflict => "An account already exist with this email address"@,
            AuthError::Internal => "Internal Server Error"@,
        }
    }

    /// The HTTP status that this failure is answered with.
    pub fn status(&self) -> (r: u16)
        ensures
            r == self.spec_status(),
    {
        match self {
            AuthError::Unauthorized => 401,
            AuthError::Conflict => 422,
            AuthError::Internal => 500,
        }
    }

    /// The message shown to the client; never holds internal detail.
    pub fn message(&self) -> (r: String)
        ensures
            r@ == self.spec_message(),
    {
        match self {
            AuthError::Unauthorized => String::from_str("Invalid Credentials"),
            AuthError::Conflict => String::from_str("An account already exist with this email address"),
            AuthError::Internal => String::from_str("Internal Server Error"),
        }
    }

    /// The JSON body `{"message":"..."}` sent with the status.
    pub fn body(&self) -> (r: String)
        ensures
            r@ == "{\"message\":\""@ + self.spec_message() + "\"}"@,
    {
        let msg = self.message();
        let head = String::from_str("{\"message\":\"");
        let with_msg = head.concat(msg.as_str());
        with_msg.concat("\"}")
    }
}

} // verus!
