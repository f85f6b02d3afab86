use vstd::prelude::*;

verus! {

/// Process-wide settings, built once at startup and read-only afterwards.
pub struct AppConfig {
    pub db_host: String,
    pub db_port: String,
    pub db_username: String,
    pub db_password: String,
    pub db_database: String,
    pub jwt_secret: String,
}

pub open spec fn or_default(v: Option<Seq<char>>, d: Seq<char>) -> Seq<char> {
    match v {
        Some(s) => s,
        None => d,
    }
}

pub open spec fn opt_view(v: Option<String>) -> Option<Seq<char>> {
    match v {
        Some(s) => Some(s@),
        None => None,
    }
}

fn value_or(v: Option<String>, d: &str) -> (r: String)
    ensures
        r@ == or_default(opt_view(v), d@),
{
    match v {
        Some(s) => s,
        None => String::from_str(d),
    }
}

impl AppConfig {
    /// Builds the settings from the values found in the environment. Every
    /// database setting has a default; the signing secret has none, and
    /// without it there is no configuration.
    pub fn from_values(
        db_host: Option<String>,
        db_port: Option<String>,
        db_username: Option<String>,
        db_password: Option<String>,
        db_database: Option<String>,
        jwt_secret: Option<String>,
    ) -> (r: Option<AppConfig>)
        ensures
            r is Some <==> jwt_secret is Some,
            r matches Some(c) ==> {
                &&& c.db_host@ == or_default(opt_view(db_host), "localhost"@)
                &&& c.db_port@ == or_default(opt_view(db_port), "5432"@)
                &&& c.db_username@ == or_default(opt_view(db_username), "root"@)
                &&& c.db_password@ == or_default(opt_view(db_password), "0101"@)
                &&& c.db_database@ == or_default(opt_view(db_database), "bookstore"@)
                &&& Some(c.jwt_secret@) == opt_view(jwt_secret)
            },
    {
        match jwt_secret {
            None => None,
            Some(secret) => Some(
                AppConfig {
                    db_host: value_or(db_host, "localhost"),
                    db_port: value_or(db_port, "5432"),
                    db_username: value_or(db_username, "root"),
                    db_password: value_or(db_password, "0101"),
                    db_database: value_or(db_database, "bookstore"),
                    jwt_secret: secret,
                },
            ),
        }
    }
}

/// The greeting served at the root path.
pub fn index() -> (r: String)
    ensures
        r@ == "Hello, Rocket!"@,
{
    String::from_str("Hello, Rocket!")
}

} // verus!
