use vstd::prelude::*;

use crate::text::{lower_chars, normalized, str_eq, trimmed};

verus! {

/// The environment named by a configuration string, after lower-casing and
/// trimming: `dev`, `development` and `test` select the sandbox host,
/// `prod` and `production` the live one.
pub open spec fn spec_parse_environment(s: Seq<char>) -> Option<Environment> {
    let n = lower_chars(trimmed(s));
    if n == "dev"@ || n == "development"@ || n == "test"@ {
        Some(Environment::Test)
    } else if n == "prod"@ || n == "production"@ {
        Some(Environment::Production)
    } else {
        None
    }
}

/// Selects which API host a client talks to. Chosen at client construction
/// and fixed for the client's lifetime.
#[derive(Debug, Copy, Clone, PartialEq, Eq, Structural)]
pub enum Environment {
    /// Sandbox host: test networks for crypto integrations and fake PII.
    Test,
    /// Live host: real funds, accounts, and integrations.
    Production,
}

impl Environment {
    /// The base URL of the host this environment selects.
    pub open spec fn base_url(&self) -> Seq<char> {
        match self {
            Environment::Test => "https://api.testwyre.com"@,
            Environment::Production => "https://api.sendwyre.com"@,
        }
    }

    /// The url used to access the API.
    pub fn api_url(&self) -> (r: &str)
        ensures
            r@ == self.base_url(),
    {
        match self {
            Environment::Test => "https://api.testwyre.com",
            Environment::Production => "https://api.sendwyre.com",
        }
    }

    /// Reads an environment name, case-insensitively and ignoring
    /// surrounding whitespace. An unrecognized name is handed back
    /// normalized inside the error.
    pub fn from_str(s: &str) -> (r: Result<Environment, EnvironmentParseError>)
        ensures
            match spec_parse_environment(s@) {
                Some(e) => r == Ok::<Environment, EnvironmentParseError>(e),
                None => (r matches Err(EnvironmentParseError(t)) && t@ == lower_chars(
                    trimmed(s@),
                )),
            },
    {
        let n = normalized(s);
        if str_eq(n.as_str(), "dev") || str_eq(n.as_str(), "development") || str_eq(
            n.as_str(),
            "test",
        ) {
            Ok(Environment::Test)
        } else if str_eq(n.as_str(), "prod") || str_eq(n.as_str(), "production") {
            Ok(Environment::Production)
        } else {
            Err(EnvironmentParseError(n))
        }
    }
}

/// Could not parse an environment, contains the original string
/// (lower-cased and trimmed).
#[derive(Debug, Clone, PartialEq, Eq)]
pub struct EnvironmentParseError(pub String);

} // verus!
