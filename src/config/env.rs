//! Configuration taken from environment values.

use crate::error::Error;
use crate::gitlab::auth::{AuthMethod, Token};
use crate::text::owned;
use vstd::prelude::*;

verus! {

/// Settings from the environment.
#[derive(Debug)]
pub struct Config {
    pub gitlab_url: String,
    pub gitlab_token: Option<String>,
    pub log_level: String,
}

/// The URL used when none is set.
pub fn default_gitlab_url() -> (r: String)
    ensures
        r@ == "http://localhost:8080"@,
{
    owned("http://localhost:8080")
}

/// The log level used when none is set.
pub fn default_log_level() -> (r: String)
    ensures
        r@ == "info"@,
{
    owned("info")
}

/// The first value present.
pub open spec fn first_of(a: Option<String>, b: Option<String>) -> Option<String> {
    match a {
        Some(x) => Some(x),
        None => b,
    }
}

impl Config {
    /// Settings from the values of `GITLAB_URL` / `AUTOGIT_GITLAB_URL`,
    /// `GITLAB_TOKEN` / `AUTOGIT_GITLAB_TOKEN` and `LOG_LEVEL` /
    /// `AUTOGIT_LOG_LEVEL`: the first of each pair that is set, else the
    /// default (no token has none).
    pub fn from_values(
        url: Option<String>,
        alt_url: Option<String>,
        token: Option<String>,
        alt_token: Option<String>,
        level: Option<String>,
        alt_level: Option<String>,
    ) -> (r: Config)
        ensures
            r.gitlab_url@ == match first_of(url, alt_url) {
                Some(u) => u@,
                None => "http://localhost:8080"@,
            },
            r.gitlab_token == first_of(token, alt_token),
            r.log_level@ == match first_of(level, alt_level) {
                Some(l) => l@,
                None => "info"@,
            },
    {
        let gitlab_url = match url {
            Some(u) => u,
            None => match alt_url {
                Some(u) => u,
                None => default_gitlab_url(),
            },
        };
        let gitlab_token = match token {
            Some(t) => Some(t),
            None => alt_token,
        };
        let log_level = match level {
            Some(l) => l,
            None => match alt_level {
                Some(l) => l,
                None => default_log_level(),
            },
        };
        Config { gitlab_url, gitlab_token, log_level }
    }

    /// Personal-token authentication from the configured token; a
    /// configuration error naming the variable when there is none.
    pub fn auth(&self) -> (r: Result<AuthMethod, Error>)
        ensures
            match self.gitlab_token {
                Some(t) => r is Ok && r->Ok_0 is PrivateToken && r->Ok_0.token_text() == t@,
                None => r is Err && r->Err_0 is Config && r->Err_0->Config_0@
                    == "GITLAB_TOKEN not set"@,
            },
    {
        match &self.gitlab_token {
            Some(t) => Ok(AuthMethod::PrivateToken(Token::new(t.as_str()))),
            None => Err(Error::Config(owned("GITLAB_TOKEN not set"))),
        }
    }
}

} // verus!
