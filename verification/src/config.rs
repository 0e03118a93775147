//! Settings of the service, taken from a set of environment variables.

use std::time::Duration;
use vstd::prelude::*;
use vstd::string::*;
use crate::env_map::EnvMap;
use crate::text::{parse_u64, parsed_u64, trimmed};

verus! {

/// The duration of `secs` whole seconds: what `Duration::from_secs` returns
/// for `secs`.
pub uninterp spec fn seconds(secs: u64) -> Duration;

/// `Duration::from_secs` of the standard library: the duration of that many
/// whole seconds, which depends on the number alone.
pub assume_specification[ Duration::from_secs ](secs: u64) -> (d: Duration)
    ensures
        d == seconds(secs),
;

/// Seconds between two polls where the environment names none.
pub const DEFAULT_POLL_SECS: u64 = 90;

/// The shortest time between two polls that is accepted.
pub const MIN_POLL_SECS: u64 = 10;

/// A setting as it is used: the raw text without surrounding white space
/// and, where what is left starts and ends with the same quote character,
/// single or double, without that pair of quotes.
pub open spec fn cleaned(raw: Seq<char>) -> Seq<char> {
    let t = trimmed(raw);
    if t.len() >= 2 && ((t[0] == '"' && t.last() == '"') || (t[0] == '\'' && t.last() == '\'')) {
        t.subrange(1, t.len() - 1)
    } else {
        t
    }
}

/// What the environment `env` sets the variable `name` to: its cleaned
/// value, unless the variable is absent or cleans to nothing.
pub open spec fn setting(env: Map<Seq<char>, Seq<char>>, name: Seq<char>) -> Option<Seq<char>> {
    if env.contains_key(name) && cleaned(env[name]).len() > 0 {
        Some(cleaned(env[name]))
    } else {
        None
    }
}

/// The first required variable, in the order in which they are read, that
/// `env` does not set.
pub open spec fn missing_variable(env: Map<Seq<char>, Seq<char>>) -> Option<Seq<char>> {
    if setting(env, "TWITTER_BEARER_TOKEN"@) is None {
        Some("TWITTER_BEARER_TOKEN"@)
    } else if setting(env, "TWITTER_USER_ID"@) is None {
        Some("TWITTER_USER_ID"@)
    } else if setting(env, "TSBX_HOST_URL"@) is None {
        Some("TSBX_HOST_URL"@)
    } else if setting(env, "TSBX_ADMIN_TOKEN"@) is None {
        Some("TSBX_ADMIN_TOKEN"@)
    } else if setting(env, "TWITTER_API_KEY"@) is None {
        Some("TWITTER_API_KEY"@)
    } else if setting(env, "TWITTER_API_SECRET"@) is None {
        Some("TWITTER_API_SECRET"@)
    } else if setting(env, "TWITTER_ACCESS_TOKEN"@) is None {
        Some("TWITTER_ACCESS_TOKEN"@)
    } else if setting(env, "TWITTER_ACCESS_TOKEN_SECRET"@) is None {
        Some("TWITTER_ACCESS_TOKEN_SECRET"@)
    } else {
        None
    }
}

/// Seconds between two polls under `env`: what `TWITTER_POLL_INTERVAL_SECS`
/// spells, or the default where it is unset or spells no number, and never
/// less than the minimum.
pub open spec fn poll_seconds(env: Map<Seq<char>, Seq<char>>) -> u64 {
    let asked = match setting(env, "TWITTER_POLL_INTERVAL_SECS"@) {
        Some(text) => match parsed_u64(text) {
            Some(n) => n,
            None => DEFAULT_POLL_SECS,
        },
        None => DEFAULT_POLL_SECS,
    };
    if asked < MIN_POLL_SECS {
        MIN_POLL_SECS
    } else {
        asked
    }
}

/// The characters of an optional string.
pub open spec fn text_of(s: Option<String>) -> Option<Seq<char>> {
    match s {
        Some(s) => Some(s@),
        None => None,
    }
}

/// A required variable that the environment leaves unset or empty.
#[derive(Debug, PartialEq, Eq)]
pub struct ConfigError {
    pub variable: String,
}

impl ConfigError {
    /// The failure in words: the variable's name, then ` is required`.
    pub fn message(&self) -> (r: String)
        ensures
            r@ == self.variable@ + " is required"@,
    {
        self.variable.clone().concat(" is required")
    }
}

/// The settings of the service.
pub struct Config {
    pub twitter_bearer_token: String,
    pub twitter_user_id: String,
    pub twitter_api_base: String,
    pub poll_interval: Duration,
    pub tsbx_host_url: String,
    pub tsbx_admin_token: String,
    pub initial_since_id: Option<String>,
    pub twitter_api_key: Option<String>,
    pub twitter_api_secret: Option<String>,
    pub twitter_access_token: Option<String>,
    pub twitter_access_token_secret: Option<String>,
}

impl Config {
    /// Whether all four user-context credentials are present.
    pub open spec fn has_credentials(&self) -> bool {
        &&& self.twitter_api_key is Some
        &&& self.twitter_api_secret is Some
        &&& self.twitter_access_token is Some
        &&& self.twitter_access_token_secret is Some
    }

    /// Whether every field holds what `env` sets for it.
    pub open spec fn loaded_from(&self, env: Map<Seq<char>, Seq<char>>) -> bool {
        &&& setting(env, "TWITTER_BEARER_TOKEN"@) == Some(self.twitter_bearer_token@)
        &&& setting(env, "TWITTER_USER_ID"@) == Some(self.twitter_user_id@)
        &&& self.twitter_api_base@ == match setting(env, "TWITTER_API_BASE"@) {
            Some(base) => base,
            None => "https://api.x.com"@,
        }
        &&& self.poll_interval == seconds(poll_seconds(env))
        &&& setting(env, "TSBX_HOST_URL"@) == Some(self.tsbx_host_url@)
        &&& setting(env, "TSBX_ADMIN_TOKEN"@) == Some(self.tsbx_admin_token@)
        &&& text_of(self.initial_since_id) == setting(env, "TWITTER_SINCE_ID"@)
        &&& self.has_credentials()
        &&& text_of(self.twitter_api_key) == setting(env, "TWITTER_API_KEY"@)
        &&& text_of(self.twitter_api_secret) == setting(env, "TWITTER_API_SECRET"@)
        &&& text_of(self.twitter_access_token) == setting(env, "TWITTER_ACCESS_TOKEN"@)
        &&& text_of(self.twitter_access_token_secret) == setting(
            env,
            "TWITTER_ACCESS_TOKEN_SECRET"@,
        )
    }

    /// Reads the settings from the environment `env`. It fails on the first
    /// required variable that `env` does not set, and names it.
    pub fn from_env(env: &EnvMap) -> (r: Result<Config, ConfigError>)
        ensures
            match r {
                Ok(config) => missing_variable(env@) is None && config.loaded_from(env@),
                Err(e) => missing_variable(env@) == Some(e.variable@),
            },
    {
        let twitter_bearer_token = match required_env(env, "TWITTER_BEARER_TOKEN") {
            Ok(value) => value,
            Err(e) => { return Err(e); },
        };
        let twitter_user_id = match required_env(env, "TWITTER_USER_ID") {
            Ok(value) => value,
            Err(e) => { return Err(e); },
        };
        let twitter_api_base = match optional_env(env, "TWITTER_API_BASE") {
            Some(base) => base,
            None => "https://api.x.com".to_owned(),
        };
        let asked: u64 = match optional_env(env, "TWITTER_POLL_INTERVAL_SECS") {
            Some(text) => match parse_u64(text.as_str()) {
                Some(n) => n,
                None => DEFAULT_POLL_SECS,
            },
            None => DEFAULT_POLL_SECS,
        };
        let poll_secs: u64 = if asked < MIN_POLL_SECS {
            MIN_POLL_SECS
        } else {
            asked
        };
        let tsbx_host_url = match required_env(env, "TSBX_HOST_URL") {
            Ok(value) => value,
            Err(e) => { return Err(e); },
        };
        let tsbx_admin_token = match required_env(env, "TSBX_ADMIN_TOKEN") {
            Ok(value) => value,
            Err(e) => { return Err(e); },
        };
        let initial_since_id = optional_env(env, "TWITTER_SINCE_ID");
        let twitter_api_key = match required_env(env, "TWITTER_API_KEY") {
            Ok(value) => value,
            Err(e) => { return Err(e); },
        };
        let twitter_api_secret = match required_env(env, "TWITTER_API_SECRET") {
            Ok(value) => value,
            Err(e) => { return Err(e); },
        };
        let twitter_access_token = match required_env(env, "TWITTER_ACCESS_TOKEN") {
            Ok(value) => value,
            Err(e) => { return Err(e); },
        };
        let twitter_access_token_secret = match required_env(env, "TWITTER_ACCESS_TOKEN_SECRET") {
            Ok(value) => value,
            Err(e) => { return Err(e); },
        };
        Ok(
            Config {
                twitter_bearer_token,
                twitter_user_id,
                twitter_api_base,
                poll_interval: Duration::from_secs(poll_secs),
                tsbx_host_url,
                tsbx_admin_token,
                initial_since_id,
                twitter_api_key: Some(twitter_api_key),
                twitter_api_secret: Some(twitter_api_secret),
                twitter_access_token: Some(twitter_access_token),
                twitter_access_token_secret: Some(twitter_access_token_secret),
            },
        )
    }

    /// The variables handed to a new sandbox: the bearer token and the four
    /// user-context credentials, each under the name it is read from.
    pub fn sandbox_env(&self) -> (r: EnvMap)
        requires
            self.has_credentials(),
        ensures
            r@ == Map::<Seq<char>, Seq<char>>::empty().insert(
                "TWITTER_BEARER_TOKEN"@,
                self.twitter_bearer_token@,
            ).insert("TWITTER_API_KEY"@, self.twitter_api_key.unwrap()@).insert(
                "TWITTER_API_SECRET"@,
                self.twitter_api_secret.unwrap()@,
            ).insert("TWITTER_ACCESS_TOKEN"@, self.twitter_access_token.unwrap()@).insert(
                "TWITTER_ACCESS_TOKEN_SECRET"@,
                self.twitter_access_token_secret.unwrap()@,
            ),
    {
        let mut env_map = EnvMap::new();
        env_map.insert("TWITTER_BEARER_TOKEN".to_owned(), self.twitter_bearer_token.clone());
        match &self.twitter_api_key {
            Some(key) => {
                env_map.insert("TWITTER_API_KEY".to_owned(), key.clone());
            },
            None => {},
        }
        match &self.twitter_api_secret {
            Some(secret) => {
                env_map.insert("TWITTER_API_SECRET".to_owned(), secret.clone());
            },
            None => {},
        }
        match &self.twitter_access_token {
            Some(token) => {
                env_map.insert("TWITTER_ACCESS_TOKEN".to_owned(), token.clone());
            },
            None => {},
        }
        match &self.twitter_access_token_secret {
            Some(secret) => {
                env_map.insert("TWITTER_ACCESS_TOKEN_SECRET".to_owned(), secret.clone());
            },
            None => {},
        }
        env_map
    }
}

/// What `env` sets `key` to, if anything.
pub fn optional_env(env: &EnvMap, key: &str) -> (r: Option<String>)
    ensures
        text_of(r) == setting(env@, key@),
{
    match env.get(key) {
        Some(raw) => {
            let value = clean_env(raw.as_str());
            if value.as_str().unicode_len() == 0 {
                None
            } else {
                Some(value)
            }
        },
        None => None,
    }
}

/// What `env` sets `key` to; an error that names `key` where it sets
/// nothing.
pub fn required_env(env: &EnvMap, key: &str) -> (r: Result<String, ConfigError>)
    ensures
        match r {
            Ok(value) => setting(env@, key@) == Some(value@),
            Err(e) => setting(env@, key@) is None && e.variable@ == key@,
        },
{
    match optional_env(env, key) {
        Some(value) => Ok(value),
        None => Err(ConfigError { variable: key.to_owned() }),
    }
}

/// Cleans the raw text of a variable: white space around it goes, and so
/// does one pair of matching quotes around what is left.
pub fn clean_env(value: &str) -> (r: String)
    ensures
        r@ == cleaned(value@),
{
    let trimmed = value.trim();
    let n = trimmed.unicode_len();
    if n >= 2 {
        let first = trimmed.get_char(0);
        let last = trimmed.get_char(n - 1);
        if (first == '"' && last == '"') || (first == '\'' && last == '\'') {
            return trimmed.substring_char(1, n - 1).to_owned();
        }
    }
    trimmed.to_owned()
}

} // verus!
