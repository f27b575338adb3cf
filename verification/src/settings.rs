//! The configuration snapshot: secret material for signing claims, the claim
//! timeout, and descriptive fields. A snapshot is immutable once constructed;
//! loading one from files or the environment is a collaborator's job.
//!
//! Absent fields fall back to documented defaults when read: the signing
//! secret falls back to a deliberately weak constant (a known limitation,
//! kept on purpose), the claim timeout to one hour.
use vstd::prelude::*;

use vstd::string::StringExecFns;

verus! {

/// Where the backing database lives, if one is configured.
#[derive(Debug)]
pub struct Database {
    pub url: Option<String>,
}

/// How chatty the process should be.
#[derive(Debug)]
pub struct Logging {
    pub log_level: Option<String>,
}

/// Where this configuration itself came from.
#[derive(Debug)]
pub struct ConfigInfo {
    pub location: Option<String>,
    pub env_prefix: Option<String>,
}

/// One process-wide configuration snapshot.
#[derive(Debug)]
pub struct Settings {
    pub database: Database,
    pub logging: Logging,
    pub config: ConfigInfo,
    pub token_secret: Option<String>,
    pub token_timeout_seconds: Option<i64>,
}

/// The mathematical value of a settings snapshot: every string as a character
/// sequence.
pub ghost struct SettingsView {
    pub database_url: Option<Seq<char>>,
    pub log_level: Option<Seq<char>>,
    pub config_location: Option<Seq<char>>,
    pub config_env_prefix: Option<Seq<char>>,
    pub token_secret: Option<Seq<char>>,
    pub token_timeout_seconds: Option<i64>,
}

impl View for Settings {
    type V = SettingsView;

    open spec fn view(&self) -> SettingsView {
        SettingsView {
            database_url: self.database.url.deep_view(),
            log_level: self.logging.log_level.deep_view(),
            config_location: self.config.location.deep_view(),
            config_env_prefix: self.config.env_prefix.deep_view(),
            token_secret: self.token_secret.deep_view(),
            token_timeout_seconds: self.token_timeout_seconds,
        }
    }
}

impl Clone for Settings {
    /// A cloned snapshot carries the same value as the original.
    fn clone(&self) -> (r: Self)
        ensures
            r@ == self@,
    {
        Settings {
            database: Database { url: clone_opt_string(&self.database.url) },
            logging: Logging { log_level: clone_opt_string(&self.logging.log_level) },
            config: ConfigInfo {
                location: clone_opt_string(&self.config.location),
                env_prefix: clone_opt_string(&self.config.env_prefix),
            },
            token_secret: clone_opt_string(&self.token_secret),
            token_timeout_seconds: self.token_timeout_seconds,
        }
    }
}

/// A copy of an optional string, carrying the same value.
fn clone_opt_string(o: &Option<String>) -> (r: Option<String>)
    ensures
        r.deep_view() == o.deep_view(),
{
    match o {
        Some(s) => Some(s.clone()),
        None => None,
    }
}

/// The signing secret a snapshot yields: the configured one, or the
/// documented weak fallback when none is set.
pub open spec fn effective_secret_view(s: SettingsView) -> Seq<char> {
    match s.token_secret {
        Some(x) => x,
        None => "secret"@,
    }
}

/// The claim timeout a snapshot yields, in seconds: the configured one, or
/// one hour when none is set.
pub open spec fn effective_timeout_view(s: SettingsView) -> i64 {
    match s.token_timeout_seconds {
        Some(x) => x,
        None => 3600,
    }
}

impl Settings {
    /// A snapshot with nothing configured: every read falls back to its
    /// documented default.
    pub fn empty() -> (r: Self)
        ensures
            r@.token_secret is None,
            r@.token_timeout_seconds is None,
            r@.database_url is None,
            r@.log_level is None,
            r@.config_location is None,
            r@.config_env_prefix is None,
    {
        Settings {
            database: Database { url: None },
            logging: Logging { log_level: None },
            config: ConfigInfo { location: None, env_prefix: None },
            token_secret: None,
            token_timeout_seconds: None,
        }
    }

    /// The signing secret this snapshot yields.
    pub fn effective_secret(&self) -> (r: String)
        ensures
            r@ == effective_secret_view(self@),
    {
        match &self.token_secret {
            Some(s) => s.clone(),
            None => String::from_str("secret"),
        }
    }

    /// The claim timeout this snapshot yields, in seconds.
    pub fn effective_timeout(&self) -> (r: i64)
        ensures
            r == effective_timeout_view(self@),
    {
        match self.token_timeout_seconds {
            Some(t) => t,
            None => 3600,
        }
    }
}

impl Default for Settings {
    /// A snapshot with nothing configured.
    fn default() -> (r: Self)
        ensures
            r@.token_secret is None,
            r@.token_timeout_seconds is None,
            r@.database_url is None,
            r@.log_level is None,
            r@.config_location is None,
            r@.config_env_prefix is None,
    {
        Settings::empty()
    }
}

} // verus!
