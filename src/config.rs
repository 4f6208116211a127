use vstd::prelude::*;
use crate::labels::StringMap;
use crate::text::same_text;

verus! {

/// A container registry the application can authenticate with.
#[derive(Debug, Clone)]
pub struct ConfigRegistry {
    pub name: String,
    pub url: String,
    pub username: String,
    pub password: String,
}

/// Settings of the application, read once at start and handed on from there.
#[derive(Debug, Clone)]
pub struct Config {
    pub log_level: String,
    pub tokens: StringMap,
    pub port: u16,
    pub host: String,
    pub docker_url: String,
    pub registries: Vec<ConfigRegistry>,
    pub graceful_shutdown_timeout: u64,
    pub http_body_limit: usize,
    pub http_request_timeout: u64,
}

/// How much the application logs.
#[derive(Debug, Clone, Copy, PartialEq, Eq, Structural)]
pub enum LogLevel {
    Trace,
    Debug,
    Info,
    Warn,
    Error,
}

/// What `str::to_lowercase` makes of a text.
pub uninterp spec fn lower_of(s: Seq<char>) -> Seq<char>;

/// Relies on `str::to_lowercase`: the result depends on the characters alone.
#[verifier::external_body]
fn lowercase(s: &str) -> (r: String)
    ensures
        r@ == lower_of(s@),
{
    s.to_lowercase()
}

/// The level a lower-case level name stands for; an unknown name means `Info`.
pub open spec fn level_named(name: Seq<char>) -> LogLevel {
    if name == "trace"@ {
        LogLevel::Trace
    } else if name == "debug"@ {
        LogLevel::Debug
    } else if name == "info"@ {
        LogLevel::Info
    } else if name == "warn"@ {
        LogLevel::Warn
    } else if name == "error"@ {
        LogLevel::Error
    } else {
        LogLevel::Info
    }
}

/// The level that a name already in lower case stands for.
pub fn level_for_name(name: &str) -> (r: LogLevel)
    ensures
        r == level_named(name@),
{
    if same_text(name, "trace") {
        LogLevel::Trace
    } else if same_text(name, "debug") {
        LogLevel::Debug
    } else if same_text(name, "info") {
        LogLevel::Info
    } else if same_text(name, "warn") {
        LogLevel::Warn
    } else if same_text(name, "error") {
        LogLevel::Error
    } else {
        LogLevel::Info
    }
}

impl Default for Config {
    fn default() -> (r: Self)
        ensures
            r.log_level@ == "debug"@,
            r.tokens.wf(),
            r.tokens@.len() == 0,
            r.port == 3000,
            r.host@ == "0.0.0.0"@,
            r.docker_url@ == "http://localhost:8080"@,
            r.registries@.len() == 0,
            r.graceful_shutdown_timeout == 30,
            r.http_body_limit == 1024,
            r.http_request_timeout == 10,
    {
        Config {
            log_level: "debug".to_owned(),
            tokens: StringMap::new(),
            port: 3000,
            host: "0.0.0.0".to_owned(),
            docker_url: "http://localhost:8080".to_owned(),
            registries: Vec::new(),
            graceful_shutdown_timeout: 30,
            http_body_limit: 1024,
            http_request_timeout: 10,
        }
    }
}

impl Config {
    /// The configured log level, whatever the case of its name.
    pub fn log_level(&self) -> (r: LogLevel)
        ensures
            r == level_named(lower_of(self.log_level@)),
    {
        let lowered = lowercase(self.log_level.as_str());
        level_for_name(lowered.as_str())
    }
}

} // verus!
