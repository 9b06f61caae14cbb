//! The configuration of a tap or a target, and the checks it must pass
//! before a connector is built from it.

use crate::errors::{ConfigError, DStreamError};
use crate::string_map::StringMap;
use vstd::prelude::*;

verus! {

/// How a connector reaches what it reads from or writes to.
#[derive(Debug, Clone)]
pub enum ConnectionConfig {
    Url { url: String },
    HostPort { host: String, port: u16, database: Option<String> },
    FilePath { path: String },
    Custom(StringMap<serde_json::Value>),
}

/// How a connector proves who it is.
#[derive(Debug, Clone)]
pub enum AuthConfig {
    /// The connector needs no credentials.
    NoAuth,
    ApiKey { key: String, header: Option<String> },
    Bearer { token: String },
    Basic { username: String, password: String },
    OAuth2 {
        client_id: String,
        client_secret: String,
        token_url: Option<String>,
        refresh_token: Option<String>,
    },
    Custom(StringMap<serde_json::Value>),
}

/// The configuration of a tap.
#[derive(Debug, Clone)]
pub struct TapConfig {
    pub name: String,
    /// The kind of tap, `type` in a stored configuration.
    pub tap_type: String,
    pub connection: ConnectionConfig,
    pub auth: Option<AuthConfig>,
    /// The streams to read, where the configuration names them.
    pub streams: Option<Vec<String>>,
    pub properties: StringMap<serde_json::Value>,
}

/// The configuration of a target.
#[derive(Debug, Clone)]
pub struct TargetConfig {
    pub name: String,
    /// The kind of target, `type` in a stored configuration.
    pub target_type: String,
    pub connection: ConnectionConfig,
    pub auth: Option<AuthConfig>,
    /// How many records are written at once.
    pub batch_size: usize,
    pub properties: StringMap<serde_json::Value>,
}

/// The batch size of a target whose configuration names none.
pub fn default_batch_size() -> (size: usize)
    ensures
        size == 1000,
{
    1000
}

/// The error for a field that a configuration must fill and leaves empty.
pub open spec fn is_missing_field(outcome: Result<(), DStreamError>, field: Seq<char>) -> bool {
    outcome matches Err(DStreamError::Config(ConfigError::MissingField(named))) && named@
        == field
}

/// The error for a batch size of zero.
pub open spec fn is_empty_batch(outcome: Result<(), DStreamError>) -> bool {
    outcome matches Err(DStreamError::Config(ConfigError::InvalidValue { field, reason }))
        && field@ == "batch_size"@ && reason@ == "must be greater than 0"@
}

/// What the check of a configuration with these fields says. A target hands
/// in its batch size, a tap hands in `None`.
pub open spec fn is_verdict(
    outcome: Result<(), DStreamError>,
    name: Seq<char>,
    kind: Seq<char>,
    batch_size: Option<usize>,
) -> bool {
    if name.len() == 0 {
        is_missing_field(outcome, "name"@)
    } else if kind.len() == 0 {
        is_missing_field(outcome, "type"@)
    } else if batch_size == Some(0usize) {
        is_empty_batch(outcome)
    } else {
        outcome is Ok
    }
}

impl TapConfig {
    /// Checks the configuration: it must name the tap and its kind.
    pub fn validate(&self) -> (outcome: Result<(), DStreamError>)
        ensures
            is_verdict(outcome, self.name@, self.tap_type@, None),
            outcome is Err <==> self.name@.len() == 0 || self.tap_type@.len() == 0,
    {
        if self.name.as_str().is_empty() {
            return Err(DStreamError::Config(ConfigError::MissingField("name".to_owned())));
        }
        if self.tap_type.as_str().is_empty() {
            return Err(DStreamError::Config(ConfigError::MissingField("type".to_owned())));
        }
        Ok(())
    }

    /// The free-form property stored under `key`, if any.
    pub fn get_property(&self, key: &str) -> (value: Option<&serde_json::Value>)
        ensures
            match value {
                Some(found) => self.properties@.contains_key(key@) && *found
                    == self.properties@[key@],
                None => !self.properties@.contains_key(key@),
            },
    {
        self.properties.get(key)
    }
}

impl TargetConfig {
    /// Checks the configuration: it must name the target and its kind, and
    /// its batches must hold at least one record.
    pub fn validate(&self) -> (outcome: Result<(), DStreamError>)
        ensures
            is_verdict(outcome, self.name@, self.target_type@, Some(self.batch_size)),
            outcome is Err <==> self.name@.len() == 0 || self.target_type@.len() == 0
                || self.batch_size == 0,
    {
        if self.name.as_str().is_empty() {
            return Err(DStreamError::Config(ConfigError::MissingField("name".to_owned())));
        }
        if self.target_type.as_str().is_empty() {
            return Err(DStreamError::Config(ConfigError::MissingField("type".to_owned())));
        }
        if self.batch_size == 0 {
            return Err(
                DStreamError::Config(
                    ConfigError::InvalidValue {
                        field: "batch_size".to_owned(),
                        reason: "must be greater than 0".to_owned(),
                    },
                ),
            );
        }
        Ok(())
    }

    /// The free-form property stored under `key`, if any.
    pub fn get_property(&self, key: &str) -> (value: Option<&serde_json::Value>)
        ensures
            match value {
                Some(found) => self.properties@.contains_key(key@) && *found
                    == self.properties@[key@],
                None => !self.properties@.contains_key(key@),
            },
    {
        self.properties.get(key)
    }
}

} // verus!
