//! The errors of the library, by the part that raises them.

use vstd::prelude::*;
use vstd::std_specs::convert::FromSpecImpl;
use vstd::string::StringExecFns;

verus! {

/// `std::io::Error`, opaque to the verifier.
#[verifier::external_type_specification]
#[verifier::external_body]
pub struct ExIoError(std::io::Error);

/// What went wrong in a tap.
#[derive(Debug)]
pub enum TapError {
    DiscoveryFailed(String),
    AuthenticationFailed(String),
    FetchFailed(String),
    PaginationError(String),
    InvalidStream(String),
    HttpError(String),
}

/// What went wrong in a target.
#[derive(Debug)]
pub enum TargetError {
    WriteFailed(String),
    TransactionError(String),
    SchemaMismatch(String),
    BatchFailed(String),
    ConnectionError(String),
    TransformError(String),
}

/// What is wrong with a configuration.
#[derive(Debug)]
pub enum ConfigError {
    MissingField(String),
    InvalidValue { field: String, reason: String },
    LoadFailed { path: String, reason: String },
    ParseError(String),
    ValidationFailed(String),
}

/// What went wrong with the bookmark ledger.
#[derive(Debug)]
pub enum StateError {
    LoadFailed { path: String, reason: String },
    SaveFailed { path: String, reason: String },
    InvalidFormat(String),
    MergeConflict(String),
    BookmarkNotFound(String),
}

/// What is wrong with a message.
#[derive(Debug)]
pub enum ProtocolError {
    InvalidMessageType { expected: String, actual: String },
    MissingField(String),
    SchemaValidation(String),
    InvalidCatalog(String),
    SerializationFailed(String),
}

/// Any error of the library.
#[derive(Debug)]
pub enum DStreamError {
    Tap(TapError),
    Target(TargetError),
    Config(ConfigError),
    State(StateError),
    Protocol(ProtocolError),
    Io(std::io::Error),
    Serde(serde_json::Error),
    Arrow(arrow::error::ArrowError),
    Custom(String),
}

/// `head` followed by `tail`.
fn joined(head: &str, tail: &str) -> (text: String)
    ensures
        text@ == head@ + tail@,
{
    String::from_str(head).concat(tail)
}

impl TapError {
    /// The message of the error.
    pub open spec fn text(self) -> Seq<char> {
        match self {
            TapError::DiscoveryFailed(why) => "Failed to discover schema: "@ + why@,
            TapError::AuthenticationFailed(why) => "Authentication failed: "@ + why@,
            TapError::FetchFailed(why) => "Failed to fetch data: "@ + why@,
            TapError::PaginationError(why) => "Pagination error: "@ + why@,
            TapError::InvalidStream(why) => "Invalid stream: "@ + why@,
            TapError::HttpError(why) => "HTTP request failed: "@ + why@,
        }
    }

    /// The message of the error, for people to read.
    pub fn message(&self) -> (text: String)
        ensures
            text@ == self.text(),
    {
        match self {
            TapError::DiscoveryFailed(why) => joined("Failed to discover schema: ", why.as_str()),
            TapError::AuthenticationFailed(why) => joined("Authentication failed: ", why.as_str()),
            TapError::FetchFailed(why) => joined("Failed to fetch data: ", why.as_str()),
            TapError::PaginationError(why) => joined("Pagination error: ", why.as_str()),
            TapError::InvalidStream(why) => joined("Invalid stream: ", why.as_str()),
            TapError::HttpError(why) => joined("HTTP request failed: ", why.as_str()),
        }
    }
}

impl TargetError {
    /// The message of the error.
    pub open spec fn text(self) -> Seq<char> {
        match self {
            TargetError::WriteFailed(why) => "Failed to write data: "@ + why@,
            TargetError::TransactionError(why) => "Transaction error: "@ + why@,
            TargetError::SchemaMismatch(why) => "Schema mismatch: "@ + why@,
            TargetError::BatchFailed(why) => "Batch operation failed: "@ + why@,
            TargetError::ConnectionError(why) => "Connection error: "@ + why@,
            TargetError::TransformError(why) => "Transformation error: "@ + why@,
        }
    }

    /// The message of the error, for people to read.
    pub fn message(&self) -> (text: String)
        ensures
            text@ == self.text(),
    {
        match self {
            TargetError::WriteFailed(why) => joined("Failed to write data: ", why.as_str()),
            TargetError::TransactionError(why) => joined("Transaction error: ", why.as_str()),
            TargetError::SchemaMismatch(why) => joined("Schema mismatch: ", why.as_str()),
            TargetError::BatchFailed(why) => joined("Batch operation failed: ", why.as_str()),
            TargetError::ConnectionError(why) => joined("Connection error: ", why.as_str()),
            TargetError::TransformError(why) => joined("Transformation error: ", why.as_str()),
        }
    }
}

impl ConfigError {
    /// The message of the error.
    pub open spec fn text(self) -> Seq<char> {
        match self {
            ConfigError::MissingField(field) => "Missing required field: "@ + field@,
            ConfigError::InvalidValue { field, reason } => "Invalid configuration value for '"@
                + field@ + "': "@ + reason@,
            ConfigError::LoadFailed { path, reason } => "Failed to load configuration from "@
                + path@ + ": "@ + reason@,
            ConfigError::ParseError(why) => "Failed to parse configuration: "@ + why@,
            ConfigError::ValidationFailed(why) => "Validation failed: "@ + why@,
        }
    }

    /// The message of the error, for people to read.
    pub fn message(&self) -> (text: String)
        ensures
            text@ == self.text(),
    {
        match self {
            ConfigError::MissingField(field) => joined("Missing required field: ", field.as_str()),
            ConfigError::InvalidValue { field, reason } => joined(
                "Invalid configuration value for '",
                field.as_str(),
            ).concat("': ").concat(reason.as_str()),
            ConfigError::LoadFailed { path, reason } => joined(
                "Failed to load configuration from ",
                path.as_str(),
            ).concat(": ").concat(reason.as_str()),
            ConfigError::ParseError(why) => joined("Failed to parse configuration: ", why.as_str()),
            ConfigError::ValidationFailed(why) => joined("Validation failed: ", why.as_str()),
        }
    }
}

impl StateError {
    /// The message of the error.
    pub open spec fn text(self) -> Seq<char> {
        match self {
            StateError::LoadFailed { path, reason } => "Failed to load state from "@ + path@
                + ": "@ + reason@,
            StateError::SaveFailed { path, reason } => "Failed to save state to "@ + path@ + ": "@
                + reason@,
            StateError::InvalidFormat(why) => "Invalid state format: "@ + why@,
            StateError::MergeConflict(why) => "State merge conflict: "@ + why@,
            StateError::BookmarkNotFound(stream) => "Bookmark not found for stream: "@ + stream@,
        }
    }

    /// The message of the error, for people to read.
    pub fn message(&self) -> (text: String)
        ensures
            text@ == self.text(),
    {
        match self {
            StateError::LoadFailed { path, reason } => joined(
                "Failed to load state from ",
                path.as_str(),
            ).concat(": ").concat(reason.as_str()),
            StateError::SaveFailed { path, reason } => joined(
                "Failed to save state to ",
                path.as_str(),
            ).concat(": ").concat(reason.as_str()),
            StateError::InvalidFormat(why) => joined("Invalid state format: ", why.as_str()),
            StateError::MergeConflict(why) => joined("State merge conflict: ", why.as_str()),
            StateError::BookmarkNotFound(stream) => joined(
                "Bookmark not found for stream: ",
                stream.as_str(),
            ),
        }
    }
}

impl ProtocolError {
    /// The message of the error.
    pub open spec fn text(self) -> Seq<char> {
        match self {
            ProtocolError::InvalidMessageType { expected, actual } =>
                "Invalid message type: expected "@ + expected@ + ", got "@ + actual@,
            ProtocolError::MissingField(field) => "Missing required field in message: "@ + field@,
            ProtocolError::SchemaValidation(why) => "Schema validation failed: "@ + why@,
            ProtocolError::InvalidCatalog(why) => "Invalid catalog: "@ + why@,
            ProtocolError::SerializationFailed(why) => "Message serialization failed: "@ + why@,
        }
    }

    /// The message of the error, for people to read.
    pub fn message(&self) -> (text: String)
        ensures
            text@ == self.text(),
    {
        match self {
            ProtocolError::InvalidMessageType { expected, actual } => joined(
                "Invalid message type: expected ",
                expected.as_str(),
            ).concat(", got ").concat(actual.as_str()),
            ProtocolError::MissingField(field) => joined(
                "Missing required field in message: ",
                field.as_str(),
            ),
            ProtocolError::SchemaValidation(why) => joined(
                "Schema validation failed: ",
                why.as_str(),
            ),
            ProtocolError::InvalidCatalog(why) => joined("Invalid catalog: ", why.as_str()),
            ProtocolError::SerializationFailed(why) => joined(
                "Message serialization failed: ",
                why.as_str(),
            ),
        }
    }
}

/// The text that `std::io::Error` displays of itself (its `Display`).
/// Nothing is claimed of the text.
#[verifier::external_body]
fn io_error_text(error: &std::io::Error) -> (text: String) {
    format!("{}", error)
}

/// The text that `serde_json::Error` displays of itself (its `Display`).
/// Nothing is claimed of the text.
#[verifier::external_body]
fn json_error_text(error: &serde_json::Error) -> (text: String) {
    format!("{}", error)
}

/// The text that `arrow::error::ArrowError` displays of itself (its
/// `Display`). Nothing is claimed of the text.
#[verifier::external_body]
fn arrow_error_text(error: &arrow::error::ArrowError) -> (text: String) {
    format!("{}", error)
}

impl DStreamError {
    /// What the message of the error begins with. For an error of the
    /// library this is the whole message.
    pub open spec fn text(self) -> Seq<char> {
        match self {
            DStreamError::Tap(inner) => "Tap error: "@ + inner.text(),
            DStreamError::Target(inner) => "Target error: "@ + inner.text(),
            DStreamError::Config(inner) => "Configuration error: "@ + inner.text(),
            DStreamError::State(inner) => "State error: "@ + inner.text(),
            DStreamError::Protocol(inner) => "Protocol error: "@ + inner.text(),
            DStreamError::Io(_) => "I/O error: "@,
            DStreamError::Serde(_) => "Serialization error: "@,
            DStreamError::Arrow(_) => "Arrow error: "@,
            DStreamError::Custom(text) => text@,
        }
    }

    /// The error comes from outside the library, which then says the rest of
    /// the message.
    pub open spec fn is_outside(self) -> bool {
        self is Io || self is Serde || self is Arrow
    }

    /// The message of the error, for people to read.
    pub fn message(&self) -> (text: String)
        ensures
            self.text().is_prefix_of(text@),
            !self.is_outside() ==> text@ == self.text(),
    {
        match self {
            DStreamError::Tap(inner) => joined("Tap error: ", inner.message().as_str()),
            DStreamError::Target(inner) => joined("Target error: ", inner.message().as_str()),
            DStreamError::Config(inner) => joined(
                "Configuration error: ",
                inner.message().as_str(),
            ),
            DStreamError::State(inner) => joined("State error: ", inner.message().as_str()),
            DStreamError::Protocol(inner) => joined("Protocol error: ", inner.message().as_str()),
            DStreamError::Io(inner) => joined("I/O error: ", io_error_text(inner).as_str()),
            DStreamError::Serde(inner) => joined(
                "Serialization error: ",
                json_error_text(inner).as_str(),
            ),
            DStreamError::Arrow(inner) => joined("Arrow error: ", arrow_error_text(inner).as_str()),
            DStreamError::Custom(text) => text.clone(),
        }
    }
}

impl From<TapError> for DStreamError {
    fn from(error: TapError) -> (wrapped: DStreamError) {
        DStreamError::Tap(error)
    }
}

impl FromSpecImpl<TapError> for DStreamError {
    open spec fn obeys_from_spec() -> bool {
        true
    }

    open spec fn from_spec(error: TapError) -> DStreamError {
        DStreamError::Tap(error)
    }
}

impl From<TargetError> for DStreamError {
    fn from(error: TargetError) -> (wrapped: DStreamError) {
        DStreamError::Target(error)
    }
}

impl FromSpecImpl<TargetError> for DStreamError {
    open spec fn obeys_from_spec() -> bool {
        true
    }

    open spec fn from_spec(error: TargetError) -> DStreamError {
        DStreamError::Target(error)
    }
}

impl From<ConfigError> for DStreamError {
    fn from(error: ConfigError) -> (wrapped: DStreamError) {
        DStreamError::Config(error)
    }
}

impl FromSpecImpl<ConfigError> for DStreamError {
    open spec fn obeys_from_spec() -> bool {
        true
    }

    open spec fn from_spec(error: ConfigError) -> DStreamError {
        DStreamError::Config(error)
    }
}

impl From<StateError> for DStreamError {
    fn from(error: StateError) -> (wrapped: DStreamError) {
        DStreamError::State(error)
    }
}

impl FromSpecImpl<StateError> for DStreamError {
    open spec fn obeys_from_spec() -> bool {
        true
    }

    open spec fn from_spec(error: StateError) -> DStreamError {
        DStreamError::State(error)
    }
}

impl From<ProtocolError> for DStreamError {
    fn from(error: ProtocolError) -> (wrapped: DStreamError) {
        DStreamError::Protocol(error)
    }
}

impl FromSpecImpl<ProtocolError> for DStreamError {
    open spec fn obeys_from_spec() -> bool {
        true
    }

    open spec fn from_spec(error: ProtocolError) -> DStreamError {
        DStreamError::Protocol(error)
    }
}

impl From<std::io::Error> for DStreamError {
    fn from(error: std::io::Error) -> (wrapped: DStreamError) {
        DStreamError::Io(error)
    }
}

impl FromSpecImpl<std::io::Error> for DStreamError {
    open spec fn obeys_from_spec() -> bool {
        true
    }

    open spec fn from_spec(error: std::io::Error) -> DStreamError {
        DStreamError::Io(error)
    }
}

impl From<serde_json::Error> for DStreamError {
    fn from(error: serde_json::Error) -> (wrapped: DStreamError) {
        DStreamError::Serde(error)
    }
}

impl FromSpecImpl<serde_json::Error> for DStreamError {
    open spec fn obeys_from_spec() -> bool {
        true
    }

    open spec fn from_spec(error: serde_json::Error) -> DStreamError {
        DStreamError::Serde(error)
    }
}

impl From<arrow::error::ArrowError> for DStreamError {
    fn from(error: arrow::error::ArrowError) -> (wrapped: DStreamError) {
        DStreamError::Arrow(error)
    }
}

impl FromSpecImpl<arrow::error::ArrowError> for DStreamError {
    open spec fn obeys_from_spec() -> bool {
        true
    }

    open spec fn from_spec(error: arrow::error::ArrowError) -> DStreamError {
        DStreamError::Arrow(error)
    }
}

} // verus!
