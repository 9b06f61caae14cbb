use dstreams::errors::{
    ConfigError, DStreamError, ProtocolError, StateError, TapError, TargetError,
};

fn s(text: &str) -> String {
    text.to_string()
}

#[test]
fn tap_error_messages() {
    assert_eq!(TapError::DiscoveryFailed(s("x")).message(), "Failed to discover schema: x");
    assert_eq!(TapError::AuthenticationFailed(s("x")).message(), "Authentication failed: x");
    assert_eq!(TapError::FetchFailed(s("x")).message(), "Failed to fetch data: x");
    assert_eq!(TapError::PaginationError(s("x")).message(), "Pagination error: x");
    assert_eq!(TapError::InvalidStream(s("x")).message(), "Invalid stream: x");
    assert_eq!(TapError::HttpError(s("x")).message(), "HTTP request failed: x");
}

#[test]
fn target_error_messages() {
    assert_eq!(TargetError::WriteFailed(s("x")).message(), "Failed to write data: x");
    assert_eq!(TargetError::TransactionError(s("x")).message(), "Transaction error: x");
    assert_eq!(TargetError::SchemaMismatch(s("x")).message(), "Schema mismatch: x");
    assert_eq!(TargetError::BatchFailed(s("x")).message(), "Batch operation failed: x");
    assert_eq!(TargetError::ConnectionError(s("x")).message(), "Connection error: x");
    assert_eq!(TargetError::TransformError(s("x")).message(), "Transformation error: x");
}

#[test]
fn config_error_messages() {
    assert_eq!(ConfigError::MissingField(s("name")).message(), "Missing required field: name");
    assert_eq!(
        ConfigError::InvalidValue { field: s("batch_size"), reason: s("must be greater than 0") }
            .message(),
        "Invalid configuration value for 'batch_size': must be greater than 0"
    );
    assert_eq!(
        ConfigError::LoadFailed { path: s("tap.json"), reason: s("not found") }.message(),
        "Failed to load configuration from tap.json: not found"
    );
    assert_eq!(ConfigError::ParseError(s("x")).message(), "Failed to parse configuration: x");
    assert_eq!(ConfigError::ValidationFailed(s("x")).message(), "Validation failed: x");
}

#[test]
fn state_error_messages() {
    assert_eq!(
        StateError::LoadFailed { path: s("state.json"), reason: s("denied") }.message(),
        "Failed to load state from state.json: denied"
    );
    assert_eq!(
        StateError::SaveFailed { path: s("state.json"), reason: s("disk full") }.message(),
        "Failed to save state to state.json: disk full"
    );
    assert_eq!(StateError::InvalidFormat(s("x")).message(), "Invalid state format: x");
    assert_eq!(StateError::MergeConflict(s("x")).message(), "State merge conflict: x");
    assert_eq!(
        StateError::BookmarkNotFound(s("users")).message(),
        "Bookmark not found for stream: users"
    );
}

#[test]
fn protocol_error_messages() {
    assert_eq!(
        ProtocolError::InvalidMessageType { expected: s("RECORD"), actual: s("STATE") }.message(),
        "Invalid message type: expected RECORD, got STATE"
    );
    assert_eq!(
        ProtocolError::MissingField(s("stream")).message(),
        "Missing required field in message: stream"
    );
    assert_eq!(ProtocolError::SchemaValidation(s("x")).message(), "Schema validation failed: x");
    assert_eq!(ProtocolError::InvalidCatalog(s("x")).message(), "Invalid catalog: x");
    assert_eq!(
        ProtocolError::SerializationFailed(s("x")).message(),
        "Message serialization failed: x"
    );
}

#[test]
fn messages_with_empty_details_keep_their_prefix() {
    assert_eq!(TapError::FetchFailed(s("")).message(), "Failed to fetch data: ");
    assert_eq!(
        ConfigError::InvalidValue { field: s(""), reason: s("") }.message(),
        "Invalid configuration value for '': "
    );
}

#[test]
fn wrapped_errors_prefix_the_inner_message() {
    assert_eq!(
        DStreamError::Tap(TapError::FetchFailed(s("timeout"))).message(),
        "Tap error: Failed to fetch data: timeout"
    );
    assert_eq!(
        DStreamError::Target(TargetError::WriteFailed(s("x"))).message(),
        "Target error: Failed to write data: x"
    );
    assert_eq!(
        DStreamError::Config(ConfigError::MissingField(s("name"))).message(),
        "Configuration error: Missing required field: name"
    );
    assert_eq!(
        DStreamError::State(StateError::InvalidFormat(s("x"))).message(),
        "State error: Invalid state format: x"
    );
    assert_eq!(
        DStreamError::Protocol(ProtocolError::InvalidCatalog(s("x"))).message(),
        "Protocol error: Invalid catalog: x"
    );
    assert_eq!(DStreamError::Custom(s("plain")).message(), "plain");
}

#[test]
fn outside_errors_keep_their_own_text_after_the_prefix() {
    let io = std::io::Error::new(std::io::ErrorKind::NotFound, "no such file");
    assert_eq!(DStreamError::Io(io).message(), "I/O error: no such file");

    let json = serde_json::from_str::<serde_json::Value>("{").unwrap_err();
    let expected = format!("Serialization error: {}", json);
    assert_eq!(DStreamError::Serde(json).message(), expected);

    let arrow = arrow::error::ArrowError::ComputeError("bad".to_string());
    let expected = format!("Arrow error: {}", arrow);
    assert_eq!(DStreamError::Arrow(arrow).message(), expected);
}

#[test]
fn from_wraps_each_error_in_its_variant() {
    assert!(matches!(
        DStreamError::from(TapError::FetchFailed(s("x"))),
        DStreamError::Tap(TapError::FetchFailed(_))
    ));
    assert!(matches!(
        DStreamError::from(TargetError::WriteFailed(s("x"))),
        DStreamError::Target(TargetError::WriteFailed(_))
    ));
    assert!(matches!(
        DStreamError::from(ConfigError::ParseError(s("x"))),
        DStreamError::Config(ConfigError::ParseError(_))
    ));
    assert!(matches!(
        DStreamError::from(StateError::MergeConflict(s("x"))),
        DStreamError::State(StateError::MergeConflict(_))
    ));
    assert!(matches!(
        DStreamError::from(ProtocolError::MissingField(s("x"))),
        DStreamError::Protocol(ProtocolError::MissingField(_))
    ));
    let io = std::io::Error::new(std::io::ErrorKind::Other, "x");
    assert!(matches!(DStreamError::from(io), DStreamError::Io(_)));
    let json = serde_json::from_str::<serde_json::Value>("{").unwrap_err();
    assert!(matches!(DStreamError::from(json), DStreamError::Serde(_)));
    let arrow = arrow::error::ArrowError::ComputeError("bad".to_string());
    assert!(matches!(DStreamError::from(arrow), DStreamError::Arrow(_)));
}
