use std::io;
use twyg::TwygError;

#[test]
fn test_error_display() {
    let err = TwygError::ConfigError("test error".to_string());
    assert_eq!(err.message(), "configuration error: test error");
}

#[test]
fn test_file_error() {
    let io_err = io::Error::new(io::ErrorKind::NotFound, "file not found");
    let err = TwygError::FileError(io_err.to_string());
    assert!(err.message().contains("failed to open log file"));
}

#[test]
fn test_invalid_time_format() {
    let io_err = io::Error::new(io::ErrorKind::InvalidInput, "bad format");
    let err = TwygError::InvalidTimeFormat { format: "%Z".to_string(), source: io_err.to_string() };
    assert!(err.message().contains("invalid time format"));
    assert!(err.message().contains("%Z"));
}

#[test]
fn test_init_error_message() {
    let err = TwygError::InitError("already set".to_string());
    assert_eq!(err.message(), "failed to initialize logger: already set");
}

#[test]
fn test_file_error_message_exact() {
    let err = TwygError::FileError("file not found".to_string());
    assert_eq!(err.message(), "failed to open log file: file not found");
}

#[test]
fn test_invalid_time_format_message_exact() {
    let err = TwygError::InvalidTimeFormat {
        format: "%Q".to_string(),
        source: "bad format".to_string(),
    };
    assert_eq!(err.message(), "invalid time format '%Q': bad format");
}
