use nixboost::error::{CacheError, NetworkError, NixBoostError, PackageError, SystemError};

#[test]
fn test_error_codes() {
    let err = NixBoostError::Config("test".to_string());
    assert_eq!(err.code(), "E001");

    let err = NixBoostError::Package(PackageError::NotFound { name: "test".to_string() });
    assert_eq!(err.code(), "E010");
}

#[test]
fn test_error_suggestions() {
    let err = NixBoostError::System(SystemError::NixNotFound);
    assert!(err.suggestion().is_some());
    assert!(err.suggestion().unwrap().contains("PATH"));
}

#[test]
fn test_error_retryable() {
    let timeout_err = NixBoostError::Network(NetworkError::Timeout { timeout_secs: 30 });
    assert!(timeout_err.is_retryable());

    let not_found_err = NixBoostError::Package(PackageError::NotFound { name: "test".to_string() });
    assert!(!not_found_err.is_retryable());
}

#[test]
fn test_error_display() {
    let err = PackageError::NotFound { name: "firefox".to_string() };
    assert_eq!(err.message(), "Package not found: firefox");

    let err = NetworkError::Timeout { timeout_secs: 30 };
    assert_eq!(err.message(), "Request timeout after 30s");
}

#[test]
fn cache_error_messages() {
    let err = NixBoostError::Cache(CacheError::ReadError("locked".to_string()));
    assert_eq!(err.message(), "Cache error: Cache read error: locked");
    assert_eq!(err.code(), "E030");
    assert!(err.is_retryable());
    let full = CacheError::Full { max_size_mb: 512 };
    assert_eq!(full.message(), "Cache full, max size: 512MB");
    let corrupted = NixBoostError::Cache(CacheError::Corrupted("row".to_string()));
    assert!(corrupted.suggestion().is_some());
    assert!(!corrupted.is_retryable());
}

#[test]
fn numbers_in_messages() {
    let err = NetworkError::HttpError { status: 404, message: "Not Found".to_string() };
    assert_eq!(err.message(), "HTTP error 404: Not Found");
    let err = SystemError::GenerationNotFound { generation: 0 };
    assert_eq!(err.message(), "Generation not found: 0");
    let err = NixBoostError::Other("plain".to_string());
    assert_eq!(err.message(), "plain");
    assert_eq!(err.code(), "E999");
    assert!(err.suggestion().is_none());
}

#[test]
fn hints_by_kind() {
    let err = NixBoostError::Config("x".to_string());
    assert_eq!(err.suggestion(), Some("Check your config file at ~/.config/nixboost/config.toml"));
    let err = NixBoostError::Cache(CacheError::WriteError("x".to_string()));
    assert_eq!(err.suggestion(), None);
    assert!(!err.is_retryable());
}
