use measure_home_env_fs::publish::collection_name;
use measure_home_env_fs::publish::datastore_scope;
use measure_home_env_fs::publish::document_path;
use measure_home_env_fs::publish::PublishError;

#[test]
fn publish_targets_are_the_fixed_configuration() {
    assert_eq!(datastore_scope(), "https://www.googleapis.com/auth/datastore");
    assert_eq!(
        document_path(),
        "projects/home-env/databases/(default)/documents"
    );
    assert_eq!(collection_name(), "measurements");
}

#[test]
fn each_error_kind_has_its_own_diagnostic_line() {
    let cases: Vec<(PublishError, &str)> = vec![
        (
            PublishError::TransportError("connection refused".to_string()),
            "transport error: connection refused",
        ),
        (
            PublishError::MissingCredentialMaterial,
            "missing credential material",
        ),
        (
            PublishError::MissingAuthToken("exchange failed".to_string()),
            "missing auth token: exchange failed",
        ),
        (PublishError::Cancelled, "request cancelled"),
        (
            PublishError::PayloadTooLarge(2048, 1024),
            "payload too large: 2048 exceeds limit 1024",
        ),
        (
            PublishError::RemoteFailure("status 500".to_string()),
            "remote failure: status 500",
        ),
        (
            PublishError::BadRequest("unknown field".to_string()),
            "bad request: unknown field",
        ),
        (
            PublishError::FieldConflict("datetime".to_string()),
            "field conflict: datetime",
        ),
        (
            PublishError::ResponseDecodeError("truncated body".to_string()),
            "response decode error: truncated body",
        ),
    ];
    for (err, expected) in cases {
        assert_eq!(err.diagnostic(), expected);
    }
}
