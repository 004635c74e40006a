use mlop_ingest::error::{invalid_auth_error, missing_header_error, AppError, ErrorCode};

#[test]
fn status_code_per_family() {
    assert_eq!(ErrorCode::InvalidToken.status_code(), 401);
    assert_eq!(ErrorCode::InsufficientPermissions.status_code(), 403);
    assert_eq!(ErrorCode::InvalidJsonFormat.status_code(), 400);
    assert_eq!(ErrorCode::StreamProcessingError.status_code(), 422);
    assert_eq!(ErrorCode::DatabaseError.status_code(), 503);
    assert_eq!(ErrorCode::DatabaseTimeout.status_code(), 504);
    assert_eq!(ErrorCode::InternalError.status_code(), 500);
    assert_eq!(ErrorCode::ConfigurationError.status_code(), 500);
    assert_eq!(ErrorCode::RateLimitExceeded.status_code(), 429);
    assert_eq!(ErrorCode::ServiceOverloaded.status_code(), 503);
}

#[test]
fn codes_and_families() {
    assert_eq!(ErrorCode::AuthenticationFailed.code(), 1001);
    assert_eq!(ErrorCode::InvalidStepValue.code(), 2008);
    assert_eq!(ErrorCode::BufferOverflowError.code(), 3006);
    assert_eq!(ErrorCode::DatabaseUnavailable.code(), 4007);
    assert_eq!(ErrorCode::ServiceOverloaded.code(), 5006);
    assert_eq!(ErrorCode::TokenExpired.error_type(), "Authentication Error");
    assert_eq!(ErrorCode::InvalidInput.error_type(), "Validation Error");
    assert_eq!(ErrorCode::ProcessingFailed.error_type(), "Processing Error");
    assert_eq!(ErrorCode::QueryFailed.error_type(), "Database Error");
    assert_eq!(ErrorCode::ResourceExhausted.error_type(), "System Error");
    assert_eq!(ErrorCode::MissingTenantId.wire_name(), "MISSING_TENANT_ID");
}

#[test]
fn status_to_kind() {
    assert_eq!(ErrorCode::from_status(401), ErrorCode::AuthenticationFailed);
    assert_eq!(ErrorCode::from_status(504), ErrorCode::DatabaseTimeout);
    assert_eq!(ErrorCode::from_status(418), ErrorCode::InternalError);
}

#[test]
fn error_constructors() {
    let e = missing_header_error("X-Run-Id");
    assert_eq!(e.code, ErrorCode::InvalidHeaderFormat);
    assert_eq!(e.message, "Missing required header: X-Run-Id");
    assert!(e.details.is_none());
    let e = invalid_auth_error("nope".to_string());
    assert_eq!(e.code, ErrorCode::InvalidToken);
    let e = AppError::with_details(ErrorCode::InvalidInput, "bad".to_string(), serde_json::Value::Bool(true));
    assert_eq!(e.details, Some(serde_json::Value::Bool(true)));
}
