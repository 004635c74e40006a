//! Error kinds shared by every component, with their numeric codes, their
//! HTTP status codes and their wire names.
use vstd::prelude::*;
use crate::text::{append_decimal, decimal};

verus! {

/// Carries an arbitrary JSON document as optional error details.
#[verifier::external_type_specification]
#[verifier::external_body]
pub struct ExJsonValue(serde_json::Value);

/// Every error kind the gateway reports.
#[derive(Debug, Clone, Copy, PartialEq, Eq, Structural)]
pub enum ErrorCode {
    // Authentication and authorization
    AuthenticationFailed,
    InvalidToken,
    MissingToken,
    MissingTenantId,
    TokenExpired,
    InvalidTokenFormat,
    InvalidBearerFormat,
    InsufficientPermissions,

    // Input validation
    InvalidInput,
    MissingRequiredField,
    InvalidJsonFormat,
    InvalidHeaderFormat,
    InvalidMetricFormat,
    InvalidLogFormat,
    InvalidTimestamp,
    InvalidStepValue,

    // Processing
    ProcessingFailed,
    StreamProcessingError,
    BatchProcessingError,
    StreamDecodingError,
    DataTransformationError,
    BufferOverflowError,

    // Database
    DatabaseError,
    InsertFailed,
    ConnectionFailed,
    QueryFailed,
    DatabaseTimeout,
    BatchInsertFailed,
    DatabaseUnavailable,

    // System
    InternalError,
    ServiceUnavailable,
    ConfigurationError,
    ResourceExhausted,
    RateLimitExceeded,
    ServiceOverloaded,
}

/// The five families of error kinds.
#[derive(Debug, Clone, Copy, PartialEq, Eq, Structural)]
pub enum ErrorCategory {
    Authentication,
    Validation,
    Processing,
    Database,
    System,
}

/// The numeric code of an error kind: the thousands digit names its family.
pub open spec fn code_of(c: ErrorCode) -> u16 {
    match c {
        ErrorCode::AuthenticationFailed => 1001,
        ErrorCode::InvalidToken => 1002,
        ErrorCode::MissingToken => 1003,
        ErrorCode::MissingTenantId => 1004,
        ErrorCode::TokenExpired => 1005,
        ErrorCode::InvalidTokenFormat => 1006,
        ErrorCode::InvalidBearerFormat => 1007,
        ErrorCode::InsufficientPermissions => 1008,
        ErrorCode::InvalidInput => 2001,
        ErrorCode::MissingRequiredField => 2002,
        ErrorCode::InvalidJsonFormat => 2003,
        ErrorCode::InvalidHeaderFormat => 2004,
        ErrorCode::InvalidMetricFormat => 2005,
        ErrorCode::InvalidLogFormat => 2006,
        ErrorCode::InvalidTimestamp => 2007,
        ErrorCode::InvalidStepValue => 2008,
        ErrorCode::ProcessingFailed => 3001,
        ErrorCode::StreamProcessingError => 3002,
        ErrorCode::BatchProcessingError => 3003,
        ErrorCode::StreamDecodingError => 3004,
        ErrorCode::DataTransformationError => 3005,
        ErrorCode::BufferOverflowError => 3006,
        ErrorCode::DatabaseError => 4001,
        ErrorCode::InsertFailed => 4002,
        ErrorCode::ConnectionFailed => 4003,
        ErrorCode::QueryFailed => 4004,
        ErrorCode::DatabaseTimeout => 4005,
        ErrorCode::BatchInsertFailed => 4006,
        ErrorCode::DatabaseUnavailable => 4007,
        ErrorCode::InternalError => 5001,
        ErrorCode::ServiceUnavailable => 5002,
        ErrorCode::ConfigurationError => 5003,
        ErrorCode::ResourceExhausted => 5004,
        ErrorCode::RateLimitExceeded => 5005,
        ErrorCode::ServiceOverloaded => 5006,
    }
}

/// The HTTP status code that an error kind is answered with.
pub open spec fn status_of(c: ErrorCode) -> u16 {
    match c {
        ErrorCode::AuthenticationFailed => 401,
        ErrorCode::InvalidToken => 401,
        ErrorCode::MissingToken => 401,
        ErrorCode::MissingTenantId => 401,
        ErrorCode::TokenExpired => 401,
        ErrorCode::InvalidTokenFormat => 401,
        ErrorCode::InvalidBearerFormat => 401,
        ErrorCode::InsufficientPermissions => 403,
        ErrorCode::InvalidInput => 400,
        ErrorCode::MissingRequiredField => 400,
        ErrorCode::InvalidJsonFormat => 400,
        ErrorCode::InvalidHeaderFormat => 400,
        ErrorCode::InvalidMetricFormat => 400,
        ErrorCode::InvalidLogFormat => 400,
        ErrorCode::InvalidTimestamp => 400,
        ErrorCode::InvalidStepValue => 400,
        ErrorCode::ProcessingFailed => 422,
        ErrorCode::StreamProcessingError => 422,
        ErrorCode::BatchProcessingError => 422,
        ErrorCode::StreamDecodingError => 422,
        ErrorCode::DataTransformationError => 422,
        ErrorCode::BufferOverflowError => 422,
        ErrorCode::DatabaseError => 503,
        ErrorCode::InsertFailed => 503,
        ErrorCode::ConnectionFailed => 503,
        ErrorCode::QueryFailed => 503,
        ErrorCode::DatabaseTimeout => 504,
        ErrorCode::BatchInsertFailed => 503,
        ErrorCode::DatabaseUnavailable => 503,
        ErrorCode::InternalError => 500,
        ErrorCode::ServiceUnavailable => 503,
        ErrorCode::ConfigurationError => 500,
        ErrorCode::ResourceExhausted => 429,
        ErrorCode::RateLimitExceeded => 429,
        ErrorCode::ServiceOverloaded => 503,
    }
}

/// The wire name of an error kind, in upper snake case.
pub open spec fn wire_name_of(c: ErrorCode) -> Seq<char> {
    match c {
        ErrorCode::AuthenticationFailed => "AUTHENTICATION_FAILED"@,
        ErrorCode::InvalidToken => "INVALID_TOKEN"@,
        ErrorCode::MissingToken => "MISSING_TOKEN"@,
        ErrorCode::MissingTenantId => "MISSING_TENANT_ID"@,
        ErrorCode::TokenExpired => "TOKEN_EXPIRED"@,
        ErrorCode::InvalidTokenFormat => "INVALID_TOKEN_FORMAT"@,
        ErrorCode::InvalidBearerFormat => "INVALID_BEARER_FORMAT"@,
        ErrorCode::InsufficientPermissions => "INSUFFICIENT_PERMISSIONS"@,
        ErrorCode::InvalidInput => "INVALID_INPUT"@,
        ErrorCode::MissingRequiredField => "MISSING_REQUIRED_FIELD"@,
        ErrorCode::InvalidJsonFormat => "INVALID_JSON_FORMAT"@,
        ErrorCode::InvalidHeaderFormat => "INVALID_HEADER_FORMAT"@,
        ErrorCode::InvalidMetricFormat => "INVALID_METRIC_FORMAT"@,
        ErrorCode::InvalidLogFormat => "INVALID_LOG_FORMAT"@,
        ErrorCode::InvalidTimestamp => "INVALID_TIMESTAMP"@,
        ErrorCode::InvalidStepValue => "INVALID_STEP_VALUE"@,
        ErrorCode::ProcessingFailed => "PROCESSING_FAILED"@,
        ErrorCode::StreamProcessingError => "STREAM_PROCESSING_ERROR"@,
        ErrorCode::BatchProcessingError => "BATCH_PROCESSING_ERROR"@,
        ErrorCode::StreamDecodingError => "STREAM_DECODING_ERROR"@,
        ErrorCode::DataTransformationError => "DATA_TRANSFORMATION_ERROR"@,
        ErrorCode::BufferOverflowError => "BUFFER_OVERFLOW_ERROR"@,
        ErrorCode::DatabaseError => "DATABASE_ERROR"@,
        ErrorCode::InsertFailed => "INSERT_FAILED"@,
        ErrorCode::ConnectionFailed => "CONNECTION_FAILED"@,
        ErrorCode::QueryFailed => "QUERY_FAILED"@,
        ErrorCode::DatabaseTimeout => "DATABASE_TIMEOUT"@,
        ErrorCode::BatchInsertFailed => "BATCH_INSERT_FAILED"@,
        ErrorCode::DatabaseUnavailable => "DATABASE_UNAVAILABLE"@,
        ErrorCode::InternalError => "INTERNAL_ERROR"@,
        ErrorCode::ServiceUnavailable => "SERVICE_UNAVAILABLE"@,
        ErrorCode::ConfigurationError => "CONFIGURATION_ERROR"@,
        ErrorCode::ResourceExhausted => "RESOURCE_EXHAUSTED"@,
        ErrorCode::RateLimitExceeded => "RATE_LIMIT_EXCEEDED"@,
        ErrorCode::ServiceOverloaded => "SERVICE_OVERLOADED"@,
    }
}

/// The name of an error kind as written in source.
pub open spec fn name_of(c: ErrorCode) -> Seq<char> {
    match c {
        ErrorCode::AuthenticationFailed => "AuthenticationFailed"@,
        ErrorCode::InvalidToken => "InvalidToken"@,
        ErrorCode::MissingToken => "MissingToken"@,
        ErrorCode::MissingTenantId => "MissingTenantId"@,
        ErrorCode::TokenExpired => "TokenExpired"@,
        ErrorCode::InvalidTokenFormat => "InvalidTokenFormat"@,
        ErrorCode::InvalidBearerFormat => "InvalidBearerFormat"@,
        ErrorCode::InsufficientPermissions => "InsufficientPermissions"@,
        ErrorCode::InvalidInput => "InvalidInput"@,
        ErrorCode::MissingRequiredField => "MissingRequiredField"@,
        ErrorCode::InvalidJsonFormat => "InvalidJsonFormat"@,
        ErrorCode::InvalidHeaderFormat => "InvalidHeaderFormat"@,
        ErrorCode::InvalidMetricFormat => "InvalidMetricFormat"@,
        ErrorCode::InvalidLogFormat => "InvalidLogFormat"@,
        ErrorCode::InvalidTimestamp => "InvalidTimestamp"@,
        ErrorCode::InvalidStepValue => "InvalidStepValue"@,
        ErrorCode::ProcessingFailed => "ProcessingFailed"@,
        ErrorCode::StreamProcessingError => "StreamProcessingError"@,
        ErrorCode::BatchProcessingError => "BatchProcessingError"@,
        ErrorCode::StreamDecodingError => "StreamDecodingError"@,
        ErrorCode::DataTransformationError => "DataTransformationError"@,
        ErrorCode::BufferOverflowError => "BufferOverflowError"@,
        ErrorCode::DatabaseError => "DatabaseError"@,
        ErrorCode::InsertFailed => "InsertFailed"@,
        ErrorCode::ConnectionFailed => "ConnectionFailed"@,
        ErrorCode::QueryFailed => "QueryFailed"@,
        ErrorCode::DatabaseTimeout => "DatabaseTimeout"@,
        ErrorCode::BatchInsertFailed => "BatchInsertFailed"@,
        ErrorCode::DatabaseUnavailable => "DatabaseUnavailable"@,
        ErrorCode::InternalError => "InternalError"@,
        ErrorCode::ServiceUnavailable => "ServiceUnavailable"@,
        ErrorCode::ConfigurationError => "ConfigurationError"@,
        ErrorCode::ResourceExhausted => "ResourceExhausted"@,
        ErrorCode::RateLimitExceeded => "RateLimitExceeded"@,
        ErrorCode::ServiceOverloaded => "ServiceOverloaded"@,
    }
}

/// The family of an error kind, read off its numeric code.
pub open spec fn category_of(c: ErrorCode) -> ErrorCategory {
    let n = code_of(c);
    if n < 2000 {
        ErrorCategory::Authentication
    } else if n < 3000 {
        ErrorCategory::Validation
    } else if n < 4000 {
        ErrorCategory::Processing
    } else if n < 5000 {
        ErrorCategory::Database
    } else {
        ErrorCategory::System
    }
}

/// The status codes that each family may be answered with.
pub open spec fn allowed_status(cat: ErrorCategory, status: u16) -> bool {
    match cat {
        ErrorCategory::Authentication => status == 401 || status == 403,
        ErrorCategory::Validation => status == 400,
        ErrorCategory::Processing => status == 422,
        ErrorCategory::Database => status == 503 || status == 504,
        ErrorCategory::System => status == 500 || status == 503 || status == 429,
    }
}

/// The human-readable family label for a numeric code.
pub open spec fn type_label_of(n: u16) -> Seq<char> {
    if 1001 <= n <= 1999 {
        "Authentication Error"@
    } else if 2001 <= n <= 2999 {
        "Validation Error"@
    } else if 3001 <= n <= 3999 {
        "Processing Error"@
    } else if 4001 <= n <= 4999 {
        "Database Error"@
    } else if 5001 <= n <= 5999 {
        "System Error"@
    } else {
        "Unknown Error"@
    }
}

/// Every error kind is answered with exactly one status code, and that code
/// is one that its family allows.
pub proof fn lemma_status_within_family(c: ErrorCode)
    ensures
        allowed_status(category_of(c), status_of(c)),
        1001 <= code_of(c) <= 5999,
{
}

/// Two error kinds with the same numeric code are the same kind.
pub proof fn lemma_code_injective(a: ErrorCode, b: ErrorCode)
    ensures
        code_of(a) == code_of(b) ==> a == b,
{
}

impl ErrorCode {
    /// The numeric code of this kind.
    pub fn code(&self) -> (r: u16)
        ensures
            r == code_of(*self),
    {
        match self {
            ErrorCode::AuthenticationFailed => 1001,
            ErrorCode::InvalidToken => 1002,
            ErrorCode::MissingToken => 1003,
            ErrorCode::MissingTenantId => 1004,
            ErrorCode::TokenExpired => 1005,
            ErrorCode::InvalidTokenFormat => 1006,
            ErrorCode::InvalidBearerFormat => 1007,
            ErrorCode::InsufficientPermissions => 1008,
            ErrorCode::InvalidInput => 2001,
            ErrorCode::MissingRequiredField => 2002,
            ErrorCode::InvalidJsonFormat => 2003,
            ErrorCode::InvalidHeaderFormat => 2004,
            ErrorCode::InvalidMetricFormat => 2005,
            ErrorCode::InvalidLogFormat => 2006,
            ErrorCode::InvalidTimestamp => 2007,
            ErrorCode::InvalidStepValue => 2008,
            ErrorCode::ProcessingFailed => 3001,
            ErrorCode::StreamProcessingError => 3002,
            ErrorCode::BatchProcessingError => 3003,
            ErrorCode::StreamDecodingError => 3004,
            ErrorCode::DataTransformationError => 3005,
            ErrorCode::BufferOverflowError => 3006,
            ErrorCode::DatabaseError => 4001,
            ErrorCode::InsertFailed => 4002,
            ErrorCode::ConnectionFailed => 4003,
            ErrorCode::QueryFailed => 4004,
            ErrorCode::DatabaseTimeout => 4005,
            ErrorCode::BatchInsertFailed => 4006,
            ErrorCode::DatabaseUnavailable => 4007,
            ErrorCode::InternalError => 5001,
            ErrorCode::ServiceUnavailable => 5002,
            ErrorCode::ConfigurationError => 5003,
            ErrorCode::ResourceExhausted => 5004,
            ErrorCode::RateLimitExceeded => 5005,
            ErrorCode::ServiceOverloaded => 5006,
        }
    }

    /// The HTTP status code this kind is answered with.
    pub fn status_code(&self) -> (r: u16)
        ensures
            r == status_of(*self),
            allowed_status(category_of(*self), r),
    {
        proof {
            lemma_status_within_family(*self);
        }
        match self {
            ErrorCode::AuthenticationFailed => 401,
            ErrorCode::InvalidToken => 401,
            ErrorCode::MissingToken => 401,
            ErrorCode::MissingTenantId => 401,
            ErrorCode::TokenExpired => 401,
            ErrorCode::InvalidTokenFormat => 401,
            ErrorCode::InvalidBearerFormat => 401,
            ErrorCode::InsufficientPermissions => 403,
            ErrorCode::InvalidInput => 400,
            ErrorCode::MissingRequiredField => 400,
            ErrorCode::InvalidJsonFormat => 400,
            ErrorCode::InvalidHeaderFormat => 400,
            ErrorCode::InvalidMetricFormat => 400,
            ErrorCode::InvalidLogFormat => 400,
            ErrorCode::InvalidTimestamp => 400,
            ErrorCode::InvalidStepValue => 400,
            ErrorCode::ProcessingFailed => 422,
            ErrorCode::StreamProcessingError => 422,
            ErrorCode::BatchProcessingError => 422,
            ErrorCode::StreamDecodingError => 422,
            ErrorCode::DataTransformationError => 422,
            ErrorCode::BufferOverflowError => 422,
            ErrorCode::DatabaseError => 503,
            ErrorCode::InsertFailed => 503,
            ErrorCode::ConnectionFailed => 503,
            ErrorCode::QueryFailed => 503,
            ErrorCode::DatabaseTimeout => 504,
            ErrorCode::BatchInsertFailed => 503,
            ErrorCode::DatabaseUnavailable => 503,
            ErrorCode::InternalError => 500,
            ErrorCode::ServiceUnavailable => 503,
            ErrorCode::ConfigurationError => 500,
            ErrorCode::ResourceExhausted => 429,
            ErrorCode::RateLimitExceeded => 429,
            ErrorCode::ServiceOverloaded => 503,
        }
    }

    /// The family label of this kind, derived from its numeric code.
    pub fn error_type(&self) -> (r: &'static str)
        ensures
            r@ == type_label_of(code_of(*self)),
    {
        let code = self.code();
        if 1001 <= code && code <= 1999 {
            "Authentication Error"
        } else if 2001 <= code && code <= 2999 {
            "Validation Error"
        } else if 3001 <= code && code <= 3999 {
            "Processing Error"
        } else if 4001 <= code && code <= 4999 {
            "Database Error"
        } else if 5001 <= code && code <= 5999 {
            "System Error"
        } else {
            "Unknown Error"
        }
    }

    /// The name this kind carries in an error body.
    pub fn wire_name(&self) -> (r: &'static str)
        ensures
            r@ == wire_name_of(*self),
    {
        match self {
            ErrorCode::AuthenticationFailed => "AUTHENTICATION_FAILED",
            ErrorCode::InvalidToken => "INVALID_TOKEN",
            ErrorCode::MissingToken => "MISSING_TOKEN",
            ErrorCode::MissingTenantId => "MISSING_TENANT_ID",
            ErrorCode::TokenExpired => "TOKEN_EXPIRED",
            ErrorCode::InvalidTokenFormat => "INVALID_TOKEN_FORMAT",
            ErrorCode::InvalidBearerFormat => "INVALID_BEARER_FORMAT",
            ErrorCode::InsufficientPermissions => "INSUFFICIENT_PERMISSIONS",
            ErrorCode::InvalidInput => "INVALID_INPUT",
            ErrorCode::MissingRequiredField => "MISSING_REQUIRED_FIELD",
            ErrorCode::InvalidJsonFormat => "INVALID_JSON_FORMAT",
            ErrorCode::InvalidHeaderFormat => "INVALID_HEADER_FORMAT",
            ErrorCode::InvalidMetricFormat => "INVALID_METRIC_FORMAT",
            ErrorCode::InvalidLogFormat => "INVALID_LOG_FORMAT",
            ErrorCode::InvalidTimestamp => "INVALID_TIMESTAMP",
            ErrorCode::InvalidStepValue => "INVALID_STEP_VALUE",
            ErrorCode::ProcessingFailed => "PROCESSING_FAILED",
            ErrorCode::StreamProcessingError => "STREAM_PROCESSING_ERROR",
            ErrorCode::BatchProcessingError => "BATCH_PROCESSING_ERROR",
            ErrorCode::StreamDecodingError => "STREAM_DECODING_ERROR",
            ErrorCode::DataTransformationError => "DATA_TRANSFORMATION_ERROR",
            ErrorCode::BufferOverflowError => "BUFFER_OVERFLOW_ERROR",
            ErrorCode::DatabaseError => "DATABASE_ERROR",
            ErrorCode::InsertFailed => "INSERT_FAILED",
            ErrorCode::ConnectionFailed => "CONNECTION_FAILED",
            ErrorCode::QueryFailed => "QUERY_FAILED",
            ErrorCode::DatabaseTimeout => "DATABASE_TIMEOUT",
            ErrorCode::BatchInsertFailed => "BATCH_INSERT_FAILED",
            ErrorCode::DatabaseUnavailable => "DATABASE_UNAVAILABLE",
            ErrorCode::InternalError => "INTERNAL_ERROR",
            ErrorCode::ServiceUnavailable => "SERVICE_UNAVAILABLE",
            ErrorCode::ConfigurationError => "CONFIGURATION_ERROR",
            ErrorCode::ResourceExhausted => "RESOURCE_EXHAUSTED",
            ErrorCode::RateLimitExceeded => "RATE_LIMIT_EXCEEDED",
            ErrorCode::ServiceOverloaded => "SERVICE_OVERLOADED",
        }
    }

    /// The name of this kind as written in source.
    pub fn name(&self) -> (r: &'static str)
        ensures
            r@ == name_of(*self),
    {
        match self {
            ErrorCode::AuthenticationFailed => "AuthenticationFailed",
            ErrorCode::InvalidToken => "InvalidToken",
            ErrorCode::MissingToken => "MissingToken",
            ErrorCode::MissingTenantId => "MissingTenantId",
            ErrorCode::TokenExpired => "TokenExpired",
            ErrorCode::InvalidTokenFormat => "InvalidTokenFormat",
            ErrorCode::InvalidBearerFormat => "InvalidBearerFormat",
            ErrorCode::InsufficientPermissions => "InsufficientPermissions",
            ErrorCode::InvalidInput => "InvalidInput",
            ErrorCode::MissingRequiredField => "MissingRequiredField",
            ErrorCode::InvalidJsonFormat => "InvalidJsonFormat",
            ErrorCode::InvalidHeaderFormat => "InvalidHeaderFormat",
            ErrorCode::InvalidMetricFormat => "InvalidMetricFormat",
            ErrorCode::InvalidLogFormat => "InvalidLogFormat",
            ErrorCode::InvalidTimestamp => "InvalidTimestamp",
            ErrorCode::InvalidStepValue => "InvalidStepValue",
            ErrorCode::ProcessingFailed => "ProcessingFailed",
            ErrorCode::StreamProcessingError => "StreamProcessingError",
            ErrorCode::BatchProcessingError => "BatchProcessingError",
            ErrorCode::StreamDecodingError => "StreamDecodingError",
            ErrorCode::DataTransformationError => "DataTransformationError",
            ErrorCode::BufferOverflowError => "BufferOverflowError",
            ErrorCode::DatabaseError => "DatabaseError",
            ErrorCode::InsertFailed => "InsertFailed",
            ErrorCode::ConnectionFailed => "ConnectionFailed",
            ErrorCode::QueryFailed => "QueryFailed",
            ErrorCode::DatabaseTimeout => "DatabaseTimeout",
            ErrorCode::BatchInsertFailed => "BatchInsertFailed",
            ErrorCode::DatabaseUnavailable => "DatabaseUnavailable",
            ErrorCode::InternalError => "InternalError",
            ErrorCode::ServiceUnavailable => "ServiceUnavailable",
            ErrorCode::ConfigurationError => "ConfigurationError",
            ErrorCode::ResourceExhausted => "ResourceExhausted",
            ErrorCode::RateLimitExceeded => "RateLimitExceeded",
            ErrorCode::ServiceOverloaded => "ServiceOverloaded",
        }
    }

    /// The kind that stands for a bare HTTP status code.
    pub fn from_status(status: u16) -> (r: ErrorCode)
        ensures
            r == (if status == 401 {
                ErrorCode::AuthenticationFailed
            } else if status == 403 {
                ErrorCode::InsufficientPermissions
            } else if status == 400 {
                ErrorCode::InvalidInput
            } else if status == 422 {
                ErrorCode::ProcessingFailed
            } else if status == 429 {
                ErrorCode::RateLimitExceeded
            } else if status == 503 {
                ErrorCode::ServiceUnavailable
            } else if status == 504 {
                ErrorCode::DatabaseTimeout
            } else {
                ErrorCode::InternalError
            }),
    {
        match status {
            401 => ErrorCode::AuthenticationFailed,
            403 => ErrorCode::InsufficientPermissions,
            400 => ErrorCode::InvalidInput,
            422 => ErrorCode::ProcessingFailed,
            429 => ErrorCode::RateLimitExceeded,
            503 => ErrorCode::ServiceUnavailable,
            504 => ErrorCode::DatabaseTimeout,
            _ => ErrorCode::InternalError,
        }
    }
}

/// An error kind with a message and optional structured details.
#[derive(Debug)]
pub struct AppError {
    pub code: ErrorCode,
    pub message: String,
    pub details: Option<serde_json::Value>,
}

impl AppError {
    /// An error of kind `code` with `message` and no details.
    pub fn new(code: ErrorCode, message: String) -> (r: AppError)
        ensures
            r.code == code,
            r.message@ == message@,
            r.details is None,
    {
        AppError { code, message, details: None }
    }

    /// An error of kind `code` with `message` and the given details.
    pub fn with_details(code: ErrorCode, message: String, details: serde_json::Value) -> (r:
        AppError)
        ensures
            r.code == code,
            r.message@ == message@,
            r.details == Some(details),
    {
        AppError { code, message, details: Some(details) }
    }
}

/// The one-line description of an error: its kind's name, numeric code and
/// family, then its message.
pub open spec fn description_of(e: AppError) -> Seq<char> {
    name_of(e.code) + " ("@ + decimal(code_of(e.code) as nat) + " - "@ + type_label_of(
        code_of(e.code),
    ) + "): "@ + e.message@
}

impl AppError {
    /// `Name (code - family): message`.
    pub fn describe(&self) -> (r: String)
        ensures
            r@ == description_of(*self),
    {
        let mut text = String::from_str(self.code.name());
        text.append(" (");
        append_decimal(&mut text, self.code.code() as u64);
        text.append(" - ");
        text.append(self.code.error_type());
        text.append("): ");
        text.append(self.message.as_str());
        text
    }
}

/// The message of the error for a missing or unreadable header.
pub open spec fn missing_header_message(name: Seq<char>) -> Seq<char> {
    "Missing required header: "@ + name
}

/// The error for a required header that is absent or unreadable.
pub fn missing_header_error(header_name: &str) -> (r: AppError)
    ensures
        r.code == ErrorCode::InvalidHeaderFormat,
        r.message@ == missing_header_message(header_name@),
        r.details is None,
{
    let mut message = String::from_str("Missing required header: ");
    message.append(header_name);
    AppError::new(ErrorCode::InvalidHeaderFormat, message)
}

/// The error for a token that names no valid key.
pub fn invalid_auth_error(message: String) -> (r: AppError)
    ensures
        r.code == ErrorCode::InvalidToken,
        r.message@ == message@,
        r.details is None,
{
    AppError::new(ErrorCode::InvalidToken, message)
}

} // verus!
