use mlop_ingest::auth::{bearer_token, hash_api_key, hex_lower, tenant_for_key, ApiKey, ApiKeyLookup};
use mlop_ingest::error::ErrorCode;

#[test]
fn auth_prefix_passthrough() {
    assert_eq!(hash_api_key("mlpi_abcdef"), "mlpi_abcdef");
    assert_eq!(hash_api_key("raw"), "d7439bee24773bcbfa2d0a97947ee36227b10d1022b1a55847e928965bb6bfde");
}

#[test]
fn hashing_branch_needs_the_whole_prefix() {
    assert_eq!(hash_api_key("mlpi"), "a755d3b81c4970555b478d35deaf413abda4eb5e158b17b2aa56f9ddd2603fad");
    assert_eq!(hash_api_key(""), "e3b0c44298fc1c149afbf4c8996fb92427ae41e4649b934ca495991b7852b855");
}

#[test]
fn hex_is_lowercase_two_digits_per_byte() {
    assert_eq!(hex_lower(&[0x00, 0x0f, 0xa0, 0xff]), "000fa0ff");
    assert_eq!(hex_lower(&[]), "");
}

#[test]
fn bearer_token_is_extracted() {
    assert_eq!(bearer_token(Some(b"Bearer abc-DEF_1.2")).unwrap(), "abc-DEF_1.2");
    assert_eq!(bearer_token(Some(b"Bearer   tok \t")).unwrap(), "tok");
}

#[test]
fn bearer_token_errors() {
    let err = bearer_token(None).unwrap_err();
    assert_eq!(err.code, ErrorCode::MissingToken);
    assert_eq!(err.code.status_code(), 401);
    let err = bearer_token(Some(b"Bearer abc\x01")).unwrap_err();
    assert_eq!(err.code, ErrorCode::InvalidTokenFormat);
    assert_eq!(err.message, "Authorization header contains invalid characters");
    let err = bearer_token(Some(b"bearer abc")).unwrap_err();
    assert_eq!(err.code, ErrorCode::InvalidBearerFormat);
    let err = bearer_token(Some(b"Bearer    ")).unwrap_err();
    assert_eq!(err.code, ErrorCode::InvalidToken);
    assert_eq!(err.message, "Bearer token cannot be empty");
    let err = bearer_token(Some(b"Bearer a+b")).unwrap_err();
    assert_eq!(err.code, ErrorCode::InvalidTokenFormat);
    assert_eq!(err.message, "Bearer token contains invalid characters");
}

fn key(expires_at: Option<i64>) -> ApiKey {
    ApiKey {
        id: "k1".to_string(),
        organization_id: "org".to_string(),
        key: "hash".to_string(),
        expires_at,
        last_used: None,
        created_at: 0,
    }
}

#[test]
fn tenant_lookup_outcomes() {
    assert_eq!(tenant_for_key(ApiKeyLookup::Found(key(None)), 100).unwrap(), "org");
    assert_eq!(tenant_for_key(ApiKeyLookup::Found(key(Some(100))), 100).unwrap(), "org");
    let err = tenant_for_key(ApiKeyLookup::Found(key(Some(99))), 100).unwrap_err();
    assert_eq!(err.code, ErrorCode::InvalidToken);
    assert_eq!(err.message, "API key has expired");
    let err = tenant_for_key(ApiKeyLookup::NotFound, 100).unwrap_err();
    assert_eq!(err.code, ErrorCode::InvalidToken);
    assert_eq!(err.message, "Invalid API key");
    let err = tenant_for_key(ApiKeyLookup::Failed, 100).unwrap_err();
    assert_eq!(err.code, ErrorCode::DatabaseError);
    assert_eq!(err.code.status_code(), 503);
}
