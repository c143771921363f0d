use portfolio_core::auth::{bearer_token, AuthConfig, AuthError};
use portfolio_core::error::ApiError;
use portfolio_core::models::Certificate;
use portfolio_core::text::{join_strings, split_string, trim_string, Separator};

fn config() -> AuthConfig {
    AuthConfig::from_env(
        "admin@example.com".to_string(),
        "hunter2-secret".to_string(),
        Some("unit-test-signing-secret".to_string()),
    )
    .expect("hashing the admin password should succeed")
}

#[test]
fn test_authenticate_and_verify_roundtrip() {
    let cfg = config();
    let token = cfg.authenticate("admin@example.com", "hunter2-secret").expect("login succeeds");
    let claims = cfg.verify_token(&token).expect("freshly issued token verifies");
    assert_eq!(claims.sub, "admin@example.com");
    assert_eq!(claims.exp - claims.iat, 24 * 3600);
    assert!(cfg.is_admin(&claims));
}

#[test]
fn test_authenticate_rejects_wrong_email() {
    let cfg = config();
    let r = cfg.authenticate("intruder@example.com", "hunter2-secret");
    assert!(matches!(r, Err(AuthError::InvalidCredentials)));
}

#[test]
fn test_authenticate_rejects_wrong_password() {
    let cfg = config();
    let r = cfg.authenticate("admin@example.com", "wrong-password");
    assert!(matches!(r, Err(AuthError::InvalidCredentials)));
}

#[test]
fn test_verify_rejects_foreign_token() {
    let cfg = config();
    let token = cfg.authenticate("admin@example.com", "hunter2-secret").unwrap();
    let other = AuthConfig::from_env(
        "admin@example.com".to_string(),
        "hunter2-secret".to_string(),
        Some("a-different-secret".to_string()),
    )
    .unwrap();
    assert!(matches!(other.verify_token(&token), Err(AuthError::InvalidToken)));
    assert!(matches!(cfg.verify_token("not.a.token"), Err(AuthError::InvalidToken)));
}

#[test]
fn test_is_admin_checks_subject() {
    let cfg = config();
    let token = cfg.authenticate("admin@example.com", "hunter2-secret").unwrap();
    let mut claims = cfg.verify_token(&token).unwrap();
    claims.sub = "someone@else.org".to_string();
    assert!(!cfg.is_admin(&claims));
}

#[test]
fn test_bearer_token_parsing() {
    assert_eq!(bearer_token("Bearer abc.def.ghi"), Some("abc.def.ghi".to_string()));
    assert_eq!(bearer_token("Bearer "), Some("".to_string()));
    assert_eq!(bearer_token("Token abc"), None);
    assert_eq!(bearer_token("Bear"), None);
    assert_eq!(bearer_token("bearer abc"), None);
}

#[test]
fn test_auth_error_status_codes() {
    assert_eq!(AuthError::InvalidCredentials.status_code(), 401);
    assert_eq!(AuthError::InvalidToken.status_code(), 401);
    assert_eq!(AuthError::TokenGenerationFailed.status_code(), 500);
    assert_eq!(AuthError::Unauthorized.status_code(), 403);
    assert_eq!(AuthError::InvalidCredentials.message(), "Invalid email or password");
}

#[test]
fn test_api_error_status_codes() {
    let msg = || "m".to_string();
    assert_eq!(ApiError::BadRequest(msg()).status_code(), 400);
    assert_eq!(ApiError::Unauthorized(msg()).status_code(), 401);
    assert_eq!(ApiError::Forbidden(msg()).status_code(), 403);
    assert_eq!(ApiError::NotFound(msg()).status_code(), 404);
    assert_eq!(ApiError::Conflict(msg()).status_code(), 409);
    assert_eq!(ApiError::ValidationError(msg()).status_code(), 422);
    assert_eq!(ApiError::InternalError(msg()).status_code(), 500);
    assert_eq!(ApiError::ServiceUnavailable(msg()).status_code(), 503);
}

#[test]
fn test_api_error_types_and_messages() {
    assert_eq!(ApiError::BadRequest("x".to_string()).error_type(), "bad_request");
    assert_eq!(ApiError::Unauthorized("x".to_string()).error_type(), "unauthorized");
    assert_eq!(ApiError::Forbidden("x".to_string()).error_type(), "forbidden");
    assert_eq!(ApiError::NotFound("x".to_string()).error_type(), "not_found");
    assert_eq!(ApiError::Conflict("x".to_string()).error_type(), "conflict");
    assert_eq!(ApiError::ValidationError("x".to_string()).error_type(), "validation_error");
    assert_eq!(ApiError::InternalError("x".to_string()).error_type(), "internal_error");
    assert_eq!(ApiError::ServiceUnavailable("x".to_string()).error_type(), "service_unavailable");
    assert_eq!(
        ApiError::NotFound("project missing".to_string()).message(),
        "Not found: project missing"
    );
    assert_eq!(
        ApiError::InternalError("Database operation failed".to_string()).message(),
        "Internal error: Database operation failed"
    );
}

#[test]
fn test_generate_slug() {
    assert_eq!(Certificate::generate_slug("AI Certificate"), "ai-certificate");
    assert_eq!(Certificate::generate_slug("  Rust & WebAssembly!  "), "rust-webassembly");
    assert_eq!(Certificate::generate_slug("Data--Science 101"), "data-science-101");
    assert_eq!(Certificate::generate_slug("***"), "");
}

#[test]
fn test_trim_and_split_helpers() {
    assert_eq!(trim_string("  padded value \t"), "padded value");
    assert_eq!(trim_string("   "), "");
    assert_eq!(split_string("a,b,,c", Separator::Comma), vec!["a", "b", "", "c"]);
    assert_eq!(split_string("", Separator::Comma), vec![""]);
    let parts = vec!["x".to_string(), "y".to_string(), "z".to_string()];
    assert_eq!(join_strings(&parts, " | "), "x | y | z");
    assert_eq!(join_strings(&vec![], " | "), "");
}
