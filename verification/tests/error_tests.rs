use liga_muertos_back::error::ApiError;
use liga_muertos_back::error::ApiErrorResponse;
use liga_muertos_back::error::ApiResultExt;
use liga_muertos_back::error::ErrorDetails;
use liga_muertos_back::logging::LogSeverity;
use liga_muertos_back::validation::ValidationError;

#[test]
fn test_api_error_status_codes() {
    assert_eq!(ApiError::validation("test").status_code(), 400);
    assert_eq!(ApiError::not_found("user", "123").status_code(), 404);
    assert_eq!(ApiError::authentication("invalid token").status_code(), 401);
    assert_eq!(
        ApiError::authorization("insufficient permissions").status_code(),
        403
    );
}

#[test]
fn test_api_error_codes() {
    assert_eq!(ApiError::validation("test").error_code(), "VALIDATION_ERROR");
    assert_eq!(ApiError::not_found("user", "123").error_code(), "NOT_FOUND");
    assert_eq!(ApiError::internal("test").error_code(), "INTERNAL_SERVER_ERROR");
}

#[test]
fn test_api_error_response_creation() {
    let response = ApiErrorResponse::new("Test error".to_string(), "TEST_ERROR".to_string());

    assert!(!response.success);
    assert_eq!(response.message, "Test error");
    assert_eq!(response.error_code, "TEST_ERROR");
    assert!(response.details.is_none());
    assert!(response.request_id.is_none());
}

#[test]
fn test_error_details() {
    let error = ApiError::NotFound {
        resource: "tournament".to_string(),
        id: "123".to_string(),
    };

    let details = error.details().unwrap();
    match details {
        ErrorDetails::Resource { resource, id } => {
            assert_eq!(resource, "tournament");
            assert_eq!(id, "123");
        },
        _ => panic!("expected resource details"),
    }
}

#[test]
fn test_should_log_as_error() {
    assert!(
        ApiError::Database {
            message: "test".to_string()
        }
        .should_log_as_error()
    );
    assert!(
        ApiError::Internal {
            message: "test".to_string()
        }
        .should_log_as_error()
    );
    assert!(
        !ApiError::Validation {
            message: "test".to_string(),
            field: None
        }
        .should_log_as_error()
    );
    assert!(
        !ApiError::NotFound {
            resource: "test".to_string(),
            id: "123".to_string()
        }
        .should_log_as_error()
    );
}

fn one_of_each() -> Vec<ApiError> {
    vec![
        ApiError::Database { message: "m".to_string() },
        ApiError::Validation { message: "m".to_string(), field: Some("f".to_string()) },
        ApiError::Authentication { message: "m".to_string() },
        ApiError::Authorization { message: "m".to_string() },
        ApiError::NotFound { resource: "r".to_string(), id: "i".to_string() },
        ApiError::Conflict { message: "m".to_string() },
        ApiError::RateLimit { message: "m".to_string() },
        ApiError::ExternalService { service: "s".to_string(), message: "m".to_string() },
        ApiError::Internal { message: "m".to_string() },
        ApiError::BadRequest { message: "m".to_string() },
        ApiError::JsonParsing { message: "m".to_string() },
        ApiError::Tournament { message: "m".to_string(), tournament_id: Some("t".to_string()) },
        ApiError::User { message: "m".to_string(), user_id: Some("u".to_string()) },
    ]
}

#[test]
fn test_status_code_table() {
    let expected: Vec<u16> = vec![500, 400, 401, 403, 404, 409, 429, 503, 500, 400, 400, 400, 400];
    let errors = one_of_each();
    for (error, status) in errors.iter().zip(expected.iter()) {
        assert_eq!(error.status_code(), *status);
    }
}

#[test]
fn test_error_code_table() {
    let expected = vec![
        "DATABASE_ERROR",
        "VALIDATION_ERROR",
        "AUTHENTICATION_ERROR",
        "AUTHORIZATION_ERROR",
        "NOT_FOUND",
        "CONFLICT",
        "RATE_LIMIT_EXCEEDED",
        "EXTERNAL_SERVICE_ERROR",
        "INTERNAL_SERVER_ERROR",
        "BAD_REQUEST",
        "JSON_PARSING_ERROR",
        "TOURNAMENT_ERROR",
        "USER_ERROR",
    ];
    let errors = one_of_each();
    for (error, code) in errors.iter().zip(expected.iter()) {
        assert_eq!(error.error_code(), *code);
    }
}

#[test]
fn test_should_log_exhaustive() {
    let expected = vec![
        true, false, false, false, false, false, false, true, true, false, false, false, false,
    ];
    let errors = one_of_each();
    for (error, should) in errors.iter().zip(expected.iter()) {
        assert_eq!(error.should_log_as_error(), *should);
    }
}

#[test]
fn test_codes_ignore_payload() {
    let a = ApiError::Database { message: "one text".to_string() };
    let b = ApiError::Database { message: "a completely different text".to_string() };
    assert_eq!(a.status_code(), b.status_code());
    assert_eq!(a.error_code(), b.error_code());
}

#[test]
fn test_message_rendering() {
    assert_eq!(
        ApiError::Database { message: "boom".to_string() }.message(),
        "Database error: boom"
    );
    assert_eq!(
        ApiError::NotFound { resource: "user".to_string(), id: "7".to_string() }.message(),
        "Resource not found: user with id 7"
    );
    assert_eq!(
        ApiError::ExternalService { service: "mail".to_string(), message: "down".to_string() }
            .message(),
        "External service error: mail - down"
    );
}

#[test]
fn test_db_error_classification() {
    let conflict = ApiError::from_db_error_text("duplicate key");
    assert_eq!(conflict.error_code(), "CONFLICT");
    assert_eq!(conflict.message(), "Conflict: Resource already exists");

    let database = ApiError::from_db_error_text("connection timeout");
    assert_eq!(database.error_code(), "DATABASE_ERROR");
    assert_eq!(database.message(), "Database error: Database connection error");

    let other = ApiError::from_db_error_text("some obscure failure");
    assert_eq!(other.error_code(), "DATABASE_ERROR");
    assert_eq!(other.message(), "Database error: some obscure failure");
}

#[test]
fn test_db_error_classification_order() {
    // "Connection"/"timeout" take precedence over "not found".
    let database = ApiError::from_db_error_text("Connection not found");
    assert_eq!(database.error_code(), "DATABASE_ERROR");

    let missing = ApiError::from_db_error_text("record was not found");
    assert_eq!(missing.error_code(), "NOT_FOUND");
    match missing.details().unwrap() {
        ErrorDetails::Resource { resource, id } => {
            assert_eq!(resource, "record");
            assert_eq!(id, "unknown");
        },
        _ => panic!("expected resource details"),
    }
}

#[test]
fn test_conversion_idempotent() {
    let text = "duplicate key value violates unique constraint";
    let first = ApiError::from_db_error_text(text);
    let second = ApiError::from_db_error_text(text);
    assert_eq!(first.error_code(), second.error_code());
    assert_eq!(first.status_code(), second.status_code());
    assert_eq!(first.message(), second.message());
}

#[test]
fn test_from_json_error_text() {
    let error = ApiError::from_json_error_text("expected value at line 1");
    assert_eq!(error.error_code(), "JSON_PARSING_ERROR");
    assert_eq!(error.message(), "JSON parsing error: expected value at line 1");
}

#[test]
fn test_from_json_error() {
    let json_error = serde_json::from_str::<serde_json::Value>("not json").unwrap_err();
    let error = ApiError::from_json_error(&json_error);
    assert_eq!(error.error_code(), "JSON_PARSING_ERROR");
    assert_eq!(error.status_code(), 400);
    // the serializer's own description is carried through
    assert!(error.message().starts_with("JSON parsing error: "));
    assert!(error.message().len() > "JSON parsing error: ".len());
}

#[test]
fn test_from_validation_error() {
    let validation = ValidationError::with_field("too short", "username", "LENGTH");
    let error = ApiError::from_validation_error(&validation);
    assert_eq!(error.error_code(), "VALIDATION_ERROR");
    assert_eq!(error.message(), "Validation error: too short");
    match error.details().unwrap() {
        ErrorDetails::Field { field } => assert_eq!(field, "username"),
        _ => panic!("expected field details"),
    }
}

#[test]
fn test_error_response_rendering() {
    let error = ApiError::Internal { message: "boom".to_string() };
    let rendered = error.error_response();
    assert_eq!(rendered.status, 500);
    assert!(matches!(rendered.log.severity, LogSeverity::Error));
    assert_eq!(rendered.log.text, "API Error: Internal server error: boom");
    assert!(!rendered.body.success);
    assert_eq!(rendered.body.message, "Internal server error: boom");
    assert_eq!(rendered.body.error_code, "INTERNAL_SERVER_ERROR");
    assert!(rendered.body.details.is_none());
    assert!(rendered.body.request_id.is_none());

    let warning = ApiError::validation("bad input").error_response();
    assert_eq!(warning.status, 400);
    assert!(matches!(warning.log.severity, LogSeverity::Warn));
    assert_eq!(warning.log.text, "API Warning: Validation error: bad input");
}

#[test]
fn test_api_result_ext() {
    let ok: Result<u32, String> = Ok(7);
    assert_eq!(ok.with_context("reading config").unwrap(), 7);

    let failed: Result<u32, String> = Err("disk on fire".to_string());
    let error = failed.with_context("reading config").unwrap_err();
    assert_eq!(error.message(), "Internal server error: reading config: disk on fire");

    let failed: Result<u32, String> = Err("no row".to_string());
    let error = failed.not_found("user", "42").unwrap_err();
    assert_eq!(error.error_code(), "NOT_FOUND");

    let failed: Result<u32, String> = Err("bad email".to_string());
    let error = failed.validation_error("email").unwrap_err();
    assert_eq!(error.error_code(), "VALIDATION_ERROR");
    assert_eq!(error.message(), "Validation error: bad email");
}

#[test]
fn test_with_request_id() {
    let response = ApiErrorResponse::new("m".to_string(), "C".to_string())
        .with_request_id("req-9".to_string());
    assert_eq!(response.request_id.as_deref(), Some("req-9"));
}
