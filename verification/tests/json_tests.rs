use liga_muertos_back::error::ApiError;
use liga_muertos_back::error::ApiErrorResponse;
use liga_muertos_back::error::ErrorDetails;

fn details_equal(a: &Option<ErrorDetails>, b: &Option<ErrorDetails>) -> bool {
    match (a, b) {
        (None, None) => true,
        (Some(ErrorDetails::Field { field: fa }), Some(ErrorDetails::Field { field: fb })) => {
            fa == fb
        },
        (
            Some(ErrorDetails::Resource { resource: ra, id: ia }),
            Some(ErrorDetails::Resource { resource: rb, id: ib }),
        ) => ra == rb && ia == ib,
        (
            Some(ErrorDetails::Service { service: sa }),
            Some(ErrorDetails::Service { service: sb }),
        ) => sa == sb,
        (
            Some(ErrorDetails::Tournament { tournament_id: ta }),
            Some(ErrorDetails::Tournament { tournament_id: tb }),
        ) => ta == tb,
        (Some(ErrorDetails::User { user_id: ua }), Some(ErrorDetails::User { user_id: ub })) => {
            ua == ub
        },
        _ => false,
    }
}

fn responses_equal(a: &ApiErrorResponse, b: &ApiErrorResponse) -> bool {
    a.success == b.success && a.message == b.message && a.error_code == b.error_code
        && details_equal(&a.details, &b.details) && a.request_id == b.request_id
}

fn assert_roundtrip(response: &ApiErrorResponse) {
    let json = response.to_json();
    let parsed = ApiErrorResponse::from_json(&json).expect("rendered body must parse");
    assert!(responses_equal(response, &parsed));
}

#[test]
fn test_to_json_exact() {
    let response = ApiErrorResponse::new("boom".to_string(), "INTERNAL_SERVER_ERROR".to_string());
    assert_eq!(
        response.to_json(),
        "{\"success\":false,\"message\":\"boom\",\"error_code\":\"INTERNAL_SERVER_ERROR\",\"details\":null,\"request_id\":null}"
    );
}

#[test]
fn test_to_json_with_details() {
    let response = ApiErrorResponse::new("missing".to_string(), "NOT_FOUND".to_string())
        .with_details(ErrorDetails::Resource {
            resource: "user".to_string(),
            id: "42".to_string(),
        });
    assert_eq!(
        response.to_json(),
        "{\"success\":false,\"message\":\"missing\",\"error_code\":\"NOT_FOUND\",\"details\":{\"resource\":\"user\",\"id\":\"42\"},\"request_id\":null}"
    );
}

#[test]
fn test_to_json_escapes() {
    let response = ApiErrorResponse::new("say \"hi\" \\ now".to_string(), "C".to_string());
    assert_eq!(
        response.to_json(),
        "{\"success\":false,\"message\":\"say \\\"hi\\\" \\\\ now\",\"error_code\":\"C\",\"details\":null,\"request_id\":null}"
    );
}

#[test]
fn test_to_json_escapes_control_characters() {
    let response = ApiErrorResponse::new("line\nbreak\ttab".to_string(), "C".to_string());
    assert_eq!(
        response.to_json(),
        "{\"success\":false,\"message\":\"line\\u000abreak\\u0009tab\",\"error_code\":\"C\",\"details\":null,\"request_id\":null}"
    );
}

#[test]
fn test_roundtrip_every_details_payload() {
    let errors = vec![
        ApiError::Database { message: "m".to_string() },
        ApiError::Validation { message: "m".to_string(), field: Some("f".to_string()) },
        ApiError::Validation { message: "m".to_string(), field: None },
        ApiError::Authentication { message: "m".to_string() },
        ApiError::Authorization { message: "m".to_string() },
        ApiError::NotFound { resource: "r".to_string(), id: "i".to_string() },
        ApiError::Conflict { message: "m".to_string() },
        ApiError::RateLimit { message: "m".to_string() },
        ApiError::ExternalService { service: "s".to_string(), message: "m".to_string() },
        ApiError::Internal { message: "m".to_string() },
        ApiError::BadRequest { message: "m".to_string() },
        ApiError::JsonParsing { message: "m".to_string() },
        ApiError::Tournament { message: "m".to_string(), tournament_id: Some("t".to_string()) },
        ApiError::Tournament { message: "m".to_string(), tournament_id: None },
        ApiError::User { message: "m".to_string(), user_id: Some("u".to_string()) },
        ApiError::User { message: "m".to_string(), user_id: None },
    ];
    for error in errors {
        assert_roundtrip(&error.error_response().body);
    }
}

#[test]
fn test_roundtrip_awkward_strings() {
    let response = ApiErrorResponse::new(
        "quotes \" backslash \\ newline \n nul \u{0} bell \u{7}".to_string(),
        "WEIRD \\ \"CODE\"".to_string(),
    )
    .with_details(ErrorDetails::Field { field: "fi\"eld\\".to_string() })
    .with_request_id("req\n42".to_string());
    assert_roundtrip(&response);
}

#[test]
fn test_roundtrip_request_id() {
    let response = ApiErrorResponse::new("m".to_string(), "C".to_string())
        .with_request_id("abc-123".to_string());
    assert_roundtrip(&response);
}

#[test]
fn test_from_json_rejects_garbage() {
    assert!(ApiErrorResponse::from_json("").is_none());
    assert!(ApiErrorResponse::from_json("{}").is_none());
    assert!(ApiErrorResponse::from_json("{\"success\":false}").is_none());
    assert!(
        ApiErrorResponse::from_json(
            "{\"success\":false,\"message\":\"m\",\"error_code\":\"C\",\"details\":null,\"request_id\":null} trailing"
        )
        .is_none()
    );
    assert!(
        ApiErrorResponse::from_json(
            "{\"success\":false,\"message\":\"unterminated,\"error_code\":\"C\""
        )
        .is_none()
    );
}

#[test]
fn test_from_json_parses_rendered_body() {
    let parsed = ApiErrorResponse::from_json(
        "{\"success\":false,\"message\":\"gone\",\"error_code\":\"NOT_FOUND\",\"details\":{\"resource\":\"user\",\"id\":\"9\"},\"request_id\":null}",
    )
    .unwrap();
    assert!(!parsed.success);
    assert_eq!(parsed.message, "gone");
    assert_eq!(parsed.error_code, "NOT_FOUND");
    match parsed.details.unwrap() {
        ErrorDetails::Resource { resource, id } => {
            assert_eq!(resource, "user");
            assert_eq!(id, "9");
        },
        _ => panic!("expected resource details"),
    }
    assert!(parsed.request_id.is_none());
}
