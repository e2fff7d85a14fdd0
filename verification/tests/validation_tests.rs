use liga_muertos_back::validation::ValidationBuilder;
use liga_muertos_back::validation::ValidationError;
use liga_muertos_back::validation::ValidationErrors;
use liga_muertos_back::validation::email;
use liga_muertos_back::validation::is_valid_email;
use liga_muertos_back::validation::is_valid_password;
use liga_muertos_back::validation::is_valid_tournament_name;
use liga_muertos_back::validation::is_valid_username;
use liga_muertos_back::validation::length;
use liga_muertos_back::validation::password;
use liga_muertos_back::validation::positive_integer;
use liga_muertos_back::validation::range;
use liga_muertos_back::validation::required;
use liga_muertos_back::validation::tournament_name;
use liga_muertos_back::validation::uuid_format;
use liga_muertos_back::validation::validate_required_fields;

#[test]
fn test_validation_error_creation() {
    let error = ValidationError::new("Test error", "TEST");
    assert_eq!(error.message, "Test error");
    assert_eq!(error.code, "TEST");
    assert!(error.field.is_none());

    let error_with_field = ValidationError::with_field("Field error", "username", "INVALID");
    assert_eq!(error_with_field.message, "Field error");
    assert_eq!(error_with_field.code, "INVALID");
    assert_eq!(error_with_field.field.as_deref(), Some("username"));
}

#[test]
fn test_validation_errors_collection() {
    let mut errors = ValidationErrors::new();
    assert!(!errors.has_errors());

    errors.add_error("Username required", "username", "REQUIRED");
    errors.add_error("Email invalid", "email", "INVALID_EMAIL");

    assert!(errors.has_errors());
    assert_eq!(errors.errors.len(), 2);

    let field_map = errors.to_field_map();
    assert!(field_map.contains_key("username"));
    assert!(field_map.contains_key("email"));
}

#[test]
fn test_validators_required() {
    assert!(required(Some("test"), "field").is_ok());
    assert!(required(Some(""), "field").is_err());
    assert!(required(None, "field").is_err());
}

#[test]
fn test_validators_length() {
    assert!(length("hello", 3, 10, "field").is_ok());
    assert!(length("hi", 3, 10, "field").is_err());
    assert!(length("this is too long for the limit", 3, 10, "field").is_err());
}

#[test]
fn test_validators_positive_integer() {
    assert!(positive_integer(5, "field").is_ok());
    assert!(positive_integer(0, "field").is_err());
    assert!(positive_integer(-1, "field").is_err());
}

#[test]
fn test_validators_range() {
    assert!(range(5, 1, 10, "field").is_ok());
    assert!(range(0, 1, 10, "field").is_err());
    assert!(range(11, 1, 10, "field").is_err());
}

#[test]
fn test_validation_builder() {
    let result = ValidationBuilder::new()
        .validate(required(Some("test"), "username").map(|_| ()))
        .validate(length("test", 3, 10, "username"))
        .build("success");

    assert!(result.is_ok());
    assert_eq!(result.unwrap(), "success");

    let result = ValidationBuilder::new()
        .validate(required(None, "username").map(|_| ()))
        .validate(length("", 3, 10, "username"))
        .build_unit();

    assert!(result.is_err());
    let errors = result.unwrap_err();
    assert!(errors.has_errors());
    assert!(!errors.errors.is_empty());
}

#[test]
fn test_validation_macro() {
    let username = "test";
    let mut builder = ValidationBuilder::new();
    builder = builder.validate(required(Some(username), "username").map(|_| ()));
    builder = builder.validate(length(username, 3, 10, "username"));
    let result = builder.build_unit();
    assert!(result.is_ok());

    let mut builder = ValidationBuilder::new();
    builder = builder.validate(required(None, "username").map(|_| ()));
    builder = builder.validate(positive_integer(-1, "age"));
    let result = builder.build_unit();
    assert!(result.is_err());
}

#[test]
fn test_email_validation() {
    assert!(is_valid_email("user@example.com"));
    assert!(is_valid_email("test.user+tag@domain.co.uk"));
    assert!(!is_valid_email("invalid-email"));
    assert!(!is_valid_email("@example.com"));
    assert!(!is_valid_email("user@"));
    assert!(!is_valid_email(""));
}

#[test]
fn test_username_validation() {
    assert!(is_valid_username("user123"));
    assert!(is_valid_username("test-user"));
    assert!(is_valid_username("user_name"));
    assert!(!is_valid_username("us"));
    assert!(!is_valid_username("-user"));
    assert!(!is_valid_username("user@name"));
}

#[test]
fn test_tournament_name_validation() {
    assert!(is_valid_tournament_name("My Tournament"));
    assert!(is_valid_tournament_name("Spring Championship 2024"));
    assert!(!is_valid_tournament_name(""));
    assert!(!is_valid_tournament_name("  "));
    assert!(!is_valid_tournament_name("ab"));
}

#[test]
fn test_password_validation() {
    assert!(is_valid_password("Password123"));
    assert!(is_valid_password("MyStr0ngP@ssw0rd"));
    assert!(!is_valid_password("password"));
    assert!(!is_valid_password("PASSWORD123"));
    assert!(!is_valid_password("Password"));
    assert!(!is_valid_password("Pass1"));
}

#[test]
fn test_required_fields_validation() {
    let fields = vec![
        ("username", Some("john")),
        ("email", Some("john@example.com")),
        ("password", Some("Password123")),
    ];
    assert!(validate_required_fields(&fields).is_ok());

    let fields_with_missing = vec![
        ("username", Some("john")),
        ("email", None),
        ("password", Some("")),
    ];
    let result = validate_required_fields(&fields_with_missing);
    assert!(result.is_err());
    let errors = result.unwrap_err();
    assert_eq!(errors.len(), 2);
    assert!(errors.contains(&"email".to_string()));
    assert!(errors.contains(&"password".to_string()));
}

#[test]
fn test_builder_accumulates_in_order() {
    let result = ValidationBuilder::new()
        .validate(required(None, "u").map(|_| ()))
        .validate(length("ab", 3, 10, "u"))
        .build_unit();

    let errors = result.unwrap_err();
    assert_eq!(errors.errors.len(), 2);
    assert_eq!(errors.errors[0].code, "REQUIRED");
    assert_eq!(errors.errors[1].code, "LENGTH");
}

#[test]
fn test_length_inclusive_bounds() {
    assert!(length("abc", 3, 3, "f").is_ok());
    let err = length("ab", 3, 3, "f").unwrap_err();
    assert_eq!(err.code, "LENGTH");
}

#[test]
fn test_length_counts_characters_not_bytes() {
    // Two characters that take four bytes in UTF-8 still count as two.
    assert!(length("\u{e9}\u{e9}", 2, 2, "f").is_ok());
}

#[test]
fn test_length_message_text() {
    let err = length("ab", 3, 10, "u").unwrap_err();
    assert_eq!(err.message, "u must be between 3 and 10 characters");
    assert_eq!(err.field.as_deref(), Some("u"));
}

#[test]
fn test_range_message_with_negatives() {
    let err = range(5, -10, -1, "f").unwrap_err();
    assert_eq!(err.message, "f must be between -10 and -1");
    assert_eq!(err.code, "OUT_OF_RANGE");
}

#[test]
fn test_email_validator_boundaries() {
    assert!(email("a@b.co", "e").is_ok());
    let err = email("@b.co", "e").unwrap_err();
    assert_eq!(err.code, "INVALID_EMAIL");
    assert!(email("a@", "e").is_err());
}

#[test]
fn test_password_validator_cases() {
    assert!(password("Password123", "p").is_ok());
    let err = password("password123", "p").unwrap_err();
    assert_eq!(err.code, "WEAK_PASSWORD");
    assert!(password("PASSWORD", "p").is_err());
}

#[test]
fn test_required_returns_trimmed_value() {
    let value = required(Some("  hello  "), "field").unwrap();
    assert_eq!(value, "hello");
}

#[test]
fn test_uuid_format_shape() {
    assert!(uuid_format("123e4567-e89b-12d3-a456-426614174000", "id").is_ok());
    let err = uuid_format("not-a-uuid", "id").unwrap_err();
    assert_eq!(err.code, "INVALID_UUID");
    // right length, wrong number of dashes
    assert!(uuid_format("123e4567ae89ba12d3aa456a426614174000", "id").is_err());
}

#[test]
fn test_tournament_name_validator() {
    assert!(tournament_name("My Tournament", "name").is_ok());
    let err = tournament_name("   ", "name").unwrap_err();
    assert_eq!(err.code, "INVALID_TOURNAMENT_NAME");
}

#[test]
fn test_field_map_grouping() {
    let mut errors = ValidationErrors::new();
    errors.add_error("first username problem", "username", "REQUIRED");
    errors.add_error("email problem", "email", "INVALID_EMAIL");
    errors.add_error("second username problem", "username", "LENGTH");
    errors.add(ValidationError::new("general problem", "GENERAL"));

    let map = errors.to_field_map();
    assert_eq!(map.len(), 3);
    let username_msgs = map.get("username").unwrap();
    assert_eq!(username_msgs.len(), 2);
    assert_eq!(username_msgs[0], "first username problem");
    assert_eq!(username_msgs[1], "second username problem");
    let general = map.get("_general").unwrap();
    assert_eq!(general[0], "general problem");
    assert!(map.get("missing").is_none());
}

#[test]
fn test_validation_errors_first() {
    let mut errors = ValidationErrors::new();
    assert!(errors.first().is_none());
    errors.add_error("first", "a", "A");
    errors.add_error("second", "b", "B");
    assert_eq!(errors.first().unwrap().message, "first");
}

#[test]
fn test_username_length_counts_bytes() {
    // Two letters that take four bytes in UTF-8 clear the three-byte floor.
    assert!(is_valid_username("\u{fc}\u{fc}"));
    assert!(!is_valid_username("aa"));
}
