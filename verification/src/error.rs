//! The closed error taxonomy: every failure the service reports, the pure
//! mapping from each kind to its transport status code and machine-readable
//! code, the conversion rules that turn foreign failures into the taxonomy,
//! and the rendering of an error into the wire body plus its one log event.

use vstd::prelude::*;

use crate::logging::LogEvent;
use crate::logging::LogSeverity;
use crate::text::contains_seq;
use crate::text::contains_substr;
use crate::validation::ValidationError;

verus! {

/// Mathematical model of an [`ApiError`].
pub enum ApiErrorV {
    Database { message: Seq<char> },
    Validation { message: Seq<char>, field: Option<Seq<char>> },
    Authentication { message: Seq<char> },
    Authorization { message: Seq<char> },
    NotFound { resource: Seq<char>, id: Seq<char> },
    Conflict { message: Seq<char> },
    RateLimit { message: Seq<char> },
    ExternalService { service: Seq<char>, message: Seq<char> },
    Internal { message: Seq<char> },
    BadRequest { message: Seq<char> },
    JsonParsing { message: Seq<char> },
    Tournament { message: Seq<char>, tournament_id: Option<Seq<char>> },
    User { message: Seq<char>, user_id: Option<Seq<char>> },
}

/// The closed set of failures the service reports. Each variant carries only
/// what its rendering needs; the status code and error code depend on the
/// variant alone, never on the payload.
#[derive(Debug)]
pub enum ApiError {
    /// Database-related errors.
    Database { message: String },
    /// Validation errors.
    Validation { message: String, field: Option<String> },
    /// Authentication errors.
    Authentication { message: String },
    /// Authorization errors.
    Authorization { message: String },
    /// Resource not found errors.
    NotFound { resource: String, id: String },
    /// Conflict errors, such as duplicate resources.
    Conflict { message: String },
    /// Rate limiting errors.
    RateLimit { message: String },
    /// External service errors.
    ExternalService { service: String, message: String },
    /// Internal server errors.
    Internal { message: String },
    /// Bad request errors.
    BadRequest { message: String },
    /// JSON parsing errors.
    JsonParsing { message: String },
    /// Tournament-specific errors.
    Tournament { message: String, tournament_id: Option<String> },
    /// User-specific errors.
    User { message: String, user_id: Option<String> },
}

impl View for ApiError {
    type V = ApiErrorV;

    open spec fn view(&self) -> ApiErrorV {
        match self {
            ApiError::Database { message } => ApiErrorV::Database { message: message@ },
            ApiError::Validation { message, field } => ApiErrorV::Validation {
                message: message@,
                field: match field {
                    Some(f) => Some(f@),
                    None => None,
                },
            },
            ApiError::Authentication { message } => ApiErrorV::Authentication {
                message: message@,
            },
            ApiError::Authorization { message } => ApiErrorV::Authorization { message: message@ },
            ApiError::NotFound { resource, id } => ApiErrorV::NotFound {
                resource: resource@,
                id: id@,
            },
            ApiError::Conflict { message } => ApiErrorV::Conflict { message: message@ },
            ApiError::RateLimit { message } => ApiErrorV::RateLimit { message: message@ },
            ApiError::ExternalService { service, message } => ApiErrorV::ExternalService {
                service: service@,
                message: message@,
            },
            ApiError::Internal { message } => ApiErrorV::Internal { message: message@ },
            ApiError::BadRequest { message } => ApiErrorV::BadRequest { message: message@ },
            ApiError::JsonParsing { message } => ApiErrorV::JsonParsing { message: message@ },
            ApiError::Tournament { message, tournament_id } => ApiErrorV::Tournament {
                message: message@,
                tournament_id: match tournament_id {
                    Some(t) => Some(t@),
                    None => None,
                },
            },
            ApiError::User { message, user_id } => ApiErrorV::User {
                message: message@,
                user_id: match user_id {
                    Some(u) => Some(u@),
                    None => None,
                },
            },
        }
    }
}

/// Whether two errors are the same variant of the taxonomy, whatever their
/// payloads hold.
pub open spec fn same_tag(a: ApiErrorV, b: ApiErrorV) -> bool {
    ||| (a is Database && b is Database)
    ||| (a is Validation && b is Validation)
    ||| (a is Authentication && b is Authentication)
    ||| (a is Authorization && b is Authorization)
    ||| (a is NotFound && b is NotFound)
    ||| (a is Conflict && b is Conflict)
    ||| (a is RateLimit && b is RateLimit)
    ||| (a is ExternalService && b is ExternalService)
    ||| (a is Internal && b is Internal)
    ||| (a is BadRequest && b is BadRequest)
    ||| (a is JsonParsing && b is JsonParsing)
    ||| (a is Tournament && b is Tournament)
    ||| (a is User && b is User)
}

/// The HTTP status code of each variant.
pub open spec fn spec_status_code(e: ApiErrorV) -> u16 {
    match e {
        ApiErrorV::Database { .. } => 500,
        ApiErrorV::Validation { .. } => 400,
        ApiErrorV::Authentication { .. } => 401,
        ApiErrorV::Authorization { .. } => 403,
        ApiErrorV::NotFound { .. } => 404,
        ApiErrorV::Conflict { .. } => 409,
        ApiErrorV::RateLimit { .. } => 429,
        ApiErrorV::ExternalService { .. } => 503,
        ApiErrorV::Internal { .. } => 500,
        ApiErrorV::BadRequest { .. } => 400,
        ApiErrorV::JsonParsing { .. } => 400,
        ApiErrorV::Tournament { .. } => 400,
        ApiErrorV::User { .. } => 400,
    }
}

/// The machine-readable code of each variant.
pub open spec fn spec_error_code(e: ApiErrorV) -> Seq<char> {
    match e {
        ApiErrorV::Database { .. } => "DATABASE_ERROR"@,
        ApiErrorV::Validation { .. } => "VALIDATION_ERROR"@,
        ApiErrorV::Authentication { .. } => "AUTHENTICATION_ERROR"@,
        ApiErrorV::Authorization { .. } => "AUTHORIZATION_ERROR"@,
        ApiErrorV::NotFound { .. } => "NOT_FOUND"@,
        ApiErrorV::Conflict { .. } => "CONFLICT"@,
        ApiErrorV::RateLimit { .. } => "RATE_LIMIT_EXCEEDED"@,
        ApiErrorV::ExternalService { .. } => "EXTERNAL_SERVICE_ERROR"@,
        ApiErrorV::Internal { .. } => "INTERNAL_SERVER_ERROR"@,
        ApiErrorV::BadRequest { .. } => "BAD_REQUEST"@,
        ApiErrorV::JsonParsing { .. } => "JSON_PARSING_ERROR"@,
        ApiErrorV::Tournament { .. } => "TOURNAMENT_ERROR"@,
        ApiErrorV::User { .. } => "USER_ERROR"@,
    }
}

/// The rendered human-readable message of each variant.
pub open spec fn spec_message(e: ApiErrorV) -> Seq<char> {
    match e {
        ApiErrorV::Database { message } => "Database error: "@ + message,
        ApiErrorV::Validation { message, .. } => "Validation error: "@ + message,
        ApiErrorV::Authentication { message } => "Authentication error: "@ + message,
        ApiErrorV::Authorization { message } => "Authorization error: "@ + message,
        ApiErrorV::NotFound { resource, id } => "Resource not found: "@ + resource + " with id "@
            + id,
        ApiErrorV::Conflict { message } => "Conflict: "@ + message,
        ApiErrorV::RateLimit { message } => "Rate limit exceeded: "@ + message,
        ApiErrorV::ExternalService { service, message } => "External service error: "@ + service
            + " - "@ + message,
        ApiErrorV::Internal { message } => "Internal server error: "@ + message,
        ApiErrorV::BadRequest { message } => "Bad request: "@ + message,
        ApiErrorV::JsonParsing { message } => "JSON parsing error: "@ + message,
        ApiErrorV::Tournament { message, .. } => "Tournament error: "@ + message,
        ApiErrorV::User { message, .. } => "User error: "@ + message,
    }
}

/// Whether the variant marks a server-side fault that operators must see at
/// error severity; every other variant is client-caused and logged lower.
pub open spec fn spec_should_log_as_error(e: ApiErrorV) -> bool {
    e is Database || e is Internal || e is ExternalService
}

/// Mathematical model of [`ErrorDetails`].
pub enum ErrorDetailsV {
    Field { field: Seq<char> },
    Resource { resource: Seq<char>, id: Seq<char> },
    Service { service: Seq<char> },
    Tournament { tournament_id: Seq<char> },
    User { user_id: Seq<char> },
}

/// Variant-specific structured payload attached to a rendered error body.
#[derive(Debug, Clone)]
pub enum ErrorDetails {
    /// The field a validation error concerns.
    Field { field: String },
    /// The resource and identifier a lookup missed.
    Resource { resource: String, id: String },
    /// The external service that failed.
    Service { service: String },
    /// The tournament an error concerns.
    Tournament { tournament_id: String },
    /// The user an error concerns.
    User { user_id: String },
}

impl View for ErrorDetails {
    type V = ErrorDetailsV;

    open spec fn view(&self) -> ErrorDetailsV {
        match self {
            ErrorDetails::Field { field } => ErrorDetailsV::Field { field: field@ },
            ErrorDetails::Resource { resource, id } => ErrorDetailsV::Resource {
                resource: resource@,
                id: id@,
            },
            ErrorDetails::Service { service } => ErrorDetailsV::Service { service: service@ },
            ErrorDetails::Tournament { tournament_id } => ErrorDetailsV::Tournament {
                tournament_id: tournament_id@,
            },
            ErrorDetails::User { user_id } => ErrorDetailsV::User { user_id: user_id@ },
        }
    }
}

/// The structured details of each variant, when it has any.
pub open spec fn spec_details(e: ApiErrorV) -> Option<ErrorDetailsV> {
    match e {
        ApiErrorV::Validation { field, .. } => match field {
            Some(f) => Some(ErrorDetailsV::Field { field: f }),
            None => None,
        },
        ApiErrorV::NotFound { resource, id } => Some(ErrorDetailsV::Resource { resource, id }),
        ApiErrorV::ExternalService { service, .. } => Some(
            ErrorDetailsV::Service { service },
        ),
        ApiErrorV::Tournament { tournament_id, .. } => match tournament_id {
            Some(t) => Some(ErrorDetailsV::Tournament { tournament_id: t }),
            None => None,
        },
        ApiErrorV::User { user_id, .. } => match user_id {
            Some(u) => Some(ErrorDetailsV::User { user_id: u }),
            None => None,
        },
        _ => None,
    }
}

impl ApiError {
    /// Get the HTTP status code for this error.
    pub fn status_code(&self) -> (r: u16)
        ensures
            r == spec_status_code(self@),
    {
        match self {
            ApiError::Database { .. } => 500,
            ApiError::Validation { .. } => 400,
            ApiError::Authentication { .. } => 401,
            ApiError::Authorization { .. } => 403,
            ApiError::NotFound { .. } => 404,
            ApiError::Conflict { .. } => 409,
            ApiError::RateLimit { .. } => 429,
            ApiError::ExternalService { .. } => 503,
            ApiError::Internal { .. } => 500,
            ApiError::BadRequest { .. } => 400,
            ApiError::JsonParsing { .. } => 400,
            ApiError::Tournament { .. } => 400,
            ApiError::User { .. } => 400,
        }
    }

    /// Get the machine-readable error code for this error.
    pub fn error_code(&self) -> (r: String)
        ensures
            r@ == spec_error_code(self@),
    {
        match self {
            ApiError::Database { .. } => "DATABASE_ERROR".to_owned(),
            ApiError::Validation { .. } => "VALIDATION_ERROR".to_owned(),
            ApiError::Authentication { .. } => "AUTHENTICATION_ERROR".to_owned(),
            ApiError::Authorization { .. } => "AUTHORIZATION_ERROR".to_owned(),
            ApiError::NotFound { .. } => "NOT_FOUND".to_owned(),
            ApiError::Conflict { .. } => "CONFLICT".to_owned(),
            ApiError::RateLimit { .. } => "RATE_LIMIT_EXCEEDED".to_owned(),
            ApiError::ExternalService { .. } => "EXTERNAL_SERVICE_ERROR".to_owned(),
            ApiError::Internal { .. } => "INTERNAL_SERVER_ERROR".to_owned(),
            ApiError::BadRequest { .. } => "BAD_REQUEST".to_owned(),
            ApiError::JsonParsing { .. } => "JSON_PARSING_ERROR".to_owned(),
            ApiError::Tournament { .. } => "TOURNAMENT_ERROR".to_owned(),
            ApiError::User { .. } => "USER_ERROR".to_owned(),
        }
    }

    /// Render the human-readable message for this error.
    pub fn message(&self) -> (r: String)
        ensures
            r@ == spec_message(self@),
    {
        match self {
            ApiError::Database { message } => {
                let mut s = "Database error: ".to_owned();
                s.append(message.as_str());
                s
            },
            ApiError::Validation { message, .. } => {
                let mut s = "Validation error: ".to_owned();
                s.append(message.as_str());
                s
            },
            ApiError::Authentication { message } => {
                let mut s = "Authentication error: ".to_owned();
                s.append(message.as_str());
                s
            },
            ApiError::Authorization { message } => {
                let mut s = "Authorization error: ".to_owned();
                s.append(message.as_str());
                s
            },
            ApiError::NotFound { resource, id } => {
                let mut s = "Resource not found: ".to_owned();
                s.append(resource.as_str());
                s.append(" with id ");
                s.append(id.as_str());
                s
            },
            ApiError::Conflict { message } => {
                let mut s = "Conflict: ".to_owned();
                s.append(message.as_str());
                s
            },
            ApiError::RateLimit { message } => {
                let mut s = "Rate limit exceeded: ".to_owned();
                s.append(message.as_str());
                s
            },
            ApiError::ExternalService { service, message } => {
                let mut s = "External service error: ".to_owned();
                s.append(service.as_str());
                s.append(" - ");
                s.append(message.as_str());
                s
            },
            ApiError::Internal { message } => {
                let mut s = "Internal server error: ".to_owned();
                s.append(message.as_str());
                s
            },
            ApiError::BadRequest { message } => {
                let mut s = "Bad request: ".to_owned();
                s.append(message.as_str());
                s
            },
            ApiError::JsonParsing { message } => {
                let mut s = "JSON parsing error: ".to_owned();
                s.append(message.as_str());
                s
            },
            ApiError::Tournament { message, .. } => {
                let mut s = "Tournament error: ".to_owned();
                s.append(message.as_str());
                s
            },
            ApiError::User { message, .. } => {
                let mut s = "User error: ".to_owned();
                s.append(message.as_str());
                s
            },
        }
    }

    /// The structured details for the error response, when this variant has
    /// any.
    pub fn details(&self) -> (r: Option<ErrorDetails>)
        ensures
            match r {
                Some(d) => spec_details(self@) == Some(d@),
                None => spec_details(self@) is None,
            },
    {
        match self {
            ApiError::Validation { field: Some(f), .. } => Some(
                ErrorDetails::Field { field: f.clone() },
            ),
            ApiError::NotFound { resource, id } => Some(
                ErrorDetails::Resource { resource: resource.clone(), id: id.clone() },
            ),
            ApiError::ExternalService { service, .. } => Some(
                ErrorDetails::Service { service: service.clone() },
            ),
            ApiError::Tournament { tournament_id: Some(t), .. } => Some(
                ErrorDetails::Tournament { tournament_id: t.clone() },
            ),
            ApiError::User { user_id: Some(u), .. } => Some(
                ErrorDetails::User { user_id: u.clone() },
            ),
            _ => None,
        }
    }

    /// Check if this error should be logged at error severity rather than as
    /// a warning: true exactly for the server-side faults.
    pub fn should_log_as_error(&self) -> (r: bool)
        ensures
            r == spec_should_log_as_error(self@),
    {
        match self {
            ApiError::Database { .. } => true,
            ApiError::Internal { .. } => true,
            ApiError::ExternalService { .. } => true,
            _ => false,
        }
    }
}

/// The status code and error code are functions of the variant tag alone:
/// two errors of the same variant map to the same codes, whatever their
/// payloads hold.
pub proof fn lemma_codes_fixed_by_tag(a: ApiErrorV, b: ApiErrorV)
    requires
        same_tag(a, b),
    ensures
        spec_status_code(a) == spec_status_code(b),
        spec_error_code(a) == spec_error_code(b),
        spec_should_log_as_error(a) == spec_should_log_as_error(b),
{
}

impl ApiError {
    /// Create a validation error.
    pub fn validation(message: &str) -> (r: Self)
        ensures
            r@ == (ApiErrorV::Validation { message: message@, field: None }),
    {
        ApiError::Validation { message: message.to_owned(), field: None }
    }

    /// Create a validation error attached to a field.
    pub fn validation_with_field(message: &str, field: &str) -> (r: Self)
        ensures
            r@ == (ApiErrorV::Validation { message: message@, field: Some(field@) }),
    {
        ApiError::Validation { message: message.to_owned(), field: Some(field.to_owned()) }
    }

    /// Create a not found error.
    pub fn not_found(resource: &str, id: &str) -> (r: Self)
        ensures
            r@ == (ApiErrorV::NotFound { resource: resource@, id: id@ }),
    {
        ApiError::NotFound { resource: resource.to_owned(), id: id.to_owned() }
    }

    /// Create an authentication error.
    pub fn authentication(message: &str) -> (r: Self)
        ensures
            r@ == (ApiErrorV::Authentication { message: message@ }),
    {
        ApiError::Authentication { message: message.to_owned() }
    }

    /// Create an authorization error.
    pub fn authorization(message: &str) -> (r: Self)
        ensures
            r@ == (ApiErrorV::Authorization { message: message@ }),
    {
        ApiError::Authorization { message: message.to_owned() }
    }

    /// Create a conflict error.
    pub fn conflict(message: &str) -> (r: Self)
        ensures
            r@ == (ApiErrorV::Conflict { message: message@ }),
    {
        ApiError::Conflict { message: message.to_owned() }
    }

    /// Create a bad request error.
    pub fn bad_request(message: &str) -> (r: Self)
        ensures
            r@ == (ApiErrorV::BadRequest { message: message@ }),
    {
        ApiError::BadRequest { message: message.to_owned() }
    }

    /// Create an internal error.
    pub fn internal(message: &str) -> (r: Self)
        ensures
            r@ == (ApiErrorV::Internal { message: message@ }),
    {
        ApiError::Internal { message: message.to_owned() }
    }

    /// Create a tournament error.
    pub fn tournament(message: &str) -> (r: Self)
        ensures
            r@ == (ApiErrorV::Tournament { message: message@, tournament_id: None }),
    {
        ApiError::Tournament { message: message.to_owned(), tournament_id: None }
    }

    /// Create a tournament error with the tournament's identifier.
    pub fn tournament_with_id(message: &str, tournament_id: &str) -> (r: Self)
        ensures
            r@ == (ApiErrorV::Tournament {
                message: message@,
                tournament_id: Some(tournament_id@),
            }),
    {
        ApiError::Tournament {
            message: message.to_owned(),
            tournament_id: Some(tournament_id.to_owned()),
        }
    }

    /// Create a user error.
    pub fn user(message: &str) -> (r: Self)
        ensures
            r@ == (ApiErrorV::User { message: message@, user_id: None }),
    {
        ApiError::User { message: message.to_owned(), user_id: None }
    }

    /// Create a user error with the user's identifier.
    pub fn user_with_id(message: &str, user_id: &str) -> (r: Self)
        ensures
            r@ == (ApiErrorV::User { message: message@, user_id: Some(user_id@) }),
    {
        ApiError::User { message: message.to_owned(), user_id: Some(user_id.to_owned()) }
    }
}

/// How a data-store failure is classified from its textual description: a
/// case-sensitive substring heuristic, deliberately preserved as stated even
/// though driver texts may change.
pub open spec fn spec_db_conversion(t: Seq<char>) -> ApiErrorV {
    if contains_seq(t, "Connection"@) || contains_seq(t, "timeout"@) {
        ApiErrorV::Database { message: "Database connection error"@ }
    } else if contains_seq(t, "duplicate"@) || contains_seq(t, "already exists"@) {
        ApiErrorV::Conflict { message: "Resource already exists"@ }
    } else if contains_seq(t, "not found"@) || contains_seq(t, "No record"@) {
        ApiErrorV::NotFound { resource: "record"@, id: "unknown"@ }
    } else {
        ApiErrorV::Database { message: t }
    }
}

impl ApiError {
    /// Classify a data-store failure from its textual description.
    pub fn from_db_error_text(text: &str) -> (r: Self)
        ensures
            r@ == spec_db_conversion(text@),
    {
        if contains_substr(text, "Connection") || contains_substr(text, "timeout") {
            ApiError::Database { message: "Database connection error".to_owned() }
        } else if contains_substr(text, "duplicate") || contains_substr(text, "already exists") {
            ApiError::Conflict { message: "Resource already exists".to_owned() }
        } else if contains_substr(text, "not found") || contains_substr(text, "No record") {
            ApiError::NotFound { resource: "record".to_owned(), id: "unknown".to_owned() }
        } else {
            ApiError::Database { message: text.to_owned() }
        }
    }

    /// Express a serialization failure, given its textual description.
    pub fn from_json_error_text(text: &str) -> (r: Self)
        ensures
            r@ == (ApiErrorV::JsonParsing { message: text@ }),
    {
        ApiError::JsonParsing { message: text.to_owned() }
    }

    /// Convert a serialization failure into the taxonomy. Whatever text the
    /// serializer rendered, the result is a `JsonParsing` error carrying it.
    pub fn from_json_error(error: &serde_json::Error) -> (r: Self)
        ensures
            r@ is JsonParsing,
    {
        let text = json_error_text(error);
        ApiError::from_json_error_text(text.as_str())
    }

    /// Convert a single validation failure into the taxonomy, keeping its
    /// message and field.
    pub fn from_validation_error(error: &ValidationError) -> (r: Self)
        ensures
            r@ == (ApiErrorV::Validation { message: error@.message, field: error@.field }),
    {
        ApiError::Validation {
            message: error.message.clone(),
            field: match &error.field {
                Some(f) => Some(f.clone()),
                None => None,
            },
        }
    }
}

#[verifier::external_type_specification]
#[verifier::external_body]
pub struct ExSerdeJsonError(serde_json::Error);

/// Relies on the `Display` implementation of `serde_json::Error` for the
/// textual description of a serialization failure.
#[verifier::external_body]
fn json_error_text(error: &serde_json::Error) -> String {
    error.to_string()
}

/// Each conversion from a foreign failure is a pure function of the
/// failure's textual description: converting the same description twice
/// yields structurally identical errors.
pub proof fn lemma_conversions_deterministic(t: Seq<char>, a: ApiErrorV, b: ApiErrorV)
    requires
        a == spec_db_conversion(t),
        b == spec_db_conversion(t),
    ensures
        a == b,
{
}

/// Helper type alias for API results.
pub type ApiResult<T> = Result<T, ApiError>;

/// Extension trait for results whose failure is carried as its rendered
/// text, re-expressing the failure inside the taxonomy.
pub trait ApiResultExt<T>: Sized {
    /// The error text of the receiver, when it is a failure.
    spec fn spec_err_text(&self) -> Option<Seq<char>>;

    /// The success value of the receiver, when it is one.
    spec fn spec_ok_value(&self) -> Option<T>;

    /// Recover a failure as an `Internal` error with added context.
    fn with_context(self, context: &str) -> (r: ApiResult<T>)
        ensures
            match self.spec_err_text() {
                None => (r matches Ok(v) && self.spec_ok_value() == Some(v)),
                Some(t) => (r matches Err(e) && e@ == (ApiErrorV::Internal {
                    message: context@ + ": "@ + t,
                })),
            },
    ;

    /// Recover a failure as a `NotFound` error for the given resource.
    fn not_found(self, resource: &str, id: &str) -> (r: ApiResult<T>)
        ensures
            match self.spec_err_text() {
                None => (r matches Ok(v) && self.spec_ok_value() == Some(v)),
                Some(t) => (r matches Err(e) && e@ == (ApiErrorV::NotFound {
                    resource: resource@,
                    id: id@,
                })),
            },
    ;

    /// Recover a failure as a `Validation` error on the given field,
    /// keeping the failure's text as the message.
    fn validation_error(self, field: &str) -> (r: ApiResult<T>)
        ensures
            match self.spec_err_text() {
                None => (r matches Ok(v) && self.spec_ok_value() == Some(v)),
                Some(t) => (r matches Err(e) && e@ == (ApiErrorV::Validation {
                    message: t,
                    field: Some(field@),
                })),
            },
    ;
}

impl<T> ApiResultExt<T> for Result<T, String> {
    open spec fn spec_err_text(&self) -> Option<Seq<char>> {
        match self {
            Ok(_) => None,
            Err(s) => Some(s@),
        }
    }

    open spec fn spec_ok_value(&self) -> Option<T> {
        match self {
            Ok(v) => Some(*v),
            Err(_) => None,
        }
    }

    fn with_context(self, context: &str) -> (r: ApiResult<T>) {
        match self {
            Ok(v) => Ok(v),
            Err(text) => {
                let mut message = context.to_owned();
                message.append(": ");
                message.append(text.as_str());
                Err(ApiError::Internal { message })
            },
        }
    }

    fn not_found(self, resource: &str, id: &str) -> (r: ApiResult<T>) {
        match self {
            Ok(v) => Ok(v),
            Err(_) => Err(ApiError::not_found(resource, id)),
        }
    }

    fn validation_error(self, field: &str) -> (r: ApiResult<T>) {
        match self {
            Ok(v) => Ok(v),
            Err(text) => Err(
                ApiError::Validation { message: text, field: Some(field.to_owned()) },
            ),
        }
    }
}

/// Mathematical model of an [`ApiErrorResponse`].
pub struct ApiErrorResponseV {
    pub success: bool,
    pub message: Seq<char>,
    pub error_code: Seq<char>,
    pub details: Option<ErrorDetailsV>,
    pub request_id: Option<Seq<char>>,
}

/// Standard wire format of an error body.
#[derive(Debug, Clone)]
pub struct ApiErrorResponse {
    /// Whether the request was successful; always false for errors.
    pub success: bool,
    /// Human-readable error message.
    pub message: String,
    /// Error code for programmatic handling.
    pub error_code: String,
    /// Additional variant-specific details, when the variant has any.
    pub details: Option<ErrorDetails>,
    /// Request identifier for tracing; reserved, not yet populated.
    pub request_id: Option<String>,
}

impl View for ApiErrorResponse {
    type V = ApiErrorResponseV;

    open spec fn view(&self) -> ApiErrorResponseV {
        ApiErrorResponseV {
            success: self.success,
            message: self.message@,
            error_code: self.error_code@,
            details: match self.details {
                Some(d) => Some(d@),
                None => None,
            },
            request_id: match self.request_id {
                Some(r) => Some(r@),
                None => None,
            },
        }
    }
}

impl ApiErrorResponse {
    /// Create a new error response.
    pub fn new(message: String, error_code: String) -> (r: Self)
        ensures
            r@ == (ApiErrorResponseV {
                success: false,
                message: message@,
                error_code: error_code@,
                details: None,
                request_id: None,
            }),
    {
        Self { success: false, message, error_code, details: None, request_id: None }
    }

    /// Add additional details to the error response.
    pub fn with_details(self, details: ErrorDetails) -> (r: Self)
        ensures
            r@ == (ApiErrorResponseV { details: Some(details@), ..self@ }),
    {
        Self { details: Some(details), ..self }
    }

    /// Add a request identifier for tracing.
    pub fn with_request_id(self, request_id: String) -> (r: Self)
        ensures
            r@ == (ApiErrorResponseV { request_id: Some(request_id@), ..self@ }),
    {
        Self { request_id: Some(request_id), ..self }
    }
}

/// The wire body rendered for an error.
pub open spec fn spec_error_body(e: ApiErrorV) -> ApiErrorResponseV {
    ApiErrorResponseV {
        success: false,
        message: spec_message(e),
        error_code: spec_error_code(e),
        details: spec_details(e),
        request_id: None,
    }
}

/// Everything observable of one rendered error: the transport status code,
/// the single log event the rendering warrants, and the wire body.
#[derive(Debug)]
pub struct RenderedError {
    /// Transport status code.
    pub status: u16,
    /// The one log event to emit for this error.
    pub log: LogEvent,
    /// The wire body.
    pub body: ApiErrorResponse,
}

impl ApiError {
    /// Render this error: the status code, the one log event (error severity
    /// for server-side faults, warning severity otherwise), and the wire
    /// body. This is the only path by which an error becomes observable.
    pub fn error_response(&self) -> (r: RenderedError)
        ensures
            r.status == spec_status_code(self@),
            r.log@.severity == (if spec_should_log_as_error(self@) {
                LogSeverity::Error
            } else {
                LogSeverity::Warn
            }),
            r.log@.text == (if spec_should_log_as_error(self@) {
                "API Error: "@ + spec_message(self@)
            } else {
                "API Warning: "@ + spec_message(self@)
            }),
            r.body@ == spec_error_body(self@),
    {
        let message = self.message();
        let log = if self.should_log_as_error() {
            let mut text = "API Error: ".to_owned();
            text.append(message.as_str());
            LogEvent { severity: LogSeverity::Error, text }
        } else {
            let mut text = "API Warning: ".to_owned();
            text.append(message.as_str());
            LogEvent { severity: LogSeverity::Warn, text }
        };
        let mut body = ApiErrorResponse::new(message, self.error_code());
        match self.details() {
            Some(details) => {
                body = body.with_details(details);
            },
            None => {},
        }
        RenderedError { status: self.status_code(), log, body }
    }
}

} // verus!
