//! Errors of the HTTP API: their status codes, error codes, texts and the
//! body of an error response.

use vstd::prelude::*;
use crate::domain::errors::{domain_error_text, DomainError, DomainErrorView};
use crate::ids::uuid_error_text;
use crate::text::{concat, concat4, own};

verus! {

/// Why an API request failed.
#[allow(inconsistent_fields)]
#[derive(Debug, Clone)]
pub enum ApiError {
    Domain { source: DomainError },
    Authentication { message: String },
    Authorization { message: String },
    Validation { field: String, message: String },
    RateLimit,
    ExternalService { service: String, message: String },
    Internal { message: String },
    BadRequest { message: String },
    NotFound { resource: String },
    Conflict { message: String },
}

pub type ApiResult<T> = Result<T, ApiError>;

/// The textual content of an `ApiError`.
#[allow(inconsistent_fields)]
pub ghost enum ApiErrorView {
    Domain { source: DomainErrorView },
    Authentication { message: Seq<char> },
    Authorization { message: Seq<char> },
    Validation { field: Seq<char>, message: Seq<char> },
    RateLimit,
    ExternalService { service: Seq<char>, message: Seq<char> },
    Internal { message: Seq<char> },
    BadRequest { message: Seq<char> },
    NotFound { resource: Seq<char> },
    Conflict { message: Seq<char> },
}

impl View for ApiError {
    type V = ApiErrorView;

    open spec fn view(&self) -> ApiErrorView {
        match self {
            ApiError::Domain { source } => ApiErrorView::Domain { source: source@ },
            ApiError::Authentication { message } => ApiErrorView::Authentication { message: message@ },
            ApiError::Authorization { message } => ApiErrorView::Authorization { message: message@ },
            ApiError::Validation { field, message } => ApiErrorView::Validation {
                field: field@,
                message: message@,
            },
            ApiError::RateLimit => ApiErrorView::RateLimit,
            ApiError::ExternalService { service, message } => ApiErrorView::ExternalService {
                service: service@,
                message: message@,
            },
            ApiError::Internal { message } => ApiErrorView::Internal { message: message@ },
            ApiError::BadRequest { message } => ApiErrorView::BadRequest { message: message@ },
            ApiError::NotFound { resource } => ApiErrorView::NotFound { resource: resource@ },
            ApiError::Conflict { message } => ApiErrorView::Conflict { message: message@ },
        }
    }
}

/// The HTTP status an error is answered with.
pub open spec fn api_status(e: ApiErrorView) -> u16 {
    match e {
        ApiErrorView::Domain { source } => match source {
            DomainErrorView::NotFound { .. } => 404,
            DomainErrorView::ValidationError { .. } => 400,
            DomainErrorView::ConflictError { .. } => 409,
            DomainErrorView::BusinessRuleViolation { .. } => 422,
            DomainErrorView::UnauthorizedError { .. } => 401,
            DomainErrorView::DataIntegrityError { .. } => 500,
            DomainErrorView::SystemUnavailable { .. } => 503,
            DomainErrorView::ExternalServiceError { .. } => 503,
        },
        ApiErrorView::Authentication { .. } => 401,
        ApiErrorView::Authorization { .. } => 403,
        ApiErrorView::Validation { .. } => 400,
        ApiErrorView::BadRequest { .. } => 400,
        ApiErrorView::NotFound { .. } => 404,
        ApiErrorView::Conflict { .. } => 409,
        ApiErrorView::RateLimit => 429,
        ApiErrorView::ExternalService { .. } => 503,
        ApiErrorView::Internal { .. } => 500,
    }
}

/// The machine-readable code of an error.
pub open spec fn api_error_code(e: ApiErrorView) -> Seq<char> {
    match e {
        ApiErrorView::Domain { source } => match source {
            DomainErrorView::NotFound { .. } => "DOMAIN_NOT_FOUND"@,
            DomainErrorView::ValidationError { .. } => "DOMAIN_VALIDATION_ERROR"@,
            DomainErrorView::ConflictError { .. } => "DOMAIN_CONFLICT"@,
            DomainErrorView::BusinessRuleViolation { .. } => "BUSINESS_RULE_VIOLATION"@,
            DomainErrorView::UnauthorizedError { .. } => "DOMAIN_UNAUTHORIZED"@,
            DomainErrorView::DataIntegrityError { .. } => "DOMAIN_DATA_INTEGRITY_ERROR"@,
            DomainErrorView::SystemUnavailable { .. } => "DOMAIN_SYSTEM_UNAVAILABLE"@,
            DomainErrorView::ExternalServiceError { .. } => "DOMAIN_EXTERNAL_SERVICE_ERROR"@,
        },
        ApiErrorView::Authentication { .. } => "AUTHENTICATION_ERROR"@,
        ApiErrorView::Authorization { .. } => "AUTHORIZATION_ERROR"@,
        ApiErrorView::Validation { .. } => "VALIDATION_ERROR"@,
        ApiErrorView::BadRequest { .. } => "BAD_REQUEST"@,
        ApiErrorView::NotFound { .. } => "NOT_FOUND"@,
        ApiErrorView::Conflict { .. } => "CONFLICT"@,
        ApiErrorView::RateLimit => "RATE_LIMIT_EXCEEDED"@,
        ApiErrorView::ExternalService { .. } => "EXTERNAL_SERVICE_ERROR"@,
        ApiErrorView::Internal { .. } => "INTERNAL_ERROR"@,
    }
}

/// The text that describes an error, as its `Display` writes it.
pub open spec fn api_error_text(e: ApiErrorView) -> Seq<char> {
    match e {
        ApiErrorView::Domain { source } => "Domain error: "@ + domain_error_text(source),
        ApiErrorView::Authentication { message } => "Authentication error: "@ + message,
        ApiErrorView::Authorization { message } => "Authorization error: "@ + message,
        ApiErrorView::Validation { field, message } => "Validation error: "@ + field + ": "@ + message,
        ApiErrorView::RateLimit => "Rate limit exceeded"@,
        ApiErrorView::ExternalService { service, message } => "External service error: "@ + service + ": "@
            + message,
        ApiErrorView::Internal { message } => "Internal server error: "@ + message,
        ApiErrorView::BadRequest { message } => "Bad request: "@ + message,
        ApiErrorView::NotFound { resource } => "Resource not found: "@ + resource,
        ApiErrorView::Conflict { message } => "Conflict: "@ + message,
    }
}

/// Where a missing entity was looked for, in an error response.
#[derive(Debug, Clone)]
pub struct NotFoundDetails {
    pub entity: String,
    pub identifier: String,
    pub value: String,
}

/// The `error` object of an error response: its code and message, the
/// field concerned for validation errors, and where a missing entity was
/// looked for.
#[derive(Debug, Clone)]
pub struct ErrorBody {
    pub code: String,
    pub message: String,
    pub field: Option<String>,
    pub details: Option<NotFoundDetails>,
}

/// The textual content of an `ErrorBody`.
pub ghost struct ErrorBodyView {
    pub code: Seq<char>,
    pub message: Seq<char>,
    pub field: Option<Seq<char>>,
    pub details: Option<(Seq<char>, Seq<char>, Seq<char>)>,
}

impl View for ErrorBody {
    type V = ErrorBodyView;

    open spec fn view(&self) -> ErrorBodyView {
        ErrorBodyView {
            code: self.code@,
            message: self.message@,
            field: match self.field {
                Some(f) => Some(f@),
                None => None,
            },
            details: match self.details {
                Some(d) => Some((d.entity@, d.identifier@, d.value@)),
                None => None,
            },
        }
    }
}

/// The body an error is answered with: validation errors give their own
/// message and the field; a missing entity gives "<entity> not found" and
/// where it was looked for; every other error gives its text.
pub open spec fn error_body(e: ApiErrorView) -> ErrorBodyView {
    let code = api_error_code(e);
    match e {
        ApiErrorView::Validation { field, message } => ErrorBodyView {
            code,
            message,
            field: Some(field),
            details: None,
        },
        ApiErrorView::Domain { source: DomainErrorView::ValidationError { field, message, .. } } => ErrorBodyView {
            code,
            message,
            field: Some(field),
            details: None,
        },
        ApiErrorView::Domain { source: DomainErrorView::NotFound { entity, identifier, value } } => ErrorBodyView {
            code,
            message: entity + " not found"@,
            field: None,
            details: Some((entity, identifier, value)),
        },
        _ => ErrorBodyView { code, message: api_error_text(e), field: None, details: None },
    }
}

/// The error a status code stands for, where `Display` of the status is
/// `status_text`.
pub open spec fn status_error(status: u16, status_text: Seq<char>) -> ApiErrorView {
    if status == 400 {
        ApiErrorView::BadRequest { message: "Bad request"@ }
    } else if status == 401 {
        ApiErrorView::Authentication { message: "Authentication required"@ }
    } else if status == 403 {
        ApiErrorView::Authorization { message: "Access forbidden"@ }
    } else if status == 404 {
        ApiErrorView::NotFound { resource: "Resource not found"@ }
    } else if status == 409 {
        ApiErrorView::Conflict { message: "Resource conflict"@ }
    } else if status == 429 {
        ApiErrorView::RateLimit
    } else if status == 500 {
        ApiErrorView::Internal { message: "Internal server error"@ }
    } else {
        ApiErrorView::Internal { message: "HTTP error: "@ + status_text }
    }
}

#[verifier::external_type_specification]
#[verifier::external_body]
pub struct ExJsonError(serde_json::Error);

/// What `serde_json::Error`'s `Display` writes. Nothing is promised of the
/// text.
#[verifier::external_body]
fn json_error_text(error: &serde_json::Error) -> (r: String) {
    error.to_string()
}

/// What `Display` writes for an HTTP status code (`http::StatusCode`).
pub uninterp spec fn status_display(status: u16) -> Seq<char>;

/// `StatusCode::from_u16(status)` displayed: the code and its reason
/// phrase. `from_u16` accepts the codes from 100 to 999.
#[verifier::external_body]
fn status_text(status: u16) -> (r: String)
    requires
        100 <= status <= 999,
    ensures
        r@ == status_display(status),
{
    match axum::http::StatusCode::from_u16(status) {
        Ok(code) => code.to_string(),
        Err(_) => String::new(),
    }
}

impl ApiError {
    pub fn authentication(message: &str) -> (r: Self)
        ensures
            r@ == (ApiErrorView::Authentication { message: message@ }),
    {
        ApiError::Authentication { message: own(message) }
    }

    pub fn authorization(message: &str) -> (r: Self)
        ensures
            r@ == (ApiErrorView::Authorization { message: message@ }),
    {
        ApiError::Authorization { message: own(message) }
    }

    pub fn validation(field: &str, message: &str) -> (r: Self)
        ensures
            r@ == (ApiErrorView::Validation { field: field@, message: message@ }),
    {
        ApiError::Validation { field: own(field), message: own(message) }
    }

    pub fn bad_request(message: &str) -> (r: Self)
        ensures
            r@ == (ApiErrorView::BadRequest { message: message@ }),
    {
        ApiError::BadRequest { message: own(message) }
    }

    pub fn not_found(resource: &str) -> (r: Self)
        ensures
            r@ == (ApiErrorView::NotFound { resource: resource@ }),
    {
        ApiError::NotFound { resource: own(resource) }
    }

    pub fn conflict(message: &str) -> (r: Self)
        ensures
            r@ == (ApiErrorView::Conflict { message: message@ }),
    {
        ApiError::Conflict { message: own(message) }
    }

    pub fn internal(message: &str) -> (r: Self)
        ensures
            r@ == (ApiErrorView::Internal { message: message@ }),
    {
        ApiError::Internal { message: own(message) }
    }

    pub fn external_service(service: &str, message: &str) -> (r: Self)
        ensures
            r@ == (ApiErrorView::ExternalService { service: service@, message: message@ }),
    {
        ApiError::ExternalService { service: own(service), message: own(message) }
    }

    /// The HTTP status this error is answered with.
    pub fn status_code(&self) -> (r: u16)
        ensures
            r == api_status(self@),
    {
        match self {
            ApiError::Domain { source } => match source {
                DomainError::NotFound { .. } => 404,
                DomainError::ValidationError { .. } => 400,
                DomainError::ConflictError { .. } => 409,
                DomainError::BusinessRuleViolation { .. } => 422,
                DomainError::UnauthorizedError { .. } => 401,
                DomainError::DataIntegrityError { .. } => 500,
                DomainError::SystemUnavailable { .. } => 503,
                DomainError::ExternalServiceError { .. } => 503,
            },
            ApiError::Authentication { .. } => 401,
            ApiError::Authorization { .. } => 403,
            ApiError::Validation { .. } => 400,
            ApiError::BadRequest { .. } => 400,
            ApiError::NotFound { .. } => 404,
            ApiError::Conflict { .. } => 409,
            ApiError::RateLimit => 429,
            ApiError::ExternalService { .. } => 503,
            ApiError::Internal { .. } => 500,
        }
    }

    /// The machine-readable code of this error.
    pub fn error_code(&self) -> (r: &'static str)
        ensures
            r@ == api_error_code(self@),
    {
        match self {
            ApiError::Domain { source } => match source {
                DomainError::NotFound { .. } => "DOMAIN_NOT_FOUND",
                DomainError::ValidationError { .. } => "DOMAIN_VALIDATION_ERROR",
                DomainError::ConflictError { .. } => "DOMAIN_CONFLICT",
                DomainError::BusinessRuleViolation { .. } => "BUSINESS_RULE_VIOLATION",
                DomainError::UnauthorizedError { .. } => "DOMAIN_UNAUTHORIZED",
                DomainError::DataIntegrityError { .. } => "DOMAIN_DATA_INTEGRITY_ERROR",
                DomainError::SystemUnavailable { .. } => "DOMAIN_SYSTEM_UNAVAILABLE",
                DomainError::ExternalServiceError { .. } => "DOMAIN_EXTERNAL_SERVICE_ERROR",
            },
            ApiError::Authentication { .. } => "AUTHENTICATION_ERROR",
            ApiError::Authorization { .. } => "AUTHORIZATION_ERROR",
            ApiError::Validation { .. } => "VALIDATION_ERROR",
            ApiError::BadRequest { .. } => "BAD_REQUEST",
            ApiError::NotFound { .. } => "NOT_FOUND",
            ApiError::Conflict { .. } => "CONFLICT",
            ApiError::RateLimit => "RATE_LIMIT_EXCEEDED",
            ApiError::ExternalService { .. } => "EXTERNAL_SERVICE_ERROR",
            ApiError::Internal { .. } => "INTERNAL_ERROR",
        }
    }

    /// The text that describes this error (what `Display` writes for it).
    pub fn to_text(&self) -> (r: String)
        ensures
            r@ == api_error_text(self@),
    {
        match self {
            ApiError::Domain { source } => {
                let inner = source.to_text();
                concat("Domain error: ", inner.as_str())
            },
            ApiError::Authentication { message } => concat("Authentication error: ", message.as_str()),
            ApiError::Authorization { message } => concat("Authorization error: ", message.as_str()),
            ApiError::Validation { field, message } => concat4(
                "Validation error: ",
                field.as_str(),
                ": ",
                message.as_str(),
            ),
            ApiError::RateLimit => own("Rate limit exceeded"),
            ApiError::ExternalService { service, message } => concat4(
                "External service error: ",
                service.as_str(),
                ": ",
                message.as_str(),
            ),
            ApiError::Internal { message } => concat("Internal server error: ", message.as_str()),
            ApiError::BadRequest { message } => concat("Bad request: ", message.as_str()),
            ApiError::NotFound { resource } => concat("Resource not found: ", resource.as_str()),
            ApiError::Conflict { message } => concat("Conflict: ", message.as_str()),
        }
    }

    /// The body of the response this error is answered with.
    pub fn error_body(&self) -> (r: ErrorBody)
        ensures
            r@ == error_body(self@),
    {
        let code = own(self.error_code());
        match self {
            ApiError::Validation { field, message } => ErrorBody {
                code,
                message: message.clone(),
                field: Some(field.clone()),
                details: None,
            },
            ApiError::Domain { source: DomainError::ValidationError { field, message, .. } } => ErrorBody {
                code,
                message: message.clone(),
                field: Some(field.clone()),
                details: None,
            },
            ApiError::Domain { source: DomainError::NotFound { entity, identifier, value } } => ErrorBody {
                code,
                message: concat(entity.as_str(), " not found"),
                field: None,
                details: Some(
                    NotFoundDetails { entity: entity.clone(), identifier: identifier.clone(), value: value.clone() },
                ),
            },
            _ => ErrorBody { code, message: self.to_text(), field: None, details: None },
        }
    }

    /// The status and body of the response this error is answered with.
    pub fn response_parts(&self) -> (r: (u16, ErrorBody))
        ensures
            r.0 == api_status(self@),
            r.1@ == error_body(self@),
    {
        (self.status_code(), self.error_body())
    }

    /// The error a status code stands for. `StatusCode` holds the codes
    /// from 100 to 999.
    pub fn from_status(status: u16) -> (r: Self)
        requires
            100 <= status <= 999,
        ensures
            r@ == status_error(status, status_display(status)),
    {
        if status == 400 {
            Self::bad_request("Bad request")
        } else if status == 401 {
            Self::authentication("Authentication required")
        } else if status == 403 {
            Self::authorization("Access forbidden")
        } else if status == 404 {
            Self::not_found("Resource not found")
        } else if status == 409 {
            Self::conflict("Resource conflict")
        } else if status == 429 {
            ApiError::RateLimit
        } else if status == 500 {
            Self::internal("Internal server error")
        } else {
            let text = status_text(status);
            ApiError::Internal { message: concat("HTTP error: ", text.as_str()) }
        }
    }

    /// A malformed UUID in a request: a validation error of the `id`.
    pub fn from_uuid_error(err: uuid::Error) -> (r: Self)
        ensures
            r@ matches ApiErrorView::Validation { field, message } && field == "id"@ && exists|detail: Seq<char>|
                message == "Invalid UUID format: "@ + detail,
    {
        let text = uuid_error_text(&err);
        let message = concat("Invalid UUID format: ", text.as_str());
        assert(message@ == "Invalid UUID format: "@ + text@);
        ApiError::Validation { field: own("id"), message }
    }

    /// A malformed JSON body: a bad request.
    pub fn from_json_error(err: serde_json::Error) -> (r: Self)
        ensures
            r@ matches ApiErrorView::BadRequest { message } && exists|detail: Seq<char>|
                message == "JSON parsing error: "@ + detail,
    {
        let text = json_error_text(&err);
        let message = concat("JSON parsing error: ", text.as_str());
        assert(message@ == "JSON parsing error: "@ + text@);
        ApiError::BadRequest { message }
    }
}

impl From<DomainError> for ApiError {
    fn from(source: DomainError) -> (r: Self) {
        ApiError::Domain { source }
    }
}

impl vstd::std_specs::convert::FromSpecImpl<DomainError> for ApiError {
    open spec fn obeys_from_spec() -> bool {
        true
    }

    open spec fn from_spec(source: DomainError) -> Self {
        ApiError::Domain { source }
    }
}

} // verus!
