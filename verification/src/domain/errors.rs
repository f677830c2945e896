//! Errors of the domain layer.

use vstd::prelude::*;
use crate::ids::{uuid_text, uuid_to_string};
use crate::text::{concat, concat3, concat4, concat5, opt_view, own, own_opt, replace_underscores, underscores_as_spaces};

verus! {

/// Why a domain operation failed.
#[allow(inconsistent_fields)]
#[derive(Debug, Clone, PartialEq, Eq)]
pub enum DomainError {
    /// An entity looked up by one of its fields does not exist.
    NotFound { entity: String, identifier: String, value: String },
    /// A field holds a value the rules refuse.
    ValidationError {
        field: String,
        message: String,
        /// The constraint that was violated, where known.
        constraint: Option<String>,
        /// The value that violated it, where known.
        value: Option<String>,
    },
    /// A business rule forbids the operation.
    BusinessRuleViolation { message: String },
    /// The operation clashes with existing data (a unique constraint).
    ConflictError { message: String, field: Option<String>, conflicting_value: Option<String> },
    /// The caller may not perform the operation.
    UnauthorizedError { message: String },
    /// Stored data is corrupt or cannot be converted.
    DataIntegrityError {
        message: String,
        field: Option<String>,
        expected: Option<String>,
        actual: Option<String>,
    },
    /// A system the domain relies on is unavailable.
    SystemUnavailable { message: String, component: Option<String> },
    /// An external service failed.
    ExternalServiceError { service: String, message: String },
}

pub type DomainResult<T> = Result<T, DomainError>;

/// The textual content of a `DomainError`.
#[allow(inconsistent_fields)]
pub ghost enum DomainErrorView {
    NotFound { entity: Seq<char>, identifier: Seq<char>, value: Seq<char> },
    ValidationError {
        field: Seq<char>,
        message: Seq<char>,
        constraint: Option<Seq<char>>,
        value: Option<Seq<char>>,
    },
    BusinessRuleViolation { message: Seq<char> },
    ConflictError {
        message: Seq<char>,
        field: Option<Seq<char>>,
        conflicting_value: Option<Seq<char>>,
    },
    UnauthorizedError { message: Seq<char> },
    DataIntegrityError {
        message: Seq<char>,
        field: Option<Seq<char>>,
        expected: Option<Seq<char>>,
        actual: Option<Seq<char>>,
    },
    SystemUnavailable { message: Seq<char>, component: Option<Seq<char>> },
    ExternalServiceError { service: Seq<char>, message: Seq<char> },
}

impl View for DomainError {
    type V = DomainErrorView;

    open spec fn view(&self) -> DomainErrorView {
        match self {
            DomainError::NotFound { entity, identifier, value } => DomainErrorView::NotFound {
                entity: entity@,
                identifier: identifier@,
                value: value@,
            },
            DomainError::ValidationError { field, message, constraint, value } =>
                DomainErrorView::ValidationError {
                field: field@,
                message: message@,
                constraint: opt_view(*constraint),
                value: opt_view(*value),
            },
            DomainError::BusinessRuleViolation { message } =>
                DomainErrorView::BusinessRuleViolation { message: message@ },
            DomainError::ConflictError { message, field, conflicting_value } =>
                DomainErrorView::ConflictError {
                message: message@,
                field: opt_view(*field),
                conflicting_value: opt_view(*conflicting_value),
            },
            DomainError::UnauthorizedError { message } =>
                DomainErrorView::UnauthorizedError { message: message@ },
            DomainError::DataIntegrityError { message, field, expected, actual } =>
                DomainErrorView::DataIntegrityError {
                message: message@,
                field: opt_view(*field),
                expected: opt_view(*expected),
                actual: opt_view(*actual),
            },
            DomainError::SystemUnavailable { message, component } =>
                DomainErrorView::SystemUnavailable { message: message@, component: opt_view(*component) },
            DomainError::ExternalServiceError { service, message } =>
                DomainErrorView::ExternalServiceError { service: service@, message: message@ },
        }
    }
}

/// The text that describes an error, as its `Display` writes it.
pub open spec fn domain_error_text(e: DomainErrorView) -> Seq<char> {
    match e {
        DomainErrorView::NotFound { entity, identifier, value } => entity + " with "@ + identifier
            + " = '"@ + value + "' not found"@,
        DomainErrorView::ValidationError { field, message, .. } => "Validation error in "@ + field
            + ": "@ + message,
        DomainErrorView::BusinessRuleViolation { message } => "Business rule violation: "@
            + message,
        DomainErrorView::ConflictError { message, .. } => "Conflict: "@ + message,
        DomainErrorView::UnauthorizedError { message } => "Unauthorized operation: "@ + message,
        DomainErrorView::DataIntegrityError { message, .. } => "Data integrity error: "@ + message,
        DomainErrorView::SystemUnavailable { message, .. } => "System unavailable: "@ + message,
        DomainErrorView::ExternalServiceError { service, message } => "External service error: "@
            + service + ": "@ + message,
    }
}

/// `r` is the outcome `expected` describes: success exactly when it is
/// `Ok`, and otherwise the error it names.
pub open spec fn unit_outcome(r: DomainResult<()>, expected: Result<(), DomainErrorView>) -> bool {
    match r {
        Ok(_) => expected is Ok,
        Err(e) => expected == Err::<(), DomainErrorView>(e@),
    }
}

/// The example that an invalid UUID is told to look like.
pub open spec fn uuid_example() -> Seq<char> {
    "Valid UUID (e.g., 123e4567-e89b-12d3-a456-426614174000)"@
}

impl DomainError {
    /// `entity` with the given id does not exist.
    pub fn not_found(entity: &str, id: u128) -> (r: Self)
        ensures
            r@ == (DomainErrorView::NotFound { entity: entity@, identifier: "id"@, value: uuid_text(id) }),
    {
        DomainError::NotFound { entity: own(entity), identifier: own("id"), value: uuid_to_string(id) }
    }

    /// `entity` whose `field` is `value` does not exist.
    pub fn not_found_by_field(entity: &str, field: &str, value: &str) -> (r: Self)
        ensures
            r@ == (DomainErrorView::NotFound { entity: entity@, identifier: field@, value: value@ }),
    {
        DomainError::NotFound { entity: own(entity), identifier: own(field), value: own(value) }
    }

    /// `field` is invalid for the reason `message`.
    pub fn validation(field: &str, message: &str) -> (r: Self)
        ensures
            r@ == (DomainErrorView::ValidationError {
                field: field@,
                message: message@,
                constraint: None,
                value: None,
            }),
    {
        DomainError::ValidationError { field: own(field), message: own(message), constraint: None, value: None }
    }

    /// `field` is invalid for the reason `message`; `value` is what it held.
    pub fn validation_with_value(field: &str, message: &str, value: &str) -> (r: Self)
        ensures
            r@ == (DomainErrorView::ValidationError {
                field: field@,
                message: message@,
                constraint: None,
                value: Some(value@),
            }),
    {
        DomainError::ValidationError {
            field: own(field),
            message: own(message),
            constraint: None,
            value: Some(own(value)),
        }
    }

    /// `field` violates `constraint`.
    pub fn validation_constraint(field: &str, message: &str, constraint: &str, value: Option<&str>) -> (r: Self)
        ensures
            r@ == (DomainErrorView::ValidationError {
                field: field@,
                message: message@,
                constraint: Some(constraint@),
                value: match value {
                    Some(v) => Some(v@),
                    None => None,
                },
            }),
    {
        DomainError::ValidationError {
            field: own(field),
            message: own(message),
            constraint: Some(own(constraint)),
            value: own_opt(value),
        }
    }

    /// The required `field` is missing.
    pub fn required_field(field: &str) -> (r: Self)
        ensures
            r@ == (DomainErrorView::ValidationError {
                field: field@,
                message: "The field '"@ + underscores_as_spaces(field@) + "' is required and cannot be empty"@,
                constraint: Some("NOT NULL"@),
                value: None,
            }),
    {
        let spaced = replace_underscores(field);
        DomainError::ValidationError {
            field: own(field),
            message: concat3("The field '", spaced.as_str(), "' is required and cannot be empty"),
            constraint: Some(own("NOT NULL")),
            value: None,
        }
    }

    /// `field` holds `actual_value`, which is not in `expected_format`.
    pub fn invalid_format(field: &str, expected_format: &str, actual_value: &str) -> (r: Self)
        ensures
            r@ == (DomainErrorView::ValidationError {
                field: field@,
                message: "Invalid format for '"@ + underscores_as_spaces(field@) + "'. Expected: "@
                    + expected_format@,
                constraint: Some("FORMAT: "@ + expected_format@),
                value: Some(actual_value@),
            }),
    {
        let spaced = replace_underscores(field);
        DomainError::ValidationError {
            field: own(field),
            message: concat4("Invalid format for '", spaced.as_str(), "'. Expected: ", expected_format),
            constraint: Some(concat("FORMAT: ", expected_format)),
            value: Some(own(actual_value)),
        }
    }

    /// A conflict described by `message`.
    pub fn conflict(message: &str) -> (r: Self)
        ensures
            r@ == (DomainErrorView::ConflictError { message: message@, field: None, conflicting_value: None }),
    {
        DomainError::ConflictError { message: own(message), field: None, conflicting_value: None }
    }

    /// `field` must be unique and `conflicting_value` is taken.
    pub fn unique_constraint(field: &str, message: &str, conflicting_value: Option<&str>) -> (r: Self)
        ensures
            r@ == (DomainErrorView::ConflictError {
                message: message@,
                field: Some(field@),
                conflicting_value: match conflicting_value {
                    Some(v) => Some(v@),
                    None => None,
                },
            }),
    {
        DomainError::ConflictError {
            message: own(message),
            field: Some(own(field)),
            conflicting_value: own_opt(conflicting_value),
        }
    }

    /// A business rule described by `message` forbids the operation.
    pub fn business_rule(message: &str) -> (r: Self)
        ensures
            r@ == (DomainErrorView::BusinessRuleViolation { message: message@ }),
    {
        DomainError::BusinessRuleViolation { message: own(message) }
    }

    /// The operation is not allowed, for the reason `message`.
    pub fn unauthorized(message: &str) -> (r: Self)
        ensures
            r@ == (DomainErrorView::UnauthorizedError { message: message@ }),
    {
        DomainError::UnauthorizedError { message: own(message) }
    }

    /// Stored data is corrupt, as `message` says.
    pub fn data_integrity(message: &str) -> (r: Self)
        ensures
            r@ == (DomainErrorView::DataIntegrityError {
                message: message@,
                field: None,
                expected: None,
                actual: None,
            }),
    {
        DomainError::DataIntegrityError { message: own(message), field: None, expected: None, actual: None }
    }

    /// `field` held `actual` where `expected` was needed.
    pub fn data_conversion(field: &str, expected: &str, actual: &str) -> (r: Self)
        ensures
            r@ == (DomainErrorView::DataIntegrityError {
                message: "Data conversion failed for field '"@ + field@ + "'. Expected "@ + expected@
                    + " but got '"@ + actual@ + "'"@,
                field: Some(field@),
                expected: Some(expected@),
                actual: Some(actual@),
            }),
    {
        let mut message = concat5("Data conversion failed for field '", field, "'. Expected ", expected, " but got '");
        message.append(actual);
        message.append("'");
        DomainError::DataIntegrityError {
            message,
            field: Some(own(field)),
            expected: Some(own(expected)),
            actual: Some(own(actual)),
        }
    }

    /// `field` held `value`, which is no UUID.
    pub fn invalid_uuid(field: &str, value: &str) -> (r: Self)
        ensures
            r@ == (DomainErrorView::DataIntegrityError {
                message: "Invalid UUID format in field '"@ + field@ + "'"@,
                field: Some(field@),
                expected: Some(uuid_example()),
                actual: Some(value@),
            }),
    {
        DomainError::DataIntegrityError {
            message: concat3("Invalid UUID format in field '", field, "'"),
            field: Some(own(field)),
            expected: Some(own("Valid UUID (e.g., 123e4567-e89b-12d3-a456-426614174000)")),
            actual: Some(own(value)),
        }
    }

    /// Some system is unavailable, as `message` says.
    pub fn system_unavailable(message: &str) -> (r: Self)
        ensures
            r@ == (DomainErrorView::SystemUnavailable { message: message@, component: None }),
    {
        DomainError::SystemUnavailable { message: own(message), component: None }
    }

    /// The database is unavailable, as `message` says.
    pub fn database_unavailable(message: &str) -> (r: Self)
        ensures
            r@ == (DomainErrorView::SystemUnavailable { message: message@, component: Some("database"@) }),
    {
        DomainError::SystemUnavailable { message: own(message), component: Some(own("database")) }
    }

    /// `service` failed, as `message` says.
    pub fn external_service(service: &str, message: &str) -> (r: Self)
        ensures
            r@ == (DomainErrorView::ExternalServiceError { service: service@, message: message@ }),
    {
        DomainError::ExternalServiceError { service: own(service), message: own(message) }
    }

    /// The text that describes this error (what `Display` writes for it).
    pub fn to_text(&self) -> (r: String)
        ensures
            r@ == domain_error_text(self@),
    {
        match self {
            DomainError::NotFound { entity, identifier, value } => {
                let mut r = concat4(entity.as_str(), " with ", identifier.as_str(), " = '");
                r.append(value.as_str());
                r.append("' not found");
                r
            },
            DomainError::ValidationError { field, message, .. } => concat3(
                "Validation error in ",
                field.as_str(),
                ": ",
            ).concat(message.as_str()),
            DomainError::BusinessRuleViolation { message } => concat(
                "Business rule violation: ",
                message.as_str(),
            ),
            DomainError::ConflictError { message, .. } => concat("Conflict: ", message.as_str()),
            DomainError::UnauthorizedError { message } => concat(
                "Unauthorized operation: ",
                message.as_str(),
            ),
            DomainError::DataIntegrityError { message, .. } => concat(
                "Data integrity error: ",
                message.as_str(),
            ),
            DomainError::SystemUnavailable { message, .. } => concat(
                "System unavailable: ",
                message.as_str(),
            ),
            DomainError::ExternalServiceError { service, message } => concat4(
                "External service error: ",
                service.as_str(),
                ": ",
                message.as_str(),
            ),
        }
    }
}

} // verus!
