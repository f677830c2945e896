//! Errors of the persistence layer, how database failures are read, and how
//! they are reported to the domain.

use vstd::prelude::*;
use crate::domain::errors::{uuid_example, DomainError, DomainErrorView, DomainResult};
use crate::ids::{uuid_error_text, uuid_text};
use crate::persistence::pattern::{captures_of, compile_pattern, find_captures, group_at, group_text, pattern_compiles};
use crate::text::{
    char_count, char_slice, concat, concat3, find_char, opt_view, own, own_opt, replace_underscores, starts_with,
    text_eq, underscores_as_spaces,
};

verus! {

/// Why a database row could not be read into an entity. Causes are the
/// texts of the underlying errors.
#[derive(Debug, Clone)]
pub enum RowConversionError {
    MissingField { field: String, cause: String },
    InvalidUuid { field: String, value: String, cause: String },
    InvalidJson { field: String, cause: String },
    InvalidDateTime { field: String, cause: String },
    InvalidEnum { field: String, value: String },
}

/// Why a storage operation failed.
#[allow(inconsistent_fields)]
#[derive(Debug, Clone)]
pub enum InfrastructureError {
    ConnectionFailed { message: String },
    MigrationFailed { message: String },
    TransactionError { message: String },
    /// A text that is no UUID; `source` is the parser's message.
    UuidParsingError { value: String, source: String },
    DateTimeError { message: String },
    /// A JSON text that could not be read; `source` is the parser's message.
    JsonError { source: String },
    QueryError { message: String },
    InternalError { message: String },
    DomainError { source: DomainError },
    ForeignKeyConstraintViolation { message: String },
    UniqueConstraintViolation { message: String, field: Option<String>, value: Option<String> },
    CheckConstraintViolation { message: String, constraint: Option<String> },
    NotNullConstraintViolation { message: String, field: Option<String> },
    RowConversionError { source: RowConversionError },
}

pub type InfrastructureResult<T> = Result<T, InfrastructureError>;

/// The textual content of an `InfrastructureError`.
#[allow(inconsistent_fields)]
pub ghost enum InfrastructureErrorView {
    ConnectionFailed { message: Seq<char> },
    MigrationFailed { message: Seq<char> },
    TransactionError { message: Seq<char> },
    UuidParsingError { value: Seq<char>, source: Seq<char> },
    DateTimeError { message: Seq<char> },
    JsonError { source: Seq<char> },
    QueryError { message: Seq<char> },
    InternalError { message: Seq<char> },
    DomainError { source: DomainErrorView },
    ForeignKeyConstraintViolation { message: Seq<char> },
    UniqueConstraintViolation { message: Seq<char>, field: Option<Seq<char>>, value: Option<Seq<char>> },
    CheckConstraintViolation { message: Seq<char>, constraint: Option<Seq<char>> },
    NotNullConstraintViolation { message: Seq<char>, field: Option<Seq<char>> },
    RowConversionError { source: RowConversionError },
}

impl View for InfrastructureError {
    type V = InfrastructureErrorView;

    open spec fn view(&self) -> InfrastructureErrorView {
        match self {
            InfrastructureError::ConnectionFailed { message } =>
                InfrastructureErrorView::ConnectionFailed { message: message@ },
            InfrastructureError::MigrationFailed { message } =>
                InfrastructureErrorView::MigrationFailed { message: message@ },
            InfrastructureError::TransactionError { message } =>
                InfrastructureErrorView::TransactionError { message: message@ },
            InfrastructureError::UuidParsingError { value, source } =>
                InfrastructureErrorView::UuidParsingError { value: value@, source: source@ },
            InfrastructureError::DateTimeError { message } =>
                InfrastructureErrorView::DateTimeError { message: message@ },
            InfrastructureError::JsonError { source } => InfrastructureErrorView::JsonError { source: source@ },
            InfrastructureError::QueryError { message } => InfrastructureErrorView::QueryError { message: message@ },
            InfrastructureError::InternalError { message } =>
                InfrastructureErrorView::InternalError { message: message@ },
            InfrastructureError::DomainError { source } => InfrastructureErrorView::DomainError { source: source@ },
            InfrastructureError::ForeignKeyConstraintViolation { message } =>
                InfrastructureErrorView::ForeignKeyConstraintViolation { message: message@ },
            InfrastructureError::UniqueConstraintViolation { message, field, value } =>
                InfrastructureErrorView::UniqueConstraintViolation {
                message: message@,
                field: opt_view(*field),
                value: opt_view(*value),
            },
            InfrastructureError::CheckConstraintViolation { message, constraint } =>
                InfrastructureErrorView::CheckConstraintViolation {
                message: message@,
                constraint: opt_view(*constraint),
            },
            InfrastructureError::NotNullConstraintViolation { message, field } =>
                InfrastructureErrorView::NotNullConstraintViolation { message: message@, field: opt_view(*field) },
            InfrastructureError::RowConversionError { source } =>
                InfrastructureErrorView::RowConversionError { source: *source },
        }
    }
}

impl From<DomainError> for InfrastructureError {
    fn from(source: DomainError) -> (r: Self) {
        InfrastructureError::DomainError { source }
    }
}

impl vstd::std_specs::convert::FromSpecImpl<DomainError> for InfrastructureError {
    open spec fn obeys_from_spec() -> bool {
        true
    }

    open spec fn from_spec(source: DomainError) -> Self {
        InfrastructureError::DomainError { source }
    }
}

impl From<RowConversionError> for InfrastructureError {
    fn from(source: RowConversionError) -> (r: Self) {
        InfrastructureError::RowConversionError { source }
    }
}

impl vstd::std_specs::convert::FromSpecImpl<RowConversionError> for InfrastructureError {
    open spec fn obeys_from_spec() -> bool {
        true
    }

    open spec fn from_spec(source: RowConversionError) -> Self {
        InfrastructureError::RowConversionError { source }
    }
}

// ============================================================================
// Reading SQLite's constraint messages
// ============================================================================

/// The pattern of SQLite's unique-constraint messages.
pub open spec fn unique_pattern() -> Seq<char> {
    "UNIQUE constraint failed: (\\w+)\\.(\\w+)"@
}

/// The pattern of SQLite's check-constraint messages.
pub open spec fn check_pattern() -> Seq<char> {
    "CHECK constraint failed: (.+)"@
}

/// The pattern of SQLite's not-null-constraint messages.
pub open spec fn not_null_pattern() -> Seq<char> {
    "NOT NULL constraint failed: (\\w+)\\.(\\w+)"@
}

/// Table and field read by hand from `message`: after `prefix`, the text up
/// to the first `.` and the text after it.
pub open spec fn split_table_field(prefix: Seq<char>, message: Seq<char>) -> (Option<Seq<char>>, Option<Seq<char>>) {
    if prefix.is_prefix_of(message) {
        let rest = message.skip(prefix.len() as int);
        match rest.index_of_first('.') {
            Some(d) => (Some(rest.take(d)), Some(rest.skip(d + 1))),
            None => (None, None),
        }
    } else {
        (None, None)
    }
}

/// Table and field of a constraint message: groups 1 and 2 of the pattern's
/// match, or, when the pattern does not compile or match, the text read by
/// hand after `prefix`.
pub open spec fn table_and_field(pattern: Seq<char>, prefix: Seq<char>, message: Seq<char>) -> (
    Option<Seq<char>>,
    Option<Seq<char>>,
) {
    if pattern_compiles(pattern) && captures_of(pattern, message) is Some {
        let groups = captures_of(pattern, message)->0;
        (group_at(groups, 1), group_at(groups, 2))
    } else {
        split_table_field(prefix, message)
    }
}

/// The constraint named in a check-constraint message.
pub open spec fn check_constraint_of(message: Seq<char>) -> Option<Seq<char>> {
    if pattern_compiles(check_pattern()) && captures_of(check_pattern(), message) is Some {
        group_at(captures_of(check_pattern(), message)->0, 1)
    } else if "CHECK constraint failed: "@.is_prefix_of(message) {
        Some(message.skip("CHECK constraint failed: "@.len() as int))
    } else {
        None
    }
}

/// Reads table and field from `message` by hand, after `prefix`.
fn split_after_prefix(message: &str, prefix: &str) -> (r: (Option<String>, Option<String>))
    ensures
        (opt_view(r.0), opt_view(r.1)) == split_table_field(prefix@, message@),
{
    if starts_with(message, prefix) {
        let start = char_count(prefix);
        let end = char_count(message);
        let rest = char_slice(message, start, end);
        assert(rest@ == message@.skip(prefix@.len() as int));
        proof {
            rest@.index_of_first_ensures('.');
        }
        match find_char(rest, '.') {
            Some(dot) => {
                let rest_len = char_count(rest);
                let table = char_slice(rest, 0, dot);
                let field = char_slice(rest, dot + 1, rest_len);
                assert(table@ == rest@.take(dot as int));
                assert(field@ == rest@.skip(dot + 1));
                (Some(own(table)), Some(own(field)))
            },
            None => (None, None),
        }
    } else {
        (None, None)
    }
}

/// Table and field of a message that `pattern` (with `prefix` as its
/// literal start) describes.
fn parse_table_and_field(message: &str, pattern: &str, prefix: &str) -> (r: (Option<String>, Option<String>))
    ensures
        (opt_view(r.0), opt_view(r.1)) == table_and_field(pattern@, prefix@, message@),
{
    if let Some(re) = compile_pattern(pattern) {
        if let Some(groups) = find_captures(&re, message) {
            let table = group_text(&groups, 1);
            let field = group_text(&groups, 2);
            return (table, field);
        }
    }
    split_after_prefix(message, prefix)
}

/// The text a constraint type's friendly message is built from.
pub open spec fn friendly_constraint_message(
    table: Seq<char>,
    field: Seq<char>,
    constraint_type: Seq<char>,
    reported_message: Seq<char>,
) -> Seq<char> {
    if table == "users"@ && field == "email"@ && constraint_type == "unique"@ {
        "This email address is already registered. Please use a different email or try signing in."@
    } else if table == "users"@ && field == "keycloak_id"@ && constraint_type == "unique"@ {
        "This user account is already linked. Please contact support if you believe this is an error."@
    } else if table == "events"@ && field == "title"@ && constraint_type == "unique"@ {
        "An event with this title already exists. Please choose a different title."@
    } else if table == "event_categories"@ && field == "name"@ && constraint_type == "unique"@ {
        "This category name is already taken. Please choose a different name."@
    } else if table == "event_categories"@ && field == "id"@ && constraint_type == "unique"@ {
        "This category ID is already in use. Please choose a different ID."@
    } else if table == "event_registrations"@ && constraint_type == "unique"@ {
        "You are already registered for this event."@
    } else if table == "event_invitations"@ && constraint_type == "unique"@ {
        "This person has already been invited to this event."@
    } else if constraint_type == "unique"@ {
        "This "@ + underscores_as_spaces(field) + " is already taken. Please choose a different value."@
    } else if constraint_type == "not_null"@ {
        "The field '"@ + underscores_as_spaces(field) + "' is required and cannot be empty."@
    } else {
        reported_message
    }
}

impl InfrastructureError {
    /// `value` is no UUID; `error` says why.
    pub fn uuid_parsing_error(value: &str, error: uuid::Error) -> (r: Self)
        ensures
            r matches InfrastructureError::UuidParsingError { value: v, .. } && v@ == value@,
    {
        InfrastructureError::UuidParsingError { value: own(value), source: uuid_error_text(&error) }
    }

    pub fn datetime_error(message: &str) -> (r: Self)
        ensures
            r@ == (InfrastructureErrorView::DateTimeError { message: message@ }),
    {
        InfrastructureError::DateTimeError { message: own(message) }
    }

    pub fn query_error(message: &str) -> (r: Self)
        ensures
            r@ == (InfrastructureErrorView::QueryError { message: message@ }),
    {
        InfrastructureError::QueryError { message: own(message) }
    }

    pub fn internal_error(message: &str) -> (r: Self)
        ensures
            r@ == (InfrastructureErrorView::InternalError { message: message@ }),
    {
        InfrastructureError::InternalError { message: own(message) }
    }

    pub fn unique_constraint_violation(message: &str, field: Option<&str>, value: Option<&str>) -> (r: Self)
        ensures
            r@ == (InfrastructureErrorView::UniqueConstraintViolation {
                message: message@,
                field: match field {
                    Some(f) => Some(f@),
                    None => None,
                },
                value: match value {
                    Some(v) => Some(v@),
                    None => None,
                },
            }),
    {
        InfrastructureError::UniqueConstraintViolation {
            message: own(message),
            field: own_opt(field),
            value: own_opt(value),
        }
    }

    pub fn check_constraint_violation(message: &str, constraint: Option<&str>) -> (r: Self)
        ensures
            r@ == (InfrastructureErrorView::CheckConstraintViolation {
                message: message@,
                constraint: match constraint {
                    Some(c) => Some(c@),
                    None => None,
                },
            }),
    {
        InfrastructureError::CheckConstraintViolation { message: own(message), constraint: own_opt(constraint) }
    }

    pub fn not_null_constraint_violation(message: &str, field: Option<&str>) -> (r: Self)
        ensures
            r@ == (InfrastructureErrorView::NotNullConstraintViolation {
                message: message@,
                field: match field {
                    Some(f) => Some(f@),
                    None => None,
                },
            }),
    {
        InfrastructureError::NotNullConstraintViolation { message: own(message), field: own_opt(field) }
    }

    /// Table and field named by a unique-constraint message such as
    /// `UNIQUE constraint failed: users.email`; the third part is always
    /// `None` (SQLite does not report the conflicting value).
    pub fn parse_unique_constraint_error(message: &str) -> (r: (Option<String>, Option<String>, Option<String>))
        ensures
            (opt_view(r.0), opt_view(r.1)) == table_and_field(
                unique_pattern(),
                "UNIQUE constraint failed: "@,
                message@,
            ),
            r.2 is None,
    {
        let (table, field) = parse_table_and_field(
            message,
            "UNIQUE constraint failed: (\\w+)\\.(\\w+)",
            "UNIQUE constraint failed: ",
        );
        (table, field, None)
    }

    /// The constraint named by a check-constraint message such as
    /// `CHECK constraint failed: users.role IN (...)`.
    pub fn parse_check_constraint_error(message: &str) -> (r: Option<String>)
        ensures
            opt_view(r) == check_constraint_of(message@),
    {
        if let Some(re) = compile_pattern("CHECK constraint failed: (.+)") {
            if let Some(groups) = find_captures(&re, message) {
                return group_text(&groups, 1);
            }
        }
        if starts_with(message, "CHECK constraint failed: ") {
            let start = char_count("CHECK constraint failed: ");
            let end = char_count(message);
            let rest = char_slice(message, start, end);
            return Some(own(rest));
        }
        None
    }

    /// Table and field named by a not-null-constraint message such as
    /// `NOT NULL constraint failed: users.name`.
    pub fn parse_not_null_constraint_error(message: &str) -> (r: (Option<String>, Option<String>))
        ensures
            (opt_view(r.0), opt_view(r.1)) == table_and_field(
                not_null_pattern(),
                "NOT NULL constraint failed: "@,
                message@,
            ),
    {
        parse_table_and_field(message, "NOT NULL constraint failed: (\\w+)\\.(\\w+)", "NOT NULL constraint failed: ")
    }

    /// A message for the user about a violated constraint on `table.field`
    /// (`constraint_type` is `unique` or `not_null`); `reported_message`
    /// where no better one is known.
    pub fn create_user_friendly_constraint_message(
        table: &str,
        field: &str,
        constraint_type: &str,
        reported_message: &str,
    ) -> (r: String)
        ensures
            r@ == friendly_constraint_message(table@, field@, constraint_type@, reported_message@),
    {
        let unique = text_eq(constraint_type, "unique");
        if text_eq(table, "users") && text_eq(field, "email") && unique {
            own("This email address is already registered. Please use a different email or try signing in.")
        } else if text_eq(table, "users") && text_eq(field, "keycloak_id") && unique {
            own("This user account is already linked. Please contact support if you believe this is an error.")
        } else if text_eq(table, "events") && text_eq(field, "title") && unique {
            own("An event with this title already exists. Please choose a different title.")
        } else if text_eq(table, "event_categories") && text_eq(field, "name") && unique {
            own("This category name is already taken. Please choose a different name.")
        } else if text_eq(table, "event_categories") && text_eq(field, "id") && unique {
            own("This category ID is already in use. Please choose a different ID.")
        } else if text_eq(table, "event_registrations") && unique {
            own("You are already registered for this event.")
        } else if text_eq(table, "event_invitations") && unique {
            own("This person has already been invited to this event.")
        } else if unique {
            let spaced = replace_underscores(field);
            concat3("This ", spaced.as_str(), " is already taken. Please choose a different value.")
        } else if text_eq(constraint_type, "not_null") {
            let spaced = replace_underscores(field);
            concat3("The field '", spaced.as_str(), "' is required and cannot be empty.")
        } else {
            own(reported_message)
        }
    }
}

// ============================================================================
// Database failures
// ============================================================================

/// What the storage engine reported when an operation failed, as plain
/// values: the kind of failure, and for a database error its code (SQLite's
/// extended result code, as text) and message.
#[derive(Debug, Clone)]
pub enum DbFailure {
    /// A query that had to return a row returned none.
    RowNotFound,
    /// The database refused the statement.
    Database { code: Option<String>, message: String },
    /// Talking to the database failed (the I/O error's text).
    Io { message: String },
    /// The connection settings are wrong (their error's text).
    Configuration { message: String },
    /// A migration failed (its error's text).
    Migrate { message: String },
    /// Any other failure (its error's text).
    Other { message: String },
}

/// Unique-constraint result codes of SQLite.
pub open spec fn is_unique_code(code: Seq<char>) -> bool {
    code == "2067"@ || code == "1555"@ || code == "19"@
}

/// Not-null-constraint result codes of SQLite.
pub open spec fn is_not_null_code(code: Seq<char>) -> bool {
    code == "1299"@ || code == "1281"@
}

/// The error a database error with `code` and `message` is reported as.
pub open spec fn coded_database_error(code: Seq<char>, message: Seq<char>) -> InfrastructureErrorView {
    if is_unique_code(code) {
        let (table, field) = table_and_field(unique_pattern(), "UNIQUE constraint failed: "@, message);
        if table is Some && field is Some {
            InfrastructureErrorView::UniqueConstraintViolation {
                message: friendly_constraint_message(table->0, field->0, "unique"@, message),
                field,
                value: None,
            }
        } else {
            InfrastructureErrorView::DomainError {
                source: DomainErrorView::ConflictError { message, field: None, conflicting_value: None },
            }
        }
    } else if code == "275"@ {
        match check_constraint_of(message) {
            Some(constraint) => InfrastructureErrorView::CheckConstraintViolation {
                message: "Invalid value provided: "@ + constraint,
                constraint: Some(constraint),
            },
            None => InfrastructureErrorView::QueryError { message: "Check constraint violation: "@ + message },
        }
    } else if is_not_null_code(code) {
        let (table, field) = table_and_field(not_null_pattern(), "NOT NULL constraint failed: "@, message);
        if table is Some && field is Some {
            InfrastructureErrorView::NotNullConstraintViolation {
                message: friendly_constraint_message(table->0, field->0, "not_null"@, message),
                field,
            }
        } else {
            InfrastructureErrorView::NotNullConstraintViolation {
                message: "A required field is missing."@,
                field: None,
            }
        }
    } else if code == "787"@ {
        InfrastructureErrorView::ForeignKeyConstraintViolation { message }
    } else {
        InfrastructureErrorView::QueryError { message: "Database error ("@ + code + "): "@ + message }
    }
}

/// The domain error a failed check constraint `constraint` is reported as.
pub open spec fn check_violation_reported(constraint: Seq<char>) -> DomainErrorView {
    DomainErrorView::ValidationError {
        field: "value"@,
        message: "Value violates constraint: Invalid value provided: "@ + constraint,
        constraint: Some(constraint),
        value: None,
    }
}

proof fn lemma_check_message(c: Seq<char>)
    ensures
        domain_error_of(
            InfrastructureErrorView::CheckConstraintViolation {
                message: "Invalid value provided: "@ + c,
                constraint: Some(c),
            },
        ) == check_violation_reported(c),
{
    assert(("Value violates constraint: "@ + ("Invalid value provided: "@ + c)) =~= (
    "Value violates constraint: Invalid value provided: "@ + c)) by {
        reveal_strlit("Value violates constraint: ");
        reveal_strlit("Invalid value provided: ");
        reveal_strlit("Value violates constraint: Invalid value provided: ");
    }
}

/// Check-constraint failures (SQLite code 275): a message in SQLite's form
/// `CHECK constraint failed: <constraint>` is reported as a validation
/// failure of that constraint, never as the system being unavailable: the
/// constraint is the group the pattern `CHECK constraint failed: (.+)`
/// captures where the pattern finds one, and otherwise the text after the
/// prefix. Only a message the constraint cannot be read from is reported
/// as a failed query.
pub proof fn law_check_violation_is_a_validation_failure(m: Seq<char>)
    ensures
        ({
            let prefix = "CHECK constraint failed: "@;
            let pattern = "CHECK constraint failed: (.+)"@;
            let found = pattern_compiles(pattern) && captures_of(pattern, m) is Some;
            &&& (prefix.is_prefix_of(m) && !found ==> domain_error_of(coded_database_error("275"@, m))
                == check_violation_reported(m.skip(prefix.len() as int)))
            &&& (found && group_at(captures_of(pattern, m)->0, 1) is Some ==> domain_error_of(
                coded_database_error("275"@, m),
            ) == check_violation_reported(group_at(captures_of(pattern, m)->0, 1)->0))
            &&& (!prefix.is_prefix_of(m) && !found ==> domain_error_of(coded_database_error("275"@, m))
                == (DomainErrorView::SystemUnavailable {
                message: "Database query failed: Check constraint violation: "@ + m,
                component: None,
            }))
        }),
{
    let prefix = "CHECK constraint failed: "@;
    let pattern = "CHECK constraint failed: (.+)"@;
    reveal_strlit("275");
    reveal_strlit("2067");
    reveal_strlit("1555");
    reveal_strlit("19");
    reveal_strlit("CHECK constraint failed: (.+)");
    assert("275"@.len() == 3 && "2067"@.len() == 4 && "1555"@.len() == 4 && "19"@.len() == 2);
    assert(!is_unique_code("275"@));
    assert(check_pattern() == pattern);
    let found = pattern_compiles(pattern) && captures_of(pattern, m) is Some;
    if prefix.is_prefix_of(m) && !found {
        lemma_check_message(m.skip(prefix.len() as int));
    }
    if found && group_at(captures_of(pattern, m)->0, 1) is Some {
        lemma_check_message(group_at(captures_of(pattern, m)->0, 1)->0);
    }
    if !prefix.is_prefix_of(m) && !found {
        assert(("Database query failed: "@ + ("Check constraint violation: "@ + m)) =~= (
        "Database query failed: Check constraint violation: "@ + m)) by {
            reveal_strlit("Database query failed: ");
            reveal_strlit("Check constraint violation: ");
            reveal_strlit("Database query failed: Check constraint violation: ");
        }
    }
}

/// The error a database failure is reported as.
pub open spec fn db_failure_error(failure: DbFailure) -> InfrastructureErrorView {
    match failure {
        DbFailure::RowNotFound => InfrastructureErrorView::DomainError {
            source: DomainErrorView::NotFound {
                entity: "Resource"@,
                identifier: "query"@,
                value: "unknown"@,
            },
        },
        DbFailure::Database { code: Some(code), message } => coded_database_error(code@, message@),
        DbFailure::Database { code: None, message } => InfrastructureErrorView::QueryError { message: message@ },
        DbFailure::Io { message } => InfrastructureErrorView::ConnectionFailed { message: "IO error: "@ + message@ },
        DbFailure::Configuration { message } => InfrastructureErrorView::ConnectionFailed {
            message: "Configuration error: "@ + message@,
        },
        DbFailure::Migrate { message } => InfrastructureErrorView::MigrationFailed { message: message@ },
        DbFailure::Other { message } => InfrastructureErrorView::InternalError { message: message@ },
    }
}

/// The domain error a row-conversion failure is reported as.
pub open spec fn row_conversion_domain_error(e: RowConversionError) -> DomainErrorView {
    match e {
        RowConversionError::MissingField { field, .. } => DomainErrorView::DataIntegrityError {
            message: "Missing required field '"@ + field@ + "' in database result"@,
            field: None,
            expected: None,
            actual: None,
        },
        RowConversionError::InvalidUuid { field, value, .. } => DomainErrorView::DataIntegrityError {
            message: "Invalid UUID format in field '"@ + field@ + "'"@,
            field: Some(field@),
            expected: Some(uuid_example()),
            actual: Some(value@),
        },
        RowConversionError::InvalidEnum { field, value } => conversion_view(field@, "valid enum value"@, value@),
        RowConversionError::InvalidJson { field, .. } => conversion_view(field@, "valid JSON"@, "invalid JSON"@),
        RowConversionError::InvalidDateTime { field, .. } => conversion_view(
            field@,
            "valid datetime"@,
            "invalid datetime"@,
        ),
    }
}

/// What `DomainError::data_conversion(field, expected, actual)` holds.
pub open spec fn conversion_view(field: Seq<char>, expected: Seq<char>, actual: Seq<char>) -> DomainErrorView {
    DomainErrorView::DataIntegrityError {
        message: "Data conversion failed for field '"@ + field + "'. Expected "@ + expected + " but got '"@
            + actual + "'"@,
        field: Some(field),
        expected: Some(expected),
        actual: Some(actual),
    }
}

/// The domain error a storage failure is reported as: domain errors pass
/// through; connection and system failures make the system unavailable;
/// malformed data is a data-integrity error; constraint violations become
/// conflicts (unique) or validation errors (foreign key, check, not null).
pub open spec fn domain_error_of(e: InfrastructureErrorView) -> DomainErrorView {
    match e {
        InfrastructureErrorView::DomainError { source } => source,
        InfrastructureErrorView::ConnectionFailed { message } => DomainErrorView::SystemUnavailable {
            message: "Connection failed: "@ + message,
            component: Some("database"@),
        },
        InfrastructureErrorView::MigrationFailed { message } => DomainErrorView::SystemUnavailable {
            message: "Migration failed: "@ + message,
            component: Some("database"@),
        },
        InfrastructureErrorView::TransactionError { message } => DomainErrorView::SystemUnavailable {
            message: "Transaction failed: "@ + message,
            component: None,
        },
        InfrastructureErrorView::QueryError { message } => DomainErrorView::SystemUnavailable {
            message: "Database query failed: "@ + message,
            component: None,
        },
        InfrastructureErrorView::InternalError { message } => DomainErrorView::SystemUnavailable {
            message: "Database internal error: "@ + message,
            component: None,
        },
        InfrastructureErrorView::UuidParsingError { value, .. } => DomainErrorView::DataIntegrityError {
            message: "Invalid UUID format in field '"@ + "id"@ + "'"@,
            field: Some("id"@),
            expected: Some(uuid_example()),
            actual: Some(value),
        },
        InfrastructureErrorView::DateTimeError { message } => DomainErrorView::DataIntegrityError {
            message: "DateTime parsing error: "@ + message,
            field: None,
            expected: None,
            actual: None,
        },
        InfrastructureErrorView::JsonError { source } => DomainErrorView::DataIntegrityError {
            message: "JSON parsing error: "@ + source,
            field: None,
            expected: None,
            actual: None,
        },
        InfrastructureErrorView::UniqueConstraintViolation { message, field, value } =>
            DomainErrorView::ConflictError {
            message,
            field: Some(
                match field {
                    Some(f) => f,
                    None => "unknown_field"@,
                },
            ),
            conflicting_value: value,
        },
        InfrastructureErrorView::ForeignKeyConstraintViolation { message } => DomainErrorView::ValidationError {
            field: "reference_id"@,
            message: "Referenced entity does not exist: "@ + message,
            constraint: Some("FOREIGN KEY"@),
            value: None,
        },
        InfrastructureErrorView::CheckConstraintViolation { message, constraint } =>
            DomainErrorView::ValidationError {
            field: "value"@,
            message: "Value violates constraint: "@ + message,
            constraint: Some(
                match constraint {
                    Some(c) => c,
                    None => "CHECK"@,
                },
            ),
            value: None,
        },
        InfrastructureErrorView::NotNullConstraintViolation { field, .. } => {
            let name = match field {
                Some(f) => f,
                None => "required_field"@,
            };
            DomainErrorView::ValidationError {
                field: name,
                message: "The field '"@ + underscores_as_spaces(name) + "' is required and cannot be empty"@,
                constraint: Some("NOT NULL"@),
                value: None,
            }
        },
        InfrastructureErrorView::RowConversionError { source } => row_conversion_domain_error(source),
    }
}

impl InfrastructureError {
    /// The error a database failure is reported as. SQLite's constraint
    /// messages are read for the table and field concerned, and unique and
    /// not-null violations get a message fit for users.
    pub fn from_db_failure(failure: DbFailure) -> (r: Self)
        ensures
            r@ == db_failure_error(failure),
    {
        match failure {
            DbFailure::RowNotFound => InfrastructureError::DomainError {
                source: DomainError::NotFound { entity: own("Resource"), identifier: own("query"), value: own("unknown") },
            },
            DbFailure::Database { code: Some(code), message } => Self::from_coded_database_error(&code, &message),
            DbFailure::Database { code: None, message } => InfrastructureError::QueryError { message },
            DbFailure::Io { message } => InfrastructureError::ConnectionFailed {
                message: concat("IO error: ", message.as_str()),
            },
            DbFailure::Configuration { message } => InfrastructureError::ConnectionFailed {
                message: concat("Configuration error: ", message.as_str()),
            },
            DbFailure::Migrate { message } => InfrastructureError::MigrationFailed { message },
            DbFailure::Other { message } => InfrastructureError::InternalError { message },
        }
    }

    fn from_coded_database_error(code: &String, message: &String) -> (r: Self)
        ensures
            r@ == coded_database_error(code@, message@),
    {
        let code = code.as_str();
        let message = message.as_str();
        if text_eq(code, "2067") || text_eq(code, "1555") || text_eq(code, "19") {
            let (table, field, _value) = Self::parse_unique_constraint_error(message);
            match (&table, &field) {
                (Some(t), Some(f)) => {
                    let friendly = Self::create_user_friendly_constraint_message(
                        t.as_str(),
                        f.as_str(),
                        "unique",
                        message,
                    );
                    InfrastructureError::UniqueConstraintViolation {
                        message: friendly,
                        field: Some(f.clone()),
                        value: None,
                    }
                },
                _ => InfrastructureError::DomainError { source: DomainError::conflict(message) },
            }
        } else if text_eq(code, "275") {
            match Self::parse_check_constraint_error(message) {
                Some(constraint) => InfrastructureError::CheckConstraintViolation {
                    message: concat("Invalid value provided: ", constraint.as_str()),
                    constraint: Some(constraint),
                },
                None => InfrastructureError::QueryError { message: concat("Check constraint violation: ", message) },
            }
        } else if text_eq(code, "1299") || text_eq(code, "1281") {
            let (table, field) = Self::parse_not_null_constraint_error(message);
            match (&table, &field) {
                (Some(t), Some(f)) => {
                    let friendly = Self::create_user_friendly_constraint_message(
                        t.as_str(),
                        f.as_str(),
                        "not_null",
                        message,
                    );
                    InfrastructureError::NotNullConstraintViolation { message: friendly, field: Some(f.clone()) }
                },
                _ => InfrastructureError::NotNullConstraintViolation {
                    message: own("A required field is missing."),
                    field: None,
                },
            }
        } else if text_eq(code, "787") {
            InfrastructureError::ForeignKeyConstraintViolation { message: own(message) }
        } else {
            let mut text = concat3("Database error (", code, "): ");
            text.append(message);
            InfrastructureError::QueryError { message: text }
        }
    }

    /// The domain error this storage failure is reported as.
    pub fn into_domain_error(self) -> (r: DomainError)
        ensures
            r@ == domain_error_of(self@),
    {
        match self {
            InfrastructureError::DomainError { source } => source,
            InfrastructureError::ConnectionFailed { message } => DomainError::database_unavailable(
                concat("Connection failed: ", message.as_str()).as_str(),
            ),
            InfrastructureError::MigrationFailed { message } => DomainError::database_unavailable(
                concat("Migration failed: ", message.as_str()).as_str(),
            ),
            InfrastructureError::TransactionError { message } => DomainError::system_unavailable(
                concat("Transaction failed: ", message.as_str()).as_str(),
            ),
            InfrastructureError::QueryError { message } => DomainError::system_unavailable(
                concat("Database query failed: ", message.as_str()).as_str(),
            ),
            InfrastructureError::InternalError { message } => DomainError::system_unavailable(
                concat("Database internal error: ", message.as_str()).as_str(),
            ),
            InfrastructureError::UuidParsingError { value, .. } => DomainError::invalid_uuid("id", value.as_str()),
            InfrastructureError::DateTimeError { message } => DomainError::data_integrity(
                concat("DateTime parsing error: ", message.as_str()).as_str(),
            ),
            InfrastructureError::JsonError { source } => DomainError::data_integrity(
                concat("JSON parsing error: ", source.as_str()).as_str(),
            ),
            InfrastructureError::UniqueConstraintViolation { message, field, value } => {
                let name = match field {
                    Some(f) => f,
                    None => own("unknown_field"),
                };
                let conflicting = match &value {
                    Some(v) => Some(v.as_str()),
                    None => None,
                };
                DomainError::unique_constraint(name.as_str(), message.as_str(), conflicting)
            },
            InfrastructureError::ForeignKeyConstraintViolation { message } => DomainError::validation_constraint(
                "reference_id",
                concat("Referenced entity does not exist: ", message.as_str()).as_str(),
                "FOREIGN KEY",
                None,
            ),
            InfrastructureError::CheckConstraintViolation { message, constraint } => {
                let name = match constraint {
                    Some(c) => c,
                    None => own("CHECK"),
                };
                DomainError::validation_constraint(
                    "value",
                    concat("Value violates constraint: ", message.as_str()).as_str(),
                    name.as_str(),
                    None,
                )
            },
            InfrastructureError::NotNullConstraintViolation { field, .. } => {
                let name = match field {
                    Some(f) => f,
                    None => own("required_field"),
                };
                DomainError::required_field(name.as_str())
            },
            InfrastructureError::RowConversionError { source } => match source {
                RowConversionError::MissingField { field, .. } => DomainError::data_integrity(
                    concat3("Missing required field '", field.as_str(), "' in database result").as_str(),
                ),
                RowConversionError::InvalidUuid { field, value, .. } => DomainError::invalid_uuid(
                    field.as_str(),
                    value.as_str(),
                ),
                RowConversionError::InvalidEnum { field, value } => DomainError::data_conversion(
                    field.as_str(),
                    "valid enum value",
                    value.as_str(),
                ),
                RowConversionError::InvalidJson { field, .. } => DomainError::data_conversion(
                    field.as_str(),
                    "valid JSON",
                    "invalid JSON",
                ),
                RowConversionError::InvalidDateTime { field, .. } => DomainError::data_conversion(
                    field.as_str(),
                    "valid datetime",
                    "invalid datetime",
                ),
            },
        }
    }
}

// ============================================================================
// What a repository reports
// ============================================================================

/// The domain error a repository reports for a failed database operation.
pub fn storage_failure(failure: DbFailure) -> (r: DomainError)
    ensures
        r@ == domain_error_of(db_failure_error(failure)),
{
    InfrastructureError::from_db_failure(failure).into_domain_error()
}

/// What a repository does about a failed write: report an error, or find
/// out which reference broke a foreign-key constraint.
#[derive(Debug)]
pub enum WriteFailure {
    Report(DomainError),
    DiagnoseForeignKey { message: String },
}

/// What a repository that can diagnose foreign-key failures does about a
/// failed write: a foreign-key violation is diagnosed; any other failure is
/// reported as `storage_failure` reports it.
pub fn write_failure(failure: DbFailure) -> (r: WriteFailure)
    ensures
        match db_failure_error(failure) {
            InfrastructureErrorView::ForeignKeyConstraintViolation { message } => r matches WriteFailure::DiagnoseForeignKey {
                message: m,
            } && m@ == message,
            other => r matches WriteFailure::Report(e) && e@ == domain_error_of(other),
        },
{
    match InfrastructureError::from_db_failure(failure) {
        InfrastructureError::ForeignKeyConstraintViolation { message } => WriteFailure::DiagnoseForeignKey { message },
        other => WriteFailure::Report(other.into_domain_error()),
    }
}

/// The outcome of an update or delete of `entity` with id `id` that
/// changed `rows_affected` rows: none changed means there is no such
/// entity.
pub fn rows_changed(rows_affected: u64, entity: &str, id: u128) -> (r: DomainResult<()>)
    ensures
        match r {
            Ok(_) => rows_affected > 0,
            Err(e) => rows_affected == 0 && e@ == (DomainErrorView::NotFound {
                entity: entity@,
                identifier: "id"@,
                value: uuid_text(id),
            }),
        },
{
    if rows_affected == 0 {
        return Err(DomainError::not_found(entity, id));
    }
    Ok(())
}

/// The outcome of an update or delete of the category `id` that changed
/// `rows_affected` rows: none changed means there is no such category.
pub fn category_rows_changed(rows_affected: u64, id: &str) -> (r: DomainResult<()>)
    ensures
        match r {
            Ok(_) => rows_affected > 0,
            Err(e) => rows_affected == 0 && e@ == (DomainErrorView::NotFound {
                entity: "EventCategory"@,
                identifier: "id"@,
                value: id@,
            }),
        },
{
    if rows_affected == 0 {
        return Err(DomainError::not_found_by_field("EventCategory", "id", id));
    }
    Ok(())
}

// ============================================================================
// Laws
// ============================================================================

/// A domain error that a storage operation carries reaches the domain
/// unchanged.
pub proof fn law_domain_errors_pass_through(source: DomainErrorView)
    ensures
        domain_error_of(InfrastructureErrorView::DomainError { source }) == source,
{
}

/// A unique-constraint failure reaches the domain as a conflict, whatever
/// SQLite's message says.
pub proof fn law_unique_failure_is_conflict(code: Seq<char>, message: Seq<char>)
    requires
        code == "2067"@ || code == "1555"@ || code == "19"@,
    ensures
        domain_error_of(coded_database_error(code, message)) is ConflictError,
{
}

/// A not-null or foreign-key failure reaches the domain as a validation
/// error, whatever SQLite's message says.
pub proof fn law_required_and_reference_failures_are_validation(code: Seq<char>, message: Seq<char>)
    requires
        code == "1299"@ || code == "1281"@ || code == "787"@,
    ensures
        domain_error_of(coded_database_error(code, message)) is ValidationError,
        code == "787"@ ==> domain_error_of(coded_database_error(code, message)) == (DomainErrorView::ValidationError {
            field: "reference_id"@,
            message: "Referenced entity does not exist: "@ + message,
            constraint: Some("FOREIGN KEY"@),
            value: None,
        }),
        code != "787"@ ==> domain_error_of(coded_database_error(code, message))->ValidationError_constraint == Some(
            "NOT NULL"@,
        ),
{
    reveal_strlit("787");
    reveal_strlit("2067");
    reveal_strlit("1555");
    reveal_strlit("19");
    reveal_strlit("275");
    reveal_strlit("1299");
    reveal_strlit("1281");
    assert("787"@.len() == 3 && "787"@[0] == '7');
    assert("2067"@.len() == 4 && "1555"@.len() == 4 && "19"@.len() == 2 && "275"@.len() == 3);
    assert("275"@[0] == '2');
    assert("1299"@.len() == 4 && "1281"@.len() == 4 && "1299"@[0] == '1' && "1281"@[0] == '1');
    assert("2067"@[0] == '2' && "1555"@[1] == '5' && "1299"@[1] == '2' && "1281"@[1] == '2');
    assert("1299"@[2] == '9' && "1281"@[2] == '8');
}

/// A failure with a code that names none of the constraint failures is
/// reported as a failed query that carries the code and SQLite's message.
pub proof fn law_other_codes_are_failed_queries(code: Seq<char>, message: Seq<char>)
    requires
        code != "2067"@ && code != "1555"@ && code != "19"@ && code != "275"@,
        code != "1299"@ && code != "1281"@ && code != "787"@,
    ensures
        domain_error_of(coded_database_error(code, message)) == (DomainErrorView::SystemUnavailable {
            message: "Database query failed: "@ + ("Database error ("@ + code + "): "@ + message),
            component: None,
        }),
{
}

} // verus!
