use aqio::domain::errors::DomainError;
use aqio::persistence::errors::InfrastructureError;
use aqio::persistence::foreign_keys::SqliteForeignKeyDiagnostic;

#[test]
fn test_domain_error_construction() {
    let id = uuid::Uuid::new_v4();
    let error = DomainError::not_found("Event", id.as_u128());

    match error {
        DomainError::NotFound { entity, identifier, value } => {
            assert_eq!(entity, "Event");
            assert_eq!(identifier, "id");
            assert_eq!(value, id.to_string());
        }
        _ => panic!("Wrong error type"),
    }
}

#[test]
fn test_validation_error() {
    let error = DomainError::validation("email", "Invalid email format");

    match error {
        DomainError::ValidationError { field, message, constraint, value } => {
            assert_eq!(field, "email");
            assert_eq!(message, "Invalid email format");
            assert_eq!(constraint, None);
            assert_eq!(value, None);
        }
        _ => panic!("Wrong error type"),
    }
}

#[test]
fn test_validation_with_constraint() {
    let error = DomainError::validation_constraint("age", "Must be at least 18", "MIN_AGE", Some("16"));

    match error {
        DomainError::ValidationError { field, message, constraint, value } => {
            assert_eq!(field, "age");
            assert_eq!(message, "Must be at least 18");
            assert_eq!(constraint, Some("MIN_AGE".to_string()));
            assert_eq!(value, Some("16".to_string()));
        }
        _ => panic!("Wrong error type"),
    }
}

#[test]
fn test_unique_constraint_error() {
    let error = DomainError::unique_constraint("email", "This email is already registered", Some("user@example.com"));

    match error {
        DomainError::ConflictError { message, field, conflicting_value } => {
            assert_eq!(message, "This email is already registered");
            assert_eq!(field, Some("email".to_string()));
            assert_eq!(conflicting_value, Some("user@example.com".to_string()));
        }
        _ => panic!("Wrong error type"),
    }
}

#[test]
fn test_data_integrity_error() {
    let error = DomainError::invalid_uuid("user_id", "invalid-uuid-format");

    match error {
        DomainError::DataIntegrityError { message, field, expected, actual } => {
            assert_eq!(field, Some("user_id".to_string()));
            assert!(message.contains("Invalid UUID format"));
            assert!(expected.is_some());
            assert_eq!(actual, Some("invalid-uuid-format".to_string()));
        }
        _ => panic!("Wrong error type"),
    }
}

#[test]
fn test_business_rule_error() {
    let error = DomainError::business_rule("Event capacity exceeded");

    match error {
        DomainError::BusinessRuleViolation { message } => {
            assert_eq!(message, "Event capacity exceeded");
        }
        _ => panic!("Wrong error type"),
    }
}

#[test]
fn errors_test_domain_error_construction() {
    let id = uuid::Uuid::new_v4();
    let error = DomainError::not_found("Event", id.as_u128());

    match error {
        DomainError::NotFound { entity, identifier, value } => {
            assert_eq!(entity, "Event");
            assert_eq!(identifier, "id");
            assert_eq!(value, id.to_string());
        }
        _ => panic!("Wrong error type"),
    }
}

#[test]
fn errors_test_validation_error() {
    let error = DomainError::validation("email", "Invalid email format");

    match error {
        DomainError::ValidationError { field, message, .. } => {
            assert_eq!(field, "email");
            assert_eq!(message, "Invalid email format");
        }
        _ => panic!("Wrong error type"),
    }
}

#[test]
fn errors_test_business_rule_error() {
    let error = DomainError::business_rule("Event capacity exceeded");

    match error {
        DomainError::BusinessRuleViolation { message } => {
            assert_eq!(message, "Event capacity exceeded");
        }
        _ => panic!("Wrong error type"),
    }
}

#[test]
fn test_user_friendly_error_messages() {
    let error = SqliteForeignKeyDiagnostic::create_user_friendly_foreign_key_error(
        "Event",
        "category_id",
        "non_existing_category",
    );

    match error {
        DomainError::ValidationError { field, message, .. } => {
            assert_eq!(field, "category_id");
            assert!(message.contains("Category 'non_existing_category' does not exist"));
            assert!(message.contains("Available categories can be found at GET /api/v1/categories"));
        }
        _ => panic!("Expected ValidationError"),
    }

    let user_error = SqliteForeignKeyDiagnostic::create_user_friendly_foreign_key_error(
        "Invitation",
        "inviter_id",
        "12345",
    );

    match user_error {
        DomainError::ValidationError { field, message, .. } => {
            assert_eq!(field, "inviter_id");
            assert!(message.contains("Inviter user '12345' does not exist"));
            assert!(message.contains("Only active users can send invitations"));
        }
        _ => panic!("Expected ValidationError"),
    }
}

#[test]
fn test_unique_constraint_parsing() {
    let sqlite_message = "UNIQUE constraint failed: users.email";
    let (table, field, _value) = InfrastructureError::parse_unique_constraint_error(sqlite_message);

    assert_eq!(table, Some("users".to_string()));
    assert_eq!(field, Some("email".to_string()));

    let friendly_message =
        InfrastructureError::create_user_friendly_constraint_message("users", "email", "unique", sqlite_message);
    assert_eq!(
        friendly_message,
        "This email address is already registered. Please use a different email or try signing in."
    );
}

#[test]
fn test_not_null_constraint_parsing() {
    let sqlite_message = "NOT NULL constraint failed: users.name";
    let (table, field) = InfrastructureError::parse_not_null_constraint_error(sqlite_message);

    assert_eq!(table, Some("users".to_string()));
    assert_eq!(field, Some("name".to_string()));

    let friendly_message =
        InfrastructureError::create_user_friendly_constraint_message("users", "name", "not_null", sqlite_message);
    assert_eq!(friendly_message, "The field 'name' is required and cannot be empty.");
}

#[test]
fn test_event_category_unique_constraint() {
    let sqlite_message = "UNIQUE constraint failed: event_categories.name";
    let (table, field, _value) = InfrastructureError::parse_unique_constraint_error(sqlite_message);

    assert_eq!(table, Some("event_categories".to_string()));
    assert_eq!(field, Some("name".to_string()));

    let friendly_message = InfrastructureError::create_user_friendly_constraint_message(
        "event_categories",
        "name",
        "unique",
        sqlite_message,
    );
    assert_eq!(friendly_message, "This category name is already taken. Please choose a different name.");
}

#[test]
fn test_registration_unique_constraint() {
    let sqlite_message = "UNIQUE constraint failed: event_registrations.user_id";
    let (table, field, _value) = InfrastructureError::parse_unique_constraint_error(sqlite_message);

    assert_eq!(table, Some("event_registrations".to_string()));
    assert_eq!(field, Some("user_id".to_string()));

    let friendly_message = InfrastructureError::create_user_friendly_constraint_message(
        "event_registrations",
        "user_id",
        "unique",
        sqlite_message,
    );
    assert_eq!(friendly_message, "You are already registered for this event.");
}

#[test]
fn test_check_constraint_parsing() {
    let sqlite_message = "CHECK constraint failed: users.role IN ('admin', 'organizer', 'participant')";
    let constraint = InfrastructureError::parse_check_constraint_error(sqlite_message);

    assert_eq!(constraint, Some("users.role IN ('admin', 'organizer', 'participant')".to_string()));
}

#[test]
fn test_generic_field_fallback() {
    let sqlite_message = "UNIQUE constraint failed: custom_table.custom_field";
    let (table, field, _value) = InfrastructureError::parse_unique_constraint_error(sqlite_message);

    assert_eq!(table, Some("custom_table".to_string()));
    assert_eq!(field, Some("custom_field".to_string()));

    let friendly_message = InfrastructureError::create_user_friendly_constraint_message(
        "custom_table",
        "custom_field",
        "unique",
        sqlite_message,
    );
    assert_eq!(friendly_message, "This custom field is already taken. Please choose a different value.");
}
