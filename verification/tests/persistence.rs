use aqio::domain::errors::DomainError;
use aqio::domain::models::{
    Event, EventInvitation, EventRegistration, EventStatus, InvitationMethod, InvitationStatus, LocationType,
    RegistrationSource, RegistrationStatus, User, UserRole,
};
use aqio::persistence::errors::{
    category_rows_changed, rows_changed, storage_failure, write_failure, DbFailure, InfrastructureError,
    RowConversionError, WriteFailure,
};
use aqio::persistence::foreign_keys::{
    invitation_references, registration_references, user_references, ForeignKeyDiagnostic, ReferenceKind,
    SqliteForeignKeyDiagnostic,
};
use aqio::persistence::mapping::{
    event_status_from_name, event_status_to_string, invitation_method_to_string, invitation_status_to_string,
    location_type_from_name, location_type_to_string, map_invitation_method, map_invitation_status, map_user_role,
    parse_optional_uuid, parse_uuid, registration_source_from_name, registration_status_from_name,
    registration_status_to_string, user_role_to_string, EventRow, InvitationRow, UserRow,
};
use aqio::persistence::rows::{
    category_from_columns, category_record, column_event_status, column_i32, column_location_type,
    column_optional_i32, column_registration_source, column_registration_status, column_user_role, column_uuid,
    event_from_stored, event_to_stored, invitation_from_columns, invitation_record, registration_from_row,
    registration_to_row, user_from_columns, user_record, CategoryColumns, InvitationColumns, RegistrationRow,
    StoredEvent, UserColumns,
};

const ID: &str = "550e8400-e29b-41d4-a716-446655440001";

fn invitation(invited_user: Option<u128>) -> EventInvitation {
    EventInvitation {
        id: 1,
        event_id: 2,
        invited_user_id: invited_user,
        invited_contact_id: None,
        invited_email: None,
        invited_name: None,
        inviter_id: 3,
        invitation_method: InvitationMethod::Email,
        personal_message: None,
        status: InvitationStatus::Pending,
        sent_at: None,
        opened_at: None,
        responded_at: None,
        invitation_token: None,
        expires_at: None,
        created_at: 0,
        updated_at: 0,
    }
}

#[test]
fn test_parse_uuid_valid() {
    let id = uuid::Uuid::new_v4();
    let parsed = parse_uuid(&id.to_string()).unwrap();
    assert_eq!(id.as_u128(), parsed);
}

#[test]
fn test_parse_uuid_invalid() {
    let result = parse_uuid("invalid-uuid");
    assert!(matches!(result, Err(InfrastructureError::UuidParsingError { .. })));
}

#[test]
fn optional_uuids() {
    assert!(matches!(parse_optional_uuid(None), Ok(None)));
    let text = ID.to_string();
    assert_eq!(parse_optional_uuid(Some(&text)).unwrap(), Some(0x550e8400e29b41d4a716446655440001));
    let bad = "x".to_string();
    match parse_optional_uuid(Some(&bad)) {
        Err(InfrastructureError::UuidParsingError { value, .. }) => assert_eq!(value, "x"),
        other => panic!("expected a UUID error, got {:?}", other),
    }
}

#[test]
fn enum_names_round_trip() {
    for status in [
        InvitationStatus::Pending,
        InvitationStatus::Sent,
        InvitationStatus::Delivered,
        InvitationStatus::Opened,
        InvitationStatus::Accepted,
        InvitationStatus::Declined,
        InvitationStatus::Cancelled,
    ] {
        assert_eq!(map_invitation_status(&invitation_status_to_string(&status)), status);
    }
    for method in [InvitationMethod::Email, InvitationMethod::Sms, InvitationMethod::Manual, InvitationMethod::BulkImport] {
        assert_eq!(map_invitation_method(&invitation_method_to_string(&method)), method);
    }
    for role in [UserRole::Admin, UserRole::Organizer, UserRole::Participant] {
        assert_eq!(map_user_role(&user_role_to_string(&role)), role);
    }
    for t in [LocationType::Physical, LocationType::Virtual, LocationType::Hybrid] {
        assert_eq!(location_type_from_name(location_type_to_string(&t)), Some(t));
    }
    for s in [EventStatus::Draft, EventStatus::Published, EventStatus::Cancelled, EventStatus::Completed] {
        assert_eq!(event_status_from_name(event_status_to_string(&s)), Some(s));
    }
    for s in [
        RegistrationStatus::Registered,
        RegistrationStatus::Waitlisted,
        RegistrationStatus::Cancelled,
        RegistrationStatus::Attended,
        RegistrationStatus::NoShow,
    ] {
        assert_eq!(registration_status_from_name(registration_status_to_string(&s)), Some(s));
    }
    assert_eq!(map_invitation_status("weird"), InvitationStatus::Pending);
    assert_eq!(map_invitation_method("fax"), InvitationMethod::Email);
    assert_eq!(map_user_role("root"), UserRole::Participant);
    assert_eq!(registration_status_from_name("WAITLISTED"), Some(RegistrationStatus::Waitlisted));
    assert_eq!(registration_source_from_name("Waitlist_Promotion"), Some(RegistrationSource::WaitlistPromotion));
    assert_eq!(location_type_from_name("PHYSICAL"), None);
}

#[test]
fn columns_decode() {
    assert_eq!(column_uuid("id", Ok(ID.to_string())).unwrap(), 0x550e8400e29b41d4a716446655440001);
    match column_uuid("id", Ok("bad".to_string())) {
        Err(RowConversionError::InvalidUuid { field, value, .. }) => {
            assert_eq!(field, "id");
            assert_eq!(value, "bad");
        }
        other => panic!("expected an invalid UUID, got {:?}", other),
    }
    match column_uuid("id", Err("no such column".to_string())) {
        Err(RowConversionError::MissingField { field, cause }) => {
            assert_eq!(field, "id");
            assert_eq!(cause, "no such column");
        }
        other => panic!("expected a missing field, got {:?}", other),
    }
    assert_eq!(column_location_type("location_type", Ok("Hybrid".to_string())).unwrap(), LocationType::Hybrid);
    match column_user_role("role", Ok("Admin".to_string())) {
        Err(RowConversionError::InvalidEnum { field, value }) => {
            assert_eq!(field, "role");
            assert_eq!(value, "Admin");
        }
        other => panic!("expected an invalid enum, got {:?}", other),
    }
    assert_eq!(column_registration_status("status", Ok("No_Show".to_string())).unwrap(), RegistrationStatus::NoShow);
}

#[test]
fn users_and_categories_from_columns() {
    let user: User = user_from_columns(UserColumns {
        id: Ok(ID.to_string()),
        keycloak_id: Ok("kc".to_string()),
        email: Ok("a@b.no".to_string()),
        name: Ok("A".to_string()),
        company_id: Ok(None),
        role: Ok("organizer".to_string()),
        is_active: Ok(true),
        created_at: Ok(1),
        updated_at: Ok(2),
    })
    .unwrap();
    assert_eq!(user.role, UserRole::Organizer);
    assert_eq!(user.updated_at, 2);

    let missing = category_from_columns(CategoryColumns {
        id: Ok("c".to_string()),
        name: Ok("C".to_string()),
        description: Err("gone".to_string()),
        color_hex: Ok(None),
        icon_name: Ok(None),
        is_active: Err("also gone".to_string()),
        created_at: Ok(0),
    });
    match missing {
        Err(RowConversionError::MissingField { field, .. }) => assert_eq!(field, "description"),
        other => panic!("expected a missing field, got {:?}", other),
    }
}

#[test]
fn events_read_with_defaults() {
    let stored = StoredEvent {
        id: Some(ID.to_string()),
        title: Some("T".to_string()),
        description: None,
        category_id: Some("conf".to_string()),
        start_date: Some(5),
        end_date: None,
        timezone: None,
        location_type: Some("virtual".to_string()),
        location_name: None,
        address: None,
        virtual_link: Some("https://x".to_string()),
        virtual_access_code: None,
        organizer_id: Some("not a uuid".to_string()),
        co_organizers: Some(
            "[\"00000000-0000-0000-0000-000000000001\",\"00000000-0000-0000-0000-000000000002\"]".to_string(),
        ),
        is_private: Some(true),
        requires_approval: None,
        max_attendees: Some(3),
        allow_guests: None,
        max_guests_per_person: None,
        registration_opens: None,
        registration_closes: None,
        registration_required: None,
        allow_waitlist: None,
        send_reminders: None,
        collect_dietary_info: None,
        collect_accessibility_info: None,
        image_url: None,
        custom_fields: None,
        status: Some("PUBLISHED".to_string()),
        created_at: Some(7),
        updated_at: None,
    };
    let event = event_from_stored(stored);
    assert_eq!(event.id, 0x550e8400e29b41d4a716446655440001);
    assert_eq!(event.organizer_id, 0);
    assert_eq!(event.description, "");
    assert_eq!(event.end_date, 0);
    assert_eq!(event.location_type, LocationType::Virtual);
    assert_eq!(event.co_organizers, vec![1, 2]);
    assert_eq!(event.status, EventStatus::Draft);
    assert!(event.is_private);
    assert!(!event.send_reminders);
}

fn registration_row() -> RegistrationRow {
    RegistrationRow {
        id: ID.to_string(),
        event_id: ID.to_string(),
        invitation_id: None,
        user_id: Some("bad-user".to_string()),
        external_contact_id: None,
        registrant_email: None,
        registrant_name: None,
        registrant_phone: None,
        registrant_company: None,
        status: "Attended".to_string(),
        registration_source: "somewhere".to_string(),
        guest_count: 2,
        guest_names: Some("[\"B\",\"C\"]".to_string()),
        dietary_restrictions: None,
        accessibility_needs: None,
        special_requests: None,
        custom_responses: None,
        registered_at: 1,
        cancelled_at: None,
        checked_in_at: None,
        waitlist_position: Some(4),
        waitlist_added_at: None,
        created_at: 1,
        updated_at: 1,
    }
}

#[test]
fn registrations_read_from_rows() {
    match registration_from_row(registration_row()) {
        Err(DomainError::BusinessRuleViolation { message }) => {
            assert!(message.starts_with("Invalid UUID format for user ID: "))
        }
        other => panic!("expected the user id refused, got {:?}", other),
    }
    let row = RegistrationRow { user_id: None, ..registration_row() };
    let reg: EventRegistration = registration_from_row(row).unwrap();
    assert_eq!(reg.status, RegistrationStatus::Attended);
    assert_eq!(reg.registration_source, RegistrationSource::Direct);
    assert_eq!(reg.guest_names, vec!["B".to_string(), "C".to_string()]);
    assert_eq!(reg.waitlist_position, Some(4));
    let unreadable = RegistrationRow { user_id: None, guest_names: Some("{".to_string()), ..registration_row() };
    assert!(registration_from_row(unreadable).unwrap().guest_names.is_empty());
}

#[test]
fn rows_of_the_earlier_schema() {
    let event = Event {
        id: 0x550e8400e29b41d4a716446655440001,
        title: "Launch".to_string(),
        description: "Ærlig \"quoted\" text".to_string(),
        category_id: "tech".to_string(),
        start_date: 10,
        end_date: 20,
        timezone: "Europe/Oslo".to_string(),
        location_type: LocationType::Hybrid,
        location_name: Some("Hall".to_string()),
        address: None,
        virtual_link: Some("https://x".to_string()),
        virtual_access_code: None,
        organizer_id: 3,
        co_organizers: vec![7, 0x550e8400e29b41d4a716446655440001],
        is_private: true,
        requires_approval: false,
        max_attendees: Some(5),
        allow_guests: true,
        max_guests_per_person: Some(2),
        registration_opens: Some(1),
        registration_closes: None,
        registration_required: true,
        allow_waitlist: false,
        send_reminders: true,
        collect_dietary_info: false,
        collect_accessibility_info: true,
        image_url: None,
        custom_fields: Some("{}".to_string()),
        status: EventStatus::Completed,
        created_at: 1,
        updated_at: 2,
    };
    let stored = event_to_stored(&event);
    assert_eq!(stored.status.as_deref(), Some("completed"));
    let back = event_from_stored(stored);
    assert_eq!(back.id, event.id);
    assert_eq!(back.description, event.description);
    assert_eq!(back.co_organizers, event.co_organizers);
    assert_eq!(back.status, EventStatus::Completed);
    assert_eq!(back.location_type, LocationType::Hybrid);
    assert_eq!(back.max_attendees, Some(5));

    let mut unreadable = event_to_stored(&event);
    unreadable.co_organizers = Some("[\"nope\"]".to_string());
    assert!(event_from_stored(unreadable).co_organizers.is_empty());
}

#[test]
fn written_registrations_read_back() {
    let mut row = registration_row();
    row.user_id = Some(ID.to_string());
    let registration = registration_from_row(row).unwrap();
    let mut changed = registration.clone();
    changed.guest_names = vec!["a \"quoted\" name".to_string(), "Ærlig".to_string()];
    changed.status = RegistrationStatus::NoShow;
    changed.waitlist_position = None;
    let written = registration_to_row(&changed);
    assert_eq!(written.status, "no_show");
    let back = registration_from_row(written).unwrap();
    assert_eq!(back.guest_names, changed.guest_names);
    assert_eq!(back.status, RegistrationStatus::NoShow);
    assert_eq!(back.user_id, changed.user_id);
    assert_eq!(back.guest_count, changed.guest_count);
}

#[test]
fn storage_failures_reported() {
    let unique = storage_failure(DbFailure::Database {
        code: Some("2067".to_string()),
        message: "UNIQUE constraint failed: users.email".to_string(),
    });
    match unique {
        DomainError::ConflictError { message, field, .. } => {
            assert_eq!(field, Some("email".to_string()));
            assert_eq!(message, "This email address is already registered. Please use a different email or try signing in.");
        }
        other => panic!("expected a conflict, got {:?}", other),
    }
    let not_null = storage_failure(DbFailure::Database {
        code: Some("1299".to_string()),
        message: "NOT NULL constraint failed: users.name".to_string(),
    });
    match not_null {
        DomainError::ValidationError { field, message, .. } => {
            assert_eq!(field, "name");
            assert_eq!(message, "The field 'name' is required and cannot be empty");
        }
        other => panic!("expected a validation error, got {:?}", other),
    }
    match storage_failure(DbFailure::RowNotFound) {
        DomainError::NotFound { entity, .. } => assert_eq!(entity, "Resource"),
        other => panic!("expected not found, got {:?}", other),
    }
    match storage_failure(DbFailure::Io { message: "broken pipe".to_string() }) {
        DomainError::SystemUnavailable { message, component } => {
            assert_eq!(message, "Connection failed: IO error: broken pipe");
            assert_eq!(component, Some("database".to_string()));
        }
        other => panic!("expected unavailability, got {:?}", other),
    }
    match write_failure(DbFailure::Database { code: Some("787".to_string()), message: "FOREIGN KEY constraint failed".to_string() }) {
        WriteFailure::DiagnoseForeignKey { message } => assert_eq!(message, "FOREIGN KEY constraint failed"),
        other => panic!("expected a diagnosis, got {:?}", other),
    }
    assert!(matches!(rows_changed(0, "Event", 1), Err(DomainError::NotFound { .. })));
    assert!(rows_changed(1, "Event", 1).is_ok());
    match category_rows_changed(0, "conf") {
        Err(DomainError::NotFound { entity, value, .. }) => {
            assert_eq!(entity, "EventCategory");
            assert_eq!(value, "conf");
        }
        other => panic!("expected not found, got {:?}", other),
    }
}

#[test]
fn foreign_key_diagnosis() {
    let diagnostic = SqliteForeignKeyDiagnostic;
    let refs = invitation_references(&invitation(Some(4)));
    assert_eq!(refs.len(), 3);
    assert_eq!(refs[1].kind, ReferenceKind::ActiveUser);

    match diagnostic.diagnose_foreign_key_violation(&refs, &vec![true, false]) {
        DomainError::ValidationError { field, value, .. } => {
            assert_eq!(field, "inviter_id");
            assert_eq!(value, Some(uuid::Uuid::from_u128(3).to_string()));
        }
        other => panic!("expected the inviter reported, got {:?}", other),
    }
    match diagnostic.diagnose_foreign_key_violation(&refs, &vec![true, true, true]) {
        DomainError::BusinessRuleViolation { message } => {
            assert_eq!(message, "Foreign key constraint violation: Unknown referenced entity does not exist")
        }
        other => panic!("expected an unknown reference, got {:?}", other),
    }
    assert_eq!(invitation_references(&invitation(None)).len(), 2);

    let reg = EventRegistration {
        id: 1,
        event_id: 2,
        invitation_id: Some(5),
        user_id: None,
        external_contact_id: None,
        registrant_email: None,
        registrant_name: None,
        registrant_phone: None,
        registrant_company: None,
        status: RegistrationStatus::Registered,
        registration_source: RegistrationSource::Invitation,
        guest_count: 0,
        guest_names: vec![],
        dietary_restrictions: None,
        accessibility_needs: None,
        special_requests: None,
        custom_responses: None,
        registered_at: 0,
        cancelled_at: None,
        checked_in_at: None,
        waitlist_position: None,
        waitlist_added_at: None,
        created_at: 0,
        updated_at: 0,
    };
    let refs = registration_references(&reg);
    assert_eq!(refs.len(), 2);
    assert_eq!(refs[1].field, "invitation_id");
    match diagnostic.diagnose_foreign_key_violation(&refs, &vec![true, false]) {
        DomainError::ValidationError { message, .. } => assert!(message.contains("Cannot link registration")),
        other => panic!("expected the invitation reported, got {:?}", other),
    }

    let user = User {
        id: 1,
        keycloak_id: "kc".to_string(),
        email: "e".to_string(),
        name: "n".to_string(),
        company_id: None,
        role: UserRole::Participant,
        is_active: true,
        created_at: 0,
        updated_at: 0,
    };
    assert!(user_references(&user).is_empty());
    match SqliteForeignKeyDiagnostic::create_user_friendly_foreign_key_error("Company", "owner_id", "9") {
        DomainError::BusinessRuleViolation { message } => assert_eq!(
            message,
            "Foreign key constraint violation: Referenced company '9' does not exist in field 'owner_id'"
        ),
        other => panic!("expected a business rule violation, got {:?}", other),
    }
}

#[test]
fn integer_columns_keep_the_low_bits() {
    assert_eq!(column_i32("guest_count", Ok(7)).unwrap(), 7);
    assert_eq!(column_i32("guest_count", Ok(4_294_967_297)).unwrap(), 1);
    assert!(matches!(column_i32("guest_count", Err("gone".to_string())), Err(RowConversionError::MissingField { .. })));
    assert_eq!(column_optional_i32("waitlist_position", Ok(Some(3))).unwrap(), Some(3));
    assert_eq!(column_optional_i32("waitlist_position", Ok(None)).unwrap(), None);
}

#[test]
fn status_and_source_columns_ignore_case() {
    assert_eq!(column_event_status("status", Ok("PUBLISHED".to_string())).unwrap(), EventStatus::Published);
    match column_event_status("status", Ok("archived".to_string())) {
        Err(RowConversionError::InvalidEnum { field, value }) => {
            assert_eq!(field, "status");
            assert_eq!(value, "archived");
        }
        _ => panic!("expected an invalid value"),
    }
    assert_eq!(
        column_registration_source("registration_source", Ok("Waitlist_Promotion".to_string())).unwrap(),
        RegistrationSource::WaitlistPromotion
    );
    assert!(column_registration_source("registration_source", Ok("walk-in".to_string())).is_err());
}

#[test]
fn user_columns_report_the_first_unreadable_column() {
    let columns = |company: Result<Option<String>, String>, role: &str| UserColumns {
        id: Ok(ID.to_string()),
        keycloak_id: Ok("kc".to_string()),
        email: Err("no email".to_string()),
        name: Ok("A".to_string()),
        company_id: company,
        role: Ok(role.to_string()),
        is_active: Ok(true),
        created_at: Ok(1),
        updated_at: Err("no time".to_string()),
    };
    match user_from_columns(columns(Ok(None), "admin")) {
        Err(RowConversionError::MissingField { field, cause }) => {
            assert_eq!(field, "email");
            assert_eq!(cause, "no email");
        }
        _ => panic!("expected the e-mail column to be reported"),
    }
    let mut readable_email = columns(Ok(Some("not-a-uuid".to_string())), "admin");
    readable_email.email = Ok("a@b.no".to_string());
    match user_from_columns(readable_email) {
        Err(RowConversionError::InvalidUuid { field, value, .. }) => {
            assert_eq!(field, "company_id");
            assert_eq!(value, "not-a-uuid");
        }
        _ => panic!("expected the company column to be reported"),
    }
    let mut bad_role = columns(Ok(None), "Admin");
    bad_role.email = Ok("a@b.no".to_string());
    match user_from_columns(bad_role) {
        Err(RowConversionError::InvalidEnum { field, value }) => {
            assert_eq!(field, "role");
            assert_eq!(value, "Admin");
        }
        _ => panic!("expected the role column to be reported"),
    }
}

#[test]
fn written_users_categories_and_invitations_read_back() {
    let user = User {
        id: 0x550e8400e29b41d4a716446655440001,
        keycloak_id: "kc-1".to_string(),
        email: "a@b.no".to_string(),
        name: "A".to_string(),
        company_id: Some(9),
        role: UserRole::Organizer,
        is_active: true,
        created_at: 1,
        updated_at: 2,
    };
    let rec = user_record(&user);
    assert_eq!(rec.role, "organizer");
    assert_eq!(rec.company_id.as_deref(), Some("00000000-0000-0000-0000-000000000009"));
    let back = user_from_columns(UserColumns {
        id: Ok(rec.id),
        keycloak_id: Ok(rec.keycloak_id),
        email: Ok(rec.email),
        name: Ok(rec.name),
        company_id: Ok(rec.company_id),
        role: Ok(rec.role),
        is_active: Ok(rec.is_active),
        created_at: Ok(rec.created_at),
        updated_at: Ok(rec.updated_at),
    })
    .unwrap();
    assert_eq!(back.id, user.id);
    assert_eq!(back.company_id, Some(9));
    assert_eq!(back.role, UserRole::Organizer);

    let category = aqio::domain::models::EventCategory {
        id: "tech".to_string(),
        name: "Tech".to_string(),
        description: None,
        color_hex: Some("#000000".to_string()),
        icon_name: None,
        is_active: false,
        created_at: 4,
    };
    let rec = category_record(&category);
    let back = category_from_columns(CategoryColumns {
        id: Ok(rec.id),
        name: Ok(rec.name),
        description: Ok(rec.description),
        color_hex: Ok(rec.color_hex),
        icon_name: Ok(rec.icon_name),
        is_active: Ok(rec.is_active),
        created_at: Ok(rec.created_at),
    })
    .unwrap();
    assert_eq!(back.name, "Tech");
    assert!(!back.is_active);

    let mut inv = invitation(Some(5));
    inv.status = InvitationStatus::Declined;
    inv.invitation_method = InvitationMethod::BulkImport;
    let rec = invitation_record(&inv);
    assert_eq!(rec.status, "declined");
    assert_eq!(rec.invitation_method, "bulk_import");
    let back = invitation_from_columns(InvitationColumns {
        id: Ok(rec.id),
        event_id: Ok(rec.event_id),
        invited_user_id: Ok(rec.invited_user_id),
        invited_contact_id: Ok(rec.invited_contact_id),
        invited_email: Ok(rec.invited_email),
        invited_name: Ok(rec.invited_name),
        inviter_id: Ok(rec.inviter_id),
        invitation_method: Ok(rec.invitation_method),
        personal_message: Ok(rec.personal_message),
        status: Ok(rec.status),
        sent_at: Ok(rec.sent_at),
        opened_at: Ok(rec.opened_at),
        responded_at: Ok(rec.responded_at),
        invitation_token: Ok(rec.invitation_token),
        expires_at: Ok(rec.expires_at),
        created_at: Ok(rec.created_at),
        updated_at: Ok(rec.updated_at),
    })
    .unwrap();
    assert_eq!(back.status, InvitationStatus::Declined);
    assert_eq!(back.invitation_method, InvitationMethod::BulkImport);
    assert_eq!(back.invited_user_id, Some(5));
}
