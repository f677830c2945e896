use aqio::api::auth::Claims;
use aqio::api::dto::CreateEventRequest;
use aqio::api::errors::ApiError;
use aqio::api::services::{
    attendance_count, change_registration_status, check_event_deletion, check_new_invitation, check_new_registration,
    check_new_user, found, health_report, missing, prepare_event_update_at, prepare_new_event, registration_stats,
    require_admin, require_registrant, require_registration_remover, require_registration_viewer,
    require_self_or_admin, require_staff, requesting_user_id, signed_in_user, waitlist_count,
};
use aqio::api::fixtures::{create_event_request, create_organizer_claims};
use aqio::api::mocks::{MockEventRepository, MockUserRepository};
use aqio::domain::errors::DomainError;
use aqio::domain::models::{
    Event, EventInvitation, EventRegistration, EventStatus, InvitationMethod, InvitationStatus, LocationType,
    RegistrationSource, RegistrationStatus, User, UserRole,
};

const ME: &str = "550e8400-e29b-41d4-a716-446655440001";
const ME_ID: u128 = 0x550e8400e29b41d4a716446655440001;

fn claims(sub: &str, roles: &[&str]) -> Claims {
    Claims {
        sub: sub.to_string(),
        email: "x@y.no".to_string(),
        name: "X".to_string(),
        exp: 0,
        iat: 0,
        roles: Some(roles.iter().map(|r| r.to_string()).collect()),
    }
}

fn request() -> CreateEventRequest {
    CreateEventRequest {
        title: "Test Event".to_string(),
        description: "A test event".to_string(),
        category_id: "general".to_string(),
        start_date: 1_000,
        end_date: 2_000,
        timezone: "UTC".to_string(),
        location_type: LocationType::Physical,
        location_name: Some("Bergen".to_string()),
        address: None,
        virtual_link: None,
        virtual_access_code: None,
        is_private: None,
        requires_approval: None,
        max_attendees: None,
        allow_guests: None,
        max_guests_per_person: None,
        registration_opens: None,
        registration_closes: None,
        registration_required: None,
        allow_waitlist: None,
        send_reminders: None,
        collect_dietary_info: None,
        collect_accessibility_info: None,
        image_url: None,
        custom_fields: None,
    }
}

fn existing_event(organizer: u128, start: i64) -> Event {
    let mut e = request().to_domain_event_at(organizer, 77, 5).unwrap();
    e.start_date = start;
    e.end_date = start + 1000;
    e.status = EventStatus::Published;
    e
}

fn registration(user: Option<u128>, status: RegistrationStatus) -> EventRegistration {
    EventRegistration {
        id: 1,
        event_id: 2,
        invitation_id: None,
        user_id: user,
        external_contact_id: None,
        registrant_email: None,
        registrant_name: None,
        registrant_phone: None,
        registrant_company: None,
        status,
        registration_source: RegistrationSource::Direct,
        guest_count: 0,
        guest_names: vec![],
        dietary_restrictions: None,
        accessibility_needs: None,
        special_requests: None,
        custom_responses: None,
        registered_at: 0,
        cancelled_at: None,
        checked_in_at: None,
        waitlist_position: None,
        waitlist_added_at: None,
        created_at: 0,
        updated_at: 0,
    }
}

fn authorization_message(r: Result<(), ApiError>) -> String {
    match r {
        Err(ApiError::Authorization { message }) => message,
        other => panic!("expected an authorization refusal, got {:?}", other),
    }
}

#[test]
fn who_may_do_what() {
    assert_eq!(requesting_user_id(&claims(ME, &[])).unwrap(), ME_ID);
    assert!(matches!(requesting_user_id(&claims("kc-123", &[])), Err(ApiError::Authentication { .. })));

    assert!(require_admin(&claims(ME, &["admin"]), "Only administrators can list users").is_ok());
    assert_eq!(
        authorization_message(require_admin(&claims(ME, &["organizer"]), "Only administrators can list users")),
        "Only administrators can list users"
    );
    assert!(require_staff(&claims(ME, &["organizer"]), "m").is_ok());
    assert!(require_staff(&claims(ME, &["participant"]), "m").is_err());

    assert!(require_self_or_admin(&claims(ME, &[]), ME_ID).is_ok());
    assert_eq!(authorization_message(require_self_or_admin(&claims(ME, &[]), 5)), "Access denied");
    assert!(require_self_or_admin(&claims(ME, &["admin"]), 5).is_ok());
    assert!(matches!(require_self_or_admin(&claims("kc", &["admin"]), 5), Err(ApiError::Authentication { .. })));

    let mine = registration(Some(ME_ID), RegistrationStatus::Registered);
    let theirs = registration(Some(5), RegistrationStatus::Registered);
    assert!(require_registration_viewer(&claims(ME, &[]), &mine).is_ok());
    assert_eq!(authorization_message(require_registration_viewer(&claims(ME, &[]), &theirs)), "Access denied");
    assert!(require_registrant(ME_ID, &mine, "You can only update your own registration").is_ok());
    assert_eq!(
        authorization_message(require_registrant(ME_ID, &theirs, "You can only cancel your own registration")),
        "You can only cancel your own registration"
    );
    assert!(require_registration_remover(&claims(ME, &["organizer"]), ME_ID, &theirs).is_ok());
    assert_eq!(
        authorization_message(require_registration_remover(&claims(ME, &[]), ME_ID, &theirs)),
        "You can only delete your own registration"
    );
}

#[test]
fn lookups() {
    match missing("Event", ME_ID) {
        ApiError::NotFound { resource } => assert_eq!(resource, format!("Event with ID {}", ME)),
        other => panic!("expected not found, got {:?}", other),
    }
    assert_eq!(found(Ok(Some(3u8)), "Event", 1).unwrap(), 3);
    assert!(matches!(found::<u8>(Ok(None), "Event", 1), Err(ApiError::NotFound { .. })));
    assert!(matches!(
        found::<u8>(Err(DomainError::business_rule("Mock failure")), "Event", 1),
        Err(ApiError::Domain { source: DomainError::BusinessRuleViolation { .. } })
    ));
}

#[test]
fn test_update_event_authorization_decision() {
    let existing = existing_event(1, 10_000);
    assert_eq!(
        authorization_message(prepare_event_update_at(&existing, &request(), 2, 9, 50).map(|_| ())),
        "Only the event organizer can update this event"
    );
    let updated = prepare_event_update_at(&existing, &request(), 1, 9, 50).unwrap();
    assert_eq!(updated.id, existing.id);
    assert_eq!(updated.created_at, existing.created_at);
    assert_eq!(updated.updated_at, 50);
    assert_eq!(updated.status, EventStatus::Draft);
}

#[test]
fn test_delete_event_decisions() {
    let future = existing_event(1, 10_000);
    assert_eq!(
        authorization_message(check_event_deletion(&future, 2, 5_000)),
        "Only the event organizer can delete this event"
    );
    assert!(check_event_deletion(&future, 1, 5_000).is_ok());
    match check_event_deletion(&future, 1, 10_000) {
        Err(ApiError::Domain { source: DomainError::BusinessRuleViolation { message } }) => {
            assert_eq!(message, "Cannot delete an event that has already started")
        }
        other => panic!("expected a business rule violation, got {:?}", other),
    }
}

#[test]
fn new_events_prepared() {
    let event = prepare_new_event(&request(), 4).unwrap();
    assert_eq!(event.organizer_id, 4);
    assert_eq!(event.title, "Test Event");
    let mut bad = request();
    bad.description = String::new();
    assert!(matches!(prepare_new_event(&bad, 4), Err(ApiError::Validation { .. })));
}

#[test]
fn health_probe() {
    let healthy = health_report(&Ok(()), 1, "0.1.0");
    assert_eq!(healthy.status, "healthy");
    let down = health_report(&Err(DomainError::system_unavailable("no pool")), 1, "0.1.0");
    assert_eq!(down.status, "unhealthy");
    assert_eq!(down.services.database.details, Some("Database error: System unavailable: no pool".to_string()));
}

#[test]
fn duplicates_refused() {
    assert!(check_new_user(false).is_ok());
    match check_new_user(true) {
        Err(ApiError::Validation { field, message }) => {
            assert_eq!(field, "email");
            assert_eq!(message, "Email already exists");
        }
        other => panic!("expected a validation error, got {:?}", other),
    }
    let mut inv = EventInvitation {
        id: 1,
        event_id: 2,
        invited_user_id: Some(3),
        invited_contact_id: None,
        invited_email: Some("a@b.no".to_string()),
        invited_name: None,
        inviter_id: 4,
        invitation_method: InvitationMethod::Email,
        personal_message: None,
        status: InvitationStatus::Pending,
        sent_at: None,
        opened_at: None,
        responded_at: None,
        invitation_token: None,
        expires_at: None,
        created_at: 0,
        updated_at: 0,
    };
    assert!(matches!(check_new_invitation(&inv, Some(true), None), Err(ApiError::Validation { field, .. }) if field == "user_id"));
    assert!(matches!(check_new_invitation(&inv, Some(false), Some(true)), Err(ApiError::Validation { field, .. }) if field == "email"));
    assert!(check_new_invitation(&inv, Some(false), Some(false)).is_ok());
    inv.invited_user_id = None;
    assert!(check_new_invitation(&inv, None, Some(false)).is_ok());
    assert!(check_new_registration(false).is_ok());
    assert!(check_new_registration(true).is_err());
}

#[test]
fn status_changes() {
    let reg = registration(Some(1), RegistrationStatus::Registered);
    let cancelled = change_registration_status(reg.clone(), RegistrationStatus::Cancelled, 30);
    assert_eq!(cancelled.status, RegistrationStatus::Cancelled);
    assert_eq!(cancelled.cancelled_at, Some(30));
    assert_eq!(cancelled.checked_in_at, None);
    assert_eq!(cancelled.updated_at, 30);
    let attended = change_registration_status(reg.clone(), RegistrationStatus::Attended, 40);
    assert_eq!(attended.checked_in_at, Some(40));
    let waiting = change_registration_status(reg, RegistrationStatus::Waitlisted, 50);
    assert_eq!(waiting.cancelled_at, None);
    assert_eq!(waiting.checked_in_at, None);
}

#[test]
fn registration_statistics() {
    let regs = vec![
        registration(None, RegistrationStatus::Registered),
        registration(None, RegistrationStatus::Attended),
        registration(None, RegistrationStatus::Attended),
        registration(None, RegistrationStatus::Waitlisted),
        registration(None, RegistrationStatus::Cancelled),
        registration(None, RegistrationStatus::NoShow),
    ];
    let stats = registration_stats(&regs);
    assert_eq!(stats.total_registered, 3);
    assert_eq!(stats.total_attended, 2);
    assert_eq!(stats.total_waitlisted, 1);
    assert_eq!(stats.total_cancelled, 1);
    assert_eq!(attendance_count(&regs), 3);
    assert_eq!(waitlist_count(&regs), 1);
    assert_eq!(registration_stats(&vec![]).total_registered, 0);
}

fn stored_user(id: u128, keycloak_id: &str) -> User {
    User {
        id,
        keycloak_id: keycloak_id.to_string(),
        email: "someone@example.com".to_string(),
        name: "Someone".to_string(),
        company_id: None,
        role: UserRole::Organizer,
        is_active: true,
        created_at: 0,
        updated_at: 0,
    }
}

#[test]
fn signed_in_user_decisions() {
    let mut users = MockUserRepository::new();
    users.add_user(stored_user(7, "kc-7"));
    assert_eq!(signed_in_user(users.find_by_keycloak_id("kc-7"), "kc-7").unwrap(), 7);
    assert_eq!(signed_in_user(users.find_by_keycloak_id(ME), ME).unwrap(), ME_ID);
    match signed_in_user(users.find_by_keycloak_id("kc-unknown"), "kc-unknown") {
        Err(ApiError::Authentication { message }) => assert_eq!(message, "User not found"),
        other => panic!("expected an authentication failure, got {:?}", other),
    }
    assert!(matches!(
        signed_in_user(Err(DomainError::business_rule("Mock failure")), ME),
        Err(ApiError::Domain { .. })
    ));
}

#[test]
fn test_test_create_event_success() {
    let users = MockUserRepository::new();
    let mut events = MockEventRepository::new();
    let claims = create_organizer_claims();
    let request = create_event_request();

    let result = signed_in_user(users.find_by_keycloak_id(&claims.sub), &claims.sub)
        .and_then(|organizer| prepare_new_event(&request, organizer))
        .and_then(|event| events.create(&event).map(|_| event).map_err(|source| ApiError::Domain { source }));

    assert!(result.is_ok());
}

#[test]
fn test_event_ownership_validation() {
    let users = MockUserRepository::new();
    let mut events = MockEventRepository::new();
    let organizer_id: u128 = 0x0123456789abcdef0123456789abcdef;
    let mut organizer_claims = create_organizer_claims();
    organizer_claims.sub = "01234567-89ab-cdef-0123-456789abcdef".to_string();

    let created = signed_in_user(users.find_by_keycloak_id(&organizer_claims.sub), &organizer_claims.sub)
        .and_then(|organizer| prepare_new_event(&create_event_request(), organizer))
        .and_then(|event| events.create(&event).map(|_| event).map_err(|source| ApiError::Domain { source }));
    assert!(created.is_ok());
    assert_eq!(created.unwrap().organizer_id, organizer_id);

    let different_user_claims = create_organizer_claims();
    let other_event_id: u128 = 42;
    let update = signed_in_user(users.find_by_keycloak_id(&different_user_claims.sub), &different_user_claims.sub)
        .and_then(|_| found(events.find_by_id(other_event_id), "Event", other_event_id));
    assert!(update.is_err());
}
