use aqio::domain::errors::DomainError;
use aqio::domain::models::{
    Event, EventInvitation, EventRegistration, EventStatus, InvitationMethod, InvitationStatus, LocationType,
    RegistrationSource, RegistrationStatus, User, UserRole,
};
use aqio::domain::services::{EventService, InvitationService, RegistrationService, UserService};

fn now_millis() -> i64 {
    chrono::Utc::now().timestamp_millis()
}

fn create_test_event() -> Event {
    let now = now_millis();
    Event {
        id: uuid::Uuid::new_v4().as_u128(),
        title: "Test Event".to_string(),
        description: "A test event".to_string(),
        category_id: "test-category".to_string(),
        start_date: now + 24 * 3_600_000,
        end_date: now + 26 * 3_600_000,
        timezone: "UTC".to_string(),
        location_type: LocationType::Virtual,
        location_name: None,
        address: None,
        virtual_link: Some("https://example.com".to_string()),
        virtual_access_code: None,
        organizer_id: uuid::Uuid::new_v4().as_u128(),
        co_organizers: vec![],
        is_private: false,
        requires_approval: false,
        max_attendees: Some(10),
        allow_guests: false,
        max_guests_per_person: None,
        registration_opens: None,
        registration_closes: None,
        registration_required: true,
        allow_waitlist: true,
        send_reminders: true,
        collect_dietary_info: false,
        collect_accessibility_info: false,
        image_url: None,
        custom_fields: None,
        status: EventStatus::Published,
        created_at: now,
        updated_at: now,
    }
}

#[test]
fn test_event_service_calculate_available_spots() {
    let service = EventService::new();
    let event = create_test_event();

    assert_eq!(service.calculate_available_spots(&event, 5), Some(5));
    assert_eq!(service.calculate_available_spots(&event, 10), Some(0));
    assert_eq!(service.calculate_available_spots(&event, 15), Some(0));
}

#[test]
fn test_event_service_should_add_to_waitlist() {
    let service = EventService::new();
    let event = create_test_event();

    assert!(!service.should_add_to_waitlist(&event, 5));
    assert!(service.should_add_to_waitlist(&event, 10));
    assert!(service.should_add_to_waitlist(&event, 15));
}

#[test]
fn test_invitation_service_generate_token() {
    let service = InvitationService::new();
    let token1 = service.generate_invitation_token();
    let token2 = service.generate_invitation_token();

    assert_ne!(token1, token2);
    assert!(!token1.is_empty());
    assert!(!token2.is_empty());
}

#[test]
fn test_registration_service_calculate_waitlist_position() {
    let service = RegistrationService::new();

    assert_eq!(service.calculate_waitlist_position(0), 1);
    assert_eq!(service.calculate_waitlist_position(5), 6);
}

fn pending_invitation() -> EventInvitation {
    EventInvitation {
        id: 1,
        event_id: 2,
        invited_user_id: Some(3),
        invited_contact_id: None,
        invited_email: None,
        invited_name: None,
        inviter_id: 4,
        invitation_method: InvitationMethod::Email,
        personal_message: None,
        status: InvitationStatus::Pending,
        sent_at: None,
        opened_at: None,
        responded_at: None,
        invitation_token: None,
        expires_at: Some(1_000),
        created_at: 0,
        updated_at: 0,
    }
}

fn new_registration() -> EventRegistration {
    EventRegistration {
        id: 1,
        event_id: 2,
        invitation_id: None,
        user_id: Some(3),
        external_contact_id: None,
        registrant_email: None,
        registrant_name: None,
        registrant_phone: None,
        registrant_company: None,
        status: RegistrationStatus::Registered,
        registration_source: RegistrationSource::Direct,
        guest_count: 0,
        guest_names: vec![],
        dietary_restrictions: None,
        accessibility_needs: None,
        special_requests: None,
        custom_responses: None,
        registered_at: 0,
        cancelled_at: None,
        checked_in_at: None,
        waitlist_position: None,
        waitlist_added_at: None,
        created_at: 0,
        updated_at: 0,
    }
}

#[test]
fn invitation_stamps_are_the_given_instant() {
    let service = InvitationService::new();
    let mut inv = pending_invitation();
    service.mark_as_sent_at(&mut inv, 100);
    assert_eq!(inv.status, InvitationStatus::Sent);
    assert_eq!(inv.sent_at, Some(100));
    assert_eq!(inv.updated_at, 100);
    service.mark_as_opened_at(&mut inv, 200);
    assert_eq!(inv.status, InvitationStatus::Opened);
    assert_eq!(inv.opened_at, Some(200));
    // An opened invitation is not pending: answering it is refused.
    assert!(service.accept_invitation_at(&mut inv, 300).is_err());
    assert_eq!(inv.responded_at, None);

    let mut pending = pending_invitation();
    service.decline_invitation_at(&mut pending, 500).unwrap();
    assert_eq!(pending.status, InvitationStatus::Declined);
    assert_eq!(pending.responded_at, Some(500));
    assert_eq!(pending.updated_at, 500);

    let mut late = pending_invitation();
    match service.accept_invitation_at(&mut late, 1_001) {
        Err(DomainError::BusinessRuleViolation { message }) => assert_eq!(message, "Invitation has expired"),
        _ => panic!("expected the expiry to be reported"),
    }
    assert_eq!(late.status, InvitationStatus::Pending);
}

#[test]
fn registration_stamps_are_the_given_instant() {
    let service = RegistrationService::new();
    let mut reg = new_registration();
    service.register_for_event_at(&mut reg, true, 10);
    assert_eq!(reg.status, RegistrationStatus::Waitlisted);
    assert_eq!(reg.waitlist_added_at, Some(10));
    assert_eq!(reg.registered_at, 10);
    service.promote_from_waitlist_at(&mut reg, 20).unwrap();
    assert_eq!(reg.status, RegistrationStatus::Registered);
    assert_eq!(reg.waitlist_added_at, None);
    assert_eq!(reg.updated_at, 20);
    service.check_in_at(&mut reg, 30).unwrap();
    assert_eq!(reg.checked_in_at, Some(30));
    assert!(service.mark_no_show_at(&mut reg, 40).is_err());
    service.cancel_registration_at(&mut reg, 50).unwrap();
    assert_eq!(reg.cancelled_at, Some(50));
    assert_eq!(reg.updated_at, 50);
    assert!(service.cancel_registration_at(&mut reg, 60).is_err());
    assert_eq!(reg.updated_at, 50);

    let mut other = new_registration();
    service.mark_no_show_at(&mut other, 70).unwrap();
    assert_eq!(other.status, RegistrationStatus::NoShow);
    assert_eq!(other.updated_at, 70);
    service.register_for_event(&mut other, false);
    assert_eq!(other.status, RegistrationStatus::Registered);
    assert!(other.registered_at > 0);
}

#[test]
fn user_activity_is_stamped_with_the_given_instant() {
    let service = UserService::new();
    let mut user = User {
        id: 1,
        keycloak_id: "kc".to_string(),
        email: "a@b.no".to_string(),
        name: "A".to_string(),
        company_id: None,
        role: UserRole::Participant,
        is_active: true,
        created_at: 0,
        updated_at: 0,
    };
    service.deactivate_user_at(&mut user, 5);
    assert!(!user.is_active);
    assert_eq!(user.updated_at, 5);
    service.activate_user_at(&mut user, 6);
    assert!(user.is_active);
    assert_eq!(user.updated_at, 6);
    service.deactivate_user(&mut user);
    assert!(!user.is_active);
    assert!(user.updated_at > 6);
}
