use aqio::api::mocks::{
    MockEventCategoryRepository, MockEventRegistrationRepository, MockEventRepository, MockInvitationRepository,
    MockUserRepository,
};
use aqio::domain::errors::DomainError;
use aqio::domain::models::{
    Event, EventCategory, EventFilter, EventInvitation, EventRegistration, EventStatus, InvitationMethod,
    InvitationStatus, LocationType, PaginationParams, RegistrationSource, RegistrationStatus, User, UserRole,
};

fn event(id: u128, organizer: u128, category: &str, created_at: i64) -> Event {
    Event {
        id,
        title: format!("Event {}", id),
        description: "An event".to_string(),
        category_id: category.to_string(),
        start_date: 1_000_000,
        end_date: 2_000_000,
        timezone: "UTC".to_string(),
        location_type: LocationType::Physical,
        location_name: Some("Hall".to_string()),
        address: None,
        virtual_link: None,
        virtual_access_code: None,
        organizer_id: organizer,
        co_organizers: vec![organizer + 100],
        is_private: false,
        requires_approval: false,
        max_attendees: Some(5),
        allow_guests: false,
        max_guests_per_person: None,
        registration_opens: None,
        registration_closes: None,
        registration_required: true,
        allow_waitlist: false,
        send_reminders: true,
        collect_dietary_info: false,
        collect_accessibility_info: false,
        image_url: None,
        custom_fields: None,
        status: EventStatus::Published,
        created_at,
        updated_at: created_at,
    }
}

fn no_filter() -> EventFilter {
    EventFilter {
        title_contains: None,
        category_id: None,
        organizer_id: None,
        is_private: None,
        status: None,
        location_type: None,
        start_date_from: None,
        start_date_to: None,
    }
}

fn page(offset: i64, limit: i64) -> PaginationParams {
    PaginationParams { offset, limit }
}

fn ids(events: &[Event]) -> Vec<u128> {
    events.iter().map(|e| e.id).collect()
}

#[test]
fn mock_found_after_create() {
    let mut repo = MockEventRepository::new();
    let e = event(1, 10, "tech", 100);
    repo.create(&e).unwrap();
    let found = repo.find_by_id(1).unwrap().unwrap();
    assert_eq!(found.id, 1);
    assert_eq!(found.title, "Event 1");
    assert_eq!(found.co_organizers, vec![110]);
    assert!(repo.find_by_id(2).unwrap().is_none());
    assert!(repo.contains_event(1).unwrap());
    assert!(!repo.contains_event(2).unwrap());
}

#[test]
fn mock_create_replaces_same_id() {
    let mut repo = MockEventRepository::new();
    repo.create(&event(1, 10, "tech", 100)).unwrap();
    let mut changed = event(1, 10, "tech", 100);
    changed.title = "Renamed".to_string();
    repo.create(&changed).unwrap();
    assert_eq!(repo.find_by_id(1).unwrap().unwrap().title, "Renamed");
    assert_eq!(repo.list_all(page(0, 10)).unwrap().total_count, 1);
}

#[test]
fn mock_update_missing_is_not_found() {
    let mut repo = MockEventRepository::new();
    match repo.update(&event(7, 10, "tech", 100)) {
        Err(DomainError::NotFound { entity, identifier, value }) => {
            assert_eq!(entity, "Event");
            assert_eq!(identifier, "id");
            assert_eq!(value, uuid::Uuid::from_u128(7).to_string());
        }
        other => panic!("unexpected {:?}", other.is_ok()),
    }
    assert!(repo.find_by_id(7).unwrap().is_none());
}

#[test]
fn mock_update_replaces_stored_event() {
    let mut repo = MockEventRepository::new();
    repo.add_event(event(3, 10, "tech", 100));
    let mut changed = event(3, 10, "tech", 100);
    changed.max_attendees = Some(50);
    repo.update(&changed).unwrap();
    assert_eq!(repo.find_by_id(3).unwrap().unwrap().max_attendees, Some(50));
}

#[test]
fn mock_gone_after_delete() {
    let mut repo = MockEventRepository::new();
    repo.add_event(event(1, 10, "tech", 100));
    repo.add_event(event(2, 10, "tech", 200));
    repo.delete(1).unwrap();
    assert!(repo.find_by_id(1).unwrap().is_none());
    assert!(repo.find_by_id(2).unwrap().is_some());
    assert!(matches!(repo.delete(1), Err(DomainError::NotFound { .. })));
}

#[test]
fn mock_failure_switch() {
    let mut repo = MockEventRepository::new();
    repo.add_event(event(1, 10, "tech", 100));
    repo.set_should_fail(true);
    match repo.find_by_id(1) {
        Err(DomainError::BusinessRuleViolation { message }) => assert_eq!(message, "Mock failure"),
        _ => panic!("expected the mock failure"),
    }
    assert!(repo.create(&event(2, 10, "tech", 100)).is_err());
    assert!(repo.delete(1).is_err());
    repo.set_should_fail(false);
    assert!(repo.find_by_id(1).unwrap().is_some());
    assert!(repo.find_by_id(2).unwrap().is_none());
}

#[test]
fn mock_listing_is_newest_first_and_paged() {
    let mut repo = MockEventRepository::new();
    repo.add_event(event(1, 10, "tech", 100));
    repo.add_event(event(2, 20, "tech", 300));
    repo.add_event(event(3, 10, "art", 200));
    repo.add_event(event(4, 10, "tech", 400));

    let all = repo.list_all(page(0, 10)).unwrap();
    assert_eq!(ids(&all.items), vec![4, 2, 3, 1]);
    assert_eq!(all.total_count, 4);
    assert!(!all.has_next);

    let second = repo.list_all(page(1, 2)).unwrap();
    assert_eq!(ids(&second.items), vec![2, 3]);
    assert_eq!(second.total_count, 4);
    assert!(second.has_next);

    let beyond = repo.list_all(page(9, 2)).unwrap();
    assert!(beyond.items.is_empty());
    assert_eq!(beyond.total_count, 4);
}

#[test]
fn mock_filter_by_category_and_organizer() {
    let mut repo = MockEventRepository::new();
    repo.add_event(event(1, 10, "tech", 100));
    repo.add_event(event(2, 20, "tech", 300));
    repo.add_event(event(3, 10, "art", 200));

    let mut filter = no_filter();
    filter.category_id = Some("tech".to_string());
    let tech = repo.find_by_filter(&filter, page(0, 10)).unwrap();
    assert_eq!(ids(&tech.items), vec![2, 1]);

    filter.organizer_id = Some(10);
    let mine = repo.find_by_filter(&filter, page(0, 10)).unwrap();
    assert_eq!(ids(&mine.items), vec![1]);
    assert_eq!(mine.total_count, 1);

    let by_organizer = repo.find_by_organizer(10, page(0, 10)).unwrap();
    assert_eq!(ids(&by_organizer.items), vec![3, 1]);

    let art = repo.find_by_category("art").unwrap();
    assert_eq!(ids(&art), vec![3]);
    assert!(repo.find_by_category("music").unwrap().is_empty());
}

// ---------------------------------------------------------------------------
// Categories
// ---------------------------------------------------------------------------


fn category(id: &str, active: bool) -> EventCategory {
    EventCategory {
        id: id.to_string(),
        name: format!("Category {}", id),
        description: None,
        color_hex: Some("#112233".to_string()),
        icon_name: None,
        is_active: active,
        created_at: 5,
    }
}

#[test]
fn mock_categories_create_find_and_list() {
    let mut repo = MockEventCategoryRepository::new();
    repo.create(&category("tech", true)).unwrap();
    repo.create(&category("old", false)).unwrap();
    repo.add_category(category("art", true));

    let found = repo.find_by_id("tech").unwrap().unwrap();
    assert_eq!(found.name, "Category tech");
    assert!(repo.find_by_id("music").unwrap().is_none());

    let active: Vec<String> = repo.list_active().unwrap().into_iter().map(|c| c.id).collect();
    assert_eq!(active, vec!["tech".to_string(), "art".to_string()]);
    let all: Vec<String> = repo.list_all().unwrap().into_iter().map(|c| c.id).collect();
    assert_eq!(all, vec!["tech".to_string(), "old".to_string(), "art".to_string()]);
}

#[test]
fn mock_categories_update_and_delete() {
    let mut repo = MockEventCategoryRepository::new();
    repo.add_category(category("tech", true));
    let mut renamed = category("tech", true);
    renamed.name = "Technology".to_string();
    repo.update(&renamed).unwrap();
    assert_eq!(repo.find_by_id("tech").unwrap().unwrap().name, "Technology");

    match repo.update(&category("missing", true)) {
        Err(DomainError::NotFound { entity, identifier, value }) => {
            assert_eq!(entity, "EventCategory");
            assert_eq!(identifier, "id");
            assert_eq!(value, "missing");
        }
        _ => panic!("expected not found"),
    }

    repo.delete("tech").unwrap();
    assert!(repo.find_by_id("tech").unwrap().is_none());
    assert!(matches!(repo.delete("tech"), Err(DomainError::NotFound { .. })));

    repo.set_should_fail(true);
    assert!(matches!(repo.list_all(), Err(DomainError::BusinessRuleViolation { .. })));
}

// ---------------------------------------------------------------------------
// Users
// ---------------------------------------------------------------------------


fn user(id: u128, email: &str, keycloak: &str, created_at: i64) -> User {
    User {
        id,
        keycloak_id: keycloak.to_string(),
        email: email.to_string(),
        name: format!("User {}", id),
        company_id: None,
        role: UserRole::Participant,
        is_active: true,
        created_at,
        updated_at: created_at,
    }
}

#[test]
fn mock_users_create_refuses_a_known_email() {
    let mut repo = MockUserRepository::new();
    repo.create(&user(1, "a@example.com", "kc-1", 10)).unwrap();
    match repo.create(&user(2, "a@example.com", "kc-2", 20)) {
        Err(DomainError::ValidationError { field, message, .. }) => {
            assert_eq!(field, "email");
            assert_eq!(message, "Email already exists");
        }
        _ => panic!("expected the e-mail to be refused"),
    }
    assert!(repo.find_by_id(2).unwrap().is_none());
    assert!(repo.email_exists("a@example.com").unwrap());
    assert!(!repo.email_exists("b@example.com").unwrap());
}

#[test]
fn mock_users_find_by_email_and_keycloak_id() {
    let mut repo = MockUserRepository::new();
    repo.add_user(user(1, "a@example.com", "kc-1", 10));
    repo.add_user(user(2, "b@example.com", "kc-2", 20));
    assert_eq!(repo.find_by_email("b@example.com").unwrap().unwrap().id, 2);
    assert!(repo.find_by_email("c@example.com").unwrap().is_none());
    assert_eq!(repo.find_by_keycloak_id("kc-1").unwrap().unwrap().id, 1);
    assert!(repo.find_by_keycloak_id("kc-9").unwrap().is_none());
    assert!(repo.contains_user(1).unwrap());
    assert!(!repo.contains_user(3).unwrap());
}

#[test]
fn mock_users_update_leaves_the_email_index() {
    let mut repo = MockUserRepository::new();
    repo.add_user(user(1, "a@example.com", "kc-1", 10));
    repo.update(&user(1, "new@example.com", "kc-1", 10)).unwrap();
    let by_old = repo.find_by_email("a@example.com").unwrap().unwrap();
    assert_eq!(by_old.email, "new@example.com");
    assert!(repo.find_by_email("new@example.com").unwrap().is_none());
    assert!(matches!(repo.update(&user(5, "x@example.com", "kc-5", 1)), Err(DomainError::NotFound { .. })));
}

#[test]
fn mock_users_delete_clears_the_address() {
    let mut repo = MockUserRepository::new();
    repo.add_user(user(1, "a@example.com", "kc-1", 10));
    repo.delete(1).unwrap();
    assert!(repo.find_by_id(1).unwrap().is_none());
    assert!(!repo.email_exists("a@example.com").unwrap());
    assert!(matches!(repo.delete(1), Err(DomainError::NotFound { .. })));
}

#[test]
fn mock_users_listing_is_newest_first_and_paged() {
    let mut repo = MockUserRepository::new();
    repo.add_user(user(1, "a@example.com", "kc-1", 10));
    repo.add_user(user(2, "b@example.com", "kc-2", 30));
    repo.add_user(user(3, "c@example.com", "kc-3", 20));
    let page = repo.list_all(PaginationParams { offset: 0, limit: 2 }).unwrap();
    let ids: Vec<u128> = page.items.iter().map(|u| u.id).collect();
    assert_eq!(ids, vec![2, 3]);
    assert_eq!(page.total_count, 3);
    assert!(page.has_next);
    repo.set_should_fail(true);
    assert!(repo.find_by_email("a@example.com").is_err());
}

// ---------------------------------------------------------------------------
// Invitations
// ---------------------------------------------------------------------------

fn invitation(id: u128, event_id: u128, user: Option<u128>, email: Option<&str>, token: Option<&str>) -> EventInvitation {
    EventInvitation {
        id,
        event_id,
        invited_user_id: user,
        invited_contact_id: None,
        invited_email: email.map(|e| e.to_string()),
        invited_name: None,
        inviter_id: 99,
        invitation_method: InvitationMethod::Email,
        personal_message: None,
        status: InvitationStatus::Pending,
        sent_at: None,
        opened_at: None,
        responded_at: None,
        invitation_token: token.map(|t| t.to_string()),
        expires_at: None,
        created_at: 1,
        updated_at: 1,
    }
}

fn invitation_ids(v: &[EventInvitation]) -> Vec<u128> {
    v.iter().map(|i| i.id).collect()
}

#[test]
fn mock_invitations_indexes() {
    let mut repo = MockInvitationRepository::new();
    repo.create(&invitation(1, 10, Some(7), None, Some("tok-1"))).unwrap();
    repo.create(&invitation(2, 10, None, Some("guest@example.com"), None)).unwrap();
    repo.add_invitation(invitation(3, 20, Some(7), None, None));

    assert_eq!(invitation_ids(&repo.find_by_event_id(10).unwrap()), vec![1, 2]);
    assert_eq!(invitation_ids(&repo.find_by_user_id(7).unwrap()), vec![1, 3]);
    assert_eq!(invitation_ids(&repo.find_by_email("guest@example.com").unwrap()), vec![2]);
    assert_eq!(repo.find_by_token("tok-1").unwrap().unwrap().id, 1);
    assert!(repo.find_by_token("tok-2").unwrap().is_none());

    assert!(repo.user_invited_to_event(7, 10).unwrap());
    assert!(!repo.user_invited_to_event(8, 10).unwrap());
    assert!(repo.email_invited_to_event("guest@example.com", 10).unwrap());
    assert!(!repo.email_invited_to_event("guest@example.com", 20).unwrap());
}

#[test]
fn mock_invitations_delete_skips_in_indexes() {
    let mut repo = MockInvitationRepository::new();
    repo.add_invitation(invitation(1, 10, Some(7), None, Some("tok-1")));
    repo.add_invitation(invitation(2, 10, Some(8), None, None));
    repo.delete(1).unwrap();
    assert_eq!(invitation_ids(&repo.find_by_event_id(10).unwrap()), vec![2]);
    assert!(repo.find_by_token("tok-1").unwrap().is_none());
    assert!(!repo.user_invited_to_event(7, 10).unwrap());
    assert!(!repo.contains_invitation(1).unwrap());
    assert!(repo.contains_invitation(2).unwrap());
    match repo.delete(1) {
        Err(DomainError::NotFound { entity, .. }) => assert_eq!(entity, "EventInvitation"),
        _ => panic!("expected not found"),
    }
}

#[test]
fn mock_invitations_update_and_status() {
    let mut repo = MockInvitationRepository::new();
    repo.add_invitation(invitation(1, 10, Some(7), None, None));
    repo.update_status_at(1, InvitationStatus::Accepted, 500).unwrap();
    let stored = repo.find_by_id(1).unwrap().unwrap();
    assert_eq!(stored.status, InvitationStatus::Accepted);
    assert_eq!(stored.updated_at, 500);
    assert_eq!(stored.event_id, 10);

    repo.update_status(1, InvitationStatus::Declined).unwrap();
    assert_eq!(repo.find_by_id(1).unwrap().unwrap().status, InvitationStatus::Declined);
    assert!(matches!(repo.update_status(9, InvitationStatus::Sent), Err(DomainError::NotFound { .. })));

    let mut moved = invitation(1, 30, Some(7), None, None);
    moved.personal_message = Some("See you".to_string());
    repo.update(&moved).unwrap();
    // The event index still lists the invitation under its first event.
    let listed = repo.find_by_event_id(10).unwrap();
    assert_eq!(invitation_ids(&listed), vec![1]);
    assert_eq!(listed[0].event_id, 30);
    assert!(repo.find_by_event_id(30).unwrap().is_empty());

    repo.set_should_fail(true);
    assert!(matches!(repo.find_by_id(1), Err(DomainError::BusinessRuleViolation { .. })));
}

// ---------------------------------------------------------------------------
// Registrations
// ---------------------------------------------------------------------------

fn registration(id: u128, event_id: u128, user: Option<u128>) -> EventRegistration {
    EventRegistration {
        id,
        event_id,
        invitation_id: None,
        user_id: user,
        external_contact_id: None,
        registrant_email: None,
        registrant_name: None,
        registrant_phone: None,
        registrant_company: None,
        status: RegistrationStatus::Registered,
        registration_source: RegistrationSource::Direct,
        guest_count: 1,
        guest_names: vec!["Guest".to_string()],
        dietary_restrictions: None,
        accessibility_needs: None,
        special_requests: None,
        custom_responses: None,
        registered_at: 1,
        cancelled_at: None,
        checked_in_at: None,
        waitlist_position: None,
        waitlist_added_at: None,
        created_at: 1,
        updated_at: 1,
    }
}

fn registration_ids(v: &[EventRegistration]) -> Vec<u128> {
    v.iter().map(|r| r.id).collect()
}

#[test]
fn mock_registrations_indexes_and_lookup() {
    let mut repo = MockEventRegistrationRepository::new();
    repo.create(&registration(1, 10, Some(7))).unwrap();
    repo.create(&registration(2, 10, None)).unwrap();
    repo.add_registration(registration(3, 20, Some(7)));

    assert_eq!(registration_ids(&repo.find_by_event_id(10).unwrap()), vec![1, 2]);
    assert_eq!(registration_ids(&repo.find_by_user_id(7).unwrap()), vec![1, 3]);
    let found = repo.find_by_id(1).unwrap().unwrap();
    assert_eq!(found.guest_names, vec!["Guest".to_string()]);
    assert_eq!(repo.find_by_event_and_user(20, 7).unwrap().unwrap().id, 3);
    assert!(repo.find_by_event_and_user(20, 8).unwrap().is_none());
}

#[test]
fn mock_registrations_update_and_delete() {
    let mut repo = MockEventRegistrationRepository::new();
    repo.add_registration(registration(1, 10, Some(7)));
    let mut changed = registration(1, 10, Some(7));
    changed.status = RegistrationStatus::Attended;
    repo.update(&changed).unwrap();
    assert_eq!(repo.find_by_id(1).unwrap().unwrap().status, RegistrationStatus::Attended);
    match repo.update(&registration(5, 10, None)) {
        Err(DomainError::NotFound { entity, .. }) => assert_eq!(entity, "EventRegistration"),
        _ => panic!("expected not found"),
    }
    repo.delete(1).unwrap();
    assert!(repo.find_by_event_id(10).unwrap().is_empty());
    assert!(matches!(repo.delete(1), Err(DomainError::NotFound { .. })));
    repo.set_should_fail(true);
    assert!(repo.create(&registration(2, 10, None)).is_err());
}

#[test]
fn mock_listing_with_negative_bounds() {
    let mut repo = MockEventRepository::new();
    repo.add_event(event(1, 10, "tech", 100));
    repo.add_event(event(2, 20, "tech", 300));

    let before_start = repo.list_all(page(-1, 0)).unwrap();
    assert!(before_start.items.is_empty());
    assert_eq!(before_start.total_count, 2);
    assert_eq!(before_start.offset, -1);
    assert!(before_start.has_next);

    let unbounded = repo.list_all(page(0, -1)).unwrap();
    assert_eq!(ids(&unbounded.items), vec![2, 1]);
    assert!(unbounded.has_next);

    let mut users = MockUserRepository::new();
    users.add_user(user(1, "a@example.com", "kc-1", 100));
    let none = users.list_all(page(-5, 0)).unwrap();
    assert!(none.items.is_empty());
    assert_eq!(none.total_count, 1);
}
