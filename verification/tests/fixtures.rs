use aqio::api::fixtures::{
    create_admin_claims_at, create_event_request_at, create_participant_claims, create_user_request_at,
    setup_categories_at, setup_event_with_organizer_at, TestCategoryBuilder, TestEventBuilder,
    TestRegistrationBuilder, TestUserBuilder,
};
use aqio::domain::models::{EventStatus, LocationType, RegistrationStatus, UserRole};

#[test]
fn event_builder_defaults_and_changes() {
    let event = TestEventBuilder::new_at(1, 2, 1_000).with_title("Launch".to_string()).published().private().build();
    assert_eq!(event.id, 1);
    assert_eq!(event.organizer_id, 2);
    assert_eq!(event.title, "Launch");
    assert_eq!(event.status, EventStatus::Published);
    assert!(event.is_private);
    assert_eq!(event.start_date, 1_000 + 3_600_000);
    assert_eq!(event.end_date, 1_000 + 7_200_000);
    assert_eq!(event.location_type, LocationType::Virtual);
    assert_eq!(event.max_attendees, Some(100));
    let fresh = TestEventBuilder::new().build();
    assert_eq!(fresh.end_date - fresh.start_date, 3_600_000);
}

#[test]
fn user_builder_defaults_and_roles() {
    let user = TestUserBuilder::new_at(5, 1, 10).admin().with_email("a@b.no".to_string()).build();
    assert_eq!(user.keycloak_id, "keycloak_00000000-0000-0000-0000-000000000001");
    assert_eq!(user.role, UserRole::Admin);
    assert_eq!(user.email, "a@b.no");
    let inactive = TestUserBuilder::new().organizer().inactive().build();
    assert!(!inactive.is_active);
    assert_eq!(inactive.role, UserRole::Organizer);
}

#[test]
fn category_and_registration_builders() {
    let category = TestCategoryBuilder::new_at(3).with_id("workshop".to_string()).inactive().build();
    assert_eq!(category.id, "workshop");
    assert!(!category.is_active);
    assert_eq!(category.color_hex.as_deref(), Some("#FF0000"));

    let waitlisted = TestRegistrationBuilder::new_at(1, 2, 3, 100).waitlisted_at(200).build();
    assert_eq!(waitlisted.status, RegistrationStatus::Waitlisted);
    assert_eq!(waitlisted.waitlist_position, Some(1));
    assert_eq!(waitlisted.waitlist_added_at, Some(200));
    assert_eq!(waitlisted.user_id, Some(3));

    let guests = TestRegistrationBuilder::new().with_guests(2, vec!["A".to_string(), "B".to_string()]).attended().build();
    assert_eq!(guests.guest_count, 2);
    assert_eq!(guests.status, RegistrationStatus::Attended);
    assert!(guests.checked_in_at.is_some());
}

#[test]
fn request_and_claims_builders() {
    let request = create_event_request_at(0);
    assert_eq!(request.start_date, 3_600_000);
    assert_eq!(request.max_attendees, Some(100));
    let user = create_user_request_at(2);
    assert_eq!(user.keycloak_id, "keycloak_00000000-0000-0000-0000-000000000002");
    assert_eq!(user.role, Some(UserRole::Participant));

    let admin = create_admin_claims_at(1, 50);
    assert_eq!(admin.roles, Some(vec!["admin".to_string()]));
    assert_eq!(admin.exp, 3650);
    assert_eq!(admin.iat, 50);
    assert!(admin.is_admin());
    let participant = create_participant_claims();
    assert_eq!(participant.email, "participant@example.com");
    assert!(!participant.is_admin());
}

#[test]
fn scenario_setups() {
    let (event, organizer, events, users) = setup_event_with_organizer_at(1, 2, 3, 1_000);
    assert_eq!(event.organizer_id, organizer.id);
    assert_eq!(event.status, EventStatus::Published);
    assert_eq!(organizer.role, UserRole::Organizer);
    assert_eq!(events.find_by_id(1).unwrap().unwrap().title, "Test Event");
    assert_eq!(users.find_by_email("organizer@example.com").unwrap().unwrap().id, 2);

    let (categories, repo) = setup_categories_at(7);
    let ids: Vec<&str> = categories.iter().map(|c| c.id.as_str()).collect();
    assert_eq!(ids, vec!["general", "workshop", "inactive"]);
    let active: Vec<String> = repo.list_active().unwrap().into_iter().map(|c| c.id).collect();
    assert_eq!(active, vec!["general".to_string(), "workshop".to_string()]);
    assert_eq!(repo.find_by_id("inactive").unwrap().unwrap().name, "Inactive Category");
}
